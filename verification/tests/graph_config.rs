use produ_render::passes::is_swapchain_tag;
use produ_render::passes::tag_in;
use produ_render::passes::validate;
use produ_render::passes::first_producer;
use produ_render::passes::GraphConfigError;
use produ_render::graph::ImageSource;
use produ_render::passes::PassDescriptor;
use produ_render::graph::RenderGraph;
use produ_render::passes::SWAPCHAIN_TAG;

fn names(list: &[&str]) -> Vec<String> {
    list.iter().map(|n| n.to_string()).collect()
}

fn declare(name: &str, produces: &[&str], consumes: &[&str]) -> PassDescriptor {
    PassDescriptor {
        name: name.to_string(),
        produces: names(produces),
        consumes: names(consumes),
        render_pass: 0,
    }
}

fn build(passes: Vec<PassDescriptor>, custom: &[&str], output: &str) -> Result<RenderGraph, GraphConfigError> {
    RenderGraph::new(passes, names(custom), output)
}

#[test]
fn one_producer_of_the_output_is_accepted() {
    let graph = build(vec![declare("geometry", &["color"], &[])], &[], "color").unwrap();
    assert_eq!(graph.pass_count(), 1);
    assert_eq!(graph.active_pass(), None);
    assert_eq!(graph.bound_image(), None);
}

#[test]
fn the_example_graph_is_accepted() {
    let passes = vec![declare(
        "geometry",
        &["resolve_color", "multisampeld_color", "multisampled_depth"],
        &[],
    )];
    assert!(build(passes, &[], "resolve_color").is_ok());
}

#[test]
fn an_output_that_no_pass_produces_is_refused() {
    let refused = build(vec![declare("geometry", &["depth"], &[])], &[], "color");
    assert_eq!(refused.unwrap_err(), GraphConfigError::OutputNotProduced);
    let empty = build(vec![], &[], "color");
    assert_eq!(empty.unwrap_err(), GraphConfigError::OutputNotProduced);
}

#[test]
fn a_custom_image_does_not_stand_in_for_the_output() {
    let refused = build(vec![declare("geometry", &["depth"], &[])], &["color"], "color");
    assert_eq!(refused.unwrap_err(), GraphConfigError::OutputNotProduced);
}

#[test]
fn an_output_that_two_passes_produce_is_refused() {
    let passes = vec![declare("first", &["color"], &[]), declare("second", &["color"], &[])];
    assert_eq!(
        build(passes, &[], "color").unwrap_err(),
        GraphConfigError::DuplicateProducer { pass: 1, slot: 0 }
    );
}

#[test]
fn any_tag_that_two_passes_produce_is_refused() {
    let passes = vec![
        declare("first", &["depth", "color"], &[]),
        declare("second", &["normal"], &[]),
        declare("third", &["albedo", "depth"], &[]),
        declare("fourth", &["normal"], &[]),
    ];
    assert_eq!(
        build(passes, &[], "color").unwrap_err(),
        GraphConfigError::DuplicateProducer { pass: 2, slot: 1 }
    );
}

#[test]
fn a_duplicate_is_reported_before_a_missing_output() {
    let passes = vec![declare("first", &["depth"], &[]), declare("second", &["depth"], &["nothing"])];
    assert_eq!(
        build(passes, &[], "color").unwrap_err(),
        GraphConfigError::DuplicateProducer { pass: 1, slot: 0 }
    );
}

#[test]
fn a_missing_output_is_reported_before_an_unreadable_tag() {
    let passes = vec![declare("first", &["depth"], &["nothing"])];
    assert_eq!(build(passes, &[], "color").unwrap_err(), GraphConfigError::OutputNotProduced);
}

#[test]
fn a_tag_listed_twice_by_one_pass_is_produced_by_one_pass() {
    let passes = vec![declare("first", &["color", "color"], &[])];
    assert!(build(passes, &[], "color").is_ok());
}

#[test]
fn the_swapchain_tag_needs_no_producer() {
    assert_eq!(SWAPCHAIN_TAG, "swapchain");
    assert!(build(vec![], &[], SWAPCHAIN_TAG).is_ok());
    assert!(build(vec![declare("geometry", &["depth"], &[])], &[], SWAPCHAIN_TAG).is_ok());
    assert!(build(vec![declare("geometry", &["swapchain"], &[])], &[], SWAPCHAIN_TAG).is_ok());
}

#[test]
fn the_swapchain_tag_produced_twice_is_refused() {
    let passes = vec![declare("first", &["swapchain"], &[]), declare("second", &["swapchain"], &[])];
    assert_eq!(
        build(passes, &[], SWAPCHAIN_TAG).unwrap_err(),
        GraphConfigError::DuplicateProducer { pass: 1, slot: 0 }
    );
}

#[test]
fn a_tag_from_an_earlier_pass_can_be_read() {
    let passes = vec![declare("first", &["depth"], &[]), declare("second", &["color"], &["depth"])];
    assert!(build(passes, &[], "color").is_ok());
}

#[test]
fn a_tag_from_a_later_pass_cannot_be_read() {
    let passes = vec![declare("first", &["color"], &["depth"]), declare("second", &["depth"], &[])];
    assert_eq!(
        build(passes, &[], "color").unwrap_err(),
        GraphConfigError::UnresolvedInput { pass: 0, slot: 0 }
    );
}

#[test]
fn a_pass_cannot_read_what_it_produces_itself() {
    let passes = vec![declare("first", &["color", "depth"], &["depth"])];
    assert_eq!(
        build(passes, &[], "color").unwrap_err(),
        GraphConfigError::UnresolvedInput { pass: 0, slot: 0 }
    );
}

#[test]
fn the_first_unreadable_tag_is_reported() {
    let passes = vec![
        declare("first", &["depth"], &["shadow"]),
        declare("second", &["color"], &["depth", "shadow", "missing", "gone"]),
        declare("third", &["extra"], &["absent"]),
    ];
    assert_eq!(
        build(passes, &["shadow"], "color").unwrap_err(),
        GraphConfigError::UnresolvedInput { pass: 1, slot: 2 }
    );
}

#[test]
fn a_custom_image_can_be_read() {
    let passes = vec![declare("first", &["color"], &["environment"])];
    assert!(build(passes, &["environment"], "color").is_ok());
}

#[test]
fn the_output_can_be_read_by_any_pass() {
    let passes = vec![declare("first", &["depth"], &["color"]), declare("second", &["color"], &[])];
    assert!(build(passes, &[], "color").is_ok());
    let blend = vec![declare("blend", &[], &["swapchain"])];
    assert!(build(blend, &[], SWAPCHAIN_TAG).is_ok());
    let stray = vec![declare("blend", &["color"], &["swapchain"])];
    assert_eq!(
        build(stray, &[], "color").unwrap_err(),
        GraphConfigError::UnresolvedInput { pass: 0, slot: 0 }
    );
}

#[test]
fn validate_agrees_with_new() {
    let passes = vec![declare("first", &["color"], &[]), declare("second", &["color"], &[])];
    let verdict = validate(&passes, &vec![], &"color".to_string());
    assert_eq!(verdict, Err(GraphConfigError::DuplicateProducer { pass: 1, slot: 0 }));
    let fine = vec![declare("first", &["color"], &[])];
    assert_eq!(validate(&fine, &vec![], &"color".to_string()), Ok(()));
}

#[test]
fn tags_are_found_by_their_text() {
    let list = names(&["a", "bc", ""]);
    assert!(tag_in(&list, &"bc".to_string()));
    assert!(tag_in(&list, &"".to_string()));
    assert!(!tag_in(&list, &"b".to_string()));
    assert!(!tag_in(&vec![], &"a".to_string()));
    assert!(is_swapchain_tag(&"swapchain".to_string()));
    assert!(!is_swapchain_tag(&"Swapchain".to_string()));
}

#[test]
fn the_first_producer_is_found() {
    let passes = vec![
        declare("first", &["a"], &[]),
        declare("second", &["b", "c"], &[]),
        declare("third", &["c"], &[]),
    ];
    assert_eq!(first_producer(&passes, 3, &"c".to_string()), Some(1));
    assert_eq!(first_producer(&passes, 1, &"c".to_string()), None);
    assert_eq!(first_producer(&passes, 0, &"a".to_string()), None);
    assert_eq!(first_producer(&passes, 3, &"d".to_string()), None);
}

#[test]
fn images_are_found_by_tag() {
    let passes = vec![
        declare("first", &["depth"], &["environment"]),
        declare("second", &["color", "normal"], &["depth"]),
    ];
    let graph = build(passes, &["environment", "depth"], "color").unwrap();
    assert_eq!(graph.image_source("color"), Some(ImageSource::Swapchain));
    assert_eq!(graph.image_source("environment"), Some(ImageSource::Custom));
    assert_eq!(graph.image_source("depth"), Some(ImageSource::Custom));
    assert_eq!(graph.image_source("normal"), Some(ImageSource::GraphOwned { producer: 1 }));
    assert_eq!(graph.image_source("missing"), None);
    assert_eq!(graph.image_source("swapchain"), None);
}
