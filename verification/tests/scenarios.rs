use produ_render::graph::DrawCall;
use produ_render::graph::FrameStart;
use produ_render::passes::PassDescriptor;
use produ_render::graph::RenderGraph;
use produ_render::signal::Stage;
use produ_render::swapchain::swapchain_config;
use produ_render::swapchain::AlphaSupport;
use produ_render::swapchain::ImageHandle;
use produ_render::swapchain::RecreateOutcome;
use produ_render::swapchain::SurfaceCapabilities;
use produ_render::vk_window::AcquireOutcome;
use produ_render::vk_window::Phase;
use produ_render::vk_window::PresentOutcome;
use produ_render::vk_window::VkWindow;
use produ_render::window::Event;
use produ_render::window::Window;

fn scenario_tags(names: &[&str]) -> Vec<String> {
    names.iter().map(|n| n.to_string()).collect()
}

fn scenario_pass(name: &str, produces: &[&str], consumes: &[&str]) -> PassDescriptor {
    PassDescriptor {
        name: name.to_string(),
        produces: scenario_tags(produces),
        consumes: scenario_tags(consumes),
        render_pass: 0,
    }
}

fn scenario_window(width: u32, height: u32) -> Window {
    let caps = SurfaceCapabilities {
        min_image_count: 2,
        format_count: 1,
        composite_alpha: AlphaSupport {
            opaque: true,
            pre_multiplied: false,
            post_multiplied: false,
            inherit: false,
        },
    };
    let config = swapchain_config(&caps, [width, height]).unwrap();
    Window::new(VkWindow::new(&config, 2), 0)
}

fn scenario_acquired(image_index: usize) -> AcquireOutcome {
    AcquireOutcome::Acquired { image_index, suboptimal: false }
}

#[test]
fn one_pass_presents_alternating_images() {
    let mut window = scenario_window(800, 600);
    let mut graph =
        RenderGraph::new(vec![scenario_pass("geometry", &["color"], &[])], vec![], "color")
            .unwrap();
    assert_eq!(window.swapchain().extent, [800, 600]);

    assert!(!window.update(&vec![]).done);
    let started = graph.start_window(&mut window, scenario_acquired(0)).unwrap();
    assert_eq!(started, FrameStart::Started(ImageHandle { index: 0, generation: 0 }));
    assert_eq!(graph.bound_image(), Some(ImageHandle { index: 0, generation: 0 }));
    graph.add_object(7).unwrap();
    let plan = graph.finish_to_window(&mut window).unwrap();
    assert!(!plan.dropped);
    assert_eq!(plan.image, Some(ImageHandle { index: 0, generation: 0 }));
    assert_eq!(plan.passes, vec![0]);
    assert_eq!(plan.draws, vec![DrawCall { pass: 0, object: 7 }]);
    assert_eq!(plan.allocate, Some([800, 600]));
    let request = plan.present.unwrap();
    assert_eq!(request.image_index, 0);
    assert_eq!(
        request.chain.stages,
        vec![
            Stage::Completed,
            Stage::Acquire { image_index: 0 },
            Stage::Execute { pass: 0 },
            Stage::Present { image_index: 0 },
            Stage::Fence,
        ]
    );
    assert_eq!(window.phase(), Phase::Presenting);
    window.finish_present(PresentOutcome::Flushed).unwrap();
    assert_eq!(window.phase(), Phase::Idle);

    assert!(!window.update(&vec![]).done);
    let started = graph.start_window(&mut window, scenario_acquired(1)).unwrap();
    assert_eq!(started, FrameStart::Started(ImageHandle { index: 1, generation: 0 }));
    let plan = graph.finish_to_window(&mut window).unwrap();
    assert_eq!(plan.allocate, None);
    let request = plan.present.unwrap();
    assert_eq!(request.image_index, 1);
    assert_eq!(
        request.chain.stages,
        vec![
            Stage::PreviousFrame,
            Stage::Acquire { image_index: 1 },
            Stage::Execute { pass: 0 },
            Stage::Present { image_index: 1 },
            Stage::Fence,
        ]
    );
    window.finish_present(PresentOutcome::Flushed).unwrap();
    assert_eq!(window.phase(), Phase::Idle);
}

#[test]
fn resize_drops_the_frame_and_rebuilds() {
    let mut window = scenario_window(800, 600);
    let mut graph =
        RenderGraph::new(vec![scenario_pass("geometry", &["color"], &[])], vec![], "color")
            .unwrap();
    graph.start_window(&mut window, scenario_acquired(0)).unwrap();
    let plan = graph.finish_to_window(&mut window).unwrap();
    assert_eq!(plan.allocate, Some([800, 600]));
    window.finish_present(PresentOutcome::Flushed).unwrap();

    assert!(!window.update(&vec![Event::Resized]).done);
    assert!(window.needs_rebuild());
    let started = graph.start_window(&mut window, AcquireOutcome::OutOfDate).unwrap();
    assert_eq!(started, FrameStart::Dropped);
    assert_eq!(window.phase(), Phase::Acquiring);
    assert_eq!(window.image_num(), None);
    window.rebuild([1024, 768], RecreateOutcome::Recreated { image_count: 2 }).unwrap();
    assert_eq!(window.swapchain().extent, [1024, 768]);
    assert_eq!(window.swapchain().generation, 1);
    assert!(!window.needs_rebuild());
    graph.add_object(1).unwrap();
    let plan = graph.finish_to_window(&mut window).unwrap();
    assert!(plan.dropped);
    assert!(plan.present.is_none());
    assert!(plan.image.is_none());
    assert!(plan.passes.is_empty());
    assert!(plan.draws.is_empty());
    assert_eq!(plan.allocate, None);
    assert_eq!(window.phase(), Phase::Acquiring);

    assert!(!window.update(&vec![]).done);
    let started = graph.start_window(&mut window, scenario_acquired(0)).unwrap();
    assert_eq!(started, FrameStart::Started(ImageHandle { index: 0, generation: 1 }));
    let plan = graph.finish_to_window(&mut window).unwrap();
    assert_eq!(plan.allocate, Some([1024, 768]));
    assert_eq!(plan.present.unwrap().image_index, 0);
    window.finish_present(PresentOutcome::Flushed).unwrap();
    assert_eq!(window.swapchain().extent, [1024, 768]);
    assert_eq!(window.get_dimensions(), [1024, 768]);
}

#[test]
fn two_passes_run_in_declared_order() {
    let mut window = scenario_window(800, 600);
    let passes = vec![
        scenario_pass("depth_only", &["depth"], &[]),
        scenario_pass("shade", &["color"], &["depth"]),
    ];
    let mut graph = RenderGraph::new(passes, vec![], "color").unwrap();

    graph.start_window(&mut window, scenario_acquired(0)).unwrap();
    assert_eq!(graph.active_pass(), Some(0));
    graph.add_object(1).unwrap();
    graph.next_pass().unwrap();
    assert_eq!(graph.active_pass(), Some(1));
    graph.add_object(2).unwrap();
    let plan = graph.finish_to_window(&mut window).unwrap();
    assert_eq!(plan.passes, vec![0, 1]);
    assert_eq!(
        plan.draws,
        vec![DrawCall { pass: 0, object: 1 }, DrawCall { pass: 1, object: 2 }]
    );
    assert_eq!(
        plan.present.unwrap().chain.stages,
        vec![
            Stage::Completed,
            Stage::Acquire { image_index: 0 },
            Stage::Execute { pass: 0 },
            Stage::Execute { pass: 1 },
            Stage::Present { image_index: 0 },
            Stage::Fence,
        ]
    );
}

#[test]
fn passes_run_in_declared_order_even_without_draws() {
    let mut window = scenario_window(640, 480);
    let passes = vec![
        scenario_pass("a", &["one"], &[]),
        scenario_pass("b", &["two"], &["one"]),
        scenario_pass("c", &["color"], &["one", "two"]),
    ];
    let mut graph = RenderGraph::new(passes, vec![], "color").unwrap();
    graph.start_window(&mut window, scenario_acquired(1)).unwrap();
    let plan = graph.finish_to_window(&mut window).unwrap();
    assert_eq!(plan.passes, vec![0, 1, 2]);
    assert!(plan.draws.is_empty());
    assert_eq!(
        plan.present.unwrap().chain.stages,
        vec![
            Stage::Completed,
            Stage::Acquire { image_index: 1 },
            Stage::Execute { pass: 0 },
            Stage::Execute { pass: 1 },
            Stage::Execute { pass: 2 },
            Stage::Present { image_index: 1 },
            Stage::Fence,
        ]
    );
}
