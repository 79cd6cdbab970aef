use produ_render::graph::DrawCall;
use produ_render::graph::FrameStart;
use produ_render::passes::PassDescriptor;
use produ_render::graph::RenderGraph;
use produ_render::passes::SWAPCHAIN_TAG;
use produ_render::signal::Stage;
use produ_render::swapchain::AlphaMode;
use produ_render::swapchain::ImageHandle;
use produ_render::swapchain::RecreateOutcome;
use produ_render::swapchain::SwapchainConfig;
use produ_render::vk_window::AcquireOutcome;
use produ_render::vk_window::FrameError;
use produ_render::vk_window::Phase;
use produ_render::vk_window::PresentOutcome;
use produ_render::vk_window::VkWindow;
use produ_render::window::Window;

fn surface(width: u32, height: u32) -> Window {
    let config = SwapchainConfig {
        image_count: 2,
        format_index: 0,
        extent: [width, height],
        composite_alpha: AlphaMode::Opaque,
    };
    Window::new(VkWindow::new(&config, 2), 0)
}

fn stage(name: &str, produces: &[&str], consumes: &[&str]) -> PassDescriptor {
    PassDescriptor {
        name: name.to_string(),
        produces: produces.iter().map(|t| t.to_string()).collect(),
        consumes: consumes.iter().map(|t| t.to_string()).collect(),
        render_pass: 0,
    }
}

fn single() -> RenderGraph {
    RenderGraph::new(vec![stage("geometry", &["color"], &[])], vec![], "color").unwrap()
}

fn image(image_index: usize) -> AcquireOutcome {
    AcquireOutcome::Acquired { image_index, suboptimal: false }
}

#[test]
fn finishing_without_a_frame_is_refused() {
    let mut window = surface(800, 600);
    let mut graph = single();
    assert_eq!(graph.finish_to_window(&mut window).unwrap_err(), FrameError::NoOpenFrame);
    assert_eq!(window.phase(), Phase::Idle);
    assert_eq!(graph.add_object(1), Err(FrameError::NoOpenFrame));
    assert_eq!(graph.next_pass(), Err(FrameError::NoOpenFrame));
}

#[test]
fn each_started_frame_is_presented_once() {
    let mut window = surface(800, 600);
    let mut graph = single();
    let mut presents = 0;
    for frame in 0..10usize {
        graph.start_window(&mut window, image(frame % 2)).unwrap();
        let plan = graph.finish_to_window(&mut window).unwrap();
        if let Some(request) = plan.present {
            presents += 1;
            assert_eq!(request.image_index, frame % 2);
        }
        assert_eq!(window.phase(), Phase::Presenting);
        assert_eq!(graph.finish_to_window(&mut window).unwrap_err(), FrameError::NoOpenFrame);
        assert_eq!(window.phase(), Phase::Presenting);
        window.finish_present(PresentOutcome::Flushed).unwrap();
        assert_eq!(presents, frame + 1);
    }
}

#[test]
fn a_dropped_frame_is_not_presented() {
    let mut window = surface(800, 600);
    let mut graph = single();
    let started = graph.start_window(&mut window, AcquireOutcome::OutOfDate).unwrap();
    assert_eq!(started, FrameStart::Dropped);
    assert_eq!(graph.bound_image(), None);
    assert_eq!(graph.active_pass(), None);
    assert_eq!(graph.add_object(3), Ok(()));
    assert_eq!(graph.next_pass(), Ok(()));
    let plan = graph.finish_to_window(&mut window).unwrap();
    assert!(plan.dropped);
    assert!(plan.present.is_none());
    assert!(plan.draws.is_empty());
    assert_eq!(window.phase(), Phase::Acquiring);
    assert_eq!(window.image_num(), None);
    assert_eq!(graph.finish_to_window(&mut window).unwrap_err(), FrameError::NoOpenFrame);
}

#[test]
fn a_suboptimal_image_drops_the_frame() {
    let mut window = surface(800, 600);
    let mut graph = single();
    let outcome = AcquireOutcome::Acquired { image_index: 1, suboptimal: true };
    assert_eq!(graph.start_window(&mut window, outcome), Ok(FrameStart::Dropped));
    assert!(window.needs_rebuild());
    let plan = graph.finish_to_window(&mut window).unwrap();
    assert!(plan.dropped);
    assert!(plan.present.is_none());
}

#[test]
fn a_failed_start_leaves_the_graph_as_it_was() {
    let mut window = surface(800, 600);
    let mut graph = single();
    assert_eq!(
        graph.start_window(&mut window, AcquireOutcome::Failed),
        Err(FrameError::AcquireFailed)
    );
    assert_eq!(graph.finish_to_window(&mut window).unwrap_err(), FrameError::NoOpenFrame);
    assert_eq!(graph.start_window(&mut window, image(9)), Err(FrameError::ImageOutOfRange));
    window.set_retry_limit(Some(0));
    assert_eq!(
        graph.start_window(&mut window, AcquireOutcome::OutOfDate),
        Err(FrameError::AcquireTimeout)
    );
    assert_eq!(graph.finish_to_window(&mut window).unwrap_err(), FrameError::NoOpenFrame);
}

#[test]
fn starting_twice_is_refused_and_keeps_the_frame() {
    let mut window = surface(800, 600);
    let mut graph = single();
    graph.start_window(&mut window, image(0)).unwrap();
    graph.add_object(5).unwrap();
    assert_eq!(graph.start_window(&mut window, image(1)), Err(FrameError::FrameAlreadyOpen));
    assert_eq!(graph.bound_image(), Some(ImageHandle { index: 0, generation: 0 }));
    let plan = graph.finish_to_window(&mut window).unwrap();
    assert_eq!(plan.draws, vec![DrawCall { pass: 0, object: 5 }]);
    assert_eq!(plan.present.unwrap().image_index, 0);
}

#[test]
fn finishing_on_a_window_without_the_frame_is_refused() {
    let mut window = surface(800, 600);
    let mut other = surface(800, 600);
    let mut graph = single();
    graph.start_window(&mut window, image(0)).unwrap();
    assert_eq!(graph.finish_to_window(&mut other).unwrap_err(), FrameError::NoOpenFrame);
    assert_eq!(other.phase(), Phase::Idle);
    assert_eq!(graph.bound_image(), Some(ImageHandle { index: 0, generation: 0 }));
    assert!(graph.finish_to_window(&mut window).is_ok());
}

#[test]
fn draws_go_to_the_active_pass() {
    let mut window = surface(800, 600);
    let passes = vec![
        stage("shadow", &["shadow_map"], &[]),
        stage("geometry", &["depth"], &["shadow_map"]),
        stage("shade", &["color"], &["depth", "shadow_map"]),
    ];
    let mut graph = RenderGraph::new(passes, vec![], "color").unwrap();
    graph.start_window(&mut window, image(0)).unwrap();
    graph.add_object(10).unwrap();
    graph.add_object(11).unwrap();
    graph.next_pass().unwrap();
    graph.next_pass().unwrap();
    assert_eq!(graph.next_pass(), Err(FrameError::NoNextPass));
    assert_eq!(graph.active_pass(), Some(2));
    graph.add_object(10).unwrap();
    let plan = graph.finish_to_window(&mut window).unwrap();
    assert_eq!(plan.passes, vec![0, 1, 2]);
    assert_eq!(
        plan.draws,
        vec![
            DrawCall { pass: 0, object: 10 },
            DrawCall { pass: 0, object: 11 },
            DrawCall { pass: 2, object: 10 },
        ]
    );
}

#[test]
fn a_graph_without_passes_presents_the_image_untouched() {
    let mut window = surface(800, 600);
    let mut graph = RenderGraph::new(vec![], vec![], SWAPCHAIN_TAG).unwrap();
    graph.start_window(&mut window, image(1)).unwrap();
    assert_eq!(graph.add_object(1), Err(FrameError::NoActivePass));
    assert_eq!(graph.next_pass(), Err(FrameError::NoNextPass));
    let plan = graph.finish_to_window(&mut window).unwrap();
    assert!(plan.passes.is_empty());
    assert!(plan.draws.is_empty());
    assert_eq!(
        plan.present.unwrap().chain.stages,
        vec![
            Stage::Completed,
            Stage::Acquire { image_index: 1 },
            Stage::Present { image_index: 1 },
            Stage::Fence,
        ]
    );
}

#[test]
fn owned_images_follow_the_window() {
    let mut window = surface(800, 600);
    let mut graph = single();
    graph.start_window(&mut window, image(0)).unwrap();
    assert_eq!(graph.finish_to_window(&mut window).unwrap().allocate, Some([800, 600]));
    window.finish_present(PresentOutcome::Flushed).unwrap();
    graph.start_window(&mut window, image(1)).unwrap();
    assert_eq!(graph.finish_to_window(&mut window).unwrap().allocate, None);
    window.finish_present(PresentOutcome::Flushed).unwrap();

    window.rebuild([800, 601], RecreateOutcome::Recreated { image_count: 2 }).unwrap();
    graph.start_window(&mut window, image(0)).unwrap();
    assert_eq!(graph.finish_to_window(&mut window).unwrap().allocate, Some([800, 601]));
    window.finish_present(PresentOutcome::Flushed).unwrap();

    window.rebuild([800, 601], RecreateOutcome::Recreated { image_count: 2 }).unwrap();
    graph.start_window(&mut window, image(0)).unwrap();
    assert_eq!(graph.finish_to_window(&mut window).unwrap().allocate, None);
}

#[test]
fn owned_images_of_fixed_size_stay_as_they_are() {
    let mut window = surface(800, 600);
    let mut graph = single();
    graph.set_tracks_window(false);
    graph.start_window(&mut window, image(0)).unwrap();
    assert_eq!(graph.finish_to_window(&mut window).unwrap().allocate, Some([800, 600]));
    window.finish_present(PresentOutcome::Flushed).unwrap();
    window.rebuild([1024, 768], RecreateOutcome::Recreated { image_count: 2 }).unwrap();
    graph.start_window(&mut window, image(0)).unwrap();
    assert_eq!(graph.finish_to_window(&mut window).unwrap().allocate, None);
    window.finish_present(PresentOutcome::Flushed).unwrap();
    graph.set_tracks_window(true);
    graph.start_window(&mut window, image(1)).unwrap();
    assert_eq!(graph.finish_to_window(&mut window).unwrap().allocate, Some([1024, 768]));
}
