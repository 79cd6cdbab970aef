//! What holds of the library as a whole, stated over the mathematical
//! values that the contracts of its functions speak of.

use crate::graph::executed_chain;
use crate::graph::FrameStart;
use crate::graph::FrameView;
use crate::graph::RenderGraphView;
use crate::passes::comes_before;
use crate::passes::config_verdict;
use crate::passes::duplicate_at;
use crate::passes::GraphConfigError;
use crate::passes::has_duplicate;
use crate::passes::PassView;
use crate::passes::produced;
use crate::passes::producer_count;
use crate::passes::SWAPCHAIN_TAG;
use crate::passes::unresolved_at;
use crate::signal::Stage;
use crate::swapchain::ImageHandle;
use crate::swapchain::next_generation;
use crate::swapchain::RecreateOutcome;
use crate::vk_window::AcquireOutcome;
use crate::vk_window::FrameError;
use crate::vk_window::invalidated;
use crate::vk_window::NextImage;
use crate::vk_window::Phase;
use crate::vk_window::present_chain;
use crate::vk_window::PresentOutcome;
use crate::vk_window::VkWindowView;
use crate::window::WindowView;
use vstd::prelude::*;

verus! {

/// One call on the presentation state of a window.
pub enum Step {
    /// `next_image` with the device's answer.
    Acquire(AcquireOutcome),
    /// `rebuild` for a window of this inner size, with the device's answer.
    Rebuild { inner_size: [u32; 2], outcome: RecreateOutcome },
    /// `get_future`.
    GetFuture,
    /// `present_image`.
    Present,
    /// `finish_present` with the queue's answer.
    Flush(PresentOutcome),
    /// `mark_for_rebuild`, as a resize event causes.
    MarkForRebuild,
    /// `update_dimensions` with this inner size.
    UpdateDimensions([u32; 2]),
    /// `set_retry_limit`.
    SetRetryLimit(Option<u32>),
}

/// The state that one call leaves.
pub open spec fn step(window: VkWindowView, call: Step) -> VkWindowView {
    match call {
        Step::Acquire(outcome) => window.after_acquire(outcome),
        Step::Rebuild { inner_size, outcome } => window.after_rebuild(inner_size, outcome),
        Step::GetFuture => window.after_get_future(),
        Step::Present => window.after_present(),
        Step::Flush(outcome) => window.after_flush(outcome),
        Step::MarkForRebuild => VkWindowView { needs_rebuild: true, ..window },
        Step::UpdateDimensions(inner_size) => VkWindowView { dimensions: inner_size, ..window },
        Step::SetRetryLimit(limit) => VkWindowView { retry_limit: limit, ..window },
    }
}

/// The state that a history of calls leaves.
pub open spec fn run(window: VkWindowView, calls: Seq<Step>) -> VkWindowView
    decreases calls.len(),
{
    if calls.len() == 0 {
        window
    } else {
        step(run(window, calls.drop_last()), calls.last())
    }
}

/// Whether this call opens a frame.
pub open spec fn opens_frame(window: VkWindowView, call: Step) -> bool {
    call matches Step::Acquire(outcome) && window.acquire_result(outcome) matches Ok(
        NextImage::Image(_),
    )
}

/// Whether this call ends the frame that is open.
pub open spec fn closes_frame(window: VkWindowView, call: Step) -> bool {
    call is Flush && window.slot is Presenting
}

/// How many frames a history of calls opened.
pub open spec fn frames_opened(window: VkWindowView, calls: Seq<Step>) -> nat
    decreases calls.len(),
{
    if calls.len() == 0 {
        0
    } else {
        frames_opened(window, calls.drop_last()) + if opens_frame(
            run(window, calls.drop_last()),
            calls.last(),
        ) {
            1nat
        } else {
            0nat
        }
    }
}

/// How many frames a history of calls ended.
pub open spec fn frames_closed(window: VkWindowView, calls: Seq<Step>) -> nat
    decreases calls.len(),
{
    if calls.len() == 0 {
        0
    } else {
        frames_closed(window, calls.drop_last()) + if closes_frame(
            run(window, calls.drop_last()),
            calls.last(),
        ) {
            1nat
        } else {
            0nat
        }
    }
}

/// Whatever happened to a window before, a rebuild that the device carried
/// out leaves the swapchain with the extent that is the window's inner size
/// at that moment, and in the next generation.
pub proof fn lemma_rebuild_follows_window(
    window: VkWindowView,
    history: Seq<Step>,
    inner_size: [u32; 2],
    image_count: usize,
)
    ensures
        ({
            let before = run(window, history);
            let after = run(
                window,
                history.push(
                    Step::Rebuild { inner_size, outcome: RecreateOutcome::Recreated { image_count } },
                ),
            );
            &&& after.swapchain.extent == inner_size
            &&& after.swapchain.image_count == image_count
            &&& after.swapchain.generation == next_generation(before.swapchain.generation)
            &&& after.dimensions == inner_size
            &&& !after.needs_rebuild
            &&& after.slot == before.slot
        }),
{
    let call = Step::Rebuild { inner_size, outcome: RecreateOutcome::Recreated { image_count } };
    assert(history.push(call).drop_last() == history);
    assert(history.push(call).last() == call);
}

/// A rebuild that the device refused leaves the swapchain as it was.
pub proof fn lemma_failed_rebuild_keeps_swapchain(
    window: VkWindowView,
    inner_size: [u32; 2],
    outcome: RecreateOutcome,
)
    requires
        !(outcome is Recreated),
    ensures
        VkWindowView::rebuild_result(outcome) is Err,
        window.after_rebuild(inner_size, outcome).swapchain == window.swapchain,
        window.after_rebuild(inner_size, outcome).needs_rebuild == window.needs_rebuild,
{
}

/// No call opens a frame while one is open, and a frame is ended only by
/// the call that takes in the flush of its present.
pub proof fn lemma_step_keeps_one_frame(window: VkWindowView, call: Step)
    ensures
        opens_frame(window, call) ==> window.open_frames() == 0 && step(window, call).open_frames()
            == 1,
        closes_frame(window, call) ==> window.open_frames() == 1 && step(window, call).open_frames()
            == 0,
        !opens_frame(window, call) && !closes_frame(window, call) ==> step(
            window,
            call,
        ).open_frames() == window.open_frames(),
{
}

/// At no point of any history of calls are two frames open: the frames
/// opened so far are the frames ended so far and, at most, one more.
pub proof fn lemma_one_frame_at_a_time(window: VkWindowView, calls: Seq<Step>)
    ensures
        run(window, calls).open_frames() + frames_closed(window, calls) == window.open_frames()
            + frames_opened(window, calls),
        run(window, calls).open_frames() <= 1,
    decreases calls.len(),
{
    if calls.len() > 0 {
        lemma_one_frame_at_a_time(window, calls.drop_last());
        lemma_step_keeps_one_frame(run(window, calls.drop_last()), calls.last());
    }
}

/// A frame that was started is presented exactly once when it is finished:
/// the plan holds one present request, for the image the window holds, after
/// all passes in declared order, and the window has gone from an open frame
/// to presenting.
pub proof fn lemma_started_frame_presents_once(graph: RenderGraphView, window: WindowView)
    requires
        graph.frame matches Some(FrameView::Open { .. }),
        window.vk_window.phase() == Phase::FrameOpen,
    ensures
        graph.finish_result(window) matches Ok(plan) && {
            &&& !plan.dropped
            &&& plan.present matches Some(request) && Some(request.image_index)
                == match window.vk_window.frame() {
                Some(image) => Some(image.index),
                None => None,
            }
            &&& plan.passes.len() == graph.passes.len()
        },
        graph.window_after_finish(window).vk_window == window.vk_window.after_present(),
        graph.window_after_finish(window).vk_window.phase() == Phase::Presenting,
        graph.after_finish(window).frame is None,
{
}

/// A frame that was dropped is not presented when it is finished: the plan
/// holds no pass, no draw and no present request, and the window is left as
/// it was.
pub proof fn lemma_dropped_frame_presents_nothing(graph: RenderGraphView, window: WindowView)
    requires
        graph.frame == Some(FrameView::Dropped),
    ensures
        graph.finish_result(window) matches Ok(plan) && {
            &&& plan.dropped
            &&& plan.present is None
            &&& plan.passes.len() == 0
            &&& plan.draws.len() == 0
        },
        graph.window_after_finish(window) == window,
        graph.after_finish(window).frame is None,
{
}

/// Without a frame under way, finishing changes neither the graph nor the
/// window.
pub proof fn lemma_refused_finish_changes_nothing(graph: RenderGraphView, window: WindowView)
    requires
        graph.finish_result(window) is Err,
    ensures
        graph.after_finish(window) == graph,
        graph.window_after_finish(window) == window,
{
}

/// Starting a frame and finishing it, with draws and pass changes in
/// between left out: a frame that got its image is presented once, on that
/// image, and a frame that met a changed surface is presented not at all
/// and leaves the window waiting for the rebuilt swapchain.
pub proof fn lemma_start_then_finish(
    graph: RenderGraphView,
    window: WindowView,
    outcome: AcquireOutcome,
)
    ensures
        ({
            let started = RenderGraphView::start_result(window, outcome);
            let graph1 = graph.after_start(window, outcome);
            let window1 = RenderGraphView::window_after_start(window, outcome);
            let window2 = graph1.window_after_finish(window1);
            match started {
                Ok(FrameStart::Started(image)) => {
                    &&& graph1.finish_result(window1) matches Ok(plan) && plan.present matches Some(
                        request,
                    ) && {
                        &&& request.image_index == image.index
                        &&& request.chain == present_chain(
                            executed_chain(
                                window.vk_window.frame_start(image.index),
                                graph.passes.len(),
                            ),
                            image.index,
                        )
                    }
                    &&& window1.vk_window.phase() == Phase::FrameOpen
                    &&& window2.vk_window.phase() == Phase::Presenting
                },
                Ok(FrameStart::Dropped) => {
                    &&& graph1.finish_result(window1) matches Ok(plan) && plan.present is None
                    &&& window1.vk_window.phase() == Phase::Acquiring
                    &&& window1.vk_window.needs_rebuild
                    &&& window2 == window1
                },
                Err(_) => graph1 == graph,
            }
        }),
{
}

/// In the chain of a frame, the passes stand in declared order between the
/// signal the frame began with and the present: pass `pass` is the link
/// right after pass `pass - 1`, the first pass right after the start.
pub proof fn lemma_passes_chained_in_order(start: Seq<Stage>, count: nat, image_index: usize)
    ensures
        ({
            let chain = present_chain(executed_chain(start, count), image_index);
            &&& chain.len() == start.len() + count + 2
            &&& forall|i: int| 0 <= i < start.len() ==> chain[i] == start[i]
            &&& forall|pass: int|
                0 <= pass < count ==> #[trigger] chain[start.len() + pass] == (Stage::Execute {
                    pass: pass as usize,
                })
            &&& chain[(start.len() + count) as int] == (Stage::Present { image_index })
            &&& chain[(start.len() + count + 1) as int] == Stage::Fence
        }),
{
}

/// The draws of a plan follow the passes: each belongs to a pass of the
/// graph, and none of a later pass stands before one of an earlier pass.
pub proof fn lemma_plan_draws_follow_passes(graph: RenderGraphView, window: WindowView)
    requires
        graph.wf(),
        graph.finish_result(window) is Ok,
    ensures
        graph.finish_result(window) matches Ok(plan) && {
            &&& forall|k: int|
                0 <= k < plan.draws.len() ==> (#[trigger] plan.draws[k]).pass < graph.passes.len()
            &&& forall|j: int, k: int|
                0 <= j <= k < plan.draws.len() ==> (#[trigger] plan.draws[j]).pass <= (
                #[trigger] plan.draws[k]).pass
        },
{
}

/// Retrying ends in a frame: after any number of attempts that found the
/// surface changed, an attempt that brings a matching image of the
/// swapchain opens a frame on it, provided no limit to the attempts is set.
pub proof fn lemma_retry_ends_in_frame(
    window: VkWindowView,
    changed: Seq<AcquireOutcome>,
    image_index: usize,
)
    requires
        window.frame() is None,
        window.retry_limit is None,
        forall|i: int| 0 <= i < changed.len() ==> invalidated(#[trigger] changed[i]),
        image_index < window.swapchain.image_count,
    ensures
        ({
            let waiting = run(window, changed.map_values(|outcome| Step::Acquire(outcome)));
            let outcome = AcquireOutcome::Acquired { image_index, suboptimal: false };
            &&& waiting.frame() is None
            &&& waiting.retry_limit is None
            &&& changed.len() > 0 ==> waiting.phase() == Phase::Acquiring && waiting.needs_rebuild
            &&& waiting.swapchain == window.swapchain
            &&& waiting.acquire_result(outcome) == Ok::<NextImage, FrameError>(
                NextImage::Image(
                    ImageHandle { index: image_index, generation: window.swapchain.generation },
                ),
            )
            &&& waiting.after_acquire(outcome).phase() == Phase::FrameOpen
        }),
    decreases changed.len(),
{
    let calls = changed.map_values(|outcome| Step::Acquire(outcome));
    if changed.len() > 0 {
        let front = changed.drop_last();
        lemma_retry_ends_in_frame(window, front, image_index);
        assert(calls.drop_last() == front.map_values(|outcome| Step::Acquire(outcome)));
        assert(calls.last() == Step::Acquire(changed.last()));
        assert(invalidated(changed[changed.len() - 1]));
    }
}

/// A tag is produced by no pass exactly if no pass is counted for it.
pub proof fn lemma_count_zero(passes: Seq<PassView>, tag: Seq<char>)
    ensures
        producer_count(passes, tag) == 0 <==> !produced(passes, tag),
    decreases passes.len(),
{
    if passes.len() > 0 {
        let front = passes.drop_last();
        lemma_count_zero(front, tag);
        if produced(front, tag) {
            let i = choose|i: int|
                0 <= i < front.len() && i < front.len() && #[trigger] front[i].produces.contains(tag);
            assert(passes[i].produces.contains(tag));
        }
        if passes.last().produces.contains(tag) {
            assert(passes[passes.len() - 1].produces.contains(tag));
        }
        if produced(passes, tag) {
            let i = choose|i: int|
                0 <= i < passes.len() && i < passes.len() && #[trigger] passes[i].produces.contains(
                    tag,
                );
            if i < passes.len() - 1 {
                assert(front[i].produces.contains(tag));
            }
        }
    }
}

/// A tag that two passes are counted for is produced twice.
pub proof fn lemma_count_two(passes: Seq<PassView>, tag: Seq<char>)
    requires
        producer_count(passes, tag) >= 2,
    ensures
        has_duplicate(passes),
    decreases passes.len(),
{
    let front = passes.drop_last();
    let last = passes.len() - 1;
    if producer_count(front, tag) >= 2 {
        lemma_count_two(front, tag);
        let (pass, slot) = choose|pass: int, slot: int| duplicate_at(front, pass, slot);
        let again = front[pass].produces[slot];
        let i = choose|i: int|
            0 <= i < pass && i < front.len() && #[trigger] front[i].produces.contains(again);
        assert(passes[i].produces.contains(again));
        assert(duplicate_at(passes, pass, slot));
    } else {
        lemma_count_zero(front, tag);
        let i = choose|i: int|
            0 <= i < front.len() && i < front.len() && #[trigger] front[i].produces.contains(tag);
        assert(passes[i].produces.contains(tag));
        let slot = choose|slot: int|
            0 <= slot < passes[last].produces.len() && passes[last].produces[slot] == tag;
        assert(duplicate_at(passes, last, slot));
    }
}

/// A graph whose output tag is produced by no pass or by more than one is
/// refused when it is built. The one exception is the swapchain's own tag,
/// which no pass has to produce.
pub proof fn lemma_output_needs_one_producer(
    passes: Seq<PassView>,
    custom_images: Seq<Seq<char>>,
    output_tag: Seq<char>,
    verdict: Result<(), GraphConfigError>,
)
    requires
        config_verdict(passes, custom_images, output_tag, verdict),
        producer_count(passes, output_tag) != 1,
        output_tag != SWAPCHAIN_TAG@ || producer_count(passes, output_tag) > 1,
    ensures
        verdict is Err,
{
    if producer_count(passes, output_tag) == 0 {
        lemma_count_zero(passes, output_tag);
    } else {
        lemma_count_two(passes, output_tag);
    }
}

/// In a graph that was accepted no tag is produced by two passes, and the
/// output tag is produced by exactly one pass unless it is the swapchain's
/// own tag.
pub proof fn lemma_accepted_graph_has_unique_producers(
    passes: Seq<PassView>,
    custom_images: Seq<Seq<char>>,
    output_tag: Seq<char>,
    tag: Seq<char>,
)
    requires
        config_verdict(passes, custom_images, output_tag, Ok(())),
    ensures
        producer_count(passes, tag) <= 1,
        output_tag != SWAPCHAIN_TAG@ ==> producer_count(passes, output_tag) == 1,
{
    if producer_count(passes, tag) >= 2 {
        lemma_count_two(passes, tag);
    }
    if producer_count(passes, output_tag) >= 2 {
        lemma_count_two(passes, output_tag);
    }
    lemma_count_zero(passes, output_tag);
}

/// The check of a configuration has one answer: two verdicts on the same
/// graph are the same verdict.
pub proof fn lemma_verdict_is_unique(
    passes: Seq<PassView>,
    custom_images: Seq<Seq<char>>,
    output_tag: Seq<char>,
    first: Result<(), GraphConfigError>,
    second: Result<(), GraphConfigError>,
)
    requires
        config_verdict(passes, custom_images, output_tag, first),
        config_verdict(passes, custom_images, output_tag, second),
    ensures
        first == second,
{
    match (first, second) {
        (
            Err(GraphConfigError::DuplicateProducer { pass, slot }),
            Err(GraphConfigError::DuplicateProducer { pass: other_pass, slot: other_slot }),
        ) => {
            assert(duplicate_at(passes, pass as int, slot as int));
            assert(duplicate_at(passes, other_pass as int, other_slot as int));
            assert(!comes_before(pass as int, slot as int, other_pass as int, other_slot as int));
            assert(!comes_before(other_pass as int, other_slot as int, pass as int, slot as int));
        },
        (
            Err(GraphConfigError::UnresolvedInput { pass, slot }),
            Err(GraphConfigError::UnresolvedInput { pass: other_pass, slot: other_slot }),
        ) => {
            assert(unresolved_at(passes, custom_images, output_tag, pass as int, slot as int));
            assert(unresolved_at(
                passes,
                custom_images,
                output_tag,
                other_pass as int,
                other_slot as int,
            ));
            assert(!comes_before(pass as int, slot as int, other_pass as int, other_slot as int));
            assert(!comes_before(other_pass as int, other_slot as int, pass as int, slot as int));
        },
        (Err(GraphConfigError::DuplicateProducer { pass, slot }), _) => {
            assert(duplicate_at(passes, pass as int, slot as int));
        },
        (_, Err(GraphConfigError::DuplicateProducer { pass, slot })) => {
            assert(duplicate_at(passes, pass as int, slot as int));
        },
        (Err(GraphConfigError::UnresolvedInput { pass, slot }), _) => {
            assert(unresolved_at(passes, custom_images, output_tag, pass as int, slot as int));
        },
        (_, Err(GraphConfigError::UnresolvedInput { pass, slot })) => {
            assert(unresolved_at(passes, custom_images, output_tag, pass as int, slot as int));
        },
        (Ok(a), Ok(b)) => {
            assert(a == b);
        },
        _ => {},
    }
}

} // verus!
