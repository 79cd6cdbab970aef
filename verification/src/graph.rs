//! The render graph: an ordered list of passes that hand images to each
//! other by tag, checked when the graph is built and run frame by frame.

use crate::passes::config_verdict;
use crate::passes::first_producer;
use crate::passes::passes_view;
use crate::passes::produced;
use crate::passes::produced_before;
use crate::passes::producer_count;
use crate::passes::tag_in;
use crate::passes::validate;
use crate::passes::GraphConfigError;
use crate::passes::PassDescriptor;
use crate::passes::PassView;
use crate::passes::SWAPCHAIN_TAG;
use crate::signal::Signal;
use crate::signal::Stage;
use crate::swapchain::ImageHandle;
use crate::vk_window::present_chain;
use crate::vk_window::AcquireOutcome;
use crate::vk_window::FrameError;
use crate::vk_window::FrameSlot;
use crate::vk_window::NextImage;
use crate::vk_window::Phase;
use crate::vk_window::PresentRequest;
use crate::vk_window::PresentRequestView;
use crate::window::Window;
use crate::window::WindowView;
use vstd::prelude::*;

verus! {

/// One draw, scheduled while pass `pass` was active. `object` names what is
/// drawn, in the caller's terms.
#[derive(Clone, Copy, Debug, PartialEq, Eq, Structural)]
pub struct DrawCall {
    pub pass: usize,
    pub object: u64,
}

/// How a frame began.
#[derive(Clone, Copy, Debug, PartialEq, Eq, Structural)]
pub enum FrameStart {
    /// An image is acquired and bound to the output tag; the first pass
    /// records.
    Started(ImageHandle),
    /// The surface was out of date: the frame is dropped, and the next one
    /// tries again on a rebuilt swapchain.
    Dropped,
}

/// Where the image behind a tag comes from.
#[derive(Clone, Copy, Debug, PartialEq, Eq, Structural)]
pub enum ImageSource {
    /// The tag is the output tag: the acquired image of the swapchain.
    Swapchain,
    /// The caller supplied the image when the graph was built.
    Custom,
    /// The graph owns the image; pass `producer` writes it.
    GraphOwned { producer: usize },
}

/// What is to be submitted for one frame.
#[derive(Debug)]
pub struct FramePlan {
    /// The image the frame was started on; none for a dropped frame.
    pub image: Option<ImageHandle>,
    /// The passes to execute, in this order, each after the one before it.
    pub passes: Vec<usize>,
    /// The draws that were scheduled, in the order they were scheduled.
    pub draws: Vec<DrawCall>,
    /// The present request that ends the frame; none for a dropped frame.
    pub present: Option<PresentRequest>,
    /// The extent at which the images the graph owns have to be allocated
    /// before the passes run; none if they can stay as they are.
    pub allocate: Option<[u32; 2]>,
    /// Whether the frame was dropped: nothing is executed or presented.
    pub dropped: bool,
}

/// A frame plan as a mathematical value.
pub struct FramePlanView {
    pub image: Option<ImageHandle>,
    pub passes: Seq<usize>,
    pub draws: Seq<DrawCall>,
    pub present: Option<PresentRequestView>,
    pub allocate: Option<[u32; 2]>,
    pub dropped: bool,
}

impl View for FramePlan {
    type V = FramePlanView;

    open spec fn view(&self) -> FramePlanView {
        FramePlanView {
            image: self.image,
            passes: self.passes@,
            draws: self.draws@,
            present: match self.present {
                Some(request) => Some(request@),
                None => None,
            },
            allocate: self.allocate,
            dropped: self.dropped,
        }
    }
}

/// The frame of a graph, as a mathematical value.
pub enum FrameView {
    /// The frame records. `signal` is what its first pass waits for.
    Open { image: ImageHandle, signal: Seq<Stage>, active_pass: usize, draws: Seq<DrawCall> },
    /// The frame was dropped when it began.
    Dropped,
}

/// A render graph as a mathematical value.
pub struct RenderGraphView {
    pub passes: Seq<PassView>,
    pub custom_images: Seq<Seq<char>>,
    pub output_tag: Seq<char>,
    pub frame: Option<FrameView>,
    /// The extent of the images the graph owns; none before they were first
    /// allocated.
    pub image_extent: Option<[u32; 2]>,
    /// Whether the images the graph owns follow the size of the window.
    pub tracks_window: bool,
}

/// Whether two extents are the same.
pub open spec fn same_extent(a: [u32; 2], b: [u32; 2]) -> bool {
    a[0] == b[0] && a[1] == b[1]
}

/// The passes `0` to `count - 1` in declared order.
pub open spec fn pass_order(count: nat) -> Seq<usize> {
    Seq::new(count, |i: int| i as usize)
}

/// The chain that executing `count` passes in declared order after `start`
/// makes: each pass is chained after the one before it.
pub open spec fn executed_chain(start: Seq<Stage>, count: nat) -> Seq<Stage> {
    start + Seq::new(count, |i: int| Stage::Execute { pass: i as usize })
}

/// Whether each draw belongs to a pass up to `active_pass` and no draw of a
/// later pass stands before a draw of an earlier one.
pub open spec fn draws_in_order(draws: Seq<DrawCall>, active_pass: usize) -> bool {
    &&& forall|k: int| 0 <= k < draws.len() ==> (#[trigger] draws[k]).pass <= active_pass
    &&& forall|j: int, k: int|
        0 <= j <= k < draws.len() ==> (#[trigger] draws[j]).pass <= (#[trigger] draws[k]).pass
}

impl RenderGraphView {
    /// What holds of every graph: its configuration passed the check, the
    /// frame that records is on one of its passes, and its draws stand in
    /// the order of the passes they belong to.
    pub open spec fn wf(self) -> bool {
        &&& config_verdict(self.passes, self.custom_images, self.output_tag, Ok(()))
        &&& match self.frame {
            Some(FrameView::Open { active_pass, draws, .. }) => {
                &&& if self.passes.len() == 0 {
                    active_pass == 0 && draws.len() == 0
                } else {
                    active_pass < self.passes.len()
                }
                &&& draws_in_order(draws, active_pass)
            },
            _ => true,
        }
    }

    /// What `start_window` answers, on a window in state `window`.
    pub open spec fn start_result(window: WindowView, outcome: AcquireOutcome) -> Result<
        FrameStart,
        FrameError,
    > {
        match window.vk_window.acquire_result(outcome) {
            Ok(NextImage::Image(image)) => Ok(FrameStart::Started(image)),
            Ok(NextImage::Rebuild) => Ok(FrameStart::Dropped),
            Err(e) => Err(e),
        }
    }

    /// The state in which `start_window` leaves the window.
    pub open spec fn window_after_start(window: WindowView, outcome: AcquireOutcome) -> WindowView {
        match window.vk_window.acquire_result(outcome) {
            Ok(NextImage::Image(_)) => WindowView {
                vk_window: window.vk_window.after_acquire(outcome).after_get_future(),
                ..window
            },
            _ => WindowView { vk_window: window.vk_window.after_acquire(outcome), ..window },
        }
    }

    /// The state in which `start_window` leaves the graph.
    pub open spec fn after_start(self, window: WindowView, outcome: AcquireOutcome) -> RenderGraphView {
        match window.vk_window.acquire_result(outcome) {
            Ok(NextImage::Image(image)) => RenderGraphView {
                frame: Some(
                    FrameView::Open {
                        image,
                        signal: window.vk_window.frame_start(image.index),
                        active_pass: 0,
                        draws: Seq::empty(),
                    },
                ),
                ..self
            },
            Ok(NextImage::Rebuild) => RenderGraphView { frame: Some(FrameView::Dropped), ..self },
            Err(_) => self,
        }
    }

    /// What `add_object` answers.
    pub open spec fn add_result(self) -> Result<(), FrameError> {
        match self.frame {
            None => Err(FrameError::NoOpenFrame),
            Some(FrameView::Dropped) => Ok(()),
            Some(FrameView::Open { .. }) => if self.passes.len() == 0 {
                Err(FrameError::NoActivePass)
            } else {
                Ok(())
            },
        }
    }

    /// The state in which `add_object` leaves the graph.
    pub open spec fn after_add(self, object: u64) -> RenderGraphView {
        match self.frame {
            Some(FrameView::Open { image, signal, active_pass, draws }) => if self.passes.len()
                == 0 {
                self
            } else {
                RenderGraphView {
                    frame: Some(
                        FrameView::Open {
                            image,
                            signal,
                            active_pass,
                            draws: draws.push(DrawCall { pass: active_pass, object }),
                        },
                    ),
                    ..self
                }
            },
            _ => self,
        }
    }

    /// What `next_pass` answers.
    pub open spec fn next_pass_result(self) -> Result<(), FrameError> {
        match self.frame {
            None => Err(FrameError::NoOpenFrame),
            Some(FrameView::Dropped) => Ok(()),
            Some(FrameView::Open { active_pass, .. }) => if active_pass + 1 < self.passes.len() {
                Ok(())
            } else {
                Err(FrameError::NoNextPass)
            },
        }
    }

    /// The state in which `next_pass` leaves the graph.
    pub open spec fn after_next_pass(self) -> RenderGraphView {
        match self.frame {
            Some(FrameView::Open { image, signal, active_pass, draws }) => if active_pass + 1
                < self.passes.len() {
                RenderGraphView {
                    frame: Some(
                        FrameView::Open {
                            image,
                            signal,
                            active_pass: (active_pass + 1) as usize,
                            draws,
                        },
                    ),
                    ..self
                }
            } else {
                self
            },
            _ => self,
        }
    }

    /// The extent at which the images the graph owns have to be allocated
    /// when a frame runs on a swapchain of extent `extent`: that extent if
    /// they were never allocated, or if they follow the window and have
    /// another extent; none otherwise.
    pub open spec fn images_due(self, extent: [u32; 2]) -> Option<[u32; 2]> {
        match self.image_extent {
            None => Some(extent),
            Some(current) => if self.tracks_window && !same_extent(current, extent) {
                Some(extent)
            } else {
                None
            },
        }
    }

    /// What `finish_to_window` answers, on a window in state `window`.
    pub open spec fn finish_result(self, window: WindowView) -> Result<FramePlanView, FrameError> {
        match self.frame {
            None => Err(FrameError::NoOpenFrame),
            Some(FrameView::Dropped) => Ok(
                FramePlanView {
                    image: None,
                    passes: Seq::empty(),
                    draws: Seq::empty(),
                    present: None,
                    allocate: None,
                    dropped: true,
                },
            ),
            Some(FrameView::Open { image, signal, draws, .. }) => match window.vk_window.slot {
                FrameSlot::Open { image: held, .. } => Ok(
                    FramePlanView {
                        image: Some(image),
                        passes: pass_order(self.passes.len()),
                        draws,
                        present: Some(
                            PresentRequestView {
                                image_index: held.index,
                                chain: present_chain(
                                    executed_chain(signal, self.passes.len()),
                                    held.index,
                                ),
                            },
                        ),
                        allocate: self.images_due(window.vk_window.swapchain.extent),
                        dropped: false,
                    },
                ),
                _ => Err(FrameError::NoOpenFrame),
            },
        }
    }

    /// The state in which `finish_to_window` leaves the graph.
    pub open spec fn after_finish(self, window: WindowView) -> RenderGraphView {
        match self.finish_result(window) {
            Ok(plan) => RenderGraphView {
                frame: None,
                image_extent: if plan.allocate is Some {
                    plan.allocate
                } else {
                    self.image_extent
                },
                ..self
            },
            Err(_) => self,
        }
    }

    /// The state in which `finish_to_window` leaves the window: one present
    /// is issued for a frame that was started, none otherwise.
    pub open spec fn window_after_finish(self, window: WindowView) -> WindowView {
        match self.finish_result(window) {
            Ok(plan) => if plan.dropped {
                window
            } else {
                WindowView { vk_window: window.vk_window.after_present(), ..window }
            },
            Err(_) => window,
        }
    }

    /// Whether `source` is where the image behind `tag` comes from: the
    /// swapchain for the output tag, else the caller for a custom image,
    /// else the first pass that produces the tag, else nowhere.
    pub open spec fn is_source_of(self, tag: Seq<char>, source: Option<ImageSource>) -> bool {
        match source {
            Some(ImageSource::Swapchain) => tag == self.output_tag,
            Some(ImageSource::Custom) => tag != self.output_tag && self.custom_images.contains(tag),
            Some(ImageSource::GraphOwned { producer }) => {
                &&& tag != self.output_tag
                &&& !self.custom_images.contains(tag)
                &&& producer < self.passes.len()
                &&& self.passes[producer as int].produces.contains(tag)
                &&& !produced_before(self.passes, producer as int, tag)
            },
            None => {
                &&& tag != self.output_tag
                &&& !self.custom_images.contains(tag)
                &&& !produced(self.passes, tag)
            },
        }
    }
}

/// The frame of a graph.
#[derive(Debug)]
enum Recording {
    Open { image: ImageHandle, signal: Signal, active_pass: usize, draws: Vec<DrawCall> },
    Dropped,
}

spec fn recording_view(frame: Option<Recording>) -> Option<FrameView> {
    match frame {
        None => None,
        Some(Recording::Dropped) => Some(FrameView::Dropped),
        Some(Recording::Open { image, signal, active_pass, draws }) => Some(
            FrameView::Open { image, signal: signal@, active_pass, draws: draws@ },
        ),
    }
}

/// A render graph: the passes in declared order, the tags of the images the
/// caller supplies, the tag of the image that is presented, and the frame
/// that is under way. Passes and tags are fixed when the graph is built.
#[derive(Debug)]
pub struct RenderGraph {
    passes: Vec<PassDescriptor>,
    custom_images: Vec<String>,
    output_tag: String,
    frame: Option<Recording>,
    image_extent: Option<[u32; 2]>,
    tracks_window: bool,
}

impl View for RenderGraph {
    type V = RenderGraphView;

    closed spec fn view(&self) -> RenderGraphView {
        RenderGraphView {
            passes: passes_view(self.passes@),
            custom_images: self.custom_images.deep_view(),
            output_tag: self.output_tag@,
            frame: recording_view(self.frame),
            image_extent: self.image_extent,
            tracks_window: self.tracks_window,
        }
    }
}

impl RenderGraph {
    #[verifier::type_invariant]
    spec fn valid(&self) -> bool {
        self@.wf()
    }

    /// Builds a graph from its passes in declared order, the tags of the
    /// images the caller supplies, and the tag of the image that is
    /// presented. The configuration is checked here and never again: a graph
    /// that exists has passed the check.
    pub fn new(passes: Vec<PassDescriptor>, custom_images: Vec<String>, output_tag: &str) -> (r:
        Result<RenderGraph, GraphConfigError>)
        ensures
            match r {
                Ok(graph) => {
                    &&& config_verdict(
                        passes_view(passes@),
                        custom_images.deep_view(),
                        output_tag@,
                        Ok(()),
                    )
                    &&& graph@ == (RenderGraphView {
                        passes: passes_view(passes@),
                        custom_images: custom_images.deep_view(),
                        output_tag: output_tag@,
                        frame: None,
                        image_extent: None,
                        tracks_window: true,
                    })
                    &&& graph@.wf()
                },
                Err(e) => config_verdict(
                    passes_view(passes@),
                    custom_images.deep_view(),
                    output_tag@,
                    Err(e),
                ),
            },
            producer_count(passes_view(passes@), output_tag@) == 0 && output_tag@
                != SWAPCHAIN_TAG@ ==> r is Err,
            producer_count(passes_view(passes@), output_tag@) > 1 ==> r is Err,
    {
        let output_tag = output_tag.to_owned();
        let verdict = validate(&passes, &custom_images, &output_tag);
        proof {
            let count = producer_count(passes_view(passes@), output_tag@);
            if count > 1 || (count == 0 && output_tag@ != SWAPCHAIN_TAG@) {
                crate::laws::lemma_output_needs_one_producer(
                    passes_view(passes@),
                    custom_images.deep_view(),
                    output_tag@,
                    verdict,
                );
            }
        }
        match verdict {
            Err(e) => Err(e),
            Ok(()) => Ok(
                RenderGraph {
                    passes,
                    custom_images,
                    output_tag,
                    frame: None,
                    image_extent: None,
                    tracks_window: true,
                },
            ),
        }
    }

    /// Sets whether the images the graph owns follow the size of the
    /// window. Those that do are allocated again when a frame runs on a
    /// swapchain of another extent; those that do not keep the extent they
    /// were first allocated with. Custom images are never touched.
    pub fn set_tracks_window(&mut self, tracks: bool)
        ensures
            final(self)@ == (RenderGraphView { tracks_window: tracks, ..old(self)@ }),
            final(self)@.wf(),
    {
        proof {
            use_type_invariant(&*self);
        }
        self.tracks_window = tracks;
    }

    /// Begins a frame on `window` with the device's answer to acquiring the
    /// next image.
    ///
    /// An acquired image is bound to the output tag and the first pass
    /// records; the frame waits for the signal the window hands out. An
    /// out-of-date surface drops the frame. If the window refuses the
    /// attempt or the device failed, nothing changes in the graph.
    pub fn start_window(&mut self, window: &mut Window, outcome: AcquireOutcome) -> (r: Result<
        FrameStart,
        FrameError,
    >)
        ensures
            r == RenderGraphView::start_result(old(window)@, outcome),
            final(window)@ == RenderGraphView::window_after_start(old(window)@, outcome),
            final(self)@ == old(self)@.after_start(old(window)@, outcome),
            final(self)@.wf(),
    {
        proof {
            use_type_invariant(&*self);
        }
        match window.next_image(outcome) {
            Err(e) => Err(e),
            Ok(NextImage::Rebuild) => {
                self.frame = Some(Recording::Dropped);
                Ok(FrameStart::Dropped)
            },
            Ok(NextImage::Image(image)) => {
                match window.get_future() {
                    Some(signal) => {
                        self.frame = Some(
                            Recording::Open { image, signal, active_pass: 0, draws: Vec::new() },
                        );
                        Ok(FrameStart::Started(image))
                    },
                    // The window has just opened the frame, so it holds a signal.
                    None => Err(FrameError::NoOpenFrame),
                }
            },
        }
    }

    /// Schedules a draw of `object` in the pass that is active. In a dropped
    /// frame the draw is skipped.
    pub fn add_object(&mut self, object: u64) -> (r: Result<(), FrameError>)
        ensures
            r == old(self)@.add_result(),
            final(self)@ == old(self)@.after_add(object),
            final(self)@.wf(),
    {
        proof {
            use_type_invariant(&*self);
        }
        let count = self.passes.len();
        let mut frame: Option<Recording> = None;
        core::mem::swap(&mut self.frame, &mut frame);
        match frame {
            None => Err(FrameError::NoOpenFrame),
            Some(Recording::Dropped) => {
                self.frame = Some(Recording::Dropped);
                Ok(())
            },
            Some(Recording::Open { image, signal, active_pass, draws }) => {
                if count == 0 {
                    self.frame = Some(Recording::Open { image, signal, active_pass, draws });
                    Err(FrameError::NoActivePass)
                } else {
                    let mut draws = draws;
                    draws.push(DrawCall { pass: active_pass, object });
                    self.frame = Some(Recording::Open { image, signal, active_pass, draws });
                    Ok(())
                }
            },
        }
    }

    /// Closes the pass that is active and lets the pass declared after it
    /// record. In a dropped frame nothing happens.
    pub fn next_pass(&mut self) -> (r: Result<(), FrameError>)
        ensures
            r == old(self)@.next_pass_result(),
            final(self)@ == old(self)@.after_next_pass(),
            final(self)@.wf(),
    {
        proof {
            use_type_invariant(&*self);
        }
        let count = self.passes.len();
        let mut frame: Option<Recording> = None;
        core::mem::swap(&mut self.frame, &mut frame);
        match frame {
            None => Err(FrameError::NoOpenFrame),
            Some(Recording::Dropped) => {
                self.frame = Some(Recording::Dropped);
                Ok(())
            },
            Some(Recording::Open { image, signal, active_pass, draws }) => {
                if active_pass < count && active_pass + 1 < count {
                    self.frame = Some(
                        Recording::Open { image, signal, active_pass: active_pass + 1, draws },
                    );
                    Ok(())
                } else {
                    self.frame = Some(Recording::Open { image, signal, active_pass, draws });
                    Err(FrameError::NoNextPass)
                }
            },
        }
    }

    /// Ends the frame. For a frame that was started, every pass is chained
    /// after the one declared before it, the first after the signal the
    /// frame began with, and the window is asked once to present after the
    /// last. For a dropped frame nothing is executed and the window is left
    /// alone. Without a frame, or if the window holds no open frame, the
    /// call is refused and nothing changes.
    pub fn finish_to_window(&mut self, window: &mut Window) -> (r: Result<FramePlan, FrameError>)
        ensures
            match r {
                Ok(plan) => old(self)@.finish_result(old(window)@) == Ok::<FramePlanView, FrameError>(
                    plan@,
                ),
                Err(e) => old(self)@.finish_result(old(window)@) == Err::<FramePlanView, FrameError>(
                    e,
                ),
            },
            final(self)@ == old(self)@.after_finish(old(window)@),
            final(window)@ == old(self)@.window_after_finish(old(window)@),
            final(self)@.wf(),
    {
        proof {
            use_type_invariant(&*self);
        }
        let count = self.passes.len();
        let mut frame: Option<Recording> = None;
        core::mem::swap(&mut self.frame, &mut frame);
        match frame {
            None => Err(FrameError::NoOpenFrame),
            Some(Recording::Dropped) => Ok(
                FramePlan {
                    image: None,
                    passes: Vec::new(),
                    draws: Vec::new(),
                    present: None,
                    allocate: None,
                    dropped: true,
                },
            ),
            Some(Recording::Open { image, signal, active_pass, draws }) => {
                if window.phase() != Phase::FrameOpen {
                    self.frame = Some(Recording::Open { image, signal, active_pass, draws });
                    return Err(FrameError::NoOpenFrame);
                }
                let ghost start = signal@;
                let mut chain = signal;
                let mut passes: Vec<usize> = Vec::new();
                let mut pass: usize = 0;
                while pass < count
                    invariant
                        pass <= count,
                        chain@ == executed_chain(start, pass as nat),
                        passes@ == pass_order(pass as nat),
                    decreases count - pass,
                {
                    chain = chain.followed_by(Stage::Execute { pass });
                    passes.push(pass);
                    pass += 1;
                }
                let extent = window.swapchain().extent;
                let allocate = match self.image_extent {
                    None => Some(extent),
                    Some(current) => if self.tracks_window && (current[0] != extent[0]
                        || current[1] != extent[1]) {
                        Some(extent)
                    } else {
                        None
                    },
                };
                if allocate.is_some() {
                    self.image_extent = allocate;
                }
                match window.present_future(chain) {
                    Ok(request) => Ok(
                        FramePlan {
                            image: Some(image),
                            passes,
                            draws,
                            present: Some(request),
                            allocate,
                            dropped: false,
                        },
                    ),
                    // The window holds an open frame, so it does not refuse.
                    Err(e) => Err(e),
                }
            },
        }
    }

    /// How many passes the graph has.
    pub fn pass_count(&self) -> (count: usize)
        ensures
            count == self@.passes.len(),
    {
        self.passes.len()
    }

    /// The pass that records, if a frame is under way that was not dropped.
    pub fn active_pass(&self) -> (pass: Option<usize>)
        ensures
            pass == match self@.frame {
                Some(FrameView::Open { active_pass, .. }) => Some(active_pass),
                _ => None,
            },
    {
        match &self.frame {
            Some(Recording::Open { active_pass, .. }) => Some(*active_pass),
            _ => None,
        }
    }

    /// The image of the swapchain that is bound to the output tag, if a
    /// frame is under way that was not dropped.
    pub fn bound_image(&self) -> (image: Option<ImageHandle>)
        ensures
            image == match self@.frame {
                Some(FrameView::Open { image, .. }) => Some(image),
                _ => None,
            },
    {
        match &self.frame {
            Some(Recording::Open { image, .. }) => Some(*image),
            _ => None,
        }
    }

    /// Where the image behind `tag` comes from.
    pub fn image_source(&self, tag: &str) -> (source: Option<ImageSource>)
        ensures
            self@.is_source_of(tag@, source),
    {
        let tag = tag.to_owned();
        if tag == self.output_tag {
            Some(ImageSource::Swapchain)
        } else if tag_in(&self.custom_images, &tag) {
            Some(ImageSource::Custom)
        } else {
            match first_producer(&self.passes, self.passes.len(), &tag) {
                Some(producer) => Some(ImageSource::GraphOwned { producer }),
                None => None,
            }
        }
    }
}

} // verus!
