//! The presentation state of one window: which image of the swapchain is
//! acquired, what the next frame has to wait for, and when the swapchain has
//! to be rebuilt.
//!
//! The device is never called from here. The caller asks the device, hands
//! the answer in, and carries out what comes back.

use crate::signal::FrameEnd;
use crate::signal::Signal;
use crate::signal::Stage;
use crate::swapchain::ImageHandle;
use crate::swapchain::RecreateOutcome;
use crate::swapchain::SwapchainConfig;
use crate::swapchain::SwapchainError;
use crate::swapchain::SwapchainState;
use vstd::prelude::*;

verus! {

/// Where a window stands in the cycle of one frame.
#[derive(Clone, Copy, Debug, PartialEq, Eq, Structural)]
pub enum Phase {
    /// No frame is open and none is being acquired.
    Idle,
    /// An acquisition found the surface out of date; it is tried again once
    /// the swapchain is rebuilt.
    Acquiring,
    /// An image is acquired and not yet handed to the queue for presenting.
    FrameOpen,
    /// The present request is handed out and its flush is awaited.
    Presenting,
}

/// What the device answered when asked for the next image.
#[derive(Clone, Copy, Debug, PartialEq, Eq, Structural)]
pub enum AcquireOutcome {
    /// Image `image_index` is acquired. A suboptimal image could be used, but
    /// the surface no longer matches the swapchain.
    Acquired { image_index: usize, suboptimal: bool },
    /// The surface changed and the swapchain cannot be used as it is.
    OutOfDate,
    /// Any other failure.
    Failed,
}

/// What one acquisition attempt led to.
#[derive(Clone, Copy, Debug, PartialEq, Eq, Structural)]
pub enum NextImage {
    /// A frame is open on this image.
    Image(ImageHandle),
    /// The swapchain has to be rebuilt before the acquisition is tried again.
    Rebuild,
}

/// What the queue answered when the present request was flushed.
#[derive(Clone, Copy, Debug, PartialEq, Eq, Structural)]
pub enum PresentOutcome {
    /// The request is on the queue.
    Flushed,
    /// The surface changed and the swapchain cannot be used as it is.
    OutOfDate,
    /// Any other failure.
    Failed,
}

/// Why a step of the frame cycle was refused.
#[derive(Clone, Copy, Debug, PartialEq, Eq, Structural)]
pub enum FrameError {
    /// An image was to be acquired while a frame is open.
    FrameAlreadyOpen,
    /// A frame was to be used, presented or finished while none is open.
    NoOpenFrame,
    /// The device failed to acquire an image for a reason other than an
    /// out-of-date surface.
    AcquireFailed,
    /// The device named an image that the swapchain does not have.
    ImageOutOfRange,
    /// The surface was found changed more often in a row than the window
    /// is set to retry.
    AcquireTimeout,
    /// A draw was scheduled in a graph without passes.
    NoActivePass,
    /// The last pass of the graph is already active.
    NoNextPass,
}

/// What the caller submits to show a frame: the chain of work, ending in the
/// present of image `image_index` and a flushed fence.
#[derive(Debug)]
pub struct PresentRequest {
    pub image_index: usize,
    pub chain: Signal,
}

/// A present request as a mathematical value.
pub struct PresentRequestView {
    pub image_index: usize,
    pub chain: Seq<Stage>,
}

impl View for PresentRequest {
    type V = PresentRequestView;

    open spec fn view(&self) -> PresentRequestView {
        PresentRequestView { image_index: self.image_index, chain: self.chain@ }
    }
}

/// The frame of a window, as a mathematical value.
pub enum FrameSlot {
    /// No frame is open and none is being acquired.
    Idle,
    /// An acquisition found the surface changed and is to be tried again.
    Acquiring,
    /// A frame is open on `image`. `future` is the signal its work has to
    /// wait for, until it is taken.
    Open { image: ImageHandle, future: Option<Seq<Stage>> },
    /// The present of `image` is handed out and its flush is awaited.
    Presenting { image: ImageHandle },
}

/// The presentation state of a window, as a mathematical value.
pub struct VkWindowView {
    /// The swapchain as it stands.
    pub swapchain: SwapchainState,
    /// The frame, if one is open or being acquired.
    pub slot: FrameSlot,
    /// What the next frame has to wait for.
    pub previous_frame_end: FrameEnd,
    /// The inner size of the window as last recorded.
    pub dimensions: [u32; 2],
    /// Whether the swapchain is marked for rebuilding.
    pub needs_rebuild: bool,
    /// How many acquisitions in a row found the surface changed.
    pub retries: u32,
    /// How many of those in a row are answered by another attempt; without
    /// a limit, all are.
    pub retry_limit: Option<u32>,
}

/// Whether `outcome` says that the surface no longer matches the swapchain:
/// it is out of date, or the image that was acquired is suboptimal.
pub open spec fn invalidated(outcome: AcquireOutcome) -> bool {
    match outcome {
        AcquireOutcome::Acquired { suboptimal, .. } => suboptimal,
        AcquireOutcome::OutOfDate => true,
        AcquireOutcome::Failed => false,
    }
}

/// The chain that the present of image `image_index` after `future` makes.
pub open spec fn present_chain(future: Seq<Stage>, image_index: usize) -> Seq<Stage> {
    future.push(Stage::Present { image_index }).push(Stage::Fence)
}

impl VkWindowView {
    /// The state of a window whose swapchain was just created.
    pub open spec fn initial(extent: [u32; 2], image_count: usize) -> VkWindowView {
        VkWindowView {
            swapchain: SwapchainState { extent, image_count, generation: 0 },
            slot: FrameSlot::Idle,
            previous_frame_end: FrameEnd::Completed,
            dimensions: [0u32, 0u32],
            needs_rebuild: false,
            retries: 0,
            retry_limit: None,
        }
    }

    /// Where the window stands in the cycle of a frame.
    pub open spec fn phase(self) -> Phase {
        match self.slot {
            FrameSlot::Idle => Phase::Idle,
            FrameSlot::Acquiring => Phase::Acquiring,
            FrameSlot::Open { .. } => Phase::FrameOpen,
            FrameSlot::Presenting { .. } => Phase::Presenting,
        }
    }

    /// The image of the frame that is acquired and not yet presented.
    pub open spec fn frame(self) -> Option<ImageHandle> {
        match self.slot {
            FrameSlot::Open { image, .. } => Some(image),
            FrameSlot::Presenting { image } => Some(image),
            _ => None,
        }
    }

    /// How many frames are acquired and not yet presented.
    pub open spec fn open_frames(self) -> nat {
        if self.frame() is Some {
            1
        } else {
            0
        }
    }

    /// What `next_image` answers to `outcome`.
    pub open spec fn acquire_result(self, outcome: AcquireOutcome) -> Result<NextImage, FrameError> {
        if self.frame() is Some {
            Err(FrameError::FrameAlreadyOpen)
        } else if invalidated(outcome) {
            match self.retry_limit {
                Some(limit) if self.retries >= limit => Err(FrameError::AcquireTimeout),
                _ => Ok(NextImage::Rebuild),
            }
        } else {
            match outcome {
                AcquireOutcome::Acquired { image_index, .. } => {
                    if image_index < self.swapchain.image_count {
                        Ok(
                            NextImage::Image(
                                ImageHandle {
                                    index: image_index,
                                    generation: self.swapchain.generation,
                                },
                            ),
                        )
                    } else {
                        Err(FrameError::ImageOutOfRange)
                    }
                },
                _ => Err(FrameError::AcquireFailed),
            }
        }
    }

    /// The signal that a frame on image `image_index` starts from: the end of
    /// the previous frame, joined with the acquisition of the image.
    pub open spec fn frame_start(self, image_index: usize) -> Seq<Stage> {
        seq![self.previous_frame_end.spec_stage(), Stage::Acquire { image_index }]
    }

    /// The state that `next_image` leaves when it is told `outcome`.
    pub open spec fn after_acquire(self, outcome: AcquireOutcome) -> VkWindowView {
        match self.acquire_result(outcome) {
            Ok(NextImage::Image(image)) => VkWindowView {
                slot: FrameSlot::Open { image, future: Some(self.frame_start(image.index)) },
                retries: 0,
                ..self
            },
            Ok(NextImage::Rebuild) => VkWindowView {
                slot: FrameSlot::Acquiring,
                needs_rebuild: true,
                retries: if self.retries == u32::MAX {
                    u32::MAX
                } else {
                    (self.retries + 1) as u32
                },
                ..self
            },
            Err(FrameError::AcquireTimeout) => VkWindowView {
                slot: FrameSlot::Idle,
                needs_rebuild: true,
                retries: 0,
                ..self
            },
            Err(_) => self,
        }
    }

    /// What `rebuild` answers to `outcome`.
    pub open spec fn rebuild_result(outcome: RecreateOutcome) -> Result<(), SwapchainError> {
        match outcome {
            RecreateOutcome::Recreated { .. } => Ok(()),
            RecreateOutcome::UnsupportedDimensions => Err(SwapchainError::UnsupportedDimensions),
            RecreateOutcome::Failed => Err(SwapchainError::DeviceFailure),
        }
    }

    /// The state that `rebuild` leaves, for a window of inner size
    /// `inner_size` and the device's answer `outcome`.
    pub open spec fn after_rebuild(self, inner_size: [u32; 2], outcome: RecreateOutcome) -> VkWindowView {
        match outcome {
            RecreateOutcome::Recreated { image_count } => VkWindowView {
                swapchain: self.swapchain.spec_recreated(inner_size, image_count),
                dimensions: inner_size,
                needs_rebuild: false,
                ..self
            },
            _ => VkWindowView { dimensions: inner_size, ..self },
        }
    }

    /// What `get_future` hands out.
    pub open spec fn future(self) -> Option<Seq<Stage>> {
        match self.slot {
            FrameSlot::Open { future, .. } => future,
            _ => None,
        }
    }

    /// The state that `get_future` leaves.
    pub open spec fn after_get_future(self) -> VkWindowView {
        match self.slot {
            FrameSlot::Open { image, .. } => VkWindowView {
                slot: FrameSlot::Open { image, future: None },
                ..self
            },
            _ => self,
        }
    }

    /// What `present_image` answers when it is given the signal `future`.
    pub open spec fn present_result(self, future: Seq<Stage>) -> Result<
        PresentRequestView,
        FrameError,
    > {
        match self.slot {
            FrameSlot::Open { image, .. } => Ok(
                PresentRequestView {
                    image_index: image.index,
                    chain: present_chain(future, image.index),
                },
            ),
            _ => Err(FrameError::NoOpenFrame),
        }
    }

    /// The state that `present_image` leaves.
    pub open spec fn after_present(self) -> VkWindowView {
        match self.slot {
            FrameSlot::Open { image, .. } => VkWindowView {
                slot: FrameSlot::Presenting { image },
                ..self
            },
            _ => self,
        }
    }

    /// What `finish_present` answers.
    pub open spec fn flush_result(self) -> Result<(), FrameError> {
        match self.slot {
            FrameSlot::Presenting { .. } => Ok(()),
            _ => Err(FrameError::NoOpenFrame),
        }
    }

    /// The state that `finish_present` leaves when it is told `outcome`.
    pub open spec fn after_flush(self, outcome: PresentOutcome) -> VkWindowView {
        match self.slot {
            FrameSlot::Presenting { .. } => VkWindowView {
                slot: FrameSlot::Idle,
                previous_frame_end: if outcome == PresentOutcome::Flushed {
                    FrameEnd::InFlight
                } else {
                    FrameEnd::Completed
                },
                needs_rebuild: self.needs_rebuild || outcome == PresentOutcome::OutOfDate,
                ..self
            },
            _ => self,
        }
    }
}

/// The frame of a window.
#[derive(Debug)]
enum Slot {
    Idle,
    Acquiring,
    Open { image: ImageHandle, future: Option<Signal> },
    Presenting { image: ImageHandle },
}

spec fn slot_view(slot: Slot) -> FrameSlot {
    match slot {
        Slot::Idle => FrameSlot::Idle,
        Slot::Acquiring => FrameSlot::Acquiring,
        Slot::Open { image, future } => FrameSlot::Open {
            image,
            future: match future {
                Some(signal) => Some(signal@),
                None => None,
            },
        },
        Slot::Presenting { image } => FrameSlot::Presenting { image },
    }
}

/// The presentation state of one window. At most one frame is open at any
/// time: an image is acquired only while none is held, and the held one is
/// given up when its present has been flushed.
#[derive(Debug)]
pub struct VkWindow {
    swapchain: SwapchainState,
    slot: Slot,
    previous_frame_end: FrameEnd,
    dimensions: [u32; 2],
    needs_rebuild: bool,
    retries: u32,
    retry_limit: Option<u32>,
}

impl View for VkWindow {
    type V = VkWindowView;

    closed spec fn view(&self) -> VkWindowView {
        VkWindowView {
            swapchain: self.swapchain,
            slot: slot_view(self.slot),
            previous_frame_end: self.previous_frame_end,
            dimensions: self.dimensions,
            needs_rebuild: self.needs_rebuild,
            retries: self.retries,
            retry_limit: self.retry_limit,
        }
    }
}

impl VkWindow {
    /// The state of a window whose swapchain has just been created with the
    /// settings `config` and came out with `image_count` images. No frame is
    /// open, nothing is pending, and the recorded dimensions are zero until
    /// they are first updated.
    pub fn new(config: &SwapchainConfig, image_count: usize) -> (w: Self)
        ensures
            w@ == VkWindowView::initial(config.extent, image_count),
    {
        VkWindow {
            swapchain: SwapchainState::new(config.extent, image_count),
            slot: Slot::Idle,
            previous_frame_end: FrameEnd::Completed,
            dimensions: [0, 0],
            needs_rebuild: false,
            retries: 0,
            retry_limit: None,
        }
    }

    /// Sets how many acquisitions in a row may find the surface changed and
    /// be answered by another attempt; `None` sets no limit.
    pub fn set_retry_limit(&mut self, limit: Option<u32>)
        ensures
            final(self)@ == (VkWindowView { retry_limit: limit, ..old(self)@ }),
    {
        self.retry_limit = limit;
    }

    /// Takes in the device's answer to one attempt to acquire the next image.
    ///
    /// While a frame is open the attempt is refused. If the surface no
    /// longer matches the swapchain (it is out of date, or the image is
    /// suboptimal), the swapchain is marked for rebuilding and another
    /// attempt is asked for after that; once the limit of such attempts in a
    /// row is used up, the acquisition is given up instead and the error says
    /// so. An image that matches opens a frame that waits for the end of the
    /// previous frame and for the image. Any other failure is an error.
    pub fn next_image(&mut self, outcome: AcquireOutcome) -> (r: Result<NextImage, FrameError>)
        ensures
            r == old(self)@.acquire_result(outcome),
            final(self)@ == old(self)@.after_acquire(outcome),
    {
        match &self.slot {
            Slot::Open { .. } => {
                return Err(FrameError::FrameAlreadyOpen);
            },
            Slot::Presenting { .. } => {
                return Err(FrameError::FrameAlreadyOpen);
            },
            _ => {},
        }
        let changed = match outcome {
            AcquireOutcome::Acquired { suboptimal, .. } => suboptimal,
            AcquireOutcome::OutOfDate => true,
            AcquireOutcome::Failed => false,
        };
        if changed {
            self.needs_rebuild = true;
            let exhausted = match self.retry_limit {
                Some(limit) => self.retries >= limit,
                None => false,
            };
            if exhausted {
                self.slot = Slot::Idle;
                self.retries = 0;
                return Err(FrameError::AcquireTimeout);
            }
            self.slot = Slot::Acquiring;
            if self.retries < u32::MAX {
                self.retries = self.retries + 1;
            }
            return Ok(NextImage::Rebuild);
        }
        match outcome {
            AcquireOutcome::Acquired { image_index, .. } => {
                if image_index < self.swapchain.image_count {
                    let image = self.swapchain.handle(image_index);
                    let future = Signal::start(self.previous_frame_end.stage()).followed_by(
                        Stage::Acquire { image_index },
                    );
                    assert(future@ == old(self)@.frame_start(image_index));
                    self.slot = Slot::Open { image, future: Some(future) };
                    self.retries = 0;
                    Ok(NextImage::Image(image))
                } else {
                    Err(FrameError::ImageOutOfRange)
                }
            },
            _ => Err(FrameError::AcquireFailed),
        }
    }

    /// Records the inner size of the window.
    pub fn update_dimensions(&mut self, inner_size: [u32; 2])
        ensures
            final(self)@ == (VkWindowView { dimensions: inner_size, ..old(self)@ }),
    {
        self.dimensions = inner_size;
    }

    /// The inner size of the window as last recorded.
    pub fn get_dimensions(&self) -> (d: [u32; 2])
        ensures
            d == self@.dimensions,
    {
        self.dimensions
    }

    /// Takes in the device's answer to recreating the swapchain for a window
    /// whose inner size is now `inner_size`.
    ///
    /// The size is recorded in any case. If the device made a new chain, the
    /// swapchain has the extent `inner_size`, the image count the device
    /// gave and the next generation, and is no longer marked for rebuilding.
    /// If it did not, the swapchain is as before and the error says why.
    pub fn rebuild(&mut self, inner_size: [u32; 2], outcome: RecreateOutcome) -> (r: Result<
        (),
        SwapchainError,
    >)
        ensures
            r == VkWindowView::rebuild_result(outcome),
            final(self)@ == old(self)@.after_rebuild(inner_size, outcome),
    {
        self.update_dimensions(inner_size);
        match outcome {
            RecreateOutcome::Recreated { image_count } => {
                self.swapchain = self.swapchain.recreated(inner_size, image_count);
                self.needs_rebuild = false;
                Ok(())
            },
            RecreateOutcome::UnsupportedDimensions => Err(SwapchainError::UnsupportedDimensions),
            RecreateOutcome::Failed => Err(SwapchainError::DeviceFailure),
        }
    }

    /// Hands out the signal that the work of the open frame has to wait for.
    /// It is handed out once per frame; without an open frame, or after it
    /// was taken, there is none.
    pub fn get_future(&mut self) -> (future: Option<Signal>)
        ensures
            match future {
                Some(signal) => old(self)@.future() == Some(signal@),
                None => old(self)@.future() is None,
            },
            final(self)@ == old(self)@.after_get_future(),
    {
        match &mut self.slot {
            Slot::Open { future, .. } => future.take(),
            _ => None,
        }
    }

    /// Turns the signal `future`, which the work of the open frame ends in,
    /// into the request to present the frame's image: the present is chained
    /// after `future`, and a flushed fence after the present. Without an
    /// open frame the call is refused and nothing changes.
    pub fn present_image(&mut self, future: Signal) -> (r: Result<PresentRequest, FrameError>)
        ensures
            match r {
                Ok(request) => old(self)@.present_result(future@) == Ok::<
                    PresentRequestView,
                    FrameError,
                >(request@),
                Err(e) => old(self)@.present_result(future@) == Err::<PresentRequestView, FrameError>(
                    e,
                ),
            },
            final(self)@ == old(self)@.after_present(),
    {
        let open = match &self.slot {
            Slot::Open { image, .. } => Some(*image),
            _ => None,
        };
        match open {
            Some(image) => {
                self.slot = Slot::Presenting { image };
                let chain = future.followed_by(Stage::Present { image_index: image.index }).followed_by(
                    Stage::Fence,
                );
                Ok(PresentRequest { image_index: image.index, chain })
            },
            None => Err(FrameError::NoOpenFrame),
        }
    }

    /// Where the window stands in the cycle of a frame.
    pub fn phase(&self) -> (p: Phase)
        ensures
            p == self@.phase(),
    {
        match &self.slot {
            Slot::Idle => Phase::Idle,
            Slot::Acquiring => Phase::Acquiring,
            Slot::Open { .. } => Phase::FrameOpen,
            Slot::Presenting { .. } => Phase::Presenting,
        }
    }

    /// The image of the frame that is acquired and not yet presented.
    pub fn image_num(&self) -> (image: Option<ImageHandle>)
        ensures
            image == self@.frame(),
    {
        match &self.slot {
            Slot::Open { image, .. } => Some(*image),
            Slot::Presenting { image } => Some(*image),
            _ => None,
        }
    }

    /// Whether the swapchain is marked for rebuilding.
    pub fn needs_rebuild(&self) -> (b: bool)
        ensures
            b == self@.needs_rebuild,
    {
        self.needs_rebuild
    }

    /// The swapchain as it stands.
    pub fn swapchain(&self) -> (s: SwapchainState)
        ensures
            s == self@.swapchain,
    {
        self.swapchain
    }

    /// Marks the swapchain for rebuilding, as a change of the surface calls
    /// for.
    pub fn mark_for_rebuild(&mut self)
        ensures
            final(self)@ == (VkWindowView { needs_rebuild: true, ..old(self)@ }),
    {
        self.needs_rebuild = true;
    }

    /// Takes in the queue's answer to flushing the present request, which
    /// ends the frame. After a flush the next frame waits for this one's
    /// fence. After any failure it waits for nothing, and an out-of-date
    /// surface also marks the swapchain for rebuilding. Without a present
    /// under way the call is refused and nothing changes.
    pub fn finish_present(&mut self, outcome: PresentOutcome) -> (r: Result<(), FrameError>)
        ensures
            r == old(self)@.flush_result(),
            final(self)@ == old(self)@.after_flush(outcome),
    {
        let presenting = match &self.slot {
            Slot::Presenting { .. } => true,
            _ => false,
        };
        if !presenting {
            return Err(FrameError::NoOpenFrame);
        }
        self.slot = Slot::Idle;
        match outcome {
            PresentOutcome::Flushed => {
                self.previous_frame_end = FrameEnd::InFlight;
            },
            PresentOutcome::OutOfDate => {
                self.previous_frame_end = FrameEnd::Completed;
                self.needs_rebuild = true;
            },
            PresentOutcome::Failed => {
                self.previous_frame_end = FrameEnd::Completed;
            },
        }
        Ok(())
    }
}

} // verus!
