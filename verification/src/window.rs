//! A window surface: the presentation state of the window together with
//! what the event source reported of it.

use crate::signal::Signal;
use crate::swapchain::ImageHandle;
use crate::swapchain::RecreateOutcome;
use crate::swapchain::SwapchainError;
use crate::swapchain::SwapchainState;
use crate::vk_window::AcquireOutcome;
use crate::vk_window::FrameError;
use crate::vk_window::NextImage;
use crate::vk_window::Phase;
use crate::vk_window::PresentOutcome;
use crate::vk_window::PresentRequest;
use crate::vk_window::PresentRequestView;
use crate::vk_window::VkWindow;
use crate::vk_window::VkWindowView;
use vstd::prelude::*;

verus! {

/// One event of the window, as far as the frame loop reads it.
#[derive(Clone, Copy, Debug, PartialEq, Eq, Structural)]
pub enum Event {
    /// The user asked to close the window.
    CloseRequested,
    /// The window has a new size.
    Resized,
    /// Anything else: keys, pointer, focus.
    Other,
}

/// What one update of the window asks of the caller.
#[derive(Clone, Copy, Debug, PartialEq, Eq)]
pub struct UpdateOutcome {
    /// Whether the program should exit.
    pub done: bool,
    /// The dimensions in whose middle the pointer is to be put, if it is to
    /// be re-centred.
    pub recenter: Option<[u32; 2]>,
}

/// A window surface as a mathematical value.
pub struct WindowView {
    pub vk_window: VkWindowView,
    pub recenter: bool,
    pub render_pass: usize,
}

impl WindowView {
    /// The state that `update` leaves after the events `events`.
    pub open spec fn after_update(self, events: Seq<Event>) -> WindowView {
        WindowView {
            vk_window: VkWindowView {
                needs_rebuild: self.vk_window.needs_rebuild || events.contains(Event::Resized),
                ..self.vk_window
            },
            ..self
        }
    }

    /// What `update` asks of the caller after the events `events`.
    pub open spec fn update_outcome(self, events: Seq<Event>) -> UpdateOutcome {
        UpdateOutcome {
            done: events.contains(Event::CloseRequested),
            recenter: if self.recenter {
                Some(self.vk_window.dimensions)
            } else {
                None
            },
        }
    }
}

/// A window surface. `render_pass` names the pass configuration the window
/// is shown with, by its position in the caller's table.
#[derive(Debug)]
pub struct Window {
    vk_window: VkWindow,
    recenter: bool,
    render_pass: usize,
}

impl View for Window {
    type V = WindowView;

    closed spec fn view(&self) -> WindowView {
        WindowView {
            vk_window: self.vk_window@,
            recenter: self.recenter,
            render_pass: self.render_pass,
        }
    }
}

impl Window {
    /// A window with the presentation state `vk_window`, shown with the pass
    /// configuration `render_pass`. The pointer is re-centred on each update
    /// until that is switched off.
    pub fn new(vk_window: VkWindow, render_pass: usize) -> (w: Self)
        ensures
            w@ == (WindowView { vk_window: vk_window@, recenter: true, render_pass }),
    {
        Window { vk_window, recenter: true, render_pass }
    }

    /// Turns the signal that the frame's work ends in into the request to
    /// present the frame, as `VkWindow::present_image` does.
    pub fn present_future(&mut self, future: Signal) -> (r: Result<PresentRequest, FrameError>)
        ensures
            match r {
                Ok(request) => old(self)@.vk_window.present_result(future@) == Ok::<
                    PresentRequestView,
                    FrameError,
                >(request@),
                Err(e) => old(self)@.vk_window.present_result(future@) == Err::<
                    PresentRequestView,
                    FrameError,
                >(e),
            },
            final(self)@ == (WindowView {
                vk_window: old(self)@.vk_window.after_present(),
                ..old(self)@
            }),
    {
        self.vk_window.present_image(future)
    }

    /// Takes in the queue's answer to flushing the present request, as
    /// `VkWindow::finish_present` does.
    pub fn finish_present(&mut self, outcome: PresentOutcome) -> (r: Result<(), FrameError>)
        ensures
            r == old(self)@.vk_window.flush_result(),
            final(self)@ == (WindowView {
                vk_window: old(self)@.vk_window.after_flush(outcome),
                ..old(self)@
            }),
    {
        self.vk_window.finish_present(outcome)
    }

    /// Takes in the device's answer to one attempt to acquire the next
    /// image, as `VkWindow::next_image` does.
    pub fn next_image(&mut self, outcome: AcquireOutcome) -> (r: Result<NextImage, FrameError>)
        ensures
            r == old(self)@.vk_window.acquire_result(outcome),
            final(self)@ == (WindowView {
                vk_window: old(self)@.vk_window.after_acquire(outcome),
                ..old(self)@
            }),
    {
        self.vk_window.next_image(outcome)
    }

    /// Hands out the signal that the work of the open frame has to wait for,
    /// as `VkWindow::get_future` does.
    pub fn get_future(&mut self) -> (future: Option<Signal>)
        ensures
            match future {
                Some(signal) => old(self)@.vk_window.future() == Some(signal@),
                None => old(self)@.vk_window.future() is None,
            },
            final(self)@ == (WindowView {
                vk_window: old(self)@.vk_window.after_get_future(),
                ..old(self)@
            }),
    {
        self.vk_window.get_future()
    }

    /// Switches re-centring of the pointer on or off.
    pub fn set_recenter(&mut self, state: bool)
        ensures
            final(self)@ == (WindowView { recenter: state, ..old(self)@ }),
    {
        self.recenter = state;
    }

    /// The inner size of the window as last recorded.
    pub fn get_dimensions(&self) -> (d: [u32; 2])
        ensures
            d == self@.vk_window.dimensions,
    {
        self.vk_window.get_dimensions()
    }

    /// Takes in the device's answer to recreating the swapchain for a window
    /// whose inner size is now `inner_size`, as `VkWindow::rebuild` does.
    pub fn rebuild(&mut self, inner_size: [u32; 2], outcome: RecreateOutcome) -> (r: Result<
        (),
        SwapchainError,
    >)
        ensures
            r == VkWindowView::rebuild_result(outcome),
            final(self)@ == (WindowView {
                vk_window: old(self)@.vk_window.after_rebuild(inner_size, outcome),
                ..old(self)@
            }),
    {
        self.vk_window.rebuild(inner_size, outcome)
    }

    /// Shows the window with another pass configuration, which takes a
    /// rebuilt swapchain: the configuration is recorded, and the device's
    /// answer to recreating the swapchain is taken in as `rebuild` does.
    pub fn set_render_pass(
        &mut self,
        new_render_pass: usize,
        inner_size: [u32; 2],
        outcome: RecreateOutcome,
    ) -> (r: Result<(), SwapchainError>)
        ensures
            r == VkWindowView::rebuild_result(outcome),
            final(self)@ == (WindowView {
                vk_window: old(self)@.vk_window.after_rebuild(inner_size, outcome),
                render_pass: new_render_pass,
                ..old(self)@
            }),
    {
        self.render_pass = new_render_pass;
        self.vk_window.rebuild(inner_size, outcome)
    }

    /// Sets how many acquisitions in a row may find the surface changed and
    /// be answered by another attempt, as `VkWindow::set_retry_limit` does.
    pub fn set_retry_limit(&mut self, limit: Option<u32>)
        ensures
            final(self)@ == (WindowView {
                vk_window: VkWindowView { retry_limit: limit, ..old(self)@.vk_window },
                ..old(self)@
            }),
    {
        self.vk_window.set_retry_limit(limit);
    }

    /// Where the window stands in the cycle of a frame.
    pub fn phase(&self) -> (p: Phase)
        ensures
            p == self@.vk_window.phase(),
    {
        self.vk_window.phase()
    }

    /// The image of the frame that is acquired and not yet presented.
    pub fn image_num(&self) -> (image: Option<ImageHandle>)
        ensures
            image == self@.vk_window.frame(),
    {
        self.vk_window.image_num()
    }

    /// Whether the swapchain is marked for rebuilding.
    pub fn needs_rebuild(&self) -> (b: bool)
        ensures
            b == self@.vk_window.needs_rebuild,
    {
        self.vk_window.needs_rebuild()
    }

    /// The swapchain as it stands.
    pub fn swapchain(&self) -> (s: SwapchainState)
        ensures
            s == self@.vk_window.swapchain,
    {
        self.vk_window.swapchain()
    }

    /// The pass configuration the window is shown with.
    pub fn render_pass(&self) -> (p: usize)
        ensures
            p == self@.render_pass,
    {
        self.render_pass
    }

    /// Takes in the events that the event source reported since the last
    /// update, in their order. The program should exit if a close was
    /// requested among them. A resize among them marks the swapchain for
    /// rebuilding. While re-centring is on, the pointer is to be put in the
    /// middle of the recorded dimensions.
    pub fn update(&mut self, events: &Vec<Event>) -> (out: UpdateOutcome)
        ensures
            out == old(self)@.update_outcome(events@),
            final(self)@ == old(self)@.after_update(events@),
    {
        let mut done = false;
        let mut resized = false;
        let mut i: usize = 0;
        while i < events.len()
            invariant
                i <= events.len(),
                done == events@.take(i as int).contains(Event::CloseRequested),
                resized == events@.take(i as int).contains(Event::Resized),
            decreases events.len() - i,
        {
            let event = events[i];
            assert(events@.take(i + 1) == events@.take(i as int).push(event));
            proof {
                vstd::seq_lib::lemma_seq_contains_after_push(
                    events@.take(i as int),
                    event,
                    Event::CloseRequested,
                );
                vstd::seq_lib::lemma_seq_contains_after_push(
                    events@.take(i as int),
                    event,
                    Event::Resized,
                );
            }
            match event {
                Event::CloseRequested => {
                    done = true;
                },
                Event::Resized => {
                    resized = true;
                },
                Event::Other => {},
            }
            i += 1;
        }
        assert(events@.take(events.len() as int) == events@);
        if resized {
            self.vk_window.mark_for_rebuild();
        }
        let recenter = if self.recenter {
            Some(self.vk_window.get_dimensions())
        } else {
            None
        };
        UpdateOutcome { done, recenter }
    }
}

} // verus!
