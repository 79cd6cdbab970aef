//! Completion signals: points in the device's work that later work waits on.

use vstd::prelude::*;

verus! {

/// One link of a chain of device work. Each link starts only after the link
/// before it has been reached.
#[derive(Clone, Copy, Debug, PartialEq, Eq, Structural)]
pub enum Stage {
    /// A point that has already been reached.
    Completed,
    /// The fence that the previously presented frame signals.
    PreviousFrame,
    /// The moment the acquired image becomes available.
    Acquire { image_index: usize },
    /// The commands recorded for one pass of the graph.
    Execute { pass: usize },
    /// The request to show an image of the swapchain.
    Present { image_index: usize },
    /// A fence signalled after everything before it, flushed to the queue.
    Fence,
}

/// Where the previous frame of a window ended.
#[derive(Clone, Copy, Debug, PartialEq, Eq, Structural)]
pub enum FrameEnd {
    /// Nothing is pending: the next frame waits on nothing.
    Completed,
    /// The last present was flushed and its fence may still be pending.
    InFlight,
}

impl FrameEnd {
    /// The link that a new frame starts from.
    pub open spec fn spec_stage(self) -> Stage {
        match self {
            FrameEnd::Completed => Stage::Completed,
            FrameEnd::InFlight => Stage::PreviousFrame,
        }
    }

    /// The link that a new frame starts from.
    #[verifier::when_used_as_spec(spec_stage)]
    pub fn stage(self) -> (s: Stage)
        ensures
            s == self.spec_stage(),
    {
        match self {
            FrameEnd::Completed => Stage::Completed,
            FrameEnd::InFlight => Stage::PreviousFrame,
        }
    }
}

/// A completion signal, written as the chain of work that leads up to it.
#[derive(Debug)]
pub struct Signal {
    pub stages: Vec<Stage>,
}

impl View for Signal {
    type V = Seq<Stage>;

    open spec fn view(&self) -> Seq<Stage> {
        self.stages@
    }
}

impl Signal {
    /// The signal of a chain that holds `first` alone.
    pub fn start(first: Stage) -> (s: Signal)
        ensures
            s@ == seq![first],
    {
        let mut stages: Vec<Stage> = Vec::new();
        stages.push(first);
        Signal { stages }
    }

    /// The signal reached once `next` has run after `self`.
    pub fn followed_by(self, next: Stage) -> (s: Signal)
        ensures
            s@ == self@.push(next),
    {
        let mut stages = self.stages;
        stages.push(next);
        Signal { stages }
    }
}

} // verus!
