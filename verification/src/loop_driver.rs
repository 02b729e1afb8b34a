//! The cooperative loop: one update step per frame the host delivers, and a
//! decision after each step whether to ask the host for another frame.

use vstd::prelude::*;

verus! {

/// The logical update step of a loop. It is handed the instant of the frame,
/// in milliseconds, and answers whether the loop is to stop.
pub trait LoopUpdater {
    fn update_loop(&mut self, timestamp: i64) -> bool;
}

/// Where a loop stands. `Stopped` is final.
#[derive(Clone, Copy, Debug, PartialEq, Eq, Structural)]
pub enum LoopState {
    Running,
    Stopped,
}

/// What the host is to do for the loop next.
#[derive(Clone, Copy, Debug, PartialEq, Eq, Structural)]
pub enum LoopAction {
    /// Arrange for the loop to be called with the next frame.
    RequestFrame,
    /// Nothing: the loop has ended.
    Halt,
}

/// The state after an update step that answered `stop`.
pub open spec fn state_after_update(state: LoopState, stop: bool) -> LoopState {
    if state == LoopState::Running && !stop {
        LoopState::Running
    } else {
        LoopState::Stopped
    }
}

/// The state after the host reported whether the next frame was arranged: a
/// frame that cannot be arranged ends the loop.
pub open spec fn state_after_request(state: LoopState, arranged: bool) -> LoopState {
    if state == LoopState::Running && arranged {
        LoopState::Running
    } else {
        LoopState::Stopped
    }
}

/// The action that goes with a state: a running loop wants its next frame, a
/// stopped one wants nothing.
pub open spec fn action_in(state: LoopState) -> LoopAction {
    match state {
        LoopState::Running => LoopAction::RequestFrame,
        LoopState::Stopped => LoopAction::Halt,
    }
}

/// The driver of a loop. It owns nothing but the loop's state.
pub struct LoopDriver {
    state: LoopState,
}

impl LoopDriver {
    /// Where the loop stands.
    pub closed spec fn view(&self) -> LoopState {
        self.state
    }

    /// A running loop, and the request for its first frame.
    pub fn start() -> (started: (LoopDriver, LoopAction))
        ensures
            started.0@ == LoopState::Running,
            started.1 == LoopAction::RequestFrame,
    {
        (LoopDriver { state: LoopState::Running }, LoopAction::RequestFrame)
    }

    /// Where the loop stands.
    pub fn state(&self) -> (state: LoopState)
        ensures
            state == self@,
    {
        self.state
    }

    /// Takes the answer of an update step: the loop goes on unless the step
    /// asked to stop or the loop had stopped before.
    pub fn after_update(&mut self, stop: bool) -> (action: LoopAction)
        ensures
            final(self)@ == state_after_update(old(self)@, stop),
            action == action_in(final(self)@),
    {
        match self.state {
            LoopState::Running => {
                if stop {
                    self.state = LoopState::Stopped;
                    LoopAction::Halt
                } else {
                    LoopAction::RequestFrame
                }
            },
            LoopState::Stopped => LoopAction::Halt,
        }
    }

    /// Takes the host's word on the frame that was asked for: the loop goes on
    /// only if the frame was arranged.
    pub fn after_request(&mut self, arranged: bool) -> (running: bool)
        ensures
            final(self)@ == state_after_request(old(self)@, arranged),
            running == (final(self)@ == LoopState::Running),
    {
        match self.state {
            LoopState::Running => {
                if !arranged {
                    self.state = LoopState::Stopped;
                }
                arranged
            },
            LoopState::Stopped => false,
        }
    }

    /// Handles one frame: a running loop runs the update step with the frame's
    /// instant and goes by its answer; a stopped loop leaves the updater alone.
    pub fn on_frame<L: LoopUpdater>(&mut self, loop_updater: &mut L, timestamp: i64) -> (action:
        LoopAction)
        ensures
            old(self)@ == LoopState::Stopped ==> final(self)@ == LoopState::Stopped,
            old(self)@ == LoopState::Stopped ==> *final(loop_updater) == *old(loop_updater),
            action == action_in(final(self)@),
    {
        match self.state {
            LoopState::Running => {
                let stop: bool = loop_updater.update_loop(timestamp);
                self.after_update(stop)
            },
            LoopState::Stopped => LoopAction::Halt,
        }
    }
}

/// A stopped loop stays stopped, whatever an update step or the host says.
pub proof fn stopped_is_final(stop: bool, arranged: bool)
    ensures
        state_after_update(LoopState::Stopped, stop) == LoopState::Stopped,
        state_after_request(LoopState::Stopped, arranged) == LoopState::Stopped,
{
}

} // verus!
