//! The shared state of a tee and its teardown: the stop flag is set, the
//! relay thread is joined, and whatever the relay left with is put aside.

use vstd::prelude::*;
use crate::error::TeeError;

verus! {

/// What all owners of a tee share, as far as decisions depend on it.
#[derive(Clone, Copy, Debug, PartialEq, Eq, Structural)]
pub struct TeeState {
    /// The stop flag. Clear from construction until teardown, set from then on.
    pub stopped: bool,
    /// Whether a relay thread was started and has not been joined yet.
    pub thread: bool,
}

/// What happened to the last action.
#[derive(Clone, Copy, Debug, PartialEq, Eq)]
pub enum TeardownEvent {
    /// The last owner let go of the tee.
    Released,
    /// The stop flag was stored.
    StopSet,
    /// The relay thread was joined and had left with `outcome`.
    Joined { outcome: Result<(), TeeError> },
}

/// What teardown does next.
#[derive(Clone, Copy, Debug, PartialEq, Eq, Structural)]
pub enum TeardownAction {
    /// Store `true` in the stop flag.
    SetStop,
    /// Wait for the relay thread to leave.
    Join,
    /// Close this tee's handle to the backing store; teardown is over.
    Close,
}

/// The state and the action that follow `event` in state `pre`.
///
/// Release asks for the flag to be set. Once it is set, the thread is joined
/// if there is one to join. A joined thread is gone, and what it left with
/// plays no part in what follows.
pub open spec fn teardown_next(pre: TeeState, event: TeardownEvent) -> (TeeState, TeardownAction) {
    match event {
        TeardownEvent::Released => (pre, TeardownAction::SetStop),
        TeardownEvent::StopSet => (
            TeeState { stopped: true, ..pre },
            if pre.thread {
                TeardownAction::Join
            } else {
                TeardownAction::Close
            },
        ),
        TeardownEvent::Joined { outcome } => (
            TeeState { thread: false, ..pre },
            TeardownAction::Close,
        ),
    }
}

impl TeeState {
    /// The state of a tee that was just built, with a relay thread if
    /// `relay` is set.
    pub fn new(relay: bool) -> (state: TeeState)
        ensures
            state == (TeeState { stopped: false, thread: relay }),
    {
        TeeState { stopped: false, thread: relay }
    }

    /// Takes in what happened and decides what teardown does next, as
    /// [`teardown_next`] says.
    pub fn step(&mut self, event: TeardownEvent) -> (action: TeardownAction)
        ensures
            (*final(self), action) == teardown_next(*old(self), event),
    {
        match event {
            TeardownEvent::Released => TeardownAction::SetStop,
            TeardownEvent::StopSet => {
                self.stopped = true;
                if self.thread {
                    TeardownAction::Join
                } else {
                    TeardownAction::Close
                }
            },
            TeardownEvent::Joined { outcome: _ } => {
                self.thread = false;
                TeardownAction::Close
            },
        }
    }

    /// A line of text that shows whether the tee was stopped.
    pub fn describe(&self) -> (text: &'static str)
        ensures
            text@ == if self.stopped {
                "TeeData(stopped: true)"@
            } else {
                "TeeData(stopped: false)"@
            },
    {
        if self.stopped {
            "TeeData(stopped: true)"
        } else {
            "TeeData(stopped: false)"
        }
    }
}

/// The stop flag never clears: once set it stays set, whatever happens. It is
/// set by the step that takes in `StopSet` and by no other.
pub proof fn stop_flag_only_rises(pre: TeeState, event: TeardownEvent)
    ensures
        pre.stopped ==> teardown_next(pre, event).0.stopped,
        !pre.stopped ==> (teardown_next(pre, event).0.stopped <==> event is StopSet),
{
}

/// Teardown cannot fail: however the relay left, joining it leads to the same
/// state and to `Close`.
pub proof fn teardown_puts_relay_outcome_aside(
    pre: TeeState,
    one: Result<(), TeeError>,
    other: Result<(), TeeError>,
)
    ensures
        teardown_next(pre, TeardownEvent::Joined { outcome: one }) == teardown_next(
            pre,
            TeardownEvent::Joined { outcome: other },
        ),
        teardown_next(pre, TeardownEvent::Joined { outcome: one }).1 == TeardownAction::Close,
        !teardown_next(pre, TeardownEvent::Joined { outcome: one }).0.thread,
{
}

/// From release, teardown of a tee with a relay thread is over after three
/// steps: set the flag, join, close. Without a thread it is over after two.
pub proof fn teardown_is_short(pre: TeeState, outcome: Result<(), TeeError>)
    ensures
        ({
            let (released, first) = teardown_next(pre, TeardownEvent::Released);
            let (flagged, second) = teardown_next(released, TeardownEvent::StopSet);
            let (joined, third) = teardown_next(flagged, TeardownEvent::Joined { outcome });
            &&& first == TeardownAction::SetStop
            &&& second == if pre.thread {
                TeardownAction::Join
            } else {
                TeardownAction::Close
            }
            &&& third == TeardownAction::Close
            &&& joined == (TeeState { stopped: true, thread: false })
        }),
{
}

} // verus!
