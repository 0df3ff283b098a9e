//! The submit pump: shares go out only behind the authorization gate.
//!
//! The pump waits on the authorization gate. A latch that was set to false is
//! a supervisory reset: the pump clears it, pauses and waits again. Once it
//! was set to true the pump runs on a fixed period and, on each tick,
//! acquires the session, submits one share and releases the session.

use crate::request::{Share, ShareView};
use vstd::prelude::*;

verus! {

/// Pause before the latch is waited on again after a reset, in milliseconds.
pub const REARM_PAUSE_MS: u64 = 500;

/// Period of share submission, in milliseconds.
pub const SUBMIT_PERIOD_MS: u64 = 2_000;

/// Where the pump stands.
#[derive(Clone, Copy, Debug, PartialEq, Eq, Structural)]
pub enum TxStage {
    /// Waiting for the authorization gate.
    AwaitingGate,
    /// The latch was reset; pausing before the next wait.
    Rearming,
    /// Authorized; waiting for the next tick.
    AwaitingTick,
    /// Waiting for the session lock.
    Acquiring,
    /// Holding the session, submitting a share.
    Submitting,
    /// Giving the session back after a submission.
    Releasing,
    /// Giving the session back after the transport failed.
    Closing,
    /// The session is gone; the pump has ended.
    Halted,
}

/// What the pump is told once it has done what it was directed to.
#[derive(Clone, Copy, Debug, PartialEq, Eq, Structural)]
pub enum TxEvent {
    /// The wait on the latch returned this value.
    Gate(bool),
    /// The pause after a reset is over.
    PauseElapsed,
    /// The period timer fired.
    Tick,
    /// The session lock was granted.
    Acquired,
    /// The share was written (`true`) or the transport failed (`false`).
    Submitted(bool),
    /// The session lock was given back.
    Released,
}

/// What the pump has to do next.
#[derive(Debug, PartialEq, Eq)]
pub enum TxDirective {
    /// Wait until the authorization gate is set and take its value.
    AwaitGate,
    /// Clear the latch, then pause for so many milliseconds.
    Rearm { pause_ms: u64 },
    /// Wait for the next tick of a timer with this period in milliseconds.
    AwaitTick { period_ms: u64 },
    /// Wait for exclusive access to the session.
    Acquire,
    /// Submit this share.
    Submit(Share),
    /// Give up access to the session.
    Release,
    /// End the pump and report that the session is over.
    Halt,
}

/// A directive as plain values.
pub enum TxDirectiveView {
    AwaitGate,
    Rearm { pause_ms: u64 },
    AwaitTick { period_ms: u64 },
    Acquire,
    Submit(ShareView),
    Release,
    Halt,
}

impl View for TxDirective {
    type V = TxDirectiveView;

    open spec fn view(&self) -> TxDirectiveView {
        match self {
            TxDirective::AwaitGate => TxDirectiveView::AwaitGate,
            TxDirective::Rearm { pause_ms } => TxDirectiveView::Rearm { pause_ms: *pause_ms },
            TxDirective::AwaitTick { period_ms } => TxDirectiveView::AwaitTick {
                period_ms: *period_ms,
            },
            TxDirective::Acquire => TxDirectiveView::Acquire,
            TxDirective::Submit(share) => TxDirectiveView::Submit(share@),
            TxDirective::Release => TxDirectiveView::Release,
            TxDirective::Halt => TxDirectiveView::Halt,
        }
    }
}

/// Whether a pump at `stage` has been granted the session and not yet given
/// it back.
pub open spec fn holds_session(stage: TxStage) -> bool {
    stage is Submitting || stage is Releasing || stage is Closing
}

/// Whether a pump at `stage` has passed the latch.
pub open spec fn armed(stage: TxStage) -> bool {
    stage is AwaitingTick || stage is Acquiring || stage is Submitting || stage is Releasing
        || stage is Closing || stage is Halted
}

/// The directive of a pump at `stage`.
pub open spec fn directive_of(stage: TxStage) -> TxDirectiveView {
    match stage {
        TxStage::AwaitingGate => TxDirectiveView::AwaitGate,
        TxStage::Rearming => TxDirectiveView::Rearm { pause_ms: REARM_PAUSE_MS },
        TxStage::AwaitingTick => TxDirectiveView::AwaitTick { period_ms: SUBMIT_PERIOD_MS },
        TxStage::Acquiring => TxDirectiveView::Acquire,
        TxStage::Submitting => TxDirectiveView::Submit(Share::stand_in_spec()),
        TxStage::Releasing => TxDirectiveView::Release,
        TxStage::Closing => TxDirectiveView::Release,
        TxStage::Halted => TxDirectiveView::Halt,
    }
}

/// The stage that follows `stage` on `event`.
pub open spec fn next_stage(stage: TxStage, event: TxEvent) -> TxStage {
    match (stage, event) {
        (TxStage::AwaitingGate, TxEvent::Gate(true)) => TxStage::AwaitingTick,
        (TxStage::AwaitingGate, TxEvent::Gate(false)) => TxStage::Rearming,
        (TxStage::Rearming, TxEvent::PauseElapsed) => TxStage::AwaitingGate,
        (TxStage::AwaitingTick, TxEvent::Tick) => TxStage::Acquiring,
        (TxStage::Acquiring, TxEvent::Acquired) => TxStage::Submitting,
        (TxStage::Submitting, TxEvent::Submitted(true)) => TxStage::Releasing,
        (TxStage::Submitting, TxEvent::Submitted(false)) => TxStage::Closing,
        (TxStage::Releasing, TxEvent::Released) => TxStage::AwaitingTick,
        (TxStage::Closing, TxEvent::Released) => TxStage::Halted,
        _ => stage,
    }
}

/// The submit pump.
#[derive(Clone, Copy, Debug, PartialEq, Eq, Structural)]
pub struct Submitter {
    stage: TxStage,
}

impl Submitter {
    pub closed spec fn stage_spec(&self) -> TxStage {
        self.stage
    }

    /// A pump that waits for the latch.
    pub fn new() -> (pump: Submitter)
        ensures
            pump.stage() == TxStage::AwaitingGate,
    {
        Submitter { stage: TxStage::AwaitingGate }
    }

    #[verifier::when_used_as_spec(stage_spec)]
    pub fn stage(&self) -> (stage: TxStage)
        ensures
            stage == self.stage(),
    {
        self.stage
    }

    /// What the pump has to do now.
    pub fn directive(&self) -> (directive: TxDirective)
        ensures
            directive@ == directive_of(self.stage()),
    {
        match self.stage {
            TxStage::AwaitingGate => TxDirective::AwaitGate,
            TxStage::Rearming => TxDirective::Rearm { pause_ms: REARM_PAUSE_MS },
            TxStage::AwaitingTick => TxDirective::AwaitTick { period_ms: SUBMIT_PERIOD_MS },
            TxStage::Acquiring => TxDirective::Acquire,
            TxStage::Submitting => TxDirective::Submit(Share::stand_in()),
            TxStage::Releasing => TxDirective::Release,
            TxStage::Closing => TxDirective::Release,
            TxStage::Halted => TxDirective::Halt,
        }
    }

    /// Takes `event` and says what to do next. An event that the pump does
    /// not wait for changes nothing.
    pub fn step(&mut self, event: TxEvent) -> (directive: TxDirective)
        ensures
            final(self).stage() == next_stage(old(self).stage(), event),
            directive@ == directive_of(final(self).stage()),
    {
        self.stage =
        match (self.stage, event) {
            (TxStage::AwaitingGate, TxEvent::Gate(true)) => TxStage::AwaitingTick,
            (TxStage::AwaitingGate, TxEvent::Gate(false)) => TxStage::Rearming,
            (TxStage::Rearming, TxEvent::PauseElapsed) => TxStage::AwaitingGate,
            (TxStage::AwaitingTick, TxEvent::Tick) => TxStage::Acquiring,
            (TxStage::Acquiring, TxEvent::Acquired) => TxStage::Submitting,
            (TxStage::Submitting, TxEvent::Submitted(true)) => TxStage::Releasing,
            (TxStage::Submitting, TxEvent::Submitted(false)) => TxStage::Closing,
            (TxStage::Releasing, TxEvent::Released) => TxStage::AwaitingTick,
            (TxStage::Closing, TxEvent::Released) => TxStage::Halted,
            (stage, _) => stage,
        };
        self.directive()
    }
}

/// The stage of a fresh pump that took `events`.
pub open spec fn stage_after(events: Seq<TxEvent>) -> TxStage
    decreases events.len(),
{
    if events.len() == 0 {
        TxStage::AwaitingGate
    } else {
        next_stage(stage_after(events.drop_last()), events.last())
    }
}

/// In every run of the pump, whatever it is told: it is directed to submit a
/// share only after a wait on the latch has returned true.
pub proof fn submits_only_behind_gate(events: Seq<TxEvent>)
    ensures
        armed(stage_after(events)) ==> exists|i: int|
            0 <= i < events.len() && events[i] == TxEvent::Gate(true),
        directive_of(stage_after(events)) is Submit ==> armed(stage_after(events)),
    decreases events.len(),
{
    if events.len() > 0 && armed(stage_after(events)) {
        let before = events.drop_last();
        let last = events.len() - 1;
        if armed(stage_after(before)) {
            submits_only_behind_gate(before);
            let i = choose|i: int| 0 <= i < before.len() && before[i] == TxEvent::Gate(true);
            assert(events[i] == TxEvent::Gate(true));
        } else {
            assert(events[last] == TxEvent::Gate(true));
        }
    }
}

} // verus!
