//! The link supervisor: keeps the radio associated.
//!
//! The supervisor runs for the life of the device. It looks at the link;
//! while the link is associated it waits for the disassociation event, and
//! after that event it backs off before it tries again. It starts the radio
//! with the client configuration where the radio is not started, and then
//! attempts the association. A radio that does not start and an association
//! that fails are both taken up again after the same backoff. No failure ends
//! the supervisor.

use vstd::prelude::*;

verus! {

/// Pause after a disassociation or a failure, in milliseconds.
pub const BACKOFF_MS: u64 = 5_000;

/// The state of the wireless link.
#[derive(Clone, Copy, Debug, PartialEq, Eq, Structural)]
pub enum LinkState {
    Disassociated,
    Associating,
    Associated,
}

/// Where the supervisor stands.
#[derive(Clone, Copy, Debug, PartialEq, Eq, Structural)]
pub enum LinkStage {
    /// Asking whether the link is associated.
    Observing,
    /// Associated; waiting for the disassociation event.
    Holding,
    /// Backing off after a disassociation.
    Recovering,
    /// Asking whether the radio is started.
    CheckingRadio,
    /// Applying the client configuration and starting the radio.
    Starting,
    /// Attempting the association.
    Associating,
    /// Backing off after a failure.
    Retrying,
}

/// What the supervisor is told once it has done what it was directed to.
#[derive(Clone, Copy, Debug, PartialEq, Eq, Structural)]
pub enum LinkEvent {
    /// Whether the link is associated.
    LinkStatus(bool),
    /// The link was disassociated.
    Disassociated,
    /// The backoff is over.
    BackoffElapsed,
    /// Whether the radio is known to be started.
    RadioStatus(bool),
    /// The radio was configured and started (`true`), or one of the two
    /// failed (`false`).
    RadioStarted(bool),
    /// The association succeeded (`true`) or failed (`false`).
    Associated(bool),
}

/// What the supervisor has to do next.
#[derive(Clone, Copy, Debug, PartialEq, Eq, Structural)]
pub enum LinkDirective {
    /// Report whether the link is associated.
    QueryLink,
    /// Block until the link is disassociated.
    AwaitDisassociation,
    /// Pause for so many milliseconds.
    Backoff { pause_ms: u64 },
    /// Report whether the radio is started.
    QueryRadio,
    /// Apply the client configuration and start the radio.
    StartRadio,
    /// Attempt the association.
    Associate,
}

/// The directive of a supervisor at `stage`.
pub open spec fn directive_of(stage: LinkStage) -> LinkDirective {
    match stage {
        LinkStage::Observing => LinkDirective::QueryLink,
        LinkStage::Holding => LinkDirective::AwaitDisassociation,
        LinkStage::Recovering => LinkDirective::Backoff { pause_ms: BACKOFF_MS },
        LinkStage::CheckingRadio => LinkDirective::QueryRadio,
        LinkStage::Starting => LinkDirective::StartRadio,
        LinkStage::Associating => LinkDirective::Associate,
        LinkStage::Retrying => LinkDirective::Backoff { pause_ms: BACKOFF_MS },
    }
}

/// The stage that follows `stage` on `event`.
pub open spec fn next_stage(stage: LinkStage, event: LinkEvent) -> LinkStage {
    match (stage, event) {
        (LinkStage::Observing, LinkEvent::LinkStatus(true)) => LinkStage::Holding,
        (LinkStage::Observing, LinkEvent::LinkStatus(false)) => LinkStage::CheckingRadio,
        (LinkStage::Holding, LinkEvent::Disassociated) => LinkStage::Recovering,
        (LinkStage::Recovering, LinkEvent::BackoffElapsed) => LinkStage::CheckingRadio,
        (LinkStage::CheckingRadio, LinkEvent::RadioStatus(true)) => LinkStage::Associating,
        (LinkStage::CheckingRadio, LinkEvent::RadioStatus(false)) => LinkStage::Starting,
        (LinkStage::Starting, LinkEvent::RadioStarted(true)) => LinkStage::Associating,
        (LinkStage::Starting, LinkEvent::RadioStarted(false)) => LinkStage::Retrying,
        (LinkStage::Associating, LinkEvent::Associated(true)) => LinkStage::Observing,
        (LinkStage::Associating, LinkEvent::Associated(false)) => LinkStage::Retrying,
        (LinkStage::Retrying, LinkEvent::BackoffElapsed) => LinkStage::Observing,
        _ => stage,
    }
}

/// The state of the link as a supervisor at `stage` knows it.
pub open spec fn link_state_of(stage: LinkStage) -> LinkState {
    match stage {
        LinkStage::Holding => LinkState::Associated,
        LinkStage::Associating => LinkState::Associating,
        _ => LinkState::Disassociated,
    }
}

/// The link supervisor.
#[derive(Clone, Copy, Debug, PartialEq, Eq, Structural)]
pub struct LinkSupervisor {
    stage: LinkStage,
}

impl LinkSupervisor {
    pub closed spec fn stage_spec(&self) -> LinkStage {
        self.stage
    }

    /// A supervisor that is about to look at the link.
    pub fn new() -> (supervisor: LinkSupervisor)
        ensures
            supervisor.stage() == LinkStage::Observing,
    {
        LinkSupervisor { stage: LinkStage::Observing }
    }

    #[verifier::when_used_as_spec(stage_spec)]
    pub fn stage(&self) -> (stage: LinkStage)
        ensures
            stage == self.stage(),
    {
        self.stage
    }

    /// The state of the link as the supervisor knows it.
    pub fn link_state(&self) -> (state: LinkState)
        ensures
            state == link_state_of(self.stage()),
    {
        match self.stage {
            LinkStage::Holding => LinkState::Associated,
            LinkStage::Associating => LinkState::Associating,
            _ => LinkState::Disassociated,
        }
    }

    /// What the supervisor has to do now.
    pub fn directive(&self) -> (directive: LinkDirective)
        ensures
            directive == directive_of(self.stage()),
    {
        match self.stage {
            LinkStage::Observing => LinkDirective::QueryLink,
            LinkStage::Holding => LinkDirective::AwaitDisassociation,
            LinkStage::Recovering => LinkDirective::Backoff { pause_ms: BACKOFF_MS },
            LinkStage::CheckingRadio => LinkDirective::QueryRadio,
            LinkStage::Starting => LinkDirective::StartRadio,
            LinkStage::Associating => LinkDirective::Associate,
            LinkStage::Retrying => LinkDirective::Backoff { pause_ms: BACKOFF_MS },
        }
    }

    /// Takes `event` and says what to do next. An event that the supervisor
    /// does not wait for changes nothing.
    pub fn step(&mut self, event: LinkEvent) -> (directive: LinkDirective)
        ensures
            final(self).stage() == next_stage(old(self).stage(), event),
            directive == directive_of(final(self).stage()),
    {
        self.stage =
        match (self.stage, event) {
            (LinkStage::Observing, LinkEvent::LinkStatus(true)) => LinkStage::Holding,
            (LinkStage::Observing, LinkEvent::LinkStatus(false)) => LinkStage::CheckingRadio,
            (LinkStage::Holding, LinkEvent::Disassociated) => LinkStage::Recovering,
            (LinkStage::Recovering, LinkEvent::BackoffElapsed) => LinkStage::CheckingRadio,
            (LinkStage::CheckingRadio, LinkEvent::RadioStatus(true)) => LinkStage::Associating,
            (LinkStage::CheckingRadio, LinkEvent::RadioStatus(false)) => LinkStage::Starting,
            (LinkStage::Starting, LinkEvent::RadioStarted(true)) => LinkStage::Associating,
            (LinkStage::Starting, LinkEvent::RadioStarted(false)) => LinkStage::Retrying,
            (LinkStage::Associating, LinkEvent::Associated(true)) => LinkStage::Observing,
            (LinkStage::Associating, LinkEvent::Associated(false)) => LinkStage::Retrying,
            (LinkStage::Retrying, LinkEvent::BackoffElapsed) => LinkStage::Observing,
            (stage, _) => stage,
        };
        self.directive()
    }
}

/// The stage of a supervisor that began at `stage` and took `events`.
pub open spec fn stage_after(stage: LinkStage, events: Seq<LinkEvent>) -> LinkStage
    decreases events.len(),
{
    if events.len() == 0 {
        stage
    } else {
        next_stage(stage_after(stage, events.drop_last()), events.last())
    }
}

/// The event that answers `directive` when all goes well.
pub open spec fn good_answer(directive: LinkDirective) -> LinkEvent {
    match directive {
        LinkDirective::QueryLink => LinkEvent::LinkStatus(false),
        LinkDirective::AwaitDisassociation => LinkEvent::Disassociated,
        LinkDirective::Backoff { .. } => LinkEvent::BackoffElapsed,
        LinkDirective::QueryRadio => LinkEvent::RadioStatus(true),
        LinkDirective::StartRadio => LinkEvent::RadioStarted(true),
        LinkDirective::Associate => LinkEvent::Associated(true),
    }
}

/// The supervisor attempts an association only on a radio that it found
/// started or has just started, in every run from its first stage.
pub proof fn associates_on_started_radio(events: Seq<LinkEvent>)
    ensures
        stage_after(LinkStage::Observing, events) is Associating ==> exists|i: int|
            0 <= i < events.len() && (events[i] == LinkEvent::RadioStatus(true) || events[i]
                == LinkEvent::RadioStarted(true)),
    decreases events.len(),
{
    if events.len() > 0 && stage_after(LinkStage::Observing, events) is Associating {
        let before = events.drop_last();
        if stage_after(LinkStage::Observing, before) is Associating {
            associates_on_started_radio(before);
            let i = choose|i: int|
                0 <= i < before.len() && (before[i] == LinkEvent::RadioStatus(true) || before[i]
                    == LinkEvent::RadioStarted(true));
            assert(events[i] == before[i]);
        } else {
            let last = events.len() - 1;
            assert(events[last] == LinkEvent::RadioStatus(true) || events[last]
                == LinkEvent::RadioStarted(true));
        }
    }
}

/// The supervisor never comes to rest. Wherever it stands, once the link has
/// dropped or an attempt has failed, no more than three answers without a
/// further failure bring it to the next association attempt: no restart of
/// the device is needed.
pub proof fn reaches_next_attempt(stage: LinkStage)
    ensures
        exists|steps: Seq<LinkEvent>|
            steps.len() <= 3 && #[trigger] stage_after(stage, steps) is Associating,
{
    let e0 = good_answer(directive_of(stage));
    let s1 = next_stage(stage, e0);
    let e1 = good_answer(directive_of(s1));
    let s2 = next_stage(s1, e1);
    let e2 = good_answer(directive_of(s2));
    let none = Seq::<LinkEvent>::empty();
    let steps1 = seq![e0];
    let steps2 = seq![e0, e1];
    let steps3 = seq![e0, e1, e2];
    assert(steps1.drop_last() =~= none);
    assert(steps2.drop_last() =~= steps1);
    assert(steps3.drop_last() =~= steps2);
    assert(stage_after(stage, none) == stage);
    assert(stage_after(stage, steps1) == s1);
    assert(stage_after(stage, steps2) == s2);
    if stage is Associating {
        assert(stage_after(stage, none) is Associating);
    } else if s1 is Associating {
        assert(stage_after(stage, steps1) is Associating);
    } else if s2 is Associating {
        assert(stage_after(stage, steps2) is Associating);
    } else {
        assert(stage_after(stage, steps3) is Associating);
    }
}

} // verus!
