//! The receive pump: one inbound message at a time, under the session lock.
//!
//! Each round of the pump acquires the session, polls for at most one decoded
//! message, reacts as the handshake asks and releases the session. A poll
//! that fails ends the round and nothing else; a request that cannot be
//! written ends the session and with it the pump.

use crate::request::{Extensions, Request, RequestView};
use crate::session::{
    next_phase, reaction, Message, Phase, Reaction, ReactionView, Session, SessionEvent,
};
use vstd::prelude::*;

verus! {

/// What a poll of the pool client gave.
#[derive(Clone, Copy, Debug, PartialEq, Eq, Structural)]
pub enum Polled {
    /// One decoded message.
    Message(Message),
    /// Nothing complete has arrived.
    Idle,
    /// The stream or the decoder reported an error.
    Failed,
}

/// The handshake request that the pump is about to write.
#[derive(Clone, Copy, Debug, PartialEq, Eq, Structural)]
pub enum Outgoing {
    Subscription,
    Authorization,
}

/// Where the pump stands in its round.
#[derive(Clone, Copy, Debug, PartialEq, Eq, Structural)]
pub enum RxStage {
    /// Waiting for the session lock.
    Acquiring,
    /// Holding the session, waiting for the poll.
    Polling,
    /// Holding the session, writing a request.
    Sending(Outgoing),
    /// Holding the session, setting the authorization gate.
    Signalling,
    /// Giving the session back at the end of a round.
    Releasing,
    /// Giving the session back after the transport failed.
    Closing,
    /// The session is gone; the pump has ended.
    Halted,
}

/// What the pump is told once it has done what it was directed to.
#[derive(Clone, Copy, Debug, PartialEq, Eq, Structural)]
pub enum RxEvent {
    /// The session lock was granted.
    Acquired,
    /// The poll returned.
    Polled(Polled),
    /// The request was written (`true`) or the transport failed (`false`).
    Sent(bool),
    /// The authorization gate was set.
    Signalled,
    /// The session lock was given back.
    Released,
}

/// What the pump has to do next.
#[derive(Debug, PartialEq, Eq)]
pub enum RxDirective {
    /// Wait for exclusive access to the session.
    Acquire,
    /// Poll the pool client for at most one message.
    Poll,
    /// Write this request.
    Send(Request),
    /// Set the authorization gate to true.
    OpenGate,
    /// Give up access to the session.
    Release,
    /// End the pump and report that the session is over.
    Halt,
}

/// A directive as plain values.
pub enum RxDirectiveView {
    Acquire,
    Poll,
    Send(RequestView),
    OpenGate,
    Release,
    Halt,
}

impl View for RxDirective {
    type V = RxDirectiveView;

    open spec fn view(&self) -> RxDirectiveView {
        match self {
            RxDirective::Acquire => RxDirectiveView::Acquire,
            RxDirective::Poll => RxDirectiveView::Poll,
            RxDirective::Send(request) => RxDirectiveView::Send(request@),
            RxDirective::OpenGate => RxDirectiveView::OpenGate,
            RxDirective::Release => RxDirectiveView::Release,
            RxDirective::Halt => RxDirectiveView::Halt,
        }
    }
}

/// Whether a pump at `stage` has been granted the session and not yet given
/// it back.
pub open spec fn holds_session(stage: RxStage) -> bool {
    stage is Polling || stage is Sending || stage is Signalling || stage is Releasing
        || stage is Closing
}

/// The directive of a pump at `stage`.
pub open spec fn directive_of(stage: RxStage) -> RxDirectiveView {
    match stage {
        RxStage::Acquiring => RxDirectiveView::Acquire,
        RxStage::Polling => RxDirectiveView::Poll,
        RxStage::Sending(Outgoing::Subscription) => RxDirectiveView::Send(Request::connect_spec()),
        RxStage::Sending(Outgoing::Authorization) => RxDirectiveView::Send(
            Request::authorize_spec(),
        ),
        RxStage::Signalling => RxDirectiveView::OpenGate,
        RxStage::Releasing => RxDirectiveView::Release,
        RxStage::Closing => RxDirectiveView::Release,
        RxStage::Halted => RxDirectiveView::Halt,
    }
}

/// What the pump hands to the session when `event` finds it at `stage`.
pub open spec fn session_event(stage: RxStage, event: RxEvent) -> Option<SessionEvent> {
    match (stage, event) {
        (RxStage::Polling, RxEvent::Polled(Polled::Message(message))) => Some(
            SessionEvent::Inbound(message),
        ),
        (RxStage::Sending(_), RxEvent::Sent(true)) => Some(SessionEvent::RequestSent),
        (RxStage::Sending(_), RxEvent::Sent(false)) => Some(SessionEvent::TransportLost),
        _ => None,
    }
}

/// The stage in which the pump carries out `answer`.
pub open spec fn stage_for(answer: ReactionView) -> RxStage {
    match answer {
        ReactionView::Send(RequestView::Connect { .. }) => RxStage::Sending(
            Outgoing::Subscription,
        ),
        ReactionView::Send(RequestView::Authorize { .. }) => RxStage::Sending(
            Outgoing::Authorization,
        ),
        ReactionView::OpenGate => RxStage::Signalling,
        _ => RxStage::Releasing,
    }
}

/// The stage that follows `stage` on `event`, for a session in `phase`.
pub open spec fn next_stage(stage: RxStage, phase: Phase, extensions: Extensions, event: RxEvent)
    -> RxStage {
    match (stage, event) {
        (RxStage::Acquiring, RxEvent::Acquired) => RxStage::Polling,
        (RxStage::Polling, RxEvent::Polled(Polled::Message(message))) => stage_for(
            reaction(phase, extensions, SessionEvent::Inbound(message)),
        ),
        (RxStage::Polling, RxEvent::Polled(_)) => RxStage::Releasing,
        (RxStage::Sending(_), RxEvent::Sent(true)) => RxStage::Releasing,
        (RxStage::Sending(_), RxEvent::Sent(false)) => RxStage::Closing,
        (RxStage::Signalling, RxEvent::Signalled) => RxStage::Releasing,
        (RxStage::Releasing, RxEvent::Released) => RxStage::Acquiring,
        (RxStage::Closing, RxEvent::Released) => RxStage::Halted,
        _ => stage,
    }
}

/// The phase in which the pump leaves a session that was in `phase`.
pub open spec fn phase_left(stage: RxStage, phase: Phase, event: RxEvent) -> Phase {
    match session_event(stage, event) {
        Some(passed) => next_phase(phase, passed),
        None => phase,
    }
}

/// The receive pump.
#[derive(Clone, Copy, Debug, PartialEq, Eq, Structural)]
pub struct Receiver {
    stage: RxStage,
}

impl Receiver {
    pub closed spec fn stage_spec(&self) -> RxStage {
        self.stage
    }

    /// A pump at the start of its first round.
    pub fn new() -> (pump: Receiver)
        ensures
            pump.stage() == RxStage::Acquiring,
    {
        Receiver { stage: RxStage::Acquiring }
    }

    #[verifier::when_used_as_spec(stage_spec)]
    pub fn stage(&self) -> (stage: RxStage)
        ensures
            stage == self.stage(),
    {
        self.stage
    }

    /// What the pump has to do now.
    pub fn directive(&self) -> (directive: RxDirective)
        ensures
            directive@ == directive_of(self.stage()),
    {
        match self.stage {
            RxStage::Acquiring => RxDirective::Acquire,
            RxStage::Polling => RxDirective::Poll,
            RxStage::Sending(Outgoing::Subscription) => RxDirective::Send(Request::connect()),
            RxStage::Sending(Outgoing::Authorization) => RxDirective::Send(Request::authorize()),
            RxStage::Signalling => RxDirective::OpenGate,
            RxStage::Releasing => RxDirective::Release,
            RxStage::Closing => RxDirective::Release,
            RxStage::Halted => RxDirective::Halt,
        }
    }

    /// Takes `event`, lets the session see what concerns it, and says what
    /// to do next. An event that the pump does not wait for changes nothing.
    pub fn step(&mut self, session: &mut Session, event: RxEvent) -> (directive: RxDirective)
        ensures
            final(self).stage() == next_stage(
                old(self).stage(),
                old(session).phase(),
                old(session).extensions(),
                event,
            ),
            final(session).phase() == phase_left(old(self).stage(), old(session).phase(), event),
            final(session).extensions() == old(session).extensions(),
            directive@ == directive_of(final(self).stage()),
    {
        match (self.stage, event) {
            (RxStage::Acquiring, RxEvent::Acquired) => {
                self.stage = RxStage::Polling;
            },
            (RxStage::Polling, RxEvent::Polled(Polled::Message(message))) => {
                self.stage =
                match session.handle(SessionEvent::Inbound(message)) {
                    Reaction::Send(Request::Connect { .. }) => RxStage::Sending(
                        Outgoing::Subscription,
                    ),
                    Reaction::Send(Request::Authorize { .. }) => RxStage::Sending(
                        Outgoing::Authorization,
                    ),
                    Reaction::OpenGate => RxStage::Signalling,
                    _ => RxStage::Releasing,
                };
            },
            (RxStage::Polling, RxEvent::Polled(_)) => {
                self.stage = RxStage::Releasing;
            },
            (RxStage::Sending(_), RxEvent::Sent(true)) => {
                let _ = session.handle(SessionEvent::RequestSent);
                self.stage = RxStage::Releasing;
            },
            (RxStage::Sending(_), RxEvent::Sent(false)) => {
                let _ = session.handle(SessionEvent::TransportLost);
                self.stage = RxStage::Closing;
            },
            (RxStage::Signalling, RxEvent::Signalled) => {
                self.stage = RxStage::Releasing;
            },
            (RxStage::Releasing, RxEvent::Released) => {
                self.stage = RxStage::Acquiring;
            },
            (RxStage::Closing, RxEvent::Released) => {
                self.stage = RxStage::Halted;
            },
            _ => {},
        }
        self.directive()
    }
}

} // verus!
