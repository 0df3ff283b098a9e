//! One logical connection to the pool and its handshake.
//!
//! A session is negotiated in three exchanges: the device configures the
//! protocol extensions, subscribes under its client name and authorizes its
//! worker. Each request is sent when the reply to the one before it has been
//! observed; a message that the current phase does not expect is ignored.

use crate::request::{Extensions, Request, RequestView};
use vstd::prelude::*;

verus! {

/// How far the handshake of a session has come.
#[derive(Clone, Copy, Debug, PartialEq, Eq, Structural)]
pub enum Phase {
    /// No transport connection.
    Disconnected,
    /// Transport connected; extensions not yet confirmed.
    Connected,
    /// Extensions confirmed; the subscription is to be sent.
    Configured,
    /// Subscription sent under the client name.
    Connecting,
    /// Subscription confirmed; the authorization is to be sent.
    ConnectedSession,
    /// Authorization sent.
    Authorizing,
    /// The pool accepts shares from this session.
    Authorized,
}

/// A decoded message of the pool.
#[derive(Clone, Copy, Debug, PartialEq, Eq, Structural)]
pub enum Message {
    /// The extensions were negotiated.
    Configured,
    /// The subscription was accepted.
    Connected,
    /// The worker was authorized.
    Authorized,
    /// A share was acknowledged; the counts are running totals.
    Share { accepted: u64, rejected: u64 },
    /// The pool announced a version-rolling mask.
    VersionMask(u32),
    /// The pool announced a difficulty, given as the bits of its
    /// double-precision value.
    Difficulty(u64),
    /// Work in flight is stale.
    CleanJobs,
}

/// What happens to a session.
#[derive(Clone, Copy, Debug, PartialEq, Eq, Structural)]
pub enum SessionEvent {
    /// The transport connection was established.
    TransportUp,
    /// A message of the pool was decoded.
    Inbound(Message),
    /// The request asked for by the last reaction was written out.
    RequestSent,
    /// The transport failed.
    TransportLost,
}

/// What the session asks for in answer to an event.
#[derive(Debug, PartialEq, Eq)]
pub enum Reaction {
    Nothing,
    /// Send this request, then report `RequestSent` or `TransportLost`.
    Send(Request),
    /// Set the authorization gate.
    OpenGate,
}

/// A reaction as plain values.
pub enum ReactionView {
    Nothing,
    Send(RequestView),
    OpenGate,
}

impl View for Reaction {
    type V = ReactionView;

    open spec fn view(&self) -> ReactionView {
        match self {
            Reaction::Nothing => ReactionView::Nothing,
            Reaction::Send(request) => ReactionView::Send(request@),
            Reaction::OpenGate => ReactionView::OpenGate,
        }
    }
}

/// The phase that follows `phase` on `event`.
pub open spec fn next_phase(phase: Phase, event: SessionEvent) -> Phase {
    match (phase, event) {
        (_, SessionEvent::TransportLost) => Phase::Disconnected,
        (Phase::Disconnected, SessionEvent::TransportUp) => Phase::Connected,
        (Phase::Connected, SessionEvent::Inbound(Message::Configured)) => Phase::Configured,
        (Phase::Configured, SessionEvent::RequestSent) => Phase::Connecting,
        (Phase::Connecting, SessionEvent::Inbound(Message::Connected)) => Phase::ConnectedSession,
        (Phase::ConnectedSession, SessionEvent::RequestSent) => Phase::Authorizing,
        (Phase::Authorizing, SessionEvent::Inbound(Message::Authorized)) => Phase::Authorized,
        _ => phase,
    }
}

/// The reaction of a session in `phase` to `event`.
pub open spec fn reaction(phase: Phase, extensions: Extensions, event: SessionEvent)
    -> ReactionView {
    match (phase, event) {
        (Phase::Disconnected, SessionEvent::TransportUp) => ReactionView::Send(
            RequestView::Configure(extensions),
        ),
        (Phase::Connected, SessionEvent::Inbound(Message::Configured)) => ReactionView::Send(
            Request::connect_spec(),
        ),
        (Phase::Connecting, SessionEvent::Inbound(Message::Connected)) => ReactionView::Send(
            Request::authorize_spec(),
        ),
        (Phase::Authorizing, SessionEvent::Inbound(Message::Authorized)) => ReactionView::OpenGate,
        _ => ReactionView::Nothing,
    }
}

/// One logical connection to the pool.
#[derive(Clone, Copy, Debug, PartialEq, Eq, Structural)]
pub struct Session {
    phase: Phase,
    extensions: Extensions,
}

impl Session {
    pub closed spec fn phase_spec(&self) -> Phase {
        self.phase
    }

    pub closed spec fn extensions_spec(&self) -> Extensions {
        self.extensions
    }

    /// A session without transport, which will negotiate `extensions`.
    pub fn new(extensions: Extensions) -> (session: Session)
        ensures
            session.phase() == Phase::Disconnected,
            session.extensions() == extensions,
    {
        Session { phase: Phase::Disconnected, extensions }
    }

    #[verifier::when_used_as_spec(phase_spec)]
    pub fn phase(&self) -> (phase: Phase)
        ensures
            phase == self.phase(),
    {
        self.phase
    }

    #[verifier::when_used_as_spec(extensions_spec)]
    pub fn extensions(&self) -> (extensions: Extensions)
        ensures
            extensions == self.extensions(),
    {
        self.extensions
    }

    /// Takes `event` and says what to do about it.
    pub fn handle(&mut self, event: SessionEvent) -> (answer: Reaction)
        ensures
            final(self).phase() == next_phase(old(self).phase(), event),
            final(self).extensions() == old(self).extensions(),
            answer@ == reaction(old(self).phase(), old(self).extensions(), event),
    {
        match (self.phase, event) {
            (_, SessionEvent::TransportLost) => {
                self.phase = Phase::Disconnected;
                Reaction::Nothing
            },
            (Phase::Disconnected, SessionEvent::TransportUp) => {
                self.phase = Phase::Connected;
                Reaction::Send(Request::Configure(self.extensions))
            },
            (Phase::Connected, SessionEvent::Inbound(Message::Configured)) => {
                self.phase = Phase::Configured;
                Reaction::Send(Request::connect())
            },
            (Phase::Configured, SessionEvent::RequestSent) => {
                self.phase = Phase::Connecting;
                Reaction::Nothing
            },
            (Phase::Connecting, SessionEvent::Inbound(Message::Connected)) => {
                self.phase = Phase::ConnectedSession;
                Reaction::Send(Request::authorize())
            },
            (Phase::ConnectedSession, SessionEvent::RequestSent) => {
                self.phase = Phase::Authorizing;
                Reaction::Nothing
            },
            (Phase::Authorizing, SessionEvent::Inbound(Message::Authorized)) => {
                self.phase = Phase::Authorized;
                Reaction::OpenGate
            },
            _ => Reaction::Nothing,
        }
    }
}

/// The phase of a session that started without transport and took `events`.
pub open spec fn phase_after(events: Seq<SessionEvent>) -> Phase
    decreases events.len(),
{
    if events.len() == 0 {
        Phase::Disconnected
    } else {
        next_phase(phase_after(events.drop_last()), events.last())
    }
}

/// The reaction to the event at `index` of a session that started without
/// transport and took `events` in order.
pub open spec fn reaction_at(extensions: Extensions, events: Seq<SessionEvent>, index: int)
    -> ReactionView {
    reaction(phase_after(events.take(index)), extensions, events[index])
}

/// The subscription was requested at `earlier`, and the transport has held
/// from then up to `index`.
pub open spec fn subscribed_since(
    extensions: Extensions,
    events: Seq<SessionEvent>,
    earlier: int,
    index: int,
) -> bool {
    &&& 0 <= earlier < index
    &&& reaction_at(extensions, events, earlier) == ReactionView::Send(Request::connect_spec())
    &&& forall|k: int| earlier < k < index ==> events[k] != SessionEvent::TransportLost
}

/// Whether `phase` lies behind the subscription request.
spec fn past_subscription(phase: Phase) -> bool {
    phase == Phase::Configured || phase == Phase::Connecting || phase == Phase::ConnectedSession
        || phase == Phase::Authorizing || phase == Phase::Authorized
}

proof fn lemma_subscribed(extensions: Extensions, events: Seq<SessionEvent>)
    ensures
        past_subscription(phase_after(events)) ==> exists|j: int|
            subscribed_since(extensions, events, j, events.len() as int),
    decreases events.len(),
{
    if events.len() > 0 && past_subscription(phase_after(events)) {
        let before = events.drop_last();
        let last = events.len() - 1;
        assert(events.take(last) =~= before);
        if past_subscription(phase_after(before)) {
            lemma_subscribed(extensions, before);
            let j = choose|j: int| subscribed_since(extensions, before, j, last);
            assert(before.take(j) =~= events.take(j));
            assert(before[j] == events[j]);
            assert forall|k: int| j < k < events.len() implies events[k]
                != SessionEvent::TransportLost by {
                if k < last {
                    assert(before[k] == events[k]);
                }
            }
            assert(subscribed_since(extensions, events, j, events.len() as int));
        } else {
            assert(subscribed_since(extensions, events, last, events.len() as int));
        }
    }
}

/// In every run of a session, whatever it is sent: an authorization request
/// goes out only after a subscription request of the same connection, and the
/// gate is opened only in answer to the pool's authorization message.
pub proof fn handshake_order(extensions: Extensions, events: Seq<SessionEvent>, index: int)
    requires
        0 <= index < events.len(),
    ensures
        reaction_at(extensions, events, index) is Send && reaction_at(
            extensions,
            events,
            index,
        )->Send_0 is Authorize ==> exists|j: int|
            subscribed_since(extensions, events, j, index),
        reaction_at(extensions, events, index) is OpenGate ==> events[index]
            == SessionEvent::Inbound(Message::Authorized),
{
    let before = events.take(index);
    if reaction_at(extensions, events, index) is Send && reaction_at(
        extensions,
        events,
        index,
    )->Send_0 is Authorize {
        assert(phase_after(before) == Phase::Connecting);
        lemma_subscribed(extensions, before);
        let j = choose|j: int| subscribed_since(extensions, before, j, index);
        assert(before.take(j) =~= events.take(j));
        assert(before[j] == events[j]);
        assert forall|k: int| j < k < index implies events[k]
            != SessionEvent::TransportLost by {
            assert(before[k] == events[k]);
        }
        assert(subscribed_since(extensions, events, j, index));
    }
}

} // verus!
