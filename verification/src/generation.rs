//! One connection generation: a session, its gate, its lock and the two
//! pumps, run together.
//!
//! A generation is what one successful transport connection brings to life
//! and what a reconnect replaces as a whole. It is driven by stimuli: the
//! scheduler letting a pump run, and the outside world answering what a pump
//! was directed to do. The lock and the authorization gate stand between the
//! pumps; the laws at the end of this module hold of every sequence of
//! stimuli.

use crate::gate::AuthorizationGate;
use crate::lock::{Pump, SessionLock};
use crate::receive::{Outgoing, Polled, Receiver, RxDirective, RxEvent, RxStage};
use crate::request::{Extensions, Request, RequestView};
use crate::session::{Message, Phase, Session, SessionEvent};
use crate::submit::{Submitter, TxDirective, TxEvent, TxStage};
use vstd::prelude::*;

verus! {

/// What drives a generation.
#[derive(Clone, Copy, Debug, PartialEq, Eq, Structural)]
pub enum Stimulus {
    /// The scheduler runs the receive pump where it waits for the lock, sets
    /// the latch or gives the lock back.
    RunReceiver,
    /// The scheduler runs the submit pump where it waits for the latch or the
    /// lock, or gives the lock back.
    RunSubmitter,
    /// The poll of the receive pump returned.
    Polled(Polled),
    /// The request of the receive pump was written, or the transport failed.
    Sent(bool),
    /// The pause of the submit pump after a reset is over.
    PauseElapsed,
    /// The period timer of the submit pump fired.
    Tick,
    /// The share of the submit pump was written, or the transport failed.
    Submitted(bool),
    /// A supervisor sets the latch to false.
    Reset,
}

/// A generation as plain values.
pub struct GenerationView {
    pub phase: Phase,
    pub extensions: Extensions,
    pub pending: Option<bool>,
    pub holder: Option<Pump>,
    pub receiver: RxStage,
    pub submitter: TxStage,
}

/// A generation right after its transport connected.
pub open spec fn opened(extensions: Extensions) -> GenerationView {
    GenerationView {
        phase: Phase::Connected,
        extensions,
        pending: None,
        holder: None,
        receiver: RxStage::Acquiring,
        submitter: TxStage::AwaitingGate,
    }
}

/// `state` after the receive pump was told `event`.
pub open spec fn receiver_told(state: GenerationView, event: RxEvent) -> GenerationView {
    GenerationView {
        phase: crate::receive::phase_left(state.receiver, state.phase, event),
        receiver: crate::receive::next_stage(
            state.receiver,
            state.phase,
            state.extensions,
            event,
        ),
        ..state
    }
}

/// `state` after the submit pump was told `event`.
pub open spec fn submitter_told(state: GenerationView, event: TxEvent) -> GenerationView {
    GenerationView { submitter: crate::submit::next_stage(state.submitter, event), ..state }
}

/// `state` after the scheduler ran the receive pump.
pub open spec fn receiver_ran(state: GenerationView) -> GenerationView {
    match state.receiver {
        RxStage::Acquiring => if state.holder is None {
            receiver_told(
                GenerationView { holder: Some(Pump::Receive), ..state },
                RxEvent::Acquired,
            )
        } else {
            state
        },
        RxStage::Signalling => receiver_told(
            GenerationView { pending: Some(true), ..state },
            RxEvent::Signalled,
        ),
        RxStage::Releasing | RxStage::Closing => if state.holder == Some(Pump::Receive) {
            receiver_told(GenerationView { holder: None, ..state }, RxEvent::Released)
        } else {
            state
        },
        _ => state,
    }
}

/// `state` after the scheduler ran the submit pump.
pub open spec fn submitter_ran(state: GenerationView) -> GenerationView {
    match state.submitter {
        TxStage::AwaitingGate => match state.pending {
            Some(value) => submitter_told(
                GenerationView { pending: None, ..state },
                TxEvent::Gate(value),
            ),
            None => state,
        },
        TxStage::Acquiring => if state.holder is None {
            submitter_told(
                GenerationView { holder: Some(Pump::Submit), ..state },
                TxEvent::Acquired,
            )
        } else {
            state
        },
        TxStage::Releasing | TxStage::Closing => if state.holder == Some(Pump::Submit) {
            submitter_told(GenerationView { holder: None, ..state }, TxEvent::Released)
        } else {
            state
        },
        _ => state,
    }
}

/// `state` after `stimulus`.
pub open spec fn next(state: GenerationView, stimulus: Stimulus) -> GenerationView {
    match stimulus {
        Stimulus::RunReceiver => receiver_ran(state),
        Stimulus::RunSubmitter => submitter_ran(state),
        Stimulus::Polled(polled) => receiver_told(state, RxEvent::Polled(polled)),
        Stimulus::Sent(written) => receiver_told(state, RxEvent::Sent(written)),
        Stimulus::PauseElapsed => submitter_told(state, TxEvent::PauseElapsed),
        Stimulus::Tick => submitter_told(state, TxEvent::Tick),
        Stimulus::Submitted(written) => submitter_told(state, TxEvent::Submitted(written)),
        Stimulus::Reset => GenerationView { pending: Some(false), ..state },
    }
}

/// One connection generation.
#[derive(Clone, Copy, Debug, PartialEq, Eq, Structural)]
pub struct Generation {
    session: Session,
    gate: AuthorizationGate,
    lock: SessionLock,
    receiver: Receiver,
    submitter: Submitter,
}

impl View for Generation {
    type V = GenerationView;

    closed spec fn view(&self) -> GenerationView {
        GenerationView {
            phase: self.session.phase(),
            extensions: self.session.extensions(),
            pending: self.gate.pending(),
            holder: self.lock.holder(),
            receiver: self.receiver.stage(),
            submitter: self.submitter.stage(),
        }
    }
}

impl Generation {
    /// The generation that a fresh transport connection brings to life,
    /// together with the request that negotiates `extensions`, which is
    /// written before the pumps run.
    pub fn open(extensions: Extensions) -> (fresh: (Generation, Request))
        ensures
            fresh.0@ == opened(extensions),
            fresh.1@ == RequestView::Configure(extensions),
    {
        let mut session = Session::new(extensions);
        let configure = match session.handle(SessionEvent::TransportUp) {
            crate::session::Reaction::Send(request) => request,
            _ => vstd::pervasive::unreached(),
        };
        (
            Generation {
                session,
                gate: AuthorizationGate::new(),
                lock: SessionLock::new(),
                receiver: Receiver::new(),
                submitter: Submitter::new(),
            },
            configure,
        )
    }

    /// The phase of the session.
    pub fn phase(&self) -> (phase: Phase)
        ensures
            phase == self@.phase,
    {
        self.session.phase()
    }

    /// The latch as it stands.
    pub fn gate(&self) -> (gate: AuthorizationGate)
        ensures
            gate.pending() == self@.pending,
    {
        self.gate
    }

    /// The pump that holds the session, if any.
    pub fn holder(&self) -> (holder: Option<Pump>)
        ensures
            holder == self@.holder,
    {
        self.lock.holder()
    }

    /// Where the receive pump stands.
    pub fn receiver_stage(&self) -> (stage: RxStage)
        ensures
            stage == self@.receiver,
    {
        self.receiver.stage()
    }

    /// Where the submit pump stands.
    pub fn submitter_stage(&self) -> (stage: TxStage)
        ensures
            stage == self@.submitter,
    {
        self.submitter.stage()
    }

    /// The extensions that the session negotiates.
    pub fn extensions(&self) -> (extensions: Extensions)
        ensures
            extensions == self@.extensions,
    {
        self.session.extensions()
    }

    /// What the receive pump has to do now.
    pub fn receiver_directive(&self) -> (directive: RxDirective)
        ensures
            directive@ == crate::receive::directive_of(self@.receiver),
    {
        self.receiver.directive()
    }

    /// What the submit pump has to do now.
    pub fn submitter_directive(&self) -> (directive: TxDirective)
        ensures
            directive@ == crate::submit::directive_of(self@.submitter),
    {
        self.submitter.directive()
    }

    /// Lets `stimulus` act on the generation.
    pub fn deliver(&mut self, stimulus: Stimulus)
        ensures
            final(self)@ == next(old(self)@, stimulus),
    {
        match stimulus {
            Stimulus::RunReceiver => {
                match self.receiver.stage() {
                    RxStage::Acquiring => {
                        if self.lock.try_acquire(Pump::Receive) {
                            let _ = self.receiver.step(&mut self.session, RxEvent::Acquired);
                        }
                    },
                    RxStage::Signalling => {
                        self.gate.signal(true);
                        let _ = self.receiver.step(&mut self.session, RxEvent::Signalled);
                    },
                    RxStage::Releasing | RxStage::Closing => {
                        if self.lock.release(Pump::Receive) {
                            let _ = self.receiver.step(&mut self.session, RxEvent::Released);
                        }
                    },
                    _ => {},
                }
            },
            Stimulus::RunSubmitter => {
                match self.submitter.stage() {
                    TxStage::AwaitingGate => {
                        match self.gate.take() {
                            Some(value) => {
                                let _ = self.submitter.step(TxEvent::Gate(value));
                            },
                            None => {},
                        }
                    },
                    TxStage::Acquiring => {
                        if self.lock.try_acquire(Pump::Submit) {
                            let _ = self.submitter.step(TxEvent::Acquired);
                        }
                    },
                    TxStage::Releasing | TxStage::Closing => {
                        if self.lock.release(Pump::Submit) {
                            let _ = self.submitter.step(TxEvent::Released);
                        }
                    },
                    _ => {},
                }
            },
            Stimulus::Polled(polled) => {
                let _ = self.receiver.step(&mut self.session, RxEvent::Polled(polled));
            },
            Stimulus::Sent(written) => {
                let _ = self.receiver.step(&mut self.session, RxEvent::Sent(written));
            },
            Stimulus::PauseElapsed => {
                let _ = self.submitter.step(TxEvent::PauseElapsed);
            },
            Stimulus::Tick => {
                let _ = self.submitter.step(TxEvent::Tick);
            },
            Stimulus::Submitted(written) => {
                let _ = self.submitter.step(TxEvent::Submitted(written));
            },
            Stimulus::Reset => {
                self.gate.signal(false);
            },
        }
    }
}

/// The generation opened with `extensions` after it took `stimuli` in order.
pub open spec fn state_after(extensions: Extensions, stimuli: Seq<Stimulus>) -> GenerationView
    decreases stimuli.len(),
{
    if stimuli.len() == 0 {
        opened(extensions)
    } else {
        next(state_after(extensions, stimuli.drop_last()), stimuli.last())
    }
}

/// What holds of a generation however it was driven.
spec fn coherent(state: GenerationView) -> bool {
    &&& crate::receive::holds_session(state.receiver) <==> state.holder == Some(Pump::Receive)
    &&& crate::submit::holds_session(state.submitter) <==> state.holder == Some(Pump::Submit)
    &&& state.pending == Some(true) ==> state.phase == Phase::Authorized
    &&& crate::submit::armed(state.submitter) ==> state.phase == Phase::Authorized
    &&& state.receiver == RxStage::Sending(Outgoing::Subscription) ==> state.phase
        == Phase::Configured
    &&& state.receiver == RxStage::Sending(Outgoing::Authorization) ==> state.phase
        == Phase::ConnectedSession
    &&& state.receiver is Signalling ==> state.phase == Phase::Authorized
}

proof fn lemma_step_coherent(state: GenerationView, stimulus: Stimulus)
    requires
        coherent(state),
    ensures
        coherent(next(state, stimulus)),
{
}

proof fn lemma_coherent(extensions: Extensions, stimuli: Seq<Stimulus>)
    ensures
        coherent(state_after(extensions, stimuli)),
    decreases stimuli.len(),
{
    if stimuli.len() > 0 {
        lemma_coherent(extensions, stimuli.drop_last());
        lemma_step_coherent(state_after(extensions, stimuli.drop_last()), stimuli.last());
    }
}

proof fn lemma_authorized_was_observed(extensions: Extensions, stimuli: Seq<Stimulus>)
    ensures
        state_after(extensions, stimuli).phase == Phase::Authorized ==> exists|i: int|
            0 <= i < stimuli.len() && stimuli[i] == Stimulus::Polled(
                Polled::Message(Message::Authorized),
            ),
    decreases stimuli.len(),
{
    if stimuli.len() > 0 && state_after(extensions, stimuli).phase == Phase::Authorized {
        let before = stimuli.drop_last();
        let last = stimuli.len() - 1;
        if state_after(extensions, before).phase == Phase::Authorized {
            lemma_authorized_was_observed(extensions, before);
            let i = choose|i: int|
                0 <= i < before.len() && before[i] == Stimulus::Polled(
                    Polled::Message(Message::Authorized),
                );
            assert(stimuli[i] == before[i]);
        } else {
            assert(stimuli[last] == Stimulus::Polled(Polled::Message(Message::Authorized)));
        }
    }
}

/// Session mutual exclusion. However a generation is driven, the two pumps
/// never hold the session at once, and a pump is directed to poll, to write
/// a request or to submit a share only while the lock names it as holder.
pub proof fn pumps_exclude_each_other(extensions: Extensions, stimuli: Seq<Stimulus>)
    ensures
        ({
            let state = state_after(extensions, stimuli);
            let receiving = crate::receive::directive_of(state.receiver);
            let submitting = crate::submit::directive_of(state.submitter);
            &&& !(crate::receive::holds_session(state.receiver) && crate::submit::holds_session(
                state.submitter,
            ))
            &&& receiving is Poll || receiving is Send ==> state.holder == Some(Pump::Receive)
            &&& submitting is Submit ==> state.holder == Some(Pump::Submit)
        }),
{
    lemma_coherent(extensions, stimuli);
}

/// The handshake in step with the session. However a generation is driven,
/// the receive pump is directed to write the subscription only in the phase
/// that follows the negotiated extensions, the authorization only in the
/// phase that follows the confirmed subscription, and to set the latch only
/// in the authorized phase.
pub proof fn requests_match_phase(extensions: Extensions, stimuli: Seq<Stimulus>)
    ensures
        ({
            let state = state_after(extensions, stimuli);
            let receiving = crate::receive::directive_of(state.receiver);
            &&& receiving == crate::receive::RxDirectiveView::Send(Request::connect_spec())
                ==> state.phase == Phase::Configured
            &&& receiving == crate::receive::RxDirectiveView::Send(Request::authorize_spec())
                ==> state.phase == Phase::ConnectedSession
            &&& receiving is OpenGate ==> state.phase == Phase::Authorized
        }),
{
    lemma_coherent(extensions, stimuli);
}

/// No share before authorization. However a generation is driven, its latch
/// holds true, and the submit pump is directed to submit a share, only once
/// the receive pump has observed the pool's authorization message and the
/// session has reached its authorized phase.
pub proof fn shares_follow_authorization(extensions: Extensions, stimuli: Seq<Stimulus>)
    ensures
        ({
            let state = state_after(extensions, stimuli);
            state.pending == Some(true) || crate::submit::directive_of(state.submitter)
                is Submit ==> {
                &&& state.phase == Phase::Authorized
                &&& exists|i: int|
                    0 <= i < stimuli.len() && stimuli[i] == Stimulus::Polled(
                        Polled::Message(Message::Authorized),
                    )
            }
        }),
{
    lemma_coherent(extensions, stimuli);
    lemma_authorized_was_observed(extensions, stimuli);
}

/// A fresh generation starts closed: nothing is pending on its gate, nobody
/// holds its session and its submit pump waits for the latch, whatever an
/// earlier generation had reached.
pub proof fn fresh_generation_is_closed(extensions: Extensions)
    ensures
        opened(extensions).pending is None,
        opened(extensions).holder is None,
        !crate::submit::armed(opened(extensions).submitter),
{
}

} // verus!
