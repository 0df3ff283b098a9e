//! The reconnect supervisor: from power-up to a running session, and back
//! again after every failure.
//!
//! At start-up the supervisor polls until the link is up and an address is
//! held. From then on it runs connection cycles: it waits a fixed delay,
//! connects to the pool and, where that succeeds, opens a new session
//! generation and idles while the generation runs. A connect that fails, a
//! generation that cannot be opened and a generation that has ended all lead
//! to the next cycle, which starts with the same delay.

use crate::request::Extensions;
use vstd::prelude::*;

verus! {

/// Interval of the start-up polls, in milliseconds.
pub const STARTUP_POLL_MS: u64 = 500;

/// Delay before each connection attempt, in milliseconds.
pub const RECONNECT_DELAY_MS: u64 = 1_000;

/// Period of the idle tick while a generation runs, in milliseconds.
pub const IDLE_TICK_MS: u64 = 5_000;

/// First octet of the pool's address.
pub const POOL_ADDRESS_A: u8 = 68;

/// Second octet of the pool's address.
pub const POOL_ADDRESS_B: u8 = 235;

/// Third octet of the pool's address.
pub const POOL_ADDRESS_C: u8 = 52;

/// Fourth octet of the pool's address.
pub const POOL_ADDRESS_D: u8 = 36;

/// TCP port of the pool.
pub const POOL_PORT: u16 = 21_496;

/// An IPv4 address and a TCP port.
#[derive(Clone, Copy, Debug, PartialEq, Eq, Structural)]
pub struct Endpoint {
    pub a: u8,
    pub b: u8,
    pub c: u8,
    pub d: u8,
    pub port: u16,
}

impl Endpoint {
    /// The pool that this device mines for.
    pub open spec fn pool_spec() -> Endpoint {
        Endpoint {
            a: POOL_ADDRESS_A,
            b: POOL_ADDRESS_B,
            c: POOL_ADDRESS_C,
            d: POOL_ADDRESS_D,
            port: POOL_PORT,
        }
    }

    #[verifier::when_used_as_spec(pool_spec)]
    pub fn pool() -> (endpoint: Endpoint)
        ensures
            endpoint == Endpoint::pool_spec(),
    {
        Endpoint {
            a: POOL_ADDRESS_A,
            b: POOL_ADDRESS_B,
            c: POOL_ADDRESS_C,
            d: POOL_ADDRESS_D,
            port: POOL_PORT,
        }
    }
}

/// Where the supervisor stands.
#[derive(Clone, Copy, Debug, PartialEq, Eq, Structural)]
pub enum Stage {
    /// Asking whether the link is up.
    AwaitingLink,
    /// The link was down; pausing before the next poll.
    LinkPause,
    /// Asking whether an address is held.
    AwaitingAddress,
    /// No address yet; pausing before the next poll.
    AddressPause,
    /// Waiting out the delay before a connection attempt.
    Delaying,
    /// Connecting to the pool.
    Connecting,
    /// Opening a session generation on the new connection.
    Opening,
    /// A generation runs.
    Running,
}

/// What the supervisor is told once it has done what it was directed to.
#[derive(Clone, Copy, Debug, PartialEq, Eq, Structural)]
pub enum Event {
    /// Whether the link is up.
    LinkUp(bool),
    /// Whether an address is held.
    AddressHeld(bool),
    /// The pause, the delay or the idle tick is over.
    Elapsed,
    /// The connection was established (`true`) or the attempt failed
    /// (`false`).
    Connected(bool),
    /// The generation was opened, its configuration request written and its
    /// pumps started (`true`), or the transport failed in between (`false`).
    Opened(bool),
    /// The running generation has ended.
    Ended,
}

/// What the supervisor has to do next.
#[derive(Clone, Copy, Debug, PartialEq, Eq, Structural)]
pub enum Directive {
    /// Report whether the link is up.
    QueryLink,
    /// Report whether an address is held.
    QueryAddress,
    /// Pause for so many milliseconds.
    Pause { pause_ms: u64 },
    /// Connect to this endpoint over a fresh socket.
    Connect(Endpoint),
    /// Open a fresh session generation that negotiates these extensions.
    Open(Extensions),
    /// Idle for so many milliseconds, or until the generation ends.
    Idle { tick_ms: u64 },
}

/// The directive of a supervisor at `stage`.
pub open spec fn directive_of(stage: Stage) -> Directive {
    match stage {
        Stage::AwaitingLink => Directive::QueryLink,
        Stage::LinkPause => Directive::Pause { pause_ms: STARTUP_POLL_MS },
        Stage::AwaitingAddress => Directive::QueryAddress,
        Stage::AddressPause => Directive::Pause { pause_ms: STARTUP_POLL_MS },
        Stage::Delaying => Directive::Pause { pause_ms: RECONNECT_DELAY_MS },
        Stage::Connecting => Directive::Connect(Endpoint::pool()),
        Stage::Opening => Directive::Open(Extensions::advertised()),
        Stage::Running => Directive::Idle { tick_ms: IDLE_TICK_MS },
    }
}

/// The stage that follows `stage` on `event`.
pub open spec fn next_stage(stage: Stage, event: Event) -> Stage {
    match (stage, event) {
        (Stage::AwaitingLink, Event::LinkUp(true)) => Stage::AwaitingAddress,
        (Stage::AwaitingLink, Event::LinkUp(false)) => Stage::LinkPause,
        (Stage::LinkPause, Event::Elapsed) => Stage::AwaitingLink,
        (Stage::AwaitingAddress, Event::AddressHeld(true)) => Stage::Delaying,
        (Stage::AwaitingAddress, Event::AddressHeld(false)) => Stage::AddressPause,
        (Stage::AddressPause, Event::Elapsed) => Stage::AwaitingAddress,
        (Stage::Delaying, Event::Elapsed) => Stage::Connecting,
        (Stage::Connecting, Event::Connected(true)) => Stage::Opening,
        (Stage::Connecting, Event::Connected(false)) => Stage::Delaying,
        (Stage::Opening, Event::Opened(true)) => Stage::Running,
        (Stage::Opening, Event::Opened(false)) => Stage::Delaying,
        (Stage::Running, Event::Ended) => Stage::Delaying,
        _ => stage,
    }
}

/// Whether a supervisor at `stage` has left start-up behind.
pub open spec fn cycling(stage: Stage) -> bool {
    stage is Delaying || stage is Connecting || stage is Opening || stage is Running
}

/// The reconnect supervisor.
#[derive(Clone, Copy, Debug, PartialEq, Eq, Structural)]
pub struct Supervisor {
    stage: Stage,
}

impl Supervisor {
    pub closed spec fn stage_spec(&self) -> Stage {
        self.stage
    }

    /// A supervisor at power-up.
    pub fn new() -> (supervisor: Supervisor)
        ensures
            supervisor.stage() == Stage::AwaitingLink,
    {
        Supervisor { stage: Stage::AwaitingLink }
    }

    #[verifier::when_used_as_spec(stage_spec)]
    pub fn stage(&self) -> (stage: Stage)
        ensures
            stage == self.stage(),
    {
        self.stage
    }

    /// What the supervisor has to do now.
    pub fn directive(&self) -> (directive: Directive)
        ensures
            directive == directive_of(self.stage()),
    {
        match self.stage {
            Stage::AwaitingLink => Directive::QueryLink,
            Stage::LinkPause => Directive::Pause { pause_ms: STARTUP_POLL_MS },
            Stage::AwaitingAddress => Directive::QueryAddress,
            Stage::AddressPause => Directive::Pause { pause_ms: STARTUP_POLL_MS },
            Stage::Delaying => Directive::Pause { pause_ms: RECONNECT_DELAY_MS },
            Stage::Connecting => Directive::Connect(Endpoint::pool()),
            Stage::Opening => Directive::Open(Extensions::advertised()),
            Stage::Running => Directive::Idle { tick_ms: IDLE_TICK_MS },
        }
    }

    /// Takes `event` and says what to do next. An event that the supervisor
    /// does not wait for changes nothing.
    pub fn step(&mut self, event: Event) -> (directive: Directive)
        ensures
            final(self).stage() == next_stage(old(self).stage(), event),
            directive == directive_of(final(self).stage()),
    {
        self.stage =
        match (self.stage, event) {
            (Stage::AwaitingLink, Event::LinkUp(true)) => Stage::AwaitingAddress,
            (Stage::AwaitingLink, Event::LinkUp(false)) => Stage::LinkPause,
            (Stage::LinkPause, Event::Elapsed) => Stage::AwaitingLink,
            (Stage::AwaitingAddress, Event::AddressHeld(true)) => Stage::Delaying,
            (Stage::AwaitingAddress, Event::AddressHeld(false)) => Stage::AddressPause,
            (Stage::AddressPause, Event::Elapsed) => Stage::AwaitingAddress,
            (Stage::Delaying, Event::Elapsed) => Stage::Connecting,
            (Stage::Connecting, Event::Connected(true)) => Stage::Opening,
            (Stage::Connecting, Event::Connected(false)) => Stage::Delaying,
            (Stage::Opening, Event::Opened(true)) => Stage::Running,
            (Stage::Opening, Event::Opened(false)) => Stage::Delaying,
            (Stage::Running, Event::Ended) => Stage::Delaying,
            (stage, _) => stage,
        };
        self.directive()
    }
}

/// The stage of a supervisor that began at power-up and took `events`.
pub open spec fn stage_after(events: Seq<Event>) -> Stage
    decreases events.len(),
{
    if events.len() == 0 {
        Stage::AwaitingLink
    } else {
        next_stage(stage_after(events.drop_last()), events.last())
    }
}

/// The supervisor connects only behind the link: in every run from power-up,
/// a connection cycle begins only after the link was seen up and, later, an
/// address was seen held.
pub proof fn connects_behind_link(events: Seq<Event>)
    ensures
        cycling(stage_after(events)) ==> exists|i: int, j: int|
            0 <= i < j < events.len() && events[i] == Event::LinkUp(true) && events[j]
                == Event::AddressHeld(true),
        stage_after(events) is AwaitingAddress || stage_after(events) is AddressPause
            ==> exists|i: int| 0 <= i < events.len() && events[i] == Event::LinkUp(true),
    decreases events.len(),
{
    if events.len() > 0 {
        let before = events.drop_last();
        let last = events.len() - 1;
        connects_behind_link(before);
        let stage = stage_after(events);
        let earlier = stage_after(before);
        if cycling(stage) {
            if cycling(earlier) {
                let (i, j) = choose|i: int, j: int|
                    0 <= i < j < before.len() && before[i] == Event::LinkUp(true) && before[j]
                        == Event::AddressHeld(true);
                assert(events[i] == before[i] && events[j] == before[j]);
            } else {
                let i = choose|i: int| 0 <= i < before.len() && before[i] == Event::LinkUp(true);
                assert(events[i] == before[i]);
                assert(events[last] == Event::AddressHeld(true));
            }
        } else if stage is AwaitingAddress || stage is AddressPause {
            if earlier is AwaitingAddress || earlier is AddressPause {
                let i = choose|i: int| 0 <= i < before.len() && before[i] == Event::LinkUp(true);
                assert(events[i] == before[i]);
            } else {
                assert(events[last] == Event::LinkUp(true));
            }
        }
    }
}

/// Every failure is taken up after the fixed delay: a connect that fails, a
/// generation that cannot be opened and a generation that ends each lead to
/// the delay, and the delay leads to a connection attempt.
pub proof fn retries_after_delay(stage: Stage, event: Event)
    requires
        (stage is Connecting && event == Event::Connected(false)) || (stage is Opening && event
            == Event::Opened(false)) || (stage is Running && event == Event::Ended),
    ensures
        directive_of(next_stage(stage, event)) == (Directive::Pause {
            pause_ms: RECONNECT_DELAY_MS,
        }),
        directive_of(next_stage(next_stage(stage, event), Event::Elapsed)) == Directive::Connect(
            Endpoint::pool(),
        ),
{
}

} // verus!
