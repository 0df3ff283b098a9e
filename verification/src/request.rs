//! What the device says to the pool: the capabilities it advertises, the
//! identity it presents and the shares it submits.

use crate::wire::{
    bytes_new, bytes_resize, bytes_set, held_bytes, long_from_str, long_text, short_from_str,
    short_text,
};
use vstd::prelude::*;
use vstd::string::{is_ascii_spec_bytes, StringSliceAdditionalSpecFns};

verus! {

/// Name under which the device subscribes to the pool.
pub const CLIENT_NAME: &'static str = "esp-miner-rs";

/// Worker identity presented for authorization.
pub const WORKER_NAME: &'static str = "1HLQGxzAQWnLore3fWHc2W8UP1CgMv1GKQ.miner1";

/// Password presented for authorization; pools ignore it.
pub const WORKER_PASSWORD: &'static str = "x";

/// Version bits that the hashing hardware is able to roll.
pub const VERSION_ROLLING_MASK: u32 = 0x1fff_e000;

/// Least number of rollable version bits that the hardware needs.
pub const VERSION_ROLLING_MIN_BITS: u8 = 16;

/// Lowest difficulty that the device asks the pool to assign.
pub const MINIMUM_DIFFICULTY: u32 = 256;

/// Job identifier of the stand-in share.
pub const STAND_IN_JOB: &'static str = "01";

/// Timestamp of the stand-in share.
pub const STAND_IN_NTIME: u32 = 1_722_789_905;

/// Version-rolling capability advertised to the pool.
#[derive(Clone, Copy, Debug, PartialEq, Eq, Structural)]
pub struct VersionRolling {
    /// Bits that the miner may change.
    pub mask: Option<u32>,
    /// Least number of bits needed for rolling in hardware.
    pub min_bit_count: Option<u8>,
}

/// Protocol extensions negotiated once, when a session starts.
#[derive(Clone, Copy, Debug, PartialEq, Eq, Structural)]
pub struct Extensions {
    pub version_rolling: Option<VersionRolling>,
    pub minimum_difficulty: Option<u32>,
    /// Whether the device asks to be told of extra-nonce changes.
    pub subscribe_extranonce: bool,
}

impl Extensions {
    /// The extensions of this device: hardware version rolling and a
    /// difficulty floor, no extra-nonce subscription.
    pub open spec fn advertised_spec() -> Extensions {
        Extensions {
            version_rolling: Some(
                VersionRolling {
                    mask: Some(VERSION_ROLLING_MASK),
                    min_bit_count: Some(VERSION_ROLLING_MIN_BITS),
                },
            ),
            minimum_difficulty: Some(MINIMUM_DIFFICULTY),
            subscribe_extranonce: false,
        }
    }

    #[verifier::when_used_as_spec(advertised_spec)]
    pub fn advertised() -> (e: Extensions)
        ensures
            e == Extensions::advertised_spec(),
    {
        Extensions {
            version_rolling: Some(
                VersionRolling {
                    mask: Some(VERSION_ROLLING_MASK),
                    min_bit_count: Some(VERSION_ROLLING_MIN_BITS),
                },
            ),
            minimum_difficulty: Some(MINIMUM_DIFFICULTY),
            subscribe_extranonce: false,
        }
    }
}

/// One work result, as the pool client takes it.
#[derive(Debug, PartialEq, Eq)]
pub struct Share {
    pub job_id: heapless::String<64>,
    pub extranonce2: heapless::Vec<u8, 8>,
    pub ntime: u32,
    pub nonce: u32,
    pub version_bits: Option<u32>,
}

/// A share as plain values.
pub struct ShareView {
    pub job_id: Seq<char>,
    pub extranonce2: Seq<u8>,
    pub ntime: u32,
    pub nonce: u32,
    pub version_bits: Option<u32>,
}

impl View for Share {
    type V = ShareView;

    open spec fn view(&self) -> ShareView {
        ShareView {
            job_id: long_text(self.job_id),
            extranonce2: held_bytes(self.extranonce2),
            ntime: self.ntime,
            nonce: self.nonce,
            version_bits: self.version_bits,
        }
    }
}

impl Share {
    /// The share submitted while no hashing hardware reports results: job
    /// "01", extra-nonce 00 00 00 01, a fixed timestamp, nonce zero and no
    /// version bits.
    pub open spec fn stand_in_spec() -> ShareView {
        ShareView {
            job_id: STAND_IN_JOB@,
            extranonce2: seq![0u8, 0u8, 0u8, 1u8],
            ntime: STAND_IN_NTIME,
            nonce: 0,
            version_bits: None,
        }
    }

    pub fn stand_in() -> (share: Share)
        ensures
            share@ == Share::stand_in_spec(),
    {
        let mut extranonce2 = bytes_new();
        let resized = bytes_resize(&mut extranonce2, 4, 0);
        assert(resized is Ok);
        bytes_set(&mut extranonce2, 3, 0x01);
        assert(held_bytes(extranonce2) =~= seq![0u8, 0u8, 0u8, 1u8]);
        Share {
            job_id: long_constant(STAND_IN_JOB),
            extranonce2,
            ntime: STAND_IN_NTIME,
            nonce: 0,
            version_bits: None,
        }
    }
}

/// A handshake request to the pool.
#[derive(Debug, PartialEq, Eq)]
pub enum Request {
    /// Negotiates protocol extensions.
    Configure(Extensions),
    /// Subscribes under a client name.
    Connect { identifier: heapless::String<32> },
    /// Presents the worker's credentials.
    Authorize { user: heapless::String<64>, password: heapless::String<64> },
}

/// A request as plain values.
pub enum RequestView {
    Configure(Extensions),
    Connect { identifier: Seq<char> },
    Authorize { user: Seq<char>, password: Seq<char> },
}

impl View for Request {
    type V = RequestView;

    open spec fn view(&self) -> RequestView {
        match self {
            Request::Configure(extensions) => RequestView::Configure(*extensions),
            Request::Connect { identifier } => RequestView::Connect {
                identifier: short_text(*identifier),
            },
            Request::Authorize { user, password } => RequestView::Authorize {
                user: long_text(*user),
                password: long_text(*password),
            },
        }
    }
}

impl Request {
    /// The subscription request of this device.
    pub open spec fn connect_spec() -> RequestView {
        RequestView::Connect { identifier: CLIENT_NAME@ }
    }

    /// The authorization request of this device.
    pub open spec fn authorize_spec() -> RequestView {
        RequestView::Authorize { user: WORKER_NAME@, password: WORKER_PASSWORD@ }
    }

    pub fn connect() -> (request: Request)
        ensures
            request@ == Request::connect_spec(),
    {
        Request::Connect { identifier: short_constant(CLIENT_NAME) }
    }

    pub fn authorize() -> (request: Request)
        ensures
            request@ == Request::authorize_spec(),
    {
        Request::Authorize {
            user: long_constant(WORKER_NAME),
            password: long_constant(WORKER_PASSWORD),
        }
    }
}

/// Whether `text` is one of the fixed texts of this module.
spec fn is_constant(text: &str) -> bool {
    text@ == CLIENT_NAME@ || text@ == WORKER_NAME@ || text@ == WORKER_PASSWORD@ || text@
        == STAND_IN_JOB@
}

/// Each fixed text is ASCII, so as long in bytes as in characters; the
/// longest has 41 of them and the client name 12.
proof fn constants_fit(text: &str)
    requires
        is_constant(text),
    ensures
        text.spec_bytes().len() == text@.len(),
        text@.len() <= 41,
        text@ == CLIENT_NAME@ ==> text@.len() == 12,
{
    reveal_strlit("esp-miner-rs");
    reveal_strlit("1HLQGxzAQWnLore3fWHc2W8UP1CgMv1GKQ.miner1");
    reveal_strlit("x");
    reveal_strlit("01");
    assert(vstd::string::is_ascii(text));
    is_ascii_spec_bytes(text);
}

fn long_constant(text: &'static str) -> (held: heapless::String<64>)
    requires
        is_constant(text),
    ensures
        long_text(held) == text@,
{
    proof {
        constants_fit(text);
    }
    match long_from_str(text) {
        Ok(held) => held,
        Err(_) => vstd::pervasive::unreached(),
    }
}

fn short_constant(text: &'static str) -> (held: heapless::String<32>)
    requires
        text@ == CLIENT_NAME@,
    ensures
        short_text(held) == text@,
{
    proof {
        constants_fit(text);
    }
    match short_from_str(text) {
        Ok(held) => held,
        Err(_) => vstd::pervasive::unreached(),
    }
}

} // verus!
