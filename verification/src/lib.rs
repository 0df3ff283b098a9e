//! Control core of a pool-connected mining device.
//!
//! The device keeps a session with a mining pool, submits work results to it
//! and holds its core supply rail at a target voltage. This crate holds the
//! decisions of that firmware and none of its waiting: every component is a
//! state machine that is told what has happened and says what to do next,
//! and the shell around it performs the directive and reports back.
//!
//! - [`link`]: keeps the radio associated.
//! - [`reconnect`]: from power-up to a running session, and again after
//!   every failure.
//! - [`session`]: the handshake with the pool.
//! - [`receive`] and [`submit`]: the two pumps that share a session.
//! - [`lock`] and [`gate`]: what stands between the pumps.
//! - [`generation`]: session, pumps, lock and latch run together, with the
//!   laws that hold of every run.
//! - [`request`] and [`wire`]: what goes out to the pool.
//! - [`power`]: the voltage regulator.

pub mod gate;
pub mod generation;
pub mod link;
pub mod lock;
pub mod power;
pub mod receive;
pub mod reconnect;
pub mod request;
pub mod session;
pub mod submit;
pub mod wire;
