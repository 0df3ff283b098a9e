//! Closed-loop regulation of the core supply rail.
//!
//! Once per period the regulator takes the measured rail voltage, where a
//! sensor is configured and the measurement succeeds, and commands the
//! voltage source. Its only memory is the correction `delta`, the difference
//! between the last good measurement and the target. A failed measurement
//! leaves the correction as it is: the last one is held, not cleared. The
//! source is commanded on every tick, with or without a fresh measurement.
//!
//! Voltages are whole microvolts.

use vstd::prelude::*;

verus! {

/// Period of the regulation loop, in milliseconds.
pub const REGULATION_PERIOD_MS: u64 = 1_000;

/// A source that can be told which rail voltage to produce.
pub trait SetVCore {
    /// Commands `microvolts`. A source that fails keeps that to itself.
    fn set_vcore(&mut self, microvolts: u32);
}

/// A sensor of the rail voltage.
pub trait MeasureVCore {
    /// The rail voltage in microvolts, or `None` where it cannot be read.
    fn measure_vcore(&mut self) -> Option<u32>;
}

/// The correction after a tick that began with `delta`.
pub open spec fn next_delta(target: u32, delta: int, reading: Option<u32>) -> int {
    match reading {
        Some(measured) => measured - target,
        None => delta,
    }
}

/// The state of the regulation loop between two ticks.
#[derive(Clone, Copy, Debug, PartialEq, Eq)]
pub struct Regulator {
    target: u32,
    delta: i64,
}

impl Regulator {
    /// The command stays a voltage that the source can be asked for.
    #[verifier::type_invariant]
    spec fn in_range(self) -> bool {
        0 <= self.target + self.delta <= u32::MAX
    }

    pub closed spec fn target_spec(&self) -> u32 {
        self.target
    }

    pub closed spec fn delta_spec(&self) -> i64 {
        self.delta
    }

    /// A regulator for `target` microvolts with no correction yet.
    pub fn new(target: u32) -> (regulator: Regulator)
        ensures
            regulator.target() == target,
            regulator.delta() == 0,
    {
        Regulator { target, delta: 0 }
    }

    /// The desired rail voltage.
    #[verifier::when_used_as_spec(target_spec)]
    pub fn target(&self) -> (target: u32)
        ensures
            target == self.target(),
    {
        self.target
    }

    /// The correction carried from the last good measurement.
    #[verifier::when_used_as_spec(delta_spec)]
    pub fn delta(&self) -> (delta: i64)
        ensures
            delta == self.delta(),
    {
        self.delta
    }

    /// One tick. `reading` is the measured rail voltage, `None` where no
    /// sensor is configured or the measurement failed. Returns the voltage to
    /// command.
    pub fn tick(&mut self, reading: Option<u32>) -> (command: u32)
        ensures
            final(self).target() == old(self).target(),
            final(self).delta() == next_delta(
                old(self).target(),
                old(self).delta() as int,
                reading,
            ),
            command == old(self).target() + final(self).delta(),
    {
        proof {
            use_type_invariant(&*self);
        }
        if let Some(measured) = reading {
            self.delta = measured as i64 - self.target as i64;
        }
        (self.target as i64 + self.delta) as u32
    }
}

/// One round of the regulation task: measures where a sensor is configured,
/// lets the regulator tick on what came back and commands the source with
/// the result, which is also returned. The caller pauses for the regulation
/// period between two rounds.
///
/// What the sensor returns is its own affair; whatever it was, the correction
/// is the one that `Regulator::tick` gives for it.
pub fn vcore_task<S: SetVCore, M: MeasureVCore>(
    regulator: &mut Regulator,
    setter: &mut S,
    measurer: Option<&mut M>,
) -> (command: u32)
    ensures
        final(regulator).target() == old(regulator).target(),
        command == old(regulator).target() + final(regulator).delta(),
        exists|reading: Option<u32>|
            final(regulator).delta() == #[trigger] next_delta(
                old(regulator).target(),
                old(regulator).delta() as int,
                reading,
            ),
        measurer is None ==> final(regulator).delta() == old(regulator).delta(),
{
    let reading = match measurer {
        Some(sensor) => sensor.measure_vcore(),
        None => None,
    };
    let command = regulator.tick(reading);
    setter.set_vcore(command);
    command
}

/// The correction of a regulator that began with `delta` and took `readings`
/// in order, one per tick.
pub open spec fn delta_after(target: u32, delta: int, readings: Seq<Option<u32>>) -> int
    decreases readings.len(),
{
    if readings.len() == 0 {
        delta
    } else {
        next_delta(target, delta_after(target, delta, readings.drop_last()), readings.last())
    }
}

/// The voltage commanded on tick `index` of that run.
pub open spec fn command_at(target: u32, delta: int, readings: Seq<Option<u32>>, index: int)
    -> int {
    target + delta_after(target, delta, readings.take(index + 1))
}

/// Stable input. With a sensor that reads the target on every tick, whatever
/// correction the regulator began with, every tick commands the target and
/// leaves no correction: the loop has settled after one tick.
pub proof fn settles_on_target(target: u32, delta: int, readings: Seq<Option<u32>>, index: int)
    requires
        0 <= index < readings.len(),
        forall|i: int| 0 <= i < readings.len() ==> readings[i] == Some(target),
    ensures
        delta_after(target, delta, readings.take(index + 1)) == 0,
        command_at(target, delta, readings, index) == target,
{
    let upto = readings.take(index + 1);
    assert(upto.last() == readings[index]);
}

/// Hold of the last correction. After a measurement of `measured`, however
/// many ticks follow on which the measurement fails, that tick and each of
/// them commands the target plus the correction that this measurement gave.
pub proof fn holds_last_correction(
    target: u32,
    delta: int,
    measured: u32,
    readings: Seq<Option<u32>>,
    index: int,
)
    requires
        0 <= index < readings.len(),
        readings[0] == Some(measured),
        forall|i: int| 0 < i < readings.len() ==> readings[i] is None,
    ensures
        delta_after(target, delta, readings.take(index + 1)) == measured - target,
        command_at(target, delta, readings, index) == target + (measured - target),
    decreases index,
{
    let upto = readings.take(index + 1);
    assert(upto.last() == readings[index]);
    assert(upto.drop_last() =~= readings.take(index));
    if index > 0 {
        holds_last_correction(target, delta, measured, readings, index - 1);
    }
}

/// Without a reading nothing changes: while every measurement fails, or no
/// sensor is configured, the correction is the one that the regulator began
/// with.
pub proof fn open_loop_without_reading(target: u32, delta: int, readings: Seq<Option<u32>>)
    requires
        forall|i: int| 0 <= i < readings.len() ==> readings[i] is None,
    ensures
        delta_after(target, delta, readings) == delta,
    decreases readings.len(),
{
    if readings.len() > 0 {
        open_loop_without_reading(target, delta, readings.drop_last());
    }
}

} // verus!
