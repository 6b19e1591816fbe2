//! The compare value that makes a timer count out a given frequency.
use vstd::prelude::*;

verus! {

/// Where the timer's count comes from: the stopped clock, the system clock
/// directly or through a prescaler, or an external pin.
#[derive(Clone, Copy, Debug, PartialEq, Eq, Structural)]
pub enum ClockSource {
    NoClock,
    Direct,
    Prescale8,
    Prescale64,
    Prescale256,
    Prescale1024,
    ExtFalling,
    ExtRising,
}

/// The number of system clock ticks per timer count; sources that do not
/// divide the system clock count one.
pub open spec fn divisor_of(source: ClockSource) -> int {
    match source {
        ClockSource::Prescale8 => 8,
        ClockSource::Prescale64 => 64,
        ClockSource::Prescale256 => 256,
        ClockSource::Prescale1024 => 1024,
        _ => 1,
    }
}

/// The number of system clock ticks per timer count of `source`.
pub fn clock_divisor(source: ClockSource) -> (r: u32)
    ensures
        r == divisor_of(source),
{
    match source {
        ClockSource::Direct => 1,
        ClockSource::Prescale8 => 8,
        ClockSource::Prescale64 => 64,
        ClockSource::Prescale256 => 256,
        ClockSource::Prescale1024 => 1024,
        ClockSource::NoClock | ClockSource::ExtFalling | ClockSource::ExtRising => 1,
    }
}

/// The compare value at which a timer clocked at `clock_hz / prescale` and
/// reset on match fires `target_hz` times per second: the counts per period,
/// less one.
pub fn calc_overflow(clock_hz: u32, target_hz: u32, prescale: u32) -> (r: u32)
    requires
        target_hz > 0,
        prescale > 0,
        clock_hz / target_hz / prescale >= 1,
    ensures
        r == clock_hz / target_hz / prescale - 1,
{
    clock_hz / target_hz / prescale - 1
}

/// The value for a sixteen bit compare register that makes a timer on
/// `source`, with a system clock of `clock_hz`, fire `target_hz` times per
/// second; a value beyond the register keeps its low sixteen bits.
pub fn compare_value(clock_hz: u32, target_hz: u32, source: ClockSource) -> (r: u16)
    requires
        target_hz > 0,
        clock_hz as int / target_hz as int / divisor_of(source) >= 1,
    ensures
        r == (clock_hz as int / target_hz as int / divisor_of(source) - 1) % 65536,
{
    let ticks = calc_overflow(clock_hz, target_hz, clock_divisor(source));
    (ticks % 65536) as u16
}

} // verus!
