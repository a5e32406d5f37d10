//! Conversion of a motor speed into the period of the step pulse train.

use vstd::arithmetic::div_mod::{
    lemma_div_is_ordered_by_denominator, lemma_fundamental_div_mod, lemma_mod_bound,
};
use vstd::arithmetic::mul::lemma_mul_inequality;
use vstd::prelude::*;

verus! {

/// Microseconds in one minute.
pub const MICROS_PER_MINUTE: u32 = 60_000_000;

/// Step pulses that the motor needs per minute to turn at `rpm`.
pub open spec fn pulses_per_minute(rpm: u16, steps_per_rev: u16) -> int {
    rpm as int * steps_per_rev as int
}

/// The pulse period in whole microseconds: one minute divided by the pulses
/// per minute, rounded down. A motor that needs no pulses has no finite
/// period, and the value saturates.
pub open spec fn pulse_interval(rpm: u16, steps_per_rev: u16) -> int {
    if pulses_per_minute(rpm, steps_per_rev) == 0 {
        u32::MAX as int
    } else {
        MICROS_PER_MINUTE as int / pulses_per_minute(rpm, steps_per_rev)
    }
}

/// The period is the largest whole number of microseconds in which the
/// pulses of one minute, that far apart, still fit into the minute.
pub proof fn lemma_interval_is_floor(rpm: u16, steps_per_rev: u16)
    requires
        rpm > 0,
        steps_per_rev > 0,
    ensures
        pulses_per_minute(rpm, steps_per_rev) > 0,
        0 <= pulse_interval(rpm, steps_per_rev) <= MICROS_PER_MINUTE,
        pulse_interval(rpm, steps_per_rev) * pulses_per_minute(rpm, steps_per_rev)
            <= MICROS_PER_MINUTE,
        MICROS_PER_MINUTE < (pulse_interval(rpm, steps_per_rev) + 1) * pulses_per_minute(
            rpm,
            steps_per_rev,
        ),
{
    let pulses = pulses_per_minute(rpm, steps_per_rev);
    let minute = MICROS_PER_MINUTE as int;
    assert(pulses >= 1) by (nonlinear_arith)
        requires
            pulses == rpm as int * steps_per_rev as int,
            rpm > 0,
            steps_per_rev > 0,
    ;
    lemma_fundamental_div_mod(minute, pulses);
    lemma_mod_bound(minute, pulses);
    lemma_div_is_ordered_by_denominator(minute, 1, pulses);
    let q = minute / pulses;
    assert(q * pulses == pulses * q && (q + 1) * pulses == pulses * q + pulses && q >= 0)
        by (nonlinear_arith)
        requires
            minute == pulses * q + minute % pulses,
            0 <= minute % pulses < pulses,
            minute >= 0,
    ;
}

/// Pulse timing is monotonic: a faster motor never gets a longer period.
pub proof fn lemma_interval_monotonic(slow: u16, fast: u16, steps_per_rev: u16)
    requires
        slow <= fast,
    ensures
        pulse_interval(fast, steps_per_rev) <= pulse_interval(slow, steps_per_rev),
{
    let below = pulses_per_minute(slow, steps_per_rev);
    let above = pulses_per_minute(fast, steps_per_rev);
    lemma_mul_inequality(slow as int, fast as int, steps_per_rev as int);
    assert(0 <= below) by (nonlinear_arith)
        requires
            below == slow as int * steps_per_rev as int,
            slow >= 0,
            steps_per_rev >= 0,
    ;
    if below > 0 {
        lemma_div_is_ordered_by_denominator(MICROS_PER_MINUTE as int, below, above);
    } else if above > 0 {
        lemma_div_is_ordered_by_denominator(MICROS_PER_MINUTE as int, 1, above);
    }
}

/// Period of the step pulses, in microseconds, for a motor with
/// `steps_per_rev` steps per revolution turning at `rpm`.
pub fn pulse_interval_us(rpm: u16, steps_per_rev: u16) -> (interval: u32)
    ensures
        interval == pulse_interval(rpm, steps_per_rev),
{
    if rpm == 0 || steps_per_rev == 0 {
        assert(pulses_per_minute(rpm, steps_per_rev) == 0) by (nonlinear_arith)
            requires
                rpm == 0 || steps_per_rev == 0,
        ;
        return u32::MAX;
    }
    assert(0 < pulses_per_minute(rpm, steps_per_rev) <= 65535 * 65535) by (nonlinear_arith)
        requires
            0 < rpm <= 65535,
            0 < steps_per_rev <= 65535,
    ;
    let pulses: u32 = rpm as u32 * steps_per_rev as u32;
    MICROS_PER_MINUTE / pulses
}

} // verus!
