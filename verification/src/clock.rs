//! Which master clock the device runs at.
//!
//! The device samples at the master clock and decimates down to the requested rate.
//! Oversampling adds resolution, so the clock is set to the highest of four times,
//! twice and once the sample rate that the device can run at.

use crate::binary64::{lemma_finite_range, lemma_whole_encoding, lemma_whole_range, Binary64, Value};
use vstd::arithmetic::power2::{lemma2_to64, lemma_pow2_pos, pow2};
use vstd::prelude::*;

verus! {

/// The fastest master clock of a B210, in hertz.
pub const MASTER_CLOCK_CEILING_HZ: u64 = 61440000;

/// Whether the device can run at `clock`.
pub open spec fn within_ceiling(clock: Value) -> bool {
    clock.le(Value::whole(MASTER_CLOCK_CEILING_HZ as int))
}

/// The decimation for a sample rate: the highest of four, two and one that keeps the
/// master clock within the ceiling, and one if none does.
pub open spec fn decimation_for(sample_rate: Value) -> u32 {
    if within_ceiling(sample_rate.scaled(4)) {
        4
    } else if within_ceiling(sample_rate.scaled(2)) {
        2
    } else {
        1
    }
}

/// The ceiling of the master clock, as a double.
pub fn master_clock_ceiling() -> (r: Binary64)
    ensures
        r@ == Value::whole(MASTER_CLOCK_CEILING_HZ as int),
        !r.negative(),
{
    let ceiling = Binary64 { bits: 0x418d4c0000000000 };
    proof {
        lemma2_to64();
        lemma_whole_encoding(ceiling, MASTER_CLOCK_CEILING_HZ as int, 27);
    }
    ceiling
}

/// Selects the master clock for a sample rate, and the decimation from the one to the
/// other.
pub fn select_master_clock(sample_rate: Binary64) -> (r: (Binary64, u32))
    ensures
        r.1 == decimation_for(sample_rate@),
        r.0@ == sample_rate@.scaled(r.1 as int),
        r.0.negative() == sample_rate.negative(),
        r.1 == 1 ==> r.0 == sample_rate,
{
    let ceiling = master_clock_ceiling();
    let twice = sample_rate.doubled();
    let fourfold = twice.doubled();
    if fourfold.le(ceiling) {
        (fourfold, 4)
    } else if twice.le(ceiling) {
        (twice, 2)
    } else {
        proof {
            lemma_scaled_by_one(sample_rate);
        }
        (sample_rate, 1)
    }
}

/// The resolution that decimation adds to the converter, in half bits: each doubling
/// of the oversampling is worth half a bit.
pub fn half_bits_gained(decimation: u32) -> (r: u32)
    requires
        decimation == 1 || decimation == 2 || decimation == 4,
    ensures
        pow2(r as nat) == decimation,
{
    proof {
        lemma2_to64();
    }
    if decimation == 4 {
        2
    } else if decimation == 2 {
        1
    } else {
        0
    }
}

proof fn lemma_scaled_by_one(x: Binary64)
    ensures
        x@.scaled(1) == x@,
{
    lemma_finite_range(x);
}

/// A sample rate that the device can run at leads to a master clock that it can run
/// at.
pub proof fn law_clock_stays_within_ceiling(sample_rate: Binary64)
    requires
        within_ceiling(sample_rate@),
    ensures
        within_ceiling(sample_rate@.scaled(decimation_for(sample_rate@) as int)),
{
    lemma_scaled_by_one(sample_rate);
}

/// No decimation of one, two or four that keeps the master clock within the ceiling
/// is higher than the selected one.
pub proof fn law_decimation_is_highest(sample_rate: Binary64, decimation: u32)
    requires
        decimation == 1 || decimation == 2 || decimation == 4,
        within_ceiling(sample_rate@.scaled(decimation as int)),
    ensures
        decimation <= decimation_for(sample_rate@),
{
}

/// A faster sample rate never gets a higher decimation.
pub proof fn law_decimation_falls_with_the_rate(slower: Binary64, faster: Binary64)
    requires
        slower@.le(faster@),
    ensures
        decimation_for(faster@) <= decimation_for(slower@),
{
}

/// Where the decimation changes, for sample rates that are whole numbers of hertz.
pub proof fn law_whole_rates(hz: int)
    ensures
        decimation_for(Value::whole(hz)) == if hz <= 15360000 {
            4u32
        } else if hz <= 30720000 {
            2u32
        } else {
            1u32
        },
{
    let one = pow2(1074) as int;
    lemma_pow2_pos(1074);
    let ceiling = MASTER_CLOCK_CEILING_HZ as int;
    lemma_whole_range(ceiling);
    assert((hz * one) * 4 == (4 * hz) * one) by (nonlinear_arith);
    assert((hz * one) * 2 == (2 * hz) * one) by (nonlinear_arith);
    assert((4 * hz) * one <= ceiling * one <==> 4 * hz <= ceiling) by (nonlinear_arith)
        requires
            one > 0,
    ;
    assert((2 * hz) * one <= ceiling * one <==> 2 * hz <= ceiling) by (nonlinear_arith)
        requires
            one > 0,
    ;
}

/// The ceiling is 61.44 MHz: the device runs at it and at any slower clock, and at no
/// faster one.
pub proof fn law_ceiling(clock: Value, hz: int)
    ensures
        within_ceiling(clock) <==> clock.le(Value::whole(61440000)),
        within_ceiling(Value::whole(hz)) <==> hz <= 61440000,
{
    let one = pow2(1074) as int;
    lemma_pow2_pos(1074);
    assert(hz * one <= 61440000 * one <==> hz <= 61440000) by (nonlinear_arith)
        requires
            one > 0,
    ;
}

/// The decimation is one, two or four, and where the device is made to oversample it can
/// run at the clock that this takes.
pub proof fn law_oversampling_is_possible(sample_rate: Value)
    ensures
        decimation_for(sample_rate) == 1 || decimation_for(sample_rate) == 2 || decimation_for(
            sample_rate,
        ) == 4,
        decimation_for(sample_rate) > 1 ==> within_ceiling(
            sample_rate.scaled(decimation_for(sample_rate) as int),
        ),
{
}

/// A selected clock is the sample rate times its decimation, of which the device can run
/// at no higher one; and it can run at the clock if it can run at the rate.
pub proof fn law_selected_clock(
    sample_rate: Binary64,
    clock: Binary64,
    decimation: u32,
    other: u32,
)
    requires
        call_ensures(select_master_clock, (sample_rate,), (clock, decimation)),
        other == 1 || other == 2 || other == 4,
    ensures
        decimation == 1 || decimation == 2 || decimation == 4,
        clock@ == sample_rate@.scaled(decimation as int),
        sample_rate@.le(Value::whole(61440000)) ==> clock@.le(Value::whole(61440000)),
        sample_rate@.scaled(other as int).le(Value::whole(61440000)) ==> other <= decimation,
        decimation > 1 ==> clock@.le(Value::whole(61440000)),
        decimation == 1 ==> clock.bits == sample_rate.bits,
{
    lemma_scaled_by_one(sample_rate);
}

} // verus!
