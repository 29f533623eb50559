//! The sample clock: elapsed playback time derived from the number of sample
//! frames the output pipeline has consumed and the source's sample rate.

use vstd::prelude::*;

verus! {

/// Elapsed playback time, in microseconds, after `samples` sample frames have
/// been rendered at `sample_rate` frames per second. A rate of zero yields
/// zero: such a source never advances the clock.
pub open spec fn micros_of_samples(samples: nat, sample_rate: nat) -> nat {
    if sample_rate == 0 {
        0
    } else {
        (samples * 1_000_000) / sample_rate
    }
}

/// Converts a consumed-frame count to elapsed microseconds, saturating at
/// `u64::MAX` (reached only for astronomically long renders at low rates).
pub fn micros_from_samples(samples: u64, sample_rate: u32) -> (r: u64)
    ensures
        micros_of_samples(samples as nat, sample_rate as nat) <= u64::MAX ==> r
            == micros_of_samples(samples as nat, sample_rate as nat),
        micros_of_samples(samples as nat, sample_rate as nat) > u64::MAX ==> r == u64::MAX,
{
    if sample_rate == 0 {
        0
    } else {
        let wide: u128 = (samples as u128) * 1_000_000u128 / (sample_rate as u128);
        if wide > u64::MAX as u128 {
            u64::MAX
        } else {
            wide as u64
        }
    }
}

/// The clock is exact to within one sample period: the reported time, scaled
/// back to frames, never overshoots the consumed count and undershoots it by
/// less than one frame's worth of microseconds.
pub proof fn lemma_sample_clock_precision(samples: nat, sample_rate: nat)
    requires
        sample_rate > 0,
    ensures
        micros_of_samples(samples, sample_rate) * sample_rate <= samples * 1_000_000,
        samples * 1_000_000 < (micros_of_samples(samples, sample_rate) + 1) * sample_rate,
{
    let total: int = (samples * 1_000_000) as int;
    let rate: int = sample_rate as int;
    let q: int = micros_of_samples(samples, sample_rate) as int;
    vstd::arithmetic::div_mod::lemma_fundamental_div_mod(total, rate);
    vstd::arithmetic::div_mod::lemma_mod_bound(total, rate);
    assert(q == total / rate);
    assert(q * rate <= total) by (nonlinear_arith)
        requires
            total == rate * (total / rate) + total % rate,
            0 <= total % rate,
            q == total / rate,
            rate > 0,
            total >= 0,
    ;
    assert(total < (q + 1) * rate) by (nonlinear_arith)
        requires
            total == rate * (total / rate) + total % rate,
            total % rate < rate,
            q == total / rate,
            rate > 0,
            total >= 0,
    ;
}

} // verus!
