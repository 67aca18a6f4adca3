//! Gain normalization.
//!
//! A device reports its gain as an integer in a device-specific range
//! `[gain_min, gain_max]`.  Callers work with a normalized gain on a
//! fixed scale of [`GAIN_SCALE`] steps, where 0 maps exactly to
//! `gain_min` and `GAIN_SCALE` exactly to `gain_max`.  Both directions
//! round to the nearest value, so a round trip loses at most one step of
//! the raw gain range.

use vstd::prelude::*;

verus! {

/// Number of steps of the normalized gain scale: a normalized gain lies
/// in `0 ..= GAIN_SCALE`.
pub const GAIN_SCALE: u32 = 65536;

/// The raw gain nearest to normalized gain `n` on `[lo, hi]`.
pub open spec fn spec_normalized_to_raw(n: int, lo: int, hi: int) -> int {
    lo + (n * (hi - lo) + (GAIN_SCALE as int) / 2) / (GAIN_SCALE as int)
}

/// The normalized gain nearest to raw gain `raw` on `[lo, hi]`.
pub open spec fn spec_raw_to_normalized(raw: int, lo: int, hi: int) -> int {
    ((raw - lo) * (GAIN_SCALE as int) + (hi - lo) / 2) / (hi - lo)
}

/// Convert a normalized gain to the device's raw gain range, rounding to
/// the nearest raw step.  The endpoints map exactly: 0 to `gain_min` and
/// `GAIN_SCALE` to `gain_max`.
pub fn normalized_to_raw(n: u32, gain_min: i64, gain_max: i64) -> (r: i64)
    requires
        n <= GAIN_SCALE,
        gain_min < gain_max,
    ensures
        r == spec_normalized_to_raw(n as int, gain_min as int, gain_max as int),
        gain_min <= r <= gain_max,
        n == 0 ==> r == gain_min,
        n == GAIN_SCALE ==> r == gain_max,
{
    let span: i128 = gain_max as i128 - gain_min as i128;
    proof {
        assert(0 <= n as int * span <= 65536 * span) by (nonlinear_arith)
            requires
                0 <= n as int <= 65536,
                0 <= span,
        ;
    }
    let num: i128 = n as i128 * span + 32768;
    let q: i128 = num / 65536;
    proof {
        assert(q <= span);
        assert(0 <= q);
        if n == 0 {
            assert(q == 0);
        }
        if n == GAIN_SCALE {
            assert((65536 * span + 32768) / 65536 == span) by {
                vstd::arithmetic::div_mod::lemma_fundamental_div_mod_converse(
                    65536 * span as int + 32768,
                    65536,
                    span as int,
                    32768,
                );
            }
        }
    }
    (gain_min as i128 + q) as i64
}

/// Convert a device raw gain to the normalized scale, rounding to the
/// nearest normalized step.  The endpoints map exactly: `gain_min` to 0
/// and `gain_max` to `GAIN_SCALE`.
pub fn raw_to_normalized(raw: i64, gain_min: i64, gain_max: i64) -> (r: u32)
    requires
        gain_min <= raw <= gain_max,
        gain_min < gain_max,
    ensures
        r == spec_raw_to_normalized(raw as int, gain_min as int, gain_max as int),
        r <= GAIN_SCALE,
        raw == gain_min ==> r == 0,
        raw == gain_max ==> r == GAIN_SCALE,
{
    let d: u128 = (raw as i128 - gain_min as i128) as u128;
    let span: u128 = (gain_max as i128 - gain_min as i128) as u128;
    let num: u128 = d * 65536 + span / 2;
    proof {
        assert(d * 65536 <= span * 65536) by (nonlinear_arith)
            requires
                0 <= d <= span,
        ;
        assert(num <= span * 65536 + span / 2);
        vstd::arithmetic::div_mod::lemma_div_is_ordered(
            num as int,
            (span * 65536 + span / 2) as int,
            span as int,
        );
        assert((span * 65536 + span / 2) as int / (span as int) == 65536) by {
            vstd::arithmetic::div_mod::lemma_fundamental_div_mod_converse(
                (span * 65536 + span / 2) as int,
                span as int,
                65536,
                (span / 2) as int,
            );
        }
        vstd::arithmetic::div_mod::lemma_div_pos_is_pos(num as int, span as int);
        if raw == gain_min {
            assert((span / 2) as int / (span as int) == 0) by {
                vstd::arithmetic::div_mod::lemma_fundamental_div_mod_converse(
                    (span / 2) as int,
                    span as int,
                    0,
                    (span / 2) as int,
                );
            }
        }
        if raw == gain_max {
            assert(num == span * 65536 + span / 2);
        }
    }
    let q: u128 = num / span;
    q as u32
}

/// Law: converting a normalized gain to the raw range and back recovers
/// it to within one raw gain step, i.e. the round-trip error times the
/// raw span never exceeds the normalized scale.
pub proof fn lemma_gain_round_trip(n: int, lo: int, hi: int)
    requires
        0 <= n <= GAIN_SCALE,
        lo < hi,
    ensures
        (spec_raw_to_normalized(spec_normalized_to_raw(n, lo, hi), lo, hi) - n) * (hi - lo)
            <= GAIN_SCALE,
        (n - spec_raw_to_normalized(spec_normalized_to_raw(n, lo, hi), lo, hi)) * (hi - lo)
            <= GAIN_SCALE,
{
    let s: int = GAIN_SCALE as int;
    let span: int = hi - lo;
    let raw: int = spec_normalized_to_raw(n, lo, hi);
    let q: int = (n * span + s / 2) / s;
    let e: int = (n * span + s / 2) % s;
    vstd::arithmetic::div_mod::lemma_fundamental_div_mod(n * span + s / 2, s);
    vstd::arithmetic::div_mod::lemma_mod_bound(n * span + s / 2, s);
    assert(0 <= n * span) by (nonlinear_arith)
        requires
            0 <= n,
            0 <= span,
    ;
    vstd::arithmetic::div_mod::lemma_div_pos_is_pos(n * span + s / 2, s);
    assert(raw == lo + q);
    let n2: int = spec_raw_to_normalized(raw, lo, hi);
    assert(n2 == (q * s + span / 2) / span);
    let f: int = (q * s + span / 2) % span;
    vstd::arithmetic::div_mod::lemma_fundamental_div_mod(q * s + span / 2, span);
    vstd::arithmetic::div_mod::lemma_mod_bound(q * s + span / 2, span);
    // The two division identities combine into a bound on the error.
    assert((n2 - n) * span <= s && (n - n2) * span <= s) by (nonlinear_arith)
        requires
            n * span + s / 2 == s * q + e,
            0 <= e < s,
            q * s + span / 2 == span * n2 + f,
            0 <= f < span,
            s == 65536,
            0 < span,
            0 <= n <= s,
    ;
}

} // verus!
