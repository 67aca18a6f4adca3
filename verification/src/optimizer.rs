//! Exposure optimization.
//!
//! A proportional single-step estimator: from the pixel value at a
//! requested percentile of the previous frame it projects the exposure
//! that would bring that value to a target, trades exposure against
//! binning when the projection exceeds the allowed maximum, and clamps
//! the result.  Times are microseconds throughout; the percentile is
//! given in tenths of a percent so that the conventional 99.9 cut-off
//! is representable exactly.

use vstd::prelude::*;
use vstd::relations::{sorted_by, total_ordering};
use vstd::seq_lib::group_to_multiset_ensures;
use vstd::seq_lib::lemma_sorted_unique;

verus! {

/// The order pixels are ranked by.
pub open spec fn pixel_order() -> spec_fn(u16, u16) -> bool {
    |a: u16, b: u16| a <= b
}

/// The frame's pixel values in ascending order.
pub open spec fn sorted_pixels(s: Seq<u16>) -> Seq<u16> {
    s.sort_by(pixel_order())
}

/// The rank selected by a percentile given in tenths of a percent;
/// anything above 99.9 selects the brightest pixel.
pub open spec fn percentile_rank(n: int, percentile_tenths: int) -> int {
    if percentile_tenths > 999 {
        n - 1
    } else {
        percentile_tenths * (n - 1) / 1000
    }
}

/// The percentile rank, shifted down by the exclusion margin when it
/// falls within that margin of the top of the sorted frame, so that hot
/// or saturated outlier pixels do not skew the estimate.
pub open spec fn guarded_rank(n: int, percentile_tenths: int, margin: int) -> int {
    let r0 = percentile_rank(n, percentile_tenths);
    if r0 + margin > n - 1 {
        if r0 >= margin {
            r0 - margin
        } else {
            0
        }
    } else {
        r0
    }
}

/// The projected exposure: the current exposure scaled by the ratio of
/// target to sampled value.  A sampled value of zero is floored at one
/// hundred-thousandth so the ratio stays finite.
pub open spec fn scaled_exposure_us(exp: int, tgt: int, sampled: int) -> int {
    if sampled == 0 {
        exp * tgt * 100000
    } else {
        exp * tgt / sampled
    }
}

/// While the projected exposure exceeds the cap and the bin can still be
/// doubled, double it and quarter the exposure: one bin step gathers
/// four times the signal.
pub open spec fn promote_bin(exp: int, bin: int, max_exp: int, max_bin: int) -> (int, int)
    decreases exp,
{
    if 0 <= max_exp && exp > max_exp && 2 * bin <= max_bin {
        promote_bin(exp / 4, 2 * bin, max_exp, max_bin)
    } else {
        (exp, bin)
    }
}

/// While the projected exposure sits comfortably under the cap (it can
/// quadruple and still fit) and the bin can still be halved, halve it
/// and quadruple the exposure.
pub open spec fn reduce_bin(exp: int, bin: int, max_exp: int) -> (int, int)
    decreases bin,
{
    if exp * 4 <= max_exp && bin >= 2 {
        reduce_bin(exp * 4, bin / 2, max_exp)
    } else {
        (exp, bin)
    }
}

/// Trade exposure against binning: promote the bin when the projection
/// exceeds the cap, otherwise give resolution back while the projection
/// comfortably fits.
pub open spec fn adjust_bin(exp: int, bin: int, max_exp: int, max_bin: int) -> (int, int) {
    if exp >= max_exp {
        promote_bin(exp, bin, max_exp, max_bin)
    } else {
        reduce_bin(exp, bin, max_exp)
    }
}

/// The final exposure: capped at the maximum, floored at ten
/// microseconds.
pub open spec fn clamp_exposure(exp: int, max_exp: int) -> int {
    let e = if exp > max_exp {
        max_exp
    } else {
        exp
    };
    if e < 10 {
        10
    } else {
        e
    }
}

/// The final bin: at least one, at most the allowed maximum.
pub open spec fn clamp_bin(bin: int, max_bin: int) -> int {
    let b = if bin < 1 {
        1
    } else {
        bin
    };
    if b > max_bin {
        max_bin
    } else {
        b
    }
}

/// The absolute difference of two values.
pub open spec fn abs_diff(a: int, b: int) -> int {
    if a >= b {
        a - b
    } else {
        b - a
    }
}

/// The exposure and bin [`compute_next_exposure`] recommends, start to
/// finish: sample the guarded percentile of the sorted frame, keep the
/// current setting when the sample is within tolerance of the target,
/// otherwise scale the exposure proportionally, trade it against
/// binning where the frame's binning is square, and clamp.
pub open spec fn spec_next_exposure(
    pixels: Seq<u16>,
    exposure_us: int,
    bin: int,
    change_bin: bool,
    percentile_tenths: int,
    pixel_tgt: int,
    max_exposure_us: int,
    max_bin: int,
    pixel_exclusion: int,
    pixel_uncertainty: int,
) -> (int, int) {
    let sampled = sorted_pixels(pixels)[guarded_rank(
        pixels.len() as int,
        percentile_tenths,
        pixel_exclusion,
    )];
    if abs_diff(pixel_tgt, sampled as int) < pixel_uncertainty {
        (exposure_us, bin)
    } else {
        let scaled = scaled_exposure_us(exposure_us, pixel_tgt, sampled as int);
        let stepped = if change_bin {
            adjust_bin(scaled, bin, max_exposure_us, max_bin)
        } else {
            (scaled, bin)
        };
        (clamp_exposure(stepped.0, max_exposure_us), clamp_bin(stepped.1, max_bin))
    }
}

/// Sort a frame's pixel values in ascending order.
pub fn sort_pixels(v: &Vec<u16>) -> (r: Vec<u16>)
    ensures
        r@ == sorted_pixels(v@),
        r@.len() == v@.len(),
{
    let mut rest: Vec<u16> = v.clone();
    proof {
        assert(rest@ =~= v@);
    }
    let mut out: Vec<u16> = Vec::new();
    proof {
        broadcast use group_to_multiset_ensures;

        assert(out@.to_multiset().add(rest@.to_multiset()) =~= v@.to_multiset());
    }
    while rest.len() > 0
        invariant
            out@.to_multiset().add(rest@.to_multiset()) == v@.to_multiset(),
            sorted_by(out@, pixel_order()),
            forall|i: int, j: int|
                0 <= i < out@.len() && 0 <= j < rest@.len() ==> out@[i] <= rest@[j],
        decreases rest@.len(),
    {
        let mut m: usize = 0;
        let mut k: usize = 1;
        while k < rest.len()
            invariant
                0 < rest@.len(),
                m < k,
                k <= rest@.len(),
                forall|j: int| 0 <= j < k ==> rest@[m as int] <= rest@[j],
            decreases rest@.len() - k,
        {
            if rest[k] < rest[m] {
                m = k;
            }
            k = k + 1;
        }
        let ghost old_out = out@;
        let ghost old_rest = rest@;
        let x = rest.remove(m);
        out.push(x);
        proof {
            broadcast use group_to_multiset_ensures;

            assert(out@.to_multiset().add(rest@.to_multiset()) == v@.to_multiset()) by {
                assert(out@.to_multiset() =~= old_out.to_multiset().insert(x));
                assert(rest@.to_multiset() =~= old_rest.to_multiset().remove(x));
                assert(old_rest.to_multiset().count(x) > 0);
                assert(out@.to_multiset().add(rest@.to_multiset()) =~= old_out.to_multiset().add(
                    old_rest.to_multiset(),
                ));
            }
            assert(sorted_by(out@, pixel_order())) by {
                assert forall|i: int, j: int| 0 <= i < j < out@.len() implies pixel_order()(
                    out@[i],
                    out@[j],
                ) by {
                    if j < old_out.len() {
                        assert(pixel_order()(old_out[i], old_out[j]));
                    } else {
                        assert(out@[j] == x);
                        assert(old_out[i] <= old_rest[m as int]);
                    }
                    assert(out@[i] <= out@[j]);
                }
            }
            assert forall|i: int, j: int|
                0 <= i < out@.len() && 0 <= j < rest@.len() implies out@[i] <= rest@[j] by {
                assert(rest@[j] == if j < m { old_rest[j] } else { old_rest[j + 1] });
                assert(x <= rest@[j]);
            }
        }
    }
    proof {
        broadcast use group_to_multiset_ensures;

        assert(out@.to_multiset() =~= out@.to_multiset().add(rest@.to_multiset()));
        v@.lemma_sort_by_ensures(pixel_order());
        assert(total_ordering(pixel_order()));
        lemma_sorted_unique(out@, v@.sort_by(pixel_order()), pixel_order());
        assert(out@ =~= sorted_pixels(v@));
        assert(out@.to_multiset().len() == v@.to_multiset().len());
    }
    out
}

/// Recommend the next exposure and bin from the previous frame's pixel
/// values.
///
/// `pixels` is the frame in its 16-bit mono interpretation, `bin` the
/// frame's binning, and `change_bin` whether that binning was square
/// (only then is the bin traded against exposure).  The sample is the
/// value at `percentile_tenths` tenths of a percent of the sorted
/// frame, guarded by `pixel_exclusion` against hot pixels; when it is
/// within `pixel_uncertainty` of `pixel_tgt` the current pair comes
/// back unchanged.  Otherwise the exposure is scaled by the ratio of
/// target to sample, the bin stepped so the projection fits under
/// `max_exposure_us`, and the result clamped to `[10, max_exposure_us]`
/// microseconds and `[1, max_bin]`.
pub fn compute_next_exposure(
    pixels: &Vec<u16>,
    exposure_us: u64,
    bin: u16,
    change_bin: bool,
    percentile_tenths: u32,
    pixel_tgt: u16,
    max_exposure_us: u64,
    max_bin: u16,
    pixel_exclusion: u32,
    pixel_uncertainty: u16,
) -> (r: (u64, u16))
    requires
        pixels@.len() >= 1,
    ensures
        (r.0 as int, r.1 as int) == spec_next_exposure(
            pixels@,
            exposure_us as int,
            bin as int,
            change_bin,
            percentile_tenths as int,
            pixel_tgt as int,
            max_exposure_us as int,
            max_bin as int,
            pixel_exclusion as int,
            pixel_uncertainty as int,
        ),
        abs_diff(
            pixel_tgt as int,
            sorted_pixels(pixels@)[guarded_rank(
                pixels@.len() as int,
                percentile_tenths as int,
                pixel_exclusion as int,
            )] as int,
        ) < pixel_uncertainty ==> r == (exposure_us, bin),
{
    let n: usize = pixels.len();
    let sorted = sort_pixels(pixels);

    let r0: usize = if percentile_tenths > 999 {
        n - 1
    } else {
        proof {
            assert(0 <= percentile_tenths as int * (n as int - 1) <= 999 * (n as int - 1))
                by (nonlinear_arith)
                requires
                    0 <= percentile_tenths as int <= 999,
                    0 <= n as int - 1,
            ;
        }
        let num: u128 = percentile_tenths as u128 * (n as u128 - 1);
        proof {
            assert(999 * (n as int - 1) / 1000 <= n as int - 1) by {
                vstd::arithmetic::div_mod::lemma_div_is_ordered(
                    999 * (n as int - 1),
                    1000 * (n as int - 1),
                    1000,
                );
                vstd::arithmetic::div_mod::lemma_fundamental_div_mod_converse(
                    1000 * (n as int - 1),
                    1000,
                    n as int - 1,
                    0,
                );
            }
            vstd::arithmetic::div_mod::lemma_div_is_ordered(
                percentile_tenths as int * (n as int - 1),
                999 * (n as int - 1),
                1000,
            );
            vstd::arithmetic::div_mod::lemma_div_pos_is_pos(
                percentile_tenths as int * (n as int - 1),
                1000,
            );
        }
        (num / 1000) as usize
    };
    assert(0 <= r0 < n);

    let rank: usize = if r0 as u128 + pixel_exclusion as u128 > n as u128 - 1 {
        if r0 >= pixel_exclusion as usize {
            r0 - pixel_exclusion as usize
        } else {
            0
        }
    } else {
        r0
    };
    proof {
        assert(rank as int == guarded_rank(
            n as int,
            percentile_tenths as int,
            pixel_exclusion as int,
        ));
    }

    let sampled: u16 = sorted[rank];
    let diff: u32 = if pixel_tgt >= sampled {
        (pixel_tgt - sampled) as u32
    } else {
        (sampled - pixel_tgt) as u32
    };
    if diff < pixel_uncertainty as u32 {
        return (exposure_us, bin);
    }

    let scaled: u128 = if sampled == 0 {
        proof {
            assert(exposure_us as int * pixel_tgt as int * 100000 < 0x1_0000_0000_0000_0000_0000_0000_0000_0000int)
                by (nonlinear_arith)
                requires
                    0 <= (exposure_us as int) < 0x1_0000_0000_0000_0000int,
                    0 <= (pixel_tgt as int) < 0x1_0000int,
            ;
            assert(0 <= exposure_us as int * pixel_tgt as int) by (nonlinear_arith)
                requires
                    0 <= exposure_us as int,
                    0 <= pixel_tgt as int,
            ;
        }
        exposure_us as u128 * pixel_tgt as u128 * 100000
    } else {
        proof {
            assert(0 <= (exposure_us as int * pixel_tgt as int) < 0x1_0000_0000_0000_0000_0000_0000_0000_0000int)
                by (nonlinear_arith)
                requires
                    0 <= (exposure_us as int) < 0x1_0000_0000_0000_0000int,
                    0 <= (pixel_tgt as int) < 0x1_0000int,
            ;
        }
        let p: u128 = exposure_us as u128 * pixel_tgt as u128;
        p / sampled as u128
    };
    proof {
        assert(scaled as int == scaled_exposure_us(
            exposure_us as int,
            pixel_tgt as int,
            sampled as int,
        ));
    }

    let mut e: u128 = scaled;
    let mut b: u16 = bin;
    if change_bin {
        if e >= max_exposure_us as u128 {
            while e > max_exposure_us as u128 && 2 * (b as u32) <= max_bin as u32
                invariant
                    promote_bin(e as int, b as int, max_exposure_us as int, max_bin as int)
                        == promote_bin(
                        scaled as int,
                        bin as int,
                        max_exposure_us as int,
                        max_bin as int,
                    ),
                decreases e,
            {
                proof {
                    assert(promote_bin(e as int, b as int, max_exposure_us as int, max_bin as int)
                        == promote_bin(
                        e as int / 4,
                        2 * b as int,
                        max_exposure_us as int,
                        max_bin as int,
                    ));
                }
                e = e / 4;
                b = (2 * (b as u32)) as u16;
            }
        } else {
            while e * 4 <= max_exposure_us as u128 && b >= 2
                invariant
                    e <= max_exposure_us as u128,
                    reduce_bin(e as int, b as int, max_exposure_us as int) == reduce_bin(
                        scaled as int,
                        bin as int,
                        max_exposure_us as int,
                    ),
                decreases b,
            {
                proof {
                    assert(reduce_bin(e as int, b as int, max_exposure_us as int) == reduce_bin(
                        e as int * 4,
                        b as int / 2,
                        max_exposure_us as int,
                    ));
                }
                e = e * 4;
                b = b / 2;
            }
        }
    }

    let e_capped: u128 = if e > max_exposure_us as u128 {
        max_exposure_us as u128
    } else {
        e
    };
    let e_final: u64 = if e_capped < 10 {
        10
    } else {
        e_capped as u64
    };
    let b_floored: u16 = if b < 1 {
        1
    } else {
        b
    };
    let b_final: u16 = if b_floored > max_bin {
        max_bin
    } else {
        b_floored
    };
    (e_final, b_final)
}

/// Law: promoting the bin never passes the allowed maximum, never
/// lowers the bin, and leaves an exposure no larger than it was given;
/// when it stops below the cap with the bin unchanged it did nothing.
pub proof fn lemma_promote_bin_bounds(exp: int, bin: int, max_exp: int, max_bin: int)
    requires
        0 <= exp,
        1 <= bin <= max_bin,
    ensures
        promote_bin(exp, bin, max_exp, max_bin).1 <= max_bin,
        promote_bin(exp, bin, max_exp, max_bin).1 >= bin,
        promote_bin(exp, bin, max_exp, max_bin).0 <= exp,
        promote_bin(exp, bin, max_exp, max_bin).0 >= 0,
    decreases exp,
{
    if 0 <= max_exp && exp > max_exp && 2 * bin <= max_bin {
        lemma_promote_bin_bounds(exp / 4, 2 * bin, max_exp, max_bin);
    }
}

/// Law: one promotion step doubles the bin and quarters the projected
/// exposure, and steps are taken exactly while the projection exceeds
/// the cap and the doubled bin still fits.
pub proof fn lemma_promote_bin_step(exp: int, bin: int, max_exp: int, max_bin: int)
    requires
        0 <= max_exp,
    ensures
        exp > max_exp && 2 * bin <= max_bin ==> promote_bin(exp, bin, max_exp, max_bin)
            == promote_bin(exp / 4, 2 * bin, max_exp, max_bin),
        !(exp > max_exp && 2 * bin <= max_bin) ==> promote_bin(exp, bin, max_exp, max_bin) == (
            exp,
            bin,
        ),
{
}

} // verus!
