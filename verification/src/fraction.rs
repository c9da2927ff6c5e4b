//! Levels between zero and one as fixed-point numbers, counted in millionths.

use vstd::prelude::*;
use vstd::arithmetic::div_mod::{lemma_div_by_multiple, lemma_fundamental_div_mod, lemma_mod_pos_bound};

verus! {

/// The level that stands for one: the whole of a track, or full volume.
pub const FRACTION_ONE: u32 = 1_000_000;

/// A level brought into the range from zero to one.
pub open spec fn clamped(level: int) -> int {
    if level < 0 {
        0
    } else if level > FRACTION_ONE as int {
        FRACTION_ONE as int
    } else {
        level
    }
}

/// The part of `total` that lies before `fraction`, rounded down.
pub open spec fn portion(total: int, fraction: int) -> int {
    (total * fraction) / (FRACTION_ONE as int)
}

/// The fraction of `total` that `elapsed` has reached, rounded down and kept
/// between zero and one. Once `elapsed` is no less than `total` the whole has
/// been reached, also for an empty `total`.
pub open spec fn reached(elapsed: int, total: int) -> int {
    if elapsed >= total {
        FRACTION_ONE as int
    } else if elapsed <= 0 {
        0
    } else {
        (elapsed * (FRACTION_ONE as int)) / total
    }
}

/// A portion of a total lies between zero and the total. It is the total
/// itself exactly at one, and nothing at zero.
pub proof fn lemma_portion_bounds(total: int, fraction: int)
    requires
        0 <= total,
        0 <= fraction <= FRACTION_ONE,
    ensures
        0 <= portion(total, fraction) <= total,
        fraction == 0 ==> portion(total, fraction) == 0,
        fraction == FRACTION_ONE ==> portion(total, fraction) == total,
        fraction < FRACTION_ONE && total > 0 ==> portion(total, fraction) < total,
{
    let one: int = FRACTION_ONE as int;
    let product: int = total * fraction;
    let part: int = product / one;
    lemma_fundamental_div_mod(product, one);
    lemma_mod_pos_bound(product, one);
    assert(0 <= product <= total * one) by (nonlinear_arith)
        requires
            product == total * fraction,
            0 <= total,
            0 <= fraction <= one,
    ;
    assert(product == one * part + product % one);
    assert(0 <= part <= total) by (nonlinear_arith)
        requires
            product == one * part + product % one,
            0 <= product % one < one,
            0 <= product <= total * one,
            one == 1_000_000,
    ;
    if fraction == 0 {
        assert(product == 0) by (nonlinear_arith)
            requires
                product == total * fraction,
                fraction == 0,
        ;
    }
    if fraction == one {
        lemma_div_by_multiple(total, one);
    }
    if fraction < one && total > 0 {
        assert(product < total * one) by (nonlinear_arith)
            requires
                product == total * fraction,
                0 < total,
                0 <= fraction < one,
        ;
        assert(part < total) by (nonlinear_arith)
            requires
                product == one * part + product % one,
                0 <= product % one < one,
                product < total * one,
                one == 1_000_000,
        ;
    }
}

/// The fraction reached lies between zero and one, and below one as long as
/// the total has not been reached.
pub proof fn lemma_reached_bounds(elapsed: int, total: int)
    ensures
        0 <= reached(elapsed, total) <= FRACTION_ONE,
        elapsed < total ==> reached(elapsed, total) < FRACTION_ONE,
        elapsed >= total ==> reached(elapsed, total) == FRACTION_ONE,
        elapsed <= 0 < total ==> reached(elapsed, total) == 0,
{
    let one: int = FRACTION_ONE as int;
    if 0 < elapsed < total {
        let product: int = elapsed * one;
        let level: int = product / total;
        lemma_fundamental_div_mod(product, total);
        lemma_mod_pos_bound(product, total);
        assert(0 <= level < one) by (nonlinear_arith)
            requires
                product == total * level + product % total,
                0 <= product % total < total,
                product == elapsed * one,
                0 < elapsed < total,
                one == 1_000_000,
        ;
    }
}

/// Turning a fraction into a portion of a total and back loses less than one
/// step of the fraction plus what one nanosecond is worth, and never gains.
pub proof fn lemma_portion_round_trip(total: int, fraction: int)
    requires
        0 < total,
        0 <= fraction <= FRACTION_ONE,
    ensures
        reached(portion(total, fraction), total) <= fraction,
        (fraction - reached(portion(total, fraction), total)) * total < FRACTION_ONE + total,
{
    let one: int = FRACTION_ONE as int;
    let part: int = portion(total, fraction);
    let back: int = reached(part, total);
    lemma_portion_bounds(total, fraction);
    lemma_reached_bounds(part, total);
    if fraction == one {
        assert((fraction - back) * total == 0) by (nonlinear_arith)
            requires
                fraction - back == 0,
        ;
    } else {
        let product: int = total * fraction;
        lemma_fundamental_div_mod(product, one);
        lemma_mod_pos_bound(product, one);
        assert(product == one * part + product % one);
        if part <= 0 {
            assert(back == 0);
            assert(fraction * total < one + total) by (nonlinear_arith)
                requires
                    product == total * fraction,
                    product == one * part + product % one,
                    part == 0,
                    0 <= product % one < one,
                    0 < total,
            ;
        } else {
            let scaled: int = part * one;
            lemma_fundamental_div_mod(scaled, total);
            lemma_mod_pos_bound(scaled, total);
            assert(scaled == total * back + scaled % total);
            assert(back <= fraction && (fraction - back) * total < one + total)
                by (nonlinear_arith)
                requires
                    product == total * fraction,
                    product == one * part + product % one,
                    0 <= product % one < one,
                    scaled == part * one,
                    scaled == total * back + scaled % total,
                    0 <= scaled % total < total,
                    0 < total,
            ;
        }
    }
}

/// Brings a level into the range from zero to [`FRACTION_ONE`].
pub fn clamp_fraction(level: u32) -> (level_in_range: u32)
    ensures
        level_in_range == clamped(level as int),
{
    if level <= FRACTION_ONE {
        level
    } else {
        FRACTION_ONE
    }
}

/// The part of `total` that lies before `fraction`, rounded down. A fraction
/// above one counts as one.
pub fn portion_of(total: u64, fraction: u32) -> (part: u64)
    ensures
        part == portion(total as int, clamped(fraction as int)),
        part <= total,
{
    let level: u32 = clamp_fraction(fraction);
    proof {
        lemma_portion_bounds(total as int, level as int);
        assert(0 <= (total as int) * (level as int) <= 0xFFFF_FFFF_FFFF_FFFF * 1_000_000)
            by (nonlinear_arith)
            requires
                0 <= total <= 0xFFFF_FFFF_FFFF_FFFF,
                0 <= level <= 1_000_000,
        ;
    }
    let product: u128 = (total as u128) * (level as u128);
    let part: u128 = product / (FRACTION_ONE as u128);
    part as u64
}

/// The fraction of `total` that `elapsed` has reached, rounded down. It is
/// one as soon as `elapsed` is no less than `total`.
pub fn fraction_reached(elapsed: u64, total: u64) -> (level: u32)
    ensures
        level == reached(elapsed as int, total as int),
        level <= FRACTION_ONE,
{
    if elapsed >= total {
        FRACTION_ONE
    } else if elapsed == 0 {
        0
    } else {
        proof {
            lemma_reached_bounds(elapsed as int, total as int);
            assert(0 <= (elapsed as int) * 1_000_000 <= 0xFFFF_FFFF_FFFF_FFFF * 1_000_000)
                by (nonlinear_arith)
                requires
                    0 <= elapsed <= 0xFFFF_FFFF_FFFF_FFFF,
            ;
        }
        let product: u128 = (elapsed as u128) * (FRACTION_ONE as u128);
        let level: u128 = product / (total as u128);
        level as u32
    }
}

} // verus!
