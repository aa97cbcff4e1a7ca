//! Wind direction in degrees as one of the eight principal compass points.
//!
//! The point is found by dividing the angle by 45 and rounding to the nearest
//! whole number, in single-precision binary arithmetic: the angle is first
//! rounded to a number with 24 significant binary digits, the quotient is
//! rounded to such a number again, and only then to a whole number. This file
//! states that computation over the integers, carries it out in integer
//! arithmetic, and proves that below 45 * 2^18 degrees none of the roundings
//! shows: the point is the one that exact division gives.

use vstd::arithmetic::div_mod::lemma_fundamental_div_mod;
use vstd::arithmetic::div_mod::lemma_fundamental_div_mod_converse;
use vstd::arithmetic::power2::lemma2_to64;
use vstd::arithmetic::power2::lemma_pow2_adds;
use vstd::arithmetic::power2::lemma_pow2_pos;
use vstd::arithmetic::power2::lemma_pow2_unfold;
use vstd::arithmetic::power2::pow2;
use vstd::prelude::*;

verus! {

/// The fixed-point unit: quotients are held as multiples of 2^-30, so that
/// every quotient of a positive angle by 45 has its 24 significant digits
/// in the integer that holds it.
pub const UNIT: u128 = 0x4000_0000;

/// Half of the fixed-point unit.
pub const HALF_UNIT: u128 = 0x2000_0000;

/// The first number that no longer fits into 24 binary digits.
pub const SIGNIFICAND_LIMIT: u128 = 0x100_0000;

/// The largest numerator that `round_single` takes.
pub const ROUNDING_LIMIT: u128 = 0x1000_0000_0000_0000_0000_0000_0000_0000;

/// 45 * 2^18: for the angles below it the roundings of single precision are
/// proved not to show in the compass point.
pub const EXACT_LIMIT: i64 = 11_796_480;

/// How many of the low binary digits of `q` single precision cannot hold:
/// the least `e` for which `q / 2^e` fits into 24 binary digits.
pub open spec fn exponent(q: nat) -> nat
    decreases q,
{
    if q < SIGNIFICAND_LIMIT {
        0
    } else {
        1 + exponent(q / 2)
    }
}

/// The whole number nearest to `n / d`, and the even one of the two where
/// `n / d` lies halfway between them.
pub open spec fn nearest_even(n: nat, d: nat) -> nat
    recommends
        d > 0,
{
    let whole = n / d;
    let left = n % d;
    if 2 * left < d || (2 * left == d && whole % 2 == 0) {
        whole
    } else {
        whole + 1
    }
}

/// The quotient `n / d` as single precision holds it: the multiple of the
/// spacing at the quotient's magnitude that is nearest to it, ties going to
/// the even multiple. The spacing is such that the multiple has 24 binary
/// digits, so this is single-precision rounding where `n / d` is at least
/// 2^23; a smaller quotient is rounded to a whole number.
pub open spec fn nearest_single(n: nat, d: nat) -> nat
    recommends
        d > 0,
{
    let unit = pow2(exponent(n / d));
    nearest_even(n, d * unit) * unit
}

/// The index of the compass point of an angle, counted clockwise from north
/// in steps of 45 degrees.
///
/// For a positive angle it is the angle in single precision, divided by 45 in
/// single precision, rounded to the nearest whole number (halves away from
/// zero), held in a `usize` (which caps it at `usize::MAX`), modulo 8. Both
/// single-precision values are held in units of 2^-30. An angle of zero or
/// less gives a quotient of zero or less, which a `usize` holds as zero:
/// north.
pub open spec fn compass_index(degree: int) -> int {
    if degree <= 0 {
        0
    } else {
        let angle = nearest_single((degree * UNIT) as nat, 1);
        let eighths = nearest_single(angle, 45);
        let rounded = (eighths + HALF_UNIT) / (UNIT as int);
        let held = if rounded > usize::MAX {
            usize::MAX as int
        } else {
            rounded
        };
        held % 8
    }
}

/// The label of the compass point with the given index.
pub open spec fn compass_label(index: int) -> Seq<char> {
    if index == 0 {
        "N"@
    } else if index == 1 {
        "NE"@
    } else if index == 2 {
        "E"@
    } else if index == 3 {
        "SE"@
    } else if index == 4 {
        "S"@
    } else if index == 5 {
        "SW"@
    } else if index == 6 {
        "W"@
    } else {
        "NW"@
    }
}

/// Whether a text is the label of one of the eight compass points.
pub open spec fn is_compass_label(name: Seq<char>) -> bool {
    exists|index: int| 0 <= index < 8 && name == #[trigger] compass_label(index)
}

/// The label of a compass point as an owned string.
pub fn label(index: usize) -> (name: String)
    requires
        index < 8,
    ensures
        name@ == compass_label(index as int),
{
    let directions: [&str; 8] = ["N", "NE", "E", "SE", "S", "SW", "W", "NW"];
    String::from_str(directions[index])
}

/// Rounds the quotient `n / d` as single precision does.
pub fn round_single(n: u128, d: u128) -> (rounded: u128)
    requires
        d > 0,
        n <= ROUNDING_LIMIT,
    ensures
        rounded == nearest_single(n as nat, d as nat),
        rounded <= 2 * n,
{
    let quotient: u128 = n / d;
    let mut high: u128 = quotient;
    let mut unit: u128 = 1;
    let ghost mut shift: nat = 0;
    proof {
        lemma2_to64();
        lemma_fundamental_div_mod(n as int, d as int);
        assert(quotient <= n) by (nonlinear_arith)
            requires
                n == d * quotient + n % d,
                n % d >= 0,
                d >= 1,
                quotient >= 0,
        ;
    }
    while high >= SIGNIFICAND_LIMIT
        invariant
            unit == pow2(shift),
            exponent(quotient as nat) == shift + exponent(high as nat),
            unit * high <= quotient,
            unit == 1 || unit <= quotient,
            quotient <= n <= ROUNDING_LIMIT,
        decreases high,
    {
        proof {
            assert(unit * 2 * (high / 2) <= unit * high) by (nonlinear_arith)
                requires
                    2 * (high / 2) <= high,
                    unit >= 0,
            ;
            assert(unit * 2 <= quotient) by (nonlinear_arith)
                requires
                    unit * high <= quotient,
                    high >= 2,
                    unit >= 0,
            ;
            shift = shift + 1;
            lemma_pow2_unfold(shift);
        }
        high = high / 2;
        unit = unit * 2;
    }
    proof {
        lemma_pow2_pos(shift);
        assert(1 <= d * unit <= n || d * unit == d) by (nonlinear_arith)
            requires
                unit == 1 || unit <= quotient,
                unit >= 1,
                n == d * quotient + n % d,
                n % d >= 0,
                d >= 1,
        ;
    }
    let step: u128 = d * unit;
    let whole: u128 = n / step;
    let left: u128 = n % step;
    proof {
        lemma_fundamental_div_mod(n as int, step as int);
        assert(whole * unit <= n) by (nonlinear_arith)
            requires
                n == step * whole + left,
                0 <= left,
                step == d * unit,
                d >= 1,
                unit >= 1,
                whole >= 0,
        ;
        assert((whole + 1) * unit == whole * unit + unit) by (nonlinear_arith);
        // Rounding up happens only from the middle of a step on, so not at zero.
        assert(2 * left >= step ==> unit <= n);
    }
    let significand: u128 = if 2 * left < step || (2 * left == step && whole % 2 == 0) {
        whole
    } else {
        whole + 1
    };
    significand * unit
}

/// The index of the compass point of an angle.
pub fn compass_point(degree: i64) -> (index: usize)
    ensures
        index == compass_index(degree as int),
        index < 8,
{
    if degree <= 0 {
        return 0;
    }
    let angle: u128 = round_single(degree as u128 * UNIT, 1);
    let eighths: u128 = round_single(angle, 45);
    let rounded: u128 = (eighths + HALF_UNIT) / UNIT;
    let held: usize = if rounded > usize::MAX as u128 {
        usize::MAX
    } else {
        rounded as usize
    };
    held % 8
}

/// The compass point of a wind direction in degrees, as its label.
pub fn convert_to_compass(degree: i64) -> (name: String)
    ensures
        name@ == compass_label(compass_index(degree as int)),
        is_compass_label(name@),
{
    label(compass_point(degree))
}

/// A number below 2^(24 + k) loses at most `k` digits.
proof fn lemma_exponent_bound(q: nat, k: nat)
    requires
        q < SIGNIFICAND_LIMIT * pow2(k),
    ensures
        exponent(q) <= k,
    decreases k,
{
    lemma2_to64();
    if q >= SIGNIFICAND_LIMIT {
        assert(k > 0);
        lemma_pow2_unfold(k);
        lemma_exponent_bound(q / 2, (k - 1) as nat);
    }
}

/// The nearest whole number is at most half a step from the quotient.
proof fn lemma_nearest_even_is_near(n: nat, d: nat)
    requires
        d > 0,
    ensures
        2 * (nearest_even(n, d) * d) <= 2 * n + d,
        2 * n <= 2 * (nearest_even(n, d) * d) + d,
{
    lemma_fundamental_div_mod(n as int, d as int);
    let whole = n / d;
    assert((whole + 1) * d == whole * d + d) by (nonlinear_arith);
    assert(d * whole == whole * d) by (nonlinear_arith);
}

/// A multiple of the step is its own nearest multiple.
proof fn lemma_nearest_even_of_multiple(m: nat, d: nat)
    requires
        d > 0,
    ensures
        nearest_even(m * d, d) == m,
{
    lemma_fundamental_div_mod_converse((m * d) as int, d as int, m as int, 0);
}

/// An angle below 2^24 has 24 significant digits at most, and single
/// precision holds it as it is.
proof fn lemma_angle_is_held_exactly(degree: nat)
    requires
        degree < SIGNIFICAND_LIMIT,
    ensures
        nearest_single((degree * UNIT) as nat, 1) == degree * UNIT,
{
    lemma2_to64();
    let n = (degree * UNIT) as nat;
    assert(n / 1 == n);
    lemma_exponent_bound(n, 30);
    let e = exponent(n);
    let unit = pow2(e);
    let rest = pow2((30 - e) as nat);
    lemma_pow2_adds(e, (30 - e) as nat);
    lemma_pow2_pos(e);
    assert(UNIT == unit * rest);
    assert(n == (degree * rest) * unit) by (nonlinear_arith)
        requires
            n == degree * (unit * rest),
    ;
    assert(1 * unit == unit);
    lemma_nearest_even_of_multiple((degree * rest) as nat, unit);
}

/// Every angle has one of the eight points.
pub proof fn compass_index_is_a_point(degree: int)
    ensures
        0 <= compass_index(degree) < 8,
{
}

/// Below `EXACT_LIMIT` degrees, 45 * 2^18, the compass point is the one that
/// exact arithmetic gives: the angle divided by 45 and rounded to the nearest
/// whole number, modulo 8. So sector `k` reaches from 22 degrees before
/// `45 * k` to 22 degrees after it.
pub proof fn compass_index_is_exact(degree: int)
    requires
        0 <= degree < EXACT_LIMIT,
    ensures
        compass_index(degree) == ((degree + 22) / 45) % 8,
{
    if degree > 0 {
        lemma2_to64();
        lemma_angle_is_held_exactly(degree as nat);
        let angle = (degree * UNIT) as nat;
        assert(nearest_single(angle, 1) == angle);
        let e = exponent(angle / 45);
        let unit = pow2(e);
        assert(angle / 45 < SIGNIFICAND_LIMIT * pow2(24));
        lemma_exponent_bound(angle / 45, 24);
        lemma_pow2_pos(e);
        if e < 24 {
            vstd::arithmetic::power2::lemma_pow2_strictly_increases(e, 24);
        }
        assert(1 <= unit <= 0x100_0000);
        let step = 45 * unit;
        let significand = nearest_even(angle, step);
        let eighths = significand * unit;
        assert(eighths == nearest_single(angle, 45));
        lemma_nearest_even_is_near(angle, step);
        assert(significand * step == 45 * eighths) by (nonlinear_arith)
            requires
                step == 45 * unit,
                eighths == significand * unit,
        ;
        let exact = (degree + 22) / 45;
        assert(exact * UNIT <= eighths + HALF_UNIT < (exact + 1) * UNIT);
        assert((eighths + HALF_UNIT) / (UNIT as int) == exact);
    }
}

/// Below `EXACT_LIMIT` degrees a full turn more leads to the same point.
pub proof fn compass_index_wraps_after_a_full_turn(degree: int)
    requires
        0 <= degree,
        degree + 360 < EXACT_LIMIT,
    ensures
        compass_index(degree + 360) == compass_index(degree),
{
    compass_index_is_exact(degree);
    compass_index_is_exact(degree + 360);
}

/// The spacing at a quotient of at least 2^23 is at most the quotient's
/// 2^23th part: the nearest multiple has 24 binary digits.
proof fn lemma_spacing_is_fine(q: nat)
    requires
        q >= SIGNIFICAND_LIMIT / 2,
    ensures
        pow2(exponent(q)) * (SIGNIFICAND_LIMIT / 2) <= q,
    decreases q,
{
    lemma2_to64();
    if q >= SIGNIFICAND_LIMIT {
        lemma_spacing_is_fine(q / 2);
        lemma_pow2_unfold(exponent(q));
        assert(pow2(exponent(q)) * 0x80_0000 == 2 * (pow2(exponent(q / 2)) * 0x80_0000))
            by (nonlinear_arith)
            requires
                pow2(exponent(q)) == 2 * pow2(exponent(q / 2)),
        ;
    }
}

/// Both quotients that `compass_index` rounds are at least 2^23 in the units
/// they are held in, so both roundings are those of single precision.
pub proof fn compass_index_rounds_in_single_precision(degree: int)
    requires
        degree > 0,
    ensures
        (degree * UNIT) / 1 >= SIGNIFICAND_LIMIT / 2,
        nearest_single((degree * UNIT) as nat, 1) / 45 >= SIGNIFICAND_LIMIT / 2,
{
    let n = (degree * UNIT) as nat;
    let unit = pow2(exponent(n));
    assert(n / 1 == n);
    lemma_spacing_is_fine(n);
    lemma_pow2_pos(exponent(n));
    assert(1 * unit == unit);
    lemma_nearest_even_is_near(n, unit);
}

} // verus!
