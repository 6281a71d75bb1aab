//! The experience curve: the threshold of experience that each level starts
//! at, and its inverse.
//!
//! A level `L` starts at `round100(M * e^(k * (L - 1)) - T)` experience.  The
//! exponential is computed in integer fixed point: `CURVE_SCALE` units make one
//! point of experience, and each level multiplies the previous one's curve
//! point by `GROWTH_NUM / GROWTH_DEN`, which is `e^k` to thirteen decimals.

use vstd::prelude::*;

verus! {

/// `M`: the curve's value, in experience, at level one.
pub const XP_MULTIPLIER: u128 = 15566;

/// `T`: subtracted from the curve so that levels zero and one start near zero.
pub const XP_OFFSET: i128 = 15000;

/// Fixed-point units per point of experience.
pub const CURVE_SCALE: u128 = 1_000_000;

/// Numerator of the growth factor per level, `e^0.0415` scaled by `GROWTH_DEN`.
pub const GROWTH_NUM: u128 = 10_423_731_618_515;

/// Denominator of the growth factor per level.
pub const GROWTH_DEN: u128 = 10_000_000_000_000;

/// The curve point of level one, `M` in fixed point.
pub const LEVEL_ONE_POINT: u128 = XP_MULTIPLIER * CURVE_SCALE;

/// The curve point of level zero, one growth step below level one.
pub const LEVEL_ZERO_POINT: u128 = 14_933_231_753;

/// The curve `M * e^(k * (level - 1))` before rounding and offset, in fixed
/// point.
pub open spec fn curve_point(level: nat) -> nat
    decreases level,
{
    if level == 0 {
        (LEVEL_ONE_POINT as int * GROWTH_DEN as int / GROWTH_NUM as int) as nat
    } else if level == 1 {
        LEVEL_ONE_POINT as nat
    } else {
        (curve_point((level - 1) as nat) * GROWTH_NUM as int / GROWTH_DEN as int) as nat
    }
}

/// A curve point rounded, half up, to a multiple of one hundred points of
/// experience, less `T`.
pub open spec fn threshold_of_point(point: int) -> int {
    ((point + 50 * CURVE_SCALE as int) / (100 * CURVE_SCALE as int)) * 100 - XP_OFFSET as int
}

/// The least experience of a level.
pub open spec fn level_threshold(level: nat) -> int {
    threshold_of_point(curve_point(level) as int)
}

/// `level` is the level of `exp` experience: the highest level whose threshold
/// `exp` reaches, or zero when it reaches none above zero.
pub open spec fn is_level_of(exp: int, level: int) -> bool {
    &&& level >= 0
    &&& level == 0 || level_threshold(level as nat) <= exp
    &&& exp < level_threshold((level + 1) as nat)
}

/// Experience that lies between the thresholds of a level and of the next one.
pub open spec fn is_consistent(level: int, exp: int) -> bool {
    &&& level >= 0
    &&& level_threshold(level as nat) <= exp
    &&& exp <= level_threshold((level + 1) as nat)
}

/// A value clamped from above to what an `i64` holds.
pub open spec fn saturate_i64(x: int) -> int {
    if x > i64::MAX {
        i64::MAX as int
    } else {
        x
    }
}

proof fn lemma_level_zero_point()
    ensures
        curve_point(0) == LEVEL_ZERO_POINT,
        level_threshold(0) == -100,
        level_threshold(1) == 600,
{
    vstd::arithmetic::div_mod::lemma_div_multiples_vanish_fancy(149, 83_231_753, 100_000_000);
    vstd::arithmetic::div_mod::lemma_div_multiples_vanish_fancy(156, 16_000_000, 100_000_000);
    assert(LEVEL_ONE_POINT as int * GROWTH_DEN as int / GROWTH_NUM as int == LEVEL_ZERO_POINT as int)
        by (nonlinear_arith);
}

/// Each curve point lies at or above level zero's, and at least a hundred
/// points of experience above the one before it.
proof fn lemma_curve_step(level: nat)
    ensures
        curve_point(level) >= LEVEL_ZERO_POINT,
        curve_point(level + 1) >= curve_point(level) + 100 * CURVE_SCALE as int,
{
    lemma_level_zero_point();
    if level >= 1 {
        lemma_curve_grows_from_one(level);
        let v = curve_point(level) as int;
        let n = GROWTH_NUM as int;
        let d = GROWTH_DEN as int;
        assert((v + 100 * CURVE_SCALE as int) * d <= v * n) by (nonlinear_arith)
            requires
                v >= LEVEL_ONE_POINT,
                n == GROWTH_NUM,
                d == GROWTH_DEN,
        ;
        lemma_le_div(v + 100 * CURVE_SCALE as int, v * n, d);
    }
}

/// From level one on, the curve never falls below its value at level one.
proof fn lemma_curve_grows_from_one(level: nat)
    requires
        level >= 1,
    ensures
        curve_point(level) >= LEVEL_ONE_POINT,
    decreases level,
{
    if level >= 2 {
        lemma_curve_grows_from_one((level - 1) as nat);
        let v = curve_point((level - 1) as nat) as int;
        let n = GROWTH_NUM as int;
        let d = GROWTH_DEN as int;
        assert(v * d <= v * n) by (nonlinear_arith)
            requires
                v >= 0,
                n == GROWTH_NUM,
                d == GROWTH_DEN,
        ;
        lemma_le_div(v, v * n, d);
    }
}

/// `a * d <= b` puts `a` at or below `b / d`.
proof fn lemma_le_div(a: int, b: int, d: int)
    requires
        d > 0,
        a * d <= b,
    ensures
        a <= b / d,
{
    vstd::arithmetic::div_mod::lemma_fundamental_div_mod(b, d);
    assert(a <= b / d) by (nonlinear_arith)
        requires
            d > 0,
            a * d <= b,
            b == d * (b / d) + b % d,
            b % d < d,
    ;
}

/// `b <= d * c` puts `b / d` at or below `c`.
proof fn lemma_le_div_upper(b: int, d: int, c: int)
    requires
        d > 0,
        b >= 0,
        b <= d * c,
    ensures
        b / d <= c,
{
    vstd::arithmetic::div_mod::lemma_fundamental_div_mod(b, d);
    assert(b / d <= c) by (nonlinear_arith)
        requires
            d > 0,
            b <= d * c,
            b == d * (b / d) + b % d,
            b % d >= 0,
    ;
}

/// A curve point a hundred points of experience higher has a threshold at
/// least a hundred higher.
proof fn lemma_threshold_step(p: int, q: int)
    requires
        p >= 0,
        q >= p + 100 * CURVE_SCALE as int,
    ensures
        threshold_of_point(q) >= threshold_of_point(p) + 100,
{
    let s = 100 * CURVE_SCALE as int;
    let a = p + 50 * CURVE_SCALE as int;
    let b = q + 50 * CURVE_SCALE as int;
    vstd::arithmetic::div_mod::lemma_fundamental_div_mod(a, s);
    vstd::arithmetic::div_mod::lemma_fundamental_div_mod(b, s);
    assert(b / s >= a / s + 1) by (nonlinear_arith)
        requires
            s > 0,
            b >= a + s,
            a == s * (a / s) + a % s,
            b == s * (b / s) + b % s,
            0 <= a % s < s,
            0 <= b % s < s,
    ;
}

/// Each level starts at least a hundred points of experience above the one
/// before it.
pub proof fn lemma_threshold_increasing(level: nat)
    ensures
        level_threshold(level + 1) >= level_threshold(level) + 100,
{
    lemma_curve_step(level);
    lemma_threshold_step(curve_point(level) as int, curve_point(level + 1) as int);
}

/// The thresholds are ordered as their levels are.
pub proof fn lemma_threshold_monotonic(lo: nat, hi: nat)
    requires
        lo <= hi,
    ensures
        level_threshold(hi) >= level_threshold(lo) + 100 * (hi - lo),
    decreases hi - lo,
{
    if lo < hi {
        lemma_threshold_monotonic(lo, (hi - 1) as nat);
        lemma_threshold_increasing((hi - 1) as nat);
    }
}

/// Level zero starts a hundred points below zero; every level `L` starts at
/// `100 * L - 100` or higher.
pub proof fn lemma_threshold_lower_bound(level: nat)
    ensures
        level_threshold(0) == -100,
        level_threshold(level) >= 100 * level - 100,
{
    lemma_level_zero_point();
    lemma_threshold_monotonic(0, level);
}

/// Whatever experience a user holds, it has exactly one level.
pub proof fn lemma_level_unique(exp: int, a: int, b: int)
    requires
        is_level_of(exp, a),
        is_level_of(exp, b),
    ensures
        a == b,
{
    if a < b {
        lemma_threshold_monotonic((a + 1) as nat, b as nat);
    } else if b < a {
        lemma_threshold_monotonic((b + 1) as nat, a as nat);
    }
}

/// The level of exactly a level's threshold of experience is that level:
/// converting a level to experience and back gives the level again.
pub proof fn lemma_level_round_trip(level: nat, r: int)
    ensures
        is_level_of(level_threshold(level), r) <==> r == level,
{
    lemma_threshold_increasing(level);
    if is_level_of(level_threshold(level), r) {
        lemma_level_unique(level_threshold(level), r, level as int);
    }
}

/// No threshold is exactly `i64::MAX`: thresholds are multiples of one
/// hundred less `T`.
pub proof fn lemma_threshold_not_max(level: nat)
    ensures
        level_threshold(level) != i64::MAX,
{
}

/// A curve point whose threshold fits an `i64` is below `10^25`.
proof fn lemma_point_bound(p: int)
    requires
        p >= 0,
        threshold_of_point(p) <= i64::MAX,
    ensures
        p < 10_000_000_000_000_000_000_000_000,
{
    let s = 100 * CURVE_SCALE as int;
    let a = p + 50 * CURVE_SCALE as int;
    vstd::arithmetic::div_mod::lemma_fundamental_div_mod(a, s);
    assert(p < 10_000_000_000_000_000_000_000_000) by (nonlinear_arith)
        requires
            s == 100_000_000,
            a == p + 50_000_000,
            a == s * (a / s) + a % s,
            a % s < s,
            (a / s) * 100 - 15000 <= 0x7fff_ffff_ffff_ffff,
    ;
}

/// The threshold of a fixed-point curve point.
fn threshold_from_point(point: u128) -> (t: i128)
    requires
        point < 20_000_000_000_000_000_000_000_000,
    ensures
        t == threshold_of_point(point as int),
{
    (((point + 50 * CURVE_SCALE) / (100 * CURVE_SCALE)) * 100) as i128 - XP_OFFSET
}

/// The next level's curve point.
fn next_point(point: u128) -> (r: u128)
    requires
        point < 10_000_000_000_000_000_000_000_000,
    ensures
        r == point as int * GROWTH_NUM as int / GROWTH_DEN as int,
        r < 20_000_000_000_000_000_000_000_000,
{
    assert(point as int * (GROWTH_NUM as int) < 0x1_0000_0000_0000_0000_0000_0000_0000_0000) by (nonlinear_arith)
        requires
            point < 10_000_000_000_000_000_000_000_000,
    ;
    let r = point * GROWTH_NUM / GROWTH_DEN;
    assert(r < 20_000_000_000_000_000_000_000_000) by {
        lemma_le_div_upper(point as int * GROWTH_NUM as int, GROWTH_DEN as int, 2 * point as int);
    }
    r
}

/// The least experience of a level: `round100(M * e^(k * (level - 1)) - T)`.
/// Levels whose threshold does not fit an `i64` give `i64::MAX`.
pub fn level_to_exp(l: i64) -> (r: i64)
    requires
        l >= 0,
    ensures
        r == saturate_i64(level_threshold(l as nat)),
{
    if l == 0 {
        proof {
            lemma_level_zero_point();
        }
        return threshold_from_point(LEVEL_ZERO_POINT) as i64;
    }
    let mut point: u128 = LEVEL_ONE_POINT;
    let mut i: i64 = 1;
    proof {
        lemma_level_zero_point();
    }
    while i < l
        invariant
            1 <= i <= l,
            point == curve_point(i as nat),
            level_threshold(i as nat) <= i64::MAX,
        decreases l - i,
    {
        proof {
            lemma_point_bound(point as int);
        }
        point = next_point(point);
        i = i + 1;
        proof {
            lemma_curve_step((i - 1) as nat);
        }
        let t = threshold_from_point(point);
        if t > i64::MAX as i128 {
            proof {
                lemma_threshold_monotonic(i as nat, l as nat);
            }
            return i64::MAX;
        }
    }
    proof {
        lemma_point_bound(point as int);
    }
    threshold_from_point(point) as i64
}

/// The level of `exp` experience: the highest level whose threshold it
/// reaches, or zero when it reaches none above zero.  This inverts the
/// rounded thresholds of `level_to_exp` exactly, so that a level's own
/// threshold always maps back to that level.
pub fn exp_to_level(exp: i64) -> (r: i64)
    ensures
        is_level_of(exp as int, r as int),
{
    let mut level: i64 = 0;
    let mut point: u128 = LEVEL_ONE_POINT;
    proof {
        lemma_level_zero_point();
        lemma_threshold_lower_bound(0);
    }
    while threshold_from_point(point) <= exp as i128
        invariant
            level >= 0,
            level == 0 || level_threshold(level as nat) <= exp,
            point == curve_point((level + 1) as nat),
            threshold_of_point(point as int) <= i64::MAX,
        decreases i64::MAX - level,
    {
        proof {
            lemma_point_bound(point as int);
            lemma_threshold_lower_bound((level + 1) as nat);
        }
        level = level + 1;
        point = next_point(point);
        if threshold_from_point(point) > exp as i128 {
            return level;
        }
    }
    level
}

} // verus!
