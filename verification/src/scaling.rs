//! The exact arithmetic of aspect-preserving scaling.
//!
//! A smart scale fits an image's current dimensions to an optional width
//! bound and an optional height bound: each given bound yields the ratio
//! bound over current dimension, an absent bound the ratio one, and the
//! smaller ratio is applied to both dimensions, rounding each product
//! upward. The computation here is carried out in exact integer
//! arithmetic.

use vstd::prelude::*;
use vstd::arithmetic::div_mod::lemma_fundamental_div_mod_converse;

verus! {

/// The least integer at or above `a / b`, for nonnegative `a` and positive
/// `b`.
pub open spec fn ceil_div(a: int, b: int) -> int
    recommends
        a >= 0,
        b >= 1,
{
    (a + b - 1) / b
}

/// A computed dimension capped at the largest representable value.
pub open spec fn cap_u64(x: int) -> int {
    if x > u64::MAX { u64::MAX as int } else { x }
}

/// The target a smart scale computes from current dimensions `(cw, ch)`
/// and optional bounds `(w, h)`. With `wn` the width bound (or `cw` when
/// absent, a ratio of one) and `hn` the height bound (or `ch`), the ratio
/// `wn / cw` is kept when it is at most `hn / ch`, and both current
/// dimensions are multiplied by the kept ratio, each product rounded
/// upward.
pub open spec fn spec_smart_target(cw: int, ch: int, w: Option<u64>, h: Option<u64>) -> (int, int)
    recommends
        cw >= 1,
        ch >= 1,
{
    let wn = match w {
        Option::Some(v) => v as int,
        Option::None => cw,
    };
    let hn = match h {
        Option::Some(v) => v as int,
        Option::None => ch,
    };
    if wn * ch <= hn * cw {
        (cap_u64(ceil_div(cw * wn, cw)), cap_u64(ceil_div(ch * wn, cw)))
    } else {
        (cap_u64(ceil_div(cw * hn, ch)), cap_u64(ceil_div(ch * hn, ch)))
    }
}

/// Multiplying by a ratio whose numerator and denominator are equal, and
/// rounding upward, changes nothing.
pub proof fn lemma_ceil_div_exact(x: int, d: int)
    requires
        x >= 0,
        d >= 1,
    ensures
        ceil_div(d * x, d) == x,
{
    assert(d * x + d - 1 == x * d + (d - 1)) by (nonlinear_arith);
    lemma_fundamental_div_mod_converse(d * x + d - 1, d, x, d - 1);
}

/// A smart scale with no bound at all keeps the dimensions exactly as they
/// are: the ratio is one on both sides.
pub proof fn lemma_smart_target_identity(cw: int, ch: int)
    requires
        1 <= cw <= u64::MAX,
        1 <= ch <= u64::MAX,
    ensures
        spec_smart_target(cw, ch, None, None) == (cw, ch),
{
    assert(cw * ch <= ch * cw) by (nonlinear_arith);
    lemma_ceil_div_exact(cw, cw);
    lemma_ceil_div_exact(ch, ch);
    assert(cw * cw == cw * cw);
    assert(ceil_div(cw * cw, cw) == cw);
    assert(ceil_div(ch * cw, cw) == ch) by {
        assert(ch * cw == cw * ch) by (nonlinear_arith);
        assert(ceil_div(cw * ch, cw) == ch) by {
            assert(cw * ch == cw * ch);
            lemma_ceil_div_exact(ch, cw);
        }
    }
}

/// When the width ratio is the one kept, the computed target width is the
/// width bound itself: the bound is met exactly, never overshot by the
/// rounding.
pub proof fn lemma_smart_target_exact_width(cw: int, ch: int, w: u64, h: Option<u64>)
    requires
        1 <= cw <= u64::MAX,
        1 <= ch <= u64::MAX,
        w as int * ch <= (match h {
            Option::Some(v) => v as int,
            Option::None => ch,
        }) * cw,
    ensures
        spec_smart_target(cw, ch, Some(w), h).0 == w as int,
{
    lemma_ceil_div_exact(w as int, cw);
}

fn ceil_div_capped(a: u64, num: u64, den: u64) -> (r: u64)
    requires
        den >= 1,
    ensures
        r as int == cap_u64(ceil_div(a as int * num as int, den as int)),
{
    let a1: u128 = a as u128;
    let n1: u128 = num as u128;
    let d1: u128 = den as u128;
    proof {
        assert(a1 * n1 <= 0xffff_ffff_ffff_ffff * 0xffff_ffff_ffff_ffff) by (nonlinear_arith)
            requires
                0 <= a1 <= 0xffff_ffff_ffff_ffff,
                0 <= n1 <= 0xffff_ffff_ffff_ffff,
        ;
    }
    let prod: u128 = a1 * n1;
    let q: u128 = (prod + d1 - 1) / d1;
    if q > 0xffff_ffff_ffff_ffffu128 {
        u64::MAX
    } else {
        q as u64
    }
}

/// Compute the smart-scale target for current dimensions `(cw, ch)` and
/// optional bounds, in exact integer arithmetic; a result beyond the
/// largest representable dimension is capped at it.
pub fn smart_scale_target(cw: u64, ch: u64, w: Option<u64>, h: Option<u64>) -> (r: (u64, u64))
    requires
        cw >= 1,
        ch >= 1,
    ensures
        r.0 as int == spec_smart_target(cw as int, ch as int, w, h).0,
        r.1 as int == spec_smart_target(cw as int, ch as int, w, h).1,
{
    let wn: u64 = match w {
        Option::Some(v) => v,
        Option::None => cw,
    };
    let hn: u64 = match h {
        Option::Some(v) => v,
        Option::None => ch,
    };
    proof {
        assert(wn as u128 * ch as u128 <= 0xffff_ffff_ffff_ffff * 0xffff_ffff_ffff_ffff
            && hn as u128 * cw as u128 <= 0xffff_ffff_ffff_ffff * 0xffff_ffff_ffff_ffff)
            by (nonlinear_arith)
            requires
                0 <= wn as u128 <= 0xffff_ffff_ffff_ffff,
                0 <= ch as u128 <= 0xffff_ffff_ffff_ffff,
                0 <= hn as u128 <= 0xffff_ffff_ffff_ffff,
                0 <= cw as u128 <= 0xffff_ffff_ffff_ffff,
        ;
    }
    if wn as u128 * ch as u128 <= hn as u128 * cw as u128 {
        (ceil_div_capped(cw, wn, cw), ceil_div_capped(ch, wn, cw))
    } else {
        (ceil_div_capped(cw, hn, ch), ceil_div_capped(ch, hn, ch))
    }
}

} // verus!
