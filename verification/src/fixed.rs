//! Fixed-point arithmetic for emotion values and decay weights.
//!
//! Emotion components, decay rates and decay weights are all integers
//! counting millionths of a unit ([`SCALE`]).  Working on integers keeps
//! every step of the numeric pipeline exactly specified: truncating
//! division is pinned down by [`tdiv`], and the exponential decay weight
//! by the truncated series of [`decay_weight_spec`].

use vstd::arithmetic::div_mod::{
    lemma_div_is_ordered, lemma_div_multiples_vanish, lemma_div_nonincreasing,
    lemma_div_of0, lemma_div_pos_is_pos,
};
use vstd::prelude::*;

verus! {

/// Number of fixed-point steps in one unit: an emotion component of one
/// million millionths is `1.0`, the top of the valid range.
pub const SCALE: i64 = 1_000_000;

/// `exp(-1)` in millionths, truncated.
pub const EXP_NEG_ONE: u64 = 367_879;

/// Index of the last exponential-series term kept by `decay_weight`; for
/// exponents below one unit every later term is zero anyway.
pub const EXP_TERMS: u64 = 10;

/// Exponents (in millionths) at or above which the decay weight has
/// underflowed to zero millionths: `exp(-14) < 1e-6`.
pub const EXP_UNDERFLOW: u64 = 14_000_000;

/// Clamp a value into the valid emotion range `[-SCALE, SCALE]`.
pub open spec fn clamp_unit(x: int) -> int {
    if x > SCALE {
        SCALE as int
    } else if x < -(SCALE as int) {
        -(SCALE as int)
    } else {
        x
    }
}

/// Division truncating toward zero (machine division semantics), defined
/// for positive divisors through Euclidean division on magnitudes.
pub open spec fn tdiv(a: int, d: int) -> int {
    if a >= 0 {
        a / d
    } else {
        -((-a) / d)
    }
}

/// Term `k` of the exponential series for `exp(-r / SCALE)`, in millionths,
/// with the division truncated at every step:
/// `t_0 = SCALE`, `t_{k+1} = t_k * r / (SCALE * (k + 1))`.
pub open spec fn taylor_term(r: int, k: nat) -> int
    decreases k,
{
    if k == 0 {
        SCALE as int
    } else {
        (taylor_term(r, (k - 1) as nat) * r) / (SCALE * k)
    }
}

/// Alternating tail of the exponential series from term `k` on:
/// `t_k - t_{k+1} + t_{k+2} - ...`, cut off after term [`EXP_TERMS`].
/// `exp_series_tail(r, 0)` is the series value for `exp(-r / SCALE)`.
pub open spec fn exp_series_tail(r: int, k: nat) -> int
    decreases EXP_TERMS + 1 - k,
{
    if k > EXP_TERMS {
        0
    } else {
        taylor_term(r, k) - exp_series_tail(r, (k + 1) as nat)
    }
}

/// `v` scaled down by the fixed-point factor `exp(-1)` `n` times.
pub open spec fn exp_scale_down(v: int, n: nat) -> int
    decreases n,
{
    if n == 0 {
        v
    } else {
        exp_scale_down((v * EXP_NEG_ONE) / (SCALE as int), (n - 1) as nat)
    }
}

/// Fixed-point `SCALE * exp(-x / SCALE)` for `0 <= x < EXP_UNDERFLOW`: the
/// truncated series on the fractional part of the exponent, scaled down by
/// `exp(-1)` once for each whole unit.
pub open spec fn exp_neg(x: int) -> int {
    exp_scale_down(exp_series_tail(x % (SCALE as int), 0), (x / (SCALE as int)) as nat)
}

/// Weight of a record with recency measure `t` under decay rate `rate`
/// (both nonnegative, the rate in millionths): fixed-point
/// `SCALE * exp(-rate * t / SCALE)`, zero once the exponent reaches
/// [`EXP_UNDERFLOW`].
pub open spec fn decay_weight_spec(rate: int, t: int) -> int {
    if rate * t >= EXP_UNDERFLOW {
        0
    } else {
        exp_neg(rate * t)
    }
}

/// The series terms stay in `[0, SCALE]` and never increase from one term
/// to the next.
proof fn lemma_taylor_term_bounds(r: int, k: nat)
    requires
        0 <= r < SCALE,
    ensures
        0 <= taylor_term(r, k) <= SCALE,
        taylor_term(r, (k + 1) as nat) <= taylor_term(r, k),
    decreases k,
{
    if k > 0 {
        lemma_taylor_term_bounds(r, (k - 1) as nat);
    }
    let t = taylor_term(r, k);
    let d = SCALE * (k + 1);
    assert(SCALE <= d) by (nonlinear_arith)
        requires 0 < SCALE, k >= 0, d == SCALE * (k + 1);
    assert(t * r <= t * d) by (nonlinear_arith)
        requires 0 <= t, 0 <= r < SCALE, SCALE <= d;
    assert(0 <= t * r) by (nonlinear_arith)
        requires 0 <= t, 0 <= r;
    lemma_div_pos_is_pos(t * r, d);
    lemma_div_is_ordered(t * r, t * d, d);
    lemma_div_multiples_vanish(t, d);
    assert(d * t == t * d) by (nonlinear_arith);
    assert(taylor_term(r, (k + 1) as nat) == (t * r) / d);
}

/// The alternating tail from any index is between zero and its first term.
proof fn lemma_exp_series_tail_bounds(r: int, k: nat)
    requires
        0 <= r < SCALE,
    ensures
        0 <= exp_series_tail(r, k) <= taylor_term(r, k),
    decreases EXP_TERMS + 1 - k,
{
    lemma_taylor_term_bounds(r, k);
    if k <= EXP_TERMS {
        lemma_exp_series_tail_bounds(r, (k + 1) as nat);
    }
}

/// Scaling down by `exp(-1)` keeps a value in `[0, v]`.
proof fn lemma_exp_scale_down_bounds(v: int, n: nat)
    requires
        0 <= v <= SCALE,
    ensures
        0 <= exp_scale_down(v, n) <= v,
    decreases n,
{
    if n > 0 {
        let w = (v * EXP_NEG_ONE) / (SCALE as int);
        assert(0 <= v * EXP_NEG_ONE) by (nonlinear_arith)
            requires 0 <= v;
        assert(v * EXP_NEG_ONE <= v * SCALE) by (nonlinear_arith)
            requires 0 <= v, 0 < EXP_NEG_ONE < SCALE;
        lemma_div_pos_is_pos(v * EXP_NEG_ONE, SCALE as int);
        lemma_div_is_ordered(v * EXP_NEG_ONE, v * SCALE, SCALE as int);
        lemma_div_multiples_vanish(v, SCALE as int);
        assert((SCALE as int) * v == v * SCALE) by (nonlinear_arith);
        lemma_exp_scale_down_bounds(w, (n - 1) as nat);
    }
}

/// A decay weight is always a valid fixed-point fraction of `[0, SCALE]`.
pub proof fn lemma_decay_weight_range(rate: int, t: int)
    requires
        rate >= 0,
        t >= 0,
    ensures
        0 <= decay_weight_spec(rate, t) <= SCALE,
{
    assert(rate * t >= 0) by (nonlinear_arith)
        requires rate >= 0, t >= 0;
    let x = rate * t;
    if x < EXP_UNDERFLOW {
        let r = x % (SCALE as int);
        let n = (x / (SCALE as int)) as nat;
        lemma_exp_series_tail_bounds(r, 0);
        assert(taylor_term(r, 0) == SCALE);
        lemma_exp_scale_down_bounds(exp_series_tail(r, 0), n);
    }
}

/// Series terms past the first vanish for a zero exponent.
proof fn lemma_taylor_term_zero(k: nat)
    requires
        k >= 1,
    ensures
        taylor_term(0, k) == 0,
    decreases k,
{
    if k > 1 {
        lemma_taylor_term_zero((k - 1) as nat);
    }
    lemma_div_of0(SCALE * k);
}

/// The alternating tail past the first term vanishes for a zero exponent.
proof fn lemma_exp_series_tail_zero(k: nat)
    requires
        k >= 1,
    ensures
        exp_series_tail(0, k) == 0,
    decreases EXP_TERMS + 1 - k,
{
    if k <= EXP_TERMS {
        lemma_taylor_term_zero(k);
        lemma_exp_series_tail_zero((k + 1) as nat);
    }
}

/// A record written at recency zero carries full weight, whatever the rate:
/// `decay_weight_spec(rate, 0) == SCALE`.
pub proof fn lemma_decay_weight_at_zero(rate: int)
    requires
        rate >= 0,
    ensures
        decay_weight_spec(rate, 0) == SCALE,
{
    assert(rate * 0 == 0) by (nonlinear_arith);
    lemma_div_of0(SCALE as int);
    vstd::arithmetic::div_mod::lemma_mod_self_0(SCALE as int);
    assert(0int % (SCALE as int) == 0);
    lemma_exp_series_tail_zero(1);
    assert(exp_series_tail(0, 0) == taylor_term(0, 0) - exp_series_tail(0, 1));
    assert(exp_neg(0) == exp_scale_down(SCALE as int, 0));
}

/// Clamp a wide intermediate value into the valid emotion range.
pub fn clamp_unit_i128(x: i128) -> (r: i64)
    ensures
        r == clamp_unit(x as int),
        -SCALE <= r <= SCALE,
{
    if x > SCALE as i128 {
        SCALE
    } else if x < -(SCALE as i128) {
        -SCALE
    } else {
        x as i64
    }
}

/// Division truncating toward zero, computed on magnitudes so that the
/// result matches [`tdiv`] exactly.
pub fn div_trunc(a: i128, d: u128) -> (q: i128)
    requires
        0 < d,
        a > i128::MIN,
    ensures
        q == tdiv(a as int, d as int),
{
    if a >= 0 {
        let q = (a as u128) / d;
        proof {
            lemma_div_nonincreasing(a as int, d as int);
            lemma_div_pos_is_pos(a as int, d as int);
        }
        q as i128
    } else {
        let m = (-a) as u128;
        let q = m / d;
        proof {
            lemma_div_nonincreasing(m as int, d as int);
            lemma_div_pos_is_pos(m as int, d as int);
        }
        -(q as i128)
    }
}

/// Fixed-point decay weight `SCALE * exp(-rate * t / SCALE)` of a record
/// with recency measure `t` under decay rate `rate`.
pub fn decay_weight(rate: u64, t: u64) -> (w: u64)
    ensures
        w == decay_weight_spec(rate as int, t as int),
        w <= SCALE,
{
    proof {
        lemma_decay_weight_range(rate as int, t as int);
    }
    assert((rate as u128) * (t as u128) <= u128::MAX) by (nonlinear_arith)
        requires rate <= u64::MAX, t <= u64::MAX;
    let x: u128 = (rate as u128) * (t as u128);
    if x >= EXP_UNDERFLOW as u128 {
        return 0;
    }
    let xs: u64 = x as u64;
    let r: u64 = xs % (SCALE as u64);
    let n: u64 = xs / (SCALE as u64);

    // Series terms t_0 ..= t_EXP_TERMS for the fractional part.
    let mut terms: Vec<u64> = Vec::new();
    terms.push(SCALE as u64);
    let mut k: u64 = 1;
    while k <= EXP_TERMS
        invariant
            1 <= k <= EXP_TERMS + 1,
            r < SCALE,
            terms.len() == k,
            forall|j: int| 0 <= j < k ==> #[trigger] terms[j] == taylor_term(r as int, j as nat),
        decreases EXP_TERMS + 1 - k,
    {
        proof {
            lemma_taylor_term_bounds(r as int, (k - 1) as nat);
        }
        let prev = terms[(k - 1) as usize];
        assert(prev * r <= 1_000_000_000_000) by (nonlinear_arith)
            requires prev <= 1_000_000, r < 1_000_000;
        let next = (prev * r) / ((SCALE as u64) * k);
        terms.push(next);
        k = k + 1;
    }

    // Alternating sum, accumulated from the last term backwards.
    let mut s: u64 = 0;
    let mut i: u64 = EXP_TERMS + 1;
    while i > 0
        invariant
            i <= EXP_TERMS + 1,
            r < SCALE,
            terms.len() == EXP_TERMS + 1,
            forall|j: int|
                0 <= j < terms.len() ==> #[trigger] terms[j] == taylor_term(r as int, j as nat),
            s == exp_series_tail(r as int, i as nat),
        decreases i,
    {
        i = i - 1;
        proof {
            lemma_taylor_term_bounds(r as int, i as nat);
            lemma_exp_series_tail_bounds(r as int, (i + 1) as nat);
        }
        s = terms[i as usize] - s;
    }

    // One scale-down by exp(-1) for each whole unit of the exponent.
    let ghost s0 = s as int;
    proof {
        lemma_exp_series_tail_bounds(r as int, 0);
    }
    let mut m: u64 = 0;
    while m < n
        invariant
            m <= n,
            s <= SCALE,
            exp_scale_down(s0, n as nat) == exp_scale_down(s as int, (n - m) as nat),
        decreases n - m,
    {
        proof {
            let v = s as int;
            assert(0 <= v * EXP_NEG_ONE) by (nonlinear_arith)
                requires 0 <= v;
            assert(v * EXP_NEG_ONE <= v * SCALE) by (nonlinear_arith)
                requires 0 <= v, 0 < EXP_NEG_ONE < SCALE;
            lemma_div_pos_is_pos(v * EXP_NEG_ONE, SCALE as int);
            lemma_div_is_ordered(v * EXP_NEG_ONE, v * SCALE, SCALE as int);
            lemma_div_multiples_vanish(v, SCALE as int);
            assert((SCALE as int) * v == v * SCALE) by (nonlinear_arith);
        }
        s = (s * EXP_NEG_ONE) / (SCALE as u64);
        m = m + 1;
    }
    proof {
        assert(x == (rate as int) * (t as int));
        assert(xs % (SCALE as u64) == (x as int) % (SCALE as int));
        assert(xs / (SCALE as u64) == (x as int) / (SCALE as int));
    }
    s
}

} // verus!
