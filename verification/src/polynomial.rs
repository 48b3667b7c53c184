//! Quadratic correction polynomials and their nanosecond-exact evaluation.

use vstd::prelude::*;

use crate::epoch::MAX_DT_NANOS;

verus! {

/// Largest coefficient magnitude, in nanoseconds, that the correction
/// arithmetic supports (about 2.1 seconds; inter-scale biases are far
/// smaller). Entries with larger coefficients are never selected as
/// correction candidates.
pub const MAX_COEF_NANOS: i64 = 0x8000_0000;

/// Largest offset magnitude, in nanoseconds, that a supported polynomial can
/// produce at a supported instant difference.
pub const MAX_OFFSET_NANOS: i128 = 0x1_0000_0000_0000_0000_0000_0000;

/// A quadratic model of the offset between two time scales:
/// `offset(dt) = constant + rate * dt + accel * dt^2`, with `dt` the time
/// elapsed since the model's reference instant.
///
/// The coefficients carry nanosecond resolution: `constant` in ns, `rate` in
/// ns per elapsed second, `accel` in ns per elapsed second squared.
#[derive(Debug, Clone, Copy, PartialEq, Eq, Structural)]
pub struct Polynomial {
    /// Static offset, in nanoseconds.
    pub constant: i64,
    /// Drift, in nanoseconds per elapsed second.
    pub rate: i64,
    /// Drift acceleration, in nanoseconds per elapsed second squared.
    pub accel: i64,
}

impl Polynomial {
    /// True when every coefficient lies within the supported magnitude.
    pub open spec fn in_range(self) -> bool {
        &&& -MAX_COEF_NANOS <= self.constant <= MAX_COEF_NANOS
        &&& -MAX_COEF_NANOS <= self.rate <= MAX_COEF_NANOS
        &&& -MAX_COEF_NANOS <= self.accel <= MAX_COEF_NANOS
    }

    /// A polynomial with every coefficient zero.
    pub fn zero() -> (r: Polynomial)
        ensures
            r == (Polynomial { constant: 0, rate: 0, accel: 0 }),
    {
        Polynomial { constant: 0, rate: 0, accel: 0 }
    }
}

/// Division by one billion truncated toward zero: the rounding that the
/// executable evaluation applies after each product.
pub open spec fn tdiv_1g(x: int) -> int {
    if x >= 0 {
        x / 1_000_000_000
    } else {
        -((-x) / 1_000_000_000)
    }
}

/// The offset, in nanoseconds, that polynomial `p` prescribes at an instant
/// difference of `dt_nanos` nanoseconds. The terms are evaluated in a fixed
/// order — constant, then the rate term, then the acceleration term — each
/// product truncated toward zero after its division, so that the result is
/// reproducible bit for bit.
pub open spec fn offset_nanos(p: Polynomial, dt_nanos: int) -> int {
    p.constant + tdiv_1g(p.rate * dt_nanos) + tdiv_1g(
        p.accel * tdiv_1g(dt_nanos * dt_nanos),
    )
}

proof fn lemma_small_div(x: int)
    requires
        0 <= x < 1_000_000_000,
    ensures
        x / 1_000_000_000 == 0,
{
    vstd::arithmetic::div_mod::lemma_basic_div(x, 1_000_000_000);
}

proof fn lemma_div_close_nonneg(a: int, b: int)
    requires
        0 <= a <= b,
        b - a < 1_000_000_000,
    ensures
        a / 1_000_000_000 <= b / 1_000_000_000 <= a / 1_000_000_000 + 1,
{
    vstd::arithmetic::div_mod::lemma_div_is_ordered(a, b, 1_000_000_000);
    assert(b / 1_000_000_000 <= a / 1_000_000_000 + 1) by {
        vstd::arithmetic::div_mod::lemma_div_is_ordered(b, a + 1_000_000_000, 1_000_000_000);
        vstd::arithmetic::div_mod::lemma_div_plus_one(a, 1_000_000_000);
    }
}

/// Truncating division moves by at most one step across inputs less than
/// one billion apart.
pub proof fn lemma_tdiv_1g_close(x: int, y: int)
    requires
        -1_000_000_000 < x - y < 1_000_000_000,
    ensures
        -1 <= tdiv_1g(x) - tdiv_1g(y) <= 1,
{
    if x >= 0 && y >= 0 {
        if x <= y {
            lemma_div_close_nonneg(x, y);
        } else {
            lemma_div_close_nonneg(y, x);
        }
    } else if x < 0 && y < 0 {
        if -x <= -y {
            lemma_div_close_nonneg(-x, -y);
        } else {
            lemma_div_close_nonneg(-y, -x);
        }
    } else if x >= 0 && y < 0 {
        lemma_small_div(x);
        lemma_small_div(-y);
    } else {
        lemma_small_div(-x);
        lemma_small_div(y);
    }
}

/// Truncating division keeps magnitudes bounded: `|x| <= b` gives
/// `|tdiv_1g(x)| <= b / 1_000_000_000`.
proof fn lemma_tdiv_1g_bound(x: int, b: int)
    requires
        0 <= b,
        -b <= x <= b,
    ensures
        -(b / 1_000_000_000) <= tdiv_1g(x) <= b / 1_000_000_000,
{
    if x >= 0 {
        vstd::arithmetic::div_mod::lemma_div_is_ordered(x, b, 1_000_000_000);
        vstd::arithmetic::div_mod::lemma_div_pos_is_pos(x, 1_000_000_000);
    } else {
        vstd::arithmetic::div_mod::lemma_div_is_ordered(-x, b, 1_000_000_000);
        vstd::arithmetic::div_mod::lemma_div_pos_is_pos(-x, 1_000_000_000);
    }
}

/// The offset of an in-range polynomial at an in-range instant difference
/// stays within [`MAX_OFFSET_NANOS`].
pub proof fn lemma_offset_nanos_bound(p: Polynomial, dt_nanos: int)
    requires
        p.in_range(),
        -MAX_DT_NANOS <= dt_nanos <= MAX_DT_NANOS,
    ensures
        -MAX_OFFSET_NANOS <= offset_nanos(p, dt_nanos) <= MAX_OFFSET_NANOS,
{
    assert(-0x2000_0000_0000_0000_0000_0000 <= p.rate * dt_nanos
        <= 0x2000_0000_0000_0000_0000_0000) by (nonlinear_arith)
        requires
            -MAX_COEF_NANOS <= p.rate <= MAX_COEF_NANOS,
            -MAX_DT_NANOS <= dt_nanos <= MAX_DT_NANOS,
    ;
    lemma_tdiv_1g_bound(p.rate * dt_nanos, 0x2000_0000_0000_0000_0000_0000);
    assert(0 <= dt_nanos * dt_nanos <= 0x1000_0000_0000_0000_0000_0000_0000_0000)
        by (nonlinear_arith)
        requires
            -MAX_DT_NANOS <= dt_nanos <= MAX_DT_NANOS,
    ;
    lemma_tdiv_1g_bound(dt_nanos * dt_nanos, 0x1000_0000_0000_0000_0000_0000_0000_0000);
    let sqd = tdiv_1g(dt_nanos * dt_nanos);
    assert(-0x8000_0000 * (0x1000_0000_0000_0000_0000_0000_0000_0000int / 1_000_000_000) <= p.accel
        * sqd <= 0x8000_0000 * (0x1000_0000_0000_0000_0000_0000_0000_0000int / 1_000_000_000))
        by (nonlinear_arith)
        requires
            -MAX_COEF_NANOS <= p.accel <= MAX_COEF_NANOS,
            -(0x1000_0000_0000_0000_0000_0000_0000_0000int / 1_000_000_000) <= sqd
                <= 0x1000_0000_0000_0000_0000_0000_0000_0000int / 1_000_000_000,
    ;
    lemma_tdiv_1g_bound(
        p.accel * sqd,
        0x8000_0000 * (0x1000_0000_0000_0000_0000_0000_0000_0000int / 1_000_000_000),
    );
    assert(0x2000_0000_0000_0000_0000_0000int / 1_000_000_000 == 9903520314283042199);
    assert(0x1000_0000_0000_0000_0000_0000_0000_0000int / 1_000_000_000
        == 21267647932558653966460912964);
    assert(0x8000_0000int * 21267647932558653966460912964
        == 45671926166590716193865151021341212672) by (nonlinear_arith);
    assert(45671926166590716193865151021341212672int / 1_000_000_000
        == 45671926166590716193865151021);
}

/// Evaluates [`offset_nanos`] exactly, in 128-bit integers.
pub fn eval_offset_nanos(p: &Polynomial, dt_nanos: i128) -> (r: i128)
    requires
        p.in_range(),
        -MAX_DT_NANOS <= dt_nanos <= MAX_DT_NANOS,
    ensures
        r == offset_nanos(*p, dt_nanos as int),
        -MAX_OFFSET_NANOS <= r <= MAX_OFFSET_NANOS,
{
    proof {
        lemma_offset_nanos_bound(*p, dt_nanos as int);
        assert(-0x2000_0000_0000_0000_0000_0000 <= (p.rate as int) * (dt_nanos as int)
            <= 0x2000_0000_0000_0000_0000_0000) by (nonlinear_arith)
            requires
                -MAX_COEF_NANOS <= p.rate <= MAX_COEF_NANOS,
                -MAX_DT_NANOS <= dt_nanos <= MAX_DT_NANOS,
        ;
        assert(0 <= (dt_nanos as int) * (dt_nanos as int)
            <= 0x1000_0000_0000_0000_0000_0000_0000_0000) by (nonlinear_arith)
            requires
                -MAX_DT_NANOS <= dt_nanos <= MAX_DT_NANOS,
        ;
    }
    let rate_term: i128 = (p.rate as i128) * dt_nanos;
    let rate_div: i128 = rate_term / 1_000_000_000;
    let sq: i128 = dt_nanos * dt_nanos;
    let sq_div: i128 = sq / 1_000_000_000;
    proof {
        lemma_tdiv_1g_bound((dt_nanos as int) * (dt_nanos as int),
            0x1000_0000_0000_0000_0000_0000_0000_0000);
        let sqd = tdiv_1g((dt_nanos as int) * (dt_nanos as int));
        assert(-0x8000_0000 * (0x1000_0000_0000_0000_0000_0000_0000_0000int / 1_000_000_000)
            <= (p.accel as int) * sqd <= 0x8000_0000 * (
        0x1000_0000_0000_0000_0000_0000_0000_0000int / 1_000_000_000)) by (nonlinear_arith)
            requires
                -MAX_COEF_NANOS <= p.accel <= MAX_COEF_NANOS,
                -(0x1000_0000_0000_0000_0000_0000_0000_0000int / 1_000_000_000) <= sqd
                    <= 0x1000_0000_0000_0000_0000_0000_0000_0000int / 1_000_000_000,
        ;
        lemma_tdiv_1g_bound(rate_term as int, 0x2000_0000_0000_0000_0000_0000);
    }
    let accel_term: i128 = (p.accel as i128) * sq_div;
    let accel_div: i128 = accel_term / 1_000_000_000;
    (p.constant as i128) + rate_div + accel_div
}

} // verus!
