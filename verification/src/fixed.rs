//! Signed fixed-point arithmetic with six decimal places.
//!
//! Prices, volatilities and other fractional quantities are carried as
//! `i64` raw values scaled by [`SCALE`], so `1_000_000` stands for `1.0`.
//! Every operation saturates at the `i64` range; each executable function
//! is pinned to an exact spec-level twin.

use vstd::prelude::*;

verus! {

/// Number of raw units in one whole: fixed-point values have six decimal places.
pub const SCALE: i64 = 1_000_000;

/// Saturate a mathematical integer into the `i64` range.
pub open spec fn clamp_i64(x: int) -> int {
    if x > i64::MAX as int {
        i64::MAX as int
    } else if x < i64::MIN as int {
        i64::MIN as int
    } else {
        x
    }
}

/// Division rounding toward zero, as machine division does.
pub open spec fn tdiv(n: int, d: int) -> int
    recommends
        d > 0,
{
    if n >= 0 {
        n / d
    } else {
        -((-n) / d)
    }
}

/// Magnitude of an `i64` as a mathematical integer.
pub open spec fn abs_int(a: int) -> int {
    if a >= 0 {
        a
    } else {
        -a
    }
}

/// Saturating fixed-point (and plain integer) addition.
pub open spec fn spec_fx_add(a: int, b: int) -> int {
    clamp_i64(a + b)
}

/// Saturating fixed-point (and plain integer) subtraction.
pub open spec fn spec_fx_sub(a: int, b: int) -> int {
    clamp_i64(a - b)
}

/// Saturating fixed-point product: `a * b / SCALE`, rounded toward zero.
pub open spec fn spec_fx_mul(a: int, b: int) -> int {
    clamp_i64(tdiv(a * b, SCALE as int))
}

/// Saturating fixed-point quotient: `a * SCALE / b`, rounded toward zero.
pub open spec fn spec_fx_div(a: int, b: int) -> int
    recommends
        b > 0,
{
    clamp_i64(tdiv(a * (SCALE as int), b))
}

/// Magnitude of an `i64`, widened so that `i64::MIN` has one too.
fn abs_u128(a: i64) -> (r: u128)
    ensures
        r as int == abs_int(a as int),
{
    if a >= 0 {
        a as u128
    } else {
        (-(a as i128)) as u128
    }
}

/// Rebuild a signed value from a sign and a saturated magnitude.
fn apply_sign(neg: bool, m: u128) -> (r: i64)
    ensures
        r as int == if neg {
            clamp_i64(-(m as int))
        } else {
            clamp_i64(m as int)
        },
{
    if neg {
        if m >= 0x8000_0000_0000_0000u128 {
            i64::MIN
        } else {
            -(m as i64)
        }
    } else {
        if m > i64::MAX as u128 {
            i64::MAX
        } else {
            m as i64
        }
    }
}

pub fn fx_add(a: i64, b: i64) -> (r: i64)
    ensures
        r as int == spec_fx_add(a as int, b as int),
{
    let s: i128 = a as i128 + b as i128;
    if s > i64::MAX as i128 {
        i64::MAX
    } else if s < i64::MIN as i128 {
        i64::MIN
    } else {
        s as i64
    }
}

pub fn fx_sub(a: i64, b: i64) -> (r: i64)
    ensures
        r as int == spec_fx_sub(a as int, b as int),
{
    let s: i128 = a as i128 - b as i128;
    if s > i64::MAX as i128 {
        i64::MAX
    } else if s < i64::MIN as i128 {
        i64::MIN
    } else {
        s as i64
    }
}

pub fn fx_mul(a: i64, b: i64) -> (r: i64)
    ensures
        r as int == spec_fx_mul(a as int, b as int),
{
    let neg: bool = (a < 0) != (b < 0) && a != 0 && b != 0;
    let ma: u128 = abs_u128(a);
    let mb: u128 = abs_u128(b);
    proof {
        assert(ma <= 0x8000_0000_0000_0000u128);
        assert(mb <= 0x8000_0000_0000_0000u128);
        assert(ma * mb <= 0x8000_0000_0000_0000 * 0x8000_0000_0000_0000) by (nonlinear_arith)
            requires
                ma <= 0x8000_0000_0000_0000u128,
                mb <= 0x8000_0000_0000_0000u128,
        ;
    }
    let p: u128 = ma * mb;
    let q: u128 = p / (SCALE as u128);
    proof {
        lemma_signed_product(a as int, b as int);
        assert(q as int == tdiv(abs_int(a as int * b as int), SCALE as int));
    }
    apply_sign(neg, q)
}

/// Saturated magnitude of a fixed-point value.
pub open spec fn spec_fx_abs(a: int) -> int {
    clamp_i64(abs_int(a))
}

pub fn fx_abs(a: i64) -> (r: i64)
    ensures
        r as int == spec_fx_abs(a as int),
        r >= 0,
{
    if a == i64::MIN {
        i64::MAX
    } else if a < 0 {
        -a
    } else {
        a
    }
}

pub fn fx_div(a: i64, b: i64) -> (r: i64)
    requires
        b > 0,
    ensures
        r as int == spec_fx_div(a as int, b as int),
        a >= 0 ==> r >= 0,
{
    let neg: bool = a < 0;
    let ma: u128 = abs_u128(a);
    proof {
        assert(ma <= 0x8000_0000_0000_0000u128);
        assert(ma * (SCALE as u128) <= 0x8000_0000_0000_0000 * 1_000_000) by (nonlinear_arith)
            requires
                ma <= 0x8000_0000_0000_0000u128,
        ;
    }
    let p: u128 = ma * (SCALE as u128);
    let q: u128 = p / (b as u128);
    proof {
        lemma_signed_product(a as int, SCALE as int);
        assert(abs_int(a as int) * (SCALE as int) == abs_int(a as int * (SCALE as int)));
        assert(q as int == tdiv(abs_int(a as int * (SCALE as int)), b as int));
        lemma_tdiv_sign(a as int * (SCALE as int), b as int);
    }
    apply_sign(neg, q)
}

/// The integer square root: the largest `r` with `r * r <= n`.
pub open spec fn spec_isqrt(n: nat) -> nat
    decreases n,
{
    if n == 0 {
        0
    } else {
        let p = spec_isqrt((n - 1) as nat);
        if (p + 1) * (p + 1) <= n {
            (p + 1) as nat
        } else {
            p
        }
    }
}

/// `spec_isqrt` meets its defining inequalities.
pub proof fn lemma_isqrt_props(n: nat)
    ensures
        spec_isqrt(n) * spec_isqrt(n) <= n,
        n < (spec_isqrt(n) + 1) * (spec_isqrt(n) + 1),
    decreases n,
{
    if n > 0 {
        lemma_isqrt_props((n - 1) as nat);
        let p = spec_isqrt((n - 1) as nat);
        assert(p * p <= n - 1);
        assert(n - 1 < (p + 1) * (p + 1));
        if (p + 1) * (p + 1) <= n {
            assert(spec_isqrt(n) == p + 1);
            assert((p + 1) * (p + 1) < (p + 2) * (p + 2)) by (nonlinear_arith);
            assert(n < (p + 2) * (p + 2));
        } else {
            assert(spec_isqrt(n) == p);
            assert(p * p <= n);
        }
    } else {
        assert(spec_isqrt(n) == 0);
        assert(0 * 0 == 0 && (0 + 1) * (0 + 1) == 1) by (nonlinear_arith);
    }
}

/// Any `r` meeting the defining inequalities is the integer square root.
pub proof fn lemma_isqrt_unique(n: nat, r: nat)
    requires
        r * r <= n,
        n < (r + 1) * (r + 1),
    ensures
        r == spec_isqrt(n),
{
    lemma_isqrt_props(n);
    let q = spec_isqrt(n);
    if r < q {
        assert((r + 1) * (r + 1) <= q * q) by (nonlinear_arith)
            requires
                r + 1 <= q,
        ;
    } else if q < r {
        assert((q + 1) * (q + 1) <= r * r) by (nonlinear_arith)
            requires
                q + 1 <= r,
        ;
    }
}

/// Binary-search integer square root.
fn isqrt_u128(n: u128) -> (r: u128)
    ensures
        r as nat == spec_isqrt(n as nat),
{
    if n == 0 {
        proof {
            assert(0 * 0 <= 0 && 0 < (0 + 1) * (0 + 1)) by (nonlinear_arith);
            lemma_isqrt_unique(0, 0);
        }
        return 0;
    }
    let mut lo: u128 = 0;
    let mut hi: u128 = 0x1_0000_0000_0000_0000u128;
    proof {
        assert((hi as int) * (hi as int) > n as int) by (nonlinear_arith)
            requires
                hi == 0x1_0000_0000_0000_0000u128,
                n <= u128::MAX,
        ;
    }
    while lo + 1 < hi
        invariant
            lo < hi <= 0x1_0000_0000_0000_0000u128,
            (lo as int) * (lo as int) <= n as int,
            (hi as int) * (hi as int) > n as int,
        decreases hi - lo,
    {
        let mid: u128 = lo + (hi - lo) / 2;
        proof {
            assert((mid as int) * (mid as int) < 0x1_0000_0000_0000_0000_0000_0000_0000_0000)
                by (nonlinear_arith)
                requires
                    mid < 0x1_0000_0000_0000_0000u128,
            ;
        }
        if mid * mid <= n {
            lo = mid;
        } else {
            hi = mid;
        }
    }
    proof {
        lemma_isqrt_unique(n as nat, lo as nat);
    }
    lo
}

/// Fixed-point square root of a nonnegative fixed-point value:
/// `sqrt(x / SCALE) * SCALE`, i.e. the integer square root of `x * SCALE`.
pub open spec fn spec_fx_sqrt(x: int) -> int
    recommends
        x >= 0,
{
    spec_isqrt((x * SCALE) as nat) as int
}

pub fn fx_sqrt(x: i64) -> (r: i64)
    requires
        x >= 0,
    ensures
        r as int == spec_fx_sqrt(x as int),
        r >= 0,
{
    proof {
        assert((x as int) * (SCALE as int) <= 0x8000_0000_0000_0000 * 1_000_000)
            by (nonlinear_arith)
            requires
                0 <= x as int <= 0x8000_0000_0000_0000,
        ;
    }
    let n: u128 = (x as u128) * (SCALE as u128);
    let r: u128 = isqrt_u128(n);
    proof {
        lemma_isqrt_props(n as nat);
        assert(r as int <= i64::MAX as int) by (nonlinear_arith)
            requires
                (r as int) * (r as int) <= n as int,
                0 <= n as int <= 0x8000_0000_0000_0000 * 1_000_000,
        ;
    }
    r as i64
}

/// The magnitude of a product is the product of the magnitudes, and the signs agree.
proof fn lemma_signed_product(a: int, b: int)
    ensures
        abs_int(a * b) == abs_int(a) * abs_int(b),
        (a * b < 0) <==> ((a < 0) != (b < 0) && a != 0 && b != 0),
        (a * b == 0) <==> (a == 0 || b == 0),
{
    assert(abs_int(a * b) == abs_int(a) * abs_int(b) && ((a * b < 0) <==> ((a < 0) != (b < 0)
        && a != 0 && b != 0)) && ((a * b == 0) <==> (a == 0 || b == 0))) by (nonlinear_arith);
}

/// Truncating division keeps the dividend's sign (for a positive divisor).
proof fn lemma_tdiv_sign(n: int, d: int)
    requires
        d > 0,
    ensures
        tdiv(n, d) == if n >= 0 {
            abs_int(n) / d
        } else {
            -(abs_int(n) / d)
        },
        n >= 0 ==> tdiv(n, d) >= 0,
        n < 0 ==> tdiv(n, d) <= 0,
{
    if n >= 0 {
        assert(n / d >= 0) by (nonlinear_arith)
            requires
                n >= 0,
                d > 0,
        ;
    } else {
        assert((-n) / d >= 0) by (nonlinear_arith)
            requires
                -n >= 0,
                d > 0,
        ;
    }
}

} // verus!
