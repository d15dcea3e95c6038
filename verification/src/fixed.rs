//! Fixed-point scalars: an `i64` holds a real value scaled by `FX_ONE`,
//! giving sixteen fractional bits. All pipeline coordinates and matrix
//! entries use this representation.
use vstd::prelude::*;
use vstd::arithmetic::div_mod::lemma_fundamental_div_mod;
use vstd::arithmetic::div_mod::lemma_fundamental_div_mod_converse_div;
use vstd::arithmetic::div_mod::lemma_div_is_ordered;

verus! {

/// The fixed-point unit: the representation of the real value 1.
pub const FX_ONE: i64 = 65536;

/// Largest magnitude accepted by `fx_down` (2^62).
pub const FXD_LIMIT: i64 = 4611686018427387904;

/// Rescaling a product of two fixed-point values back to fixed point:
/// floor division by `FX_ONE` (the quotient is the floor because the
/// divisor is positive and `/` on `int` is Euclidean).
pub open spec fn fx_down_spec(x: int) -> int {
    x / (FX_ONE as int)
}

/// For positive `n`, the ceiling quotient computed as `(n + FX_ONE - 1) / FX_ONE`
/// equals the negated floor quotient of `-n`.
proof fn lemma_ceil_neg(n: int)
    requires
        0 < n,
    ensures
        -((n + 65535) / 65536) == (-n) / 65536,
{
    let d: int = 65536;
    lemma_fundamental_div_mod(n, d);
    let q = n / d;
    let r = n % d;
    if r == 0 {
        lemma_fundamental_div_mod_converse_div(n + d - 1, d, q, d - 1);
        lemma_fundamental_div_mod_converse_div(-n, d, -q, 0);
    } else {
        lemma_fundamental_div_mod_converse_div(n + d - 1, d, q + 1, r - 1);
        lemma_fundamental_div_mod_converse_div(-n, d, -(q + 1), d - r);
    }
}

/// A bound on the input gives a bound on the rescaled value; the extra 1
/// covers the floor of a negative quotient.
pub proof fn lemma_fx_down_bound(x: int, b: int)
    requires
        0 <= b,
        -b <= x <= b,
    ensures
        -(b / (FX_ONE as int)) - 1 <= fx_down_spec(x) <= b / (FX_ONE as int),
{
    let d: int = 65536;
    lemma_div_is_ordered(x, b, d);
    lemma_div_is_ordered(-b, x, d);
    lemma_fundamental_div_mod(b, d);
    let q = b / d;
    let r = b % d;
    if r == 0 {
        lemma_fundamental_div_mod_converse_div(-b, d, -q, 0);
    } else {
        lemma_fundamental_div_mod_converse_div(-b, d, -q - 1, d - r);
    }
}

/// The magnitude of a product is bounded by the product of the bounds.
pub proof fn lemma_abs_mul_le(a: int, b: int, x: int, y: int)
    requires
        -x <= a <= x,
        -y <= b <= y,
    ensures
        -(x * y) <= a * b <= x * y,
{
    assert(-(x * y) <= a * b <= x * y) by (nonlinear_arith)
        requires
            -x <= a <= x,
            -y <= b <= y,
    ;
}

/// Rescales `x` down by `FX_ONE`, rounding toward negative infinity.
pub fn fx_down(x: i64) -> (r: i64)
    requires
        -FXD_LIMIT <= x <= FXD_LIMIT,
    ensures
        r == fx_down_spec(x as int),
{
    if x >= 0 {
        let q: u64 = (x as u64) / 65536;
        q as i64
    } else {
        let n: u64 = (-x) as u64;
        let q: u64 = (n + 65535) / 65536;
        proof {
            lemma_ceil_neg(n as int);
        }
        -(q as i64)
    }
}

} // verus!
