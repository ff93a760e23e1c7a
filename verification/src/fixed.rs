//! Fixed-point scalar arithmetic.
//!
//! A scalar holds a signed 64-bit raw value scaled by `SCALE`; the value it
//! denotes is `raw / SCALE`. Every operation computes in wide integers and
//! clips the result into `[-FX_MAX, FX_MAX]`, so all operations are total and
//! their results are pinned exactly by the spec functions below.

use vstd::prelude::*;

verus! {

/// Raw units per 1.0 of denoted value.
pub const SCALE: i64 = 65536;

/// Half of `SCALE`; used for round-to-nearest.
pub const HALF_SCALE: i64 = 32768;

/// Largest raw magnitude a scalar may hold (2^46).
pub const FX_MAX: i64 = 0x4000_0000_0000;

/// Clip a mathematical integer into the representable raw range.
pub open spec fn clip(v: int) -> int {
    if v > FX_MAX {
        FX_MAX as int
    } else if v < -FX_MAX {
        -FX_MAX as int
    } else {
        v
    }
}

/// Magnitude of an integer.
pub open spec fn iabs(a: int) -> int {
    if a < 0 {
        -a
    } else {
        a
    }
}

/// Division truncated toward zero (the semantics of Rust's `/` on integers):
/// the quotient of the magnitudes, carrying the sign of the exact quotient.
pub open spec fn tdiv(a: int, b: int) -> int {
    if (a < 0) == (b < 0) {
        iabs(a) / iabs(b)
    } else {
        -(iabs(a) / iabs(b))
    }
}

/// Raw result of adding two raw values.
pub open spec fn fxs_add(a: int, b: int) -> int {
    clip(a + b)
}

/// Raw result of subtracting two raw values.
pub open spec fn fxs_sub(a: int, b: int) -> int {
    clip(a - b)
}

/// Raw result of multiplying two raw values.
pub open spec fn fxs_mul(a: int, b: int) -> int {
    clip(tdiv(a * b, SCALE as int))
}

/// Raw result of dividing raw value `a` by raw value `b` (`b != 0`).
pub open spec fn fxs_div(a: int, b: int) -> int {
    clip(tdiv(a * (SCALE as int), b))
}

/// The floor of the square root of a non-negative integer.
pub open spec fn sqrt_floor(n: int) -> int {
    choose|r: int| 0 <= r && #[trigger] (r * r) <= n && n < (r + 1) * (r + 1)
}

/// Raw result of the square root of a non-negative raw value.
pub open spec fn fxs_sqrt(x: int) -> int {
    sqrt_floor(x * (SCALE as int))
}

/// A fixed-point scalar.
#[derive(Clone, Copy, Debug, PartialEq, Eq, Structural)]
pub struct Fx {
    pub raw: i64,
}

/// Two integers both satisfying the floor-square-root property are equal.
proof fn lemma_sqrt_floor_unique(n: int, r1: int, r2: int)
    by (nonlinear_arith)
    requires
        0 <= r1 && r1 * r1 <= n && n < (r1 + 1) * (r1 + 1),
        0 <= r2 && r2 * r2 <= n && n < (r2 + 1) * (r2 + 1),
    ensures
        r1 == r2,
{
}

/// `sqrt_floor(n)` equals any witness of the floor-square-root property.
pub proof fn lemma_sqrt_floor_is(n: int, r: int)
    requires
        0 <= r && r * r <= n && n < (r + 1) * (r + 1),
    ensures
        sqrt_floor(n) == r,
{
    let c = choose|c: int| 0 <= c && #[trigger] (c * c) <= n && n < (c + 1) * (c + 1);
    lemma_sqrt_floor_unique(n, c, r);
}

/// Every non-negative integer has a floor square root, so `sqrt_floor`
/// satisfies its defining property.
pub proof fn lemma_sqrt_floor_bounds(n: int)
    requires
        n >= 0,
    ensures
        0 <= sqrt_floor(n),
        sqrt_floor(n) * sqrt_floor(n) <= n,
        n < (sqrt_floor(n) + 1) * (sqrt_floor(n) + 1),
    decreases n,
{
    if n == 0 {
        lemma_sqrt_floor_is(0, 0);
    } else {
        lemma_sqrt_floor_bounds(n - 1);
        let r = sqrt_floor(n - 1);
        if (r + 1) * (r + 1) <= n {
            assert(n < (r + 2) * (r + 2)) by (nonlinear_arith)
                requires
                    n - 1 < (r + 1) * (r + 1),
                    0 <= r,
            ;
            lemma_sqrt_floor_is(n, r + 1);
        } else {
            lemma_sqrt_floor_is(n, r);
        }
    }
}

/// The product of two integers bounded in magnitude is bounded by the
/// product of the bounds.
pub proof fn lemma_mul_range(a: int, b: int, ab: int, bb: int)
    by (nonlinear_arith)
    requires
        -ab <= a <= ab,
        -bb <= b <= bb,
        0 <= ab,
        0 <= bb,
    ensures
        -(ab * bb) <= a * b <= ab * bb,
{
}

/// Clip a wide intermediate result back into the raw range.
pub(crate) fn clip_to_i64(v: i128) -> (r: i64)
    ensures
        r as int == clip(v as int),
{
    if v > FX_MAX as i128 {
        FX_MAX
    } else if v < -(FX_MAX as i128) {
        -FX_MAX
    } else {
        v as i64
    }
}

/// Floor of the square root of a `u64`, by binary search.
pub fn isqrt_u64(n: u64) -> (r: u64)
    ensures
        (r as int) * (r as int) <= n as int,
        (n as int) < (r as int + 1) * (r as int + 1),
        r <= 0xFFFF_FFFF,
{
    let mut lo: u64 = 0;
    let mut hi: u64 = 0x1_0000_0000;
    proof {
        assert((n as int) < 0x1_0000_0000 * 0x1_0000_0000);
    }
    while lo + 1 < hi
        invariant
            lo < hi,
            hi <= 0x1_0000_0000,
            (lo as int) * (lo as int) <= n as int,
            (n as int) < (hi as int) * (hi as int),
        decreases hi - lo,
    {
        let mid = lo + (hi - lo) / 2;
        proof {
            assert(lo < mid < hi);
            assert((mid as int) * (mid as int) <= 0xFFFF_FFFF * 0xFFFF_FFFF)
                by (nonlinear_arith)
                requires
                    0 <= mid <= 0xFFFF_FFFF,
            ;
        }
        if mid * mid <= n {
            lo = mid;
        } else {
            hi = mid;
        }
    }
    lo
}

impl Fx {
    /// The raw value lies in the representable range.
    pub open spec fn ok(self) -> bool {
        -FX_MAX <= self.raw <= FX_MAX
    }

    /// The scalar zero.
    pub fn zero() -> (r: Fx)
        ensures
            r.raw == 0,
            r.ok(),
    {
        Fx { raw: 0 }
    }

    /// The scalar one.
    pub fn one() -> (r: Fx)
        ensures
            r.raw == SCALE,
            r.ok(),
    {
        Fx { raw: SCALE }
    }

    /// A scalar from a raw (already scaled) value.
    pub fn from_raw(raw: i64) -> (r: Fx)
        requires
            -FX_MAX <= raw <= FX_MAX,
        ensures
            r.raw == raw,
            r.ok(),
    {
        Fx { raw }
    }

    /// The scalar denoting the integer `v`.
    pub fn from_int(v: i32) -> (r: Fx)
        requires
            -0x4000_0000 <= v <= 0x4000_0000,
        ensures
            r.raw == v * SCALE,
            r.ok(),
    {
        Fx { raw: (v as i64) * SCALE }
    }

    /// Fixed-point addition, clipped into range.
    pub fn add(self, other: Fx) -> (r: Fx)
        requires
            self.ok(),
            other.ok(),
        ensures
            r.raw == fxs_add(self.raw as int, other.raw as int),
            r.ok(),
    {
        let s: i128 = self.raw as i128 + other.raw as i128;
        Fx { raw: clip_to_i64(s) }
    }

    /// Fixed-point subtraction, clipped into range.
    pub fn sub(self, other: Fx) -> (r: Fx)
        requires
            self.ok(),
            other.ok(),
        ensures
            r.raw == fxs_sub(self.raw as int, other.raw as int),
            r.ok(),
    {
        let s: i128 = self.raw as i128 - other.raw as i128;
        Fx { raw: clip_to_i64(s) }
    }

    /// Fixed-point negation (exact: the range is symmetric).
    pub fn neg(self) -> (r: Fx)
        requires
            self.ok(),
        ensures
            r.raw == -self.raw,
            r.ok(),
    {
        Fx { raw: -self.raw }
    }

    /// Fixed-point multiplication, truncated toward zero and clipped.
    pub fn mul(self, other: Fx) -> (r: Fx)
        requires
            self.ok(),
            other.ok(),
        ensures
            r.raw == fxs_mul(self.raw as int, other.raw as int),
            r.ok(),
    {
        proof {
            lemma_mul_range(self.raw as int, other.raw as int, FX_MAX as int, FX_MAX as int);
        }
        let p: i128 = (self.raw as i128) * (other.raw as i128);
        let q: i128 = p / (SCALE as i128);
        Fx { raw: clip_to_i64(q) }
    }

    /// Fixed-point division, truncated toward zero and clipped.
    pub fn div(self, other: Fx) -> (r: Fx)
        requires
            self.ok(),
            other.ok(),
            other.raw != 0,
        ensures
            r.raw == fxs_div(self.raw as int, other.raw as int),
            r.ok(),
    {
        let n: i128 = (self.raw as i128) * (SCALE as i128);
        let na: u128 = if n >= 0 {
            n as u128
        } else {
            (-n) as u128
        };
        let nb: u128 = if other.raw >= 0 {
            other.raw as u128
        } else {
            (-(other.raw as i128)) as u128
        };
        let m: u128 = na / nb;
        let q: i128 = if (self.raw < 0) != (other.raw < 0) {
            -(m as i128)
        } else {
            m as i128
        };
        proof {
            assert(na as int == iabs(n as int));
            assert(nb as int == iabs(other.raw as int));
            assert(m as int <= na as int) by (nonlinear_arith)
                requires
                    m as int == (na as int) / (nb as int),
                    nb as int >= 1,
                    na as int >= 0,
            ;
            assert(q as int == tdiv(n as int, other.raw as int));
        }
        Fx { raw: clip_to_i64(q) }
    }

    /// Fixed-point square root of a non-negative scalar.
    pub fn sqrt_fx(self) -> (r: Fx)
        requires
            self.ok(),
            self.raw >= 0,
        ensures
            r.raw == fxs_sqrt(self.raw as int),
            r.raw >= 0,
            r.ok(),
    {
        proof {
            assert((self.raw as int) * (SCALE as int) <= 0x4000_0000_0000 * 65536)
                by (nonlinear_arith)
                requires
                    0 <= self.raw <= 0x4000_0000_0000,
            ;
        }
        let n: u64 = (self.raw as u64) * (SCALE as u64);
        let s = isqrt_u64(n);
        proof {
            lemma_sqrt_floor_is(n as int, s as int);
        }
        Fx { raw: s as i64 }
    }
}

} // verus!
