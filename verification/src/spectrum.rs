//! Radiance values and display colors.
//!
//! A `Spectrum` carries three independent non-negative energy channels in the
//! same fixed-point scale as the geometry scalars. Energy is unbounded during
//! accumulation in principle; here every operation saturates at a huge cap
//! (`RADIANCE_MAX`, 2^44 in denoted value) so that all operations are total.
//! The display conversion applies the inverse-gamma curve `x^(1/2.2)` exactly
//! on an 8-bit quantization of the channel and clamps to the 8-bit range.

use vstd::prelude::*;

use crate::fixed::{tdiv, Fx, SCALE};

verus! {

/// Saturation cap of a radiance channel, in raw units (2^60).
pub const RADIANCE_MAX: i64 = 0x1000_0000_0000_0000;

/// Clamp a channel value into `[0, RADIANCE_MAX]`.
pub open spec fn sat(v: int) -> int {
    if v < 0 {
        0
    } else if v > RADIANCE_MAX {
        RADIANCE_MAX as int
    } else {
        v
    }
}

/// Raw result of adding two channel values.
pub open spec fn ss_add(a: int, b: int) -> int {
    sat(a + b)
}

/// Raw result of multiplying two channel values (or a channel by a scalar).
pub open spec fn ss_mul(a: int, b: int) -> int {
    sat(tdiv(a * b, SCALE as int))
}

/// Fifth power, associated as the executable code computes it.
pub open spec fn pow5(x: int) -> int {
    ((x * x) * (x * x)) * x
}

/// Eleventh power, associated as the executable code computes it.
pub open spec fn pow11(x: int) -> int {
    ((((x * x) * (x * x)) * ((x * x) * (x * x))) * (x * x)) * x
}

/// Display-gamma ordering: `k/255 <= (q/256)^(5/11)`, stated without roots as
/// `k^11 * 256^5 <= 255^11 * q^5`.
pub open spec fn gamma_le(q: int, k: int) -> bool {
    pow11(k) * 0x100_0000_0000 <= pow11(255) * pow5(q)
}

/// Spec mirror of channel-wise saturating addition of two radiance values.
pub open spec fn ss_add3(a: Spectrum, b: Spectrum) -> Spectrum {
    Spectrum {
        r: ss_add(a.r as int, b.r as int) as i64,
        g: ss_add(a.g as int, b.g as int) as i64,
        b: ss_add(a.b as int, b.b as int) as i64,
    }
}

/// Spec mirror of channel-wise saturating multiplication of two radiance
/// values.
pub open spec fn ss_mul3(a: Spectrum, b: Spectrum) -> Spectrum {
    Spectrum {
        r: ss_mul(a.r as int, b.r as int) as i64,
        g: ss_mul(a.g as int, b.g as int) as i64,
        b: ss_mul(a.b as int, b.b as int) as i64,
    }
}

/// Spec mirror of uniform saturating scaling of a radiance value.
pub open spec fn ss_scale3(a: Spectrum, s: Fx) -> Spectrum {
    Spectrum {
        r: ss_mul(a.r as int, s.raw as int) as i64,
        g: ss_mul(a.g as int, s.raw as int) as i64,
        b: ss_mul(a.b as int, s.raw as int) as i64,
    }
}

/// The product of two unit-range channel values stays in unit range.
pub proof fn lemma_ss_mul_unit(a: int, b: int)
    requires
        0 <= a <= SCALE,
        0 <= b <= SCALE,
    ensures
        0 <= ss_mul(a, b) <= SCALE,
{
    crate::fixed::lemma_mul_range(a, b, SCALE as int, SCALE as int);
    assert(a * b >= 0) by (nonlinear_arith)
        requires
            a >= 0,
            b >= 0,
    ;
    assert((a * b) / (SCALE as int) <= (65536int * 65536int) / (SCALE as int));
}

/// The average of an accumulated radiance over `n` samples (at least one
/// divisor is used even before any sample has been taken).
pub open spec fn spec_avg(s: Spectrum, n: int) -> Spectrum {
    let d = if n < 1 {
        1int
    } else {
        n
    };
    Spectrum { r: (s.r as int / d) as i64, g: (s.g as int / d) as i64, b: (s.b as int / d) as i64 }
}

/// The display-conversion contract relating a radiance value to a color:
/// each channel at or above full scale maps to 255; below it, the byte is
/// the largest one whose gamma curve value does not exceed the quantized
/// channel.
pub open spec fn color_matches(s: Spectrum, c: Color) -> bool {
    &&& (s.r >= SCALE ==> c.r == 255)
    &&& (s.r < SCALE ==> gamma_le(s.r as int / 256, c.r as int) && (c.r == 255 || !gamma_le(
        s.r as int / 256,
        c.r as int + 1,
    )))
    &&& (s.g >= SCALE ==> c.g == 255)
    &&& (s.g < SCALE ==> gamma_le(s.g as int / 256, c.g as int) && (c.g == 255 || !gamma_le(
        s.g as int / 256,
        c.g as int + 1,
    )))
    &&& (s.b >= SCALE ==> c.b == 255)
    &&& (s.b < SCALE ==> gamma_le(s.b as int / 256, c.b as int) && (c.b == 255 || !gamma_le(
        s.b as int / 256,
        c.b as int + 1,
    )))
}

/// Channel-wise ordering of radiance values.
pub open spec fn spectrum_ge(a: Spectrum, b: Spectrum) -> bool {
    a.r >= b.r && a.g >= b.g && a.b >= b.b
}

/// A display-ready 8-bit color.
#[derive(Clone, Copy, Debug, PartialEq, Eq, Structural, Default)]
pub struct Color {
    pub r: u8,
    pub g: u8,
    pub b: u8,
}

/// A radiance value: three non-negative fixed-point energy channels.
#[derive(Clone, Copy, Debug, PartialEq, Eq, Structural)]
pub struct Spectrum {
    pub r: i64,
    pub g: i64,
    pub b: i64,
}

/// Saturating `a + b` on channel values.
fn sat_add_raw(a: i64, b: i64) -> (r: i64)
    requires
        0 <= a <= RADIANCE_MAX,
        0 <= b <= RADIANCE_MAX,
    ensures
        r == ss_add(a as int, b as int),
        0 <= r <= RADIANCE_MAX,
{
    let s: i64 = a + b;
    if s > RADIANCE_MAX {
        RADIANCE_MAX
    } else {
        s
    }
}

/// Saturating fixed-point `a * b` on non-negative values.
fn sat_mul_raw(a: i64, b: i64) -> (r: i64)
    requires
        0 <= a,
        0 <= b,
    ensures
        r == ss_mul(a as int, b as int),
        0 <= r <= RADIANCE_MAX,
{
    proof {
        crate::fixed::lemma_mul_range(a as int, b as int, 0x7FFF_FFFF_FFFF_FFFF, 0x7FFF_FFFF_FFFF_FFFF);
    }
    let p: u128 = (a as u128) * (b as u128);
    let q: u128 = p / (SCALE as u128);
    if q > RADIANCE_MAX as u128 {
        RADIANCE_MAX
    } else {
        q as i64
    }
}

/// Fifth power of a byte-range value, in wide arithmetic.
fn pow5_u128(x: u128) -> (r: u128)
    requires
        x <= 255,
    ensures
        r == pow5(x as int),
        r < 0x100_0000_0000,
{
    proof {
        crate::fixed::lemma_mul_range(x as int, x as int, 255, 255);
        crate::fixed::lemma_mul_range(x as int * x as int, x as int * x as int, 65025, 65025);
        crate::fixed::lemma_mul_range(
            (x as int * x as int) * (x as int * x as int),
            x as int,
            4228250625,
            255,
        );
    }
    let x2: u128 = x * x;
    let x4: u128 = x2 * x2;
    x4 * x
}

/// Eleventh power of a byte-range value, in wide arithmetic.
fn pow11_u128(x: u128) -> (r: u128)
    requires
        x <= 255,
    ensures
        r == pow11(x as int),
        r < 0x100_0000_0000_0000_0000_0000,
{
    proof {
        let xi = x as int;
        crate::fixed::lemma_mul_range(xi, xi, 255, 255);
        crate::fixed::lemma_mul_range(xi * xi, xi * xi, 65025, 65025);
        crate::fixed::lemma_mul_range(
            (xi * xi) * (xi * xi),
            (xi * xi) * (xi * xi),
            4228250625,
            4228250625,
        );
        crate::fixed::lemma_mul_range(
            ((xi * xi) * (xi * xi)) * ((xi * xi) * (xi * xi)),
            xi * xi,
            17878103347812890625,
            65025,
        );
        crate::fixed::lemma_mul_range(
            (((xi * xi) * (xi * xi)) * ((xi * xi) * (xi * xi))) * (xi * xi),
            xi,
            1162523670191533212890625,
            255,
        );
        crate::fixed::lemma_mul_range(xi * xi, xi, 65025, 255);
    }
    let x2: u128 = x * x;
    let x4: u128 = x2 * x2;
    let x8: u128 = x4 * x4;
    (x8 * x2) * x
}

/// Map one radiance channel to its display byte: the largest `k <= 255` with
/// `k/255 <= (q/256)^(5/11)` for the quantized channel `q`, and 255 for any
/// channel at or above full scale.
fn gamma_map(c: i64) -> (out: u8)
    requires
        0 <= c <= RADIANCE_MAX,
    ensures
        c >= SCALE ==> out == 255,
        c < SCALE ==> gamma_le(c as int / 256, out as int),
        c < SCALE ==> (out == 255 || !gamma_le(c as int / 256, out as int + 1)),
{
    if c >= SCALE {
        return 255;
    }
    let q: u128 = (c / 256) as u128;
    let q5 = pow5_u128(q);
    let base = pow11_u128(255);
    proof {
        crate::fixed::lemma_mul_range(
            base as int,
            q5 as int,
            0xFF_FFFF_FFFF_FFFF_FFFF_FFFF,
            0xFF_FFFF_FFFF,
        );
    }
    let rhs: u128 = base * q5;
    let mut k: u16 = 255;
    while k > 0
        invariant
            k <= 255,
            0 <= c < SCALE,
            rhs == pow11(255) * pow5(c as int / 256),
            forall|j: int| k < j <= 255 ==> !#[trigger] gamma_le(c as int / 256, j),
        decreases k,
    {
        let k11 = pow11_u128(k as u128);
        proof {
            assert((k11 as int) * 0x100_0000_0000 <= 0xFF_FFFF_FFFF_FFFF_FFFF_FFFF
                * 0x100_0000_0000);
        }
        let lhs: u128 = k11 * 0x100_0000_0000;
        if lhs <= rhs {
            proof {
                assert(gamma_le(c as int / 256, k as int));
            }
            return k as u8;
        }
        k = k - 1;
    }
    proof {
        assert(pow11(0) == 0);
        assert(pow11(255) * pow5(c as int / 256) == rhs as int);
        assert(gamma_le(c as int / 256, 0));
    }
    0
}

impl Spectrum {
    /// All three channels are non-negative and under the saturation cap.
    pub open spec fn wf(self) -> bool {
        0 <= self.r <= RADIANCE_MAX && 0 <= self.g <= RADIANCE_MAX && 0 <= self.b
            <= RADIANCE_MAX
    }

    /// The zero radiance (black).
    pub fn black() -> (r: Spectrum)
        ensures
            r.r == 0 && r.g == 0 && r.b == 0,
            r.wf(),
    {
        Spectrum { r: 0, g: 0, b: 0 }
    }

    /// A radiance from three raw channel values.
    pub fn new(r: i64, g: i64, b: i64) -> (s: Spectrum)
        requires
            0 <= r <= RADIANCE_MAX,
            0 <= g <= RADIANCE_MAX,
            0 <= b <= RADIANCE_MAX,
        ensures
            s == (Spectrum { r, g, b }),
            s.wf(),
    {
        Spectrum { r, g, b }
    }

    /// Energy superposition: channel-wise saturating addition.
    pub fn add(self, other: Spectrum) -> (r: Spectrum)
        requires
            self.wf(),
            other.wf(),
        ensures
            r == ss_add3(self, other),
            r.wf(),
    {
        Spectrum {
            r: sat_add_raw(self.r, other.r),
            g: sat_add_raw(self.g, other.g),
            b: sat_add_raw(self.b, other.b),
        }
    }

    /// Albedo modulation: channel-wise saturating multiplication.
    pub fn mul(self, other: Spectrum) -> (r: Spectrum)
        requires
            self.wf(),
            other.wf(),
        ensures
            r == ss_mul3(self, other),
            r.wf(),
    {
        Spectrum {
            r: sat_mul_raw(self.r, other.r),
            g: sat_mul_raw(self.g, other.g),
            b: sat_mul_raw(self.b, other.b),
        }
    }

    /// Uniform scaling by a non-negative scalar.
    pub fn scale(self, s: Fx) -> (r: Spectrum)
        requires
            self.wf(),
            s.ok(),
            s.raw >= 0,
        ensures
            r == ss_scale3(self, s),
            r.wf(),
    {
        Spectrum {
            r: sat_mul_raw(self.r, s.raw),
            g: sat_mul_raw(self.g, s.raw),
            b: sat_mul_raw(self.b, s.raw),
        }
    }

    /// Channel-wise division by a positive sample count (for averaging).
    pub fn avg_div(self, n: i64) -> (r: Spectrum)
        requires
            self.wf(),
            n >= 1,
        ensures
            r.r == self.r as int / n as int,
            r.g == self.g as int / n as int,
            r.b == self.b as int / n as int,
            r.wf(),
    {
        proof {
            assert(self.r as int / n as int <= self.r) by (nonlinear_arith)
                requires
                    n >= 1,
                    self.r >= 0,
            ;
            assert(self.g as int / n as int <= self.g) by (nonlinear_arith)
                requires
                    n >= 1,
                    self.g >= 0,
            ;
            assert(self.b as int / n as int <= self.b) by (nonlinear_arith)
                requires
                    n >= 1,
                    self.b >= 0,
            ;
        }
        Spectrum { r: self.r / n, g: self.g / n, b: self.b / n }
    }

    /// The display color of this radiance: each channel mapped through the
    /// inverse-gamma curve and quantized to a byte.
    pub fn to_color(self) -> (c: Color)
        requires
            self.wf(),
        ensures
            color_matches(self, c),
    {
        Color { r: gamma_map(self.r), g: gamma_map(self.g), b: gamma_map(self.b) }
    }
}

} // verus!
