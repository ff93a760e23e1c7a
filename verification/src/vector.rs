//! Three-component fixed-point vectors: the geometry carrier of the tracer.
//!
//! Every executable operation is pinned to a spec-level mirror (`sv_*`) that
//! states the exact raw values of the result, so callers can reason about
//! vector arithmetic as pure integer functions.

use vstd::prelude::*;

use crate::fixed::{clip, fxs_add, fxs_div, fxs_mul, fxs_sqrt, fxs_sub, tdiv, Fx, SCALE};

verus! {

/// A vector of three fixed-point components.
#[derive(Clone, Copy, Debug, PartialEq, Eq, Structural)]
pub struct Vector3 {
    pub x: Fx,
    pub y: Fx,
    pub z: Fx,
}

/// Spec mirror of component-wise addition.
pub open spec fn sv_add(a: Vector3, b: Vector3) -> Vector3 {
    Vector3 {
        x: Fx { raw: fxs_add(a.x.raw as int, b.x.raw as int) as i64 },
        y: Fx { raw: fxs_add(a.y.raw as int, b.y.raw as int) as i64 },
        z: Fx { raw: fxs_add(a.z.raw as int, b.z.raw as int) as i64 },
    }
}

/// Spec mirror of component-wise subtraction.
pub open spec fn sv_sub(a: Vector3, b: Vector3) -> Vector3 {
    Vector3 {
        x: Fx { raw: fxs_sub(a.x.raw as int, b.x.raw as int) as i64 },
        y: Fx { raw: fxs_sub(a.y.raw as int, b.y.raw as int) as i64 },
        z: Fx { raw: fxs_sub(a.z.raw as int, b.z.raw as int) as i64 },
    }
}

/// Spec mirror of negation.
pub open spec fn sv_neg(a: Vector3) -> Vector3 {
    Vector3 {
        x: Fx { raw: (-a.x.raw) as i64 },
        y: Fx { raw: (-a.y.raw) as i64 },
        z: Fx { raw: (-a.z.raw) as i64 },
    }
}

/// Spec mirror of scaling by a scalar.
pub open spec fn sv_scale(a: Vector3, s: Fx) -> Vector3 {
    Vector3 {
        x: Fx { raw: fxs_mul(a.x.raw as int, s.raw as int) as i64 },
        y: Fx { raw: fxs_mul(a.y.raw as int, s.raw as int) as i64 },
        z: Fx { raw: fxs_mul(a.z.raw as int, s.raw as int) as i64 },
    }
}

/// Spec mirror of the dot product: the three component products are summed
/// in full precision and divided by `SCALE` once.
pub open spec fn sv_dot(a: Vector3, b: Vector3) -> int {
    clip(
        tdiv(
            a.x.raw * b.x.raw + a.y.raw * b.y.raw + a.z.raw * b.z.raw,
            SCALE as int,
        ),
    )
}

/// Spec mirror of the squared-length-based vector length.
pub open spec fn sv_len(a: Vector3) -> int {
    fxs_sqrt(sv_dot(a, a))
}

/// Spec mirror of normalization: each component divided by the length.
pub open spec fn sv_normalize(a: Vector3) -> Vector3 {
    let l = sv_len(a);
    Vector3 {
        x: Fx { raw: fxs_div(a.x.raw as int, l) as i64 },
        y: Fx { raw: fxs_div(a.y.raw as int, l) as i64 },
        z: Fx { raw: fxs_div(a.z.raw as int, l) as i64 },
    }
}

/// Spec mirror of reflection about a normal: `v - n * (2 * dot(v, n))`.
pub open spec fn sv_reflect(v: Vector3, n: Vector3) -> Vector3 {
    let d = sv_dot(v, n);
    let two_d = Fx { raw: fxs_add(d, d) as i64 };
    sv_sub(v, sv_scale(n, two_d))
}

/// Spec mirror of the refraction discriminant
/// `1 - eta^2 * (1 - dot(v, n)^2)`.
pub open spec fn sv_refract_disc(v: Vector3, n: Vector3, eta: Fx) -> int {
    let d = sv_dot(v, n);
    fxs_sub(
        SCALE as int,
        fxs_mul(
            fxs_mul(eta.raw as int, eta.raw as int),
            fxs_sub(SCALE as int, fxs_mul(d, d)),
        ),
    )
}

/// Spec mirror of refraction: Snell's law when the discriminant is positive,
/// reflection otherwise (total internal reflection).
pub open spec fn sv_refract(v: Vector3, n: Vector3, eta: Fx) -> Vector3 {
    let d = sv_dot(v, n);
    let disc = sv_refract_disc(v, n, eta);
    if 0 < disc {
        let a = sv_scale(sv_sub(v, sv_scale(n, Fx { raw: d as i64 })), eta);
        let b = sv_scale(n, Fx { raw: fxs_sqrt(disc) as i64 });
        sv_sub(a, b)
    } else {
        sv_reflect(v, n)
    }
}

/// When refraction is physically impossible (non-positive discriminant),
/// the refraction result is exactly the reflection result: total internal
/// reflection falls back to a pure specular bounce.
pub proof fn lemma_total_internal_reflection(v: Vector3, n: Vector3, eta: Fx)
    requires
        sv_refract_disc(v, n, eta) <= 0,
    ensures
        sv_refract(v, n, eta) == sv_reflect(v, n),
{
}

/// Spec mirror of the cross product.
pub open spec fn sv_cross(a: Vector3, b: Vector3) -> Vector3 {
    Vector3 {
        x: Fx {
            raw: fxs_sub(
                fxs_mul(a.y.raw as int, b.z.raw as int),
                fxs_mul(a.z.raw as int, b.y.raw as int),
            ) as i64,
        },
        y: Fx {
            raw: fxs_sub(
                fxs_mul(a.z.raw as int, b.x.raw as int),
                fxs_mul(a.x.raw as int, b.z.raw as int),
            ) as i64,
        },
        z: Fx {
            raw: fxs_sub(
                fxs_mul(a.x.raw as int, b.y.raw as int),
                fxs_mul(a.y.raw as int, b.x.raw as int),
            ) as i64,
        },
    }
}

/// A successful hemisphere sample: `r` is the normalization (possibly
/// negated, to flip it onto the hemisphere) of a cube draw `c` that lies
/// strictly inside the unit ball and is long enough to normalize.
pub open spec fn hemisphere_draw(c: Vector3, r: Vector3) -> bool {
    &&& c.wf()
    &&& 0 < sv_len(c) < SCALE
    &&& (r == sv_normalize(c) || r == sv_neg(sv_normalize(c)))
}

/// Negating a vector negates its dot product with any other vector.
pub proof fn lemma_dot_neg(a: Vector3, b: Vector3)
    requires
        a.wf(),
    ensures
        sv_dot(sv_neg(a), b) == -sv_dot(a, b),
{
    assert((-(a.x.raw as int)) * (b.x.raw as int) == -((a.x.raw as int) * (b.x.raw as int)))
        by (nonlinear_arith);
    assert((-(a.y.raw as int)) * (b.y.raw as int) == -((a.y.raw as int) * (b.y.raw as int)))
        by (nonlinear_arith);
    assert((-(a.z.raw as int)) * (b.z.raw as int) == -((a.z.raw as int) * (b.z.raw as int)))
        by (nonlinear_arith);
}

impl Vector3 {
    /// All three components lie in the representable scalar range.
    pub open spec fn wf(self) -> bool {
        self.x.ok() && self.y.ok() && self.z.ok()
    }

    /// A vector from three scalars.
    pub fn new(x: Fx, y: Fx, z: Fx) -> (r: Vector3)
        ensures
            r == (Vector3 { x, y, z }),
    {
        Vector3 { x, y, z }
    }

    /// The first component.
    pub fn x(&self) -> (r: Fx)
        ensures
            r == self.x,
    {
        self.x
    }

    /// The second component.
    pub fn y(&self) -> (r: Fx)
        ensures
            r == self.y,
    {
        self.y
    }

    /// The third component.
    pub fn z(&self) -> (r: Fx)
        ensures
            r == self.z,
    {
        self.z
    }

    /// The zero vector.
    pub fn zero() -> (r: Vector3)
        ensures
            r.x.raw == 0 && r.y.raw == 0 && r.z.raw == 0,
            r.wf(),
    {
        Vector3 { x: Fx { raw: 0 }, y: Fx { raw: 0 }, z: Fx { raw: 0 } }
    }

    /// Component-wise addition.
    pub fn add(self, other: Vector3) -> (r: Vector3)
        requires
            self.wf(),
            other.wf(),
        ensures
            r == sv_add(self, other),
            r.wf(),
    {
        Vector3 { x: self.x.add(other.x), y: self.y.add(other.y), z: self.z.add(other.z) }
    }

    /// Component-wise subtraction.
    pub fn sub(self, other: Vector3) -> (r: Vector3)
        requires
            self.wf(),
            other.wf(),
        ensures
            r == sv_sub(self, other),
            r.wf(),
    {
        Vector3 { x: self.x.sub(other.x), y: self.y.sub(other.y), z: self.z.sub(other.z) }
    }

    /// Negation.
    pub fn neg(self) -> (r: Vector3)
        requires
            self.wf(),
        ensures
            r == sv_neg(self),
            r.wf(),
    {
        Vector3 { x: self.x.neg(), y: self.y.neg(), z: self.z.neg() }
    }

    /// Scaling by a scalar.
    pub fn scale(self, s: Fx) -> (r: Vector3)
        requires
            self.wf(),
            s.ok(),
        ensures
            r == sv_scale(self, s),
            r.wf(),
    {
        Vector3 { x: self.x.mul(s), y: self.y.mul(s), z: self.z.mul(s) }
    }

    /// Dot product.
    pub fn dot(self, other: Vector3) -> (r: Fx)
        requires
            self.wf(),
            other.wf(),
        ensures
            r.raw == sv_dot(self, other),
            r.ok(),
    {
        proof {
            crate::fixed::lemma_mul_range(
                self.x.raw as int,
                other.x.raw as int,
                crate::fixed::FX_MAX as int,
                crate::fixed::FX_MAX as int,
            );
            crate::fixed::lemma_mul_range(
                self.y.raw as int,
                other.y.raw as int,
                crate::fixed::FX_MAX as int,
                crate::fixed::FX_MAX as int,
            );
            crate::fixed::lemma_mul_range(
                self.z.raw as int,
                other.z.raw as int,
                crate::fixed::FX_MAX as int,
                crate::fixed::FX_MAX as int,
            );
        }
        let px: i128 = (self.x.raw as i128) * (other.x.raw as i128);
        let py: i128 = (self.y.raw as i128) * (other.y.raw as i128);
        let pz: i128 = (self.z.raw as i128) * (other.z.raw as i128);
        let s: i128 = px + py + pz;
        let q: i128 = if s >= 0 {
            ((s as u128) / (SCALE as u128)) as i128
        } else {
            -((((-s) as u128) / (SCALE as u128)) as i128)
        };
        Fx { raw: crate::fixed::clip_to_i64(q) }
    }

    /// Length: the square root of the dot product with itself.
    pub fn len(self) -> (r: Fx)
        requires
            self.wf(),
        ensures
            r.raw == sv_len(self),
            r.raw >= 0,
            r.ok(),
    {
        let d = self.dot(self);
        proof {
            assert(self.x.raw * self.x.raw >= 0) by (nonlinear_arith);
            assert(self.y.raw * self.y.raw >= 0) by (nonlinear_arith);
            assert(self.z.raw * self.z.raw >= 0) by (nonlinear_arith);
        }
        d.sqrt_fx()
    }

    /// Normalization. The caller must have checked that the computed length
    /// is non-zero (a near-zero vector is degenerate geometry and is handled
    /// by each call site).
    pub fn normalize(self) -> (r: Vector3)
        requires
            self.wf(),
            sv_len(self) > 0,
        ensures
            r == sv_normalize(self),
            r.wf(),
    {
        let l = self.len();
        Vector3 { x: self.x.div(l), y: self.y.div(l), z: self.z.div(l) }
    }

    /// Reflection about a normal: `v - n * (2 * dot(v, n))`.
    pub fn reflect(self, normal: Vector3) -> (r: Vector3)
        requires
            self.wf(),
            normal.wf(),
        ensures
            r == sv_reflect(self, normal),
            r.wf(),
    {
        let d = self.dot(normal);
        let two_d = d.add(d);
        self.sub(normal.scale(two_d))
    }

    /// Cross product.
    pub fn cross(self, other: Vector3) -> (r: Vector3)
        requires
            self.wf(),
            other.wf(),
        ensures
            r == sv_cross(self, other),
            r.wf(),
    {
        Vector3 {
            x: self.y.mul(other.z).sub(self.z.mul(other.y)),
            y: self.z.mul(other.x).sub(self.x.mul(other.z)),
            z: self.x.mul(other.y).sub(self.y.mul(other.x)),
        }
    }

    /// Refraction by Snell's law with index ratio `eta`, falling back to
    /// reflection when the discriminant is non-positive (total internal
    /// reflection).
    pub fn refract(self, normal: Vector3, eta: Fx) -> (r: Vector3)
        requires
            self.wf(),
            normal.wf(),
            eta.ok(),
        ensures
            r == sv_refract(self, normal, eta),
            r.wf(),
    {
        let d = self.dot(normal);
        let one = Fx::one();
        let disc = one.sub(eta.mul(eta).mul(one.sub(d.mul(d))));
        if 0 < disc.raw {
            let a = self.sub(normal.scale(d)).scale(eta);
            let b = normal.scale(disc.sqrt_fx());
            a.sub(b)
        } else {
            self.reflect(normal)
        }
    }

    /// Sample a direction uniformly over the hemisphere about `self` by
    /// rejection: draw a point in the unit cube, reject it unless it lies
    /// strictly inside the unit ball (and is long enough to normalize),
    /// normalize it, and flip it to the side whose dot product with `self`
    /// is non-negative. The number of draws is bounded; if every draw is
    /// rejected (astronomically unlikely), the zero vector is returned and
    /// the caller's degenerate-direction handling takes over.
    pub fn random_hemisphere(self, rng: &mut crate::rng::Rng) -> (r: Vector3)
        requires
            self.wf(),
        ensures
            r.wf(),
            sv_dot(r, self) >= 0,
            r == (Vector3 { x: Fx { raw: 0 }, y: Fx { raw: 0 }, z: Fx { raw: 0 } }) || exists|
                c: Vector3,
            | #[trigger] hemisphere_draw(c, r),
    {
        let mut attempts: u32 = 0;
        while attempts < 1000
            invariant
                self.wf(),
            decreases 1000 - attempts,
        {
            let dir = Vector3 {
                x: rng.symmetric_unit(),
                y: rng.symmetric_unit(),
                z: rng.symmetric_unit(),
            };
            let l = dir.len();
            if 0 < l.raw && l.raw < SCALE {
                let d = dir.normalize();
                if d.dot(self).raw < 0 {
                    proof {
                        lemma_dot_neg(d, self);
                    }
                    let flipped = d.neg();
                    proof {
                        assert(hemisphere_draw(dir, flipped));
                    }
                    return flipped;
                }
                proof {
                    assert(hemisphere_draw(dir, d));
                }
                return d;
            }
            attempts = attempts + 1;
        }
        Vector3::zero()
    }
}

} // verus!
