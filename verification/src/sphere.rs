//! Sphere primitive.

use vstd::prelude::*;

use crate::fixed::{fxs_add, fxs_mul, fxs_sqrt, fxs_sub, lemma_sqrt_floor_bounds, tdiv, Fx,
    SCALE};
use crate::intersect::{hit_wf, Intersectable, Intersection};
use crate::material::Material;
use crate::ray::Ray;
use crate::vector::{sv_add, sv_dot, sv_len, sv_normalize, sv_scale, sv_sub, Vector3};

verus! {

/// A sphere: center, radius and material.
#[derive(Clone, Copy, Debug, PartialEq, Eq, Structural)]
pub struct Sphere {
    pub center: Vector3,
    pub radius: Fx,
    pub material: Material,
}

/// The quadratic's linear coefficient: `dot(dir, origin - center)`.
pub open spec fn sphere_b(s: Sphere, ray: Ray) -> int {
    sv_dot(ray.dir, sv_sub(ray.origin, s.center))
}

/// The quadratic's constant coefficient: `|origin - center|^2 - radius^2`.
pub open spec fn sphere_c(s: Sphere, ray: Ray) -> int {
    let v = sv_sub(ray.origin, s.center);
    fxs_sub(sv_dot(v, v), fxs_mul(s.radius.raw as int, s.radius.raw as int))
}

/// The discriminant `b^2 - c` of the ray/sphere quadratic.
pub open spec fn sphere_disc(s: Sphere, ray: Ray) -> int {
    fxs_sub(fxs_mul(sphere_b(s, ray), sphere_b(s, ray)), sphere_c(s, ray))
}

/// The exact result of the ray/sphere test: no hit when the discriminant is
/// negative; otherwise the smaller root, or the larger root when the smaller
/// one is non-positive (origin inside the sphere, or hit behind the origin);
/// a hit only when the chosen root is positive. A hit whose point coincides
/// with the center (degenerate geometry) is filtered out.
pub open spec fn spec_sphere_hit(s: Sphere, ray: Ray) -> Option<Intersection> {
    let b = sphere_b(s, ray);
    let d = sphere_disc(s, ray);
    if d >= 0 {
        let sq = fxs_sqrt(d);
        let t1 = fxs_sub(-b, sq);
        let t = if t1 <= 0 {
            fxs_add(-b, sq)
        } else {
            t1
        };
        if t > 0 {
            let point = sv_add(ray.origin, sv_scale(ray.dir, Fx { raw: t as i64 }));
            let diff = sv_sub(point, s.center);
            if sv_len(diff) > 0 {
                Some(
                    Intersection {
                        distance: Fx { raw: t as i64 },
                        point,
                        normal: sv_normalize(diff),
                        material: s.material,
                    },
                )
            } else {
                None
            }
        } else {
            None
        }
    } else {
        None
    }
}

impl Sphere {
    /// Representable geometry, positive radius, valid material.
    pub open spec fn wf(self) -> bool {
        &&& self.center.wf()
        &&& self.radius.raw > 0
        &&& self.radius.ok()
        &&& self.material.wf()
    }

    /// Nearest forward intersection of `ray` with this sphere, or none.
    pub fn intersect(&self, ray: &Ray) -> (r: Option<Intersection>)
        requires
            self.wf(),
            ray.wf(),
        ensures
            r == spec_sphere_hit(*self, *ray),
            hit_wf(r),
    {
        let v = ray.origin.sub(self.center);
        let b = ray.dir.dot(v);
        let c = v.dot(v).sub(self.radius.mul(self.radius));
        let d = b.mul(b).sub(c);
        if d.raw >= 0 {
            let sq = d.sqrt_fx();
            let nb = b.neg();
            let mut t = nb.sub(sq);
            if t.raw <= 0 {
                t = nb.add(sq);
            }
            if t.raw > 0 {
                let point = ray.origin.add(ray.dir.scale(t));
                let diff = point.sub(self.center);
                let l = diff.len();
                if l.raw > 0 {
                    let normal = diff.normalize();
                    return Some(
                        Intersection { distance: t, point, normal, material: self.material },
                    );
                }
            }
        }
        None
    }
}

impl Intersectable for Sphere {
    open spec fn inv(&self) -> bool {
        self.wf()
    }

    open spec fn spec_hit(&self, ray: Ray) -> Option<Intersection> {
        spec_sphere_hit(*self, ray)
    }

    fn intersect(&self, ray: &Ray) -> (r: Option<Intersection>) {
        Sphere::intersect(self, ray)
    }
}

/// A ray whose origin lies strictly outside a sphere (positive constant
/// coefficient) and which points away from it (non-negative linear
/// coefficient) reports no intersection: neither quadratic root is positive.
pub proof fn lemma_no_hit_pointing_away(s: Sphere, ray: Ray)
    requires
        sphere_b(s, ray) >= 0,
        sphere_c(s, ray) > 0,
    ensures
        spec_sphere_hit(s, ray) == None::<Intersection>,
{
    let b = sphere_b(s, ray);
    let c = sphere_c(s, ray);
    let d = sphere_disc(s, ray);
    if d >= 0 {
        let sq = fxs_sqrt(d);
        let bb = b * b;
        let mb = fxs_mul(b, b);
        assert(b * b >= 0) by (nonlinear_arith);
        assert(tdiv(bb, SCALE as int) == bb / (SCALE as int));
        assert((bb / (SCALE as int)) * (SCALE as int) <= bb) by (nonlinear_arith)
            requires
                bb >= 0,
        ;
        assert(mb <= tdiv(bb, SCALE as int));
        assert(d <= mb - c);
        assert(d * (SCALE as int) <= (tdiv(bb, SCALE as int) - 1) * (SCALE as int));
        assert(d * (SCALE as int) <= bb - SCALE) by (nonlinear_arith)
            requires
                d * (SCALE as int) <= (tdiv(bb, SCALE as int) - 1) * (SCALE as int),
                (bb / (SCALE as int)) * (SCALE as int) <= bb,
                tdiv(bb, SCALE as int) == bb / (SCALE as int),
        ;
        lemma_sqrt_floor_bounds(d * (SCALE as int));
        assert(sq * sq <= bb - SCALE);
        assert(sq < b) by (nonlinear_arith)
            requires
                sq >= 0,
                b >= 0,
                sq * sq <= b * b - SCALE,
        ;
        assert(fxs_add(-b, sq) <= 0);
        assert(fxs_sub(-b, sq) <= 0);
    }
}

} // verus!
