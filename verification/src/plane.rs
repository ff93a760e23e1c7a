//! Plane primitive.

use vstd::prelude::*;

use crate::fixed::{fxs_add, fxs_div, Fx};
use crate::intersect::{hit_wf, Intersectable, Intersection};
use crate::material::Material;
use crate::ray::Ray;
use crate::vector::{sv_add, sv_dot, sv_len, sv_normalize, sv_scale, Vector3};

verus! {

/// A plane with unit normal and signed distance `d`, so that
/// `dot(normal, p) + d == 0` for points `p` on the plane.
#[derive(Clone, Copy, Debug, PartialEq, Eq, Structural)]
pub struct Plane {
    pub normal: Vector3,
    pub distance: Fx,
    pub material: Material,
}

/// The exact result of the ray/plane test: no hit when the ray is parallel
/// to the plane (zero denominator, the degenerate case recovered locally),
/// otherwise `t = -(dot(normal, origin) + d) / dot(normal, dir)`, accepted
/// only when positive.
pub open spec fn spec_plane_hit(p: Plane, ray: Ray) -> Option<Intersection> {
    let vd = sv_dot(p.normal, ray.dir);
    if vd == 0 {
        None
    } else {
        let t = fxs_div(-fxs_add(sv_dot(p.normal, ray.origin), p.distance.raw as int), vd);
        if t > 0 {
            Some(
                Intersection {
                    distance: Fx { raw: t as i64 },
                    point: sv_add(ray.origin, sv_scale(ray.dir, Fx { raw: t as i64 })),
                    normal: p.normal,
                    material: p.material,
                },
            )
        } else {
            None
        }
    }
}

impl Plane {
    /// Representable geometry, valid material.
    pub open spec fn wf(self) -> bool {
        &&& self.normal.wf()
        &&& self.distance.ok()
        &&& self.material.wf()
    }

    /// The plane through `point` with the given (not necessarily unit)
    /// normal: the normal is normalized and the signed distance is
    /// `-dot(point, normal)`.
    pub fn new(point: Vector3, normal: Vector3, material: Material) -> (r: Plane)
        requires
            point.wf(),
            normal.wf(),
            sv_len(normal) > 0,
            material.wf(),
        ensures
            r.normal == sv_normalize(normal),
            r.distance.raw == -sv_dot(point, sv_normalize(normal)),
            r.material == material,
            r.wf(),
    {
        let n = normal.normalize();
        let d = point.dot(n).neg();
        Plane { normal: n, distance: d, material }
    }

    /// Nearest forward intersection of `ray` with this plane, or none.
    pub fn intersect(&self, ray: &Ray) -> (r: Option<Intersection>)
        requires
            self.wf(),
            ray.wf(),
        ensures
            r == spec_plane_hit(*self, *ray),
            hit_wf(r),
    {
        let vd = self.normal.dot(ray.dir);
        if vd.raw == 0 {
            return None;
        }
        let t = self.normal.dot(ray.origin).add(self.distance).neg().div(vd);
        if t.raw > 0 {
            let point = ray.origin.add(ray.dir.scale(t));
            Some(Intersection { distance: t, point, normal: self.normal, material: self.material })
        } else {
            None
        }
    }
}

impl Intersectable for Plane {
    open spec fn inv(&self) -> bool {
        self.wf()
    }

    open spec fn spec_hit(&self, ray: Ray) -> Option<Intersection> {
        spec_plane_hit(*self, ray)
    }

    fn intersect(&self, ray: &Ray) -> (r: Option<Intersection>) {
        Plane::intersect(self, ray)
    }
}

} // verus!
