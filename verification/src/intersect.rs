//! Intersection results.

use vstd::prelude::*;

use crate::fixed::Fx;
use crate::material::Material;
use crate::ray::Ray;
use crate::vector::Vector3;

verus! {

/// A successful ray/primitive test: distance along the ray (positive), the
/// hit point, the outward surface normal, and the material applicable there
/// (decorators may substitute it per hit).
#[derive(Clone, Copy, Debug, PartialEq, Eq, Structural)]
pub struct Intersection {
    pub distance: Fx,
    pub point: Vector3,
    pub normal: Vector3,
    pub material: Material,
}

impl Intersection {
    /// Positive distance, representable geometry, valid material.
    pub open spec fn wf(self) -> bool {
        &&& self.distance.raw > 0
        &&& self.distance.ok()
        &&& self.point.wf()
        &&& self.normal.wf()
        &&& self.material.wf()
    }
}

/// Well-formedness of an optional intersection.
pub open spec fn hit_wf(o: Option<Intersection>) -> bool {
    match o {
        Some(i) => i.wf(),
        None => true,
    }
}

/// The intersection capability every scene primitive offers: a well-formed
/// primitive reports, for any ray, exactly the hit its `spec_hit` function
/// describes.
pub trait Intersectable {
    /// The primitive is well-formed for intersection.
    spec fn inv(&self) -> bool;

    /// The exact intersection the primitive reports for `ray`.
    spec fn spec_hit(&self, ray: Ray) -> Option<Intersection>;

    /// The nearest forward intersection of `ray`, or none.
    fn intersect(&self, ray: &Ray) -> (r: Option<Intersection>)
        requires
            self.inv(),
            ray.wf(),
        ensures
            r == self.spec_hit(*ray),
            hit_wf(r),
    ;
}

} // verus!
