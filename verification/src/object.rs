//! Scene primitives as a closed tagged-variant type.
//!
//! The intersection capability is polymorphic over {sphere, plane, and the
//! two material decorators}; decorators own their inner primitive and only
//! rewrite the material of its result, never the geometry.

use vstd::prelude::*;

use crate::checked_obj::{spec_checked_apply, CheckedObject};
use crate::intersect::{hit_wf, Intersectable, Intersection};
use crate::plane::{spec_plane_hit, Plane};
use crate::ray::Ray;
use crate::sphere::{spec_sphere_hit, Sphere};
use crate::textured_obj::TexturedObj;

verus! {

/// Any intersectable scene primitive.
pub enum Object {
    Sphere(Sphere),
    Plane(Plane),
    Checked(CheckedObject),
    Textured(TexturedObj),
}

/// Well-formedness of a primitive, down through its decorators.
pub open spec fn object_wf(o: Object) -> bool
    decreases o,
{
    match o {
        Object::Sphere(s) => s.wf(),
        Object::Plane(p) => p.wf(),
        Object::Checked(c) => c.grid_width.raw > 0 && c.grid_width.ok() && c.alt_material.wf()
            && object_wf(*c.object),
        Object::Textured(t) => t.fields_wf() && object_wf(*t.object),
    }
}

/// The exact intersection result of a primitive, down through its
/// decorators.
pub open spec fn spec_object_hit(o: Object, ray: Ray) -> Option<Intersection>
    decreases o,
{
    match o {
        Object::Sphere(s) => spec_sphere_hit(s, ray),
        Object::Plane(p) => spec_plane_hit(p, ray),
        Object::Checked(c) => spec_checked_apply(
            c.grid_width,
            c.alt_material,
            spec_object_hit(*c.object, ray),
        ),
        Object::Textured(t) => t.spec_apply(spec_object_hit(*t.object, ray)),
    }
}

impl Object {
    /// Nearest forward intersection of `ray` with this primitive, or none.
    pub fn intersect(&self, ray: &Ray) -> (r: Option<Intersection>)
        requires
            object_wf(*self),
            ray.wf(),
        ensures
            r == spec_object_hit(*self, *ray),
            hit_wf(r),
        decreases *self,
    {
        match self {
            Object::Sphere(s) => s.intersect(ray),
            Object::Plane(p) => p.intersect(ray),
            Object::Checked(c) => {
                let inner = c.object.intersect(ray);
                c.apply(inner)
            },
            Object::Textured(t) => {
                let inner = t.object.intersect(ray);
                t.apply(inner)
            },
        }
    }
}

impl Intersectable for Object {
    open spec fn inv(&self) -> bool {
        object_wf(*self)
    }

    open spec fn spec_hit(&self, ray: Ray) -> Option<Intersection> {
        spec_object_hit(*self, ray)
    }

    fn intersect(&self, ray: &Ray) -> (r: Option<Intersection>) {
        Object::intersect(self, ray)
    }
}

} // verus!
