//! Rays: an origin and a unit direction.

use vstd::prelude::*;

use crate::fixed::Fx;
use crate::vector::{sv_add, sv_len, sv_normalize, sv_scale, Vector3};

verus! {

/// Raw offset applied along the direction at construction, to avoid a bounce
/// ray immediately re-hitting the surface it starts on (about 0.001).
pub const RAY_EPSILON: i64 = 66;

/// The exact ray that `Ray::new` constructs from an origin and an
/// (unnormalized) direction.
pub open spec fn spec_ray_new(origin: Vector3, dir: Vector3) -> Ray {
    Ray {
        origin: sv_add(origin, sv_scale(sv_normalize(dir), Fx { raw: RAY_EPSILON })),
        dir: sv_normalize(dir),
    }
}

/// A ray: origin plus unit direction, immutable once constructed.
#[derive(Clone, Copy, Debug, PartialEq, Eq, Structural)]
pub struct Ray {
    pub origin: Vector3,
    pub dir: Vector3,
}

impl Ray {
    /// Both members are representable.
    pub open spec fn wf(self) -> bool {
        self.origin.wf() && self.dir.wf()
    }

    /// A ray with `dir` normalized and the origin nudged forward by
    /// `RAY_EPSILON` along it.
    pub fn new(origin: Vector3, dir: Vector3) -> (r: Ray)
        requires
            origin.wf(),
            dir.wf(),
            sv_len(dir) > 0,
        ensures
            r == spec_ray_new(origin, dir),
            r.wf(),
    {
        let d = dir.normalize();
        let o = origin.add(d.scale(Fx { raw: RAY_EPSILON }));
        Ray { origin: o, dir: d }
    }
}

} // verus!
