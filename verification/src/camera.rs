//! Pinhole camera: maps pixel coordinates to primary rays.
//!
//! The camera is a one-time linear transform: an eye point, an image-plane
//! origin and two axis vectors. `look_at` takes the distance from the eye to
//! the image plane in pixel units directly (callers derive it from a field
//! of view as `(height / 2) / tan(fov / 2)`).

use vstd::prelude::*;

use crate::fixed::{Fx, HALF_SCALE};
use crate::ray::{spec_ray_new, Ray};
use crate::vector::{sv_add, sv_cross, sv_len, sv_normalize, sv_scale, sv_sub, Vector3};

verus! {

/// A pinhole camera.
#[derive(Clone, Copy, Debug, PartialEq, Eq, Structural)]
pub struct Camera {
    pub eye: Vector3,
    pub origin: Vector3,
    pub xaxis: Vector3,
    pub yaxis: Vector3,
}

impl Camera {
    /// All members representable.
    pub open spec fn wf(self) -> bool {
        self.eye.wf() && self.origin.wf() && self.xaxis.wf() && self.yaxis.wf()
    }

    /// A camera with every member zero. Its rays all degenerate (and a
    /// sampler then falls back to the sky) until `look_at` aims it.
    pub fn new() -> (r: Camera)
        ensures
            r == (Camera {
                eye: Vector3 { x: Fx { raw: 0 }, y: Fx { raw: 0 }, z: Fx { raw: 0 } },
                origin: Vector3 { x: Fx { raw: 0 }, y: Fx { raw: 0 }, z: Fx { raw: 0 } },
                xaxis: Vector3 { x: Fx { raw: 0 }, y: Fx { raw: 0 }, z: Fx { raw: 0 } },
                yaxis: Vector3 { x: Fx { raw: 0 }, y: Fx { raw: 0 }, z: Fx { raw: 0 } },
            }),
            r.wf(),
    {
        Camera {
            eye: Vector3::zero(),
            origin: Vector3::zero(),
            xaxis: Vector3::zero(),
            yaxis: Vector3::zero(),
        }
    }

    /// Aim the camera from `eye` toward `target` with `up` selecting the
    /// roll, for a `width` by `height` image whose plane sits `image_plane`
    /// pixel units from the eye. Fails (leaving the camera unchanged) when
    /// the view direction or the horizontal axis degenerates.
    pub fn look_at(
        &mut self,
        eye: Vector3,
        target: Vector3,
        up: Vector3,
        image_plane: Fx,
        width: u32,
        height: u32,
    ) -> (ok: bool)
        requires
            old(self).wf(),
            eye.wf(),
            target.wf(),
            up.wf(),
            image_plane.ok(),
            width <= 4096,
            height <= 4096,
        ensures
            final(self).wf(),
            ok == (sv_len(sv_sub(target, eye)) > 0 && sv_len(
                sv_cross(sv_normalize(sv_sub(target, eye)), up),
            ) > 0),
            !ok ==> *final(self) == *old(self),
            ok ==> {
                let v = sv_normalize(sv_sub(target, eye));
                let xa = sv_normalize(sv_cross(v, up));
                let ya = sv_cross(v, xa);
                &&& final(self).eye == eye
                &&& final(self).xaxis == xa
                &&& final(self).yaxis == ya
                &&& final(self).origin == sv_sub(
                    sv_sub(
                        sv_scale(v, image_plane),
                        sv_scale(xa, Fx { raw: (width * HALF_SCALE) as i64 }),
                    ),
                    sv_scale(ya, Fx { raw: (height * HALF_SCALE) as i64 }),
                )
            },
    {
        let view = target.sub(eye);
        if view.len().raw == 0 {
            return false;
        }
        let v = view.normalize();
        let xa0 = v.cross(up);
        if xa0.len().raw == 0 {
            return false;
        }
        let xaxis = xa0.normalize();
        let yaxis = v.cross(xaxis);
        let center = v.scale(image_plane);
        let half = Fx { raw: HALF_SCALE };
        let hw = Fx::from_int(width as i32).mul(half);
        let hh = Fx::from_int(height as i32).mul(half);
        self.eye = eye;
        self.xaxis = xaxis;
        self.yaxis = yaxis;
        self.origin = center.sub(xaxis.scale(hw)).sub(yaxis.scale(hh));
        true
    }

    /// The image-plane point of a (possibly jittered) pixel coordinate.
    pub open spec fn spec_pixel_point(self, x: Fx, y: Fx) -> Vector3 {
        sv_add(sv_add(self.origin, sv_scale(self.xaxis, x)), sv_scale(self.yaxis, y))
    }

    /// The primary ray through pixel coordinate `(x, y)`, or none when the
    /// image-plane point degenerates to a zero direction.
    pub fn ray(&self, x: Fx, y: Fx) -> (r: Option<Ray>)
        requires
            self.wf(),
            x.ok(),
            y.ok(),
        ensures
            match r {
                Some(rr) => sv_len(self.spec_pixel_point(x, y)) > 0 && rr == spec_ray_new(
                    self.eye,
                    self.spec_pixel_point(x, y),
                ) && rr.wf(),
                None => sv_len(self.spec_pixel_point(x, y)) == 0,
            },
    {
        let p = self.origin.add(self.xaxis.scale(x)).add(self.yaxis.scale(y));
        if p.len().raw > 0 {
            Some(Ray::new(self.eye, p))
        } else {
            None
        }
    }
}

} // verus!
