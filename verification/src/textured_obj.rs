//! Planar texture decorator: projects the hit point onto two direction
//! vectors, tiles the resulting 2D coordinate by the texture size, samples a
//! discrete image, and multiplies the inner material's diffuse albedo by the
//! sampled color. All other material parameters pass through unchanged.

use vstd::prelude::*;

use crate::fixed::{fxs_div, Fx, SCALE};
use crate::intersect::{hit_wf, Intersection};
use crate::material::Material;
use crate::object::Object;
use crate::spectrum::{ss_mul3, Spectrum};
use crate::vector::{sv_dot, sv_sub, Vector3};

verus! {

/// Largest texture edge the decorator accepts.
pub const TEXTURE_MAX_DIM: u32 = 4096;

/// The tile-local fraction of a texture coordinate: `u - floor(u)`, as a raw
/// value in `[0, SCALE)`.
pub open spec fn tile_frac(u: int) -> int {
    u % (SCALE as int)
}

/// The texel index along one axis: the tile fraction scaled by the image
/// dimension and floored, in `[0, dim)`.
pub open spec fn texel_axis(u: int, dim: int) -> int {
    (tile_frac(u) * dim) / (SCALE as int)
}

/// A planar texture decorator wrapping an inner primitive. The image is a
/// row-major grid of `image_width * image_height` radiance samples.
pub struct TexturedObj {
    pub object: Box<Object>,
    pub pixels: Vec<Spectrum>,
    pub image_width: u32,
    pub image_height: u32,
    pub texture_size: Fx,
    pub origin: Vector3,
    pub u_direction: Vector3,
    pub v_direction: Vector3,
}

impl TexturedObj {
    /// Constraints on the decorator's own fields (the inner primitive has
    /// its own well-formedness, checked where the scene object is).
    pub open spec fn fields_wf(self) -> bool {
        &&& self.texture_size.raw > 0
        &&& self.texture_size.ok()
        &&& 1 <= self.image_width <= TEXTURE_MAX_DIM
        &&& 1 <= self.image_height <= TEXTURE_MAX_DIM
        &&& self.pixels.len() == self.image_width * self.image_height
        &&& (forall|i: int|
            0 <= i < self.pixels.len() ==> (#[trigger] self.pixels[i]).wf()
                && self.pixels[i].r <= SCALE && self.pixels[i].g <= SCALE
                && self.pixels[i].b <= SCALE)
        &&& self.origin.wf()
        &&& self.u_direction.wf()
        &&& self.v_direction.wf()
    }

    /// The texture-space coordinate of a point along `u_direction`.
    pub open spec fn spec_u_coord(self, point: Vector3) -> int {
        fxs_div(sv_dot(sv_sub(point, self.origin), self.u_direction), self.texture_size.raw as int)
    }

    /// The texture-space coordinate of a point along `v_direction` (negated,
    /// so the image's rows run downward).
    pub open spec fn spec_v_coord(self, point: Vector3) -> int {
        fxs_div(
            -sv_dot(sv_sub(point, self.origin), self.v_direction),
            self.texture_size.raw as int,
        )
    }

    /// The sampled color for a hit point.
    pub open spec fn spec_sample(self, point: Vector3) -> Spectrum {
        let px = texel_axis(self.spec_u_coord(point), self.image_width as int);
        let py = texel_axis(self.spec_v_coord(point), self.image_height as int);
        self.pixels[py * self.image_width + px]
    }

    /// The exact effect of the decorator on an inner result: geometry passes
    /// through unchanged; the diffuse albedo is modulated by the sampled
    /// color.
    pub open spec fn spec_apply(self, inner: Option<Intersection>) -> Option<Intersection> {
        match inner {
            None => None,
            Some(i) => Some(
                Intersection {
                    distance: i.distance,
                    point: i.point,
                    normal: i.normal,
                    material: Material {
                        diffuse: ss_mul3(self.spec_sample(i.point), i.material.diffuse),
                        reflective: i.material.reflective,
                        refractive: i.material.refractive,
                        refractive_index: i.material.refractive_index,
                        emissive: i.material.emissive,
                    },
                },
            ),
        }
    }

    /// Apply the albedo modulation to an inner intersection result.
    pub fn apply(&self, inner: Option<Intersection>) -> (r: Option<Intersection>)
        requires
            self.fields_wf(),
            hit_wf(inner),
        ensures
            r == self.spec_apply(inner),
            hit_wf(r),
    {
        match inner {
            None => None,
            Some(i) => {
                let d = i.point.sub(self.origin);
                let u = d.dot(self.u_direction).div(self.texture_size);
                let v = d.dot(self.v_direction).neg().div(self.texture_size);
                let px = texel(u, self.image_width);
                let py = texel(v, self.image_height);
                proof {
                    assert((py as int) * (self.image_width as int) + px < (self.image_height as int)
                        * (self.image_width as int)) by (nonlinear_arith)
                        requires
                            0 <= px < self.image_width as int,
                            0 <= py < self.image_height as int,
                    ;
                    assert((self.image_height as int) * (self.image_width as int) == (
                    self.image_width as int) * (self.image_height as int)) by (nonlinear_arith);
                    assert((py as int) * (self.image_width as int) <= 4096 * 4096)
                        by (nonlinear_arith)
                        requires
                            0 <= py <= 4096,
                            0 <= self.image_width <= 4096,
                    ;
                }
                let index: usize = (py as usize) * (self.image_width as usize) + (px as usize);
                let color = self.pixels[index];
                proof {
                    crate::spectrum::lemma_ss_mul_unit(color.r as int, i.material.diffuse.r as int);
                    crate::spectrum::lemma_ss_mul_unit(color.g as int, i.material.diffuse.g as int);
                    crate::spectrum::lemma_ss_mul_unit(color.b as int, i.material.diffuse.b as int);
                }
                let material = Material {
                    diffuse: color.mul(i.material.diffuse),
                    reflective: i.material.reflective,
                    refractive: i.material.refractive,
                    refractive_index: i.material.refractive_index,
                    emissive: i.material.emissive,
                };
                Some(Intersection { distance: i.distance, point: i.point, normal: i.normal, material })
            },
        }
    }
}

/// The texel index of a texture coordinate along an axis of `dim` samples.
fn texel(u: Fx, dim: u32) -> (p: u32)
    requires
        u.ok(),
        1 <= dim <= TEXTURE_MAX_DIM,
    ensures
        p == texel_axis(u.raw as int, dim as int),
        p < dim,
{
    let m: i64 = u.raw % SCALE;
    let f: i64 = if m < 0 {
        m + SCALE
    } else {
        m
    };
    proof {
        assert(f == tile_frac(u.raw as int));
    }
    proof {
        assert(0 <= (f as int) * (dim as int) < (SCALE as int) * (dim as int))
            by (nonlinear_arith)
            requires
                0 <= f < SCALE,
                1 <= dim,
        ;
        assert((f as int) * (dim as int) <= 65536 * 4096) by (nonlinear_arith)
            requires
                0 <= f <= 65536,
                0 <= dim <= 4096,
        ;
    }
    let scaled: i64 = f * (dim as i64);
    let p: i64 = scaled / SCALE;
    proof {
        assert(((f as int) * (dim as int)) / (SCALE as int) < dim as int)
            by (nonlinear_arith)
            requires
                0 <= (f as int) * (dim as int),
                (f as int) * (dim as int) < (SCALE as int) * (dim as int),
                1 <= dim,
        ;
    }
    p as u32
}

} // verus!
