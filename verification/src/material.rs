//! Surface materials.

use vstd::prelude::*;

use crate::fixed::{Fx, SCALE};
use crate::spectrum::Spectrum;

verus! {

/// Per-surface reflectance parameters. `reflective` (specular probability)
/// and `refractive` (transmissive probability) are fixed-point values in
/// `[0, 1]` whose sum is at most 1; the remainder is the diffuse-bounce
/// probability. The refractive index is at least 1 and is meaningful only
/// when `refractive` is positive.
#[derive(Clone, Copy, Debug, PartialEq, Eq, Structural)]
pub struct Material {
    pub diffuse: Spectrum,
    pub reflective: Fx,
    pub refractive: Fx,
    pub refractive_index: Fx,
    pub emissive: Spectrum,
}

impl Material {
    /// The constraints above: albedo channels in `[0, 1]`, probabilities
    /// non-negative with sum at most 1, index at least 1.
    pub open spec fn wf(self) -> bool {
        &&& self.diffuse.wf()
        &&& self.diffuse.r <= SCALE
        &&& self.diffuse.g <= SCALE
        &&& self.diffuse.b <= SCALE
        &&& 0 <= self.reflective.raw
        &&& 0 <= self.refractive.raw
        &&& self.reflective.raw + self.refractive.raw <= SCALE
        &&& self.refractive_index.raw >= SCALE
        &&& self.refractive_index.ok()
        &&& self.emissive.wf()
    }
}

impl Default for Material {
    /// A black, fully diffuse, non-emissive material with index 1.
    fn default() -> (r: Material)
        ensures
            r.diffuse == (Spectrum { r: 0, g: 0, b: 0 }),
            r.reflective.raw == 0,
            r.refractive.raw == 0,
            r.refractive_index.raw == SCALE,
            r.emissive == (Spectrum { r: 0, g: 0, b: 0 }),
            r.wf(),
    {
        Material {
            diffuse: Spectrum::black(),
            reflective: Fx::zero(),
            refractive: Fx::zero(),
            refractive_index: Fx::one(),
            emissive: Spectrum::black(),
        }
    }
}

} // verus!
