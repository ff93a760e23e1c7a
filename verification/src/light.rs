//! Point lights (used by the direct-lighting helpers).

use vstd::prelude::*;

use crate::spectrum::Spectrum;
use crate::vector::Vector3;

verus! {

/// A point light: position and emitted power.
#[derive(Clone, Copy, Debug, PartialEq, Eq, Structural)]
pub struct Light {
    pub pos: Vector3,
    pub power: Spectrum,
}

impl Light {
    /// Representable position, valid power.
    pub open spec fn wf(self) -> bool {
        self.pos.wf() && self.power.wf()
    }
}

} // verus!
