//! Checkerboard decorator: substitutes an alternate material on hits whose
//! grid cell-index parity is even, creating a 3D checkerboard on any surface.

use vstd::prelude::*;

use crate::fixed::{fxs_div, Fx, HALF_SCALE, SCALE};
use crate::intersect::{hit_wf, Intersection};
use crate::material::Material;
use crate::object::Object;
use crate::vector::Vector3;

verus! {

/// Round a fixed-point raw value to the nearest integer, halves away from
/// zero (the rounding the cell index uses).
pub open spec fn round_to_int(q: int) -> int {
    if q >= 0 {
        (q + HALF_SCALE) / (SCALE as int)
    } else {
        -((-q + HALF_SCALE) / (SCALE as int))
    }
}

/// The cell index of a point on a grid of width `w`: the sum of its three
/// coordinates, each divided by the width and rounded.
pub open spec fn cell_index(p: Vector3, w: Fx) -> int {
    round_to_int(fxs_div(p.x.raw as int, w.raw as int)) + round_to_int(
        fxs_div(p.y.raw as int, w.raw as int),
    ) + round_to_int(fxs_div(p.z.raw as int, w.raw as int))
}

/// Whether the cell index of the point is even: the alternate material is
/// substituted exactly on even cells.
pub open spec fn checker_even(p: Vector3, w: Fx) -> bool {
    cell_index(p, w) % 2 == 0
}

/// The exact effect of the decorator on an inner result: geometry passes
/// through unchanged; the material is replaced by `alt` on even cells.
pub open spec fn spec_checked_apply(
    w: Fx,
    alt: Material,
    inner: Option<Intersection>,
) -> Option<Intersection> {
    match inner {
        None => None,
        Some(i) => Some(
            Intersection {
                distance: i.distance,
                point: i.point,
                normal: i.normal,
                material: if checker_even(i.point, w) {
                    alt
                } else {
                    i.material
                },
            },
        ),
    }
}

/// The decorator's material choice has no hidden state: it is a function of
/// the hit point (and grid width) alone, so two hits at the same point are
/// assigned the same material, whatever their other fields.
pub proof fn lemma_checker_choice_stable(
    w: Fx,
    alt: Material,
    i1: Intersection,
    i2: Intersection,
)
    requires
        i1.point == i2.point,
        i1.material == i2.material,
    ensures
        match (spec_checked_apply(w, alt, Some(i1)), spec_checked_apply(w, alt, Some(i2))) {
            (Some(j1), Some(j2)) => j1.material == j2.material,
            _ => false,
        },
{
}

/// A checkerboard decorator wrapping an inner primitive.
pub struct CheckedObject {
    pub object: Box<Object>,
    pub grid_width: Fx,
    pub alt_material: Material,
}

/// Round a fixed-point scalar to the nearest integer, halves away from zero.
fn round_fx(q: Fx) -> (r: i64)
    requires
        q.ok(),
    ensures
        r == round_to_int(q.raw as int),
{
    if q.raw >= 0 {
        (q.raw + HALF_SCALE) / SCALE
    } else {
        -((-q.raw + HALF_SCALE) / SCALE)
    }
}

impl CheckedObject {
    /// Apply the material substitution to an inner intersection result.
    pub fn apply(&self, inner: Option<Intersection>) -> (r: Option<Intersection>)
        requires
            self.grid_width.raw > 0,
            self.grid_width.ok(),
            self.alt_material.wf(),
            hit_wf(inner),
        ensures
            r == spec_checked_apply(self.grid_width, self.alt_material, inner),
            hit_wf(r),
    {
        match inner {
            None => None,
            Some(i) => {
                let cx = round_fx(i.point.x.div(self.grid_width));
                let cy = round_fx(i.point.y.div(self.grid_width));
                let cz = round_fx(i.point.z.div(self.grid_width));
                let index: i64 = cx + cy + cz;
                let material = if index % 2 == 0 {
                    self.alt_material
                } else {
                    i.material
                };
                Some(Intersection { distance: i.distance, point: i.point, normal: i.normal, material })
            },
        }
    }
}

} // verus!
