//! The scene and the recursive light-transport algorithm.
//!
//! A scene owns an ordered list of primitives and a constant sky radiance.
//! Tracing a ray finds the nearest forward intersection over every primitive
//! (ties resolved in favor of the earliest primitive), orients the normal by
//! the face that was struck, draws one uniform random value to choose among
//! specular reflection, refraction and a diffuse Monte-Carlo bounce, recurses
//! one level deeper, and adds the surface's own foreshortened emission.
//! Recursion is bounded by `RECURSION_LIMIT`; past it the trace returns the
//! zero radiance.

use vstd::prelude::*;

use crate::fixed::{fxs_div, fxs_mul, Fx, SCALE};
use crate::intersect::{hit_wf, Intersection};
use crate::material::Material;
use crate::object::{object_wf, spec_object_hit, Object};
use crate::ray::{spec_ray_new, Ray};
use crate::rng::Rng;
use crate::spectrum::{spectrum_ge, ss_mul3, ss_scale3, Spectrum};
use crate::vector::{sv_dot, sv_len, sv_normalize, sv_sub, Vector3};

verus! {

/// Depth bound on the recursive trace: a safety valve against pathological
/// mirror configurations, not an expected path.
pub const RECURSION_LIMIT: u32 = 10000;

/// Fixed-point `1 / pi`.
pub const INV_PI_RAW: i64 = 20861;

/// Fixed-point `2 * pi`.
pub const TWO_PI_RAW: i64 = 411775;

/// Fixed-point `4 * pi`.
pub const FOUR_PI_RAW: i64 = 823550;

/// The three interaction branches of a surface.
#[derive(Clone, Copy, Debug, PartialEq, Eq, Structural)]
pub enum Interaction {
    Specular,
    Transmissive,
    Diffuse,
}

/// The nearer of an already-found intersection and a candidate: the
/// candidate wins only with a strictly smaller distance, so the earliest
/// primitive wins ties.
pub open spec fn combine_nearest(
    best: Option<Intersection>,
    cand: Option<Intersection>,
) -> Option<Intersection> {
    match (best, cand) {
        (None, c) => c,
        (Some(b), None) => Some(b),
        (Some(b), Some(c)) => if c.distance.raw < b.distance.raw {
            Some(c)
        } else {
            Some(b)
        },
    }
}

/// The nearest intersection over a sequence of primitives, scanning in
/// order.
pub open spec fn spec_nearest(objs: Seq<Object>, ray: Ray) -> Option<Intersection>
    decreases objs.len(),
{
    if objs.len() == 0 {
        None
    } else {
        combine_nearest(
            spec_nearest(objs.drop_last(), ray),
            spec_object_hit(objs.last(), ray),
        )
    }
}

/// What the nearest-hit search guarantees: a reported hit is one that some
/// primitive reported, and no primitive reported a strictly nearer one;
/// no hit is reported only when no primitive reported any.
pub proof fn lemma_nearest_is_minimal(objs: Seq<Object>, ray: Ray)
    ensures
        match spec_nearest(objs, ray) {
            Some(h) => (exists|i: int|
                0 <= i < objs.len() && #[trigger] spec_object_hit(objs[i], ray) == Some(h))
                && (forall|i: int|
                0 <= i < objs.len() ==> match #[trigger] spec_object_hit(objs[i], ray) {
                    Some(g) => h.distance.raw <= g.distance.raw,
                    None => true,
                }),
            None => forall|i: int|
                0 <= i < objs.len() ==> #[trigger] spec_object_hit(objs[i], ray) is None,
        },
    decreases objs.len(),
{
    if objs.len() > 0 {
        lemma_nearest_is_minimal(objs.drop_last(), ray);
        let last = objs.len() - 1;
        assert(forall|i: int| 0 <= i < last ==> objs.drop_last()[i] == #[trigger] objs[i]);
        assert(objs.last() == objs[last]);
        match spec_nearest(objs, ray) {
            Some(h) => {
                match spec_nearest(objs.drop_last(), ray) {
                    Some(b) => {
                        let w = choose|i: int|
                            0 <= i < objs.drop_last().len() && #[trigger] spec_object_hit(
                                objs.drop_last()[i],
                                ray,
                            ) == Some(b);
                        if h == b {
                            assert(spec_object_hit(objs[w], ray) == Some(h));
                        } else {
                            assert(spec_object_hit(objs[last], ray) == Some(h));
                        }
                    },
                    None => {
                        assert(spec_object_hit(objs[last], ray) == Some(h));
                    },
                }
            },
            None => {},
        }
    }
}

/// Whether every intersection that the primitives report for `ray` lies at
/// or beyond `dist` (the shadow-visibility predicate).
pub open spec fn spec_all_beyond(objs: Seq<Object>, ray: Ray, dist: int) -> bool {
    forall|i: int|
        0 <= i < objs.len() ==> match #[trigger] spec_object_hit(objs[i], ray) {
            Some(h) => h.distance.raw >= dist,
            None => true,
        }
}

/// The direct diffuse contribution of a point light: zero when the light
/// coincides with the point, faces away, is occluded, or is too close for
/// the inverse-square factor to be representable; otherwise the light power
/// scaled by `dot / (4 * pi * r^2)` and modulated by the albedo.
pub open spec fn spec_diffuse_lighting(
    objs: Seq<Object>,
    point: Vector3,
    normal: Vector3,
    diffuse_color: Spectrum,
    light_pos: Vector3,
    light_power: Spectrum,
) -> Spectrum {
    let v = sv_sub(light_pos, point);
    if sv_len(v) == 0 {
        Spectrum { r: 0, g: 0, b: 0 }
    } else {
        let dt = sv_dot(normal, sv_normalize(v));
        if dt > 0 && spec_all_beyond(objs, spec_ray_new(point, v), sv_len(v)) {
            let denom = fxs_mul(FOUR_PI_RAW as int, fxs_mul(sv_len(v), sv_len(v)));
            if denom > 0 {
                ss_mul3(
                    ss_scale3(light_power, Fx { raw: fxs_div(dt, denom) as i64 }),
                    diffuse_color,
                )
            } else {
                Spectrum { r: 0, g: 0, b: 0 }
            }
        } else {
            Spectrum { r: 0, g: 0, b: 0 }
        }
    }
}

/// The branch a uniform draw `t` in `[0, 1)` selects: specular below `ks`,
/// transmissive below `ks + kt`, diffuse for the remaining `1 - ks - kt`.
pub fn interaction_for(material: &Material, t: Fx) -> (r: Interaction)
    requires
        material.wf(),
        0 <= t.raw,
    ensures
        t.raw < material.reflective.raw <==> r is Specular,
        (material.reflective.raw <= t.raw && t.raw < material.reflective.raw
            + material.refractive.raw) <==> r is Transmissive,
        t.raw >= material.reflective.raw + material.refractive.raw <==> r is Diffuse,
{
    if t.raw < material.reflective.raw {
        Interaction::Specular
    } else if t.raw < material.reflective.raw + material.refractive.raw {
        Interaction::Transmissive
    } else {
        Interaction::Diffuse
    }
}

/// What one surface interaction may return, over the uniform draw `t` that
/// picked the branch, the radiance `li` the recursive bounce brought back,
/// and (for the diffuse branch) the non-negative cosine of the sampled
/// direction against the oriented normal: a draw in the specular or
/// transmissive share tints `li` by the albedo; the diffuse remainder
/// weights `li` by the Lambertian estimator.
pub open spec fn spec_interaction_outcome(
    m: Material,
    t: int,
    li: Spectrum,
    cos: int,
    r: Spectrum,
) -> bool {
    &&& 0 <= t < SCALE
    &&& li.wf()
    &&& 0 <= cos
    &&& (t < m.reflective.raw + m.refractive.raw ==> r == ss_mul3(li, m.diffuse))
    &&& (t >= m.reflective.raw + m.refractive.raw ==> r == ss_scale3(
        ss_mul3(li, ss_scale3(m.diffuse, Fx { raw: INV_PI_RAW })),
        Fx { raw: fxs_mul(TWO_PI_RAW as int, cos) as i64 },
    ))
}

/// The Lambertian estimator weight applied to a diffuse bounce's radiance:
/// `li * (albedo / pi) * (2 * pi * cos)`. The `2 * pi` and the uniform
/// hemisphere density cancel, making this an unbiased estimate of the
/// diffuse integral.
pub fn diffuse_weight(li: Spectrum, albedo: Spectrum, cos: Fx) -> (r: Spectrum)
    requires
        li.wf(),
        albedo.wf(),
        cos.ok(),
        cos.raw >= 0,
    ensures
        r == ss_scale3(
            ss_mul3(li, ss_scale3(albedo, Fx { raw: INV_PI_RAW })),
            Fx { raw: fxs_mul(TWO_PI_RAW as int, cos.raw as int) as i64 },
        ),
        r.wf(),
{
    let fr = albedo.scale(Fx { raw: INV_PI_RAW });
    let factor = Fx { raw: TWO_PI_RAW }.mul(cos);
    li.mul(fr).scale(factor)
}

/// A scene: primitives, sky radiance, and the trace algorithm. Constructed
/// once, then read-only while rendering.
pub struct Scene {
    objects: Vec<Object>,
    sky_color: Spectrum,
}

impl Scene {
    /// The primitives, in insertion order.
    pub closed spec fn spec_objects(self) -> Seq<Object> {
        self.objects@
    }

    /// The sky radiance returned for rays that hit nothing.
    pub closed spec fn spec_sky(self) -> Spectrum {
        self.sky_color
    }

    /// Every primitive and the sky are well-formed.
    pub open spec fn wf(self) -> bool {
        &&& (forall|i: int|
            0 <= i < self.spec_objects().len() ==> object_wf(#[trigger] self.spec_objects()[i]))
        &&& self.spec_sky().wf()
    }

    /// An empty scene with a black sky.
    pub fn new() -> (r: Scene)
        ensures
            r.spec_objects().len() == 0,
            r.spec_sky() == (Spectrum { r: 0, g: 0, b: 0 }),
            r.wf(),
    {
        Scene { objects: Vec::new(), sky_color: Spectrum::black() }
    }

    /// Append a primitive.
    pub fn add_object(&mut self, o: Object)
        requires
            old(self).wf(),
            object_wf(o),
        ensures
            final(self).spec_objects() == old(self).spec_objects().push(o),
            final(self).spec_sky() == old(self).spec_sky(),
            final(self).wf(),
    {
        self.objects.push(o);
        proof {
            assert forall|i: int|
                0 <= i < self.spec_objects().len() implies object_wf(
                #[trigger] self.spec_objects()[i],
            ) by {
                if i < old(self).spec_objects().len() {
                    assert(self.spec_objects()[i] == old(self).spec_objects()[i]);
                } else {
                    assert(self.spec_objects()[i] == o);
                }
            };
        }
    }

    /// Set the sky radiance.
    pub fn set_sky_color(&mut self, c: Spectrum)
        requires
            old(self).wf(),
            c.wf(),
        ensures
            final(self).spec_objects() == old(self).spec_objects(),
            final(self).spec_sky() == c,
            final(self).wf(),
    {
        self.sky_color = c;
        proof {
            assert forall|i: int|
                0 <= i < self.spec_objects().len() implies object_wf(
                #[trigger] self.spec_objects()[i],
            ) by {
                assert(object_wf(old(self).spec_objects()[i]));
            };
        }
    }

    /// The sky radiance.
    pub fn sky(&self) -> (r: Spectrum)
        ensures
            r == self.spec_sky(),
    {
        self.sky_color
    }

    /// The number of primitives.
    pub fn object_count(&self) -> (r: usize)
        ensures
            r == self.spec_objects().len(),
    {
        self.objects.len()
    }

    /// The nearest forward intersection of `ray` over all primitives. The
    /// scene must hold at least one primitive.
    fn find_nearest_intersection(&self, ray: &Ray) -> (r: Option<Intersection>)
        requires
            self.wf(),
            ray.wf(),
            self.spec_objects().len() > 0,
        ensures
            r == spec_nearest(self.spec_objects(), *ray),
            hit_wf(r),
    {
        let mut best: Option<Intersection> = None;
        let n = self.objects.len();
        let mut idx: usize = 0;
        while idx < n
            invariant
                self.wf(),
                ray.wf(),
                n == self.spec_objects().len(),
                idx <= n,
                best == spec_nearest(self.spec_objects().take(idx as int), *ray),
                hit_wf(best),
            decreases n - idx,
        {
            let hit = self.objects[idx].intersect(ray);
            proof {
                assert(self.spec_objects().take(idx + 1).drop_last() =~= self.spec_objects().take(
                    idx as int,
                ));
                assert(self.spec_objects().take(idx + 1).last() == self.spec_objects()[idx as int]);
            }
            best = match (best, hit) {
                (None, c) => c,
                (Some(b), None) => Some(b),
                (Some(b), Some(c)) => if c.distance.raw < b.distance.raw {
                    Some(c)
                } else {
                    Some(b)
                },
            };
            idx = idx + 1;
        }
        proof {
            assert(self.spec_objects().take(n as int) =~= self.spec_objects());
        }
        best
    }

    /// Trace a bounce in direction `dir` from `point`, one level deeper. A
    /// degenerate (unnormalizable) direction is treated as an escaped ray
    /// and yields the sky radiance.
    fn trace_dir(&self, point: Vector3, dir: Vector3, depth: u32, rng: &mut Rng) -> (r: Spectrum)
        requires
            self.wf(),
            self.spec_objects().len() > 0,
            point.wf(),
            dir.wf(),
            depth <= RECURSION_LIMIT,
        ensures
            r.wf(),
        decreases RECURSION_LIMIT + 2 - depth, 0int,
    {
        let l = dir.len();
        if l.raw > 0 {
            self.trace(Ray::new(point, dir), depth + 1, rng)
        } else {
            self.sky_color
        }
    }

    /// One stochastic surface interaction: draw a uniform value, dispatch
    /// on the branch it selects (`interaction_for`), recurse, and weight
    /// the returned radiance. `normal` is already oriented toward the
    /// incoming ray's side; `eta` is the refraction ratio for that
    /// orientation.
    fn interact_surface(
        &self,
        ray_dir: Vector3,
        point: Vector3,
        normal: Vector3,
        material: Material,
        eta: Fx,
        depth: u32,
        rng: &mut Rng,
    ) -> (r: Spectrum)
        requires
            self.wf(),
            self.spec_objects().len() > 0,
            ray_dir.wf(),
            point.wf(),
            normal.wf(),
            material.wf(),
            eta.ok(),
            depth <= RECURSION_LIMIT,
        ensures
            r.wf(),
            exists|t: int, li: Spectrum, cos: int|
                #[trigger] spec_interaction_outcome(material, t, li, cos, r),
        decreases RECURSION_LIMIT + 2 - depth, 1int,
    {
        let t = rng.unit_fraction();
        match interaction_for(&material, t) {
            Interaction::Specular => {
                let dir = ray_dir.reflect(normal);
                let li = self.trace_dir(point, dir, depth, rng);
                let out = li.mul(material.diffuse);
                proof {
                    assert(spec_interaction_outcome(material, t.raw as int, li, 0, out));
                }
                out
            },
            Interaction::Transmissive => {
                let dir = ray_dir.refract(normal, eta);
                let li = self.trace_dir(point, dir, depth, rng);
                let out = li.mul(material.diffuse);
                proof {
                    assert(spec_interaction_outcome(material, t.raw as int, li, 0, out));
                }
                out
            },
            Interaction::Diffuse => {
                let dir = normal.random_hemisphere(rng);
                let li = self.trace_dir(point, dir, depth, rng);
                let cos = dir.dot(normal);
                let out = diffuse_weight(li, material.diffuse, cos);
                proof {
                    assert(spec_interaction_outcome(
                        material,
                        t.raw as int,
                        li,
                        cos.raw as int,
                        out,
                    ));
                }
                out
            },
        }
    }

    /// Estimate the radiance arriving along `ray`. Past the recursion limit
    /// the result is black; a ray that hits nothing yields the sky; a hit on
    /// the outer face adds the surface's emission scaled by the incidence
    /// foreshortening, whatever the stochastic interaction returns.
    pub fn trace(&self, ray: Ray, depth: u32, rng: &mut Rng) -> (r: Spectrum)
        requires
            self.wf(),
            ray.wf(),
            self.spec_objects().len() > 0,
        ensures
            r.wf(),
            depth > RECURSION_LIMIT ==> r == (Spectrum { r: 0, g: 0, b: 0 }),
            depth <= RECURSION_LIMIT && spec_nearest(self.spec_objects(), ray) is None ==> r
                == self.spec_sky(),
            depth <= RECURSION_LIMIT ==> match spec_nearest(self.spec_objects(), ray) {
                Some(hit) => sv_dot(hit.normal, ray.dir) < 0 ==> spectrum_ge(
                    r,
                    ss_scale3(
                        hit.material.emissive,
                        Fx { raw: (-sv_dot(hit.normal, ray.dir)) as i64 },
                    ),
                ),
                None => true,
            },
        decreases RECURSION_LIMIT + 2 - depth, 2int,
    {
        if depth > RECURSION_LIMIT {
            return Spectrum::black();
        }
        let hit = match self.find_nearest_intersection(&ray) {
            Some(h) => h,
            None => {
                return self.sky_color;
            },
        };
        let m = hit.material;
        let dt = hit.normal.dot(ray.dir);
        if dt.raw < 0 {
            let eta = Fx::one().div(m.refractive_index);
            let surface = self.interact_surface(ray.dir, hit.point, hit.normal, m, eta, depth, rng);
            let emission = m.emissive.scale(dt.neg());
            surface.add(emission)
        } else {
            let eta = m.refractive_index;
            self.interact_surface(ray.dir, hit.point, hit.normal.neg(), m, eta, depth, rng)
        }
    }

    /// Whether no primitive blocks the segment from `org` toward `target`:
    /// every hit of the shadow ray lies at or beyond the distance to
    /// `target`.
    pub fn visible(&self, org: Vector3, target: Vector3) -> (r: bool)
        requires
            self.wf(),
            org.wf(),
            target.wf(),
            sv_len(sv_sub(target, org)) > 0,
        ensures
            r == spec_all_beyond(
                self.spec_objects(),
                spec_ray_new(org, sv_sub(target, org)),
                sv_len(sv_sub(target, org)),
            ),
    {
        let v = target.sub(org);
        let dist = v.len();
        let shadow_ray = Ray::new(org, v);
        let n = self.objects.len();
        let mut idx: usize = 0;
        while idx < n
            invariant
                self.wf(),
                org.wf(),
                target.wf(),
                n == self.spec_objects().len(),
                idx <= n,
                shadow_ray == spec_ray_new(org, sv_sub(target, org)),
                shadow_ray.wf(),
                dist.raw == sv_len(sv_sub(target, org)),
                forall|i: int|
                    0 <= i < idx ==> match #[trigger] spec_object_hit(
                        self.spec_objects()[i],
                        shadow_ray,
                    ) {
                        Some(h) => h.distance.raw >= dist.raw,
                        None => true,
                    },
            decreases n - idx,
        {
            let hit = self.objects[idx].intersect(&shadow_ray);
            match hit {
                Some(h) => {
                    if h.distance.raw < dist.raw {
                        return false;
                    }
                },
                None => {},
            }
            idx = idx + 1;
        }
        true
    }

    /// The direct diffuse contribution of a point light at the surface
    /// point, per `spec_diffuse_lighting`.
    pub fn diffuse_lighting(
        &self,
        point: Vector3,
        normal: Vector3,
        diffuse_color: Spectrum,
        light_pos: Vector3,
        light_power: Spectrum,
    ) -> (r: Spectrum)
        requires
            self.wf(),
            point.wf(),
            normal.wf(),
            diffuse_color.wf(),
            light_pos.wf(),
            light_power.wf(),
        ensures
            r == spec_diffuse_lighting(
                self.spec_objects(),
                point,
                normal,
                diffuse_color,
                light_pos,
                light_power,
            ),
            r.wf(),
    {
        let v = light_pos.sub(point);
        let vlen = v.len();
        if vlen.raw == 0 {
            return Spectrum::black();
        }
        let l = v.normalize();
        let dt = normal.dot(l);
        if dt.raw > 0 && self.visible(point, light_pos) {
            let denom = Fx { raw: FOUR_PI_RAW }.mul(vlen.mul(vlen));
            if denom.raw > 0 {
                let factor = dt.div(denom);
                return light_power.scale(factor).mul(diffuse_color);
            }
        }
        Spectrum::black()
    }
}

} // verus!
