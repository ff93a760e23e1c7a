//! Sphere and plane intersection, and the material decorators.

use raytracer::checked_obj::CheckedObject;
use raytracer::fixed::{Fx, SCALE};
use raytracer::material::Material;
use raytracer::object::Object;
use raytracer::plane::Plane;
use raytracer::ray::Ray;
use raytracer::spectrum::Spectrum;
use raytracer::sphere::Sphere;
use raytracer::textured_obj::TexturedObj;
use raytracer::vector::Vector3;

fn fx(raw: i64) -> Fx {
    Fx { raw }
}

fn v3(x: i64, y: i64, z: i64) -> Vector3 {
    Vector3 { x: fx(x), y: fx(y), z: fx(z) }
}

fn diffuse_material(r: i64, g: i64, b: i64) -> Material {
    Material { diffuse: Spectrum { r, g, b }, ..Material::default() }
}

fn unit_sphere() -> Sphere {
    Sphere { center: v3(0, 0, 0), radius: fx(SCALE), material: Material::default() }
}

#[test]
fn sphere_hit_head_on() {
    // A ray from (0,0,5) toward (0,0,-1) hits the unit sphere at distance
    // 4 with normal (0,0,1).
    let ray = Ray { origin: v3(0, 0, 5 * SCALE), dir: v3(0, 0, -SCALE) };
    let hit = unit_sphere().intersect(&ray).unwrap();
    assert_eq!(hit.distance.raw, 4 * SCALE);
    assert_eq!(hit.point, v3(0, 0, SCALE));
    assert_eq!(hit.normal, v3(0, 0, SCALE));
}

#[test]
fn sphere_missed_when_pointing_away() {
    // From outside the sphere, pointing away: no intersection, even though
    // the quadratic's line through the sphere has (negative) roots.
    let ray = Ray { origin: v3(0, 0, 5 * SCALE), dir: v3(0, 0, SCALE) };
    assert!(unit_sphere().intersect(&ray).is_none());
}

#[test]
fn sphere_missed_sideways() {
    let ray = Ray { origin: v3(0, 0, 5 * SCALE), dir: v3(0, SCALE, 0) };
    assert!(unit_sphere().intersect(&ray).is_none());
}

#[test]
fn sphere_hit_from_inside() {
    // From the center, the smaller root is behind the origin; the larger
    // root is taken.
    let ray = Ray { origin: v3(0, 0, 0), dir: v3(0, 0, -SCALE) };
    let hit = unit_sphere().intersect(&ray).unwrap();
    assert_eq!(hit.distance.raw, SCALE);
    assert_eq!(hit.normal, v3(0, 0, -SCALE));
}

#[test]
fn plane_construction_normalizes() {
    let p = Plane::new(v3(0, -SCALE, 0), v3(0, 7 * SCALE, 0), Material::default());
    assert_eq!(p.normal, v3(0, SCALE, 0));
    assert_eq!(p.distance.raw, SCALE);
}

#[test]
fn plane_hit_from_above() {
    // A ray from (0,5,0) toward (0,-1,0) against the plane through
    // (0,-1,0) with normal (0,1,0) hits at distance 6.
    let p = Plane::new(v3(0, -SCALE, 0), v3(0, SCALE, 0), Material::default());
    let ray = Ray { origin: v3(0, 5 * SCALE, 0), dir: v3(0, -SCALE, 0) };
    let hit = p.intersect(&ray).unwrap();
    assert_eq!(hit.distance.raw, 6 * SCALE);
    assert_eq!(hit.point, v3(0, -SCALE, 0));
    assert_eq!(hit.normal, v3(0, SCALE, 0));
}

#[test]
fn plane_parallel_ray_misses() {
    let p = Plane::new(v3(0, -SCALE, 0), v3(0, SCALE, 0), Material::default());
    let ray = Ray { origin: v3(0, 5 * SCALE, 0), dir: v3(SCALE, 0, 0) };
    assert!(p.intersect(&ray).is_none());
}

#[test]
fn plane_hit_behind_origin_misses() {
    let p = Plane::new(v3(0, -SCALE, 0), v3(0, SCALE, 0), Material::default());
    let ray = Ray { origin: v3(0, 5 * SCALE, 0), dir: v3(0, SCALE, 0) };
    assert!(p.intersect(&ray).is_none());
}

fn checkerboard() -> (Object, Material, Material) {
    let base = diffuse_material(9 * SCALE / 10, 9 * SCALE / 10, 9 * SCALE / 10);
    let alt = diffuse_material(4 * SCALE / 10, 4 * SCALE / 10, 4 * SCALE / 10);
    let plane = Plane::new(v3(0, -SCALE, 0), v3(0, SCALE, 0), base);
    let obj = Object::Checked(CheckedObject {
        object: Box::new(Object::Plane(plane)),
        grid_width: fx(SCALE),
        alt_material: alt,
    });
    (obj, base, alt)
}

#[test]
fn checkerboard_substitutes_on_even_cells() {
    let (obj, base, alt) = checkerboard();
    // Hit point (0.25, -1, 0.25): cells round to (0, -1, 0), odd sum, so
    // the base material is kept.
    let odd_ray = Ray { origin: v3(SCALE / 4, 5 * SCALE, SCALE / 4), dir: v3(0, -SCALE, 0) };
    let odd_hit = obj.intersect(&odd_ray).unwrap();
    assert_eq!(odd_hit.material, base);
    // Hit point (0.75, -1, 0.25): cells round to (1, -1, 0), even sum, so
    // the alternate material is substituted.
    let even_ray =
        Ray { origin: v3(3 * SCALE / 4, 5 * SCALE, SCALE / 4), dir: v3(0, -SCALE, 0) };
    let even_hit = obj.intersect(&even_ray).unwrap();
    assert_eq!(even_hit.material, alt);
    // Geometry passes through the decorator untouched.
    assert_eq!(odd_hit.distance.raw, 6 * SCALE);
    assert_eq!(odd_hit.normal, v3(0, SCALE, 0));
}

#[test]
fn checkerboard_choice_is_stable() {
    // The decorator's choice for a fixed hit point is deterministic: the
    // same ray yields the same material on every call.
    let (obj, _, _) = checkerboard();
    let ray = Ray { origin: v3(SCALE / 4, 5 * SCALE, SCALE / 4), dir: v3(0, -SCALE, 0) };
    let first = obj.intersect(&ray);
    let second = obj.intersect(&ray);
    let third = obj.intersect(&ray);
    assert_eq!(first, second);
    assert_eq!(second, third);
}

#[test]
fn textured_object_modulates_albedo() {
    let base = diffuse_material(SCALE, SCALE, SCALE);
    let plane = Plane::new(v3(0, -SCALE, 0), v3(0, SCALE, 0), base);
    let pixels = vec![
        Spectrum { r: SCALE, g: 0, b: 0 },
        Spectrum { r: 0, g: SCALE, b: 0 },
        Spectrum { r: 0, g: 0, b: SCALE },
        Spectrum { r: SCALE, g: SCALE, b: 0 },
    ];
    let obj = Object::Textured(TexturedObj {
        object: Box::new(Object::Plane(plane)),
        pixels,
        image_width: 2,
        image_height: 2,
        texture_size: fx(SCALE),
        origin: v3(0, 0, 0),
        u_direction: v3(SCALE, 0, 0),
        v_direction: v3(0, 0, SCALE),
    });
    // Hit point (0.25, -1, 0.25) maps to texel (0, 1): index 2.
    let ray = Ray { origin: v3(SCALE / 4, 5 * SCALE, SCALE / 4), dir: v3(0, -SCALE, 0) };
    let hit = obj.intersect(&ray).unwrap();
    assert_eq!(hit.material.diffuse, Spectrum { r: 0, g: 0, b: SCALE });
    // Everything but the diffuse albedo passes through.
    assert_eq!(hit.material.reflective, base.reflective);
    assert_eq!(hit.distance.raw, 6 * SCALE);
}

#[test]
fn default_material_is_inert() {
    let m = Material::default();
    assert_eq!(m.diffuse, Spectrum { r: 0, g: 0, b: 0 });
    assert_eq!(m.reflective.raw, 0);
    assert_eq!(m.refractive.raw, 0);
    assert_eq!(m.refractive_index.raw, SCALE);
    assert_eq!(m.emissive, Spectrum { r: 0, g: 0, b: 0 });
}

#[test]
fn ray_construction_offsets_origin() {
    let r = Ray::new(v3(0, 0, 5 * SCALE), v3(0, 0, -2 * SCALE));
    assert_eq!(r.dir, v3(0, 0, -SCALE));
    assert_eq!(r.origin, v3(0, 0, 5 * SCALE - 66));
}
