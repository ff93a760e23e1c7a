//! The scene's light-transport algorithm.

use raytracer::fixed::{Fx, SCALE};
use raytracer::material::Material;
use raytracer::object::Object;
use raytracer::plane::Plane;
use raytracer::ray::Ray;
use raytracer::rng::Rng;
use raytracer::scene::{diffuse_weight, interaction_for, Interaction, Scene, RECURSION_LIMIT};
use raytracer::spectrum::Spectrum;
use raytracer::sphere::Sphere;
use raytracer::vector::Vector3;

fn fx(raw: i64) -> Fx {
    Fx { raw }
}

fn v3(x: i64, y: i64, z: i64) -> Vector3 {
    Vector3 { x: fx(x), y: fx(y), z: fx(z) }
}

fn unit_sphere_with(material: Material) -> Object {
    Object::Sphere(Sphere { center: v3(0, 0, 0), radius: fx(SCALE), material })
}

#[test]
fn escaped_ray_returns_sky() {
    let mut scene = Scene::new();
    scene.add_object(unit_sphere_with(Material::default()));
    let sky = Spectrum { r: 100, g: 200, b: 300 };
    scene.set_sky_color(sky);
    let mut rng = Rng::from_seed(3);
    let ray = Ray { origin: v3(0, 0, 5 * SCALE), dir: v3(0, 0, SCALE) };
    assert_eq!(scene.trace(ray, 0, &mut rng), sky);
}

#[test]
fn recursion_limit_returns_black() {
    let mut scene = Scene::new();
    scene.add_object(unit_sphere_with(Material::default()));
    scene.set_sky_color(Spectrum { r: SCALE, g: SCALE, b: SCALE });
    let mut rng = Rng::from_seed(3);
    let ray = Ray { origin: v3(0, 0, 5 * SCALE), dir: v3(0, 0, -SCALE) };
    let out = scene.trace(ray, RECURSION_LIMIT + 1, &mut rng);
    assert_eq!(out, Spectrum { r: 0, g: 0, b: 0 });
}

#[test]
fn black_emitter_returns_its_emission() {
    // A fully absorbing emissive surface hit head-on: the interaction
    // contributes nothing (zero albedo), and the emission is scaled by the
    // incidence factor 1, so the trace returns the emission exactly,
    // whatever the random draws were.
    let emissive = Material {
        emissive: Spectrum { r: 30 * SCALE, g: 20 * SCALE, b: 10 * SCALE },
        ..Material::default()
    };
    let mut scene = Scene::new();
    scene.add_object(unit_sphere_with(emissive));
    let mut rng = Rng::from_seed(5);
    let ray = Ray { origin: v3(0, 0, 5 * SCALE), dir: v3(0, 0, -SCALE) };
    for _ in 0..10 {
        let out = scene.trace(ray, 0, &mut rng);
        assert_eq!(out, Spectrum { r: 30 * SCALE, g: 20 * SCALE, b: 10 * SCALE });
    }
}

#[test]
fn nearest_object_wins() {
    // Two nested spheres: the trace sees the nearer surface's emission.
    let near = Material {
        emissive: Spectrum { r: 7 * SCALE, g: 0, b: 0 },
        ..Material::default()
    };
    let far = Material {
        emissive: Spectrum { r: 0, g: 7 * SCALE, b: 0 },
        ..Material::default()
    };
    let mut scene = Scene::new();
    scene.add_object(Object::Sphere(Sphere {
        center: v3(0, 0, 0),
        radius: fx(2 * SCALE),
        material: far,
    }));
    scene.add_object(Object::Sphere(Sphere {
        center: v3(0, 0, 0),
        radius: fx(SCALE),
        material: near,
    }));
    let mut rng = Rng::from_seed(5);
    let ray = Ray { origin: v3(0, 0, 5 * SCALE), dir: v3(0, 0, -SCALE) };
    // Nearest hit is the outer sphere at distance 3.
    let out = scene.trace(ray, 0, &mut rng);
    assert_eq!(out, Spectrum { r: 0, g: 7 * SCALE, b: 0 });
}

#[test]
fn diffuse_plane_under_uniform_sky_converges_to_albedo() {
    // A fully diffuse plane (albedo 0.5) lit only by a uniform white sky:
    // the large-sample average of the trace approaches albedo * sky = 0.5
    // per channel (Lambertian response to uniform illumination).
    let material = Material {
        diffuse: Spectrum { r: SCALE / 2, g: SCALE / 2, b: SCALE / 2 },
        ..Material::default()
    };
    let mut scene = Scene::new();
    scene.add_object(Object::Plane(Plane::new(
        v3(0, -SCALE, 0),
        v3(0, SCALE, 0),
        material,
    )));
    scene.set_sky_color(Spectrum { r: SCALE, g: SCALE, b: SCALE });
    let mut rng = Rng::from_seed(42);
    let n: i64 = 20000;
    let mut sum_r: i64 = 0;
    let mut sum_g: i64 = 0;
    for _ in 0..n {
        let ray = Ray { origin: v3(0, 5 * SCALE, 0), dir: v3(0, -SCALE, 0) };
        let out = scene.trace(ray, 0, &mut rng);
        sum_r += out.r;
        sum_g += out.g;
    }
    let avg_r = sum_r / n;
    let avg_g = sum_g / n;
    let expected = SCALE / 2;
    let tolerance = SCALE / 20;
    assert!((avg_r - expected).abs() < tolerance, "avg_r = {}", avg_r);
    assert!((avg_g - expected).abs() < tolerance, "avg_g = {}", avg_g);
}

#[test]
fn mirror_sphere_reflects_the_sky() {
    // A perfect mirror (ks = 1) tints the bounced radiance by its albedo;
    // with a white albedo the head-on bounce escapes to the sky exactly.
    let mirror = Material {
        diffuse: Spectrum { r: SCALE, g: SCALE, b: SCALE },
        reflective: fx(SCALE),
        ..Material::default()
    };
    let sky = Spectrum { r: 300, g: 200, b: 100 };
    let mut scene = Scene::new();
    scene.add_object(unit_sphere_with(mirror));
    scene.set_sky_color(sky);
    let mut rng = Rng::from_seed(9);
    let ray = Ray { origin: v3(0, 0, 5 * SCALE), dir: v3(0, 0, -SCALE) };
    // The reflected ray leaves along +z and escapes; ks = 1 makes the
    // draw's branch deterministic, and a unit albedo keeps the sky value.
    let out = scene.trace(ray, 0, &mut rng);
    assert_eq!(out, sky);
}

#[test]
fn interaction_branch_thresholds() {
    let m = Material {
        reflective: fx(SCALE / 4),
        refractive: fx(SCALE / 4),
        ..Material::default()
    };
    assert_eq!(interaction_for(&m, fx(0)), Interaction::Specular);
    assert_eq!(interaction_for(&m, fx(SCALE / 4 - 1)), Interaction::Specular);
    assert_eq!(interaction_for(&m, fx(SCALE / 4)), Interaction::Transmissive);
    assert_eq!(interaction_for(&m, fx(SCALE / 2 - 1)), Interaction::Transmissive);
    assert_eq!(interaction_for(&m, fx(SCALE / 2)), Interaction::Diffuse);
    assert_eq!(interaction_for(&m, fx(SCALE - 1)), Interaction::Diffuse);
}

#[test]
fn diffuse_weight_formula() {
    let white = Spectrum { r: SCALE, g: SCALE, b: SCALE };
    let half = Spectrum { r: SCALE / 2, g: SCALE / 2, b: SCALE / 2 };
    // Head-on bounce: li * (0.5 / pi) * (2 * pi * 1) is 1.0 up to the
    // fixed-point rounding of the two pi factors.
    let w = diffuse_weight(white, half, fx(SCALE));
    assert_eq!(w, Spectrum { r: 65533, g: 65533, b: 65533 });
    // Grazing at cos = 0 contributes nothing.
    let z = diffuse_weight(white, half, fx(0));
    assert_eq!(z, Spectrum { r: 0, g: 0, b: 0 });
    // cos = 0.5 halves the estimate.
    let h = diffuse_weight(white, half, fx(SCALE / 2));
    assert_eq!(h, Spectrum { r: 32766, g: 32766, b: 32766 });
}

#[test]
fn visibility_and_shadowing() {
    let mut scene = Scene::new();
    scene.add_object(Object::Plane(Plane::new(
        v3(0, -SCALE, 0),
        v3(0, SCALE, 0),
        Material::default(),
    )));
    // Upward segment: nothing in the way.
    assert!(scene.visible(v3(0, 0, 0), v3(0, 2 * SCALE, 0)));
    // Downward segment: the plane blocks it.
    assert!(!scene.visible(v3(0, 0, 0), v3(0, -3 * SCALE, 0)));
}

#[test]
fn diffuse_lighting_inverse_square() {
    let mut scene = Scene::new();
    scene.add_object(Object::Plane(Plane::new(
        v3(0, -SCALE, 0),
        v3(0, SCALE, 0),
        Material::default(),
    )));
    let white = Spectrum { r: SCALE, g: SCALE, b: SCALE };
    let out = scene.diffuse_lighting(
        v3(0, 0, 0),
        v3(0, SCALE, 0),
        white,
        v3(0, 2 * SCALE, 0),
        white,
    );
    // dot = 1, r = 2: factor = 1 / (4 * pi * 4) in fixed point.
    assert_eq!(out, Spectrum { r: 1303, g: 1303, b: 1303 });
    // A light below the plane is occluded: no contribution.
    let blocked = scene.diffuse_lighting(
        v3(0, 0, 0),
        v3(0, -SCALE, 0),
        white,
        v3(0, -3 * SCALE, 0),
        white,
    );
    assert_eq!(blocked, Spectrum { r: 0, g: 0, b: 0 });
}
