//! The camera, the accumulation engine and the display conversion.

use raytracer::camera::Camera;
use raytracer::engine::{next_range, sample_range, RenderEngine};
use raytracer::fixed::{Fx, SCALE};
use raytracer::material::Material;
use raytracer::object::Object;
use raytracer::rng::Rng;
use raytracer::scene::Scene;
use raytracer::spectrum::{Color, Spectrum};
use raytracer::sphere::Sphere;
use raytracer::vector::Vector3;

fn fx(raw: i64) -> Fx {
    Fx { raw }
}

fn v3(x: i64, y: i64, z: i64) -> Vector3 {
    Vector3 { x: fx(x), y: fx(y), z: fx(z) }
}

/// A scene whose every sample is exactly the sky: the zeroed camera
/// degenerates every primary ray, so the sampler falls back to the sky and
/// the whole pipeline becomes deterministic.
fn sky_scene() -> Scene {
    let mut scene = Scene::new();
    scene.add_object(Object::Sphere(Sphere {
        center: v3(0, 0, -100 * SCALE),
        radius: fx(SCALE),
        material: Material::default(),
    }));
    scene.set_sky_color(Spectrum { r: 8192, g: 16384, b: 32768 });
    scene
}

#[test]
fn camera_look_at_axes() {
    let mut cam = Camera::new();
    let ok = cam.look_at(
        v3(0, 0, 0),
        v3(0, 0, -SCALE),
        v3(0, SCALE, 0),
        fx(2 * SCALE),
        4,
        4,
    );
    assert!(ok);
    assert_eq!(cam.xaxis, v3(SCALE, 0, 0));
    assert_eq!(cam.yaxis, v3(0, -SCALE, 0));
    assert_eq!(cam.origin, v3(-2 * SCALE, 2 * SCALE, -2 * SCALE));
    // The center pixel's ray runs straight down the view axis.
    let ray = cam.ray(fx(2 * SCALE), fx(2 * SCALE)).unwrap();
    assert_eq!(ray.dir, v3(0, 0, -SCALE));
    assert_eq!(ray.origin, v3(0, 0, -66));
}

#[test]
fn camera_look_at_rejects_degenerate_view() {
    let mut cam = Camera::new();
    let before = cam;
    // Target equal to the eye: no view direction.
    let ok = cam.look_at(v3(0, 0, 0), v3(0, 0, 0), v3(0, SCALE, 0), fx(SCALE), 4, 4);
    assert!(!ok);
    assert_eq!(cam, before);
    // Up parallel to the view direction: no horizontal axis.
    let ok2 = cam.look_at(v3(0, 0, 0), v3(0, 2 * SCALE, 0), v3(0, SCALE, 0), fx(SCALE), 4, 4);
    assert!(!ok2);
}

#[test]
fn zeroed_camera_rays_degenerate() {
    let cam = Camera::new();
    assert!(cam.ray(fx(3 * SCALE), fx(5 * SCALE)).is_none());
}

#[test]
fn row_ranges_cover_and_stop() {
    assert_eq!(next_range(0, 10, 4), Some((0, 4, 4)));
    assert_eq!(next_range(4, 10, 4), Some((4, 8, 8)));
    assert_eq!(next_range(8, 10, 4), Some((8, 10, 12)));
    assert_eq!(next_range(12, 10, 4), None);
    // A cursor at the height claims an empty range before stopping.
    assert_eq!(next_range(10, 10, 4), Some((10, 10, 14)));
}

#[test]
fn fresh_engine_is_black() {
    let engine = RenderEngine::new(sky_scene(), Camera::new(), 4, 4);
    assert_eq!(engine.samples_taken(), 0);
    let image = engine.snapshot();
    assert_eq!(image.len(), 16);
    for c in image {
        assert_eq!(c, Color { r: 0, g: 0, b: 0 });
    }
}

#[test]
fn accumulation_is_batch_independent() {
    // Two batches of 3 and 5 samples accumulate to exactly the same buffer
    // and counter as one batch of 8: incremental rendering is exact.
    let mut rng = Rng::from_seed(11);
    let mut split = RenderEngine::new(sky_scene(), Camera::new(), 4, 4);
    split.add_samples(3, &mut rng);
    split.add_samples(5, &mut rng);
    let mut whole = RenderEngine::new(sky_scene(), Camera::new(), 4, 4);
    whole.add_samples(8, &mut rng);
    assert_eq!(split.samples_taken(), 8);
    assert_eq!(whole.samples_taken(), 8);
    assert_eq!(split.snapshot(), whole.snapshot());
    // Every sample was the sky, so the average is the sky itself and the
    // displayed image is its gamma mapping.
    let image = split.snapshot();
    assert_eq!(image.len(), 16);
    for c in image {
        assert_eq!(c, Color { r: 99, g: 135, b: 186 });
    }
}

#[test]
fn merging_partial_batches_concatenates() {
    let mut split = RenderEngine::new(sky_scene(), Camera::new(), 2, 2);
    let mut whole = RenderEngine::new(sky_scene(), Camera::new(), 2, 2);
    let s1 = Spectrum { r: 100, g: 0, b: 0 };
    let s2 = Spectrum { r: 5, g: 7, b: 9 };
    let batch1 = vec![(0usize, s1), (3usize, s2)];
    let batch2 = vec![(0usize, s2), (1usize, s1)];
    let mut concat = batch1.clone();
    concat.extend(batch2.clone());
    split.merge_partials(&batch1);
    split.merge_partials(&batch2);
    whole.merge_partials(&concat);
    assert_eq!(split.snapshot(), whole.snapshot());
}

#[test]
fn sample_range_tags_pixels_in_row_major_order() {
    let scene = sky_scene();
    let cam = Camera::new();
    let mut rng = Rng::from_seed(2);
    let partials = sample_range(&scene, &cam, 4, 4, 1, 3, 2, &mut rng);
    // 2 samples over rows 1..3 of a 4-wide image: 16 entries.
    assert_eq!(partials.len(), 16);
    for (k, (index, value)) in partials.iter().enumerate() {
        // Entries run column by column, row by row, pass by pass.
        let within = k % 8;
        assert_eq!(*index, (1 + within / 4) * 4 + within % 4);
        assert_eq!(*value, Spectrum { r: 8192, g: 16384, b: 32768 });
    }
    // Every pixel of the claimed range receives exactly 2 partial sums.
    let mut counts = vec![0usize; 16];
    for (index, _) in &partials {
        counts[*index] += 1;
    }
    for (i, c) in counts.iter().enumerate() {
        if (4..12).contains(&i) {
            assert_eq!(*c, 2);
        } else {
            assert_eq!(*c, 0);
        }
    }
}

#[test]
fn display_conversion_gamma_values() {
    assert_eq!(
        Spectrum { r: 32768, g: 16384, b: 65536 }.to_color(),
        Color { r: 186, g: 135, b: 255 }
    );
    assert_eq!(Spectrum { r: 0, g: 0, b: 0 }.to_color(), Color { r: 0, g: 0, b: 0 });
    // Just below full scale stays below 255; anything at or above clamps.
    assert_eq!(Spectrum { r: 65535, g: 65536, b: 200000 }.to_color().r, 254);
    assert_eq!(Spectrum { r: 65535, g: 65536, b: 200000 }.to_color().g, 255);
    assert_eq!(Spectrum { r: 65535, g: 65536, b: 200000 }.to_color().b, 255);
}

#[test]
fn spectrum_arithmetic_and_averaging() {
    let a = Spectrum { r: 100, g: 200, b: 300 };
    let b = Spectrum { r: 1, g: 2, b: 3 };
    assert_eq!(a.add(b), Spectrum { r: 101, g: 202, b: 303 });
    assert_eq!(
        a.mul(Spectrum { r: SCALE / 2, g: SCALE, b: 2 * SCALE }),
        Spectrum { r: 50, g: 200, b: 600 }
    );
    assert_eq!(a.scale(fx(SCALE / 4)), Spectrum { r: 25, g: 50, b: 75 });
    assert_eq!(a.avg_div(100), Spectrum { r: 1, g: 2, b: 3 });
}

#[test]
fn spectrum_addition_saturates() {
    let cap = raytracer::spectrum::RADIANCE_MAX;
    let big = Spectrum { r: cap, g: cap - 1, b: 0 };
    let out = big.add(Spectrum { r: cap, g: 5, b: 1 });
    assert_eq!(out, Spectrum { r: cap, g: cap, b: 1 });
}
