//! Tests of the tracing engine end to end, the pixel byte layout and the
//! chunk scheduler.

use raytracer::camera::Camera;
use raytracer::fixed::SCALE;
use raytracer::intersectable::Surface;
use raytracer::pixel::{pixel_data, IntoPixelData, Pixel};
use raytracer::plane::Plane;
use raytracer::ray::Ray;
use raytracer::scheduler::chunk_size;
use raytracer::sphere::Sphere;
use raytracer::trace::{trace, trace_chunk, trace_pixel, BG_B, BG_G, BG_R};
use raytracer::vector::Vector3;

const S: i64 = SCALE;

#[test]
fn miss_returns_background_exactly() {
    let world: Vec<Surface> = Vec::new();
    let ray = Ray::new(Vector3::origin(), Vector3::new(0, 0, S));
    let c = trace(0, ray, &world);
    assert_eq!((c.x, c.y, c.z), (BG_R, BG_G, BG_B));
}

#[test]
fn miss_with_scene_returns_background_exactly() {
    let sphere = Sphere::new(Vector3::new(0, 0, 10 * S), Vector3::new_scalar(S), S, None);
    let world = vec![Surface::Sphere(sphere)];
    let ray = Ray::new(Vector3::origin(), Vector3::new(0, 0, -S));
    let c = trace(0, ray, &world);
    assert_eq!((c.x, c.y, c.z), (BG_R, BG_G, BG_B));
}

#[test]
fn shadowed_diffuse_surface_is_ambient_only() {
    // A gray floor, and a ceiling that blocks the light direction.
    let floor = Plane::new(
        Vector3::new(0, -S, 0),
        Vector3::new(0, S, 0),
        Vector3::new_scalar(32768),
        None,
    );
    let ceiling = Plane::new(
        Vector3::new(0, 2 * S, 0),
        Vector3::new(0, -S, 0),
        Vector3::new_scalar(32768),
        None,
    );
    let world = vec![Surface::Plane(floor), Surface::Plane(ceiling)];
    let ray = Ray::new(Vector3::new(0, 2 * S, 0), Vector3::new(0, -S, 0));
    let c = trace(0, ray, &world);
    // surface color times the ambient strength, exactly
    assert_eq!((c.x, c.y, c.z), (3277, 3277, 3277));
}

#[test]
fn lit_sphere_at_bounce_limit() {
    let sphere = Sphere::new(
        Vector3::origin(),
        Vector3::new(S, 0, 0),
        S,
        Some((32768, None)),
    );
    let world = vec![Surface::Sphere(sphere)];
    let ray = Ray::new(Vector3::new(0, 0, -5 * S), Vector3::new(0, 0, S));
    let c = trace(8, ray, &world);
    assert_eq!((c.x, c.y, c.z), (44407, 16, 16));
}

#[test]
fn lit_reflective_sphere_one_bounce() {
    let sphere = Sphere::new(
        Vector3::origin(),
        Vector3::new(S, 0, 0),
        S,
        Some((32768, None)),
    );
    let world = vec![Surface::Sphere(sphere)];
    let ray = Ray::new(Vector3::new(0, 0, -5 * S), Vector3::new(0, 0, S));
    let c = trace(0, ray, &world);
    assert_eq!((c.x, c.y, c.z), (61741, 26492, 32128));
}

#[test]
fn glass_sphere_blends_reflection_and_refraction() {
    let glass = Sphere::new(
        Vector3::origin(),
        Vector3::new(0, 0, 49152),
        S,
        Some((32768, Some(98304))),
    );
    let world = vec![Surface::Sphere(glass)];
    let ray = Ray::new(Vector3::new(0, 0, -5 * S), Vector3::new(0, 0, S));
    let c = trace(0, ray, &world);
    assert_eq!((c.x, c.y, c.z), (34683, 52967, 103537));
}

#[test]
fn pixel_bytes_keep_channel_order() {
    let pixels = vec![Pixel::new(1, 2, 3, 4), Pixel::new(5, 6, 7, 8)];
    assert_eq!(pixels.into_pixel_data(), vec![1, 2, 3, 4, 5, 6, 7, 8]);
}

#[test]
fn trace_pixel_miss_is_background_pixel() {
    let camera = Camera::new(
        Vector3::origin(),
        Vector3::new(0, S, 0),
        Vector3::new(0, 0, S),
        S,
    );
    let world: Vec<Surface> = Vec::new();
    let p = trace_pixel(0, 0, 2, 2, &camera, &world);
    assert_eq!(pixel_data(&vec![p]), vec![134, 206, 249, 255]);
}

#[test]
fn trace_chunk_renders_every_requested_pixel() {
    let camera = Camera::new(
        Vector3::origin(),
        Vector3::new(0, S, 0),
        Vector3::new(0, 0, S),
        S,
    );
    let world: Vec<Surface> = Vec::new();
    let chunk = trace_chunk(0, 4, 2, 2, &camera, &world);
    assert_eq!(chunk.len(), 4);
    let bytes = pixel_data(&chunk);
    for k in 0..4 {
        assert_eq!(&bytes[4 * k..4 * k + 4], &[134, 206, 249, 255]);
    }
}

#[test]
fn chunk_size_divides_evenly() {
    assert_eq!(chunk_size(100, 4), 25);
    assert_eq!(chunk_size(10, 3), 3);
    assert_eq!(chunk_size(2048 * 2048, 4), 1048576);
}

#[test]
fn chunks_cover_every_index_exactly_once() {
    for (total, workers) in [(100usize, 4usize), (10, 3), (97, 8), (5, 5)] {
        let cs = chunk_size(total, workers);
        let mut seen = vec![0u32; total];
        let mut start = 0usize;
        while start < total {
            let len = if start + cs <= total { cs } else { total - start };
            for i in start..start + len {
                seen[i] += 1;
            }
            start += len;
        }
        assert!(seen.iter().all(|&c| c == 1));
    }
}
