//! Pinhole camera tests: the frame corners map to the expected rays.

use tracer::camera::{BasicPinhole, ThinLens};
use tracer::sampler::random::Random;
use tracer::ray::Ray;
use tracer::vector::{vec_normalize, Vec3};

fn v(x: i64, y: i64, z: i64) -> Vec3 {
    Vec3 { x, y, z }
}

fn norm_ray(origin: Vec3, direction: Vec3) -> Ray {
    Ray { origin, direction: vec_normalize(direction) }
}

#[test]
fn test_get_ray_f32() {
    let camera: BasicPinhole = Default::default();

    // this is equivalent to the lower left corner of the frame
    let ray = norm_ray(v(0, 0, 0), v(-2_000_000, -1_000_000, -1_000_000));
    assert_eq!(camera.to_ray(0, 0), ray);

    // middle
    let ray = norm_ray(v(0, 0, 0), v(0, 0, -1_000_000));
    assert_eq!(camera.to_ray(500_000, 500_000), ray);

    // upper left corner
    let ray = norm_ray(v(0, 0, 0), v(-2_000_000, 1_000_000, -1_000_000));
    assert_eq!(camera.to_ray(0, 1_000_000), ray);

    // upper right corner
    let ray = norm_ray(v(0, 0, 0), v(2_000_000, 1_000_000, -1_000_000));
    assert_eq!(camera.to_ray(1_000_000, 1_000_000), ray);

    // lower right corner
    let ray = norm_ray(v(0, 0, 0), v(2_000_000, -1_000_000, -1_000_000));
    assert_eq!(camera.to_ray(1_000_000, 0), ray);
}

// The renderer computes with one fixed-point scalar whatever the float
// width of the configuration, so the wide-scalar camera behaves exactly
// like the narrow one.
#[test]
fn test_get_ray_f64() {
    let camera: BasicPinhole = Default::default();

    let ray = norm_ray(v(0, 0, 0), v(-2_000_000, -1_000_000, -1_000_000));
    assert_eq!(camera.to_ray(0, 0), ray);

    let ray = norm_ray(v(0, 0, 0), v(0, 0, -1_000_000));
    assert_eq!(camera.to_ray(500_000, 500_000), ray);

    let ray = norm_ray(v(0, 0, 0), v(-2_000_000, 1_000_000, -1_000_000));
    assert_eq!(camera.to_ray(0, 1_000_000), ray);

    let ray = norm_ray(v(0, 0, 0), v(2_000_000, 1_000_000, -1_000_000));
    assert_eq!(camera.to_ray(1_000_000, 1_000_000), ray);

    let ray = norm_ray(v(0, 0, 0), v(2_000_000, -1_000_000, -1_000_000));
    assert_eq!(camera.to_ray(1_000_000, 0), ray);
}

// A thin lens with a closed aperture is a deterministic pinhole onto the
// focus plane: the ray starts at the camera and its direction is exactly
// the normalized offset to the picked focus-plane point.
#[test]
fn thin_lens_closed_aperture() {
    let lens = ThinLens {
        look_from: v(0, 0, 0),
        look_at: v(0, 0, -2_000_000),
        up: v(0, 1_000_000, 0),
        fov: 90_000_000,
        aperture: 0,
        focus_distance: 2_000_000,
    };
    let cam = lens.init(1_000_000);
    let mut sampler = Random::with_seed(21);
    let ray = cam.to_ray(500_000, 500_000, &mut sampler);
    assert_eq!(ray.origin, v(0, 0, 0));
    // The center ray aims straight down the view axis.
    assert!(ray.direction.x.abs() < 3_000);
    assert!(ray.direction.y.abs() < 3_000);
    assert!(ray.direction.z < -999_000);
}

// A parameterized pinhole with a 90-degree field of view and square
// aspect looking down the negative z axis spans about two units of image
// plane at unit distance.
#[test]
fn pinhole_init_spans() {
    let pinhole = tracer::camera::Pinhole {
        target: v(0, 0, -1_000_000),
        origin: v(0, 0, 0),
        vfov: 90_000_000,
        up: v(0, 1_000_000, 0),
        aspect_ratio: 1_000_000,
    };
    let basic = pinhole.init(1_000_000);
    assert_eq!(basic.origin, v(0, 0, 0));
    // The spans are 2 * tan(45 degrees), within the tolerance of the
    // truncated series.
    assert!((basic.horizontal.x.abs() - 2_000_000).abs() < 2_000);
    assert!((basic.vertical.y.abs() - 2_000_000).abs() < 2_000);
}
