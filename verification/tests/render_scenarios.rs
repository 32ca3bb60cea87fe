//! End-to-end scenarios: the integrators and the pixel driver.

use tracer::accel::{Accel, ObjectListParams, SerializedAccelerationStruct};
use tracer::camera::{BasicPinhole, SerializedCamera};
use tracer::hittable::triangle::TriangleHandedness;
use tracer::hittable::{Hittable, SerializedHittable, SerializedTextured, Textured,
    TriangleParameters};
use tracer::integrator::{Normal, SerializedIntegrator, Whitted};
use tracer::material::{Mirror, SerializedMaterial};
use tracer::ray::Ray;
use tracer::sampler::random::Random;
use tracer::scene::Scene;
use tracer::vector::Vec3;

fn v(x: i64, y: i64, z: i64) -> Vec3 {
    Vec3 { x, y, z }
}

fn list_accel(objects: Vec<Textured>) -> Accel {
    SerializedAccelerationStruct::ObjectList(ObjectListParams {}).to_accel(objects).unwrap()
}

// An empty scene renders to a uniform buffer of the background color
// under the normal integrator.
#[test]
fn empty_scene_uniform_background() {
    let scene = Scene {
        objects: vec![],
        acceleration_structure: SerializedAccelerationStruct::ObjectList(ObjectListParams {}),
        camera: SerializedCamera::BasicPinhole(BasicPinhole::default()),
        background: v(100_000, 200_000, 300_000),
        samples_per_pixel: 2,
        integrator: SerializedIntegrator::Normal(Normal {}),
        height: 2,
        width: 2,
    };
    let renderer = scene.to_renderer().unwrap();
    let buffer = renderer.render();
    assert_eq!(buffer.len(), 4);
    for pixel in buffer {
        assert_eq!(pixel, v(100_000, 200_000, 300_000));
    }
}

// The normal integrator paints a direct sphere hit with the remapped
// surface normal.
#[test]
fn normal_integrator_paints_normals() {
    let accel = list_accel(vec![Textured {
        geometry: Hittable::Sphere(tracer::hittable::Sphere {
            center: v(0, 0, 0),
            radius: 1_000_000,
        }),
        mat: SerializedMaterial::Mirror(Mirror::default()),
    }]);
    let integrator = Normal {};
    let ray = Ray { origin: v(0, -2_000_000, 0), direction: v(0, 1_000_000, 0) };
    let color = integrator.render(&accel, v(0, 0, 0), &ray);
    // The hit normal is (0, -1, 0): remapped to (0.5, 0.0, 0.5).
    assert_eq!(color, v(500_000, 0, 500_000));
}

// The Whitted integrator returns the sky gradient for rays that escape:
// white looking straight down, grey looking straight up.
#[test]
fn whitted_gradient_background() {
    let accel = list_accel(vec![]);
    let whitted = Whitted::default();
    let mut sampler = Random::with_seed(9);
    let up = Ray { origin: v(0, 0, 0), direction: v(0, 1_000_000, 0) };
    let down = Ray { origin: v(0, 0, 0), direction: v(0, -1_000_000, 0) };
    let grey = whitted.render(&accel, v(0, 0, 0), &up, &mut sampler);
    let white = whitted.render(&accel, v(0, 0, 0), &down, &mut sampler);
    assert_eq!(grey, v(700_000, 700_000, 700_000));
    assert_eq!(white, v(1_000_000, 1_000_000, 1_000_000));
}

fn facing_mirror_triangles(albedo: Vec3) -> Accel {
    let mat = SerializedMaterial::Mirror(Mirror { perturbation: 0, albedo });
    let lower = SerializedTextured {
        geometry: SerializedHittable::Triangle(TriangleParameters {
            vertices: [
                v(0, 0, -1_000_000),
                v(0, 3_000_000, -1_000_000),
                v(3_000_000, 0, -1_000_000),
            ],
            handedness: TriangleHandedness::CounterClockwise,
        }),
        mat,
    };
    let upper = SerializedTextured {
        geometry: SerializedHittable::Triangle(TriangleParameters {
            vertices: [
                v(0, 0, 1_000_000),
                v(3_000_000, 0, 1_000_000),
                v(0, 3_000_000, 1_000_000),
            ],
            handedness: TriangleHandedness::CounterClockwise,
        }),
        mat,
    };
    list_accel(vec![lower.to_textured(), upper.to_textured()])
}

// Two facing mirrors reflect a ray forever; the recursion terminates at
// the depth cap and returns the background, attenuated once per bounce.
#[test]
fn whitted_depth_cap_between_mirrors() {
    let accel = facing_mirror_triangles(v(500_000, 500_000, 500_000));
    let whitted = Whitted { max_depth: 5 };
    let mut sampler = Random::with_seed(4);
    let ray = Ray { origin: v(1_000_000, 1_000_000, 0), direction: v(0, 0, -1_000_000) };
    let background = v(250_000, 500_000, 750_000);
    let color = whitted.render(&accel, background, &ray, &mut sampler);
    // Five bounces each halve the radiance carried back from the cutoff.
    assert_eq!(color, v(7_812, 15_625, 23_437));
}

// With perfect white mirrors the depth cap hands the background straight
// back through all five bounces.
#[test]
fn whitted_depth_cap_white_mirrors() {
    let accel = facing_mirror_triangles(v(1_000_000, 1_000_000, 1_000_000));
    let whitted = Whitted { max_depth: 5 };
    let mut sampler = Random::with_seed(4);
    let ray = Ray { origin: v(1_000_000, 1_000_000, 0), direction: v(0, 0, -1_000_000) };
    let background = v(250_000, 500_000, 750_000);
    let color = whitted.render(&accel, background, &ray, &mut sampler);
    assert_eq!(color, background);
}

// The sequential driver and the per-pixel entry agree: walking the
// pixels with one sampler stream reproduces the rendered buffer.
#[test]
fn render_pixel_matches_driver() {
    let scene = Scene {
        objects: vec![],
        acceleration_structure: SerializedAccelerationStruct::ObjectList(ObjectListParams {}),
        camera: SerializedCamera::BasicPinhole(BasicPinhole::default()),
        background: v(100_000, 200_000, 300_000),
        samples_per_pixel: 3,
        integrator: SerializedIntegrator::Whitted(Whitted { max_depth: 5 }),
        height: 2,
        width: 3,
    };
    let renderer = scene.to_renderer().unwrap();
    let buffer = renderer.render_with_seed(7);
    let mut sampler = Random::with_seed(7);
    for i in 0..6 {
        assert_eq!(buffer[i], renderer.render_pixel(i, &mut sampler));
    }
}

// Rendering the same scene from the same seed twice gives byte-identical
// buffers.
#[test]
fn render_is_deterministic() {
    let scene = Scene {
        objects: vec![SerializedTextured {
            geometry: SerializedHittable::Sphere(tracer::hittable::Sphere {
                center: v(0, 0, -3_000_000),
                radius: 1_000_000,
            }),
            mat: SerializedMaterial::Diffuse(tracer::material::Diffuse {
                albedo: v(600_000, 700_000, 800_000),
            }),
        }],
        acceleration_structure: SerializedAccelerationStruct::ObjectList(ObjectListParams {}),
        camera: SerializedCamera::BasicPinhole(BasicPinhole::default()),
        background: v(100_000, 100_000, 100_000),
        samples_per_pixel: 4,
        integrator: SerializedIntegrator::Whitted(Whitted { max_depth: 5 }),
        height: 4,
        width: 8,
    };
    let r1 = scene.clone().to_renderer().unwrap();
    let r2 = scene.to_renderer().unwrap();
    let b1 = r1.render_with_seed(123);
    let b2 = r2.render_with_seed(123);
    assert_eq!(b1.len(), 32);
    assert_eq!(b1, b2);
    // The default render stream is the documented default seed.
    assert_eq!(r1.render(), r1.render_with_seed(42));
}
