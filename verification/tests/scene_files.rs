//! Tests of the scene binding: the example scene descriptions of the
//! documentation bind into runnable renderers, and invalid fields are
//! rejected with the matching error.

use tracer::accel::{ObjectListParams, SerializedAccelerationStruct};
use tracer::camera::{BasicPinhole, Pinhole, SerializedCamera, ThinLens};
use tracer::hittable::triangle::TriangleHandedness;
use tracer::hittable::{SerializedHittable, SerializedTextured, Sphere, TriangleParameters};
use tracer::integrator::{Normal, SerializedIntegrator, Whitted};
use tracer::material::{Dielectric, Diffuse, Mirror, SerializedMaterial};
use tracer::scene::{Scene, SceneError};
use tracer::vector::Vec3;

fn v(x: i64, y: i64, z: i64) -> Vec3 {
    Vec3 { x, y, z }
}

fn example_scene() -> Scene {
    Scene {
        objects: vec![
            SerializedTextured {
                geometry: SerializedHittable::Sphere(Sphere {
                    center: v(0, 0, -3_000_000),
                    radius: 1_000_000,
                }),
                mat: SerializedMaterial::Diffuse(Diffuse { albedo: v(800_000, 300_000, 300_000) }),
            },
            SerializedTextured {
                geometry: SerializedHittable::Sphere(Sphere {
                    center: v(0, -101_000_000, -3_000_000),
                    radius: 100_000_000,
                }),
                mat: SerializedMaterial::Mirror(Mirror {
                    perturbation: 50_000,
                    albedo: v(900_000, 900_000, 900_000),
                }),
            },
            SerializedTextured {
                geometry: SerializedHittable::Triangle(TriangleParameters {
                    vertices: [
                        v(-2_000_000, 0, -4_000_000),
                        v(0, 2_000_000, -4_000_000),
                        v(2_000_000, 0, -4_000_000),
                    ],
                    handedness: TriangleHandedness::CounterClockwise,
                }),
                mat: SerializedMaterial::Dielectric(Dielectric {
                    refraction_index: 1_500_000,
                    albedo: v(1_000_000, 1_000_000, 1_000_000),
                }),
            },
        ],
        acceleration_structure: SerializedAccelerationStruct::ObjectList(ObjectListParams {}),
        camera: SerializedCamera::Pinhole(Pinhole {
            target: v(0, 0, -3_000_000),
            origin: v(0, 0, 0),
            vfov: 90_000_000,
            up: v(0, 1_000_000, 0),
            aspect_ratio: 1_000_000,
        }),
        background: v(500_000, 700_000, 900_000),
        samples_per_pixel: 16,
        integrator: SerializedIntegrator::Whitted(Whitted { max_depth: 10 }),
        height: 90,
        width: 160,
    }
}

// The documented example scene descriptions all bind into renderers.
#[test]
fn example_scene_files_parse() {
    let pinhole_scene = example_scene();
    let renderer = pinhole_scene.to_renderer().unwrap();
    assert_eq!(renderer.width, 160);
    assert_eq!(renderer.height, 90);
    assert_eq!(renderer.samples_per_pixel, 16);
    assert_eq!(renderer.background, v(500_000, 700_000, 900_000));

    let mut basic_scene = example_scene();
    basic_scene.camera = SerializedCamera::BasicPinhole(BasicPinhole::default());
    basic_scene.integrator = SerializedIntegrator::Normal(Normal {});
    assert!(basic_scene.to_renderer().is_ok());

    let mut lens_scene = example_scene();
    lens_scene.camera = SerializedCamera::ThinLens(ThinLens {
        look_from: v(0, 0, 0),
        look_at: v(0, 0, -3_000_000),
        up: v(0, 1_000_000, 0),
        fov: 60_000_000,
        aperture: 200_000,
        focus_distance: 3_000_000,
    });
    assert!(lens_scene.to_renderer().is_ok());
}

// Each invalid field is rejected with its own error.
#[test]
fn invalid_fields_are_rejected() {
    let mut s = example_scene();
    s.background = v(1_000_001, 0, 0);
    assert_eq!(s.to_renderer().unwrap_err(), SceneError::InvalidBackground);

    let mut s = example_scene();
    s.samples_per_pixel = 0;
    assert_eq!(s.to_renderer().unwrap_err(), SceneError::InvalidSampleCount);

    let mut s = example_scene();
    s.width = 0;
    assert_eq!(s.to_renderer().unwrap_err(), SceneError::InvalidDimensions);

    let mut s = example_scene();
    s.height = 65_536;
    assert_eq!(s.to_renderer().unwrap_err(), SceneError::InvalidDimensions);

    // An extreme aspect ratio is a dimension error as well.
    let mut s = example_scene();
    s.height = 2;
    s.width = 65_535;
    assert_eq!(s.to_renderer().unwrap_err(), SceneError::InvalidDimensions);

    let mut s = example_scene();
    s.camera = SerializedCamera::Pinhole(Pinhole {
        target: v(0, 0, -3_000_000),
        origin: v(0, 0, 0),
        vfov: 0,
        up: v(0, 1_000_000, 0),
        aspect_ratio: 1_000_000,
    });
    assert_eq!(s.to_renderer().unwrap_err(), SceneError::InvalidCamera);

    let mut s = example_scene();
    s.objects[0].mat = SerializedMaterial::Diffuse(Diffuse { albedo: v(-1, 0, 0) });
    assert_eq!(s.to_renderer().unwrap_err(), SceneError::InvalidObject);

    let mut s = example_scene();
    s.objects[0].mat = SerializedMaterial::Dielectric(Dielectric {
        refraction_index: 900_000,
        albedo: v(1_000_000, 1_000_000, 1_000_000),
    });
    assert_eq!(s.to_renderer().unwrap_err(), SceneError::InvalidObject);

    // The error messages are stable.
    assert_eq!(
        SceneError::InvalidSampleCount.message(),
        "the sample count must be between 1 and 100000"
    );
}
