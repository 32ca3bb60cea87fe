//! The scene binding: convert the declarative scene description into the
//! runtime renderer, validating every field.

use crate::accel::{accel_arena_s, Accel, SerializedAccelerationStruct};
use crate::camera::{pinhole, serialized_camera_ok_s, thin_lens, Camera, SerializedCamera};
use crate::hittable::{
    serialized_hittable_ok_s, triangle, Hittable, SerializedHittable, SerializedTextured,
    Textured, COORD_MAX, TRI_COORD_MAX,
};
use crate::integrator::SerializedIntegrator;
use crate::material::{albedo_ok_s, material_ok_s, SerializedMaterial};
use crate::renderer::{renderer_ok_s, Renderer};
use crate::vector::{vec_in_range, Vec3};
use vstd::prelude::*;

verus! {

/// A scene description as the user inputs it.
#[derive(Clone, PartialEq, Eq, Debug)]
pub struct Scene {
    /// All of the geometric objects in the scene.
    pub objects: Vec<SerializedTextured>,
    /// The acceleration structure to use with the scene.
    pub acceleration_structure: SerializedAccelerationStruct,
    /// The camera to use with the scene.
    pub camera: SerializedCamera,
    /// The background color returned at the recursion cutoff.
    pub background: Vec3,
    /// The number of samples to take per pixel.
    pub samples_per_pixel: u32,
    /// The integrator to use to render the scene.
    pub integrator: SerializedIntegrator,
    /// The vertical resolution of the scene, in pixels.
    pub height: u32,
    /// The horizontal resolution of the scene, in pixels.
    pub width: u32,
}

/// The errors scene construction can surface: a field out of the supported
/// ranges is rejected before any rendering starts.
#[derive(Clone, Copy, PartialEq, Eq, Structural, Debug)]
pub enum SceneError {
    /// An object's geometry or material lies outside the supported ranges.
    InvalidObject,
    /// The camera configuration lies outside the supported ranges.
    InvalidCamera,
    /// The background color is not within `[0, 1]` componentwise.
    InvalidBackground,
    /// The sample count is zero or beyond the supported maximum.
    InvalidSampleCount,
    /// A resolution is zero, beyond the supported maximum, or gives an
    /// aspect ratio outside the supported range.
    InvalidDimensions,
}

impl SceneError {
    /// A human-readable description of the error.
    pub fn message(&self) -> (r: &'static str)
        ensures
            *self == SceneError::InvalidObject ==> r@
                == "an object's geometry or material is out of the supported range"@,
            *self == SceneError::InvalidCamera ==> r@
                == "the camera configuration is out of the supported range"@,
            *self == SceneError::InvalidBackground ==> r@
                == "the background color must lie in [0, 1] componentwise"@,
            *self == SceneError::InvalidSampleCount ==> r@
                == "the sample count must be between 1 and 100000"@,
            *self == SceneError::InvalidDimensions ==> r@
                == "the resolution or aspect ratio is out of the supported range"@,
    {
        match *self {
            SceneError::InvalidObject => "an object's geometry or material is out of the supported range",
            SceneError::InvalidCamera => "the camera configuration is out of the supported range",
            SceneError::InvalidBackground => "the background color must lie in [0, 1] componentwise",
            SceneError::InvalidSampleCount => "the sample count must be between 1 and 100000",
            SceneError::InvalidDimensions => "the resolution or aspect ratio is out of the supported range",
        }
    }
}

/// Every object of the description within the supported ranges.
pub open spec fn scene_objects_ok_s(objs: Seq<SerializedTextured>) -> bool {
    forall|i: int|
        0 <= i < objs.len() ==> serialized_hittable_ok_s(#[trigger] objs[i].geometry)
            && material_ok_s(objs[i].mat)
}

/// The aspect ratio the scene binding hands the parameterized cameras:
/// height over width, in fixed point — the vertical field of view is the
/// framing parameter, and the horizontal span follows from it.
pub open spec fn scene_aspect_s(s: Scene) -> int {
    ((s.height as int) * 1_000_000) / (s.width as int)
}

/// A scene description the binding accepts.
pub open spec fn scene_valid_s(s: Scene) -> bool {
    &&& scene_objects_ok_s(s.objects@)
    &&& serialized_camera_ok_s(s.camera)
    &&& albedo_ok_s(s.background@)
    &&& 1 <= s.samples_per_pixel <= 100_000
    &&& 1 <= s.height <= 65_535
    &&& 1 <= s.width <= 65_535
    &&& 10_000 <= scene_aspect_s(s) <= 100_000_000
}

/// How a runtime object relates to its description.
pub open spec fn textured_rel_s(st: SerializedTextured, t: Textured) -> bool {
    &&& t.mat == st.mat
    &&& match st.geometry {
        SerializedHittable::Sphere(sp) => t.geometry == Hittable::Sphere(sp),
        SerializedHittable::Triangle(p) => t.geometry is Triangle && triangle::triangle_from_params_s(
            p,
            t.geometry->Triangle_0,
        ),
    }
}

/// How the runtime camera relates to the described one.
pub open spec fn camera_rel_s(sc: SerializedCamera, aspect: int, c: Camera) -> bool {
    match sc {
        SerializedCamera::BasicPinhole(b) => c == Camera::BasicPinhole(b),
        SerializedCamera::Pinhole(p) => c is BasicPinhole && pinhole::pinhole_init_rel_s(
            p,
            aspect,
            c->BasicPinhole_0,
        ),
        SerializedCamera::ThinLens(t) => c is ThinLens && thin_lens::thin_lens_init_rel_s(
            t,
            aspect,
            c->ThinLens_0,
        ),
    }
}

/// Whether one described object is within the supported ranges.
fn check_object(o: &SerializedTextured) -> (r: bool)
    ensures
        r == (serialized_hittable_ok_s(o.geometry) && material_ok_s(o.mat)),
{
    let geom_ok: bool = match &o.geometry {
        SerializedHittable::Sphere(s) => vec_in_range(s.center, COORD_MAX) && -COORD_MAX
            <= s.radius && s.radius <= COORD_MAX,
        SerializedHittable::Triangle(p) => vec_in_range(p.vertices[0], TRI_COORD_MAX)
            && vec_in_range(p.vertices[1], TRI_COORD_MAX) && vec_in_range(
            p.vertices[2],
            TRI_COORD_MAX,
        ),
    };
    let mat_ok: bool = match &o.mat {
        SerializedMaterial::Diffuse(d) => vec_in_range(d.albedo, 1_000_000) && d.albedo.x >= 0
            && d.albedo.y >= 0 && d.albedo.z >= 0,
        SerializedMaterial::Mirror(m) => vec_in_range(m.albedo, 1_000_000) && m.albedo.x >= 0
            && m.albedo.y >= 0 && m.albedo.z >= 0 && 0 <= m.perturbation && m.perturbation
            <= 1_000_000,
        SerializedMaterial::Dielectric(d) => vec_in_range(d.albedo, 1_000_000) && d.albedo.x >= 0
            && d.albedo.y >= 0 && d.albedo.z >= 0 && 1_000_000 <= d.refraction_index
            && d.refraction_index <= 5_000_000,
    };
    geom_ok && mat_ok
}

/// Whether the described camera is within the supported ranges.
fn check_camera(c: &SerializedCamera) -> (r: bool)
    ensures
        r == serialized_camera_ok_s(*c),
{
    match c {
        SerializedCamera::BasicPinhole(b) => vec_in_range(b.origin, pinhole::CAM_COORD_MAX)
            && vec_in_range(b.horizontal, pinhole::CAM_MAX) && vec_in_range(
            b.vertical,
            pinhole::CAM_MAX,
        ) && vec_in_range(b.lower_left, pinhole::CAM_MAX),
        SerializedCamera::Pinhole(p) => vec_in_range(p.target, pinhole::CAM_COORD_MAX)
            && vec_in_range(p.origin, pinhole::CAM_COORD_MAX) && vec_in_range(
            p.up,
            pinhole::CAM_COORD_MAX,
        ) && 10_000 <= p.vfov && p.vfov <= 175_000_000 && 10_000 <= p.aspect_ratio
            && p.aspect_ratio <= 100_000_000,
        SerializedCamera::ThinLens(t) => vec_in_range(t.look_from, pinhole::CAM_COORD_MAX)
            && vec_in_range(t.look_at, pinhole::CAM_COORD_MAX) && vec_in_range(
            t.up,
            pinhole::CAM_COORD_MAX,
        ) && 10_000 <= t.fov && t.fov <= 175_000_000 && 0 <= t.aperture && t.aperture
            <= 10_000_000_000 && 0 <= t.focus_distance && t.focus_distance <= 1_000_000_000,
    }
}

impl Scene {
    /// Bind the scene description into the runtime renderer, checking every
    /// field: construction succeeds exactly on valid descriptions.
    pub fn to_renderer(self) -> (r: Result<Renderer, SceneError>)
        ensures
            match r {
                Ok(rd) => {
                    &&& scene_valid_s(self)
                    &&& renderer_ok_s(rd)
                    &&& rd.background == self.background
                    &&& rd.samples_per_pixel == self.samples_per_pixel
                    &&& rd.height == self.height
                    &&& rd.width == self.width
                    &&& rd.integrator == self.integrator
                    &&& camera_rel_s(self.camera, scene_aspect_s(self), rd.camera)
                    &&& accel_arena_s(rd.accel).len() == self.objects@.len()
                    &&& forall|i: int|
                        0 <= i < self.objects@.len() ==> textured_rel_s(
                            self.objects@[i],
                            #[trigger] accel_arena_s(rd.accel)[i],
                        )
                },
                Err(e) => {
                    &&& !scene_valid_s(self)
                    &&& (e == SceneError::InvalidObject ==> !scene_objects_ok_s(self.objects@))
                    &&& (e == SceneError::InvalidCamera ==> !serialized_camera_ok_s(self.camera))
                    &&& (e == SceneError::InvalidBackground ==> !albedo_ok_s(self.background@))
                    &&& (e == SceneError::InvalidSampleCount ==> !(1 <= self.samples_per_pixel
                        <= 100_000))
                    &&& (e == SceneError::InvalidDimensions ==> !(1 <= self.height <= 65_535 && 1
                        <= self.width <= 65_535 && 10_000 <= scene_aspect_s(self)
                        <= 100_000_000))
                },
            },
    {
        // Validate the plain fields first.
        if !(self.background.x >= 0 && self.background.x <= 1_000_000 && self.background.y >= 0
            && self.background.y <= 1_000_000 && self.background.z >= 0 && self.background.z
            <= 1_000_000) {
            return Err(SceneError::InvalidBackground);
        }
        if self.samples_per_pixel < 1 || self.samples_per_pixel > 100_000 {
            return Err(SceneError::InvalidSampleCount);
        }
        if self.height < 1 || self.height > 65_535 || self.width < 1 || self.width > 65_535 {
            return Err(SceneError::InvalidDimensions);
        }
        let aspect: i64 = crate::fixed::div_pos((self.height as i64) * 1_000_000, self.width as i64);
        if aspect < 10_000 || aspect > 100_000_000 {
            return Err(SceneError::InvalidDimensions);
        }
        if !check_camera(&self.camera) {
            return Err(SceneError::InvalidCamera);
        }

        // Validate and initialize the arena.
        let mut arena: Vec<Textured> = Vec::new();
        let mut i: usize = 0;
        while i < self.objects.len()
            invariant
                i <= self.objects@.len(),
                arena@.len() == i,
                forall|j: int|
                    0 <= j < i ==> serialized_hittable_ok_s(#[trigger] self.objects@[j].geometry)
                        && material_ok_s(self.objects@[j].mat),
                forall|j: int|
                    0 <= j < i ==> textured_rel_s(self.objects@[j], #[trigger] arena@[j])
                        && crate::hittable::textured_ok_s(arena@[j]),
            decreases self.objects@.len() - i,
        {
            let o: &SerializedTextured = &self.objects[i];
            if !check_object(o) {
                return Err(SceneError::InvalidObject);
            }
            arena.push(o.to_textured());
            i = i + 1;
        }

        // Dispatch the camera, precomputing the parameterized models.
        let camera: Camera = match self.camera {
            SerializedCamera::BasicPinhole(b) => Camera::BasicPinhole(b),
            SerializedCamera::Pinhole(p) => Camera::BasicPinhole(p.init(aspect)),
            SerializedCamera::ThinLens(t) => Camera::ThinLens(t.init(aspect)),
        };
        let accel: Accel = match self.acceleration_structure.to_accel(arena) {
            Ok(a) => a,
            Err(_) => {
                proof {
                    assert(false);
                }
                return Err(SceneError::InvalidObject);
            },
        };
        Ok(
            Renderer {
                accel,
                camera,
                background: self.background,
                samples_per_pixel: self.samples_per_pixel,
                integrator: self.integrator,
                height: self.height,
                width: self.width,
            },
        )
    }
}

} // verus!
