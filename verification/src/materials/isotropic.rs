use vstd::prelude::*;
use crate::color::Color;
use crate::materials::ScatterRecord;
use crate::objects::HitRecord;
use crate::ray::Ray;
use crate::textures::{SolidColor, TextureEnum};
use crate::vec3::Vec3;

verus! {

/// The phase function of a medium: it scatters evenly in all directions.
pub struct Isotropic {
    pub albedo: TextureEnum,
}

impl Isotropic {
    /// The ray carries on from the hit point in the sampled direction.
    pub open spec fn scatter_spec(
        ray: Ray,
        rec: HitRecord,
        direction: Vec3,
        attenuation: Color,
    ) -> ScatterRecord {
        ScatterRecord {
            attenuation,
            scattered: Ray { origin: rec.point, direction: direction, time: ray.time },
        }
    }

    /// The phase function with the given albedo.
    pub fn new(albedo: TextureEnum) -> (m: Isotropic)
        ensures
            m.albedo == albedo,
    {
        Isotropic { albedo }
    }

    /// The phase function of one colour.
    pub fn from_color(color: Color) -> (m: Isotropic)
        ensures
            m.albedo == TextureEnum::SolidColor(SolidColor { color }),
    {
        Isotropic { albedo: TextureEnum::SolidColor(SolidColor::new(color)) }
    }

    /// Scatters the ray. `direction` is a random point of the unit sphere and
    /// `attenuation` the value of the albedo at the hit.
    pub fn scatter(ray: &Ray, hit_record: &HitRecord, direction: Vec3, attenuation: Color) -> (r:
        ScatterRecord)
        ensures
            r == Isotropic::scatter_spec(*ray, *hit_record, direction, attenuation),
    {
        let scattered = Ray::new_time_based(hit_record.point, direction, ray.time());
        ScatterRecord { attenuation, scattered }
    }
}

} // verus!
