use vstd::prelude::*;
use crate::color::Color;
use crate::materials::ScatterRecord;
use crate::objects::HitRecord;
use crate::ray::Ray;
use crate::textures::{SolidColor, TextureEnum};
use crate::vec3::Vec3;

verus! {

/// A diffuse surface, coloured by a texture.
pub struct Lambertian {
    pub texture: TextureEnum,
}

/// What the arithmetic of a diffuse scattering yields.
#[derive(Clone, Copy, Debug, PartialEq, Eq, Structural)]
pub struct DiffuseProbe {
    /// The normal plus a cosine-weighted random unit vector.
    pub direction: Vec3,
    /// The value of the texture at the hit.
    pub attenuation: Color,
}

impl Lambertian {
    /// The scattered ray leaves the hit point along the sampled direction,
    /// or along the normal where the sample cancels it out.
    pub open spec fn scatter_spec(ray: Ray, rec: HitRecord, p: DiffuseProbe) -> ScatterRecord {
        let direction = if p.direction.near_zero_spec() {
            rec.normal
        } else {
            p.direction
        };
        ScatterRecord {
            attenuation: p.attenuation,
            scattered: Ray { origin: rec.point, direction: direction, time: ray.time },
        }
    }

    /// A diffuse surface of one colour.
    pub fn new(albedo: Color) -> (m: Lambertian)
        ensures
            m.texture == TextureEnum::SolidColor(SolidColor { color: albedo }),
    {
        Lambertian { texture: TextureEnum::SolidColor(SolidColor::new(albedo)) }
    }

    /// A diffuse surface with the given texture.
    pub fn from_texture(texture: TextureEnum) -> (m: Lambertian)
        ensures
            m.texture == texture,
    {
        Lambertian { texture }
    }

    /// Scatters the ray along the sampled direction, or along the normal
    /// where the sample is near zero.
    pub fn scatter(ray: &Ray, hit_record: &HitRecord, probe: &DiffuseProbe) -> (r: ScatterRecord)
        ensures
            r == Lambertian::scatter_spec(*ray, *hit_record, *probe),
    {
        let mut scatter_direction = probe.direction;
        if scatter_direction.near_zero() {
            scatter_direction = hit_record.normal;
        }
        let scattered = Ray::new_time_based(hit_record.point, scatter_direction, ray.time());
        ScatterRecord { attenuation: probe.attenuation, scattered }
    }
}

} // verus!
