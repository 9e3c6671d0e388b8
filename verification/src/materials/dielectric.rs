use vstd::prelude::*;
use crate::color::Color;
use crate::materials::ScatterRecord;
use crate::objects::HitRecord;
use crate::ray::Ray;
use crate::scalar::Scalar;
use crate::vec3::Vec3;

verus! {

/// A clear material that refracts, such as glass.
#[derive(Clone, Copy, Debug, PartialEq, Eq, Structural)]
pub struct Dielectric {
    pub attenuation: Color,
    pub refraction_index: Scalar,
}

/// What the arithmetic at a refracting boundary yields.
#[derive(Clone, Copy, Debug, PartialEq, Eq, Structural)]
pub struct DielectricProbe {
    /// The ratio of the refraction indices times the sine of the angle of
    /// incidence. Above one, no refracted ray exists.
    pub bend: Scalar,
    /// The reflectance at the angle of incidence.
    pub reflectance: Scalar,
    /// A uniform random number, against which the reflectance is held.
    pub sample: Scalar,
    /// The mirrored unit direction.
    pub reflected: Vec3,
    /// The refracted unit direction.
    pub refracted: Vec3,
}

impl Dielectric {
    /// The ray is mirrored when it cannot refract, or when the reflectance
    /// exceeds the sample.
    pub open spec fn reflects(p: DielectricProbe) -> bool {
        (Scalar { bits: 0x3f80_0000 }).lt_spec(p.bend) || p.sample.lt_spec(p.reflectance)
    }

    /// The ray carries on from the hit point, mirrored or refracted, dimmed
    /// by the tint of the material.
    pub open spec fn scatter_spec(self, ray: Ray, rec: HitRecord, p: DielectricProbe) -> ScatterRecord {
        let direction = if Dielectric::reflects(p) {
            p.reflected
        } else {
            p.refracted
        };
        ScatterRecord {
            attenuation: self.attenuation,
            scattered: Ray { origin: rec.point, direction: direction, time: ray.time },
        }
    }

    /// Clear glass: no tint.
    pub fn new(refraction_index: Scalar) -> (m: Dielectric)
        ensures
            m.attenuation.0.x.bits == 0x3f80_0000,
            m.attenuation.0.y.bits == 0x3f80_0000,
            m.attenuation.0.z.bits == 0x3f80_0000,
            m.refraction_index == refraction_index,
    {
        Dielectric {
            attenuation: Color::new(Scalar::one(), Scalar::one(), Scalar::one()),
            refraction_index,
        }
    }

    /// Glass with a tint.
    pub fn from_color(color: Color, refraction_index: Scalar) -> (m: Dielectric)
        ensures
            m.attenuation == color,
            m.refraction_index == refraction_index,
    {
        Dielectric { attenuation: color, refraction_index }
    }

    /// Scatters the ray: it is mirrored when the probe says that it cannot
    /// refract or when the reflectance exceeds the sample, and refracted
    /// otherwise.
    pub fn scatter(&self, ray: &Ray, rec: &HitRecord, probe: &DielectricProbe) -> (r: ScatterRecord)
        ensures
            r == self.scatter_spec(*ray, *rec, *probe),
    {
        let cannot_refract = probe.bend.gt(Scalar::one());
        let reflectance_too_high = probe.reflectance.gt(probe.sample);
        let direction = if cannot_refract || reflectance_too_high {
            probe.reflected
        } else {
            probe.refracted
        };
        let scattered = Ray::new_time_based(rec.point, direction, ray.time());
        ScatterRecord { attenuation: self.attenuation, scattered }
    }
}

} // verus!
