use vstd::prelude::*;
use crate::color::Color;
use crate::materials::ScatterRecord;
use crate::objects::HitRecord;
use crate::ray::Ray;
use crate::scalar::Scalar;
use crate::vec3::Vec3;

verus! {

/// A mirror, blurred by its fuzziness.
#[derive(Clone, Copy, Debug, PartialEq, Eq, Structural)]
pub struct Metal {
    pub albedo: Color,
    pub fuzziness: Scalar,
}

/// What the arithmetic of a reflection yields.
#[derive(Clone, Copy, Debug, PartialEq, Eq, Structural)]
pub struct MetalProbe {
    /// The mirrored direction, moved by the fuzziness times a random point
    /// of the unit sphere.
    pub reflected: Vec3,
    /// `reflected` dotted with the normal at the hit.
    pub reflected_dot_normal: Scalar,
}

impl Metal {
    /// The reflection counts when it leaves the surface on the side of the
    /// normal; a ray that would enter the surface is absorbed.
    pub open spec fn scatter_spec(self, ray: Ray, rec: HitRecord, p: MetalProbe) -> Option<
        ScatterRecord,
    > {
        if (Scalar { bits: 0 }).lt_spec(p.reflected_dot_normal) {
            Some(
                ScatterRecord {
                    attenuation: self.albedo,
                    scattered: Ray { origin: rec.point, direction: p.reflected, time: ray.time },
                },
            )
        } else {
            None
        }
    }

    /// A mirror of the given colour and fuzziness.
    pub fn new(albedo: Color, fuzziness: Scalar) -> (m: Metal)
        ensures
            m.albedo == albedo,
            m.fuzziness == fuzziness,
    {
        Metal { albedo, fuzziness }
    }

    /// Scatters the ray along the reflection, or absorbs it where the
    /// reflection does not leave the surface.
    pub fn scatter(&self, ray: &Ray, hit_record: &HitRecord, probe: &MetalProbe) -> (r: Option<
        ScatterRecord,
    >)
        ensures
            r == self.scatter_spec(*ray, *hit_record, *probe),
    {
        let scattered = Ray::new_time_based(hit_record.point, probe.reflected, ray.time());
        if probe.reflected_dot_normal.gt(Scalar::zero()) {
            Some(ScatterRecord { attenuation: self.albedo, scattered })
        } else {
            None
        }
    }
}

} // verus!
