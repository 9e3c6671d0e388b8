use vstd::prelude::*;
use crate::color::Color;
use crate::objects::HitRecord;
use crate::ray::Ray;
use crate::scalar::Scalar;
use crate::textures::{ImageTexture, NoiseTexture};
use crate::vec3::Vec3;

pub mod dielectric;
pub mod diffuse_light;
pub mod isotropic;
pub mod lambertian;
pub mod metal;

pub use dielectric::{Dielectric, DielectricProbe};
pub use diffuse_light::DiffuseLight;
pub use isotropic::Isotropic;
pub use lambertian::{DiffuseProbe, Lambertian};
pub use metal::{Metal, MetalProbe};

verus! {

/// How a ray leaves a surface: the factor by which the surface dims the
/// light, and the ray that carries on.
#[derive(Clone, Copy, Debug, PartialEq, Eq, Structural)]
pub struct ScatterRecord {
    pub attenuation: Color,
    pub scattered: Ray,
}

/// The materials of surfaces.
pub enum MaterialEnum {
    Lambertian(Lambertian),
    Metal(Metal),
    Dielectric(Dielectric),
    DiffuseLight(DiffuseLight),
}

/// What the arithmetic of one scattering event yields, by kind of material.
#[derive(Clone, Copy, Debug, PartialEq, Eq, Structural)]
pub enum ScatterProbe {
    Lambertian(DiffuseProbe),
    Metal(MetalProbe),
    Dielectric(DielectricProbe),
    DiffuseLight,
}

impl MaterialEnum {
    /// The probe is of the kind of the material.
    pub open spec fn fits(self, probe: ScatterProbe) -> bool {
        match (self, probe) {
            (MaterialEnum::Lambertian(_), ScatterProbe::Lambertian(_)) => true,
            (MaterialEnum::Metal(_), ScatterProbe::Metal(_)) => true,
            (MaterialEnum::Dielectric(_), ScatterProbe::Dielectric(_)) => true,
            (MaterialEnum::DiffuseLight(_), ScatterProbe::DiffuseLight) => true,
            _ => false,
        }
    }

    /// What the material makes of a probe of its kind.
    pub open spec fn scatter_spec(self, ray: Ray, rec: HitRecord, probe: ScatterProbe) -> Option<
        ScatterRecord,
    > {
        match (self, probe) {
            (MaterialEnum::Lambertian(_), ScatterProbe::Lambertian(p)) => Some(
                Lambertian::scatter_spec(ray, rec, p),
            ),
            (MaterialEnum::Metal(m), ScatterProbe::Metal(p)) => m.scatter_spec(ray, rec, p),
            (MaterialEnum::Dielectric(m), ScatterProbe::Dielectric(p)) => Some(
                m.scatter_spec(ray, rec, p),
            ),
            _ => None,
        }
    }

    /// `c` is a colour that `emitted` may give with these kernels: what the
    /// texture of a light gives, and black for every other material.
    pub open spec fn emitted_outcome<
        S: Fn(&Vec3) -> Scalar,
        N: Fn(&NoiseTexture, &Vec3) -> Color,
        I: Fn(&ImageTexture, Scalar, Scalar) -> Color,
    >(
        self,
        u: Scalar,
        v: Scalar,
        point: Vec3,
        sines: S,
        noise: N,
        image: I,
        c: Color,
    ) -> bool {
        match self {
            MaterialEnum::DiffuseLight(m) => m.emit.value_outcome(
                u,
                v,
                point,
                sines,
                noise,
                image,
                c,
            ),
            _ => c.0.x.bits == 0 && c.0.y.bits == 0 && c.0.z.bits == 0,
        }
    }

    /// Scatters the ray at the hit. `probe` holds what the arithmetic for
    /// this kind of material gave; a probe of another kind gives nothing.
    pub fn scatter(&self, ray: &Ray, hit_record: &HitRecord, probe: &ScatterProbe) -> (r: Option<
        ScatterRecord,
    >)
        ensures
            r == self.scatter_spec(*ray, *hit_record, *probe),
            self is DiffuseLight || !self.fits(*probe) ==> r is None,
            (self is Lambertian || self is Dielectric) && self.fits(*probe) ==> r is Some,
    {
        match (self, probe) {
            (MaterialEnum::Lambertian(_), ScatterProbe::Lambertian(p)) => Some(
                Lambertian::scatter(ray, hit_record, p),
            ),
            (MaterialEnum::Metal(m), ScatterProbe::Metal(p)) => m.scatter(ray, hit_record, p),
            (MaterialEnum::Dielectric(m), ScatterProbe::Dielectric(p)) => Some(
                m.scatter(ray, hit_record, p),
            ),
            _ => None,
        }
    }

    /// The light that the surface emits at a point.
    pub fn emitted<
        S: Fn(&Vec3) -> Scalar,
        N: Fn(&NoiseTexture, &Vec3) -> Color,
        I: Fn(&ImageTexture, Scalar, Scalar) -> Color,
    >(
        &self,
        u: Scalar,
        v: Scalar,
        point: &Vec3,
        sines: &S,
        noise: &N,
        image: &I,
    ) -> (c: Color)
        requires
            forall|p: &Vec3| call_requires(*sines, (p,)),
            forall|t: &NoiseTexture, p: &Vec3| call_requires(*noise, (t, p)),
            forall|t: &ImageTexture, a: Scalar, b: Scalar| call_requires(*image, (t, a, b)),
        ensures
            self.emitted_outcome(u, v, *point, *sines, *noise, *image, c),
    {
        match self {
            MaterialEnum::DiffuseLight(material) => material.emitted(
                u,
                v,
                point,
                sines,
                noise,
                image,
            ),
            _ => Color::black(),
        }
    }
}

impl From<Lambertian> for MaterialEnum {
    /// A diffuse surface as a material.
    fn from(material: Lambertian) -> (m: MaterialEnum) {
        MaterialEnum::Lambertian(material)
    }
}

impl vstd::std_specs::convert::FromSpecImpl<Lambertian> for MaterialEnum {
    open spec fn obeys_from_spec() -> bool {
        true
    }

    open spec fn from_spec(material: Lambertian) -> MaterialEnum {
        MaterialEnum::Lambertian(material)
    }
}

impl From<Metal> for MaterialEnum {
    /// A mirror as a material.
    fn from(material: Metal) -> (m: MaterialEnum) {
        MaterialEnum::Metal(material)
    }
}

impl vstd::std_specs::convert::FromSpecImpl<Metal> for MaterialEnum {
    open spec fn obeys_from_spec() -> bool {
        true
    }

    open spec fn from_spec(material: Metal) -> MaterialEnum {
        MaterialEnum::Metal(material)
    }
}

impl From<Dielectric> for MaterialEnum {
    /// Glass as a material.
    fn from(material: Dielectric) -> (m: MaterialEnum) {
        MaterialEnum::Dielectric(material)
    }
}

impl vstd::std_specs::convert::FromSpecImpl<Dielectric> for MaterialEnum {
    open spec fn obeys_from_spec() -> bool {
        true
    }

    open spec fn from_spec(material: Dielectric) -> MaterialEnum {
        MaterialEnum::Dielectric(material)
    }
}

impl From<DiffuseLight> for MaterialEnum {
    /// A light as a material.
    fn from(material: DiffuseLight) -> (m: MaterialEnum) {
        MaterialEnum::DiffuseLight(material)
    }
}

impl vstd::std_specs::convert::FromSpecImpl<DiffuseLight> for MaterialEnum {
    open spec fn obeys_from_spec() -> bool {
        true
    }

    open spec fn from_spec(material: DiffuseLight) -> MaterialEnum {
        MaterialEnum::DiffuseLight(material)
    }
}

} // verus!
