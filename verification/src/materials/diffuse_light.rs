use vstd::prelude::*;
use crate::color::Color;
use crate::materials::ScatterRecord;
use crate::scalar::Scalar;
use crate::textures::{ImageTexture, NoiseTexture, SolidColor, TextureEnum};
use crate::vec3::Vec3;

verus! {

/// A surface that emits light and scatters none.
pub struct DiffuseLight {
    pub emit: TextureEnum,
}

impl DiffuseLight {
    /// A light that emits what the texture gives.
    pub fn from_texture(emit: TextureEnum) -> (m: DiffuseLight)
        ensures
            m.emit == emit,
    {
        DiffuseLight { emit }
    }

    /// A light of one colour.
    pub fn from_color(color: Color) -> (m: DiffuseLight)
        ensures
            m.emit == TextureEnum::SolidColor(SolidColor { color }),
    {
        DiffuseLight { emit: TextureEnum::SolidColor(SolidColor::new(color)) }
    }

    /// A light scatters nothing.
    pub fn scatter(&self) -> (r: Option<ScatterRecord>)
        ensures
            r is None,
    {
        None
    }

    /// The light emitted at a point: the value of the texture there.
    pub fn emitted<
        S: Fn(&Vec3) -> Scalar,
        N: Fn(&NoiseTexture, &Vec3) -> Color,
        I: Fn(&ImageTexture, Scalar, Scalar) -> Color,
    >(
        &self,
        u: Scalar,
        v: Scalar,
        point: &Vec3,
        sines: &S,
        noise: &N,
        image: &I,
    ) -> (c: Color)
        requires
            forall|p: &Vec3| call_requires(*sines, (p,)),
            forall|t: &NoiseTexture, p: &Vec3| call_requires(*noise, (t, p)),
            forall|t: &ImageTexture, a: Scalar, b: Scalar| call_requires(*image, (t, a, b)),
        ensures
            self.emit.value_outcome(u, v, *point, *sines, *noise, *image, c),
    {
        self.emit.value(u, v, point, sines, noise, image)
    }
}

} // verus!
