use vstd::prelude::*;
use crate::color::Color;
use crate::scalar::Scalar;
use crate::vec3::Vec3;

pub mod checker;
pub mod image_texture;
pub mod noise;
pub mod solid_color;

pub use checker::Checker;
pub use image_texture::ImageTexture;
pub use noise::NoiseTexture;
pub use solid_color::SolidColor;

verus! {

/// The textures: a colour for every point of a surface.
pub enum TextureEnum {
    SolidColor(SolidColor),
    Checker(Checker),
    Noise(NoiseTexture),
    Image(ImageTexture),
}

impl TextureEnum {
    /// `c` is a colour that `value` may give with these kernels.
    pub open spec fn value_outcome<
        S: Fn(&Vec3) -> Scalar,
        N: Fn(&NoiseTexture, &Vec3) -> Color,
        I: Fn(&ImageTexture, Scalar, Scalar) -> Color,
    >(
        self,
        u: Scalar,
        v: Scalar,
        point: Vec3,
        sines: S,
        noise: N,
        image: I,
        c: Color,
    ) -> bool
        decreases self,
    {
        match self {
            TextureEnum::SolidColor(t) => c == t.color,
            TextureEnum::Checker(t) => exists|s: Scalar| #[trigger]
                call_ensures(sines, (&point,), s) && if Checker::is_odd(s) {
                    t.odd.value_outcome(u, v, point, sines, noise, image, c)
                } else {
                    t.even.value_outcome(u, v, point, sines, noise, image, c)
                },
            TextureEnum::Noise(t) => call_ensures(noise, (&t, &point), c),
            TextureEnum::Image(t) => call_ensures(image, (&t, u, v), c),
        }
    }

    /// The colour of the texture at the surface coordinates `(u, v)` and the
    /// point `point`. `sines` computes the product of sines by which a
    /// checker chooses, `noise` evaluates a noise texture, and `image` looks
    /// up an image texture.
    pub fn value<
        S: Fn(&Vec3) -> Scalar,
        N: Fn(&NoiseTexture, &Vec3) -> Color,
        I: Fn(&ImageTexture, Scalar, Scalar) -> Color,
    >(
        &self,
        u: Scalar,
        v: Scalar,
        point: &Vec3,
        sines: &S,
        noise: &N,
        image: &I,
    ) -> (c: Color)
        requires
            forall|p: &Vec3| call_requires(*sines, (p,)),
            forall|t: &NoiseTexture, p: &Vec3| call_requires(*noise, (t, p)),
            forall|t: &ImageTexture, a: Scalar, b: Scalar| call_requires(*image, (t, a, b)),
        ensures
            self.value_outcome(u, v, *point, *sines, *noise, *image, c),
        decreases self,
    {
        match self {
            TextureEnum::SolidColor(t) => t.value(),
            TextureEnum::Checker(t) => {
                let s = sines(point);
                t.pick(s).value(u, v, point, sines, noise, image)
            },
            TextureEnum::Noise(t) => noise(t, point),
            TextureEnum::Image(t) => image(t, u, v),
        }
    }
}

} // verus!
