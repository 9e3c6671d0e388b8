use vstd::prelude::*;
use crate::color::Color;
use crate::scalar::Scalar;
use crate::textures::solid_color::SolidColor;
use crate::textures::TextureEnum;

verus! {

/// A three-dimensional checker of two textures.
pub struct Checker {
    pub odd: Box<TextureEnum>,
    pub even: Box<TextureEnum>,
}

impl Checker {
    /// Whether a point is in an odd cell: the product of the sines of its
    /// scaled coordinates is negative.
    pub open spec fn is_odd(sines: Scalar) -> bool {
        sines.lt_spec(Scalar { bits: 0 })
    }

    /// A checker of two colours.
    pub fn from_colors(odd: Color, even: Color) -> (t: Checker)
        ensures
            *t.odd == TextureEnum::SolidColor(SolidColor { color: odd }),
            *t.even == TextureEnum::SolidColor(SolidColor { color: even }),
    {
        Checker {
            odd: Box::new(TextureEnum::SolidColor(SolidColor::new(odd))),
            even: Box::new(TextureEnum::SolidColor(SolidColor::new(even))),
        }
    }

    /// The texture of the cell: the odd one where the product of sines is
    /// negative, the even one elsewhere.
    pub fn pick(&self, sines: Scalar) -> (t: &TextureEnum)
        ensures
            *t == if Checker::is_odd(sines) {
                *self.odd
            } else {
                *self.even
            },
    {
        if sines.lt(Scalar::zero()) {
            &*self.odd
        } else {
            &*self.even
        }
    }
}

} // verus!
