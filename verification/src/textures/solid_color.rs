use vstd::prelude::*;
use crate::color::Color;

verus! {

/// One colour everywhere.
#[derive(Clone, Copy, Debug, PartialEq, Eq, Structural)]
pub struct SolidColor {
    pub color: Color,
}

impl SolidColor {
    /// The texture of one colour.
    pub fn new(color: Color) -> (t: SolidColor)
        ensures
            t.color == color,
    {
        SolidColor { color }
    }

    /// The colour, whatever the point.
    pub fn value(&self) -> (c: Color)
        ensures
            c == self.color,
    {
        self.color
    }
}

} // verus!
