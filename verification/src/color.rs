use vstd::prelude::*;
use crate::scalar::Scalar;
use crate::vec3::Vec3;

verus! {

/// A radiance triple: red, green, blue.
#[derive(Clone, Copy, Debug, PartialEq, Eq, Structural)]
pub struct Color(pub Vec3);

impl Color {
    /// The colour with the given channels.
    pub fn new(r: Scalar, g: Scalar, b: Scalar) -> (c: Color)
        ensures
            c.0 == (Vec3 { x: r, y: g, z: b }),
    {
        Color(Vec3::new(r, g, b))
    }

    /// The colour with all three channels zero.
    pub fn black() -> (c: Color)
        ensures
            c.0.x.bits == 0 && c.0.y.bits == 0 && c.0.z.bits == 0,
    {
        Color(Vec3::zero())
    }

    /// The red channel.
    pub fn r(&self) -> (s: Scalar)
        ensures
            s == self.0.x,
    {
        self.0.x
    }

    /// The green channel.
    pub fn g(&self) -> (s: Scalar)
        ensures
            s == self.0.y,
    {
        self.0.y
    }

    /// The blue channel.
    pub fn b(&self) -> (s: Scalar)
        ensures
            s == self.0.z,
    {
        self.0.z
    }
}

impl From<Vec3> for Color {
    /// The colour whose channels are the components of `v`.
    fn from(v: Vec3) -> (c: Color) {
        Color(v)
    }
}

impl vstd::std_specs::convert::FromSpecImpl<Vec3> for Color {
    open spec fn obeys_from_spec() -> bool {
        true
    }

    open spec fn from_spec(v: Vec3) -> Color {
        Color(v)
    }
}

} // verus!
