use vstd::prelude::*;
use crate::scalar::Scalar;

verus! {

/// The encoding of the threshold below which a component counts as zero:
/// the binary32 number nearest to 1e-8.
pub const NEAR_ZERO_BITS: u32 = 0x322b_cc77;

/// Three scalars: a point, a direction or a colour.
#[derive(Clone, Copy, Debug, PartialEq, Eq, Structural)]
pub struct Vec3 {
    pub x: Scalar,
    pub y: Scalar,
    pub z: Scalar,
}

pub type Point3 = Vec3;

impl View for Vec3 {
    type V = (int, int, int);

    open spec fn view(&self) -> (int, int, int) {
        (self.x@, self.y@, self.z@)
    }
}

impl Vec3 {
    /// No component is NaN.
    pub open spec fn is_number(self) -> bool {
        !self.x.is_nan_spec() && !self.y.is_nan_spec() && !self.z.is_nan_spec()
    }

    /// The component on axis 0, 1 or 2.
    pub open spec fn axis(self, axis: int) -> Scalar {
        if axis == 0 {
            self.x
        } else if axis == 1 {
            self.y
        } else {
            self.z
        }
    }

    /// Every component is smaller in magnitude than the threshold.
    pub open spec fn near_zero_spec(self) -> bool {
        let eps = Scalar { bits: NEAR_ZERO_BITS };
        self.x.abs_spec().lt_spec(eps) && self.y.abs_spec().lt_spec(eps) && self.z.abs_spec().lt_spec(
            eps,
        )
    }

    /// The vector with every component negated.
    pub open spec fn neg_spec(self) -> Vec3 {
        Vec3 { x: self.x.neg_spec(), y: self.y.neg_spec(), z: self.z.neg_spec() }
    }

    /// The smaller component on each axis.
    pub open spec fn min_spec(self, other: Vec3) -> Vec3 {
        Vec3 {
            x: self.x.min_spec(other.x),
            y: self.y.min_spec(other.y),
            z: self.z.min_spec(other.z),
        }
    }

    /// The larger component on each axis.
    pub open spec fn max_spec(self, other: Vec3) -> Vec3 {
        Vec3 {
            x: self.x.max_spec(other.x),
            y: self.y.max_spec(other.y),
            z: self.z.max_spec(other.z),
        }
    }

    /// `self <= other` on every axis.
    pub open spec fn le_spec(self, other: Vec3) -> bool {
        self.x.le_spec(other.x) && self.y.le_spec(other.y) && self.z.le_spec(other.z)
    }

    /// The vector with the given components.
    pub fn new(x: Scalar, y: Scalar, z: Scalar) -> (v: Vec3)
        ensures
            v == (Vec3 { x, y, z }),
    {
        Vec3 { x, y, z }
    }

    /// The vector whose components are all positive zero.
    pub fn zero() -> (v: Vec3)
        ensures
            v.x.bits == 0 && v.y.bits == 0 && v.z.bits == 0,
            v@ == (0int, 0int, 0int),
    {
        Vec3 { x: Scalar::zero(), y: Scalar::zero(), z: Scalar::zero() }
    }

    /// The first component.
    pub fn x(&self) -> (r: Scalar)
        ensures
            r == self.x,
    {
        self.x
    }

    /// The second component.
    pub fn y(&self) -> (r: Scalar)
        ensures
            r == self.y,
    {
        self.y
    }

    /// The third component.
    pub fn z(&self) -> (r: Scalar)
        ensures
            r == self.z,
    {
        self.z
    }

    /// The component on the given axis.
    pub fn get(&self, axis: usize) -> (r: Scalar)
        requires
            axis < 3,
        ensures
            r == self.axis(axis as int),
    {
        if axis == 0 {
            self.x
        } else if axis == 1 {
            self.y
        } else {
            self.z
        }
    }

    /// Whether every component is smaller in magnitude than the threshold.
    pub fn near_zero(&self) -> (r: bool)
        ensures
            r == self.near_zero_spec(),
    {
        let eps = Scalar::from_bits(NEAR_ZERO_BITS);
        self.x.abs().lt(eps) && self.y.abs().lt(eps) && self.z.abs().lt(eps)
    }

    /// The vector with every component negated.
    pub fn neg(&self) -> (r: Vec3)
        ensures
            r == self.neg_spec(),
    {
        Vec3 { x: self.x.neg(), y: self.y.neg(), z: self.z.neg() }
    }

    /// The smaller component on each axis.
    pub fn min(&self, other: &Vec3) -> (r: Vec3)
        ensures
            r == self.min_spec(*other),
    {
        Vec3 { x: self.x.min(other.x), y: self.y.min(other.y), z: self.z.min(other.z) }
    }

    /// The larger component on each axis.
    pub fn max(&self, other: &Vec3) -> (r: Vec3)
        ensures
            r == self.max_spec(*other),
    {
        Vec3 { x: self.x.max(other.x), y: self.y.max(other.y), z: self.z.max(other.z) }
    }
}

} // verus!
