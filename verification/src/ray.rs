use vstd::prelude::*;
use crate::scalar::Scalar;
use crate::vec3::{Point3, Vec3};

verus! {

/// An origin, a direction and the time at which the ray was cast.
#[derive(Clone, Copy, Debug, PartialEq, Eq, Structural)]
pub struct Ray {
    pub origin: Point3,
    pub direction: Vec3,
    pub time: Scalar,
}

impl Ray {
    /// A ray cast at time zero.
    pub fn new(origin: Point3, direction: Vec3) -> (r: Ray)
        ensures
            r.origin == origin,
            r.direction == direction,
            r.time.bits == 0,
    {
        Ray::new_time_based(origin, direction, Scalar::zero())
    }

    /// A ray cast at the given time.
    pub fn new_time_based(origin: Point3, direction: Vec3, time: Scalar) -> (r: Ray)
        ensures
            r.origin == origin,
            r.direction == direction,
            r.time == time,
    {
        Ray { origin, direction, time }
    }

    /// Where the ray starts.
    pub fn origin(&self) -> (p: &Point3)
        ensures
            *p == self.origin,
    {
        &self.origin
    }

    /// Where the ray heads.
    pub fn direction(&self) -> (d: Vec3)
        ensures
            d == self.direction,
    {
        self.direction
    }

    /// When the ray was cast.
    pub fn time(&self) -> (t: Scalar)
        ensures
            t == self.time,
    {
        self.time
    }
}

} // verus!
