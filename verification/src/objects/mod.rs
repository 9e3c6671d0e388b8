use vstd::prelude::*;
use crate::scalar::Scalar;
use crate::vec3::Vec3;

pub mod bvh_node;
pub mod consistency;
pub mod constant_medium;
pub mod cuboid;
pub mod object_list;
pub mod rectangle;
pub mod sphere;
pub mod triangle;

verus! {

/// What an intersection reports: where the ray met the surface, the normal
/// turned against the ray, the ray parameter, the surface coordinates and the
/// handle of the material at that point.
#[derive(Clone, Copy, Debug, PartialEq, Eq, Structural)]
pub struct HitRecord {
    pub point: Vec3,
    pub normal: Vec3,
    pub t: Scalar,
    pub front_face: bool,
    pub material: usize,
    pub u: Scalar,
    pub v: Scalar,
}

impl HitRecord {
    /// The normal that opposes the ray, and whether the outward normal already
    /// did: it does when the ray's direction has a negative dot product with it.
    pub open spec fn orient_spec(direction_dot_normal: Scalar, outward_normal: Vec3) -> (
        Vec3,
        bool,
    ) {
        if direction_dot_normal.lt_spec(Scalar { bits: 0 }) {
            (outward_normal, true)
        } else {
            (outward_normal.neg_spec(), false)
        }
    }

    /// Turns the outward normal against the ray. `direction_dot_normal` is the
    /// dot product of the ray's direction with `outward_normal`.
    pub fn orient_towards_ray(direction_dot_normal: Scalar, outward_normal: Vec3) -> (r: (
        Vec3,
        bool,
    ))
        ensures
            r == HitRecord::orient_spec(direction_dot_normal, outward_normal),
    {
        let front_face = direction_dot_normal.lt(Scalar::zero());
        if front_face {
            (outward_normal, true)
        } else {
            (outward_normal.neg(), false)
        }
    }
}

/// The nearer of two optional hits. Of two hits the left one wins only when
/// its parameter is strictly smaller.
pub open spec fn closer_spec(left: Option<HitRecord>, right: Option<HitRecord>) -> Option<
    HitRecord,
> {
    match (left, right) {
        (Some(l), Some(r)) => if l.t.lt_spec(r.t) {
            Some(l)
        } else {
            Some(r)
        },
        (Some(l), None) => Some(l),
        (None, Some(r)) => Some(r),
        (None, None) => None,
    }
}

/// The nearer of two optional hits; on a tie, the right one.
pub fn closer(left: Option<HitRecord>, right: Option<HitRecord>) -> (out: Option<HitRecord>)
    ensures
        out == closer_spec(left, right),
{
    match (left, right) {
        (Some(l), Some(r)) => if l.t.lt(r.t) {
            Some(l)
        } else {
            Some(r)
        },
        (Some(l), None) => Some(l),
        (None, Some(r)) => Some(r),
        (None, None) => None,
    }
}

/// One step of a closest-so-far scan: a new hit replaces the best one and
/// lowers the limit to its parameter; a miss changes nothing.
pub open spec fn scan_step(best: Option<HitRecord>, limit: Scalar, answer: Option<HitRecord>) -> (
    Option<HitRecord>,
    Scalar,
) {
    match answer {
        Some(rec) => (Some(rec), rec.t),
        None => (best, limit),
    }
}

/// `best` and `limit` are what one scan step makes of `prev`, `prev_limit`
/// and `answer`.
pub open spec fn scan_stepped(
    prev: Option<HitRecord>,
    prev_limit: Scalar,
    answer: Option<HitRecord>,
    best: Option<HitRecord>,
    limit: Scalar,
) -> bool {
    (best, limit) == scan_step(prev, prev_limit, answer)
}

} // verus!
