use vstd::prelude::*;
use crate::ray::Ray;
use crate::scalar::{lemma_min_max_keys, Scalar};
use crate::vec3::Vec3;

verus! {

/// An axis-aligned box, given by its two extreme corners.
#[derive(Clone, Copy, Debug, PartialEq, Eq, Structural)]
pub struct Aabb {
    pub min: Vec3,
    pub max: Vec3,
}

/// The ray parameters at which a ray crosses the two bounding planes of a box
/// on each axis, in either order. An infinite parameter stands for a plane
/// that the ray runs parallel to.
#[derive(Clone, Copy, Debug, PartialEq, Eq, Structural)]
pub struct SlabCrossings {
    pub x: Crossing,
    pub y: Crossing,
    pub z: Crossing,
}

/// The ray parameters at the plane through a box's minimum and at the plane
/// through its maximum, on one axis.
#[derive(Clone, Copy, Debug, PartialEq, Eq, Structural)]
pub struct Crossing {
    pub at_min: Scalar,
    pub at_max: Scalar,
}

impl View for Aabb {
    type V = ((int, int, int), (int, int, int));

    open spec fn view(&self) -> ((int, int, int), (int, int, int)) {
        (self.min@, self.max@)
    }
}

/// The parameter interval `(lo, hi)` cut down to one slab, or `None` when
/// nothing of it is left.
#[verifier::opaque]
pub open spec fn narrow(crossing: Crossing, lo: Scalar, hi: Scalar) -> Option<
    (Scalar, Scalar),
> {
    let enter = crossing.at_min.min_spec(crossing.at_max);
    let leave = crossing.at_min.max_spec(crossing.at_max);
    let lo2 = enter.max_spec(lo);
    let hi2 = leave.min_spec(hi);
    if hi2.le_spec(lo2) {
        None
    } else {
        Some((lo2, hi2))
    }
}

/// Whether the interval `(t_min, t_max)` survives all three slabs, taken in
/// the order x, y, z.
pub open spec fn slabs_overlap_spec(c: SlabCrossings, t_min: Scalar, t_max: Scalar) -> bool {
    match narrow(c.x, t_min, t_max) {
        None => false,
        Some((lo1, hi1)) => match narrow(c.y, lo1, hi1) {
            None => false,
            Some((lo2, hi2)) => narrow(c.z, lo2, hi2) is Some,
        },
    }
}

fn narrow_interval(crossing: Crossing, lo: Scalar, hi: Scalar) -> (r: Option<
    (Scalar, Scalar),
>)
    ensures
        r == narrow(crossing, lo, hi),
{
    reveal(narrow);
    let enter = crossing.at_min.min(crossing.at_max);
    let leave = crossing.at_min.max(crossing.at_max);
    let lo2 = enter.max(lo);
    let hi2 = leave.min(hi);
    if hi2.le(lo2) {
        None
    } else {
        Some((lo2, hi2))
    }
}

/// The slab test on crossings that were computed beforehand: the interval is
/// cut down axis by axis, and the test fails as soon as it is empty.
pub fn slabs_overlap(c: &SlabCrossings, t_min: Scalar, t_max: Scalar) -> (r: bool)
    ensures
        r == slabs_overlap_spec(*c, t_min, t_max),
{
    match narrow_interval(c.x, t_min, t_max) {
        None => false,
        Some((lo1, hi1)) => match narrow_interval(c.y, lo1, hi1) {
            None => false,
            Some((lo2, hi2)) => narrow_interval(c.z, lo2, hi2).is_some(),
        },
    }
}

impl SlabCrossings {
    /// No crossing is NaN.
    pub open spec fn is_number(self) -> bool {
        &&& !self.x.at_min.is_nan_spec() && !self.x.at_max.is_nan_spec()
        &&& !self.y.at_min.is_nan_spec() && !self.y.at_max.is_nan_spec()
        &&& !self.z.at_min.is_nan_spec() && !self.z.at_max.is_nan_spec()
    }
}

/// The smaller of two integers.
pub open spec fn min_int(a: int, b: int) -> int {
    if a <= b {
        a
    } else {
        b
    }
}

/// The larger of two integers.
pub open spec fn max_int(a: int, b: int) -> int {
    if a >= b {
        a
    } else {
        b
    }
}

/// On numbers, cutting an interval down to a slab takes the later of the two
/// lower ends and the earlier of the two upper ends.
pub proof fn lemma_narrow_keys(crossing: Crossing, lo: Scalar, hi: Scalar)
    requires
        !crossing.at_min.is_nan_spec(),
        !crossing.at_max.is_nan_spec(),
        !lo.is_nan_spec(),
        !hi.is_nan_spec(),
    ensures
        narrow(crossing, lo, hi) is Some <==> max_int(
            min_int(crossing.at_min@, crossing.at_max@),
            lo@,
        ) < min_int(max_int(crossing.at_min@, crossing.at_max@), hi@),
        narrow(crossing, lo, hi) matches Some((lo2, hi2)) ==> {
            &&& !lo2.is_nan_spec()
            &&& !hi2.is_nan_spec()
            &&& lo2@ == max_int(min_int(crossing.at_min@, crossing.at_max@), lo@)
            &&& hi2@ == min_int(max_int(crossing.at_min@, crossing.at_max@), hi@)
        },
{
    reveal(narrow);
    lemma_min_max_keys(crossing.at_min, crossing.at_max);
    let enter = crossing.at_min.min_spec(crossing.at_max);
    let leave = crossing.at_min.max_spec(crossing.at_max);
    lemma_min_max_keys(enter, lo);
    lemma_min_max_keys(leave, hi);
}

/// On numbers the slab test says whether the latest entry lies strictly before
/// the earliest exit, the given interval counted as one more slab.
pub proof fn lemma_slabs_overlap_is_intersection(c: SlabCrossings, t_min: Scalar, t_max: Scalar)
    requires
        c.is_number(),
        !t_min.is_nan_spec(),
        !t_max.is_nan_spec(),
    ensures
        slabs_overlap_spec(c, t_min, t_max) <==> max_int(
            max_int(min_int(c.x.at_min@, c.x.at_max@), min_int(c.y.at_min@, c.y.at_max@)),
            max_int(min_int(c.z.at_min@, c.z.at_max@), t_min@),
        ) < min_int(
            min_int(max_int(c.x.at_min@, c.x.at_max@), max_int(c.y.at_min@, c.y.at_max@)),
            min_int(max_int(c.z.at_min@, c.z.at_max@), t_max@),
        ),
{
    lemma_narrow_keys(c.x, t_min, t_max);
    match narrow(c.x, t_min, t_max) {
        None => {},
        Some((lo1, hi1)) => {
            lemma_narrow_keys(c.y, lo1, hi1);
            match narrow(c.y, lo1, hi1) {
                None => {},
                Some((lo2, hi2)) => {
                    lemma_narrow_keys(c.z, lo2, hi2);
                },
            }
        },
    }
}

impl Aabb {
    /// The box is valid: on every axis its minimum is not above its maximum.
    /// A valid box holds no NaN.
    pub open spec fn wf(self) -> bool {
        self.min.le_spec(self.max)
    }

    /// `self` contains `other`, both valid.
    pub open spec fn encloses(self, other: Aabb) -> bool {
        &&& self.wf()
        &&& other.wf()
        &&& self.min.le_spec(other.min)
        &&& other.max.le_spec(self.max)
    }

    /// The smallest box that contains both: the smaller minimum and the larger
    /// maximum on every axis.
    pub open spec fn surrounding_box_spec(a: Aabb, b: Aabb) -> Aabb {
        Aabb { min: a.min.min_spec(b.min), max: a.max.max_spec(b.max) }
    }

    /// The box between two corners. Whether it is valid, `is_valid` tells.
    pub fn new(min: Vec3, max: Vec3) -> (b: Aabb)
        ensures
            b.min == min,
            b.max == max,
    {
        Aabb { min, max }
    }

    /// The corner with the smallest coordinates.
    pub fn min(&self) -> (v: Vec3)
        ensures
            v == self.min,
    {
        self.min
    }

    /// The corner with the largest coordinates.
    pub fn max(&self) -> (v: Vec3)
        ensures
            v == self.max,
    {
        self.max
    }

    /// Whether the box is valid.
    pub fn is_valid(&self) -> (r: bool)
        ensures
            r == self.wf(),
    {
        self.min.x.le(self.max.x) && self.min.y.le(self.max.y) && self.min.z.le(self.max.z)
    }

    /// The smallest box that contains both boxes.
    pub fn surrounding_box(a: &Aabb, b: &Aabb) -> (r: Aabb)
        ensures
            r == Aabb::surrounding_box_spec(*a, *b),
            a.wf() && b.wf() ==> r.encloses(*a) && r.encloses(*b),
    {
        proof {
            if a.wf() && b.wf() {
                lemma_surrounding_box_encloses(*a, *b);
            }
        }
        Aabb { min: a.min.min(&b.min), max: a.max.max(&b.max) }
    }

    /// The slab test of a ray against the box. The divisions are the caller's:
    /// `crossings` computes, for the box and the ray, the parameters at which
    /// the ray crosses the bounding planes.
    pub fn hit<K: Fn(&Aabb, &Ray) -> SlabCrossings>(
        &self,
        ray: &Ray,
        t_min: Scalar,
        t_max: Scalar,
        crossings: &K,
    ) -> (r: bool)
        requires
            call_requires(*crossings, (self, ray)),
        ensures
            self.hit_outcome(*ray, t_min, t_max, *crossings, r),
    {
        let c = crossings(self, ray);
        slabs_overlap(&c, t_min, t_max)
    }

    /// `r` is an answer that `hit` may give: the slab test on crossings that
    /// `crossings` may return for this box and ray.
    pub open spec fn hit_outcome<K: Fn(&Aabb, &Ray) -> SlabCrossings>(
        self,
        ray: Ray,
        t_min: Scalar,
        t_max: Scalar,
        crossings: K,
        r: bool,
    ) -> bool {
        exists|c: SlabCrossings| #[trigger]
            call_ensures(crossings, (&self, &ray), c) && r == slabs_overlap_spec(c, t_min, t_max)
    }
}

/// The merged box is valid and contains both boxes.
pub proof fn lemma_surrounding_box_encloses(a: Aabb, b: Aabb)
    requires
        a.wf(),
        b.wf(),
    ensures
        Aabb::surrounding_box_spec(a, b).wf(),
        Aabb::surrounding_box_spec(a, b).encloses(a),
        Aabb::surrounding_box_spec(a, b).encloses(b),
{
    lemma_min_max_keys(a.min.x, b.min.x);
    lemma_min_max_keys(a.min.y, b.min.y);
    lemma_min_max_keys(a.min.z, b.min.z);
    lemma_min_max_keys(a.max.x, b.max.x);
    lemma_min_max_keys(a.max.y, b.max.y);
    lemma_min_max_keys(a.max.z, b.max.z);
}

/// Merging is commutative: both orders give the same corners.
pub proof fn lemma_surrounding_box_commutative(a: Aabb, b: Aabb)
    requires
        a.wf(),
        b.wf(),
    ensures
        Aabb::surrounding_box_spec(a, b)@ == Aabb::surrounding_box_spec(b, a)@,
{
}

/// Merging is associative: three boxes merge to the same corners however they
/// are grouped.
pub proof fn lemma_surrounding_box_associative(a: Aabb, b: Aabb, c: Aabb)
    requires
        a.wf(),
        b.wf(),
        c.wf(),
    ensures
        Aabb::surrounding_box_spec(Aabb::surrounding_box_spec(a, b), c)@
            == Aabb::surrounding_box_spec(a, Aabb::surrounding_box_spec(b, c))@,
{
}

/// Merging a box with itself changes nothing.
pub proof fn lemma_surrounding_box_idempotent(a: Aabb)
    requires
        a.wf(),
    ensures
        Aabb::surrounding_box_spec(a, a) == a,
{
}

/// Containment is transitive, and a box that contains two boxes contains
/// their merge.
pub proof fn lemma_encloses_merge(outer: Aabb, a: Aabb, b: Aabb)
    requires
        outer.encloses(a),
        outer.encloses(b),
    ensures
        outer.encloses(Aabb::surrounding_box_spec(a, b)),
{
    lemma_surrounding_box_encloses(a, b);
}

} // verus!
