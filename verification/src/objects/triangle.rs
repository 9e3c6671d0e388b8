use vstd::prelude::*;
use crate::aabb::Aabb;
use crate::objects::HitRecord;
use crate::ray::Ray;
use crate::scalar::Scalar;
use crate::time::Time;
use crate::vec3::{Vec3, NEAR_ZERO_BITS};

verus! {

/// A triangle, by its three vertices and the handle of its material.
#[derive(Clone, Copy, Debug, PartialEq, Eq, Structural)]
pub struct Triangle {
    pub v0: Vec3,
    pub v1: Vec3,
    pub v2: Vec3,
    pub material: usize,
}

/// What the Möller–Trumbore arithmetic yields for one triangle and one ray.
#[derive(Clone, Copy, Debug, PartialEq, Eq, Structural)]
pub struct TriangleProbe {
    /// The determinant: the first edge dotted with the cross product of the
    /// ray's direction and the second edge.
    pub determinant: Scalar,
    /// The first barycentric coordinate.
    pub u: Scalar,
    /// The second barycentric coordinate.
    pub v: Scalar,
    /// One minus `u`, the bound that `v` has to stay under.
    pub v_limit: Scalar,
    /// The ray parameter of the crossing with the triangle's plane.
    pub t: Scalar,
    /// The ray at `t`.
    pub point: Vec3,
    /// The unit normal of the plane, from the cross product of the edges.
    pub normal: Vec3,
    /// The ray's direction dotted with `normal`.
    pub direction_dot_normal: Scalar,
}

impl Triangle {
    /// Whether the determinant is too small for the ray to count as crossing
    /// the plane: the ray is parallel to it, or nearly.
    pub open spec fn is_parallel(p: TriangleProbe) -> bool {
        p.determinant.abs_spec().lt_spec(Scalar { bits: NEAR_ZERO_BITS })
    }

    /// The hit that the probe stands for, if it is one: the ray is not
    /// parallel to the plane, `u` lies in `[0, 1)`, `v` in `[0, 1 - u)` and
    /// `t` in `[t_min, t_max)`.
    pub open spec fn hit_with_spec(self, p: TriangleProbe, t_min: Scalar, t_max: Scalar) -> Option<
        HitRecord,
    > {
        if Triangle::is_parallel(p) {
            None
        } else if !p.u.in_range_spec(Scalar { bits: 0 }, Scalar { bits: 0x3f80_0000 }) {
            None
        } else if !p.v.in_range_spec(Scalar { bits: 0 }, p.v_limit) {
            None
        } else if !p.t.in_range_spec(t_min, t_max) {
            None
        } else {
            let oriented = HitRecord::orient_spec(p.direction_dot_normal, p.normal);
            Some(
                HitRecord {
                    point: p.point,
                    normal: oriented.0,
                    t: p.t,
                    front_face: oriented.1,
                    material: self.material,
                    u: p.u,
                    v: p.v,
                },
            )
        }
    }

    /// `r` is an answer that `hit` may give with this kernel.
    pub open spec fn hit_outcome<K: Fn(&Triangle, &Ray) -> TriangleProbe>(
        self,
        ray: Ray,
        t_min: Scalar,
        t_max: Scalar,
        kernel: K,
        r: Option<HitRecord>,
    ) -> bool {
        exists|p: TriangleProbe| #[trigger]
            call_ensures(kernel, (&self, &ray), p) && r == self.hit_with_spec(p, t_min, t_max)
    }

    /// The box spanned by the three vertices.
    pub open spec fn tight_box_spec(self) -> Aabb {
        Aabb {
            min: self.v0.min_spec(self.v1).min_spec(self.v2),
            max: self.v0.max_spec(self.v1).max_spec(self.v2),
        }
    }

    /// Whether a box has no extent on some axis.
    pub open spec fn is_flat_spec(b: Aabb) -> bool {
        b.min.x.same_spec(b.max.x) || b.min.y.same_spec(b.max.y) || b.min.z.same_spec(b.max.z)
    }

    /// The triangle on three vertices.
    pub fn new(v0: Vec3, v1: Vec3, v2: Vec3, material: usize) -> (t: Triangle)
        ensures
            t == (Triangle { v0, v1, v2, material }),
    {
        Triangle { v0, v1, v2, material }
    }

    /// Decides on a probe: the acceptance tests of the Möller–Trumbore
    /// algorithm, in their order, and the record of an accepted hit.
    pub fn hit_with(&self, probe: &TriangleProbe, t_min: Scalar, t_max: Scalar) -> (r: Option<
        HitRecord,
    >)
        ensures
            r == self.hit_with_spec(*probe, t_min, t_max),
    {
        if probe.determinant.abs().lt(Scalar::from_bits(NEAR_ZERO_BITS)) {
            return None;
        }
        if !probe.u.in_range(Scalar::zero(), Scalar::one()) {
            return None;
        }
        if !probe.v.in_range(Scalar::zero(), probe.v_limit) {
            return None;
        }
        if !probe.t.in_range(t_min, t_max) {
            return None;
        }
        let (normal, front_face) = HitRecord::orient_towards_ray(
            probe.direction_dot_normal,
            probe.normal,
        );
        Some(
            HitRecord {
                point: probe.point,
                normal,
                t: probe.t,
                front_face,
                material: self.material,
                u: probe.u,
                v: probe.v,
            },
        )
    }

    /// Intersects the ray with the triangle. `kernel` does the arithmetic for
    /// this triangle and ray; the decision is `hit_with`.
    pub fn hit<K: Fn(&Triangle, &Ray) -> TriangleProbe>(
        &self,
        ray: &Ray,
        t_min: Scalar,
        t_max: Scalar,
        kernel: &K,
    ) -> (r: Option<HitRecord>)
        requires
            call_requires(*kernel, (self, ray)),
        ensures
            self.hit_outcome(*ray, t_min, t_max, *kernel, r),
    {
        let probe = kernel(self, ray);
        self.hit_with(&probe, t_min, t_max)
    }

    /// The box spanned by the three vertices.
    pub fn tight_box(&self) -> (b: Aabb)
        ensures
            b == self.tight_box_spec(),
    {
        Aabb::new(self.v0.min(&self.v1).min(&self.v2), self.v0.max(&self.v1).max(&self.v2))
    }

    /// Whether a box has no extent on some axis.
    pub fn is_flat(b: &Aabb) -> (r: bool)
        ensures
            r == Triangle::is_flat_spec(*b),
    {
        b.min.x.same(b.max.x) || b.min.y.same(b.max.y) || b.min.z.same(b.max.z)
    }

    /// The box of the triangle: the box spanned by its vertices, or, where
    /// that box is flat on some axis, what `pad` makes of it. `pad` is to widen
    /// a box by a small margin on every axis.
    pub fn bounding_box<P: Fn(&Aabb) -> Aabb>(&self, _timeframe: Time, pad: &P) -> (r: Option<
        Aabb,
    >)
        requires
            forall|b: &Aabb| call_requires(*pad, (b,)),
        ensures
            self.box_outcome(*pad, r),
    {
        let tight = self.tight_box();
        if Triangle::is_flat(&tight) {
            Some(pad(&tight))
        } else {
            Some(tight)
        }
    }

    /// The triangle with every vertex moved by `f`, which is to translate,
    /// rotate or scale a point.
    pub fn transformed<F: Fn(Vec3) -> Vec3>(&self, f: &F) -> (t: Triangle)
        requires
            forall|v: Vec3| call_requires(*f, (v,)),
        ensures
            self.transform_outcome(*f, t),
    {
        Triangle::new(f(self.v0), f(self.v1), f(self.v2), self.material)
    }

    /// `t` is what `transformed` may give with this transform.
    pub open spec fn transform_outcome<F: Fn(Vec3) -> Vec3>(self, f: F, t: Triangle) -> bool {
        &&& call_ensures(f, (self.v0,), t.v0)
        &&& call_ensures(f, (self.v1,), t.v1)
        &&& call_ensures(f, (self.v2,), t.v2)
        &&& t.material == self.material
    }

    /// `r` is a box that `bounding_box` may give with this padding.
    pub open spec fn box_outcome<P: Fn(&Aabb) -> Aabb>(self, pad: P, r: Option<Aabb>) -> bool {
        let tight = self.tight_box_spec();
        &&& r is Some
        &&& !Triangle::is_flat_spec(tight) ==> r == Some(tight)
        &&& Triangle::is_flat_spec(tight) ==> call_ensures(pad, (&tight,), r->0)
    }
}

/// A ray that is parallel to the triangle's plane, so that the determinant
/// vanishes or stays under the threshold, hits nothing, whatever else the
/// probe holds.
pub proof fn lemma_parallel_ray_misses(
    triangle: Triangle,
    probe: TriangleProbe,
    t_min: Scalar,
    t_max: Scalar,
)
    requires
        Triangle::is_parallel(probe),
    ensures
        triangle.hit_with_spec(probe, t_min, t_max) is None,
{
}

/// A zero determinant, of either sign, counts as parallel.
pub proof fn lemma_zero_determinant_is_parallel(probe: TriangleProbe)
    requires
        probe.determinant@ == 0,
    ensures
        Triangle::is_parallel(probe),
{
}

/// An accepted hit lies in the queried range and carries the triangle's
/// material.
pub proof fn lemma_triangle_hit_in_range(
    triangle: Triangle,
    probe: TriangleProbe,
    t_min: Scalar,
    t_max: Scalar,
)
    ensures
        triangle.hit_with_spec(probe, t_min, t_max) matches Some(rec) ==> rec.t.in_range_spec(
            t_min,
            t_max,
        ) && rec.material == triangle.material && !rec.t.is_nan_spec(),
{
}

} // verus!
