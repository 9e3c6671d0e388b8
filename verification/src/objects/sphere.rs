use vstd::prelude::*;
use crate::aabb::Aabb;
use crate::objects::HitRecord;
use crate::ray::Ray;
use crate::scalar::Scalar;
use crate::time::Time;
use crate::vec3::{Point3, Vec3};

verus! {

/// A sphere whose centre moves along a ray: the centre at time `t` is the
/// ray `movement` at `t`. A sphere at rest has a zero direction.
#[derive(Clone, Copy, Debug, PartialEq, Eq, Structural)]
pub struct Sphere {
    pub movement: Ray,
    pub rotation: Vec3,
    pub radius: Scalar,
    pub material: usize,
}

/// What the quadratic of a ray against a sphere yields.
#[derive(Clone, Copy, Debug, PartialEq, Eq, Structural)]
pub struct SphereProbe {
    pub discriminant: Scalar,
    /// The root taken with the negative square root.
    pub near_root: Scalar,
    /// The root taken with the positive square root.
    pub far_root: Scalar,
}

/// The surface of a sphere where the ray meets it at a chosen root.
#[derive(Clone, Copy, Debug, PartialEq, Eq, Structural)]
pub struct SurfacePoint {
    pub point: Vec3,
    /// The unit normal that points away from the centre.
    pub outward_normal: Vec3,
    /// The ray's direction dotted with `outward_normal`.
    pub direction_dot_normal: Scalar,
}

/// The two surface coordinates of a point.
#[derive(Clone, Copy, Debug, PartialEq, Eq, Structural)]
pub struct SurfaceUv {
    pub u: Scalar,
    pub v: Scalar,
}

impl Sphere {
    /// The root at which the ray hits: none when the discriminant is
    /// negative; else the near root when it lies in `[t_min, t_max)`; else
    /// the far root when that one does.
    pub open spec fn select_root_spec(p: SphereProbe, t_min: Scalar, t_max: Scalar) -> Option<
        Scalar,
    > {
        if p.discriminant.lt_spec(Scalar { bits: 0 }) {
            None
        } else if p.near_root.in_range_spec(t_min, t_max) {
            Some(p.near_root)
        } else if p.far_root.in_range_spec(t_min, t_max) {
            Some(p.far_root)
        } else {
            None
        }
    }

    /// The record of a hit at `root`, from the surface there and the surface
    /// coordinates of the oriented normal.
    pub open spec fn record_spec(self, root: Scalar, s: SurfacePoint, uv: SurfaceUv) -> HitRecord {
        let oriented = HitRecord::orient_spec(s.direction_dot_normal, s.outward_normal);
        HitRecord {
            point: s.point,
            normal: oriented.0,
            t: root,
            front_face: oriented.1,
            material: self.material,
            u: uv.u,
            v: uv.v,
        }
    }

    /// `r` is an answer that `hit` may give with these kernels.
    pub open spec fn hit_outcome<
        Q: Fn(&Sphere, &Ray) -> SphereProbe,
        S: Fn(&Sphere, &Ray, Scalar) -> SurfacePoint,
        U: Fn(&Sphere, &Vec3) -> SurfaceUv,
    >(
        self,
        ray: Ray,
        t_min: Scalar,
        t_max: Scalar,
        roots: Q,
        surface: S,
        sphere_uv: U,
        r: Option<HitRecord>,
    ) -> bool {
        exists|p: SphereProbe| #[trigger]
            call_ensures(roots, (&self, &ray), p) && match Sphere::select_root_spec(
                p,
                t_min,
                t_max,
            ) {
                None => r is None,
                Some(root) => exists|s: SurfacePoint, uv: SurfaceUv|
                    {
                        &&& #[trigger] call_ensures(surface, (&self, &ray, root), s)
                        &&& #[trigger] call_ensures(
                            sphere_uv,
                            (
                                &self,
                                &HitRecord::orient_spec(
                                    s.direction_dot_normal,
                                    s.outward_normal,
                                ).0,
                            ),
                            uv,
                        )
                        &&& r == Some(self.record_spec(root, s, uv))
                    },
            }
    }

    /// `r` is a box that `bounding_box` may give with this kernel.
    pub open spec fn box_outcome<B: Fn(&Sphere, Scalar) -> Aabb>(
        self,
        timeframe: Time,
        box_at: B,
        r: Option<Aabb>,
    ) -> bool {
        exists|first: Aabb, last: Aabb|
            {
                &&& #[trigger] call_ensures(box_at, (&self, timeframe.start), first)
                &&& #[trigger] call_ensures(box_at, (&self, timeframe.end), last)
                &&& r == Some(Aabb::surrounding_box_spec(first, last))
            }
    }

    /// The box of the sphere over a time interval: the merge of its boxes at
    /// the start and at the end of the interval. `box_at` computes the box
    /// round the sphere where it is at a given time.
    pub fn bounding_box<B: Fn(&Sphere, Scalar) -> Aabb>(&self, timeframe: Time, box_at: &B) -> (r:
        Option<Aabb>)
        requires
            forall|t: Scalar| call_requires(*box_at, (self, t)),
        ensures
            self.box_outcome(timeframe, *box_at, r),
    {
        let first = box_at(self, timeframe.start);
        let last = box_at(self, timeframe.end);
        Some(Aabb::surrounding_box(&first, &last))
    }

    /// A sphere at rest.
    pub fn new(center: Point3, radius: Scalar, material: usize) -> (s: Sphere)
        ensures
            s.movement.origin == center,
            s.movement.direction.x.bits == 0,
            s.movement.direction.y.bits == 0,
            s.movement.direction.z.bits == 0,
            s.movement.time.bits == 0,
            s.rotation == s.movement.direction,
            s.radius == radius,
            s.material == material,
    {
        Sphere { movement: Ray::new(center, Vec3::zero()), rotation: Vec3::zero(), radius, material }
    }

    /// A sphere whose centre is at `center0` at time zero and moves by
    /// `velocity` per unit of time.
    pub fn new_moving(center0: Point3, velocity: Vec3, radius: Scalar, material: usize) -> (s:
        Sphere)
        ensures
            s.movement.origin == center0,
            s.movement.direction == velocity,
            s.movement.time.bits == 0,
            s.rotation.x.bits == 0 && s.rotation.y.bits == 0 && s.rotation.z.bits == 0,
            s.radius == radius,
            s.material == material,
    {
        Sphere { movement: Ray::new(center0, velocity), rotation: Vec3::zero(), radius, material }
    }

    /// Chooses the root of the quadratic at which the ray hits, if any.
    pub fn select_root(probe: &SphereProbe, t_min: Scalar, t_max: Scalar) -> (r: Option<Scalar>)
        ensures
            r == Sphere::select_root_spec(*probe, t_min, t_max),
    {
        if probe.discriminant.lt(Scalar::zero()) {
            None
        } else if probe.near_root.in_range(t_min, t_max) {
            Some(probe.near_root)
        } else if probe.far_root.in_range(t_min, t_max) {
            Some(probe.far_root)
        } else {
            None
        }
    }

    /// Intersects the ray with the sphere. `roots` solves the quadratic,
    /// `surface` evaluates the ray and the outward normal at the chosen root,
    /// and `sphere_uv` gives the surface coordinates of the oriented normal.
    pub fn hit<
        Q: Fn(&Sphere, &Ray) -> SphereProbe,
        S: Fn(&Sphere, &Ray, Scalar) -> SurfacePoint,
        U: Fn(&Sphere, &Vec3) -> SurfaceUv,
    >(
        &self,
        ray: &Ray,
        t_min: Scalar,
        t_max: Scalar,
        roots: &Q,
        surface: &S,
        sphere_uv: &U,
    ) -> (r: Option<HitRecord>)
        requires
            call_requires(*roots, (self, ray)),
            forall|root: Scalar| call_requires(*surface, (self, ray, root)),
            forall|n: &Vec3| call_requires(*sphere_uv, (self, n)),
        ensures
            self.hit_outcome(*ray, t_min, t_max, *roots, *surface, *sphere_uv, r),
    {
        let probe = roots(self, ray);
        match Sphere::select_root(&probe, t_min, t_max) {
            None => None,
            Some(root) => {
                let s = surface(self, ray, root);
                let (normal, front_face) = HitRecord::orient_towards_ray(
                    s.direction_dot_normal,
                    s.outward_normal,
                );
                let uv = sphere_uv(self, &normal);
                Some(
                    HitRecord {
                        point: s.point,
                        normal,
                        t: root,
                        front_face,
                        material: self.material,
                        u: uv.u,
                        v: uv.v,
                    },
                )
            },
        }
    }
}

/// A chosen root lies in the queried range, and when both roots lie in it
/// and the discriminant is not negative the near one is chosen.
pub proof fn lemma_select_root_in_range(p: SphereProbe, t_min: Scalar, t_max: Scalar)
    ensures
        Sphere::select_root_spec(p, t_min, t_max) matches Some(root) ==> root.in_range_spec(
            t_min,
            t_max,
        ) && (root == p.near_root || root == p.far_root),
        !p.discriminant.lt_spec(Scalar { bits: 0 }) && p.near_root.in_range_spec(t_min, t_max)
            ==> Sphere::select_root_spec(p, t_min, t_max) == Some(p.near_root),
{
}

} // verus!
