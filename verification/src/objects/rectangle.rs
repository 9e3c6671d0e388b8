use vstd::prelude::*;
use vstd::string::*;
use crate::aabb::Aabb;
use crate::objects::triangle::{Triangle, TriangleProbe};
use crate::objects::HitRecord;
use crate::ray::Ray;
use crate::scalar::Scalar;
use crate::time::Time;
use crate::vec3::{Point3, Vec3};

verus! {

/// Why a rectangle could not be built.
#[derive(Clone, Copy, Debug, PartialEq, Eq, Structural)]
pub enum RectangleError {
    /// The four corners do not lie in one plane.
    NotPlanar,
}

impl RectangleError {
    /// The error in words.
    pub fn message(&self) -> (s: String)
        ensures
            s@ == "The rectangle is not planar"@,
    {
        String::from_str("The rectangle is not planar")
    }
}

/// A planar quadrilateral: two triangles that share the diagonal from the
/// first corner to the third.
#[derive(Clone, Copy, Debug, PartialEq, Eq, Structural)]
pub struct Rectangle {
    pub triangle1: Triangle,
    pub triangle2: Triangle,
}

impl Rectangle {
    /// The rectangle on four corners, given the gap between the unit normals
    /// of its two triangles: the corners are planar when the gap is near zero.
    pub open spec fn with_gap_spec(
        p0: Point3,
        p1: Point3,
        p2: Point3,
        p3: Point3,
        material: usize,
        gap: Vec3,
    ) -> Result<Rectangle, RectangleError> {
        if gap.near_zero_spec() {
            Ok(
                Rectangle {
                    triangle1: Triangle { v0: p0, v1: p1, v2: p2, material },
                    triangle2: Triangle { v0: p0, v1: p2, v2: p3, material },
                },
            )
        } else {
            Err(RectangleError::NotPlanar)
        }
    }

    /// `r` is a result that `new` may give with this kernel.
    pub open spec fn new_outcome<G: Fn(Point3, Point3, Point3, Point3) -> Vec3>(
        p0: Point3,
        p1: Point3,
        p2: Point3,
        p3: Point3,
        material: usize,
        normal_gap: G,
        r: Result<Rectangle, RectangleError>,
    ) -> bool {
        exists|gap: Vec3| #[trigger]
            call_ensures(normal_gap, (p0, p1, p2, p3), gap) && r == Rectangle::with_gap_spec(
                p0,
                p1,
                p2,
                p3,
                material,
                gap,
            )
    }

    /// `r` is an answer that `hit` may give with this kernel: the hit of the
    /// first triangle, or else whatever the second gives.
    pub open spec fn hit_outcome<K: Fn(&Triangle, &Ray) -> TriangleProbe>(
        self,
        ray: Ray,
        t_min: Scalar,
        t_max: Scalar,
        kernel: K,
        r: Option<HitRecord>,
    ) -> bool {
        exists|first: Option<HitRecord>| #[trigger]
            self.triangle1.hit_outcome(ray, t_min, t_max, kernel, first) && if first is Some {
                r == first
            } else {
                self.triangle2.hit_outcome(ray, t_min, t_max, kernel, r)
            }
    }

    /// `r` is a box that `bounding_box` may give with this padding: the merge
    /// of the boxes of the two triangles.
    pub open spec fn box_outcome<P: Fn(&Aabb) -> Aabb>(self, pad: P, r: Option<Aabb>) -> bool {
        exists|b1: Aabb, b2: Aabb|
            {
                &&& #[trigger] self.triangle1.box_outcome(pad, Some(b1))
                &&& #[trigger] self.triangle2.box_outcome(pad, Some(b2))
                &&& r == Some(Aabb::surrounding_box_spec(b1, b2))
            }
    }

    /// Builds the rectangle when `gap`, the difference of the unit normals of
    /// its two triangles, is near zero, and rejects the corners otherwise.
    pub fn with_gap(
        p0: Point3,
        p1: Point3,
        p2: Point3,
        p3: Point3,
        material: usize,
        gap: Vec3,
    ) -> (r: Result<Rectangle, RectangleError>)
        ensures
            r == Rectangle::with_gap_spec(p0, p1, p2, p3, material, gap),
    {
        if !gap.near_zero() {
            return Err(RectangleError::NotPlanar);
        }
        Ok(
            Rectangle {
                triangle1: Triangle::new(p0, p1, p2, material),
                triangle2: Triangle::new(p0, p2, p3, material),
            },
        )
    }

    /// Builds the rectangle on four corners, or rejects them as not planar.
    /// `normal_gap` computes the difference of the unit normals of the
    /// triangles `(p0, p1, p2)` and `(p0, p2, p3)`.
    pub fn new<G: Fn(Point3, Point3, Point3, Point3) -> Vec3>(
        p0: Point3,
        p1: Point3,
        p2: Point3,
        p3: Point3,
        material: usize,
        normal_gap: &G,
    ) -> (r: Result<Rectangle, RectangleError>)
        requires
            call_requires(*normal_gap, (p0, p1, p2, p3)),
        ensures
            Rectangle::new_outcome(p0, p1, p2, p3, material, *normal_gap, r),
    {
        let gap = normal_gap(p0, p1, p2, p3);
        Rectangle::with_gap(p0, p1, p2, p3, material, gap)
    }

    /// Builds the rectangle on four corners given as an array.
    pub fn from_points<G: Fn(Point3, Point3, Point3, Point3) -> Vec3>(
        points: [Point3; 4],
        material: usize,
        normal_gap: &G,
    ) -> (r: Result<Rectangle, RectangleError>)
        requires
            call_requires(*normal_gap, (points[0], points[1], points[2], points[3])),
        ensures
            Rectangle::new_outcome(
                points[0],
                points[1],
                points[2],
                points[3],
                material,
                *normal_gap,
                r,
            ),
    {
        Rectangle::new(points[0], points[1], points[2], points[3], material, normal_gap)
    }

    /// The rectangle `[x0, x1] x [y0, y1]` in the plane at height `z`.
    pub fn new_xy<G: Fn(Point3, Point3, Point3, Point3) -> Vec3>(
        x0: Scalar,
        x1: Scalar,
        y0: Scalar,
        y1: Scalar,
        z: Scalar,
        material: usize,
        normal_gap: &G,
    ) -> (r: Result<Rectangle, RectangleError>)
        requires
            forall|a: Point3, b: Point3, c: Point3, d: Point3|
                call_requires(*normal_gap, (a, b, c, d)),
        ensures
            Rectangle::new_outcome(
                Vec3 { x: x0, y: y0, z },
                Vec3 { x: x1, y: y0, z },
                Vec3 { x: x1, y: y1, z },
                Vec3 { x: x0, y: y1, z },
                material,
                *normal_gap,
                r,
            ),
    {
        let p0 = Point3::new(x0, y0, z);
        let p1 = Point3::new(x1, y0, z);
        let p2 = Point3::new(x1, y1, z);
        let p3 = Point3::new(x0, y1, z);
        Rectangle::new(p0, p1, p2, p3, material, normal_gap)
    }

    /// The rectangle `[x0, x1] x [z0, z1]` in the plane at `y`.
    pub fn new_xz<G: Fn(Point3, Point3, Point3, Point3) -> Vec3>(
        x0: Scalar,
        x1: Scalar,
        z0: Scalar,
        z1: Scalar,
        y: Scalar,
        material: usize,
        normal_gap: &G,
    ) -> (r: Result<Rectangle, RectangleError>)
        requires
            forall|a: Point3, b: Point3, c: Point3, d: Point3|
                call_requires(*normal_gap, (a, b, c, d)),
        ensures
            Rectangle::new_outcome(
                Vec3 { x: x0, y, z: z0 },
                Vec3 { x: x1, y, z: z0 },
                Vec3 { x: x1, y, z: z1 },
                Vec3 { x: x0, y, z: z1 },
                material,
                *normal_gap,
                r,
            ),
    {
        let p0 = Point3::new(x0, y, z0);
        let p1 = Point3::new(x1, y, z0);
        let p2 = Point3::new(x1, y, z1);
        let p3 = Point3::new(x0, y, z1);
        Rectangle::new(p0, p1, p2, p3, material, normal_gap)
    }

    /// The rectangle `[y0, y1] x [z0, z1]` in the plane at `x`.
    pub fn new_yz<G: Fn(Point3, Point3, Point3, Point3) -> Vec3>(
        y0: Scalar,
        y1: Scalar,
        z0: Scalar,
        z1: Scalar,
        x: Scalar,
        material: usize,
        normal_gap: &G,
    ) -> (r: Result<Rectangle, RectangleError>)
        requires
            forall|a: Point3, b: Point3, c: Point3, d: Point3|
                call_requires(*normal_gap, (a, b, c, d)),
        ensures
            Rectangle::new_outcome(
                Vec3 { x, y: y0, z: z0 },
                Vec3 { x, y: y1, z: z0 },
                Vec3 { x, y: y1, z: z1 },
                Vec3 { x, y: y0, z: z1 },
                material,
                *normal_gap,
                r,
            ),
    {
        let p0 = Point3::new(x, y0, z0);
        let p1 = Point3::new(x, y1, z0);
        let p2 = Point3::new(x, y1, z1);
        let p3 = Point3::new(x, y0, z1);
        Rectangle::new(p0, p1, p2, p3, material, normal_gap)
    }

    /// The rectangle with every vertex of both triangles moved by `f`.
    pub fn transformed<F: Fn(Vec3) -> Vec3>(&self, f: &F) -> (r: Rectangle)
        requires
            forall|v: Vec3| call_requires(*f, (v,)),
        ensures
            self.triangle1.transform_outcome(*f, r.triangle1),
            self.triangle2.transform_outcome(*f, r.triangle2),
    {
        Rectangle {
            triangle1: self.triangle1.transformed(f),
            triangle2: self.triangle2.transformed(f),
        }
    }

    /// Intersects the ray with the first triangle and, when that misses, with
    /// the second.
    pub fn hit<K: Fn(&Triangle, &Ray) -> TriangleProbe>(
        &self,
        ray: &Ray,
        t_min: Scalar,
        t_max: Scalar,
        kernel: &K,
    ) -> (r: Option<HitRecord>)
        requires
            forall|t: &Triangle, q: &Ray| call_requires(*kernel, (t, q)),
        ensures
            self.hit_outcome(*ray, t_min, t_max, *kernel, r),
    {
        let first = self.triangle1.hit(ray, t_min, t_max, kernel);
        match first {
            Some(rec) => Some(rec),
            None => self.triangle2.hit(ray, t_min, t_max, kernel),
        }
    }

    /// The box of the rectangle: the merge of the boxes of its triangles.
    pub fn bounding_box<P: Fn(&Aabb) -> Aabb>(&self, timeframe: Time, pad: &P) -> (r: Option<
        Aabb,
    >)
        requires
            forall|b: &Aabb| call_requires(*pad, (b,)),
        ensures
            self.box_outcome(*pad, r),
    {
        let b1 = self.triangle1.bounding_box(timeframe, pad);
        let b2 = self.triangle2.bounding_box(timeframe, pad);
        match (b1, b2) {
            (Some(b1), Some(b2)) => Some(Aabb::surrounding_box(&b1, &b2)),
            _ => None,
        }
    }
}

} // verus!
