use vstd::prelude::*;
use crate::aabb::Aabb;
use crate::objects::rectangle::{Rectangle, RectangleError};
use crate::objects::triangle::{Triangle, TriangleProbe};
use crate::objects::{scan_stepped, HitRecord};
use crate::ray::Ray;
use crate::scalar::Scalar;
use crate::time::Time;
use crate::vec3::{Point3, Vec3};

verus! {

/// A box with six rectangular faces.
#[derive(Clone, Copy, Debug)]
pub struct Cuboid {
    pub faces: [Rectangle; 6],
}

/// The corners of face `i`, as indices into the eight corners: bottom, top,
/// front, back, left, right.
pub open spec fn face_corners(i: int) -> (int, int, int, int) {
    if i == 0 {
        (0, 1, 2, 3)
    } else if i == 1 {
        (4, 5, 6, 7)
    } else if i == 2 {
        (0, 1, 5, 4)
    } else if i == 3 {
        (2, 3, 7, 6)
    } else if i == 4 {
        (0, 3, 7, 4)
    } else {
        (1, 2, 6, 5)
    }
}

/// The eight corners of the axis-aligned box between `min` and `max`.
pub open spec fn box_corners(min: Point3, max: Point3) -> Seq<Point3> {
    seq![
        min,
        Vec3 { x: max.x, y: min.y, z: min.z },
        Vec3 { x: max.x, y: max.y, z: min.z },
        Vec3 { x: min.x, y: max.y, z: min.z },
        Vec3 { x: min.x, y: min.y, z: max.z },
        Vec3 { x: max.x, y: min.y, z: max.z },
        max,
        Vec3 { x: min.x, y: max.y, z: max.z },
    ]
}

/// The merge of a box with each box of a sequence in turn.
pub open spec fn merge_onto(start: Aabb, boxes: Seq<Aabb>) -> Aabb
    decreases boxes.len(),
{
    if boxes.len() == 0 {
        start
    } else {
        Aabb::surrounding_box_spec(merge_onto(start, boxes.drop_last()), boxes.last())
    }
}

impl Cuboid {
    /// `r` is a result that building face `i` of the cuboid may give.
    pub open spec fn face_outcome<G: Fn(Point3, Point3, Point3, Point3) -> Vec3>(
        corners: Seq<Point3>,
        material: usize,
        normal_gap: G,
        i: int,
        r: Result<Rectangle, RectangleError>,
    ) -> bool {
        let c = face_corners(i);
        Rectangle::new_outcome(
            corners[c.0],
            corners[c.1],
            corners[c.2],
            corners[c.3],
            material,
            normal_gap,
            r,
        )
    }

    /// Face `i` may come out planar.
    pub open spec fn face_built<G: Fn(Point3, Point3, Point3, Point3) -> Vec3>(
        corners: Seq<Point3>,
        material: usize,
        normal_gap: G,
        i: int,
    ) -> bool {
        exists|f: Rectangle| #[trigger]
            Cuboid::face_outcome(corners, material, normal_gap, i, Ok(f))
    }

    /// `r` is a result that `new` may give with this kernel: the six faces, or
    /// the error of the first face that could not be built.
    pub open spec fn new_outcome<G: Fn(Point3, Point3, Point3, Point3) -> Vec3>(
        corners: Seq<Point3>,
        material: usize,
        normal_gap: G,
        r: Result<Cuboid, RectangleError>,
    ) -> bool {
        match r {
            Ok(c) => forall|i: int|
                0 <= i < 6 ==> #[trigger] Cuboid::face_outcome(
                    corners,
                    material,
                    normal_gap,
                    i,
                    Ok(c.faces[i]),
                ),
            Err(e) => exists|i: int|
                {
                    &&& 0 <= i < 6
                    &&& #[trigger] Cuboid::face_outcome(corners, material, normal_gap, i, Err(e))
                    &&& forall|j: int|
                        0 <= j < i ==> #[trigger] Cuboid::face_built(
                            corners,
                            material,
                            normal_gap,
                            j,
                        )
                },
        }
    }

    /// After the first `n` faces were asked in turn, each up to the limit left
    /// by those before it, the best hit is `best` and the limit is `limit`.
    pub open spec fn scan_outcome<K: Fn(&Triangle, &Ray) -> TriangleProbe>(
        self,
        n: nat,
        ray: Ray,
        t_min: Scalar,
        t_max: Scalar,
        kernel: K,
        best: Option<HitRecord>,
        limit: Scalar,
    ) -> bool
        decreases n,
    {
        if n == 0 {
            best is None && limit == t_max
        } else {
            exists|prev: Option<HitRecord>, prev_limit: Scalar, answer: Option<HitRecord>|
                {
                    &&& #[trigger] scan_stepped(prev, prev_limit, answer, best, limit)
                    &&& self.scan_outcome(
                        (n - 1) as nat,
                        ray,
                        t_min,
                        t_max,
                        kernel,
                        prev,
                        prev_limit,
                    )
                    &&& self.faces[n - 1].hit_outcome(ray, t_min, prev_limit, kernel, answer)
                }
        }
    }

    /// `r` is an answer that `hit` may give with this kernel.
    pub open spec fn hit_outcome<K: Fn(&Triangle, &Ray) -> TriangleProbe>(
        self,
        ray: Ray,
        t_min: Scalar,
        t_max: Scalar,
        kernel: K,
        r: Option<HitRecord>,
    ) -> bool {
        exists|limit: Scalar| #[trigger] self.scan_outcome(6, ray, t_min, t_max, kernel, r, limit)
    }

    /// `r` is a box that `bounding_box` may give with this padding: the box of
    /// the first face merged with the boxes of all six faces in turn.
    pub open spec fn box_outcome<P: Fn(&Aabb) -> Aabb>(self, pad: P, r: Option<Aabb>) -> bool {
        exists|boxes: Seq<Aabb>|
            {
                &&& boxes.len() == 6
                &&& forall|i: int|
                    0 <= i < 6 ==> #[trigger] self.faces[i].box_outcome(pad, Some(boxes[i]))
                &&& r == Some(merge_onto(boxes[0], boxes))
            }
    }

    /// Builds the six faces from eight corners: the first four corners run
    /// round the bottom, the last four round the top, corner `i + 4` above
    /// corner `i`. The first face that is not planar gives the error.
    pub fn new<G: Fn(Point3, Point3, Point3, Point3) -> Vec3>(
        corners: &[Point3; 8],
        material: usize,
        normal_gap: &G,
    ) -> (r: Result<Cuboid, RectangleError>)
        requires
            forall|a: Point3, b: Point3, c: Point3, d: Point3|
                call_requires(*normal_gap, (a, b, c, d)),
        ensures
            Cuboid::new_outcome(corners@, material, *normal_gap, r),
    {
        let r0 = Rectangle::new(corners[0], corners[1], corners[2], corners[3], material, normal_gap);
        assert(Cuboid::face_outcome(corners@, material, *normal_gap, 0, r0));
        let f0 = match r0 {
            Ok(f) => f,
            Err(e) => {
                return Err(e);
            },
        };
        let r1 = Rectangle::new(corners[4], corners[5], corners[6], corners[7], material, normal_gap);
        assert(Cuboid::face_outcome(corners@, material, *normal_gap, 1, r1));
        let f1 = match r1 {
            Ok(f) => f,
            Err(e) => {
                return Err(e);
            },
        };
        let r2 = Rectangle::new(corners[0], corners[1], corners[5], corners[4], material, normal_gap);
        assert(Cuboid::face_outcome(corners@, material, *normal_gap, 2, r2));
        let f2 = match r2 {
            Ok(f) => f,
            Err(e) => {
                return Err(e);
            },
        };
        let r3 = Rectangle::new(corners[2], corners[3], corners[7], corners[6], material, normal_gap);
        assert(Cuboid::face_outcome(corners@, material, *normal_gap, 3, r3));
        let f3 = match r3 {
            Ok(f) => f,
            Err(e) => {
                return Err(e);
            },
        };
        let r4 = Rectangle::new(corners[0], corners[3], corners[7], corners[4], material, normal_gap);
        assert(Cuboid::face_outcome(corners@, material, *normal_gap, 4, r4));
        let f4 = match r4 {
            Ok(f) => f,
            Err(e) => {
                return Err(e);
            },
        };
        let r5 = Rectangle::new(corners[1], corners[2], corners[6], corners[5], material, normal_gap);
        assert(Cuboid::face_outcome(corners@, material, *normal_gap, 5, r5));
        let f5 = match r5 {
            Ok(f) => f,
            Err(e) => {
                return Err(e);
            },
        };
        let cuboid = Cuboid { faces: [f0, f1, f2, f3, f4, f5] };
        assert(cuboid.faces[0] == f0 && cuboid.faces[1] == f1 && cuboid.faces[2] == f2
            && cuboid.faces[3] == f3 && cuboid.faces[4] == f4 && cuboid.faces[5] == f5);
        Ok(cuboid)
    }

    /// The cuboid between two opposite corners, its edges along the axes.
    pub fn bounded_by<G: Fn(Point3, Point3, Point3, Point3) -> Vec3>(
        min: Point3,
        max: Point3,
        material: usize,
        normal_gap: &G,
    ) -> (r: Result<Cuboid, RectangleError>)
        requires
            forall|a: Point3, b: Point3, c: Point3, d: Point3|
                call_requires(*normal_gap, (a, b, c, d)),
        ensures
            Cuboid::new_outcome(box_corners(min, max), material, *normal_gap, r),
    {
        let corners = [
            min,
            Point3::new(max.x(), min.y(), min.z()),
            Point3::new(max.x(), max.y(), min.z()),
            Point3::new(min.x(), max.y(), min.z()),
            Point3::new(min.x(), min.y(), max.z()),
            Point3::new(max.x(), min.y(), max.z()),
            max,
            Point3::new(min.x(), max.y(), max.z()),
        ];
        assert(corners@ =~= box_corners(min, max));
        Cuboid::new(&corners, material, normal_gap)
    }

    /// The cuboid with every face moved by `f`.
    pub fn transformed<F: Fn(Vec3) -> Vec3>(&self, f: &F) -> (c: Cuboid)
        requires
            forall|v: Vec3| call_requires(*f, (v,)),
        ensures
            forall|i: int|
                0 <= i < 6 ==> {
                    &&& (#[trigger] self.faces[i]).triangle1.transform_outcome(
                        *f,
                        c.faces[i].triangle1,
                    )
                    &&& self.faces[i].triangle2.transform_outcome(*f, c.faces[i].triangle2)
                },
    {
        let faces = [
            self.faces[0].transformed(f),
            self.faces[1].transformed(f),
            self.faces[2].transformed(f),
            self.faces[3].transformed(f),
            self.faces[4].transformed(f),
            self.faces[5].transformed(f),
        ];
        Cuboid { faces }
    }

    /// Scans the six faces, each up to the closest hit so far, and returns
    /// the last hit found, which is the closest.
    pub fn hit<K: Fn(&Triangle, &Ray) -> TriangleProbe>(
        &self,
        ray: &Ray,
        t_min: Scalar,
        t_max: Scalar,
        kernel: &K,
    ) -> (r: Option<HitRecord>)
        requires
            forall|t: &Triangle, q: &Ray| call_requires(*kernel, (t, q)),
        ensures
            self.hit_outcome(*ray, t_min, t_max, *kernel, r),
    {
        let mut closest_so_far = t_max;
        let mut hit_record: Option<HitRecord> = None;
        let mut i: usize = 0;
        while i < 6
            invariant
                i <= 6,
                forall|t: &Triangle, q: &Ray| call_requires(*kernel, (t, q)),
                self.scan_outcome(
                    i as nat,
                    *ray,
                    t_min,
                    t_max,
                    *kernel,
                    hit_record,
                    closest_so_far,
                ),
            decreases 6 - i,
        {
            let ghost prev = hit_record;
            let ghost prev_limit = closest_so_far;
            let answer = self.faces[i].hit(ray, t_min, closest_so_far, kernel);
            if let Some(record) = answer {
                closest_so_far = record.t;
                hit_record = Some(record);
            }
            proof {
                assert(scan_stepped(prev, prev_limit, answer, hit_record, closest_so_far));
            }
            i += 1;
        }
        hit_record
    }

    /// The box of the cuboid: the merge of the boxes of its faces.
    pub fn bounding_box<P: Fn(&Aabb) -> Aabb>(&self, timeframe: Time, pad: &P) -> (r: Option<
        Aabb,
    >)
        requires
            forall|b: &Aabb| call_requires(*pad, (b,)),
        ensures
            self.box_outcome(*pad, r),
    {
        let first = self.faces[0].bounding_box(timeframe, pad);
        let mut output_box = match first {
            Some(b) => b,
            None => {
                // a rectangle always has a box
                proof {
                    assert(false);
                }
                return None;
            },
        };
        let ghost mut boxes: Seq<Aabb> = Seq::empty();
        let ghost start = output_box;
        let mut i: usize = 0;
        while i < 6
            invariant
                i <= 6,
                forall|b: &Aabb| call_requires(*pad, (b,)),
                boxes.len() == i,
                first == Some(start),
                self.faces[0].box_outcome(*pad, Some(start)),
                i > 0 ==> boxes[0] == start,
                forall|j: int| 0 <= j < i ==> #[trigger] self.faces[j].box_outcome(*pad, Some(boxes[j])),
                output_box == merge_onto(start, boxes),
            decreases 6 - i,
        {
            let face_box = if i == 0 {
                first
            } else {
                self.faces[i].bounding_box(timeframe, pad)
            };
            match face_box {
                Some(b) => {
                    output_box = Aabb::surrounding_box(&output_box, &b);
                    proof {
                        let extended = boxes.push(b);
                        assert(extended.drop_last() =~= boxes);
                        boxes = extended;
                    }
                },
                None => {
                    // a rectangle always has a box
                    proof {
                        assert(false);
                    }
                    return None;
                },
            }
            i += 1;
        }
        Some(output_box)
    }
}

} // verus!
