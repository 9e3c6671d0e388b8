use vstd::prelude::*;
use crate::aabb::Aabb;
use crate::objects::{scan_stepped, HitRecord};
use crate::ray::Ray;
use crate::scalar::Scalar;
use crate::time::Time;

verus! {

/// An unordered collection of objects, intersected by a linear scan.
pub struct ObjectList<T> {
    pub objects: Vec<T>,
}

/// The merge of a sequence of optional boxes: none when the sequence is empty
/// or holds a missing box, else the boxes merged from the first to the last.
pub open spec fn merge_boxes_spec(boxes: Seq<Option<Aabb>>) -> Option<Aabb>
    decreases boxes.len(),
{
    if boxes.len() == 0 {
        None
    } else if boxes.len() == 1 {
        boxes[0]
    } else {
        match (merge_boxes_spec(boxes.drop_last()), boxes.last()) {
            (Some(a), Some(b)) => Some(Aabb::surrounding_box_spec(a, b)),
            _ => None,
        }
    }
}

/// Merges the boxes of a list of objects, given beforehand.
pub fn merge_boxes(boxes: &Vec<Option<Aabb>>) -> (r: Option<Aabb>)
    ensures
        r == merge_boxes_spec(boxes@),
{
    if boxes.len() == 0 {
        return None;
    }
    let mut output_box: Option<Aabb> = boxes[0];
    assert(boxes@.take(1) =~= seq![boxes@[0]]);
    let mut i: usize = 1;
    while i < boxes.len()
        invariant
            1 <= i <= boxes.len(),
            output_box == merge_boxes_spec(boxes@.take(i as int)),
        decreases boxes.len() - i,
    {
        proof {
            assert(boxes@.take(i + 1).drop_last() =~= boxes@.take(i as int));
        }
        output_box =
        match (output_box, boxes[i]) {
            (Some(a), Some(b)) => Some(Aabb::surrounding_box(&a, &b)),
            _ => None,
        };
        i += 1;
    }
    assert(boxes@.take(boxes.len() as int) =~= boxes@);
    output_box
}

/// The answers that the objects gave when asked for their boxes in turn, up
/// to the first that had none.
pub open spec fn box_answers<T, B: Fn(&T, Time) -> Option<Aabb>>(
    objects: Seq<T>,
    timeframe: Time,
    object_box: B,
    answers: Seq<Option<Aabb>>,
) -> bool {
    &&& 0 < answers.len() <= objects.len()
    &&& forall|i: int|
        0 <= i < answers.len() ==> call_ensures(
            object_box,
            (&objects[i], timeframe),
            #[trigger] answers[i],
        )
    &&& forall|i: int| 0 <= i < answers.len() - 1 ==> (#[trigger] answers[i]) is Some
    &&& answers.len() == objects.len() || answers.last() is None
}

impl<T> ObjectList<T> {
    /// After the first `n` objects were asked in turn, each up to the limit
    /// left by those before it, the best hit is `best` and the limit `limit`.
    pub open spec fn scan_outcome<K: Fn(&T, &Ray, Scalar, Scalar) -> Option<HitRecord>>(
        self,
        n: nat,
        ray: Ray,
        t_min: Scalar,
        t_max: Scalar,
        object_hit: K,
        best: Option<HitRecord>,
        limit: Scalar,
    ) -> bool
        decreases n,
    {
        if n == 0 {
            best is None && limit == t_max
        } else {
            exists|prev: Option<HitRecord>, prev_limit: Scalar, answer: Option<HitRecord>|
                {
                    &&& #[trigger] scan_stepped(prev, prev_limit, answer, best, limit)
                    &&& self.scan_outcome(
                        (n - 1) as nat,
                        ray,
                        t_min,
                        t_max,
                        object_hit,
                        prev,
                        prev_limit,
                    )
                    &&& call_ensures(
                        object_hit,
                        (&self.objects@[n - 1], &ray, t_min, prev_limit),
                        answer,
                    )
                }
        }
    }

    /// `r` is an answer that `hit` may give with this kernel.
    pub open spec fn hit_outcome<K: Fn(&T, &Ray, Scalar, Scalar) -> Option<HitRecord>>(
        self,
        ray: Ray,
        t_min: Scalar,
        t_max: Scalar,
        object_hit: K,
        r: Option<HitRecord>,
    ) -> bool {
        exists|limit: Scalar| #[trigger]
            self.scan_outcome(self.objects@.len(), ray, t_min, t_max, object_hit, r, limit)
    }

    /// `r` is a box that `bounding_box` may give with this kernel: none for
    /// an empty list, else the merge of the answers of the objects.
    pub open spec fn box_outcome<B: Fn(&T, Time) -> Option<Aabb>>(
        self,
        timeframe: Time,
        object_box: B,
        r: Option<Aabb>,
    ) -> bool {
        if self.objects@.len() == 0 {
            r is None
        } else {
            exists|answers: Seq<Option<Aabb>>| #[trigger]
                box_answers(self.objects@, timeframe, object_box, answers) && r
                    == merge_boxes_spec(answers)
        }
    }

    /// The list of the given objects.
    pub fn new(objects: Vec<T>) -> (list: ObjectList<T>)
        ensures
            list.objects == objects,
    {
        ObjectList { objects }
    }

    /// Appends an object.
    pub fn add(&mut self, object: T)
        ensures
            final(self).objects@ == old(self).objects@.push(object),
    {
        self.objects.push(object);
    }

    /// The objects, in the order in which they are scanned.
    pub fn objects(&self) -> (objects: &Vec<T>)
        ensures
            *objects == self.objects,
    {
        &self.objects
    }

    /// Scans the objects in order. Each is asked for a hit in `[t_min, limit)`
    /// where `limit` starts at `t_max` and drops to the parameter of every hit
    /// found, so that the last hit found is the closest.
    pub fn hit<K: Fn(&T, &Ray, Scalar, Scalar) -> Option<HitRecord>>(
        &self,
        ray: &Ray,
        t_min: Scalar,
        t_max: Scalar,
        object_hit: &K,
    ) -> (r: Option<HitRecord>)
        requires
            forall|o: &T, q: &Ray, a: Scalar, b: Scalar| call_requires(*object_hit, (o, q, a, b)),
        ensures
            self.hit_outcome(*ray, t_min, t_max, *object_hit, r),
    {
        let mut hit_record: Option<HitRecord> = None;
        let mut closest_so_far = t_max;
        let mut i: usize = 0;
        while i < self.objects.len()
            invariant
                i <= self.objects.len(),
                forall|o: &T, q: &Ray, a: Scalar, b: Scalar|
                    call_requires(*object_hit, (o, q, a, b)),
                self.scan_outcome(
                    i as nat,
                    *ray,
                    t_min,
                    t_max,
                    *object_hit,
                    hit_record,
                    closest_so_far,
                ),
            decreases self.objects.len() - i,
        {
            let ghost prev = hit_record;
            let ghost prev_limit = closest_so_far;
            let answer = object_hit(&self.objects[i], ray, t_min, closest_so_far);
            if let Some(rec) = answer {
                closest_so_far = rec.t;
                hit_record = Some(rec);
            }
            proof {
                assert(scan_stepped(prev, prev_limit, answer, hit_record, closest_so_far));
            }
            i += 1;
        }
        hit_record
    }

    /// The merge of the boxes of all objects, or none when the list is empty
    /// or an object has no box.
    pub fn bounding_box<B: Fn(&T, Time) -> Option<Aabb>>(
        &self,
        timeframe: Time,
        object_box: &B,
    ) -> (r: Option<Aabb>)
        requires
            forall|o: &T, tf: Time| call_requires(*object_box, (o, tf)),
        ensures
            self.box_outcome(timeframe, *object_box, r),
    {
        if self.objects.len() == 0 {
            return None;
        }
        let mut output_box: Option<Aabb> = None;
        let ghost mut answers: Seq<Option<Aabb>> = Seq::empty();
        let mut i: usize = 0;
        while i < self.objects.len()
            invariant
                i <= self.objects.len(),
                self.objects.len() > 0,
                forall|o: &T, tf: Time| call_requires(*object_box, (o, tf)),
                answers.len() == i,
                forall|j: int|
                    0 <= j < i ==> call_ensures(
                        *object_box,
                        (&self.objects@[j], timeframe),
                        #[trigger] answers[j],
                    ),
                forall|j: int| 0 <= j < i ==> (#[trigger] answers[j]) is Some,
                i > 0 ==> output_box is Some && output_box == merge_boxes_spec(answers),
                i == 0 ==> output_box is None,
            decreases self.objects.len() - i,
        {
            let answer = object_box(&self.objects[i], timeframe);
            proof {
                let extended = answers.push(answer);
                assert(extended.drop_last() =~= answers);
                answers = extended;
            }
            if let Some(tmp_box) = answer {
                output_box =
                match output_box {
                    Some(output_box) => Some(Aabb::surrounding_box(&output_box, &tmp_box)),
                    None => Some(tmp_box),
                };
            } else {
                proof {
                    assert(box_answers(self.objects@, timeframe, *object_box, answers));
                    assert(merge_boxes_spec(answers) is None);
                }
                return None;
            }
            i += 1;
        }
        proof {
            assert(box_answers(self.objects@, timeframe, *object_box, answers));
        }
        output_box
    }
}

} // verus!
