use vstd::prelude::*;
use crate::aabb::{slabs_overlap_spec, Aabb, SlabCrossings};
use crate::objects::bvh_node::{bounds_handle, closer_is, handle_set, BoundedObject, BvhChild, BvhNode};
use crate::objects::object_list::ObjectList;
use crate::objects::{closer_spec, scan_stepped, HitRecord};
use crate::ray::Ray;
use crate::scalar::Scalar;

verus! {

/// `r` is a closest hit among the objects with the given handles, where
/// `hits` says for each handle what the ray hits of that object: none when
/// no object is hit, else the hit of one of them that no other hit precedes.
pub open spec fn closest_among(
    handles: Set<usize>,
    hits: spec_fn(usize) -> Option<HitRecord>,
    r: Option<HitRecord>,
) -> bool {
    match r {
        None => forall|x: usize| handles.contains(x) ==> (#[trigger] hits(x)) is None,
        Some(rec) => {
            &&& exists|x: usize| handles.contains(x) && #[trigger] hits(x) == Some(rec)
            &&& forall|x: usize|
                handles.contains(x) && (#[trigger] hits(x)) is Some ==> rec.t@ <= hits(x)->0.t@
        },
    }
}

/// Every hit lies in the query interval `[t_min, t_max)`.
pub open spec fn hits_in_range(
    hits: spec_fn(usize) -> Option<HitRecord>,
    t_min: Scalar,
    t_max: Scalar,
) -> bool {
    forall|x: usize| (#[trigger] hits(x)) is Some ==> hits(x)->0.t.in_range_spec(t_min, t_max)
}

/// A hit cut down to the parameters below `limit`.
pub open spec fn below(hit: Option<HitRecord>, limit: Scalar) -> Option<HitRecord> {
    match hit {
        Some(rec) => if rec.t.lt_spec(limit) {
            hit
        } else {
            None
        },
        None => None,
    }
}

/// The kernel of the hierarchy answers for each object with its hit.
pub open spec fn leaf_hits_are<L: Fn(usize, &Ray, Scalar, Scalar) -> Option<HitRecord>>(
    leaf_hit: L,
    ray: Ray,
    t_min: Scalar,
    t_max: Scalar,
    hits: spec_fn(usize) -> Option<HitRecord>,
) -> bool {
    forall|x: usize, r: Option<HitRecord>| #[trigger]
        call_ensures(leaf_hit, (x, &ray, t_min, t_max), r) ==> r == hits(x)
}

/// The kernel of the list answers for each object with its hit, as far as
/// that lies below the limit it is asked with.
pub open spec fn object_hits_are<K: Fn(&BoundedObject, &Ray, Scalar, Scalar) -> Option<HitRecord>>(
    object_hit: K,
    ray: Ray,
    t_min: Scalar,
    hits: spec_fn(usize) -> Option<HitRecord>,
) -> bool {
    forall|o: BoundedObject, limit: Scalar, r: Option<HitRecord>| #[trigger]
        call_ensures(object_hit, (&o, &ray, t_min, limit), r) ==> r == below(hits(o.handle), limit)
}

/// The slab test never fails on a box that contains the box of an object
/// that the ray hits.
pub open spec fn boxes_are_sound<C: Fn(&Aabb, &Ray) -> SlabCrossings>(
    crossings: C,
    ray: Ray,
    t_min: Scalar,
    t_max: Scalar,
    objects: Seq<BoundedObject>,
    hits: spec_fn(usize) -> Option<HitRecord>,
) -> bool {
    forall|i: int, b: Aabb, c: SlabCrossings|
        #![trigger objects[i], call_ensures(crossings, (&b, &ray), c)]
        0 <= i < objects.len() && hits(objects[i].handle) is Some && b.encloses(
            objects[i].bounding_box,
        ) && call_ensures(crossings, (&b, &ray), c) ==> slabs_overlap_spec(c, t_min, t_max)
}

/// The closer of the closest hits of two sets of objects is a closest hit of
/// their union.
pub proof fn lemma_closer_of_closest(
    left: Set<usize>,
    right: Set<usize>,
    hits: spec_fn(usize) -> Option<HitRecord>,
    t_min: Scalar,
    t_max: Scalar,
    a: Option<HitRecord>,
    b: Option<HitRecord>,
)
    requires
        hits_in_range(hits, t_min, t_max),
        closest_among(left, hits, a),
        closest_among(right, hits, b),
    ensures
        closest_among(left.union(right), hits, closer_spec(a, b)),
{
    let r = closer_spec(a, b);
    match r {
        None => {},
        Some(rec) => {
            if a == Some(rec) {
                let x = choose|x: usize| left.contains(x) && #[trigger] hits(x) == Some(rec);
                assert(left.union(right).contains(x));
            } else {
                let x = choose|x: usize| right.contains(x) && #[trigger] hits(x) == Some(rec);
                assert(left.union(right).contains(x));
            }
            if a is Some {
                let x = choose|x: usize| left.contains(x) && #[trigger] hits(x) == a;
                assert(!a->0.t.is_nan_spec());
            }
            if b is Some {
                let x = choose|x: usize| right.contains(x) && #[trigger] hits(x) == b;
                assert(!b->0.t.is_nan_spec());
            }
            assert forall|x: usize|
                left.union(right).contains(x) && (#[trigger] hits(x)) is Some implies rec.t@
                <= hits(x)->0.t@ by {
                if left.contains(x) {
                } else {
                }
            }
        },
    }
}

/// What a child of the hierarchy answers is a closest hit among its objects.
pub proof fn lemma_child_hit_is_closest<
    C: Fn(&Aabb, &Ray) -> SlabCrossings,
    L: Fn(usize, &Ray, Scalar, Scalar) -> Option<HitRecord>,
>(
    child: BvhChild,
    objects: Seq<BoundedObject>,
    ray: Ray,
    t_min: Scalar,
    t_max: Scalar,
    crossings: C,
    leaf_hit: L,
    hits: spec_fn(usize) -> Option<HitRecord>,
    r: Option<HitRecord>,
)
    requires
        child.encloses_objects(objects),
        hits_in_range(hits, t_min, t_max),
        leaf_hits_are(leaf_hit, ray, t_min, t_max, hits),
        boxes_are_sound(crossings, ray, t_min, t_max, objects, hits),
        child.hit_outcome(ray, t_min, t_max, crossings, leaf_hit, r),
    ensures
        closest_among(child.leaf_set(), hits, r),
    decreases child, 0nat,
{
    match child {
        BvhChild::Leaf(x) => {
            assert(r == hits(x));
            assert(set![x].contains(x));
        },
        BvhChild::Node(n) => {
            lemma_bvh_hit_is_closest(*n, objects, ray, t_min, t_max, crossings, leaf_hit, hits, r);
        },
    }
}

/// What the hierarchy answers is a closest hit among its objects, provided
/// that its kernels answer as intersections do.
pub proof fn lemma_bvh_hit_is_closest<
    C: Fn(&Aabb, &Ray) -> SlabCrossings,
    L: Fn(usize, &Ray, Scalar, Scalar) -> Option<HitRecord>,
>(
    node: BvhNode,
    objects: Seq<BoundedObject>,
    ray: Ray,
    t_min: Scalar,
    t_max: Scalar,
    crossings: C,
    leaf_hit: L,
    hits: spec_fn(usize) -> Option<HitRecord>,
    r: Option<HitRecord>,
)
    requires
        node.encloses_objects(objects),
        hits_in_range(hits, t_min, t_max),
        leaf_hits_are(leaf_hit, ray, t_min, t_max, hits),
        boxes_are_sound(crossings, ray, t_min, t_max, objects, hits),
        node.hit_outcome(ray, t_min, t_max, crossings, leaf_hit, r),
    ensures
        closest_among(node.leaf_set(), hits, r),
    decreases node, 1nat,
{
    if node.bounding_box.hit_outcome(ray, t_min, t_max, crossings, false) && r is None {
        let c = choose|c: SlabCrossings| #[trigger]
            call_ensures(crossings, (&node.bounding_box, &ray), c) && false == slabs_overlap_spec(
                c,
                t_min,
                t_max,
            );
        assert forall|x: usize| node.leaf_set().contains(x) implies (#[trigger] hits(x)) is None by {
            assert(bounds_handle(node.bounding_box, objects, x));
            let i = choose|i: int|
                0 <= i < objects.len() && (#[trigger] objects[i]).handle == x
                    && node.bounding_box.encloses(objects[i].bounding_box);
            if hits(x) is Some {
                assert(slabs_overlap_spec(c, t_min, t_max));
            }
        }
    } else {
        let (a, b) = choose|a: Option<HitRecord>, b: Option<HitRecord>|
            {
                &&& #[trigger] closer_is(a, b, r)
                &&& node.left.hit_outcome(ray, t_min, t_max, crossings, leaf_hit, a)
                &&& node.right.hit_outcome(ray, t_min, t_max, crossings, leaf_hit, b)
            };
        lemma_child_hit_is_closest(
            node.left,
            objects,
            ray,
            t_min,
            t_max,
            crossings,
            leaf_hit,
            hits,
            a,
        );
        lemma_child_hit_is_closest(
            node.right,
            objects,
            ray,
            t_min,
            t_max,
            crossings,
            leaf_hit,
            hits,
            b,
        );
        lemma_closer_of_closest(
            node.left.leaf_set(),
            node.right.leaf_set(),
            hits,
            t_min,
            t_max,
            a,
            b,
        );
    }
}

/// After the scan of the first `n` objects of a list, the best hit is a
/// closest hit among them, and the limit is its parameter, or `t_max` while
/// there is none.
pub proof fn lemma_scan_is_closest<K: Fn(&BoundedObject, &Ray, Scalar, Scalar) -> Option<HitRecord>>(
    list: ObjectList<BoundedObject>,
    n: nat,
    ray: Ray,
    t_min: Scalar,
    t_max: Scalar,
    object_hit: K,
    hits: spec_fn(usize) -> Option<HitRecord>,
    best: Option<HitRecord>,
    limit: Scalar,
)
    requires
        n <= list.objects@.len(),
        hits_in_range(hits, t_min, t_max),
        object_hits_are(object_hit, ray, t_min, hits),
        list.scan_outcome(n, ray, t_min, t_max, object_hit, best, limit),
    ensures
        closest_among(handle_set(list.objects@.take(n as int)), hits, best),
        best is None ==> limit == t_max,
        best matches Some(rec) ==> limit == rec.t,
    decreases n,
{
    let objects = list.objects@;
    if n == 0 {
        assert forall|x: usize| handle_set(objects.take(0)).contains(x) implies (#[trigger] hits(
            x,
        )) is None by {
            let i = choose|i: int|
                0 <= i < objects.take(0).len() && (#[trigger] objects.take(0)[i]).handle == x;
        }
    } else {
        let (prev, prev_limit, answer) = choose|
            prev: Option<HitRecord>,
            prev_limit: Scalar,
            answer: Option<HitRecord>,
        |
            {
                &&& #[trigger] scan_stepped(prev, prev_limit, answer, best, limit)
                &&& list.scan_outcome(
                    (n - 1) as nat,
                    ray,
                    t_min,
                    t_max,
                    object_hit,
                    prev,
                    prev_limit,
                )
                &&& call_ensures(object_hit, (&objects[n - 1], &ray, t_min, prev_limit), answer)
            };
        lemma_scan_is_closest(
            list,
            (n - 1) as nat,
            ray,
            t_min,
            t_max,
            object_hit,
            hits,
            prev,
            prev_limit,
        );
        let last = objects[n - 1];
        let before = handle_set(objects.take(n - 1));
        let now = handle_set(objects.take(n as int));
        assert(answer == below(hits(last.handle), prev_limit));
        assert(objects.take(n as int)[n - 1] == last);
        assert(now.contains(last.handle));
        assert forall|x: usize| now.contains(x) implies before.contains(x) || x == last.handle by {
            let i = choose|i: int|
                0 <= i < objects.take(n as int).len() && (#[trigger] objects.take(
                    n as int,
                )[i]).handle == x;
            if i < n - 1 {
                assert(objects.take(n - 1)[i].handle == x);
            }
        }
        assert forall|x: usize| before.contains(x) implies now.contains(x) by {
            let i = choose|i: int|
                0 <= i < objects.take(n - 1).len() && (#[trigger] objects.take(n - 1)[i]).handle
                    == x;
            assert(objects.take(n as int)[i].handle == x);
        }
        if prev is Some {
            let w = choose|x: usize| before.contains(x) && #[trigger] hits(x) == prev;
            assert(now.contains(w));
        }
        match best {
            None => {},
            Some(rec) => {
                assert forall|x: usize| now.contains(x) && (#[trigger] hits(x)) is Some implies rec.t@
                    <= hits(x)->0.t@ by {
                    if before.contains(x) {
                    }
                }
            },
        }
    }
}

/// The hierarchy and the linear scan agree. For one ray and one interval,
/// let `hits` say what the ray hits of each object. When the kernels answer
/// by it, and the slab test is sound for the boxes of the objects, then
/// whatever the hierarchy built on the objects answers and whatever the
/// linear scan over the same objects answers are both closest hits: both are
/// none, or both are hits with the same parameter.
pub proof fn lemma_bvh_agrees_with_linear_scan<
    C: Fn(&Aabb, &Ray) -> SlabCrossings,
    L: Fn(usize, &Ray, Scalar, Scalar) -> Option<HitRecord>,
    K: Fn(&BoundedObject, &Ray, Scalar, Scalar) -> Option<HitRecord>,
>(
    node: BvhNode,
    list: ObjectList<BoundedObject>,
    ray: Ray,
    t_min: Scalar,
    t_max: Scalar,
    crossings: C,
    leaf_hit: L,
    object_hit: K,
    hits: spec_fn(usize) -> Option<HitRecord>,
    from_bvh: Option<HitRecord>,
    from_scan: Option<HitRecord>,
)
    requires
        node.leaf_set() == handle_set(list.objects@),
        node.encloses_objects(list.objects@),
        hits_in_range(hits, t_min, t_max),
        leaf_hits_are(leaf_hit, ray, t_min, t_max, hits),
        object_hits_are(object_hit, ray, t_min, hits),
        boxes_are_sound(crossings, ray, t_min, t_max, list.objects@, hits),
        node.hit_outcome(ray, t_min, t_max, crossings, leaf_hit, from_bvh),
        list.hit_outcome(ray, t_min, t_max, object_hit, from_scan),
    ensures
        closest_among(handle_set(list.objects@), hits, from_bvh),
        closest_among(handle_set(list.objects@), hits, from_scan),
        from_bvh is None <==> from_scan is None,
        from_bvh is Some ==> from_bvh->0.t.same_spec(from_scan->0.t),
{
    let handles = handle_set(list.objects@);
    lemma_bvh_hit_is_closest(
        node,
        list.objects@,
        ray,
        t_min,
        t_max,
        crossings,
        leaf_hit,
        hits,
        from_bvh,
    );
    let limit = choose|limit: Scalar| #[trigger]
        list.scan_outcome(list.objects@.len(), ray, t_min, t_max, object_hit, from_scan, limit);
    lemma_scan_is_closest(
        list,
        list.objects@.len(),
        ray,
        t_min,
        t_max,
        object_hit,
        hits,
        from_scan,
        limit,
    );
    assert(list.objects@.take(list.objects@.len() as int) =~= list.objects@);
    if from_bvh is Some {
        let x = choose|x: usize| handles.contains(x) && #[trigger] hits(x) == from_bvh;
        assert(hits(x) is Some);
    }
    if from_scan is Some {
        let y = choose|y: usize| handles.contains(y) && #[trigger] hits(y) == from_scan;
        assert(hits(y) is Some);
    }
}

} // verus!
