use vstd::prelude::*;
use crate::aabb::{lemma_surrounding_box_encloses, Aabb, SlabCrossings};
use crate::objects::object_list::ObjectList;
use crate::objects::{closer, closer_spec, HitRecord};
use crate::rand_ext::random_range;
use crate::ray::Ray;
use crate::scalar::Scalar;

verus! {

/// What the hierarchy reads of an object: the handle under which the caller
/// knows it, its box at the reference time, by which objects are ordered, and
/// its box over the time interval of the render.
#[derive(Clone, Copy, Debug, PartialEq, Eq, Structural)]
pub struct BoundedObject {
    pub handle: usize,
    pub reference_box: Aabb,
    pub bounding_box: Aabb,
}

/// How two objects lie along an axis.
#[derive(Clone, Copy, Debug, PartialEq, Eq, Structural)]
pub enum AxisOrder {
    Less,
    Equal,
    Greater,
}

/// A child of a node: an object, by its handle, or another node.
#[derive(Debug)]
pub enum BvhChild {
    Leaf(usize),
    Node(Box<BvhNode>),
}

/// A node of the hierarchy: two children and a box that contains both.
#[derive(Debug)]
pub struct BvhNode {
    pub left: BvhChild,
    pub right: BvhChild,
    pub bounding_box: Aabb,
}

/// The coordinate by which an object is ordered along an axis: the minimum
/// of its reference box.
pub open spec fn axis_key(o: BoundedObject, axis: int) -> int {
    o.reference_box.min.axis(axis)@
}

/// Every object can be ordered along every axis: no minimum is NaN.
pub open spec fn sortable(objects: Seq<BoundedObject>) -> bool {
    forall|i: int| 0 <= i < objects.len() ==> (#[trigger] objects[i]).reference_box.min.is_number()
}

/// Every object has a valid box.
pub open spec fn boxes_valid(objects: Seq<BoundedObject>) -> bool {
    forall|i: int| 0 <= i < objects.len() ==> (#[trigger] objects[i]).bounding_box.wf()
}

/// The handles of a sequence of objects.
pub open spec fn handle_set(objects: Seq<BoundedObject>) -> Set<usize> {
    Set::new(|h: usize| exists|i: int| 0 <= i < objects.len() && (#[trigger] objects[i]).handle == h)
}

/// `output` is `input` rearranged by `p`, with `q` the inverse of `p`, such
/// that keys along `axis` ascend and objects with equal keys keep the order
/// they had in `input`.
pub open spec fn stable_sort_by(
    input: Seq<BoundedObject>,
    axis: int,
    output: Seq<BoundedObject>,
    p: Seq<int>,
    q: Seq<int>,
) -> bool {
    &&& p.len() == input.len()
    &&& q.len() == input.len()
    &&& output.len() == input.len()
    &&& forall|k: int|
        0 <= k < p.len() ==> 0 <= #[trigger] p[k] < input.len() && output[k] == input[p[k]]
    &&& forall|i: int| 0 <= i < q.len() ==> 0 <= #[trigger] q[i] < p.len() && p[q[i]] == i
    &&& forall|j: int, k: int|
        0 <= j < k < p.len() ==> axis_key(#[trigger] output[j], axis) < axis_key(
            #[trigger] output[k],
            axis,
        ) || (axis_key(output[j], axis) == axis_key(output[k], axis) && p[j] < p[k])
}

/// `output` is the stable sort of `input` along `axis`.
pub open spec fn sorted_along(
    input: Seq<BoundedObject>,
    axis: int,
    output: Seq<BoundedObject>,
) -> bool {
    exists|p: Seq<int>, q: Seq<int>| #[trigger] stable_sort_by(input, axis, output, p, q)
}

/// `a` comes before `b` along `axis`, or they tie.
pub open spec fn in_order(a: BoundedObject, b: BoundedObject, axis: int) -> bool {
    axis_key(a, axis) <= axis_key(b, axis)
}

/// `r` is `closer_spec(a, b)`.
pub open spec fn closer_is(a: Option<HitRecord>, b: Option<HitRecord>, r: Option<HitRecord>) -> bool {
    r == closer_spec(a, b)
}

/// The inverse of a rearrangement after a new last object went into
/// place `pos`: what stood at `pos` or behind it has moved on by one.
pub open spec fn shifted_inverse(q: Seq<int>, pos: int, last: int) -> Seq<int> {
    Seq::new(
        (last + 1) as nat,
        |x: int|
            if x == last {
                pos
            } else if q[x] >= pos {
                q[x] + 1
            } else {
                q[x]
            },
    )
}

/// A sorted sequence stays a stable sort when the next object of the input
/// goes in behind everything that does not come after it.
pub proof fn lemma_insert_keeps_sorted(
    input: Seq<BoundedObject>,
    next: Seq<BoundedObject>,
    axis: int,
    out: Seq<BoundedObject>,
    p: Seq<int>,
    q: Seq<int>,
    pos: int,
    item: BoundedObject,
)
    requires
        stable_sort_by(input, axis, out, p, q),
        next == input.push(item),
        0 <= pos <= out.len(),
        forall|k: int| pos <= k < out.len() ==> axis_key(item, axis) < axis_key(#[trigger] out[k], axis),
        pos > 0 ==> axis_key(out[pos - 1], axis) <= axis_key(item, axis),
    ensures
        stable_sort_by(
            next,
            axis,
            out.insert(pos, item),
            p.insert(pos, input.len() as int),
            shifted_inverse(q, pos, input.len() as int),
        ),
{
    let i = input.len() as int;
    let new_out = out.insert(pos, item);
    let new_p = p.insert(pos, i);
    let new_q = shifted_inverse(q, pos, i);
    assert forall|k: int| 0 <= k < new_p.len() implies 0 <= #[trigger] new_p[k] < next.len()
        && new_out[k] == next[new_p[k]] by {
        if k < pos {
            assert(new_p[k] == p[k]);
            assert(new_out[k] == out[k]);
            assert(out[k] == input[p[k]]);
        } else if k == pos {
        } else {
            assert(new_p[k] == p[k - 1]);
            assert(new_out[k] == out[k - 1]);
            assert(out[k - 1] == input[p[k - 1]]);
        }
    }
    assert forall|x: int| 0 <= x < new_q.len() implies 0 <= #[trigger] new_q[x] < new_p.len()
        && new_p[new_q[x]] == x by {
        if x != i {
            assert(0 <= q[x] < p.len() && p[q[x]] == x);
        }
    }
    assert forall|j: int, k: int| 0 <= j < k < new_p.len() implies axis_key(
        #[trigger] new_out[j],
        axis,
    ) < axis_key(#[trigger] new_out[k], axis) || (axis_key(new_out[j], axis) == axis_key(
        new_out[k],
        axis,
    ) && new_p[j] < new_p[k]) by {
        let jj = if j < pos {
            j
        } else {
            j - 1
        };
        let kk = if k < pos {
            k
        } else {
            k - 1
        };
        if j != pos && k != pos {
            assert(new_out[j] == out[jj]);
            assert(new_out[k] == out[kk]);
            assert(new_p[j] == p[jj] && new_p[k] == p[kk]);
            assert(axis_key(out[jj], axis) < axis_key(out[kk], axis) || (axis_key(out[jj], axis)
                == axis_key(out[kk], axis) && p[jj] < p[kk]));
        } else if j == pos {
            assert(new_out[k] == out[kk]);
            assert(axis_key(item, axis) < axis_key(out[kk], axis));
        } else {
            assert(new_out[j] == out[jj]);
            assert(new_p[j] == p[jj]);
            assert(0 <= p[jj] < input.len());
            if jj < pos - 1 {
                assert(axis_key(out[jj], axis) < axis_key(out[pos - 1], axis) || (axis_key(
                    out[jj],
                    axis,
                ) == axis_key(out[pos - 1], axis) && p[jj] < p[pos - 1]));
            }
        }
    }
}

/// Sorts the objects along an axis by the minimum of their reference boxes.
/// The sort is stable.
pub fn sort_along_axis(objects: &Vec<BoundedObject>, axis: usize) -> (sorted: Vec<BoundedObject>)
    requires
        axis < 3,
        sortable(objects@),
    ensures
        sorted_along(objects@, axis as int, sorted@),
{
    let mut out: Vec<BoundedObject> = Vec::new();
    let ghost mut p: Seq<int> = Seq::empty();
    let ghost mut q: Seq<int> = Seq::empty();
    let mut i: usize = 0;
    while i < objects.len()
        invariant
            axis < 3,
            sortable(objects@),
            i <= objects.len(),
            out.len() == i,
            stable_sort_by(objects@.take(i as int), axis as int, out@, p, q),
        decreases objects.len() - i,
    {
        let item = objects[i];
        let key = item.reference_box.min.get(axis);
        let mut pos: usize = out.len();
        while pos > 0 && key.lt(out[pos - 1].reference_box.min.get(axis))
            invariant
                axis < 3,
                sortable(objects@),
                i < objects.len(),
                item == objects[i as int],
                key == item.reference_box.min.axis(axis as int),
                out.len() == i,
                pos <= out.len(),
                stable_sort_by(objects@.take(i as int), axis as int, out@, p, q),
                forall|k: int|
                    pos <= k < out.len() ==> axis_key(item, axis as int) < axis_key(
                        #[trigger] out@[k],
                        axis as int,
                    ),
            decreases pos,
        {
            proof {
                let k0 = pos - 1;
                assert(out@[k0] == objects@.take(i as int)[p[k0]]);
                assert(out@[k0].reference_box.min.is_number());
            }
            pos -= 1;
        }
        proof {
            let input = objects@.take(i as int);
            assert(item.reference_box.min.is_number());
            if pos > 0 {
                let k0 = pos - 1;
                assert(out@[k0] == input[p[k0]]);
                assert(out@[k0].reference_box.min.is_number());
            }
            let moved = shifted_inverse(q, pos as int, i as int);
            assert(objects@.take(i + 1) =~= input.push(item));
            lemma_insert_keeps_sorted(
                input,
                objects@.take(i + 1),
                axis as int,
                out@,
                p,
                q,
                pos as int,
                item,
            );
            p = p.insert(pos as int, i as int);
            q = moved;
        }
        out.insert(pos, item);
        i += 1;
    }
    proof {
        assert(objects@.take(objects.len() as int) =~= objects@);
    }
    out
}

impl BvhChild {
    /// The handles of the objects under this child.
    pub open spec fn leaf_set(self) -> Set<usize>
        decreases self,
    {
        match self {
            BvhChild::Leaf(h) => set![h],
            BvhChild::Node(n) => n.leaf_set(),
        }
    }

    /// Every node under this child has a valid box that contains the box of
    /// every object under it.
    pub open spec fn encloses_objects(self, objects: Seq<BoundedObject>) -> bool
        decreases self,
    {
        match self {
            BvhChild::Leaf(h) => true,
            BvhChild::Node(n) => n.encloses_objects(objects),
        }
    }

    /// `r` is an answer that `hit` may give with these kernels.
    pub open spec fn hit_outcome<
        C: Fn(&Aabb, &Ray) -> SlabCrossings,
        L: Fn(usize, &Ray, Scalar, Scalar) -> Option<HitRecord>,
    >(
        self,
        ray: Ray,
        t_min: Scalar,
        t_max: Scalar,
        crossings: C,
        leaf_hit: L,
        r: Option<HitRecord>,
    ) -> bool
        decreases self,
    {
        match self {
            BvhChild::Leaf(h) => call_ensures(leaf_hit, (h, &ray, t_min, t_max), r),
            BvhChild::Node(n) => n.hit_outcome(ray, t_min, t_max, crossings, leaf_hit, r),
        }
    }

    /// Intersects the ray with what is under this child.
    pub fn hit<
        C: Fn(&Aabb, &Ray) -> SlabCrossings,
        L: Fn(usize, &Ray, Scalar, Scalar) -> Option<HitRecord>,
    >(
        &self,
        ray: &Ray,
        t_min: Scalar,
        t_max: Scalar,
        crossings: &C,
        leaf_hit: &L,
    ) -> (r: Option<HitRecord>)
        requires
            forall|b: &Aabb, q: &Ray| call_requires(*crossings, (b, q)),
            forall|h: usize, q: &Ray, a: Scalar, b: Scalar| call_requires(*leaf_hit, (h, q, a, b)),
        ensures
            self.hit_outcome(*ray, t_min, t_max, *crossings, *leaf_hit, r),
        decreases self,
    {
        match self {
            BvhChild::Leaf(h) => leaf_hit(*h, ray, t_min, t_max),
            BvhChild::Node(n) => n.hit(ray, t_min, t_max, crossings, leaf_hit),
        }
    }
}

/// Some object with handle `h` has its box inside `b`.
pub open spec fn bounds_handle(b: Aabb, objects: Seq<BoundedObject>, h: usize) -> bool {
    exists|i: int|
        0 <= i < objects.len() && (#[trigger] objects[i]).handle == h && b.encloses(
            objects[i].bounding_box,
        )
}

impl BvhNode {
    /// The handles of the objects under this node.
    pub open spec fn leaf_set(self) -> Set<usize>
        decreases self,
    {
        self.left.leaf_set().union(self.right.leaf_set())
    }

    /// This node and every node under it has a valid box that contains the
    /// box of every object under it.
    pub open spec fn encloses_objects(self, objects: Seq<BoundedObject>) -> bool
        decreases self,
    {
        &&& self.bounding_box.wf()
        &&& forall|h: usize|
            self.leaf_set().contains(h) ==> #[trigger] bounds_handle(self.bounding_box, objects, h)
        &&& self.left.encloses_objects(objects)
        &&& self.right.encloses_objects(objects)
    }

    /// The node on two objects, the one that comes first along `axis` on the
    /// left; on a tie the first stays left.
    pub open spec fn is_pair(self, a: BoundedObject, b: BoundedObject, axis: int) -> bool {
        let first = if in_order(a, b, axis) {
            a
        } else {
            b
        };
        let second = if in_order(a, b, axis) {
            b
        } else {
            a
        };
        &&& self.left == BvhChild::Leaf(first.handle)
        &&& self.right == BvhChild::Leaf(second.handle)
        &&& self.bounding_box == Aabb::surrounding_box_spec(
            first.bounding_box,
            second.bounding_box,
        )
    }

    /// The node is a hierarchy that `new` may build on `objects`. One object
    /// is both children of its node. Two objects are ordered along some
    /// axis. More are sorted along some axis and split in the middle, the
    /// left half holding the smaller part when the number is odd. The box of
    /// a node is the merge of the boxes of its children.
    pub open spec fn built_from(self, objects: Seq<BoundedObject>) -> bool
        decreases self,
    {
        if objects.len() == 1 {
            &&& self.left == BvhChild::Leaf(objects[0].handle)
            &&& self.right == BvhChild::Leaf(objects[0].handle)
            &&& self.bounding_box == Aabb::surrounding_box_spec(
                objects[0].bounding_box,
                objects[0].bounding_box,
            )
        } else if objects.len() == 2 {
            exists|axis: int| 0 <= axis < 3 && #[trigger] self.is_pair(objects[0], objects[1], axis)
        } else {
            match (self.left, self.right) {
                (BvhChild::Node(l), BvhChild::Node(r)) => {
                    &&& objects.len() >= 3
                    &&& self.bounding_box == Aabb::surrounding_box_spec(
                        l.bounding_box,
                        r.bounding_box,
                    )
                    &&& exists|axis: int, s: Seq<BoundedObject>|
                        {
                            &&& 0 <= axis < 3
                            &&& #[trigger] sorted_along(objects, axis, s)
                            &&& l.built_from(s.take((objects.len() / 2) as int))
                            &&& r.built_from(s.skip((objects.len() / 2) as int))
                        }
                },
                _ => false,
            }
        }
    }

    /// `r` is an answer that `hit` may give with these kernels: nothing when
    /// the ray misses the box of the node, else the closer of the answers of
    /// the two children.
    pub open spec fn hit_outcome<
        C: Fn(&Aabb, &Ray) -> SlabCrossings,
        L: Fn(usize, &Ray, Scalar, Scalar) -> Option<HitRecord>,
    >(
        self,
        ray: Ray,
        t_min: Scalar,
        t_max: Scalar,
        crossings: C,
        leaf_hit: L,
        r: Option<HitRecord>,
    ) -> bool
        decreases self,
    {
        ||| (self.bounding_box.hit_outcome(ray, t_min, t_max, crossings, false) && r is None)
        ||| (self.bounding_box.hit_outcome(ray, t_min, t_max, crossings, true) && exists|
            a: Option<HitRecord>,
            b: Option<HitRecord>,
        |
            {
                &&& #[trigger] closer_is(a, b, r)
                &&& self.left.hit_outcome(ray, t_min, t_max, crossings, leaf_hit, a)
                &&& self.right.hit_outcome(ray, t_min, t_max, crossings, leaf_hit, b)
            })
    }

    /// How `a` and `b` lie along an axis, by the minimum of their reference
    /// boxes on it.
    pub fn compare_along_axis(a: &BoundedObject, b: &BoundedObject, axis: usize) -> (r: AxisOrder)
        requires
            axis < 3,
            !a.reference_box.min.axis(axis as int).is_nan_spec(),
            !b.reference_box.min.axis(axis as int).is_nan_spec(),
        ensures
            r == AxisOrder::Less <==> axis_key(*a, axis as int) < axis_key(*b, axis as int),
            r == AxisOrder::Equal <==> axis_key(*a, axis as int) == axis_key(*b, axis as int),
            r == AxisOrder::Greater <==> axis_key(*a, axis as int) > axis_key(*b, axis as int),
    {
        let ka = a.reference_box.min.get(axis);
        let kb = b.reference_box.min.get(axis);
        if ka.lt(kb) {
            AxisOrder::Less
        } else if kb.lt(ka) {
            AxisOrder::Greater
        } else {
            AxisOrder::Equal
        }
    }

    /// Builds the hierarchy on a non-empty set of objects. At every node a
    /// random axis is drawn.
    pub fn new(objects: &Vec<BoundedObject>) -> (node: BvhNode)
        requires
            objects.len() > 0,
            sortable(objects@),
        ensures
            node.built_from(objects@),
            node.leaf_set() =~= handle_set(objects@),
            boxes_valid(objects@) ==> node.encloses_objects(objects@),
        decreases objects.len(),
    {
        let axis = random_range(0, 3);
        let n = objects.len();
        if n == 1 {
            let o = objects[0];
            let node = BvhNode {
                left: BvhChild::Leaf(o.handle),
                right: BvhChild::Leaf(o.handle),
                bounding_box: Aabb::surrounding_box(&o.bounding_box, &o.bounding_box),
            };
            proof {
                assert(node.leaf_set() =~= handle_set(objects@)) by {
                    assert forall|h: usize| handle_set(objects@).contains(h) implies h
                        == o.handle by {
                        let i = choose|i: int|
                            0 <= i < objects@.len() && (#[trigger] objects@[i]).handle == h;
                        assert(i == 0);
                    }
                    assert(objects@[0].handle == o.handle);
                }
                if boxes_valid(objects@) {
                    assert(objects@[0].bounding_box.wf());
                    lemma_surrounding_box_encloses(o.bounding_box, o.bounding_box);
                    assert(bounds_handle(node.bounding_box, objects@, o.handle));
                }
            }
            node
        } else if n == 2 {
            let a = objects[0];
            let b = objects[1];
            proof {
                assert(objects@[0].reference_box.min.is_number());
                assert(objects@[1].reference_box.min.is_number());
            }
            let (first, second) = match BvhNode::compare_along_axis(&a, &b, axis) {
                AxisOrder::Less | AxisOrder::Equal => (a, b),
                AxisOrder::Greater => (b, a),
            };
            let node = BvhNode {
                left: BvhChild::Leaf(first.handle),
                right: BvhChild::Leaf(second.handle),
                bounding_box: Aabb::surrounding_box(&first.bounding_box, &second.bounding_box),
            };
            proof {
                assert(node.is_pair(objects@[0], objects@[1], axis as int));
                assert(node.leaf_set() =~= handle_set(objects@)) by {
                    assert forall|h: usize| handle_set(objects@).contains(h) implies h == a.handle
                        || h == b.handle by {
                        let i = choose|i: int|
                            0 <= i < objects@.len() && (#[trigger] objects@[i]).handle == h;
                        assert(i == 0 || i == 1);
                    }
                    assert(objects@[0].handle == a.handle);
                    assert(objects@[1].handle == b.handle);
                }
                if boxes_valid(objects@) {
                    assert(objects@[0].bounding_box.wf());
                    assert(objects@[1].bounding_box.wf());
                    lemma_surrounding_box_encloses(first.bounding_box, second.bounding_box);
                    assert(bounds_handle(node.bounding_box, objects@, a.handle));
                    assert(bounds_handle(node.bounding_box, objects@, b.handle));
                }
            }
            node
        } else {
            let mut sorted = sort_along_axis(objects, axis);
            let ghost s = sorted@;
            let mid = n / 2;
            let right_objects = sorted.split_off(mid);
            proof {
                lemma_sorted_keeps_objects(objects@, axis as int, s);
                assert(sorted@ =~= s.take(mid as int));
                assert(right_objects@ =~= s.skip(mid as int));
                assert(sortable(sorted@)) by {
                    assert forall|i: int| 0 <= i < sorted@.len() implies (
                    #[trigger] sorted@[i]).reference_box.min.is_number() by {
                        assert(sorted@[i] == s[i]);
                    }
                }
                assert(sortable(right_objects@)) by {
                    assert forall|i: int| 0 <= i < right_objects@.len() implies (
                    #[trigger] right_objects@[i]).reference_box.min.is_number() by {
                        assert(right_objects@[i] == s[i + mid]);
                    }
                }
            }
            let l = BvhNode::new(&sorted);
            let r = BvhNode::new(&right_objects);
            let node = BvhNode {
                bounding_box: Aabb::surrounding_box(&l.bounding_box, &r.bounding_box),
                left: BvhChild::Node(Box::new(l)),
                right: BvhChild::Node(Box::new(r)),
            };
            proof {
                assert(node.built_from(objects@));
                lemma_split_handles(s, mid as int);
                assert(node.leaf_set() =~= handle_set(objects@));
                if boxes_valid(objects@) {
                    assert(boxes_valid(sorted@)) by {
                        assert forall|i: int| 0 <= i < sorted@.len() implies (
                        #[trigger] sorted@[i]).bounding_box.wf() by {
                            assert(sorted@[i] == s[i]);
                        }
                    }
                    assert(boxes_valid(right_objects@)) by {
                        assert forall|i: int| 0 <= i < right_objects@.len() implies (
                        #[trigger] right_objects@[i]).bounding_box.wf() by {
                            assert(right_objects@[i] == s[i + mid]);
                        }
                    }
                    lemma_encloses_more(l, sorted@, objects@);
                    lemma_encloses_more(r, right_objects@, objects@);
                    lemma_surrounding_box_encloses(l.bounding_box, r.bounding_box);
                    assert forall|h: usize| node.leaf_set().contains(h) implies #[trigger] bounds_handle(
                        node.bounding_box,
                        objects@,
                        h,
                    ) by {
                        if l.leaf_set().contains(h) {
                            assert(bounds_handle(l.bounding_box, objects@, h));
                        } else {
                            assert(bounds_handle(r.bounding_box, objects@, h));
                        }
                    }
                }
            }
            node
        }
    }

    /// Builds the hierarchy on the objects of a list.
    pub fn from_list(list: &ObjectList<BoundedObject>) -> (node: BvhNode)
        requires
            list.objects@.len() > 0,
            sortable(list.objects@),
        ensures
            node.built_from(list.objects@),
            node.leaf_set() =~= handle_set(list.objects@),
            boxes_valid(list.objects@) ==> node.encloses_objects(list.objects@),
    {
        BvhNode::new(list.objects())
    }

    /// Intersects the ray with the objects of the hierarchy. `crossings` does
    /// the divisions of the slab test; `leaf_hit` intersects the object with
    /// the given handle.
    pub fn hit<
        C: Fn(&Aabb, &Ray) -> SlabCrossings,
        L: Fn(usize, &Ray, Scalar, Scalar) -> Option<HitRecord>,
    >(
        &self,
        ray: &Ray,
        t_min: Scalar,
        t_max: Scalar,
        crossings: &C,
        leaf_hit: &L,
    ) -> (r: Option<HitRecord>)
        requires
            forall|b: &Aabb, q: &Ray| call_requires(*crossings, (b, q)),
            forall|h: usize, q: &Ray, a: Scalar, b: Scalar| call_requires(*leaf_hit, (h, q, a, b)),
        ensures
            self.hit_outcome(*ray, t_min, t_max, *crossings, *leaf_hit, r),
        decreases self,
    {
        if !self.bounding_box.hit(ray, t_min, t_max, crossings) {
            return None;
        }
        let hit_left = self.left.hit(ray, t_min, t_max, crossings, leaf_hit);
        let hit_right = self.right.hit(ray, t_min, t_max, crossings, leaf_hit);
        let r = closer(hit_left, hit_right);
        proof {
            assert(closer_is(hit_left, hit_right, r));
        }
        r
    }

    /// The box of the node, whatever the time interval.
    pub fn bounding_box(&self) -> (b: Option<Aabb>)
        ensures
            b == Some(self.bounding_box),
    {
        Some(self.bounding_box)
    }
}

/// A sort keeps the objects: every sorted object is one of the input and
/// the other way round, so numbers stay numbers and the handles are the same.
pub proof fn lemma_sorted_keeps_objects(
    input: Seq<BoundedObject>,
    axis: int,
    output: Seq<BoundedObject>,
)
    requires
        sorted_along(input, axis, output),
    ensures
        output.len() == input.len(),
        forall|k: int| 0 <= k < output.len() ==> input.contains(#[trigger] output[k]),
        forall|i: int| 0 <= i < input.len() ==> output.contains(#[trigger] input[i]),
        sortable(input) ==> sortable(output),
        boxes_valid(input) ==> boxes_valid(output),
        handle_set(output) =~= handle_set(input),
{
    let (p, q) = choose|p: Seq<int>, q: Seq<int>| #[trigger]
        stable_sort_by(input, axis, output, p, q);
    assert forall|k: int| 0 <= k < output.len() implies input.contains(#[trigger] output[k]) by {
        assert(output[k] == input[p[k]]);
    }
    assert forall|i: int| 0 <= i < input.len() implies output.contains(#[trigger] input[i]) by {
        assert(p[q[i]] == i);
        assert(output[q[i]] == input[p[q[i]]]);
    }
    if sortable(input) {
        assert forall|k: int| 0 <= k < output.len() implies (
        #[trigger] output[k]).reference_box.min.is_number() by {
            assert(output[k] == input[p[k]]);
        }
    }
    if boxes_valid(input) {
        assert forall|k: int| 0 <= k < output.len() implies (
        #[trigger] output[k]).bounding_box.wf() by {
            assert(output[k] == input[p[k]]);
        }
    }
    assert forall|h: usize| handle_set(output).contains(h) implies handle_set(input).contains(
        h,
    ) by {
        let k = choose|k: int| 0 <= k < output.len() && (#[trigger] output[k]).handle == h;
        assert(output[k] == input[p[k]]);
        assert(input[p[k]].handle == h);
    }
    assert forall|h: usize| handle_set(input).contains(h) implies handle_set(output).contains(
        h,
    ) by {
        let i = choose|i: int| 0 <= i < input.len() && (#[trigger] input[i]).handle == h;
        assert(p[q[i]] == i);
        assert(output[q[i]] == input[p[q[i]]]);
        assert(output[q[i]].handle == h);
    }
}

/// The handles of a sequence are those of its two parts.
pub proof fn lemma_split_handles(s: Seq<BoundedObject>, mid: int)
    requires
        0 <= mid <= s.len(),
    ensures
        handle_set(s) =~= handle_set(s.take(mid)).union(handle_set(s.skip(mid))),
{
    assert forall|h: usize| handle_set(s).contains(h) implies handle_set(s.take(mid)).union(
        handle_set(s.skip(mid)),
    ).contains(h) by {
        let i = choose|i: int| 0 <= i < s.len() && (#[trigger] s[i]).handle == h;
        if i < mid {
            assert(s.take(mid)[i].handle == h);
        } else {
            assert(s.skip(mid)[i - mid].handle == h);
        }
    }
    assert forall|h: usize|
        handle_set(s.take(mid)).union(handle_set(s.skip(mid))).contains(h) implies handle_set(
        s,
    ).contains(h) by {
        if handle_set(s.take(mid)).contains(h) {
            let i = choose|i: int|
                0 <= i < s.take(mid).len() && (#[trigger] s.take(mid)[i]).handle == h;
            assert(s[i].handle == h);
        } else {
            let i = choose|i: int|
                0 <= i < s.skip(mid).len() && (#[trigger] s.skip(mid)[i]).handle == h;
            assert(s[i + mid].handle == h);
        }
    }
}

/// A hierarchy that contains the boxes of some objects contains them among
/// more objects too.
pub proof fn lemma_encloses_more(
    node: BvhNode,
    fewer: Seq<BoundedObject>,
    more: Seq<BoundedObject>,
)
    requires
        node.encloses_objects(fewer),
        forall|i: int| 0 <= i < fewer.len() ==> more.contains(#[trigger] fewer[i]),
    ensures
        node.encloses_objects(more),
    decreases node,
{
    assert forall|h: usize| node.leaf_set().contains(h) implies #[trigger] bounds_handle(
        node.bounding_box,
        more,
        h,
    ) by {
        assert(bounds_handle(node.bounding_box, fewer, h));
        let i = choose|i: int|
            0 <= i < fewer.len() && (#[trigger] fewer[i]).handle == h && node.bounding_box.encloses(
                fewer[i].bounding_box,
            );
        assert(more.contains(fewer[i]));
        let j = choose|j: int| 0 <= j < more.len() && more[j] == fewer[i];
        assert(more[j].handle == h);
    }
    match node.left {
        BvhChild::Leaf(_) => {},
        BvhChild::Node(n) => {
            lemma_encloses_more(*n, fewer, more);
        },
    }
    match node.right {
        BvhChild::Leaf(_) => {},
        BvhChild::Node(n) => {
            lemma_encloses_more(*n, fewer, more);
        },
    }
}

} // verus!
