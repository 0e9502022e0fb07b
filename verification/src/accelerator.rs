//! The bounding-volume hierarchy: a binary tree over the scene's objects,
//! built by sorting along the longest axis of the enclosing box and
//! splitting in half, and queried by visiting both children and keeping the
//! nearer hit.
use crate::boundingbox::{spec_surrounding, BoundingBox};
use crate::fbits::{
    f64_gt, f64_is_nan, f64_key, f64_lt, lt_bits, sub_bits, sub_of, Float, ZERO_BITS,
};
use crate::hitable::{
    list_bounds, spec_empty_record, spec_hit_record, spec_hits, spec_list_bounds,
    spec_prim_bounds, spec_prim_intersection, spec_scan, HitRecord, Object,
};
use crate::ray::Ray;
use crate::vectors::spec_axis;
use core::cmp::Ordering;
use vstd::prelude::*;

verus! {

/// A child of a tree node: another node, or an object leaf.
pub enum BvhChild {
    Node(Box<BoundingBoxNode>),
    Leaf(Object),
}

/// A tree node: the enclosing box and two children, both always present. A
/// single object is duplicated into both children.
pub struct BoundingBoxNode {
    pub bbox: BoundingBox,
    pub left: BvhChild,
    pub right: BvhChild,
}

/// The height of a subtree: zero at a leaf.
pub open spec fn child_height(c: BvhChild) -> nat
    decreases c,
{
    match c {
        BvhChild::Leaf(_) => 0,
        BvhChild::Node(n) => {
            let l = child_height(n.left);
            let r = child_height(n.right);
            1 + if l >= r {
                l
            } else {
                r
            }
        },
    }
}

/// The height of a node: one more than its taller child.
pub open spec fn node_height(n: BoundingBoxNode) -> nat {
    let l = child_height(n.left);
    let r = child_height(n.right);
    1 + if l >= r {
        l
    } else {
        r
    }
}

/// What querying a child yields: whether anything hit, and the record of
/// the nearest hit (starting from an empty record).
pub open spec fn spec_child_hit(c: BvhChild, r: Ray, t_min: u64, t_max: u64) -> (bool, HitRecord)
    decreases child_height(c), 1int,
{
    match c {
        BvhChild::Leaf(o) => {
            if spec_hits(o, r, t_min, t_max) {
                (true, spec_hit_record(o, r))
            } else {
                (false, spec_empty_record())
            }
        },
        BvhChild::Node(n) => spec_node_hit(*n, r, t_min, t_max),
    }
}

/// What querying a node yields: both children are searched over the whole
/// window, and when both hit the smaller distance wins.
pub open spec fn spec_node_hit(n: BoundingBoxNode, r: Ray, t_min: u64, t_max: u64) -> (
    bool,
    HitRecord,
)
    decreases node_height(n), 0int,
{
    let (lh, lrec) = spec_child_hit(n.left, r, t_min, t_max);
    let (rh, rrec) = spec_child_hit(n.right, r, t_min, t_max);
    if lh && rh {
        if f64_lt(lrec.t, rrec.t) {
            (true, lrec)
        } else {
            (true, rrec)
        }
    } else if lh {
        (true, lrec)
    } else if rh {
        (true, rrec)
    } else {
        (false, spec_empty_record())
    }
}

/// The box a child covers, recomputed recursively.
pub open spec fn spec_child_bounds(c: BvhChild) -> BoundingBox
    decreases child_height(c), 1int,
{
    match c {
        BvhChild::Leaf(o) => spec_prim_bounds(o.object),
        BvhChild::Node(n) => spec_surrounding(spec_child_bounds(n.left), spec_child_bounds(n.right)),
    }
}

/// Whether the object stands at some leaf of the subtree.
pub open spec fn tree_contains(c: BvhChild, o: Object) -> bool
    decreases child_height(c), 1int,
{
    match c {
        BvhChild::Leaf(x) => x == o,
        BvhChild::Node(n) => node_contains(*n, o),
    }
}

pub open spec fn node_contains(n: BoundingBoxNode, o: Object) -> bool
    decreases node_height(n), 0int,
{
    tree_contains(n.left, o) || tree_contains(n.right, o)
}

/// The query is sound and finds the nearest object: a hit always reports
/// the full record of some contained object whose distance lies in the
/// window, every contained object in the window makes the query hit, and
/// the reported distance is no larger than any such object's distance.
pub proof fn lemma_child_hit_correct(c: BvhChild, r: Ray, t_min: u64, t_max: u64)
    ensures
        spec_child_hit(c, r, t_min, t_max).0 ==> exists|o: Object|
            tree_contains(c, o) && spec_hits(o, r, t_min, t_max) && spec_child_hit(
                c,
                r,
                t_min,
                t_max,
            ).1 == spec_hit_record(o, r),
        forall|o: Object|
            #[trigger] tree_contains(c, o) && spec_hits(o, r, t_min, t_max) ==> spec_child_hit(
                c,
                r,
                t_min,
                t_max,
            ).0 && f64_key(spec_child_hit(c, r, t_min, t_max).1.t) <= f64_key(
                spec_prim_intersection(o.object, r),
            ),
    decreases child_height(c), 1int,
{
    match c {
        BvhChild::Leaf(x) => {
            if spec_hits(x, r, t_min, t_max) {
                assert(tree_contains(c, x) && spec_hits(x, r, t_min, t_max) && spec_child_hit(
                    c,
                    r,
                    t_min,
                    t_max,
                ).1 == spec_hit_record(x, r));
            }
            assert forall|o: Object|
                #[trigger] tree_contains(c, o) && spec_hits(o, r, t_min, t_max) implies spec_child_hit(
                c,
                r,
                t_min,
                t_max,
            ).0 && f64_key(spec_child_hit(c, r, t_min, t_max).1.t) <= f64_key(
                spec_prim_intersection(o.object, r),
            ) by {
                assert(o == x);
                assert(spec_hits(x, r, t_min, t_max));
                assert(spec_child_hit(c, r, t_min, t_max).0);
                assert(spec_child_hit(c, r, t_min, t_max).1 == spec_hit_record(x, r));
                assert(spec_hit_record(x, r).t == spec_prim_intersection(x.object, r));
            }
        },
        BvhChild::Node(n) => {
            lemma_node_hit_correct(*n, r, t_min, t_max);
            assert(spec_child_hit(c, r, t_min, t_max) == spec_node_hit(*n, r, t_min, t_max));
            if spec_child_hit(c, r, t_min, t_max).0 {
                let o = choose|o: Object|
                    node_contains(*n, o) && spec_hits(o, r, t_min, t_max) && spec_node_hit(
                        *n,
                        r,
                        t_min,
                        t_max,
                    ).1 == spec_hit_record(o, r);
                assert(tree_contains(c, o) && spec_hits(o, r, t_min, t_max) && spec_child_hit(
                    c,
                    r,
                    t_min,
                    t_max,
                ).1 == spec_hit_record(o, r));
            }
            assert forall|o: Object|
                #[trigger] tree_contains(c, o) && spec_hits(o, r, t_min, t_max) implies spec_child_hit(
                c,
                r,
                t_min,
                t_max,
            ).0 && f64_key(spec_child_hit(c, r, t_min, t_max).1.t) <= f64_key(
                spec_prim_intersection(o.object, r),
            ) by {
                assert(node_contains(*n, o));
            }
        },
    }
}

pub proof fn lemma_node_hit_correct(n: BoundingBoxNode, r: Ray, t_min: u64, t_max: u64)
    ensures
        spec_node_hit(n, r, t_min, t_max).0 ==> exists|o: Object|
            node_contains(n, o) && spec_hits(o, r, t_min, t_max) && spec_node_hit(
                n,
                r,
                t_min,
                t_max,
            ).1 == spec_hit_record(o, r),
        forall|o: Object|
            node_contains(n, o) && spec_hits(o, r, t_min, t_max) ==> spec_node_hit(
                n,
                r,
                t_min,
                t_max,
            ).0 && f64_key(spec_node_hit(n, r, t_min, t_max).1.t) <= f64_key(
                spec_prim_intersection(o.object, r),
            ),
    decreases node_height(n), 0int,
{
    lemma_child_hit_correct(n.left, r, t_min, t_max);
    lemma_child_hit_correct(n.right, r, t_min, t_max);
    let (lh, lrec) = spec_child_hit(n.left, r, t_min, t_max);
    let (rh, rrec) = spec_child_hit(n.right, r, t_min, t_max);
    if lh {
        let ol = choose|o: Object|
            tree_contains(n.left, o) && spec_hits(o, r, t_min, t_max) && lrec == spec_hit_record(
                o,
                r,
            );
        assert(lrec.t == spec_prim_intersection(ol.object, r));
        assert(!f64_is_nan(lrec.t));
        assert(node_contains(n, ol) && spec_hits(ol, r, t_min, t_max));
        if spec_node_hit(n, r, t_min, t_max).1 == lrec {
            assert(node_contains(n, ol) && spec_hits(ol, r, t_min, t_max) && spec_node_hit(
                n,
                r,
                t_min,
                t_max,
            ).1 == spec_hit_record(ol, r));
        }
    }
    if rh {
        let orr = choose|o: Object|
            tree_contains(n.right, o) && spec_hits(o, r, t_min, t_max) && rrec == spec_hit_record(
                o,
                r,
            );
        assert(rrec.t == spec_prim_intersection(orr.object, r));
        assert(!f64_is_nan(rrec.t));
        assert(node_contains(n, orr) && spec_hits(orr, r, t_min, t_max));
        if spec_node_hit(n, r, t_min, t_max).1 == rrec {
            assert(node_contains(n, orr) && spec_hits(orr, r, t_min, t_max) && spec_node_hit(
                n,
                r,
                t_min,
                t_max,
            ).1 == spec_hit_record(orr, r));
        }
    }
    assert forall|o: Object|
        node_contains(n, o) && spec_hits(o, r, t_min, t_max) implies spec_node_hit(
        n,
        r,
        t_min,
        t_max,
    ).0 && f64_key(spec_node_hit(n, r, t_min, t_max).1.t) <= f64_key(
        spec_prim_intersection(o.object, r),
    ) by {
        if tree_contains(n.left, o) {
            assert(lh && f64_key(lrec.t) <= f64_key(spec_prim_intersection(o.object, r)));
        } else {
            assert(tree_contains(n.right, o));
            assert(rh && f64_key(rrec.t) <= f64_key(spec_prim_intersection(o.object, r)));
        }
        if lh && rh {
            if f64_lt(lrec.t, rrec.t) {
                assert(f64_key(lrec.t) < f64_key(rrec.t));
            } else {
                assert(f64_key(rrec.t) <= f64_key(lrec.t));
            }
        }
    }
}

/// For every ray and every object the tree contains whose distance lies
/// inside the search window, the query reports a hit, at a distance no
/// larger than that object's, and the record carries the material of the
/// object it reports.
pub proof fn lemma_bvh_reports_nearest(
    n: BoundingBoxNode,
    o: Object,
    r: Ray,
    t_min: u64,
    t_max: u64,
)
    requires
        node_contains(n, o),
        spec_hits(o, r, t_min, t_max),
    ensures
        spec_node_hit(n, r, t_min, t_max).0,
        f64_key(spec_node_hit(n, r, t_min, t_max).1.t) <= f64_key(
            spec_prim_intersection(o.object, r),
        ),
        exists|w: Object|
            #[trigger] node_contains(n, w) && spec_hits(w, r, t_min, t_max) && spec_node_hit(
                n,
                r,
                t_min,
                t_max,
            ).1 == spec_hit_record(w, r) && spec_node_hit(n, r, t_min, t_max).1.material == Some(
                w.material,
            ),
{
    lemma_node_hit_correct(n, r, t_min, t_max);
    let w = choose|w: Object|
        node_contains(n, w) && spec_hits(w, r, t_min, t_max) && spec_node_hit(
            n,
            r,
            t_min,
            t_max,
        ).1 == spec_hit_record(w, r);
    assert(node_contains(n, w) && spec_hits(w, r, t_min, t_max) && spec_node_hit(
        n,
        r,
        t_min,
        t_max,
    ).1 == spec_hit_record(w, r) && spec_node_hit(n, r, t_min, t_max).1.material == Some(
        w.material,
    ));
}

/// Whatever the query reports lies strictly inside the window: with the
/// integrator's floor of 0.001 a ray never reports a hit at distance zero,
/// so a ray starting on a surface does not hit its own origin.
pub proof fn lemma_hit_beyond_floor(n: BoundingBoxNode, r: Ray, t_min: u64, t_max: u64)
    requires
        spec_node_hit(n, r, t_min, t_max).0,
    ensures
        f64_gt(spec_node_hit(n, r, t_min, t_max).1.t, t_min),
        f64_lt(spec_node_hit(n, r, t_min, t_max).1.t, t_max),
{
    lemma_node_hit_correct(n, r, t_min, t_max);
    let w = choose|w: Object|
        node_contains(n, w) && spec_hits(w, r, t_min, t_max) && spec_node_hit(
            n,
            r,
            t_min,
            t_max,
        ).1 == spec_hit_record(w, r);
    assert(spec_node_hit(n, r, t_min, t_max).1.t == spec_prim_intersection(w.object, r));
}

/// A positive key names exactly one pattern: equal keys above the key of a
/// non-negative bound mean equal bits.
proof fn lemma_positive_key_unique(a: u64, b: u64, floor: u64)
    requires
        f64_key(a) == f64_key(b),
        f64_key(a) > f64_key(floor),
        f64_key(floor) >= 0,
    ensures
        a == b,
{
    assert(a >> 63 != 1) by {
        if a >> 63 == 1 {
            assert(f64_key(a) <= 0);
        }
    }
    assert(b >> 63 != 1) by {
        if b >> 63 == 1 {
            assert(f64_key(b) <= 0);
        }
    }
    assert(a >> 63 != 1 && b >> 63 != 1 && a & 0x7fff_ffff_ffff_ffff == b
        & 0x7fff_ffff_ffff_ffff ==> a == b) by (bit_vector);
}

/// The tree query and the plain linear scan agree: over the same objects
/// and a non-negative window floor they hit the same rays, at the very same
/// nearest distance.
pub proof fn lemma_bvh_matches_scan(
    n: BoundingBoxNode,
    objects: Seq<Object>,
    r: Ray,
    t_min: u64,
    t_max: u64,
)
    requires
        forall|o: Object| #[trigger] node_contains(n, o) <==> objects.contains(o),
        f64_key(t_min) >= 0,
    ensures
        spec_node_hit(n, r, t_min, t_max).0 == spec_scan(
            objects,
            r,
            t_min,
            false,
            t_max,
            spec_empty_record(),
        ).0,
        spec_node_hit(n, r, t_min, t_max).0 ==> spec_node_hit(n, r, t_min, t_max).1.t == spec_scan(
            objects,
            r,
            t_min,
            false,
            t_max,
            spec_empty_record(),
        ).2.t,
{
    lemma_node_hit_correct(n, r, t_min, t_max);
    crate::hitable::lemma_scan_correct(objects, r, t_min, false, t_max, spec_empty_record());
    let (bh, brec) = spec_node_hit(n, r, t_min, t_max);
    let (sh, scl, srec) = spec_scan(objects, r, t_min, false, t_max, spec_empty_record());
    if bh {
        let w = choose|w: Object|
            node_contains(n, w) && spec_hits(w, r, t_min, t_max) && brec == spec_hit_record(w, r);
        assert(objects.contains(w));
        let k = choose|k: int| 0 <= k < objects.len() && objects[k] == w;
        assert(spec_hits(objects[k], r, t_min, t_max));
        assert(sh);
    }
    if sh {
        let k = choose|k: int|
            0 <= k < objects.len() && spec_hits(#[trigger] objects[k], r, t_min, t_max);
        assert(objects.contains(objects[k]));
        assert(node_contains(n, objects[k]));
        assert(bh);
    }
    if bh {
        let w = choose|w: Object|
            node_contains(n, w) && spec_hits(w, r, t_min, t_max) && brec == spec_hit_record(w, r);
        let ks = choose|k: int|
            0 <= k < objects.len() && spec_hits(#[trigger] objects[k], r, t_min, t_max) && srec
                == spec_hit_record(objects[k], r);
        assert(objects.contains(w));
        let kw = choose|k: int| 0 <= k < objects.len() && objects[k] == w;
        assert(spec_hits(objects[kw], r, t_min, t_max));
        assert(f64_key(scl) <= f64_key(spec_prim_intersection(w.object, r)));
        assert(node_contains(n, objects[ks]));
        assert(f64_key(brec.t) <= f64_key(spec_prim_intersection(objects[ks].object, r)));
        assert(scl == srec.t);
        assert(srec.t == spec_prim_intersection(objects[ks].object, r));
        assert(brec.t == spec_prim_intersection(w.object, r));
        assert(f64_key(brec.t) == f64_key(srec.t));
        assert(f64_gt(brec.t, t_min));
        lemma_positive_key_unique(brec.t, srec.t, t_min);
    }
}

/// Every node of a built tree records the envelope of its children's boxes.
pub open spec fn boxes_wf(c: BvhChild) -> bool
    decreases child_height(c), 1int,
{
    match c {
        BvhChild::Leaf(_) => true,
        BvhChild::Node(n) => node_boxes_wf(*n),
    }
}

pub open spec fn node_boxes_wf(n: BoundingBoxNode) -> bool
    decreases node_height(n), 0int,
{
    &&& n.bbox == spec_surrounding(spec_child_bounds(n.left), spec_child_bounds(n.right))
    &&& boxes_wf(n.left)
    &&& boxes_wf(n.right)
}

/// A node whose box is its children's envelope contains both children's
/// boxes, whenever those are free of NaN.
pub proof fn lemma_node_box_contains_children(n: BoundingBoxNode)
    requires
        node_boxes_wf(n),
        crate::boundingbox::box_ordered(spec_child_bounds(n.left)),
        crate::boundingbox::box_ordered(spec_child_bounds(n.right)),
    ensures
        crate::boundingbox::box_contains(n.bbox, spec_child_bounds(n.left)),
        crate::boundingbox::box_contains(n.bbox, spec_child_bounds(n.right)),
{
    crate::boundingbox::lemma_surrounding_contains(
        spec_child_bounds(n.left),
        spec_child_bounds(n.right),
    );
}

/// Building the tree gives every node the envelope of its children.
pub proof fn lemma_build_boxes(s: Seq<Object>)
    requires
        s.len() >= 1,
    ensures
        node_boxes_wf(spec_build(s)),
    decreases s.len(),
{
    let axis = spec_longest_axis(spec_list_bounds(s));
    lemma_sort_len(s, axis);
    let sorted = spec_sort(s, axis);
    if s.len() > 2 {
        let half = s.len() as int / 2;
        lemma_build_boxes(sorted.take(half));
        lemma_build_boxes(sorted.skip(half));
    }
}

/// Inserting keeps exactly the old elements plus the new one.
proof fn lemma_insert_contains(s: Seq<Object>, x: Object, axis: u8, o: Object)
    ensures
        spec_insert(s, x, axis).contains(o) <==> (s.contains(o) || o == x),
{
    lemma_insert_pos_le(s, x, axis);
    let pos = insert_pos(s, x, axis) as int;
    s.insert_ensures(pos, x);
    let t = spec_insert(s, x, axis);
    if t.contains(o) {
        let i = choose|i: int| 0 <= i < t.len() && t[i] == o;
        if i < pos {
            assert(s[i] == o);
        } else if i > pos {
            assert(t[(i - 1) + 1] == s[i - 1]);
            assert(s[i - 1] == o);
        }
    }
    if s.contains(o) {
        let i = choose|i: int| 0 <= i < s.len() && s[i] == o;
        if i < pos {
            assert(t[i] == o);
        } else {
            assert(t[i + 1] == o);
        }
    }
    if o == x {
        assert(t[pos] == o);
    }
}

/// Sorting keeps exactly the same elements.
pub proof fn lemma_sort_contains(s: Seq<Object>, axis: u8, o: Object)
    ensures
        spec_sort(s, axis).contains(o) <==> s.contains(o),
    decreases s.len(),
{
    if s.len() > 0 {
        lemma_sort_contains(s.drop_last(), axis, o);
        lemma_insert_contains(spec_sort(s.drop_last(), axis), s.last(), axis, o);
        assert(s.contains(o) <==> (s.drop_last().contains(o) || o == s.last())) by {
            if s.contains(o) {
                let i = choose|i: int| 0 <= i < s.len() && s[i] == o;
                if i < s.len() - 1 {
                    assert(s.drop_last()[i] == o);
                }
            }
            if s.drop_last().contains(o) {
                let i = choose|i: int| 0 <= i < s.drop_last().len() && s.drop_last()[i] == o;
                assert(s[i] == o);
            }
            if o == s.last() {
                assert(s[s.len() - 1] == o);
            }
        }
    }
}

/// A built tree contains exactly the objects it was built over.
pub proof fn lemma_build_contains(s: Seq<Object>, o: Object)
    requires
        s.len() >= 1,
    ensures
        node_contains(spec_build(s), o) <==> s.contains(o),
    decreases s.len(),
{
    let axis = spec_longest_axis(spec_list_bounds(s));
    lemma_sort_len(s, axis);
    lemma_sort_contains(s, axis, o);
    let sorted = spec_sort(s, axis);
    if s.len() == 1 {
        assert(sorted.contains(o) <==> o == sorted[0]) by {
            if sorted.contains(o) {
                let i = choose|i: int| 0 <= i < sorted.len() && sorted[i] == o;
                assert(i == 0);
            }
            if o == sorted[0] {
                assert(sorted[0] == o);
            }
        }
    } else if s.len() == 2 {
        assert(sorted.contains(o) <==> (o == sorted[0] || o == sorted[1])) by {
            if sorted.contains(o) {
                let i = choose|i: int| 0 <= i < sorted.len() && sorted[i] == o;
                assert(i == 0 || i == 1);
            }
            if o == sorted[0] {
                assert(sorted[0] == o);
            }
            if o == sorted[1] {
                assert(sorted[1] == o);
            }
        }
    } else {
        let half = s.len() as int / 2;
        lemma_build_contains(sorted.take(half), o);
        lemma_build_contains(sorted.skip(half), o);
        assert(sorted.contains(o) <==> (sorted.take(half).contains(o) || sorted.skip(
            half,
        ).contains(o))) by {
            if sorted.contains(o) {
                let i = choose|i: int| 0 <= i < sorted.len() && sorted[i] == o;
                if i < half {
                    assert(sorted.take(half)[i] == o);
                } else {
                    assert(sorted.skip(half)[i - half] == o);
                }
            }
            if sorted.take(half).contains(o) {
                let i = choose|i: int| 0 <= i < half && sorted.take(half)[i] == o;
                assert(sorted[i] == o);
            }
            if sorted.skip(half).contains(o) {
                let i = choose|i: int|
                    0 <= i < sorted.len() - half && sorted.skip(half)[i] == o;
                assert(sorted[i + half] == o);
            }
        }
    }
}

/// A tree built over a list answers every ray exactly as a linear scan of
/// the list does, over any window with a non-negative floor: the same rays
/// hit, at the very same nearest distance.
pub proof fn lemma_built_tree_matches_scan(s: Seq<Object>, r: Ray, t_min: u64, t_max: u64)
    requires
        s.len() >= 1,
        f64_key(t_min) >= 0,
    ensures
        spec_node_hit(spec_build(s), r, t_min, t_max).0 == spec_scan(
            s,
            r,
            t_min,
            false,
            t_max,
            spec_empty_record(),
        ).0,
        spec_node_hit(spec_build(s), r, t_min, t_max).0 ==> spec_node_hit(
            spec_build(s),
            r,
            t_min,
            t_max,
        ).1.t == spec_scan(s, r, t_min, false, t_max, spec_empty_record()).2.t,
{
    assert forall|o: Object| #[trigger] node_contains(spec_build(s), o) <==> s.contains(o) by {
        lemma_build_contains(s, o);
    }
    lemma_bvh_matches_scan(spec_build(s), s, r, t_min, t_max);
}

/// A tree built over a list finds every listed object: an object whose
/// distance lies inside the window makes the query hit, at a distance no
/// larger than that object's.
pub proof fn lemma_built_tree_finds(s: Seq<Object>, o: Object, r: Ray, t_min: u64, t_max: u64)
    requires
        s.contains(o),
        spec_hits(o, r, t_min, t_max),
    ensures
        spec_node_hit(spec_build(s), r, t_min, t_max).0,
        f64_key(spec_node_hit(spec_build(s), r, t_min, t_max).1.t) <= f64_key(
            spec_prim_intersection(o.object, r),
        ),
{
    lemma_build_contains(s, o);
    lemma_bvh_reports_nearest(spec_build(s), o, r, t_min, t_max);
}

/// Building a tree over the same primitives yields the same tree, and any
/// ray queried against the two trees over any window yields the same hit.
pub proof fn lemma_build_deterministic(
    t1: BoundingBoxNode,
    t2: BoundingBoxNode,
    prims: Seq<Object>,
    r: Ray,
    t_min: u64,
    t_max: u64,
)
    requires
        t1 == spec_build(prims),
        t2 == spec_build(prims),
    ensures
        t1 == t2,
        spec_node_hit(t1, r, t_min, t_max) == spec_node_hit(t2, r, t_min, t_max),
{
}

/// Whether the first object sorts before the second along the axis: its
/// bounds' minimum corner is smaller there (decided, as the source order
/// is, by the sign of the difference).
pub open spec fn spec_sort_less(a: Object, b: Object, axis: u8) -> bool {
    f64_lt(
        sub_of(
            spec_axis(spec_prim_bounds(a.object).min, axis),
            spec_axis(spec_prim_bounds(b.object).min, axis),
        ),
        ZERO_BITS,
    )
}

/// Orders two objects along the axis for sorting.
pub fn sort_hitables(first: &Object, second: &Object, axis: u8) -> (r: Ordering)
    ensures
        r == (if spec_sort_less(*first, *second, axis) {
            Ordering::Less
        } else {
            Ordering::Greater
        }),
{
    let first_box = first.bounding_box();
    let second_box = second.bounding_box();
    let diff = sub_bits(first_box.min.axis(axis), second_box.min.axis(axis));
    if lt_bits(diff, ZERO_BITS) {
        Ordering::Less
    } else {
        Ordering::Greater
    }
}

/// Where an insertion-sort insert puts `x`: scanning from the right, it
/// passes every element that `x` sorts strictly before.
pub open spec fn insert_pos(s: Seq<Object>, x: Object, axis: u8) -> nat
    decreases s.len(),
{
    if s.len() == 0 {
        0
    } else if spec_sort_less(x, s.last(), axis) {
        insert_pos(s.drop_last(), x, axis)
    } else {
        s.len()
    }
}

pub open spec fn spec_insert(s: Seq<Object>, x: Object, axis: u8) -> Seq<Object> {
    s.insert(insert_pos(s, x, axis) as int, x)
}

/// The list sorted along the axis by stable insertion, front to back.
pub open spec fn spec_sort(s: Seq<Object>, axis: u8) -> Seq<Object>
    decreases s.len(),
{
    if s.len() == 0 {
        Seq::empty()
    } else {
        spec_insert(spec_sort(s.drop_last(), axis), s.last(), axis)
    }
}

pub proof fn lemma_insert_pos_le(s: Seq<Object>, x: Object, axis: u8)
    ensures
        insert_pos(s, x, axis) <= s.len(),
    decreases s.len(),
{
    if s.len() > 0 && spec_sort_less(x, s.last(), axis) {
        lemma_insert_pos_le(s.drop_last(), x, axis);
    }
}

/// Sorting keeps the length.
pub proof fn lemma_sort_len(s: Seq<Object>, axis: u8)
    ensures
        spec_sort(s, axis).len() == s.len(),
    decreases s.len(),
{
    if s.len() > 0 {
        lemma_sort_len(s.drop_last(), axis);
        lemma_insert_pos_le(spec_sort(s.drop_last(), axis), s.last(), axis);
    }
}

/// Inserts `x` into the sorted vector at its insertion position.
fn insert_sorted(out: &mut Vec<Object>, x: Object, axis: u8)
    ensures
        final(out)@ == spec_insert(old(out)@, x, axis),
{
    let mut j: usize = out.len();
    proof {
        assert(old(out)@.take(out@.len() as int) =~= old(out)@);
    }
    while j > 0 && matches!(sort_hitables(&x, &out[j - 1], axis), Ordering::Less)
        invariant
            0 <= j <= out@.len(),
            out@ == old(out)@,
            insert_pos(old(out)@, x, axis) == insert_pos(old(out)@.take(j as int), x, axis),
        decreases j,
    {
        j = j - 1;
        proof {
            assert(old(out)@.take(j as int + 1).last() == old(out)@[j as int]);
            assert(old(out)@.take(j as int + 1).drop_last() =~= old(out)@.take(j as int));
        }
    }
    proof {
        if j > 0 {
            assert(old(out)@.take(j as int).last() == old(out)@[j as int - 1]);
        }
        lemma_insert_pos_le(old(out)@.take(j as int), x, axis);
        assert(insert_pos(old(out)@, x, axis) == j);
    }
    out.insert(j, x);
}

/// Sorts the objects along the axis by stable insertion.
fn sort_objects(v: &Vec<Object>, axis: u8) -> (out: Vec<Object>)
    ensures
        out@ == spec_sort(v@, axis),
{
    let mut out: Vec<Object> = Vec::new();
    let mut k: usize = 0;
    while k < v.len()
        invariant
            0 <= k <= v@.len(),
            out@ == spec_sort(v@.take(k as int), axis),
        decreases v@.len() - k,
    {
        insert_sorted(&mut out, v[k], axis);
        k = k + 1;
        proof {
            assert(v@.take(k as int).drop_last() =~= v@.take(k as int - 1));
            assert(v@.take(k as int).last() == v@[k as int - 1]);
        }
    }
    proof {
        assert(v@.take(v@.len() as int) =~= v@);
    }
    out
}

/// The axis along which the box is widest: x unless y or z is strictly
/// wider, preferring the earlier axis on ties.
pub open spec fn spec_longest_axis(b: BoundingBox) -> u8 {
    let ex = sub_of(b.max.x, b.min.x);
    let ey = sub_of(b.max.y, b.min.y);
    let ez = sub_of(b.max.z, b.min.z);
    if !f64_lt(ex, ey) && !f64_lt(ex, ez) {
        0
    } else if !f64_lt(ey, ez) {
        1
    } else {
        2
    }
}

fn longest_axis(b: &BoundingBox) -> (r: u8)
    ensures
        r == spec_longest_axis(*b),
{
    let ex = sub_bits(b.max.x, b.min.x);
    let ey = sub_bits(b.max.y, b.min.y);
    let ez = sub_bits(b.max.z, b.min.z);
    if !lt_bits(ex, ey) && !lt_bits(ex, ez) {
        0
    } else if !lt_bits(ey, ez) {
        1
    } else {
        2
    }
}

/// The tree built over the objects: they are sorted along the longest axis
/// of their enclosing box; one object becomes both children, two become the
/// two children, and more are split at the middle and built recursively.
pub open spec fn spec_build(s: Seq<Object>) -> BoundingBoxNode
    recommends
        s.len() >= 1,
    decreases s.len(),
    when s.len() >= 1
    via spec_build_decreases
{
    let axis = spec_longest_axis(spec_list_bounds(s));
    let sorted = spec_sort(s, axis);
    if s.len() == 1 {
        let child = BvhChild::Leaf(sorted[0]);
        BoundingBoxNode {
            left: BvhChild::Leaf(sorted[0]),
            right: BvhChild::Leaf(sorted[0]),
            bbox: spec_surrounding(spec_child_bounds(child), spec_child_bounds(child)),
        }
    } else if s.len() == 2 {
        BoundingBoxNode {
            left: BvhChild::Leaf(sorted[0]),
            right: BvhChild::Leaf(sorted[1]),
            bbox: spec_surrounding(
                spec_child_bounds(BvhChild::Leaf(sorted[0])),
                spec_child_bounds(BvhChild::Leaf(sorted[1])),
            ),
        }
    } else {
        let half = s.len() as int / 2;
        let left = BvhChild::Node(Box::new(spec_build(sorted.take(half))));
        let right = BvhChild::Node(Box::new(spec_build(sorted.skip(half))));
        BoundingBoxNode {
            bbox: spec_surrounding(spec_child_bounds(left), spec_child_bounds(right)),
            left,
            right,
        }
    }
}

#[via_fn]
proof fn spec_build_decreases(s: Seq<Object>) {
    let axis = spec_longest_axis(spec_list_bounds(s));
    lemma_sort_len(s, axis);
}

impl BvhChild {
    /// Queries the child: on a hit the record is written, otherwise it is
    /// left alone.
    pub fn hit(&self, r: &Ray, t_min: Float, t_max: Float, rec: &mut HitRecord) -> (h: bool)
        ensures
            h == spec_child_hit(*self, *r, t_min, t_max).0,
            h ==> *final(rec) == spec_child_hit(*self, *r, t_min, t_max).1,
            !h ==> *final(rec) == *old(rec),
        decreases child_height(*self), 1int,
    {
        match self {
            BvhChild::Leaf(o) => o.hit(r, t_min, t_max, rec),
            BvhChild::Node(n) => n.hit(r, t_min, t_max, rec),
        }
    }

    /// The box the child covers.
    pub fn bounding_box(&self) -> (b: BoundingBox)
        ensures
            b == spec_child_bounds(*self),
        decreases child_height(*self), 1int,
    {
        match self {
            BvhChild::Leaf(o) => o.bounding_box(),
            BvhChild::Node(n) => n.bounding_box(),
        }
    }
}

impl BoundingBoxNode {
    /// Queries the node: both children are searched over the whole window
    /// and the nearer hit wins; on a miss the record is left alone.
    pub fn hit(&self, r: &Ray, t_min: Float, t_max: Float, rec: &mut HitRecord) -> (h: bool)
        ensures
            h == spec_node_hit(*self, *r, t_min, t_max).0,
            h ==> *final(rec) == spec_node_hit(*self, *r, t_min, t_max).1,
            !h ==> *final(rec) == *old(rec),
        decreases node_height(*self), 0int,
    {
        let mut left_rec = HitRecord::new();
        let mut right_rec = HitRecord::new();
        let left_hitted = self.left.hit(r, t_min, t_max, &mut left_rec);
        let right_hitted = self.right.hit(r, t_min, t_max, &mut right_rec);
        if left_hitted && right_hitted {
            if lt_bits(left_rec.t, right_rec.t) {
                *rec = left_rec.copy();
            } else {
                *rec = right_rec.copy();
            }
            true
        } else if left_hitted {
            *rec = left_rec.copy();
            true
        } else if right_hitted {
            *rec = right_rec.copy();
            true
        } else {
            false
        }
    }

    /// The box the node covers, recomputed from its children.
    pub fn bounding_box(&self) -> (b: BoundingBox)
        ensures
            b == spec_surrounding(spec_child_bounds(self.left), spec_child_bounds(self.right)),
        decreases node_height(*self), 0int,
    {
        BoundingBox::surrounding_box(&self.left.bounding_box(), &self.right.bounding_box())
    }

    /// Builds the tree over the objects.
    pub fn new(hitables: &Vec<Object>) -> (r: BoundingBoxNode)
        requires
            hitables@.len() >= 1,
        ensures
            r == spec_build(hitables@),
        decreases hitables@.len(),
    {
        let bounds = list_bounds(hitables);
        let axis = longest_axis(&bounds);
        let sorted = sort_objects(hitables, axis);
        proof {
            lemma_sort_len(hitables@, axis);
        }
        let count = sorted.len();
        if count == 1 {
            let child = BvhChild::Leaf(sorted[0]);
            let bbox = BoundingBox::surrounding_box(&child.bounding_box(), &child.bounding_box());
            BoundingBoxNode { left: BvhChild::Leaf(sorted[0]), right: BvhChild::Leaf(sorted[0]), bbox }
        } else if count == 2 {
            let left = BvhChild::Leaf(sorted[0]);
            let right = BvhChild::Leaf(sorted[1]);
            let bbox = BoundingBox::surrounding_box(&left.bounding_box(), &right.bounding_box());
            BoundingBoxNode { left: BvhChild::Leaf(sorted[0]), right: BvhChild::Leaf(sorted[1]), bbox }
        } else {
            let half = count / 2;
            let mut left_objs: Vec<Object> = Vec::new();
            let mut i: usize = 0;
            while i < half
                invariant
                    0 <= i <= half,
                    half < sorted@.len(),
                    left_objs@ == sorted@.take(i as int),
                decreases half - i,
            {
                left_objs.push(sorted[i]);
                i = i + 1;
                proof {
                    assert(sorted@.take(i as int) =~= sorted@.take(i as int - 1).push(
                        sorted@[i as int - 1],
                    ));
                }
            }
            let mut right_objs: Vec<Object> = Vec::new();
            let mut k: usize = half;
            proof {
                assert(sorted@.skip(half as int).take(0) =~= Seq::<Object>::empty());
            }
            while k < count
                invariant
                    half <= k <= sorted@.len(),
                    count == sorted@.len(),
                    right_objs@ == sorted@.skip(half as int).take(k - half),
                decreases count - k,
            {
                right_objs.push(sorted[k]);
                k = k + 1;
                proof {
                    assert(sorted@.skip(half as int).take(k - half) =~= sorted@.skip(
                        half as int,
                    ).take(k - half - 1).push(sorted@[k as int - 1]));
                }
            }
            proof {
                assert(left_objs@ =~= spec_sort(hitables@, axis).take(half as int));
                assert(right_objs@ =~= spec_sort(hitables@, axis).skip(half as int));
            }
            let left_node = BoundingBoxNode::new(&left_objs);
            let right_node = BoundingBoxNode::new(&right_objs);
            let left = BvhChild::Node(Box::new(left_node));
            let right = BvhChild::Node(Box::new(right_node));
            let bbox = BoundingBox::surrounding_box(&left.bounding_box(), &right.bounding_box());
            BoundingBoxNode { bbox, left, right }
        }
    }
}

} // verus!
