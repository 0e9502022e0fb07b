//! Axis-aligned bounding boxes.
use crate::fbits::{f64_is_nan, f64_key, ZERO_BITS};
use crate::mathutils::{max, min, spec_max, spec_min};
use crate::vectors::{spec_vec3, Vec3};
use vstd::prelude::*;

verus! {

#[derive(Clone, Copy, PartialEq, Eq, Structural)]
pub struct BoundingBox {
    pub min: Vec3,
    pub max: Vec3,
}

/// The componentwise envelope of two boxes: the smaller minimum and the
/// larger maximum along each axis.
pub open spec fn spec_surrounding(b1: BoundingBox, b2: BoundingBox) -> BoundingBox {
    BoundingBox {
        min: Vec3 {
            x: spec_min(b1.min.x, b2.min.x),
            y: spec_min(b1.min.y, b2.min.y),
            z: spec_min(b1.min.z, b2.min.z),
        },
        max: Vec3 {
            x: spec_max(b1.max.x, b2.max.x),
            y: spec_max(b1.max.y, b2.max.y),
            z: spec_max(b1.max.z, b2.max.z),
        },
    }
}

/// No component of the box is NaN.
pub open spec fn box_ordered(b: BoundingBox) -> bool {
    &&& !f64_is_nan(b.min.x)
    &&& !f64_is_nan(b.min.y)
    &&& !f64_is_nan(b.min.z)
    &&& !f64_is_nan(b.max.x)
    &&& !f64_is_nan(b.max.y)
    &&& !f64_is_nan(b.max.z)
}

/// `outer` contains `inner`: along each axis the outer minimum is no larger
/// and the outer maximum no smaller, under the IEEE value order.
pub open spec fn box_contains(outer: BoundingBox, inner: BoundingBox) -> bool {
    &&& f64_key(outer.min.x) <= f64_key(inner.min.x)
    &&& f64_key(outer.min.y) <= f64_key(inner.min.y)
    &&& f64_key(outer.min.z) <= f64_key(inner.min.z)
    &&& f64_key(outer.max.x) >= f64_key(inner.max.x)
    &&& f64_key(outer.max.y) >= f64_key(inner.max.y)
    &&& f64_key(outer.max.z) >= f64_key(inner.max.z)
}

/// The envelope of two NaN-free boxes contains both: each envelope minimum
/// is the smaller key, each envelope maximum the larger.
pub proof fn lemma_surrounding_contains(b1: BoundingBox, b2: BoundingBox)
    requires
        box_ordered(b1),
        box_ordered(b2),
    ensures
        box_contains(spec_surrounding(b1, b2), b1),
        box_contains(spec_surrounding(b1, b2), b2),
{
}

impl BoundingBox {
    pub fn zero() -> (r: BoundingBox)
        ensures
            r == (BoundingBox {
                min: spec_vec3(ZERO_BITS, ZERO_BITS, ZERO_BITS),
                max: spec_vec3(ZERO_BITS, ZERO_BITS, ZERO_BITS),
            }),
    {
        BoundingBox { min: Vec3::zero(), max: Vec3::zero() }
    }

    pub fn new(min: Vec3, max: Vec3) -> (r: BoundingBox)
        ensures
            r == (BoundingBox { min, max }),
    {
        BoundingBox { min, max }
    }

    pub fn surrounding_box(b1: &BoundingBox, b2: &BoundingBox) -> (r: BoundingBox)
        ensures
            r == spec_surrounding(*b1, *b2),
    {
        let small = Vec3 {
            x: min(b1.min.x, b2.min.x),
            y: min(b1.min.y, b2.min.y),
            z: min(b1.min.z, b2.min.z),
        };
        let big = Vec3 {
            x: max(b1.max.x, b2.max.x),
            y: max(b1.max.y, b2.max.y),
            z: max(b1.max.z, b2.max.z),
        };
        BoundingBox::new(small, big)
    }
}

} // verus!
