//! Surfaces that rays can hit: the sphere primitive, the record a hit
//! fills in, and the primitive-with-material pairing.
use crate::boundingbox::BoundingBox;
use crate::fbits::{
    asin_of, atan2_of, div_of, f64_gt, f64_key, f64_lt, gt_bits, lt_bits, Float, FOUR_BITS,
    NEG_ONE_BITS, ONE_BITS, PI_BITS, TWO_BITS, ZERO_BITS,
};
use crate::fbits::{
    add_bits, add_of, asin_bits, atan2_bits, div_bits, mul_bits, mul_of, sqrt_bits, sqrt_of,
    sub_bits, sub_of,
};
use crate::material::BaseMaterial;
use crate::ray::{spec_point_at, Ray};
use crate::vectors::{spec_div_scalar, spec_minus, spec_normalize, spec_plus, spec_vec3, Vec3};
use vstd::prelude::*;

verus! {

/// What a successful intersection reports: the distance, the point, the
/// outward normal, the surface coordinates, and the material hit.
#[derive(Clone, Copy)]
pub struct HitRecord {
    pub t: Float,
    pub p: Option<Vec3>,
    pub normal: Option<Vec3>,
    pub material: Option<BaseMaterial>,
    pub u: Float,
    pub v: Float,
}

impl HitRecord {
    pub fn new() -> (r: HitRecord)
        ensures
            r == spec_empty_record(),
    {
        HitRecord { p: None, normal: None, material: None, t: ZERO_BITS, u: ZERO_BITS, v: ZERO_BITS }
    }

    /// An explicit copy.
    pub fn copy(&self) -> (r: HitRecord)
        ensures
            r == *self,
    {
        *self
    }
}

pub open spec fn spec_empty_record() -> HitRecord {
    HitRecord { p: None, normal: None, material: None, t: ZERO_BITS, u: ZERO_BITS, v: ZERO_BITS }
}

#[derive(Clone, Copy, PartialEq, Eq, Structural)]
pub struct Sphere {
    pub radius: Float,
    pub center: Vec3,
}

/// A geometric surface: the one concrete kind is the sphere.
#[derive(Clone, Copy, PartialEq, Eq, Structural)]
pub enum Primitive {
    Ball(Sphere),
}

/// A primitive bound to its material.
#[derive(Clone, Copy, PartialEq, Eq, Structural)]
pub struct Object {
    pub object: Primitive,
    pub material: BaseMaterial,
}

/// The linear coefficient of the sphere's intersection quadratic.
pub open spec fn spec_sphere_b(s: Sphere, r: Ray) -> u64 {
    add_of(
        add_of(
            mul_of(mul_of(TWO_BITS, sub_of(r.origin.x, s.center.x)), r.direction.x),
            mul_of(mul_of(TWO_BITS, sub_of(r.origin.y, s.center.y)), r.direction.y),
        ),
        mul_of(mul_of(TWO_BITS, sub_of(r.origin.z, s.center.z)), r.direction.z),
    )
}

/// The constant coefficient of the sphere's intersection quadratic.
pub open spec fn spec_sphere_c(s: Sphere, r: Ray) -> u64 {
    sub_of(
        add_of(
            add_of(
                mul_of(sub_of(r.origin.x, s.center.x), sub_of(r.origin.x, s.center.x)),
                mul_of(sub_of(r.origin.y, s.center.y), sub_of(r.origin.y, s.center.y)),
            ),
            mul_of(sub_of(r.origin.z, s.center.z), sub_of(r.origin.z, s.center.z)),
        ),
        mul_of(s.radius, s.radius),
    )
}

/// The discriminant of the sphere's intersection quadratic.
pub open spec fn spec_discriminant(s: Sphere, r: Ray) -> u64 {
    sub_of(
        mul_of(spec_sphere_b(s, r), spec_sphere_b(s, r)),
        mul_of(mul_of(FOUR_BITS, ONE_BITS), spec_sphere_c(s, r)),
    )
}

/// The nearer root of the quadratic: where the ray enters the sphere.
pub open spec fn spec_entry_root(s: Sphere, r: Ray) -> u64 {
    div_of(
        sub_of(mul_of(NEG_ONE_BITS, spec_sphere_b(s, r)), sqrt_of(spec_discriminant(s, r))),
        mul_of(TWO_BITS, ONE_BITS),
    )
}

/// The farther root of the quadratic: where the ray leaves the sphere.
pub open spec fn spec_exit_root(s: Sphere, r: Ray) -> u64 {
    div_of(
        add_of(mul_of(NEG_ONE_BITS, spec_sphere_b(s, r)), sqrt_of(spec_discriminant(s, r))),
        mul_of(TWO_BITS, ONE_BITS),
    )
}

/// The distance at which the ray meets the sphere: the entry root when it
/// is positive, the exit root when not, and -1 when the discriminant is not
/// positive (a miss, and in particular a graze).
pub open spec fn spec_sphere_intersection(s: Sphere, r: Ray) -> u64 {
    if f64_gt(spec_discriminant(s, r), ZERO_BITS) {
        if f64_gt(spec_entry_root(s, r), ZERO_BITS) {
            spec_entry_root(s, r)
        } else {
            spec_exit_root(s, r)
        }
    } else {
        NEG_ONE_BITS
    }
}

/// A ray that grazes the sphere tangentially, with a discriminant of
/// exactly zero, reports a miss.
pub proof fn lemma_graze_is_miss(s: Sphere, r: Ray)
    requires
        crate::fbits::f64_eq(spec_discriminant(s, r), ZERO_BITS),
    ensures
        spec_sphere_intersection(s, r) == NEG_ONE_BITS,
{
}

/// A ray starting inside the sphere, where the entry root is at or behind
/// the origin, is reported at the exit root.
pub proof fn lemma_inside_sphere_exits(s: Sphere, r: Ray)
    requires
        f64_gt(spec_discriminant(s, r), ZERO_BITS),
        crate::fbits::f64_le(spec_entry_root(s, r), ZERO_BITS),
    ensures
        spec_sphere_intersection(s, r) == spec_exit_root(s, r),
{
}

/// The outward normal at a surface point: the offset from the centre,
/// rescaled to unit length.
pub open spec fn spec_sphere_normal(s: Sphere, point: Vec3) -> Vec3 {
    spec_normalize(spec_minus(point, s.center))
}

/// The spherical surface coordinates of a point.
pub open spec fn spec_sphere_uv(s: Sphere, point: Vec3) -> (u64, u64) {
    let p = spec_div_scalar(spec_minus(point, s.center), s.radius);
    let phi = atan2_of(p.z, p.x);
    let theta = asin_of(p.y);
    (
        sub_of(ONE_BITS, div_of(add_of(phi, PI_BITS), mul_of(TWO_BITS, PI_BITS))),
        div_of(add_of(theta, div_of(PI_BITS, TWO_BITS)), PI_BITS),
    )
}

/// The box the sphere fits in: centre plus and minus the radius.
pub open spec fn spec_sphere_bounds(s: Sphere) -> BoundingBox {
    BoundingBox {
        min: spec_minus(s.center, spec_vec3(s.radius, s.radius, s.radius)),
        max: spec_plus(s.center, spec_vec3(s.radius, s.radius, s.radius)),
    }
}

pub open spec fn spec_prim_intersection(p: Primitive, r: Ray) -> u64 {
    match p {
        Primitive::Ball(s) => spec_sphere_intersection(s, r),
    }
}

pub open spec fn spec_prim_normal(p: Primitive, point: Vec3) -> Vec3 {
    match p {
        Primitive::Ball(s) => spec_sphere_normal(s, point),
    }
}

pub open spec fn spec_prim_uv(p: Primitive, point: Vec3) -> (u64, u64) {
    match p {
        Primitive::Ball(s) => spec_sphere_uv(s, point),
    }
}

pub open spec fn spec_prim_bounds(p: Primitive) -> BoundingBox {
    match p {
        Primitive::Ball(s) => spec_sphere_bounds(s),
    }
}

/// Whether the object's intersection distance lies strictly inside the
/// search window.
pub open spec fn spec_hits(obj: Object, r: Ray, t_min: u64, t_max: u64) -> bool {
    let d = spec_prim_intersection(obj.object, r);
    f64_gt(d, t_min) && f64_lt(d, t_max)
}

/// The record a successful hit writes: every field is filled in.
pub open spec fn spec_hit_record(obj: Object, r: Ray) -> HitRecord {
    let d = spec_prim_intersection(obj.object, r);
    let point = spec_point_at(r, d);
    HitRecord {
        t: d,
        p: Some(point),
        normal: Some(spec_prim_normal(obj.object, point)),
        material: Some(obj.material),
        u: spec_prim_uv(obj.object, point).0,
        v: spec_prim_uv(obj.object, point).1,
    }
}

/// What scanning a list does to the running state (hit seen, closest
/// distance, best record): each object that hits inside the shrinking
/// window replaces the state.
pub open spec fn spec_scan(
    objects: Seq<Object>,
    r: Ray,
    t_min: u64,
    hitted: bool,
    closest: u64,
    rec: HitRecord,
) -> (bool, u64, HitRecord)
    decreases objects.len(),
{
    if objects.len() == 0 {
        (hitted, closest, rec)
    } else {
        let o = objects[0];
        if spec_hits(o, r, t_min, closest) {
            spec_scan(
                objects.drop_first(),
                r,
                t_min,
                true,
                spec_hit_record(o, r).t,
                spec_hit_record(o, r),
            )
        } else {
            spec_scan(objects.drop_first(), r, t_min, hitted, closest, rec)
        }
    }
}

/// The scan is sound and finds the nearest object: starting from a
/// consistent state it reports a hit exactly when the state already was a
/// hit or some object's distance lies inside the starting window; the
/// record achieves the reported distance and comes from such an object
/// unless the starting record survives; and the reported distance is no
/// larger than any object's distance inside the window.
pub proof fn lemma_scan_correct(
    objects: Seq<Object>,
    r: Ray,
    t_min: u64,
    hitted: bool,
    closest: u64,
    rec: HitRecord,
)
    requires
        hitted ==> rec.t == closest,
    ensures
        ({
            let (h, cl, out) = spec_scan(objects, r, t_min, hitted, closest, rec);
            &&& h == (hitted || exists|k: int|
                0 <= k < objects.len() && spec_hits(#[trigger] objects[k], r, t_min, closest))
            &&& (!h ==> cl == closest && out == rec)
            &&& (h ==> cl == out.t)
            &&& (h ==> (hitted && out == rec) || exists|k: int|
                0 <= k < objects.len() && spec_hits(#[trigger] objects[k], r, t_min, closest)
                    && out == spec_hit_record(objects[k], r))
            &&& (cl == closest || (f64_key(cl) < f64_key(closest) && !crate::fbits::f64_is_nan(
                cl,
            )))
            &&& forall|k: int|
                0 <= k < objects.len() && spec_hits(#[trigger] objects[k], r, t_min, closest)
                    ==> h && f64_key(cl) <= f64_key(spec_prim_intersection(objects[k].object, r))
        }),
    decreases objects.len(),
{
    if objects.len() > 0 {
        let o = objects[0];
        let rest = objects.drop_first();
        assert(forall|k: int| 0 <= k < rest.len() ==> #[trigger] rest[k] == objects[k + 1]);
        if spec_hits(o, r, t_min, closest) {
            let rec1 = spec_hit_record(o, r);
            let d0 = spec_prim_intersection(o.object, r);
            assert(rec1.t == d0);
            lemma_scan_correct(rest, r, t_min, true, d0, rec1);
            let (h, cl, out) = spec_scan(rest, r, t_min, true, d0, rec1);
            assert(spec_scan(objects, r, t_min, hitted, closest, rec) == (h, cl, out));
            assert(h);
            if out == rec1 {
                assert(spec_hits(objects[0], r, t_min, closest) && out == spec_hit_record(
                    objects[0],
                    r,
                ));
            } else {
                let k = choose|k: int|
                    0 <= k < rest.len() && spec_hits(#[trigger] rest[k], r, t_min, d0) && out
                        == spec_hit_record(rest[k], r);
                assert(spec_hits(objects[k + 1], r, t_min, closest) && out == spec_hit_record(
                    objects[k + 1],
                    r,
                ));
            }
            assert forall|k: int|
                0 <= k < objects.len() && spec_hits(#[trigger] objects[k], r, t_min, closest)
                    implies h && f64_key(cl) <= f64_key(
                spec_prim_intersection(objects[k].object, r),
            ) by {
                if k > 0 {
                    assert(objects[k] == rest[k - 1]);
                    if spec_hits(rest[k - 1], r, t_min, d0) {
                    } else {
                        assert(f64_key(spec_prim_intersection(objects[k].object, r)) >= f64_key(
                            d0,
                        ));
                    }
                }
            }
        } else {
            lemma_scan_correct(rest, r, t_min, hitted, closest, rec);
            let (h, cl, out) = spec_scan(rest, r, t_min, hitted, closest, rec);
            assert(spec_scan(objects, r, t_min, hitted, closest, rec) == (h, cl, out));
            if h {
                if !(hitted && out == rec) {
                    let k = choose|k: int|
                        0 <= k < rest.len() && spec_hits(#[trigger] rest[k], r, t_min, closest)
                            && out == spec_hit_record(rest[k], r);
                    assert(spec_hits(objects[k + 1], r, t_min, closest) && out == spec_hit_record(
                        objects[k + 1],
                        r,
                    ));
                }
                if !hitted {
                    let k = choose|k: int|
                        0 <= k < rest.len() && spec_hits(#[trigger] rest[k], r, t_min, closest);
                    assert(spec_hits(objects[k + 1], r, t_min, closest));
                }
            }
            assert forall|k: int|
                0 <= k < objects.len() && spec_hits(#[trigger] objects[k], r, t_min, closest)
                    implies h && f64_key(cl) <= f64_key(
                spec_prim_intersection(objects[k].object, r),
            ) by {
                assert(k > 0);
                assert(objects[k] == rest[k - 1]);
            }
        }
    }
}

/// The envelope of every object's bounds, folded left to right.
pub open spec fn spec_list_bounds(objects: Seq<Object>) -> BoundingBox
    decreases objects.len(),
{
    if objects.len() <= 1 {
        spec_prim_bounds(objects[0].object)
    } else {
        crate::boundingbox::spec_surrounding(
            spec_list_bounds(objects.drop_last()),
            spec_prim_bounds(objects.last().object),
        )
    }
}

/// The nearest hit over a plain list: every object is intersected and the
/// smallest distance inside the window wins; the record is only written when
/// something hits.
pub fn hit_list(
    objects: &Vec<Object>,
    r: &Ray,
    t_min: Float,
    t_max: Float,
    rec: &mut HitRecord,
) -> (h: bool)
    ensures
        ({
            let (sh, scl, srec) = spec_scan(
                objects@,
                *r,
                t_min,
                false,
                t_max,
                spec_empty_record(),
            );
            h == sh && (h ==> *final(rec) == srec) && (!h ==> *final(rec) == *old(rec))
        }),
{
    let mut temp_record = HitRecord::new();
    let mut hitted: bool = false;
    let mut closest: Float = t_max;
    let mut i: usize = 0;
    proof {
        assert(objects@.skip(0) =~= objects@);
    }
    while i < objects.len()
        invariant
            0 <= i <= objects@.len(),
            spec_scan(objects@, *r, t_min, false, t_max, spec_empty_record()) == spec_scan(
                objects@.skip(i as int),
                *r,
                t_min,
                hitted,
                closest,
                temp_record,
            ),
        decreases objects@.len() - i,
    {
        proof {
            assert(objects@.skip(i as int)[0] == objects@[i as int]);
            assert(objects@.skip(i as int).drop_first() =~= objects@.skip(i as int + 1)) by {
                assert(objects@.skip(i as int).len() == objects@.len() - i);
                assert forall|j: int|
                    0 <= j < objects@.len() - i - 1 implies objects@.skip(i as int).drop_first()[j]
                    == objects@.skip(i as int + 1)[j] by {
                    assert(objects@.skip(i as int).drop_first()[j] == objects@.skip(i as int)[j + 1]);
                    assert(objects@.skip(i as int)[j + 1] == objects@[i + j + 1]);
                    assert(objects@.skip(i as int + 1)[j] == objects@[i + j + 1]);
                }
            }
        }
        if objects[i].hit(r, t_min, closest, &mut temp_record) {
            hitted = true;
            closest = temp_record.t;
        }
        i = i + 1;
    }
    proof {
        assert(objects@.skip(objects@.len() as int) =~= Seq::<Object>::empty());
    }
    if hitted {
        *rec = temp_record.copy();
    }
    hitted
}

/// The envelope of every object's bounds.
pub fn list_bounds(objects: &Vec<Object>) -> (b: BoundingBox)
    requires
        objects@.len() >= 1,
    ensures
        b == spec_list_bounds(objects@),
{
    let first = objects[0];
    let mut b_box = first.bounding_box();
    let mut i: usize = 1;
    while i < objects.len()
        invariant
            1 <= i <= objects@.len(),
            objects@.len() >= 1,
            b_box == spec_list_bounds(objects@.take(i as int)),
        decreases objects@.len() - i,
    {
        b_box = BoundingBox::surrounding_box(&b_box, &objects[i].bounding_box());
        i = i + 1;
        proof {
            assert(objects@.take(i as int).drop_last() =~= objects@.take(i as int - 1));
            assert(objects@.take(i as int).last() == objects@[i as int - 1]);
        }
    }
    proof {
        assert(objects@.take(objects@.len() as int) =~= objects@);
    }
    b_box
}

impl Sphere {
    /// A sphere bound to a material, as an object.
    pub fn new(mat: BaseMaterial, radius: Float, center: Vec3) -> (r: Object)
        ensures
            r == (Object { object: Primitive::Ball(Sphere { radius, center }), material: mat }),
    {
        Object { object: Primitive::Ball(Sphere { radius, center }), material: mat }
    }

    pub fn radius(&self) -> (r: Float)
        ensures
            r == self.radius,
    {
        self.radius
    }

    pub fn center(&self) -> (r: Vec3)
        ensures
            r == self.center,
    {
        self.center
    }

    fn find_intersection(&self, r: &Ray) -> (d: Float)
        ensures
            d == spec_sphere_intersection(*self, *r),
    {
        let bx = mul_bits(mul_bits(TWO_BITS, sub_bits(r.origin.x, self.center.x)), r.direction.x);
        let by = mul_bits(mul_bits(TWO_BITS, sub_bits(r.origin.y, self.center.y)), r.direction.y);
        let bz = mul_bits(mul_bits(TWO_BITS, sub_bits(r.origin.z, self.center.z)), r.direction.z);
        let b = add_bits(add_bits(bx, by), bz);
        let cx = mul_bits(sub_bits(r.origin.x, self.center.x), sub_bits(r.origin.x, self.center.x));
        let cy = mul_bits(sub_bits(r.origin.y, self.center.y), sub_bits(r.origin.y, self.center.y));
        let cz = mul_bits(sub_bits(r.origin.z, self.center.z), sub_bits(r.origin.z, self.center.z));
        let c = sub_bits(add_bits(add_bits(cx, cy), cz), mul_bits(self.radius, self.radius));
        let discriminant = sub_bits(mul_bits(b, b), mul_bits(mul_bits(FOUR_BITS, ONE_BITS), c));
        if gt_bits(discriminant, ZERO_BITS) {
            let root_1 = div_bits(
                sub_bits(mul_bits(NEG_ONE_BITS, b), sqrt_bits(discriminant)),
                mul_bits(TWO_BITS, ONE_BITS),
            );
            if gt_bits(root_1, ZERO_BITS) {
                return root_1;
            }
            return div_bits(
                add_bits(mul_bits(NEG_ONE_BITS, b), sqrt_bits(discriminant)),
                mul_bits(TWO_BITS, ONE_BITS),
            );
        }
        NEG_ONE_BITS
    }

    fn get_normal_at(&self, point: &Vec3) -> (n: Vec3)
        ensures
            n == spec_sphere_normal(*self, *point),
    {
        point.minus(&self.center).normalize()
    }

    fn get_uv(&self, point: &Vec3) -> (uv: (Float, Float))
        ensures
            uv == spec_sphere_uv(*self, *point),
    {
        let p = point.minus(&self.center).div_scalar(self.radius);
        let phi = atan2_bits(p.get_z(), p.get_x());
        let theta = asin_bits(p.get_y());
        let u = sub_bits(ONE_BITS, div_bits(add_bits(phi, PI_BITS), mul_bits(TWO_BITS, PI_BITS)));
        let v = div_bits(add_bits(theta, div_bits(PI_BITS, TWO_BITS)), PI_BITS);
        (u, v)
    }

    fn get_bounding_box(&self) -> (b: BoundingBox)
        ensures
            b == spec_sphere_bounds(*self),
    {
        let rrr = Vec3::new(self.radius, self.radius, self.radius);
        let min = self.center.minus(&rrr);
        let max = self.center.plus(&rrr);
        BoundingBox::new(min, max)
    }
}

impl Primitive {
    /// The distance at which the ray meets the surface, or -1 for a miss.
    pub fn find_intersection(&self, r: &Ray) -> (d: Float)
        ensures
            d == spec_prim_intersection(*self, *r),
    {
        match self {
            Primitive::Ball(s) => s.find_intersection(r),
        }
    }

    /// The outward normal at a surface point.
    pub fn get_normal_at(&self, point: &Vec3) -> (n: Vec3)
        ensures
            n == spec_prim_normal(*self, *point),
    {
        match self {
            Primitive::Ball(s) => s.get_normal_at(point),
        }
    }

    /// The surface coordinates of a point.
    pub fn get_uv(&self, point: &Vec3) -> (uv: (Float, Float))
        ensures
            uv == spec_prim_uv(*self, *point),
    {
        match self {
            Primitive::Ball(s) => s.get_uv(point),
        }
    }

    /// The axis-aligned box the surface fits in.
    pub fn get_bounding_box(&self) -> (b: BoundingBox)
        ensures
            b == spec_prim_bounds(*self),
    {
        match self {
            Primitive::Ball(s) => s.get_bounding_box(),
        }
    }
}

impl Object {
    /// Intersects the ray against the object over the window
    /// `t_min..t_max`: on a hit inside the window the record is filled in
    /// and the call reports true; otherwise the record is left alone.
    pub fn hit(&self, r: &Ray, t_min: Float, t_max: Float, rec: &mut HitRecord) -> (h: bool)
        ensures
            h == spec_hits(*self, *r, t_min, t_max),
            h ==> *final(rec) == spec_hit_record(*self, *r),
            !h ==> *final(rec) == *old(rec),
    {
        let distance = self.object.find_intersection(r);
        if gt_bits(distance, t_min) && lt_bits(distance, t_max) {
            rec.t = distance;
            let point = r.point_at_length(distance);
            rec.normal = Some(self.object.get_normal_at(&point));
            let uv = self.object.get_uv(&point);
            rec.u = uv.0;
            rec.v = uv.1;
            rec.material = Some(self.material);
            rec.p = Some(point);
            return true;
        }
        false
    }

    /// The box the object fits in.
    pub fn bounding_box(&self) -> (b: BoundingBox)
        ensures
            b == spec_prim_bounds(self.object),
    {
        self.object.get_bounding_box()
    }
}

} // verus!
