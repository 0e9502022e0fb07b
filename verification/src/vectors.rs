//! Three-component vectors of encoded doubles: linear operations, rotations,
//! and the two random samplers used by the renderer.
use crate::fbits::{
    acos_bits, acos_of, add_bits, add_of, cos_bits, cos_of, div_bits, div_of, f64_le, f64_neg,
    le_bits, mul_bits, mul_of, neg_bits, sin_bits, sin_of, sqrt_bits, sqrt_of, sub_bits, sub_of,
    Float, ONE_BITS, PI_BITS, TWO_BITS, ZERO_BITS,
};
use crate::mathutils::spec_map;
use crate::rng::{unit_float_of, WorkerRng};
use vstd::prelude::*;

verus! {

#[derive(Clone, Copy, PartialEq, Eq, Structural)]
pub struct Vec3 {
    pub x: Float,
    pub y: Float,
    pub z: Float,
}

pub open spec fn spec_vec3(x: u64, y: u64, z: u64) -> Vec3 {
    Vec3 { x, y, z }
}

/// The component along the given axis: 0 is x, 1 is y, 2 is z; any other
/// index reads as zero.
pub open spec fn spec_axis(a: Vec3, index: u8) -> u64 {
    if index == 0 {
        a.x
    } else if index == 1 {
        a.y
    } else if index == 2 {
        a.z
    } else {
        ZERO_BITS
    }
}

/// Componentwise sum.
pub open spec fn spec_plus(a: Vec3, b: Vec3) -> Vec3 {
    Vec3 { x: add_of(a.x, b.x), y: add_of(a.y, b.y), z: add_of(a.z, b.z) }
}

/// Componentwise difference.
pub open spec fn spec_minus(a: Vec3, b: Vec3) -> Vec3 {
    Vec3 { x: sub_of(a.x, b.x), y: sub_of(a.y, b.y), z: sub_of(a.z, b.z) }
}

/// Componentwise product.
pub open spec fn spec_elem_mul(a: Vec3, b: Vec3) -> Vec3 {
    Vec3 { x: mul_of(a.x, b.x), y: mul_of(a.y, b.y), z: mul_of(a.z, b.z) }
}

/// Componentwise quotient.
pub open spec fn spec_elem_div(a: Vec3, b: Vec3) -> Vec3 {
    Vec3 { x: div_of(a.x, b.x), y: div_of(a.y, b.y), z: div_of(a.z, b.z) }
}

/// Every component scaled by `value`.
pub open spec fn spec_scale(a: Vec3, value: u64) -> Vec3 {
    Vec3 { x: mul_of(a.x, value), y: mul_of(a.y, value), z: mul_of(a.z, value) }
}

/// Every component divided by `value`.
pub open spec fn spec_div_scalar(a: Vec3, value: u64) -> Vec3 {
    Vec3 { x: div_of(a.x, value), y: div_of(a.y, value), z: div_of(a.z, value) }
}

/// The inner product, summed left to right.
pub open spec fn spec_dot(a: Vec3, b: Vec3) -> u64 {
    add_of(add_of(mul_of(a.x, b.x), mul_of(a.y, b.y)), mul_of(a.z, b.z))
}

/// The cross product.
pub open spec fn spec_cross(a: Vec3, b: Vec3) -> Vec3 {
    Vec3 {
        x: sub_of(mul_of(a.y, b.z), mul_of(a.z, b.y)),
        y: sub_of(mul_of(a.z, b.x), mul_of(a.x, b.z)),
        z: sub_of(mul_of(a.x, b.y), mul_of(a.y, b.x)),
    }
}

/// Componentwise negation.
pub open spec fn spec_inverse(a: Vec3) -> Vec3 {
    Vec3 { x: f64_neg(a.x), y: f64_neg(a.y), z: f64_neg(a.z) }
}

/// The Euclidean length: the square root of the dot product with itself.
pub open spec fn spec_magnitude(a: Vec3) -> u64 {
    sqrt_of(spec_dot(a, a))
}

/// The vector rescaled to length `value`.
pub open spec fn spec_clone_direction(a: Vec3, value: u64) -> Vec3 {
    spec_scale(a, div_of(value, spec_magnitude(a)))
}

/// The vector rescaled to unit length.
pub open spec fn spec_normalize(a: Vec3) -> Vec3 {
    spec_clone_direction(a, ONE_BITS)
}

/// `a` mirrored about the plane with normal `n`: the negation of
/// `n * (2 n.a) - a`.
pub open spec fn spec_reflect(a: Vec3, n: Vec3) -> Vec3 {
    spec_inverse(spec_minus(spec_scale(n, mul_of(spec_dot(n, a), TWO_BITS)), a))
}

pub open spec fn spec_rotate_x(a: Vec3, angle: u64) -> Vec3 {
    Vec3 {
        x: a.x,
        y: sub_of(mul_of(a.y, cos_of(angle)), mul_of(a.z, sin_of(angle))),
        z: add_of(mul_of(a.y, sin_of(angle)), mul_of(a.z, cos_of(angle))),
    }
}

pub open spec fn spec_rotate_y(a: Vec3, angle: u64) -> Vec3 {
    Vec3 {
        x: add_of(mul_of(a.x, cos_of(angle)), mul_of(a.z, sin_of(angle))),
        y: a.y,
        z: add_of(mul_of(mul_of(a.x, crate::fbits::NEG_ONE_BITS), sin_of(angle)), mul_of(a.z, cos_of(angle))),
    }
}

pub open spec fn spec_rotate_z(a: Vec3, angle: u64) -> Vec3 {
    Vec3 {
        x: sub_of(mul_of(a.x, cos_of(angle)), mul_of(a.y, sin_of(angle))),
        y: add_of(mul_of(a.x, sin_of(angle)), mul_of(a.y, cos_of(angle))),
        z: a.z,
    }
}

/// The angle drawn at stream index `index`: a unit float scaled to [0, 2π).
pub open spec fn spec_random_angle(seed: u64, index: nat) -> u64 {
    mul_of(mul_of(unit_float_of(seed, index), PI_BITS), TWO_BITS)
}

/// The unit-sphere direction drawn from three stream draws: the x axis
/// rotated about each axis in turn by a random angle.
pub open spec fn spec_random_unit(seed: u64, index: nat) -> Vec3 {
    spec_rotate_z(
        spec_rotate_y(
            spec_rotate_x(
                Vec3 { x: ONE_BITS, y: ZERO_BITS, z: ZERO_BITS },
                spec_random_angle(seed, index),
            ),
            spec_random_angle(seed, index + 1),
        ),
        spec_random_angle(seed, index + 2),
    )
}

/// The disk candidate drawn from the two stream draws at `index`:
/// two unit floats stretched to the square [-1, 1]^2 at z = 0.
pub open spec fn disk_candidate(seed: u64, index: nat) -> Vec3 {
    spec_minus(
        spec_scale(
            Vec3 { x: unit_float_of(seed, index), y: unit_float_of(seed, index + 1), z: ZERO_BITS },
            TWO_BITS,
        ),
        Vec3 { x: ONE_BITS, y: ONE_BITS, z: ZERO_BITS },
    )
}

/// Whether the candidate at `index` lies inside the closed unit disk.
pub open spec fn disk_accept(seed: u64, index: nat) -> bool {
    f64_le(spec_dot(disk_candidate(seed, index), disk_candidate(seed, index)), ONE_BITS)
}

/// How many candidates are rejected before one is accepted, capped at
/// `fuel`.
pub open spec fn disk_rounds(seed: u64, index: nat, fuel: nat) -> nat
    decreases fuel,
{
    if fuel == 0 {
        0
    } else if disk_accept(seed, index) {
        0
    } else {
        1 + disk_rounds(seed, index + 2, (fuel - 1) as nat)
    }
}

/// How many attempts the disk sampler makes before giving up on randomness
/// and returning the disk's centre. Rejection leaves more than a fifth of
/// the square, so all attempts failing has probability below 10^-43.
pub const DISK_ATTEMPTS: u64 = 64;

/// The point the disk sampler starting at stream index `index` returns: the
/// first accepted candidate, or the centre when every attempt is rejected.
pub open spec fn spec_random_in_disk(seed: u64, index: nat) -> Vec3 {
    let n = disk_rounds(seed, index, DISK_ATTEMPTS as nat);
    if n < DISK_ATTEMPTS {
        disk_candidate(seed, index + 2 * n)
    } else {
        Vec3 { x: ZERO_BITS, y: ZERO_BITS, z: ZERO_BITS }
    }
}

/// The stream draws the disk sampler consumes.
pub open spec fn disk_draws(seed: u64, index: nat) -> nat {
    let n = disk_rounds(seed, index, DISK_ATTEMPTS as nat);
    if n < DISK_ATTEMPTS {
        2 * n + 2
    } else {
        (2 * DISK_ATTEMPTS) as nat
    }
}

/// The first `k` candidates starting at `index` are all rejected.
pub open spec fn disk_rejected(seed: u64, index: nat, k: nat) -> bool
    decreases k,
{
    if k == 0 {
        true
    } else {
        !disk_accept(seed, index) && disk_rejected(seed, index + 2, (k - 1) as nat)
    }
}

proof fn lemma_disk_rejected_extend(seed: u64, index: nat, k: nat)
    requires
        disk_rejected(seed, index, k),
        !disk_accept(seed, index + 2 * k),
    ensures
        disk_rejected(seed, index, k + 1),
    decreases k,
{
    assert(((k + 1) - 1) as nat == k);
    assert(disk_rejected(seed, index, k + 1) == (!disk_accept(seed, index) && disk_rejected(
        seed,
        index + 2,
        k,
    )));
    if k == 0 {
        assert(index + 2 * 0 == index);
        assert(!disk_accept(seed, index));
    } else {
        assert((index + 2) + 2 * (k - 1) == index + 2 * k);
        lemma_disk_rejected_extend(seed, index + 2, (k - 1) as nat);
        assert(disk_rejected(seed, index + 2, k));
    }
}

proof fn lemma_disk_rounds(seed: u64, index: nat, fuel: nat, k: nat)
    requires
        k <= fuel,
        disk_rejected(seed, index, k),
    ensures
        k < fuel && disk_accept(seed, index + 2 * k) ==> disk_rounds(seed, index, fuel) == k,
        k == fuel ==> disk_rounds(seed, index, fuel) >= fuel,
    decreases k,
{
    if k > 0 {
        lemma_disk_rounds(seed, index + 2, (fuel - 1) as nat, (k - 1) as nat);
        assert((index + 2) + 2 * (k - 1) == index + 2 * k);
    }
}

impl Vec3 {
    pub fn zero() -> (r: Vec3)
        ensures
            r == spec_vec3(ZERO_BITS, ZERO_BITS, ZERO_BITS),
    {
        Vec3 { x: ZERO_BITS, y: ZERO_BITS, z: ZERO_BITS }
    }

    pub fn new(x: Float, y: Float, z: Float) -> (r: Vec3)
        ensures
            r == spec_vec3(x, y, z),
    {
        Vec3 { x, y, z }
    }

    /// Adds `other` into `self`, componentwise.
    pub fn add(&mut self, other: &Vec3)
        ensures
            *final(self) == spec_plus(*old(self), *other),
    {
        self.x = add_bits(self.x, other.x);
        self.y = add_bits(self.y, other.y);
        self.z = add_bits(self.z, other.z);
    }

    /// Subtracts `other` from `self`, componentwise.
    pub fn sub(&mut self, other: &Vec3)
        ensures
            *final(self) == spec_minus(*old(self), *other),
    {
        self.x = sub_bits(self.x, other.x);
        self.y = sub_bits(self.y, other.y);
        self.z = sub_bits(self.z, other.z);
    }

    /// Multiplies `self` by `other`, componentwise.
    pub fn mult(&mut self, other: &Vec3)
        ensures
            *final(self) == spec_elem_mul(*old(self), *other),
    {
        self.x = mul_bits(self.x, other.x);
        self.y = mul_bits(self.y, other.y);
        self.z = mul_bits(self.z, other.z);
    }

    /// Divides `self` by `other`, componentwise.
    pub fn div(&mut self, other: &Vec3)
        ensures
            *final(self) == spec_elem_div(*old(self), *other),
    {
        self.x = div_bits(self.x, other.x);
        self.y = div_bits(self.y, other.y);
        self.z = div_bits(self.z, other.z);
    }

    /// The componentwise sum, as a new vector.
    pub fn plus(&self, other: &Vec3) -> (r: Vec3)
        ensures
            r == spec_plus(*self, *other),
    {
        Vec3 {
            x: add_bits(self.x, other.x),
            y: add_bits(self.y, other.y),
            z: add_bits(self.z, other.z),
        }
    }

    /// The componentwise difference, as a new vector.
    pub fn minus(&self, other: &Vec3) -> (r: Vec3)
        ensures
            r == spec_minus(*self, *other),
    {
        Vec3 {
            x: sub_bits(self.x, other.x),
            y: sub_bits(self.y, other.y),
            z: sub_bits(self.z, other.z),
        }
    }

    /// The componentwise product, as a new vector.
    pub fn times(&self, other: &Vec3) -> (r: Vec3)
        ensures
            r == spec_elem_mul(*self, *other),
    {
        Vec3 {
            x: mul_bits(self.x, other.x),
            y: mul_bits(self.y, other.y),
            z: mul_bits(self.z, other.z),
        }
    }

    /// Every component scaled by `value`, as a new vector.
    pub fn scale(&self, value: Float) -> (r: Vec3)
        ensures
            r == spec_scale(*self, value),
    {
        Vec3 {
            x: mul_bits(self.x, value),
            y: mul_bits(self.y, value),
            z: mul_bits(self.z, value),
        }
    }

    /// Every component divided by `value`, as a new vector.
    pub fn div_scalar(&self, value: Float) -> (r: Vec3)
        ensures
            r == spec_div_scalar(*self, value),
    {
        Vec3 {
            x: div_bits(self.x, value),
            y: div_bits(self.y, value),
            z: div_bits(self.z, value),
        }
    }

    pub fn cross(&self, other: &Vec3) -> (r: Vec3)
        ensures
            r == spec_cross(*self, *other),
    {
        Vec3 {
            x: sub_bits(mul_bits(self.y, other.z), mul_bits(self.z, other.y)),
            y: sub_bits(mul_bits(self.z, other.x), mul_bits(self.x, other.z)),
            z: sub_bits(mul_bits(self.x, other.y), mul_bits(self.y, other.x)),
        }
    }

    pub fn dot(&self, other: &Vec3) -> (r: Float)
        ensures
            r == spec_dot(*self, *other),
    {
        add_bits(
            add_bits(mul_bits(self.x, other.x), mul_bits(self.y, other.y)),
            mul_bits(self.z, other.z),
        )
    }

    pub fn get_x(&self) -> (r: Float)
        ensures
            r == self.x,
    {
        self.x
    }

    pub fn get_y(&self) -> (r: Float)
        ensures
            r == self.y,
    {
        self.y
    }

    pub fn get_z(&self) -> (r: Float)
        ensures
            r == self.z,
    {
        self.z
    }

    pub fn set_x(&mut self, x: Float)
        ensures
            *final(self) == (Vec3 { x, ..*old(self) }),
    {
        self.x = x;
    }

    pub fn set_y(&mut self, y: Float)
        ensures
            *final(self) == (Vec3 { y, ..*old(self) }),
    {
        self.y = y;
    }

    pub fn set_z(&mut self, z: Float)
        ensures
            *final(self) == (Vec3 { z, ..*old(self) }),
    {
        self.z = z;
    }

    /// The sum of the squared components.
    pub fn sum_squares(&self) -> (r: Float)
        ensures
            r == spec_dot(*self, *self),
    {
        add_bits(
            add_bits(mul_bits(self.x, self.x), mul_bits(self.y, self.y)),
            mul_bits(self.z, self.z),
        )
    }

    /// The arc cosine of the dot product over the product of the two squared
    /// lengths.
    pub fn angle_between(&self, other: &Vec3) -> (r: Float)
        ensures
            r == acos_of(
                div_of(spec_dot(*self, *other), mul_of(spec_dot(*self, *self), spec_dot(*other, *other))),
            ),
    {
        let ss = self.sum_squares();
        let os = other.sum_squares();
        acos_bits(div_bits(self.dot(other), mul_bits(ss, os)))
    }

    pub fn inverse(&self) -> (r: Vec3)
        ensures
            r == spec_inverse(*self),
    {
        Vec3 { x: neg_bits(self.x), y: neg_bits(self.y), z: neg_bits(self.z) }
    }

    /// The componentwise square root.
    pub fn sqrt(&self) -> (r: Vec3)
        ensures
            r == (Vec3 { x: sqrt_of(self.x), y: sqrt_of(self.y), z: sqrt_of(self.z) }),
    {
        Vec3 { x: sqrt_bits(self.x), y: sqrt_bits(self.y), z: sqrt_bits(self.z) }
    }

    pub fn reflect(&self, normal: &Vec3) -> (r: Vec3)
        ensures
            r == spec_reflect(*self, *normal),
    {
        let scaled = normal.scale(mul_bits(normal.dot(self), TWO_BITS));
        scaled.minus(self).inverse()
    }

    pub fn rotate_x(&self, angle: Float) -> (r: Vec3)
        ensures
            r == spec_rotate_x(*self, angle),
    {
        let c = cos_bits(angle);
        let s = sin_bits(angle);
        Vec3 {
            x: self.x,
            y: sub_bits(mul_bits(self.y, c), mul_bits(self.z, s)),
            z: add_bits(mul_bits(self.y, s), mul_bits(self.z, c)),
        }
    }

    pub fn rotate_y(&self, angle: Float) -> (r: Vec3)
        ensures
            r == spec_rotate_y(*self, angle),
    {
        let c = cos_bits(angle);
        let s = sin_bits(angle);
        Vec3 {
            x: add_bits(mul_bits(self.x, c), mul_bits(self.z, s)),
            y: self.y,
            z: add_bits(mul_bits(mul_bits(self.x, crate::fbits::NEG_ONE_BITS), s), mul_bits(self.z, c)),
        }
    }

    pub fn rotate_z(&self, angle: Float) -> (r: Vec3)
        ensures
            r == spec_rotate_z(*self, angle),
    {
        let c = cos_bits(angle);
        let s = sin_bits(angle);
        Vec3 {
            x: sub_bits(mul_bits(self.x, c), mul_bits(self.y, s)),
            y: add_bits(mul_bits(self.x, s), mul_bits(self.y, c)),
            z: self.z,
        }
    }

    /// A direction on the unit sphere: the x axis rotated about each axis in
    /// turn by a random angle in [0, 2π).
    pub fn random_unit(rng: &mut WorkerRng) -> (r: Vec3)
        ensures
            final(rng).seed() == old(rng).seed(),
            final(rng).draws() == old(rng).draws() + 3,
            r == spec_random_unit(old(rng).seed(), old(rng).draws()),
    {
        let mut v = Vec3 { x: ONE_BITS, y: ZERO_BITS, z: ZERO_BITS };
        let a1 = mul_bits(mul_bits(rng.unit_float(), PI_BITS), TWO_BITS);
        v = v.rotate_x(a1);
        let a2 = mul_bits(mul_bits(rng.unit_float(), PI_BITS), TWO_BITS);
        v = v.rotate_y(a2);
        let a3 = mul_bits(mul_bits(rng.unit_float(), PI_BITS), TWO_BITS);
        v = v.rotate_z(a3);
        v
    }

    /// A point in the closed unit disk at z = 0, by rejection from the
    /// square: candidates are drawn until one lands inside, up to
    /// `DISK_ATTEMPTS` times; the centre is returned when all are rejected.
    pub fn random_in_disk(rng: &mut WorkerRng) -> (r: Vec3)
        ensures
            final(rng).seed() == old(rng).seed(),
            final(rng).draws() == old(rng).draws() + disk_draws(old(rng).seed(), old(rng).draws()),
            r == spec_random_in_disk(old(rng).seed(), old(rng).draws()),
    {
        let ghost seed = rng.seed();
        let ghost index = rng.draws();
        let mut attempts: u64 = 0;
        let mut v = Vec3 { x: ZERO_BITS, y: ZERO_BITS, z: ZERO_BITS };
        let mut found = false;
        while attempts < DISK_ATTEMPTS && !found
            invariant
                rng.seed() == seed,
                attempts <= DISK_ATTEMPTS,
                !found ==> rng.draws() == index + 2 * attempts,
                disk_rejected(seed, index, (attempts - (if found { 1int } else { 0int })) as nat),
                found ==> attempts >= 1 && disk_accept(seed, (index + 2 * (attempts - 1)) as nat)
                    && rng.draws() == index + 2 * attempts && v == disk_candidate(
                    seed,
                    (index + 2 * (attempts - 1)) as nat,
                ),
            decreases DISK_ATTEMPTS - attempts + (if found { 0int } else { 1 }),
        {
            let x = rng.unit_float();
            let y = rng.unit_float();
            let cand = Vec3 { x, y, z: ZERO_BITS }.scale(TWO_BITS).minus(
                &Vec3 { x: ONE_BITS, y: ONE_BITS, z: ZERO_BITS },
            );
            v = cand;
            attempts = attempts + 1;
            if le_bits(v.dot(&v), ONE_BITS) {
                found = true;
            } else {
                proof {
                    lemma_disk_rejected_extend(seed, index, (attempts - 1) as nat);
                }
            }
        }
        proof {
            if found {
                lemma_disk_rounds(
                    seed,
                    index,
                    DISK_ATTEMPTS as nat,
                    (attempts - 1) as nat,
                );
            } else {
                lemma_disk_rounds(seed, index, DISK_ATTEMPTS as nat, DISK_ATTEMPTS as nat);
                assert(disk_rounds(seed, index, DISK_ATTEMPTS as nat) <= DISK_ATTEMPTS) by {
                    lemma_disk_rounds_cap(seed, index, DISK_ATTEMPTS as nat);
                }
            }
        }
        if found {
            v
        } else {
            Vec3 { x: ZERO_BITS, y: ZERO_BITS, z: ZERO_BITS }
        }
    }

    /// An explicit copy.
    pub fn clone(&self) -> (r: Vec3)
        ensures
            r == *self,
    {
        Vec3 { x: self.x, y: self.y, z: self.z }
    }

    /// The vector rescaled to unit length.
    pub fn normalize(&self) -> (r: Vec3)
        ensures
            r == spec_normalize(*self),
    {
        self.clone_direction(ONE_BITS)
    }

    /// The Euclidean length.
    pub fn magnitude(&self) -> (r: Float)
        ensures
            r == spec_magnitude(*self),
    {
        sqrt_bits(self.sum_squares())
    }

    /// The vector rescaled to length `value`.
    pub fn clone_direction(&self, value: Float) -> (r: Vec3)
        ensures
            r == spec_clone_direction(*self, value),
    {
        self.scale(div_bits(value, self.magnitude()))
    }

    /// Every component replaced by the x component mapped from `0..maximum`
    /// to the unit range.
    pub fn squash(&self, maximum: Float) -> (r: Vec3)
        ensures
            r == (Vec3 {
                x: spec_map(self.x, ZERO_BITS, maximum, ZERO_BITS, ONE_BITS),
                y: spec_map(self.x, ZERO_BITS, maximum, ZERO_BITS, ONE_BITS),
                z: spec_map(self.x, ZERO_BITS, maximum, ZERO_BITS, ONE_BITS),
            }),
    {
        let m = crate::mathutils::map(self.x, ZERO_BITS, maximum, ZERO_BITS, ONE_BITS);
        Vec3 { x: m, y: m, z: m }
    }

    /// The component along the given axis: 0 is x, 1 is y, 2 is z; any other
    /// index reads as zero.
    pub fn axis(&self, index: u8) -> (r: Float)
        ensures
            r == spec_axis(*self, index),
    {
        if index == 0 {
            self.x
        } else if index == 1 {
            self.y
        } else if index == 2 {
            self.z
        } else {
            ZERO_BITS
        }
    }
}

/// A cap on the rejection count: it never exceeds the fuel.
proof fn lemma_disk_rounds_cap(seed: u64, index: nat, fuel: nat)
    ensures
        disk_rounds(seed, index, fuel) <= fuel,
    decreases fuel,
{
    if fuel > 0 && !disk_accept(seed, index) {
        lemma_disk_rounds_cap(seed, index + 2, (fuel - 1) as nat);
    }
}

} // verus!
