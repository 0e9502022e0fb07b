//! Rays: an origin, a direction, a time stamp, and a bounce counter.
use crate::fbits::{f64_gt, gt_bits, Float, ZERO_BITS};
use crate::rng::WorkerRng;
use crate::vectors::{
    spec_plus, spec_random_unit, spec_reflect, spec_scale, spec_vec3, Vec3,
};
use vstd::prelude::*;

verus! {

#[derive(Clone, Copy, PartialEq, Eq, Structural)]
pub struct Ray {
    pub bounces: i32,
    pub time: Float,
    pub origin: Vec3,
    pub direction: Vec3,
}

/// The point `length` along the ray: origin + direction * length.
pub open spec fn spec_point_at(r: Ray, length: u64) -> Vec3 {
    spec_plus(r.origin, spec_scale(r.direction, length))
}

/// The ray a reflection produces: the direction mirrored about the normal,
/// fuzzed by a random unit vector when `fuzz` is positive, starting at
/// `origin` with one more bounce.
pub open spec fn spec_reflected_ray(
    r: Ray,
    origin: Vec3,
    normal: Vec3,
    fuzz: u64,
    seed: u64,
    index: nat,
) -> Ray {
    let dir = if f64_gt(fuzz, ZERO_BITS) {
        spec_plus(spec_reflect(r.direction, normal), spec_scale(spec_random_unit(seed, index), fuzz))
    } else {
        spec_reflect(r.direction, normal)
    };
    Ray { bounces: (r.bounces + 1) as i32, time: ZERO_BITS, origin, direction: dir }
}

/// The draws reflection consumes: three when the fuzz is positive, none
/// otherwise.
pub open spec fn reflected_draws(fuzz: u64) -> nat {
    if f64_gt(fuzz, ZERO_BITS) {
        3
    } else {
        0
    }
}

impl Ray {
    pub fn zero() -> (r: Ray)
        ensures
            r == (Ray {
                bounces: 0,
                time: ZERO_BITS,
                origin: spec_vec3(ZERO_BITS, ZERO_BITS, ZERO_BITS),
                direction: spec_vec3(ZERO_BITS, ZERO_BITS, ZERO_BITS),
            }),
    {
        Ray { bounces: 0, time: ZERO_BITS, origin: Vec3::zero(), direction: Vec3::zero() }
    }

    pub fn new(origin: Vec3, direction: Vec3, time: Float) -> (r: Ray)
        ensures
            r == (Ray { bounces: 0, time, origin, direction }),
    {
        Ray { bounces: 0, time, origin, direction }
    }

    pub fn set_time(&mut self, time: Float)
        ensures
            *final(self) == (Ray { time, ..*old(self) }),
    {
        self.time = time;
    }

    /// The reflection of this ray at `origin` about `normal`, fuzzed by
    /// `fuzz`.
    pub fn reflected_ray(
        &self,
        origin: &Vec3,
        normal: &Vec3,
        fuzz: Float,
        rng: &mut WorkerRng,
    ) -> (r: Ray)
        requires
            self.bounces < i32::MAX,
        ensures
            final(rng).seed() == old(rng).seed(),
            final(rng).draws() == old(rng).draws() + reflected_draws(fuzz),
            r == spec_reflected_ray(
                *self,
                *origin,
                *normal,
                fuzz,
                old(rng).seed(),
                old(rng).draws(),
            ),
    {
        let mut dir: Vec3 = self.direction.reflect(normal);
        if gt_bits(fuzz, ZERO_BITS) {
            dir = dir.plus(&Vec3::random_unit(rng).scale(fuzz));
        }
        let mut r = Ray::new(origin.clone(), dir.clone(), ZERO_BITS);
        r.bounces = self.bounces + 1;
        r
    }

    /// The point `length` along the ray.
    pub fn point_at_length(&self, length: Float) -> (r: Vec3)
        ensures
            r == spec_point_at(*self, length),
    {
        self.origin.plus(&self.direction.scale(length))
    }
}

} // verus!
