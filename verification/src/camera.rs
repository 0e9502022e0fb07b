//! The thin-lens camera: a position, a derived basis, and the mapping from
//! normalized screen coordinates to primary rays with a lens offset.
use crate::fbits::{
    div_bits, div_of, mul_bits, mul_of, tan_bits, tan_of, Float, F55_BITS, ONE_BITS,
    RAD_PER_DEG_BITS, TWO_BITS, ZERO_BITS,
};
use crate::ray::Ray;
use crate::rng::WorkerRng;
use crate::vectors::{
    disk_draws, spec_cross, spec_inverse, spec_minus, spec_normalize, spec_plus,
    spec_random_in_disk, spec_scale, Vec3,
};
use vstd::prelude::*;

verus! {

#[derive(Clone, Copy, PartialEq, Eq, Structural)]
pub struct Camera {
    pub position: Vec3,
    pub direction: Vec3,
    pub down: Vec3,
    pub right: Vec3,
    pub aperture: Float,
    pub angle: Float,
    pub focus_distance: Float,
}

/// The camera a position, look-at point and up vector derive: unit view
/// direction, unit right vector, downward vector, no aperture, a 55 degree
/// field of view, and focus at unit distance.
pub open spec fn spec_camera_new(position: Vec3, lookat: Vec3, up: Vec3) -> Camera {
    let direction = spec_normalize(spec_minus(lookat, position));
    let right = spec_normalize(spec_cross(up, direction));
    Camera {
        position,
        direction,
        aperture: ZERO_BITS,
        right,
        down: spec_cross(right, direction),
        angle: mul_of(F55_BITS, RAD_PER_DEG_BITS),
        focus_distance: ONE_BITS,
    }
}

/// The screen height at the focal plane: twice the tangent of half the
/// field of view.
pub open spec fn spec_screen_height(c: Camera) -> u64 {
    mul_of(TWO_BITS, tan_of(div_of(c.angle, TWO_BITS)))
}

pub open spec fn spec_screen_width(c: Camera, aspect_ratio: u64) -> u64 {
    mul_of(spec_screen_height(c), aspect_ratio)
}

/// The upper-right reference point of the screen at the focal plane.
pub open spec fn spec_upper_right(c: Camera, aspect_ratio: u64) -> Vec3 {
    let dx = spec_screen_width(c, aspect_ratio);
    let dy = spec_screen_height(c);
    spec_minus(
        spec_minus(
            spec_plus(c.position, spec_scale(spec_normalize(c.direction), c.focus_distance)),
            spec_scale(spec_scale(c.right, div_of(dx, TWO_BITS)), c.focus_distance),
        ),
        spec_scale(spec_scale(c.down, div_of(dy, TWO_BITS)), c.focus_distance),
    )
}

/// The unit direction from the offset camera position toward the screen
/// point (u, v).
pub open spec fn spec_origin_direction(c: Camera, aspect_ratio: u64, u: u64, v: u64, offset: Vec3) -> Vec3 {
    let dx = spec_screen_width(c, aspect_ratio);
    let dy = spec_screen_height(c);
    let dir = spec_plus(
        spec_plus(spec_upper_right(c, aspect_ratio), spec_scale(c.right, mul_of(u, dx))),
        spec_scale(c.down, mul_of(v, dy)),
    );
    spec_normalize(spec_minus(spec_minus(dir, c.position), offset))
}

/// The primary ray for screen point (x, y): a lens offset drawn from the
/// disk and scaled by the aperture, then the unit direction toward the
/// focal-plane target.
pub open spec fn spec_origin_ray(c: Camera, aspect_ratio: u64, x: u64, y: u64, seed: u64, index: nat) -> Ray {
    let rand_dir = spec_scale(spec_random_in_disk(seed, index), c.aperture);
    let offset = spec_plus(spec_scale(c.right, rand_dir.x), spec_scale(c.down, rand_dir.y));
    Ray {
        bounces: 0,
        time: ZERO_BITS,
        origin: spec_plus(c.position, offset),
        direction: spec_origin_direction(c, aspect_ratio, x, y, offset),
    }
}

impl Camera {
    pub fn new(position: Vec3, lookat: Vec3, up: Vec3) -> (r: Camera)
        ensures
            r == spec_camera_new(position, lookat, up),
    {
        let direction = lookat.minus(&position).normalize();
        let right = up.cross(&direction).normalize();
        Camera {
            position,
            direction: direction.clone(),
            aperture: ZERO_BITS,
            right: right.clone(),
            down: right.cross(&direction),
            angle: mul_bits(F55_BITS, RAD_PER_DEG_BITS),
            focus_distance: ONE_BITS,
        }
    }

    /// The upward vector: the inverse of `down`.
    pub fn get_up(&self) -> (r: Vec3)
        ensures
            r == spec_inverse(self.down),
    {
        self.down.inverse()
    }

    pub fn get_down(&self) -> (r: Vec3)
        ensures
            r == self.down,
    {
        self.down
    }

    pub fn get_direction(&self) -> (r: Vec3)
        ensures
            r == self.direction,
    {
        self.direction
    }

    pub fn get_aperture(&self) -> (r: Float)
        ensures
            r == self.aperture,
    {
        self.aperture
    }

    pub fn set_aperture(&mut self, aperture: Float)
        ensures
            *final(self) == (Camera { aperture, ..*old(self) }),
    {
        self.aperture = aperture;
    }

    pub fn get_angle(&self) -> (r: Float)
        ensures
            r == self.angle,
    {
        self.angle
    }

    /// Sets the field of view, given in degrees.
    pub fn set_angle(&mut self, value: Float)
        ensures
            *final(self) == (Camera { angle: mul_of(value, RAD_PER_DEG_BITS), ..*old(self) }),
    {
        self.angle = mul_bits(value, RAD_PER_DEG_BITS);
    }

    /// The primary ray for screen point (x, y) at the given aspect ratio.
    pub fn get_origin_ray(
        &self,
        aspect_ratio: Float,
        x: Float,
        y: Float,
        rng: &mut WorkerRng,
    ) -> (r: Ray)
        ensures
            final(rng).seed() == old(rng).seed(),
            final(rng).draws() == old(rng).draws() + disk_draws(old(rng).seed(), old(rng).draws()),
            r == spec_origin_ray(*self, aspect_ratio, x, y, old(rng).seed(), old(rng).draws()),
    {
        let rand_dir = Vec3::random_in_disk(rng).scale(self.aperture);
        let offset = self.right.scale(rand_dir.x).plus(&self.down.scale(rand_dir.y));
        let dir = self.get_origin_direction(aspect_ratio, x, y, offset);
        Ray::new(self.position.plus(&offset), dir, ZERO_BITS)
    }

    /// The unit direction from the offset position toward screen point
    /// (u, v).
    pub fn get_origin_direction(
        &self,
        aspect_ratio: Float,
        u: Float,
        v: Float,
        offset: Vec3,
    ) -> (r: Vec3)
        ensures
            r == spec_origin_direction(*self, aspect_ratio, u, v, offset),
    {
        let mut dx: Float = ZERO_BITS;
        let mut dy: Float = ZERO_BITS;
        let u_right = self.upper_right(aspect_ratio, &mut dx, &mut dy);
        let dir = u_right.plus(&self.right.scale(mul_bits(u, dx))).plus(
            &self.down.scale(mul_bits(v, dy)),
        );
        dir.minus(&self.position).minus(&offset).normalize()
    }

    /// The upper-right screen reference point; the screen extent is written
    /// into `dx` and `dy`.
    pub fn upper_right(&self, aspect_ratio: Float, dx: &mut Float, dy: &mut Float) -> (r: Vec3)
        ensures
            *final(dx) == spec_screen_width(*self, aspect_ratio),
            *final(dy) == spec_screen_height(*self),
            r == spec_upper_right(*self, aspect_ratio),
    {
        *dx = self.screen_width(aspect_ratio);
        *dy = self.screen_height();
        self.position.plus(&self.direction.normalize().scale(self.focus_distance)).minus(
            &self.right.scale(div_bits(*dx, TWO_BITS)).scale(self.focus_distance),
        ).minus(&self.down.scale(div_bits(*dy, TWO_BITS)).scale(self.focus_distance))
    }

    /// The screen width at the focal plane.
    pub fn screen_width(&self, aspect_ratio: Float) -> (r: Float)
        ensures
            r == spec_screen_width(*self, aspect_ratio),
    {
        mul_bits(self.screen_height(), aspect_ratio)
    }

    /// The screen height at the focal plane.
    pub fn screen_height(&self) -> (r: Float)
        ensures
            r == spec_screen_height(*self),
    {
        mul_bits(TWO_BITS, tan_bits(div_bits(self.angle, TWO_BITS)))
    }
}

} // verus!
