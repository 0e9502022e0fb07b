//! Materials: how a surface scatters an incoming ray and what it emits.
//!
//! The three kinds are tagged variants of `BaseMaterial` with a small
//! dispatch, rather than trait objects.
use crate::fbits::{f64_gt, gt_bits, Float, ZERO_BITS};
use crate::hitable::HitRecord;
use crate::ray::Ray;
use crate::rng::WorkerRng;
use crate::texture::ConstantTexture;
use crate::vectors::{
    spec_dot, spec_minus, spec_plus, spec_random_unit, spec_reflect, spec_scale, spec_vec3, Vec3,
};
use vstd::prelude::*;

verus! {

/// A diffuse surface with a flat albedo. Its emission reports the albedo
/// itself, so a plain surface reads as self-emissive to the integrator.
#[derive(Clone, Copy, PartialEq, Eq, Structural)]
pub struct Material {
    pub albedo: ConstantTexture,
}

/// A pure emitter: never scatters, radiates its colour.
#[derive(Clone, Copy, PartialEq, Eq, Structural)]
pub struct DiffuseLight {
    pub emit: ConstantTexture,
}

/// A reflector: mirrors the incoming direction, fuzzed by `fuzz`, and
/// absorbs bounces that land below the surface.
#[derive(Clone, Copy, PartialEq, Eq, Structural)]
pub struct Metal {
    pub albedo: ConstantTexture,
    pub fuzz: Float,
}

/// A surface material: one of the three kinds.
#[derive(Clone, Copy, PartialEq, Eq, Structural)]
pub enum BaseMaterial {
    Plain(Material),
    Light(DiffuseLight),
    Metallic(Metal),
}

/// How many stream draws a scatter consumes: three for the diffuse and
/// metallic kinds (one random unit direction), none for a light.
pub open spec fn scatter_draws(mat: BaseMaterial) -> nat {
    match mat {
        BaseMaterial::Plain(_) => 3,
        BaseMaterial::Metallic(_) => 3,
        BaseMaterial::Light(_) => 0,
    }
}

/// What a scatter returns and writes: whether the bounce survives, the
/// attenuation, and the scattered ray, given the incoming ray, the hit, the
/// values the two out-parameters held, and the draw position.
pub open spec fn spec_scatter(
    mat: BaseMaterial,
    rin: Ray,
    rec: HitRecord,
    att0: Vec3,
    sc0: Ray,
    seed: u64,
    index: nat,
) -> (bool, Vec3, Ray) {
    match mat {
        BaseMaterial::Plain(m) => {
            let p = rec.p->Some_0;
            let target = spec_plus(spec_plus(p, rec.normal->Some_0), spec_random_unit(seed, index));
            (true, m.albedo.color, Ray { origin: p, direction: spec_minus(target, p), ..sc0 })
        },
        BaseMaterial::Light(_) => (false, att0, sc0),
        BaseMaterial::Metallic(m) => {
            let reflected = spec_reflect(rin.direction, rec.normal->Some_0);
            let dir = spec_plus(reflected, spec_scale(spec_random_unit(seed, index), m.fuzz));
            (
                f64_gt(spec_dot(dir, rec.normal->Some_0), ZERO_BITS),
                m.albedo.color,
                Ray { origin: rec.p->Some_0, direction: dir, time: rin.time, ..sc0 },
            )
        },
    }
}

/// What a surface emits at the given coordinates: its albedo for a plain
/// surface, its colour for a light, nothing for metal.
pub open spec fn spec_emitted(mat: BaseMaterial, u: u64, v: u64, p: Vec3) -> Vec3 {
    match mat {
        BaseMaterial::Plain(m) => m.albedo.color,
        BaseMaterial::Light(l) => l.emit.color,
        BaseMaterial::Metallic(_) => spec_vec3(ZERO_BITS, ZERO_BITS, ZERO_BITS),
    }
}

impl DiffuseLight {
    pub fn new(vec: Vec3) -> (r: DiffuseLight)
        ensures
            r == (DiffuseLight { emit: ConstantTexture { color: vec } }),
    {
        DiffuseLight { emit: ConstantTexture { color: vec } }
    }
}

impl Material {
    pub fn new(vec: Vec3) -> (r: Material)
        ensures
            r == (Material { albedo: ConstantTexture { color: vec } }),
    {
        Material { albedo: ConstantTexture { color: vec } }
    }
}

impl Metal {
    pub fn new(albedo: ConstantTexture, fuzz: Float) -> (r: Metal)
        ensures
            r == (Metal { albedo, fuzz }),
    {
        Metal { albedo, fuzz }
    }
}

impl BaseMaterial {
    /// One probabilistic bounce: writes the attenuation and the outgoing ray
    /// and says whether the bounce survives; a light never scatters, and a
    /// metal bounce below the surface is absorbed.
    pub fn scatter(
        &self,
        rin: &Ray,
        rec: &HitRecord,
        attenuation: &mut Vec3,
        scattered: &mut Ray,
        rng: &mut WorkerRng,
    ) -> (r: bool)
        requires
            rec.p is Some,
            rec.normal is Some,
        ensures
            final(rng).seed() == old(rng).seed(),
            final(rng).draws() == old(rng).draws() + scatter_draws(*self),
            (r, *final(attenuation), *final(scattered)) == spec_scatter(
                *self,
                *rin,
                *rec,
                *old(attenuation),
                *old(scattered),
                old(rng).seed(),
                old(rng).draws(),
            ),
    {
        match self {
            BaseMaterial::Plain(m) => {
                let p = rec.p.unwrap();
                let target = p.plus(&rec.normal.unwrap()).plus(&Vec3::random_unit(rng));
                scattered.origin = p;
                scattered.direction = target.minus(&p);
                let col = m.albedo.value(rec.u, rec.v, &p);
                *attenuation = col;
                true
            },
            BaseMaterial::Light(_) => false,
            BaseMaterial::Metallic(m) => {
                let normal = rec.normal.unwrap();
                let reflected = rin.direction.reflect(&normal);
                scattered.origin = rec.p.unwrap();
                scattered.direction = reflected.plus(&Vec3::random_unit(rng).scale(m.fuzz));
                scattered.time = rin.time;
                *attenuation = m.albedo.value(rec.u, rec.v, &normal);
                gt_bits(scattered.direction.dot(&normal), ZERO_BITS)
            },
        }
    }

    /// What the surface emits at the given coordinates.
    pub fn emitted(&self, u: Float, v: Float, p: &Vec3) -> (r: Vec3)
        ensures
            r == spec_emitted(*self, u, v, *p),
    {
        match self {
            BaseMaterial::Plain(m) => m.albedo.value(u, v, p),
            BaseMaterial::Light(l) => l.emit.value(u, v, p),
            BaseMaterial::Metallic(_) => Vec3::zero(),
        }
    }
}

} // verus!
