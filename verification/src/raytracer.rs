//! The path-tracing integrator: recursive radiance gathering with a hard
//! bounce cap, over a sky-gradient background.
use crate::accelerator::{lemma_node_hit_correct, node_contains, spec_node_hit, BoundingBoxNode};
use crate::fbits::{
    add_of, mul_of, Float, FMAX_BITS, F07_BITS, HALF_BITS, ONE_BITS, T_MIN_BITS, ZERO_BITS,
};
use crate::fbits::{add_bits, mul_bits};
use crate::hitable::{spec_hit_record, spec_hits, HitRecord, Object};
use crate::material::{scatter_draws, spec_emitted, spec_scatter};
use crate::ray::Ray;
use crate::rng::WorkerRng;
use crate::vectors::{spec_elem_mul, spec_plus, spec_scale, spec_vec3, Vec3};
use vstd::prelude::*;

verus! {

/// The maximum recursion depth of the integrator.
pub const MAX_DEPTH: i32 = 50;

/// The sky background: a vertical white-to-blue gradient over the ray's
/// y direction, unclamped.
pub open spec fn spec_sky(r: Ray) -> Vec3 {
    let t = mul_of(HALF_BITS, add_of(r.direction.y, ONE_BITS));
    spec_plus(
        spec_vec3(ONE_BITS, ONE_BITS, ONE_BITS),
        spec_scale(spec_vec3(HALF_BITS, F07_BITS, ONE_BITS), t),
    )
}

/// The radiance gathered along the ray: on a hit, the surface emission plus
/// the attenuated radiance of the scattered ray, recursively; the emission
/// alone when the bounce is absorbed or the depth cap is reached; the sky
/// at a miss. The second component is the draw index after the call.
pub open spec fn spec_get_color(
    r: Ray,
    world: BoundingBoxNode,
    depth: i32,
    seed: u64,
    index: nat,
) -> (Vec3, nat)
    decreases MAX_DEPTH - depth,
{
    let (h, rec) = spec_node_hit(world, r, T_MIN_BITS, FMAX_BITS);
    if h {
        let mat = rec.material->Some_0;
        let emitted = spec_emitted(mat, rec.u, rec.v, rec.p->Some_0);
        if depth < MAX_DEPTH {
            let (ok, att, scattered) = spec_scatter(
                mat,
                r,
                rec,
                spec_vec3(ZERO_BITS, ZERO_BITS, ZERO_BITS),
                Ray {
                    bounces: 0,
                    time: ZERO_BITS,
                    origin: spec_vec3(ZERO_BITS, ZERO_BITS, ZERO_BITS),
                    direction: spec_vec3(ZERO_BITS, ZERO_BITS, ZERO_BITS),
                },
                seed,
                index,
            );
            let index2 = index + scatter_draws(mat);
            if ok {
                let (rest, index3) = spec_get_color(scattered, world, (depth + 1) as i32, seed, index2);
                (spec_plus(emitted, spec_elem_mul(att, rest)), index3)
            } else {
                (emitted, index2)
            }
        } else {
            (emitted, index)
        }
    } else {
        (spec_sky(r), index)
    }
}

fn get_sky_color(r: &Ray) -> (c: Vec3)
    ensures
        c == spec_sky(*r),
{
    let unit = r.direction.clone();
    let t = mul_bits(HALF_BITS, add_bits(unit.get_y(), ONE_BITS));
    Vec3::new(ONE_BITS, ONE_BITS, ONE_BITS).plus(
        &Vec3::new(HALF_BITS, F07_BITS, ONE_BITS).scale(t),
    )
}

/// The emission of the nearest surface the ray hits, or the sky.
pub fn get_color_simple(r: &Ray, world: &BoundingBoxNode) -> (c: Vec3)
    ensures
        c == ({
            let (h, rec) = spec_node_hit(*world, *r, T_MIN_BITS, FMAX_BITS);
            if h {
                spec_emitted(rec.material->Some_0, rec.u, rec.v, rec.p->Some_0)
            } else {
                spec_sky(*r)
            }
        }),
{
    let mut rec = HitRecord::new();
    if world.hit(r, T_MIN_BITS, FMAX_BITS, &mut rec) {
        proof {
            lemma_node_hit_correct(*world, *r, T_MIN_BITS, FMAX_BITS);
            let o = choose|o: Object|
                node_contains(*world, o) && spec_hits(o, *r, T_MIN_BITS, FMAX_BITS)
                    && spec_node_hit(*world, *r, T_MIN_BITS, FMAX_BITS).1 == spec_hit_record(
                    o,
                    *r,
                );
            assert(rec == spec_hit_record(o, *r));
        }
        let material = rec.material.unwrap();
        material.emitted(rec.u, rec.v, &rec.p.unwrap())
    } else {
        get_sky_color(r)
    }
}

/// The radiance gathered along the ray, recursively up to the depth cap.
pub fn get_color(r: &Ray, world: &BoundingBoxNode, depth: i32, rng: &mut WorkerRng) -> (c: Vec3)
    ensures
        final(rng).seed() == old(rng).seed(),
        (c, final(rng).draws()) == spec_get_color(
            *r,
            *world,
            depth,
            old(rng).seed(),
            old(rng).draws(),
        ),
    decreases MAX_DEPTH - depth,
{
    let mut rec = HitRecord::new();
    if world.hit(r, T_MIN_BITS, FMAX_BITS, &mut rec) {
        proof {
            lemma_node_hit_correct(*world, *r, T_MIN_BITS, FMAX_BITS);
            let o = choose|o: Object|
                node_contains(*world, o) && spec_hits(o, *r, T_MIN_BITS, FMAX_BITS)
                    && spec_node_hit(*world, *r, T_MIN_BITS, FMAX_BITS).1 == spec_hit_record(
                    o,
                    *r,
                );
            assert(rec == spec_hit_record(o, *r));
        }
        let mut scattered: Ray = Ray::zero();
        let mut v = Vec3::zero();
        let material = rec.material.unwrap();
        let emitted = material.emitted(rec.u, rec.v, &rec.p.unwrap());
        if depth < MAX_DEPTH && material.scatter(r, &rec, &mut v, &mut scattered, rng) {
            return emitted.plus(&v.times(&get_color(&scattered, world, depth + 1, rng)));
        }
        emitted
    } else {
        get_sky_color(r)
    }
}

/// A ray that hits a light is answered by the light's colour alone, exactly,
/// at every depth: a light never scatters, so its emission is the whole
/// radiance.
pub proof fn lemma_light_radiance(
    r: Ray,
    world: BoundingBoxNode,
    depth: i32,
    seed: u64,
    index: nat,
    l: crate::material::DiffuseLight,
)
    requires
        spec_node_hit(world, r, T_MIN_BITS, FMAX_BITS).0,
        spec_node_hit(world, r, T_MIN_BITS, FMAX_BITS).1.material == Some(
            crate::material::BaseMaterial::Light(l),
        ),
    ensures
        spec_get_color(r, world, depth, seed, index) == (l.emit.color, index),
{
}

} // verus!
