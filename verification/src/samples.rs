//! Stock scene ingredients: random materials and spheres, and the default
//! metal floor material.
use crate::fbits::{
    div_of, f64_gt, f64_lt, gt_bits, lt_bits, mul_of, EIGHT_BITS, F005_BITS, F03_BITS, F100_BITS,
    FIVE_BITS, ONE_BITS, THREE_BITS,
};
use crate::fbits::{div_bits, mul_bits};
use crate::hitable::{Object, Primitive, Sphere};
use crate::material::{BaseMaterial, DiffuseLight, Material, Metal};
use crate::rng::{unit_float_of, WorkerRng};
use crate::texture::ConstantTexture;
use crate::vectors::{spec_random_unit, spec_scale, spec_vec3, Vec3};
use vstd::prelude::*;

verus! {

/// A placeholder scene hook.
pub fn basic_scene() {
}

/// The material four random draws pick: a plain surface when the fourth
/// draw falls below one third, a bright light when it rises above eight
/// thirds (which a unit float never does), and otherwise a metal whose fuzz
/// is a fifth draw. The second component is the draw index afterwards.
pub open spec fn spec_gen_random_material(seed: u64, index: nat) -> (BaseMaterial, nat) {
    let color = spec_random_unit(seed, index);
    let value = unit_float_of(seed, index + 3);
    let rap = div_of(ONE_BITS, THREE_BITS);
    if f64_lt(value, rap) {
        (BaseMaterial::Plain(Material { albedo: ConstantTexture { color } }), index + 4)
    } else if f64_gt(value, mul_of(rap, EIGHT_BITS)) {
        (
            BaseMaterial::Light(
                DiffuseLight { emit: ConstantTexture { color: spec_scale(color, F100_BITS) } },
            ),
            index + 4,
        )
    } else {
        (
            BaseMaterial::Metallic(
                Metal { albedo: ConstantTexture { color }, fuzz: unit_float_of(seed, index + 4) },
            ),
            index + 5,
        )
    }
}

/// A randomly picked material.
pub fn gen_random_material(rng: &mut WorkerRng) -> (r: BaseMaterial)
    ensures
        final(rng).seed() == old(rng).seed(),
        (r, final(rng).draws()) == spec_gen_random_material(old(rng).seed(), old(rng).draws()),
{
    let color = Vec3::random_unit(rng);
    let value = rng.unit_float();
    let rap = div_bits(ONE_BITS, THREE_BITS);
    if lt_bits(value, rap) {
        return BaseMaterial::Plain(Material::new(color));
    } else if gt_bits(value, mul_bits(rap, EIGHT_BITS)) {
        return BaseMaterial::Light(DiffuseLight::new(color.scale(F100_BITS)));
    }
    let fuzz = rng.unit_float();
    BaseMaterial::Metallic(Metal::new(ConstantTexture { color }, fuzz))
}

/// The sphere five to six random draws build: a radius under 0.3, a centre
/// on a sphere of radius five lowered onto the ground plane, and a random
/// material. The second component is the draw index afterwards.
pub open spec fn spec_gen_random_sphere(seed: u64, index: nat) -> (Object, nat) {
    let radius = mul_of(unit_float_of(seed, index), F03_BITS);
    let position = spec_scale(spec_random_unit(seed, index + 1), FIVE_BITS);
    let centre = Vec3 { x: position.x, y: radius, z: position.z };
    let (material, next) = spec_gen_random_material(seed, index + 4);
    (Object { object: Primitive::Ball(Sphere { radius, center: centre }), material }, next)
}

/// A randomly placed and dressed sphere.
pub fn gen_random_sphere(rng: &mut WorkerRng) -> (r: Object)
    ensures
        final(rng).seed() == old(rng).seed(),
        (r, final(rng).draws()) == spec_gen_random_sphere(old(rng).seed(), old(rng).draws()),
{
    let radius = mul_bits(rng.unit_float(), F03_BITS);
    let mut position: Vec3 = Vec3::random_unit(rng);
    position = position.scale(FIVE_BITS);
    position.set_y(radius);
    let material = gen_random_material(rng);
    Sphere::new(material, radius, position)
}

/// The stock floor material: white metal with a light fuzz.
pub fn get_metal() -> (r: Metal)
    ensures
        r == (Metal {
            albedo: ConstantTexture { color: spec_vec3(ONE_BITS, ONE_BITS, ONE_BITS) },
            fuzz: F005_BITS,
        }),
{
    Metal::new(ConstantTexture::new(Vec3::new(ONE_BITS, ONE_BITS, ONE_BITS)), F005_BITS)
}

} // verus!
