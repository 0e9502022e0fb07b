//! Work distribution: the self-contained sample job a worker runs, and the
//! render loop that feeds every pixel's samples into the accumulator.
//!
//! Each sample owns a private generator seeded from the root seed and the
//! sample's coordinates, so the whole render is a deterministic function of
//! the root seed, whatever order the jobs complete in.
use crate::accelerator::BoundingBoxNode;
use crate::camera::{spec_origin_ray, Camera};
use crate::fbits::{
    add_of, div_of, f64_of_int, mul_of, sub_of, Float, ONE_BITS, TWO_BITS, ZERO_BITS,
};
use crate::fbits::{add_bits, div_bits, int_to_bits, mul_bits, sub_bits};
use crate::image::ImageBuilder;
use crate::raytracer::{get_color, spec_get_color};
use crate::rng::{unit_float_of, WorkerRng};
use crate::scene::Scene;
use crate::vectors::{disk_draws, spec_plus, spec_vec3, Vec3};
use vstd::prelude::*;

verus! {

/// One pixel contribution: the colour a sample gathered for pixel (x, y).
#[derive(Clone, Copy)]
pub struct PixelData {
    pub pixel: Vec3,
    pub x: usize,
    pub y: usize,
}

/// What one sample job computes for pixel (i, j): the pixel centre is
/// jittered by up to half a pixel, the camera turns it into a primary ray,
/// and the integrator gathers its radiance. The second component is the
/// draw index after the job.
pub open spec fn spec_render_sample(
    i: usize,
    j: usize,
    width: usize,
    height: usize,
    cam: Camera,
    world: BoundingBoxNode,
    seed: u64,
    index: nat,
) -> (PixelData, nat) {
    let rap_w = div_of(ONE_BITS, f64_of_int(width as u64));
    let rap_h = div_of(ONE_BITS, f64_of_int(width as u64));
    let rand_x = sub_of(mul_of(unit_float_of(seed, index), rap_w), div_of(rap_w, TWO_BITS));
    let rand_y = sub_of(mul_of(unit_float_of(seed, index + 1), rap_h), div_of(rap_h, TWO_BITS));
    let aspect = div_of(f64_of_int(width as u64), f64_of_int(height as u64));
    let x = add_of(div_of(f64_of_int(i as u64), f64_of_int(width as u64)), rand_x);
    let y = add_of(div_of(f64_of_int(j as u64), f64_of_int(height as u64)), rand_y);
    let index2 = index + 2;
    let ray = spec_origin_ray(cam, aspect, x, y, seed, index2);
    let index3 = index2 + disk_draws(seed, index2);
    let (color, index4) = spec_get_color(ray, world, 0, seed, index3);
    (PixelData { pixel: color, x: i, y: j }, index4)
}

/// Runs one sample job for pixel (i, j).
pub fn render_sample(
    i: usize,
    j: usize,
    width: usize,
    height: usize,
    camera: &Camera,
    world: &BoundingBoxNode,
    rng: &mut WorkerRng,
) -> (r: PixelData)
    ensures
        final(rng).seed() == old(rng).seed(),
        (r, final(rng).draws()) == spec_render_sample(
            i,
            j,
            width,
            height,
            *camera,
            *world,
            old(rng).seed(),
            old(rng).draws(),
        ),
{
    let w_bits = int_to_bits(width as u64);
    let h_bits = int_to_bits(height as u64);
    let rap_w = div_bits(ONE_BITS, w_bits);
    let rap_h = div_bits(ONE_BITS, w_bits);
    let rand_x = sub_bits(mul_bits(rng.unit_float(), rap_w), div_bits(rap_w, TWO_BITS));
    let rand_y = sub_bits(mul_bits(rng.unit_float(), rap_h), div_bits(rap_h, TWO_BITS));
    let ray = camera.get_origin_ray(
        div_bits(w_bits, h_bits),
        add_bits(div_bits(int_to_bits(i as u64), w_bits), rand_x),
        add_bits(div_bits(int_to_bits(j as u64), h_bits), rand_y),
        rng,
    );
    let color = get_color(&ray, world, 0, rng);
    PixelData { pixel: color, x: i, y: j }
}

/// The seed of the sample `p` of pixel (i, j): the root seed, with the
/// sample's coordinates folded into separate bit ranges.
pub open spec fn spec_sample_seed(seed: u64, i: usize, j: usize, p: u64) -> u64 {
    seed ^ ((i as u64) << 42) ^ ((j as u64) << 21) ^ p
}

fn sample_seed(seed: u64, i: usize, j: usize, p: u64) -> (r: u64)
    ensures
        r == spec_sample_seed(seed, i, j, p),
{
    seed ^ ((i as u64) << 42u64) ^ ((j as u64) << 21u64) ^ p
}

/// The sum of the first `p` sample colours of pixel (i, j), each gathered
/// under its own sample seed.
pub open spec fn spec_pixel_sum(
    i: usize,
    j: usize,
    width: usize,
    height: usize,
    cam: Camera,
    world: BoundingBoxNode,
    seed: u64,
    p: nat,
) -> Vec3
    decreases p,
{
    if p == 0 {
        spec_vec3(ZERO_BITS, ZERO_BITS, ZERO_BITS)
    } else {
        spec_plus(
            spec_pixel_sum(i, j, width, height, cam, world, seed, (p - 1) as nat),
            spec_render_sample(
                i,
                j,
                width,
                height,
                cam,
                world,
                spec_sample_seed(seed, i, j, (p - 1) as u64),
                0,
            ).0.pixel,
        )
    }
}

/// What a finished render leaves in the accumulator: every pixel holds
/// exactly `passes` samples, and its sum is the fold of its sample colours
/// under the root seed.
pub open spec fn render_post(
    b: ImageBuilder,
    width: usize,
    height: usize,
    passes: usize,
    cam: Camera,
    world: BoundingBoxNode,
    seed: u64,
) -> bool {
    &&& b.wf()
    &&& b.width == width
    &&& b.height == height
    &&& b.max_passes == passes
    &&& forall|j: int, i: int|
        0 <= j < height && 0 <= i < width ==> (#[trigger] b.passes@[j]@[i]) == passes
    &&& forall|j: int, i: int|
        0 <= j < height && 0 <= i < width ==> (#[trigger] b.pixels@[j]@[i]) == spec_pixel_sum(
            i as usize,
            j as usize,
            width,
            height,
            cam,
            world,
            seed,
            passes as nat,
        )
}

/// Renders the scene into a fresh accumulator: `passes` samples for every
/// pixel, each sample from its own deterministically seeded generator, so
/// the result is a function of the scene, the size and the root seed alone.
pub fn render(scene: &Scene, width: usize, height: usize, passes: usize, seed: u64) -> (b:
    ImageBuilder)
    requires
        scene.accelerator is Some,
        passes as int <= u64::MAX,
        (width as int) * (height as int) < usize::MAX,
    ensures
        render_post(
            b,
            width,
            height,
            passes,
            scene.camera,
            scene.accelerator->Some_0,
            seed,
        ),
{
    let world = scene.accelerator.as_ref().unwrap();
    let mut builder = ImageBuilder::new(width, height, passes);
    let mut i: usize = 0;
    while i < width
        invariant
            i <= width,
            (width as int) * (height as int) < usize::MAX,
            passes as int <= u64::MAX,
            scene.accelerator is Some,
            *world == scene.accelerator->Some_0,
            builder.wf(),
            builder.width == width,
            builder.height == height,
            builder.max_passes == passes,
            builder.finished == (if passes > 0 {
                i as int * height as int
            } else {
                0int
            }),
            forall|j2: int, i2: int|
                0 <= j2 < height && 0 <= i2 < width ==> (#[trigger] builder.passes@[j2]@[i2]) == (
                if i2 < i {
                    passes as int
                } else {
                    0int
                }),
            forall|j2: int, i2: int|
                0 <= j2 < height && i <= i2 < width ==> (#[trigger] builder.pixels@[j2]@[i2])
                    == spec_vec3(ZERO_BITS, ZERO_BITS, ZERO_BITS),
            forall|j2: int, i2: int|
                0 <= j2 < height && 0 <= i2 < i ==> (#[trigger] builder.pixels@[j2]@[i2])
                    == spec_pixel_sum(
                    i2 as usize,
                    j2 as usize,
                    width,
                    height,
                    scene.camera,
                    scene.accelerator->Some_0,
                    seed,
                    passes as nat,
                ),
        decreases width - i,
    {
        let mut j: usize = 0;
        proof {
            assert(i as int * height as int + height as int == (i + 1) as int * height as int)
                by (nonlinear_arith);
            assert((i + 1) as int * height as int <= width as int * height as int)
                by (nonlinear_arith)
                requires
                    0 <= i,
                    i + 1 <= width as int,
                    0 <= height as int,
            ;
        }
        while j < height
            invariant
                i < width,
                j <= height,
                (width as int) * (height as int) < usize::MAX,
                passes as int <= u64::MAX,
                i as int * height as int + height as int <= width as int * height as int,
                scene.accelerator is Some,
                *world == scene.accelerator->Some_0,
                builder.wf(),
                builder.width == width,
                builder.height == height,
                builder.max_passes == passes,
                builder.finished == (if passes > 0 {
                    i as int * height as int + j as int
                } else {
                    0int
                }),
                forall|j2: int, i2: int|
                    0 <= j2 < height && 0 <= i2 < width ==> (#[trigger] builder.passes@[j2]@[i2])
                        == (if i2 < i || (i2 == i && j2 < j) {
                        passes as int
                    } else {
                        0int
                    }),
                forall|j2: int, i2: int|
                    0 <= j2 < height && 0 <= i2 < width && (i2 > i || (i2 == i && j2 >= j)) ==> (
                    #[trigger] builder.pixels@[j2]@[i2]) == spec_vec3(
                        ZERO_BITS,
                        ZERO_BITS,
                        ZERO_BITS,
                    ),
                forall|j2: int, i2: int|
                    0 <= j2 < height && 0 <= i2 < width && (i2 < i || (i2 == i && j2 < j)) ==> (
                    #[trigger] builder.pixels@[j2]@[i2]) == spec_pixel_sum(
                        i2 as usize,
                        j2 as usize,
                        width,
                        height,
                        scene.camera,
                        scene.accelerator->Some_0,
                        seed,
                        passes as nat,
                    ),
            decreases height - j,
        {
            let mut p: usize = 0;
            while p < passes
                invariant
                    i < width,
                    j < height,
                    p <= passes,
                    (width as int) * (height as int) < usize::MAX,
                    passes as int <= u64::MAX,
                    i as int * height as int + j as int + 1 <= width as int * height as int,
                    scene.accelerator is Some,
                    *world == scene.accelerator->Some_0,
                    builder.wf(),
                    builder.width == width,
                    builder.height == height,
                    builder.max_passes == passes,
                    builder.finished == (if passes > 0 {
                        i as int * height as int + j as int + (if p == passes {
                            1int
                        } else {
                            0int
                        })
                    } else {
                        0int
                    }),
                    builder.passes@[j as int]@[i as int] == p,
                    builder.pixels@[j as int]@[i as int] == spec_pixel_sum(
                        i,
                        j,
                        width,
                        height,
                        scene.camera,
                        scene.accelerator->Some_0,
                        seed,
                        p as nat,
                    ),
                    forall|j2: int, i2: int|
                        0 <= j2 < height && 0 <= i2 < width && !(i2 == i && j2 == j) ==> (
                        #[trigger] builder.passes@[j2]@[i2]) == (if i2 < i || (i2 == i && j2 < j) {
                            passes as int
                        } else {
                            0int
                        }),
                    forall|j2: int, i2: int|
                        0 <= j2 < height && 0 <= i2 < width && !(i2 == i && j2 == j) && (i2 > i
                            || (i2 == i && j2 >= j)) ==> (#[trigger] builder.pixels@[j2]@[i2])
                            == spec_vec3(ZERO_BITS, ZERO_BITS, ZERO_BITS),
                    forall|j2: int, i2: int|
                        0 <= j2 < height && 0 <= i2 < width && !(i2 == i && j2 == j) && (i2 < i
                            || (i2 == i && j2 < j)) ==> (#[trigger] builder.pixels@[j2]@[i2])
                            == spec_pixel_sum(
                            i2 as usize,
                            j2 as usize,
                            width,
                            height,
                            scene.camera,
                            scene.accelerator->Some_0,
                            seed,
                            passes as nat,
                        ),
                decreases passes - p,
            {
                let s = sample_seed(seed, i, j, p as u64);
                let mut rng = WorkerRng::new(s);
                let data = render_sample(i, j, width, height, &scene.camera, world, &mut rng);
                proof {
                    assert(data.x == i && data.y == j);
                }
                builder.put_pixel(data.pixel, data.y, data.x);
                p = p + 1;
            }
            j = j + 1;
        }
        i = i + 1;
    }
    builder
}

/// Two renders of the same scene at the same size, sample count and root
/// seed agree on every pixel's sum and sample count.
pub proof fn lemma_render_deterministic(
    b1: ImageBuilder,
    b2: ImageBuilder,
    width: usize,
    height: usize,
    passes: usize,
    cam: Camera,
    world: BoundingBoxNode,
    seed: u64,
)
    requires
        render_post(b1, width, height, passes, cam, world, seed),
        render_post(b2, width, height, passes, cam, world, seed),
    ensures
        forall|j: int, i: int|
            0 <= j < height && 0 <= i < width ==> (#[trigger] b1.pixels@[j]@[i])
                == b2.pixels@[j]@[i] && (#[trigger] b1.passes@[j]@[i]) == b2.passes@[j]@[i],
{
}

} // verus!
