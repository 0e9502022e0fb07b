//! The tree, the integrator, the accumulator and the renderer: equivalence
//! of the tree query with a linear scan, the end-to-end radiance scenarios,
//! and byte-identical deterministic renders.
use rustracer::accelerator::{BoundingBoxNode, BvhChild};
use rustracer::{
    gen_random_sphere, get_color, get_metal, render, BaseMaterial, BoundingBox, DiffuseLight,
    HitRecord, ImageBuilder, Material, Metal, ConstantTexture, Ray, Scene, Sphere, Vec3, WorkerRng,
};

fn b(x: f64) -> u64 {
    x.to_bits()
}

fn f(x: u64) -> f64 {
    f64::from_bits(x)
}

fn v3(x: f64, y: f64, z: f64) -> Vec3 {
    Vec3::new(b(x), b(y), b(z))
}

fn random_world(n: usize, seed: u64) -> Vec<rustracer::Object> {
    let mut rng = WorkerRng::new(seed);
    let mut objects = Vec::new();
    for _ in 0..n {
        objects.push(gen_random_sphere(&mut rng));
    }
    objects
}

fn check_boxes(c: &BvhChild) {
    if let BvhChild::Node(n) = c {
        let lb = n.left.bounding_box();
        let rb = n.right.bounding_box();
        let sb = BoundingBox::surrounding_box(&lb, &rb);
        assert!(n.bbox == sb);
        for (inner, outer) in [(&lb, &n.bbox), (&rb, &n.bbox)] {
            assert!(f(outer.min.x) <= f(inner.min.x));
            assert!(f(outer.min.y) <= f(inner.min.y));
            assert!(f(outer.min.z) <= f(inner.min.z));
            assert!(f(outer.max.x) >= f(inner.max.x));
            assert!(f(outer.max.y) >= f(inner.max.y));
            assert!(f(outer.max.z) >= f(inner.max.z));
        }
        check_boxes(&n.left);
        check_boxes(&n.right);
    }
}

#[test]
fn tree_boxes_envelop_children() {
    let objects = random_world(25, 3);
    let tree = BoundingBoxNode::new(&objects);
    check_boxes(&BvhChild::Node(Box::new(tree)));
}

#[test]
fn tree_build_is_deterministic() {
    let objects = random_world(20, 17);
    let t1 = BoundingBoxNode::new(&objects);
    let t2 = BoundingBoxNode::new(&objects);
    assert!(t1.bounding_box() == t2.bounding_box());
    let mut rng = WorkerRng::new(5);
    for _ in 0..50 {
        let origin = Vec3::random_unit(&mut rng).scale(b(8.0));
        let dir = Vec3::random_unit(&mut rng);
        let ray = Ray::new(origin, dir, b(0.0));
        let mut r1 = HitRecord::new();
        let mut r2 = HitRecord::new();
        let h1 = t1.hit(&ray, b(0.001), b(f64::MAX), &mut r1);
        let h2 = t2.hit(&ray, b(0.001), b(f64::MAX), &mut r2);
        assert_eq!(h1, h2);
        if h1 {
            assert_eq!(r1.t, r2.t);
        }
    }
}

#[test]
fn tree_query_equals_linear_scan() {
    let objects = random_world(100, 23);
    let tree = BoundingBoxNode::new(&objects);
    let mut rng = WorkerRng::new(29);
    let mut hits = 0usize;
    for _ in 0..300 {
        let origin = Vec3::random_unit(&mut rng).scale(b(6.0));
        let dir = Vec3::random_unit(&mut rng);
        let ray = Ray::new(origin, dir, b(0.0));
        let mut tree_rec = HitRecord::new();
        let mut scan_rec = HitRecord::new();
        let th = tree.hit(&ray, b(0.001), b(f64::MAX), &mut tree_rec);
        let sh = rustracer::hitable::hit_list(
            &objects,
            &ray,
            b(0.001),
            b(f64::MAX),
            &mut scan_rec,
        );
        assert_eq!(th, sh);
        if th {
            hits += 1;
            assert!((f(tree_rec.t) - f(scan_rec.t)).abs() < 1e-9);
            assert_eq!(tree_rec.t, scan_rec.t);
        }
    }
    assert!(hits > 0, "the sample rays should hit something");
}

#[test]
fn empty_world_sky_gradient() {
    // a single sphere far off to the side: the upward ray misses everything
    let far = Sphere::new(
        BaseMaterial::Plain(Material::new(v3(0.5, 0.5, 0.5))),
        b(1.0),
        v3(100.0, 0.0, 0.0),
    );
    let tree = BoundingBoxNode::new(&vec![far]);
    let ray = Ray::new(v3(0.0, 0.0, 0.0), v3(0.0, 1.0, 0.0), b(0.0));
    let mut rng = WorkerRng::new(1);
    let c = get_color(&ray, &tree, 0, &mut rng);
    let t = 0.5 * (1.0 + 1.0);
    assert_eq!(f(c.x), 1.0 + 0.5 * t);
    assert_eq!(f(c.y), 1.0 + 0.7 * t);
    assert_eq!(f(c.z), 1.0 + 1.0 * t);
    assert!((f(c.x) - 1.5).abs() < 1e-12);
    assert!((f(c.y) - 1.7).abs() < 1e-12);
    assert!((f(c.z) - 2.0).abs() < 1e-12);
}

#[test]
fn emissive_sphere_radiance_is_its_emission() {
    let light = Sphere::new(
        BaseMaterial::Light(DiffuseLight::new(v3(4.0, 4.0, 4.0))),
        b(1.0),
        v3(0.0, 0.0, -3.0),
    );
    let tree = BoundingBoxNode::new(&vec![light]);
    let ray = Ray::new(v3(0.0, 0.0, 0.0), v3(0.0, 0.0, -1.0), b(0.0));
    for depth in [0, 10, 49, 50, 90] {
        let mut rng = WorkerRng::new(2);
        let c = get_color(&ray, &tree, depth, &mut rng);
        assert_eq!(f(c.x), 4.0);
        assert_eq!(f(c.y), 4.0);
        assert_eq!(f(c.z), 4.0);
    }
}

#[test]
fn reflective_floor_radiance_is_finite() {
    let floor = Sphere::new(
        BaseMaterial::Metallic(Metal::new(ConstantTexture::new(v3(1.0, 1.0, 1.0)), b(0.0))),
        b(100.0),
        v3(0.0, -100.0, 5.0),
    );
    let tree = BoundingBoxNode::new(&vec![floor]);
    let camera = rustracer::Camera::new(v3(0.0, 2.0, -5.0), v3(0.0, 0.0, 0.0), v3(0.0, 1.0, 0.0));
    for seed in 0..20u64 {
        let mut rng = WorkerRng::new(seed);
        let ray = camera.get_origin_ray(b(4.0 / 3.0), b(0.5), b(0.6), &mut rng);
        let c = get_color(&ray, &tree, 0, &mut rng);
        assert!(f(c.x).is_finite() && f(c.y).is_finite() && f(c.z).is_finite(), "seed {seed}");
    }
}

#[test]
fn accumulator_counts_and_means() {
    let mut builder = ImageBuilder::new(4, 3, 5);
    let contributions = [1.0f64, 2.0, 3.0, 4.0, 5.0];
    for &c in contributions.iter() {
        builder.put_pixel(v3(c, 2.0 * c, 0.5), 1, 2);
    }
    let img = builder.to_image();
    let px = img.get_pixel(1, 2);
    let sum: f64 = contributions.iter().sum();
    assert_eq!(f(px.x), sum / 5.0);
    assert_eq!(f(px.y), 2.0 * sum / 5.0);
    assert_eq!(f(px.z), 0.5 * 5.0 / 5.0);
}

#[test]
fn accumulator_is_independent_of_pixel_interleaving() {
    // the same per-pixel sample streams, delivered in two different global
    // orders, leave the same sums and counts
    let mut one = ImageBuilder::new(2, 1, 2);
    let mut two = ImageBuilder::new(2, 1, 2);
    let a = [v3(1.0, 0.0, 0.0), v3(0.25, 0.0, 0.0)];
    let c = [v3(0.0, 2.0, 0.0), v3(0.0, 0.125, 0.0)];
    one.put_pixel(a[0], 0, 0);
    one.put_pixel(a[1], 0, 0);
    one.put_pixel(c[0], 0, 1);
    one.put_pixel(c[1], 0, 1);
    two.put_pixel(c[0], 0, 1);
    two.put_pixel(a[0], 0, 0);
    two.put_pixel(c[1], 0, 1);
    two.put_pixel(a[1], 0, 0);
    assert!(one.is_finished() == two.is_finished());
    let i1 = one.to_image();
    let i2 = two.to_image();
    for x in 0..2 {
        assert!(i1.get_pixel(0, x) == i2.get_pixel(0, x));
    }
}

#[test]
fn pixel_strings_render_decimal_components() {
    let v = v3(1.0, 0.0, 0.5);
    let s = v.to_pixel_string(b(0.0), b(1.0));
    assert_eq!(s, "255 0 127");
}

#[test]
fn image_body_breaks_lines_every_third_pixel() {
    let mut img = rustracer::Image::new(3, 2);
    for y in 0..2 {
        for x in 0..3 {
            img.put_pixel(v3(x as f64, y as f64, 0.0), y, x);
        }
    }
    let body = img.to_string();
    let pixels: Vec<&str> = body.split(['\t', '\n']).filter(|s| !s.is_empty()).collect();
    assert_eq!(pixels.len(), 6);
    assert_eq!(body.matches('\n').count(), 2);
    // the extrema are 0 and 2, so a channel value of 2 reads as 255
    assert!(pixels[5].starts_with("255 127 0") || pixels[5].starts_with("255 127"));
}

#[test]
fn scene_builds_and_hits_through_accelerator() {
    let mut scene = Scene::new();
    scene.add_object(Sphere::new(
        BaseMaterial::Metallic(get_metal()),
        b(100.0),
        v3(0.0, -100.0, 5.0),
    ));
    let mut rng = WorkerRng::new(31);
    for _ in 0..10 {
        scene.add_object(gen_random_sphere(&mut rng));
    }
    scene.build_accelerator();
    let ray = Ray::new(v3(0.0, 2.0, -5.0), v3(0.0, -0.6, 0.8), b(0.0));
    let mut rec = HitRecord::new();
    let hit = scene.hit(&ray, b(0.001), b(f64::MAX), &mut rec);
    assert!(hit);
    assert!(f(rec.t) > 0.001);
}

#[test]
fn deterministic_render_gives_identical_output() {
    let mut scene = Scene::new();
    scene.add_object(Sphere::new(
        BaseMaterial::Metallic(get_metal()),
        b(100.0),
        v3(0.0, -100.0, 5.0),
    ));
    let mut rng = WorkerRng::new(64);
    for _ in 0..4 {
        scene.add_object(gen_random_sphere(&mut rng));
    }
    scene.build_accelerator();
    let width = 8usize;
    let height = 8usize;
    let b1 = render(&scene, width, height, 2, 12345);
    let b2 = render(&scene, width, height, 2, 12345);
    let i1 = b1.to_image();
    let i2 = b2.to_image();
    for y in 0..height {
        for x in 0..width {
            assert!(i1.get_pixel(y, x) == i2.get_pixel(y, x));
        }
    }
    let p1 = format!("P3 \n{} {}\n255\n{}", width, height, i1.to_string());
    let p2 = format!("P3 \n{} {}\n255\n{}", width, height, i2.to_string());
    assert_eq!(p1, p2);
    assert!(p1.starts_with("P3 \n8 8\n255\n"));
}

#[test]
fn basic_scene_hook_runs() {
    rustracer::basic_scene();
}

#[test]
fn random_material_kinds_are_seed_deterministic() {
    let mut r1 = WorkerRng::new(77);
    let mut r2 = WorkerRng::new(77);
    for _ in 0..12 {
        let m1 = rustracer::gen_random_material(&mut r1);
        let m2 = rustracer::gen_random_material(&mut r2);
        assert!(m1 == m2);
    }
    let metal = get_metal();
    assert_eq!(f(metal.fuzz), 0.05);
}

#[test]
fn nearest_of_two_spheres_wins_with_its_material() {
    let near_mat = BaseMaterial::Plain(Material::new(v3(0.9, 0.1, 0.1)));
    let far_mat = BaseMaterial::Light(DiffuseLight::new(v3(0.0, 1.0, 0.0)));
    let near = Sphere::new(near_mat, b(1.0), v3(0.0, 0.0, -3.0));
    let far = Sphere::new(far_mat, b(1.0), v3(0.0, 0.0, -8.0));
    for objects in [vec![near, far], vec![far, near]] {
        let tree = BoundingBoxNode::new(&objects);
        let ray = Ray::new(v3(0.0, 0.0, 0.0), v3(0.0, 0.0, -1.0), b(0.0));
        let mut rec = HitRecord::new();
        assert!(tree.hit(&ray, b(0.001), b(f64::MAX), &mut rec));
        assert_eq!(f(rec.t), 2.0);
        assert!(rec.material.unwrap() == near_mat);
        let mut scan_rec = HitRecord::new();
        assert!(rustracer::hitable::hit_list(
            &objects,
            &ray,
            b(0.001),
            b(f64::MAX),
            &mut scan_rec
        ));
        assert_eq!(scan_rec.t, rec.t);
        assert!(scan_rec.material.unwrap() == near_mat);
    }
}

#[test]
fn simple_shading_returns_emission_or_sky() {
    let light = Sphere::new(
        BaseMaterial::Light(DiffuseLight::new(v3(4.0, 4.0, 4.0))),
        b(1.0),
        v3(0.0, 0.0, -3.0),
    );
    let tree = BoundingBoxNode::new(&vec![light]);
    let hit_ray = Ray::new(v3(0.0, 0.0, 0.0), v3(0.0, 0.0, -1.0), b(0.0));
    let c = rustracer::get_color_simple(&hit_ray, &tree);
    assert_eq!((f(c.x), f(c.y), f(c.z)), (4.0, 4.0, 4.0));
    let miss_ray = Ray::new(v3(0.0, 0.0, 0.0), v3(0.0, 1.0, 0.0), b(0.0));
    let sky = rustracer::get_color_simple(&miss_ray, &tree);
    assert!((f(sky.x) - 1.5).abs() < 1e-12);
}
