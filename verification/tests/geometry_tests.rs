//! Geometry: sphere intersection with its boundary cases, normals,
//! reflection, rotations, and the camera's unit ray directions.
use rustracer::{
    BaseMaterial, Camera, HitRecord, Material, Primitive, Sphere, Vec3, WorkerRng,
};

fn b(x: f64) -> u64 {
    x.to_bits()
}

fn f(x: u64) -> f64 {
    f64::from_bits(x)
}

fn v3(x: f64, y: f64, z: f64) -> Vec3 {
    Vec3::new(b(x), b(y), b(z))
}

fn fv(v: Vec3) -> (f64, f64, f64) {
    (f(v.x), f(v.y), f(v.z))
}

fn grey() -> BaseMaterial {
    BaseMaterial::Plain(Material::new(v3(0.5, 0.5, 0.5)))
}

#[test]
fn sphere_head_on_hit() {
    let obj = Sphere::new(grey(), b(1.0), v3(0.0, 0.0, -2.0));
    let ray = rustracer::Ray::new(v3(0.0, 0.0, 0.0), v3(0.0, 0.0, -1.0), b(0.0));
    let d = obj.object.find_intersection(&ray);
    assert_eq!(f(d), 1.0);
    let mut rec = HitRecord::new();
    let hit = obj.hit(&ray, b(0.001), b(f64::MAX), &mut rec);
    assert!(hit);
    assert_eq!(f(rec.t), 1.0);
    assert_eq!(fv(rec.p.unwrap()), (0.0, 0.0, -1.0));
    assert_eq!(fv(rec.normal.unwrap()), (0.0, 0.0, 1.0));
    assert!(rec.material.unwrap() == grey());
}

#[test]
fn sphere_tangent_graze_misses() {
    // the ray passes exactly one radius away from the centre: the
    // discriminant is exactly zero and no hit is reported
    let obj = Sphere::new(grey(), b(1.0), v3(0.0, 0.0, -2.0));
    let ray = rustracer::Ray::new(v3(1.0, 0.0, 0.0), v3(0.0, 0.0, -1.0), b(0.0));
    let d = obj.object.find_intersection(&ray);
    assert_eq!(f(d), -1.0);
    let mut rec = HitRecord::new();
    assert!(!obj.hit(&ray, b(0.001), b(f64::MAX), &mut rec));
}

#[test]
fn sphere_enclosing_origin_returns_exit_root() {
    // the ray starts inside: the entry root is negative, so the reported
    // distance is where the ray leaves the sphere
    let obj = Sphere::new(grey(), b(2.0), v3(0.0, 0.0, 0.0));
    let ray = rustracer::Ray::new(v3(0.0, 0.0, 0.0), v3(0.0, 0.0, 1.0), b(0.0));
    let d = obj.object.find_intersection(&ray);
    assert_eq!(f(d), 2.0);
}

#[test]
fn surface_origin_no_self_hit() {
    // a ray starting on the surface with the 0.001 floor reports the far
    // side, never the zero root under its origin
    let obj = Sphere::new(grey(), b(1.0), v3(0.0, 0.0, -2.0));
    let ray = rustracer::Ray::new(v3(0.0, 0.0, -1.0), v3(0.0, 0.0, -1.0), b(0.0));
    let mut rec = HitRecord::new();
    let hit = obj.hit(&ray, b(0.001), b(f64::MAX), &mut rec);
    assert!(hit);
    assert_eq!(f(rec.t), 2.0);
    assert!(f(rec.t) > 0.001);
}

#[test]
fn sphere_normals_are_unit_and_outward() {
    let centre = v3(1.0, -2.0, 3.0);
    let prim = Primitive::Ball(rustracer::hitable::Sphere { radius: b(2.0), center: centre });
    let dirs = [
        (1.0, 0.0, 0.0),
        (0.0, 1.0, 0.0),
        (0.0, 0.0, -1.0),
        (0.6, 0.8, 0.0),
        (0.36, -0.48, 0.8),
    ];
    for &(dx, dy, dz) in dirs.iter() {
        let p = v3(1.0 + 2.0 * dx, -2.0 + 2.0 * dy, 3.0 + 2.0 * dz);
        let n = prim.get_normal_at(&p);
        let (nx, ny, nz) = fv(n);
        let len = (nx * nx + ny * ny + nz * nz).sqrt();
        assert!((len - 1.0).abs() < 1e-9);
        let ox = f(p.x) - 1.0;
        let oy = f(p.y) + 2.0;
        let oz = f(p.z) - 3.0;
        assert!(nx * ox + ny * oy + nz * oz > 0.0);
    }
}

#[test]
fn reflect_preserves_length_and_flips_normal_component() {
    let cases = [((1.0, -1.0, 0.0), (0.0, 1.0, 0.0)), ((0.3, -0.9, 0.2), (0.0, 1.0, 0.0)), (
        (-0.5, 0.25, 0.8),
        (0.6, 0.8, 0.0),
    )];
    for &((rx, ry, rz), (nx, ny, nz)) in cases.iter() {
        let r = v3(rx, ry, rz);
        let n = v3(nx, ny, nz);
        let refl = r.reflect(&n);
        let (ax, ay, az) = fv(refl);
        let dot_in = rx * nx + ry * ny + rz * nz;
        let dot_out = ax * nx + ay * ny + az * nz;
        assert!((dot_out + dot_in).abs() < 1e-12, "normal component flips");
        let len_in = (rx * rx + ry * ry + rz * rz).sqrt();
        let len_out = (ax * ax + ay * ay + az * az).sqrt();
        assert!((len_in - len_out).abs() < 1e-12, "length is kept");
    }
}

#[test]
fn rotations_move_axes_onto_axes() {
    let x = v3(1.0, 0.0, 0.0);
    let half_pi = std::f64::consts::FRAC_PI_2;
    let r = x.rotate_z(b(half_pi));
    let (rx, ry, rz) = fv(r);
    assert!((rx - 0.0).abs() < 1e-15 && (ry - 1.0).abs() < 1e-15 && rz == 0.0);
    let y = v3(0.0, 1.0, 0.0);
    let r2 = y.rotate_x(b(half_pi));
    let (qx, qy, qz) = fv(r2);
    assert!(qx == 0.0 && (qy - 0.0).abs() < 1e-15 && (qz - 1.0).abs() < 1e-15);
}

#[test]
fn random_unit_has_unit_length() {
    let mut rng = WorkerRng::new(11);
    for _ in 0..32 {
        let v = Vec3::random_unit(&mut rng);
        let (x, y, z) = fv(v);
        let len = (x * x + y * y + z * z).sqrt();
        assert!((len - 1.0).abs() < 1e-9);
    }
}

#[test]
fn random_in_disk_stays_inside() {
    let mut rng = WorkerRng::new(13);
    for _ in 0..64 {
        let v = Vec3::random_in_disk(&mut rng);
        let (x, y, z) = fv(v);
        assert!(z == 0.0);
        assert!(x * x + y * y <= 1.0 + 1e-12);
    }
}

#[test]
fn camera_rays_have_unit_direction() {
    let camera = Camera::new(v3(0.0, 2.0, -5.0), v3(0.0, 0.0, 0.0), v3(0.0, 1.0, 0.0));
    let mut rng = WorkerRng::new(5);
    let aspects = [0.5f64, 1.0, 4.0 / 3.0, 16.0 / 9.0];
    let coords = [0.0f64, 0.25, 0.5, 0.75, 1.0];
    for &aspect in aspects.iter() {
        for &u in coords.iter() {
            for &v in coords.iter() {
                let ray = camera.get_origin_ray(b(aspect), b(u), b(v), &mut rng);
                let (dx, dy, dz) = fv(ray.direction);
                let len = (dx * dx + dy * dy + dz * dz).sqrt();
                assert!((len - 1.0).abs() < 1e-9, "aspect {aspect} u {u} v {v}");
            }
        }
    }
}

#[test]
fn camera_screen_height_matches_field_of_view() {
    let camera = Camera::new(v3(0.0, 2.0, -5.0), v3(0.0, 0.0, 0.0), v3(0.0, 1.0, 0.0));
    let h = f(camera.screen_height());
    let expected = 2.0 * (55.0f64.to_radians() / 2.0).tan();
    assert!((h - expected).abs() < 1e-12);
    assert_eq!(f(camera.get_aperture()), 0.0);
    assert!((f(camera.get_angle()) - 55.0f64.to_radians()).abs() < 1e-15);
}

#[test]
fn set_angle_stores_radians() {
    let mut camera = Camera::new(v3(0.0, 2.0, -5.0), v3(0.0, 0.0, 0.0), v3(0.0, 1.0, 0.0));
    camera.set_angle(b(90.0));
    assert!((f(camera.get_angle()) - 90.0f64.to_radians()).abs() < 1e-15);
}

#[test]
fn camera_basis_is_derived_from_look_at() {
    let camera = Camera::new(v3(0.0, 0.0, -5.0), v3(0.0, 0.0, 0.0), v3(0.0, 1.0, 0.0));
    let (dx, dy, dz) = fv(camera.get_direction());
    assert!((dx, dy) == (0.0, 0.0) && (dz - 1.0).abs() < 1e-12);
    let up = camera.get_up();
    let (ux, uy, uz) = fv(up);
    assert!(ux.abs() < 1e-12 && (uy - 1.0).abs() < 1e-12 && uz.abs() < 1e-12);
}
