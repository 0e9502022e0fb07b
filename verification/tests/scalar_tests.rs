//! Scalar layer: comparisons, arithmetic through the encoded-bits API,
//! colour conversion, and the seeded generator.
use rand::RngCore;
use rand::SeedableRng;
use rustracer::fbits::{gt_bits, le_bits, lt_bits, neg_bits};
use rustracer::{clamp, max, min, sigmoid, to_color, Vec3, WorkerRng};

fn b(x: f64) -> u64 {
    x.to_bits()
}

fn f(x: u64) -> f64 {
    f64::from_bits(x)
}

#[test]
fn comparisons_match_ieee() {
    let samples = [
        0.0f64,
        -0.0,
        1.0,
        -1.0,
        0.5,
        -0.5,
        255.0,
        1e-308,
        -1e-308,
        5e-324,
        f64::INFINITY,
        f64::NEG_INFINITY,
        f64::NAN,
        -f64::NAN,
        1e300,
        -1e300,
    ];
    for &x in samples.iter() {
        for &y in samples.iter() {
            assert_eq!(lt_bits(b(x), b(y)), x < y, "lt {x} {y}");
            assert_eq!(le_bits(b(x), b(y)), x <= y, "le {x} {y}");
            assert_eq!(gt_bits(b(x), b(y)), x > y, "gt {x} {y}");
        }
        assert_eq!(f(neg_bits(b(x))).to_bits(), (-x).to_bits(), "neg {x}");
    }
}

#[test]
fn min_max_clamp_match_source_rules() {
    assert_eq!(f(min(b(1.0), b(2.0))), 1.0);
    assert_eq!(f(min(b(2.0), b(1.0))), 1.0);
    assert_eq!(f(max(b(1.0), b(2.0))), 2.0);
    // on a tie or an unordered pair the second argument is returned
    assert_eq!(min(b(1.0), b(1.0)), b(1.0));
    assert!(f(min(b(f64::NAN), b(3.0))) == 3.0);
    assert_eq!(f(clamp(b(0.5), b(0.0), b(1.0))), 0.5);
    assert_eq!(f(clamp(b(-0.5), b(0.0), b(1.0))), 0.0);
    assert_eq!(f(clamp(b(1.5), b(0.0), b(1.0))), 1.0);
}

#[test]
fn map_matches_float_formula() {
    let cases = [(0.5, 0.0, 1.0, 0.0, 255.0), (3.0, 2.0, 4.0, 10.0, 20.0)];
    for &(x, a1, b1, a2, b2) in cases.iter() {
        let expected = (b2 - a2) * ((x - a1) / (b1 - a1)) + a2;
        assert_eq!(f(rustracer::mathutils::map(b(x), b(a1), b(b1), b(a2), b(b2))), expected);
    }
}

#[test]
fn to_color_truncates_and_clamps() {
    assert_eq!(to_color(b(0.5), b(0.0), b(1.0)), 127);
    assert_eq!(to_color(b(1.0), b(0.0), b(1.0)), 255);
    assert_eq!(to_color(b(0.0), b(0.0), b(1.0)), 0);
    assert_eq!(to_color(b(2.0), b(0.0), b(1.0)), 255);
    assert_eq!(to_color(b(-1.0), b(0.0), b(1.0)), 0);
    assert_eq!(to_color(b(f64::NAN), b(0.0), b(1.0)), 0);
    // an exact middle value: 0.25 of [0,1] maps to 63.75, truncated to 63
    assert_eq!(to_color(b(0.25), b(0.0), b(1.0)), 63);
}

#[test]
fn sigmoid_at_zero_is_half() {
    assert_eq!(f(sigmoid(b(0.0))), 0.5);
    let s = f(sigmoid(b(3.0)));
    assert!(s > 0.5 && s < 1.0);
}

#[test]
fn worker_rng_matches_seeded_std_rng() {
    let mut ours = WorkerRng::new(42);
    let mut theirs = rand::rngs::StdRng::seed_from_u64(42);
    for _ in 0..32 {
        assert_eq!(ours.draw(), theirs.next_u64());
    }
}

#[test]
fn unit_float_matches_rand_conversion() {
    let mut ours = WorkerRng::new(7);
    let mut theirs = rand::rngs::StdRng::seed_from_u64(7);
    for _ in 0..64 {
        let got = f(ours.unit_float());
        let raw = theirs.next_u64();
        let expected = (1.0f64 / (1u64 << 53) as f64) * ((raw >> 11) as f64);
        assert_eq!(got.to_bits(), expected.to_bits());
        assert!(got >= 0.0 && got < 1.0);
    }
}

#[test]
fn worker_rng_is_deterministic_per_seed() {
    let mut a = WorkerRng::new(999);
    let mut c = WorkerRng::new(999);
    for _ in 0..16 {
        assert_eq!(a.draw(), c.draw());
    }
}

#[test]
fn vector_arithmetic_matches_hardware_floats() {
    let a = Vec3::new(b(1.5), b(-2.25), b(3.125));
    let c = Vec3::new(b(0.75), b(4.5), b(-1.25));
    let s = a.plus(&c);
    assert_eq!(f(s.x), 1.5 + 0.75);
    assert_eq!(f(s.y), -2.25 + 4.5);
    assert_eq!(f(s.z), 3.125 + (-1.25));
    let d = a.minus(&c);
    assert_eq!(f(d.x), 1.5 - 0.75);
    let m = a.times(&c);
    assert_eq!(f(m.y), -2.25 * 4.5);
    let q = a.div_scalar(b(2.0));
    assert_eq!(f(q.z), 3.125 / 2.0);
    assert_eq!(f(a.dot(&c)), 1.5 * 0.75 + (-2.25) * 4.5 + 3.125 * (-1.25));
    let x = a.cross(&c);
    assert_eq!(f(x.x), (-2.25) * (-1.25) - 3.125 * 4.5);
}

#[test]
fn magnitude_and_normalize() {
    let v = Vec3::new(b(3.0), b(4.0), b(0.0));
    assert_eq!(f(v.magnitude()), 5.0);
    let n = v.normalize();
    let len = (f(n.x) * f(n.x) + f(n.y) * f(n.y) + f(n.z) * f(n.z)).sqrt();
    assert!((len - 1.0).abs() < 1e-12);
    assert_eq!(f(n.x), 3.0 * (1.0 / 5.0));
}
