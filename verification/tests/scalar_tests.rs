use mesh_viewer::bounds::BoundingBox;
use mesh_viewer::scalar::{Scalar, INFINITY_BITS, NEG_INFINITY_BITS, SIGN_BIT, ZERO_BITS};
use mesh_viewer::vector::{Vector3, Vector4};

fn scalar(x: f32) -> Scalar {
    Scalar::from_bits(x.to_bits())
}

fn number(s: Scalar) -> f32 {
    f32::from_bits(s.to_bits())
}

fn point(x: f32, y: f32, z: f32) -> Vector3 {
    Vector3::new(scalar(x), scalar(y), scalar(z))
}

fn samples() -> Vec<f32> {
    vec![
        f32::NEG_INFINITY,
        f32::MIN,
        -15.0,
        -1.0,
        -0.5,
        -f32::MIN_POSITIVE,
        -1.0e-45,
        -0.0,
        0.0,
        1.0e-45,
        f32::MIN_POSITIVE,
        0.0005,
        0.15,
        0.5,
        0.8,
        1.0,
        2.0,
        15.0,
        f32::MAX,
        f32::INFINITY,
        f32::NAN,
        -f32::NAN,
    ]
}

#[test]
fn bit_constants_are_the_named_numbers() {
    assert_eq!(ZERO_BITS, 0.0f32.to_bits());
    assert_eq!(INFINITY_BITS, f32::INFINITY.to_bits());
    assert_eq!(NEG_INFINITY_BITS, f32::NEG_INFINITY.to_bits());
    assert_eq!(SIGN_BIT, (-0.0f32).to_bits());
    assert_eq!(Scalar::zero().to_bits(), 0.0f32.to_bits());
    assert_eq!(Scalar::infinity().to_bits(), f32::INFINITY.to_bits());
    assert_eq!(Scalar::neg_infinity().to_bits(), f32::NEG_INFINITY.to_bits());
}

#[test]
fn bits_round_trip() {
    for x in samples() {
        assert_eq!(scalar(x).to_bits(), x.to_bits());
    }
    assert_eq!(Scalar::from_bits(0x3F00_0000).to_bits(), 0x3F00_0000);
}

#[test]
fn classification_agrees_with_the_hardware() {
    for x in samples() {
        let s = scalar(x);
        assert_eq!(s.is_nan(), x.is_nan(), "is_nan of {:?}", x);
        assert_eq!(s.is_finite(), x.is_finite(), "is_finite of {:?}", x);
        assert_eq!(s.is_sign_negative(), x.is_sign_negative(), "sign of {:?}", x);
    }
}

#[test]
fn order_agrees_with_the_hardware() {
    for a in samples() {
        for b in samples() {
            assert_eq!(scalar(a).lt(scalar(b)), a < b, "{:?} < {:?}", a, b);
        }
    }
}

#[test]
fn order_agrees_with_the_hardware_on_many_patterns() {
    let mut state: u64 = 0x9E37_79B9_7F4A_7C15;
    let mut pattern = || {
        state = state.wrapping_mul(6364136223846793005).wrapping_add(1442695040888963407);
        (state >> 32) as u32
    };
    for _ in 0..200_000 {
        let a = pattern();
        let b = pattern();
        let (x, y) = (f32::from_bits(a), f32::from_bits(b));
        let (p, q) = (Scalar::from_bits(a), Scalar::from_bits(b));
        assert_eq!(p.lt(q), x < y, "{:#x} < {:#x}", a, b);
        assert_eq!(p.is_nan(), x.is_nan());
        assert_eq!(p.is_finite(), x.is_finite());
        let lo = number(p.min(q));
        let hi = number(p.max(q));
        if x.min(y).is_nan() {
            assert!(lo.is_nan() && hi.is_nan());
        } else {
            assert!(lo == x.min(y) && hi == x.max(y), "{:#x}, {:#x}", a, b);
        }
    }
}

#[test]
fn negative_zero_is_not_below_zero() {
    assert!(!scalar(-0.0).lt(scalar(0.0)));
    assert!(!scalar(0.0).lt(scalar(-0.0)));
    assert_ne!(scalar(-0.0), scalar(0.0));
}

#[test]
fn min_and_max_agree_with_the_hardware() {
    for a in samples() {
        for b in samples() {
            let lo = number(scalar(a).min(scalar(b)));
            let hi = number(scalar(a).max(scalar(b)));
            let want_lo = a.min(b);
            let want_hi = a.max(b);
            if want_lo.is_nan() {
                assert!(lo.is_nan());
            } else {
                assert!(lo == want_lo, "min({:?}, {:?}) = {:?}", a, b, lo);
            }
            if want_hi.is_nan() {
                assert!(hi.is_nan());
            } else {
                assert!(hi == want_hi, "max({:?}, {:?}) = {:?}", a, b, hi);
            }
        }
    }
}

#[test]
fn min_ignores_nan_on_either_side() {
    assert_eq!(scalar(f32::NAN).min(scalar(2.0)), scalar(2.0));
    assert_eq!(scalar(2.0).min(scalar(f32::NAN)), scalar(2.0));
    assert_eq!(scalar(f32::NAN).max(scalar(-2.0)), scalar(-2.0));
    assert_eq!(scalar(-2.0).max(scalar(f32::NAN)), scalar(-2.0));
}

#[test]
fn min_keeps_the_first_of_two_equal_numbers() {
    assert_eq!(scalar(0.0).min(scalar(-0.0)).to_bits(), 0.0f32.to_bits());
    assert_eq!(scalar(-0.0).min(scalar(0.0)).to_bits(), (-0.0f32).to_bits());
    assert_eq!(scalar(0.0).max(scalar(-0.0)).to_bits(), 0.0f32.to_bits());
}

#[test]
fn vectors_keep_their_components() {
    let v = Vector3::from_bits(1, 2, 3);
    assert_eq!(v.to_bits(), [1, 2, 3]);
    assert_eq!(v, Vector3::new(Scalar::from_bits(1), Scalar::from_bits(2), Scalar::from_bits(3)));
    let w = Vector4::from_bits(1, 2, 3, 4);
    assert_eq!(w.to_bits(), [1, 2, 3, 4]);
    assert_eq!(
        w,
        Vector4::new(
            Scalar::from_bits(1),
            Scalar::from_bits(2),
            Scalar::from_bits(3),
            Scalar::from_bits(4)
        )
    );
}

#[test]
fn empty_box_is_inside_out() {
    let b = BoundingBox::empty();
    assert_eq!(b.min, point(f32::INFINITY, f32::INFINITY, f32::INFINITY));
    assert_eq!(b.max, point(f32::NEG_INFINITY, f32::NEG_INFINITY, f32::NEG_INFINITY));
}

#[test]
fn box_takes_the_first_point_as_both_corners() {
    let mut b = BoundingBox::empty();
    b.enclose(point(1.0, -2.0, 0.5));
    assert_eq!(b.min, point(1.0, -2.0, 0.5));
    assert_eq!(b.max, point(1.0, -2.0, 0.5));
}

#[test]
fn box_widens_and_never_shrinks() {
    let points = vec![
        point(0.0, 0.0, 0.0),
        point(1.0, -1.0, 0.25),
        point(0.5, 0.5, 0.5),
        point(-3.0, 0.0, 0.1),
        point(2.0, 7.0, -0.0),
        point(0.0, 0.0, 0.0),
    ];
    let mut b = BoundingBox::empty();
    for p in points {
        let before = b;
        b.enclose(p);
        assert!(number(b.min.x) <= number(before.min.x));
        assert!(number(b.min.y) <= number(before.min.y));
        assert!(number(b.min.z) <= number(before.min.z));
        assert!(number(b.max.x) >= number(before.max.x));
        assert!(number(b.max.y) >= number(before.max.y));
        assert!(number(b.max.z) >= number(before.max.z));
        assert!(number(b.min.x) <= number(p.x) && number(p.x) <= number(b.max.x));
        assert!(number(b.min.y) <= number(p.y) && number(p.y) <= number(b.max.y));
        assert!(number(b.min.z) <= number(p.z) && number(p.z) <= number(b.max.z));
    }
    assert_eq!(b.min, point(-3.0, -1.0, 0.0));
    assert_eq!(b.max, point(2.0, 7.0, 0.5));
}

#[test]
fn box_passes_over_nan_coordinates() {
    let mut b = BoundingBox::empty();
    b.enclose(point(1.0, 2.0, 3.0));
    b.enclose(point(f32::NAN, 5.0, f32::NAN));
    assert_eq!(b.min, point(1.0, 2.0, 3.0));
    assert_eq!(b.max, point(1.0, 5.0, 3.0));
}
