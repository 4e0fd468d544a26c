use libvector::{DynamicVector, Vector, Vector2, Vector3, Vector4};

fn b(x: f64) -> u64 {
    x.to_bits()
}

fn f(x: u64) -> f64 {
    f64::from_bits(x)
}

fn dyn_of(values: &[f64]) -> DynamicVector {
    let mut v = DynamicVector::new(values.len());
    for (i, x) in values.iter().enumerate() {
        v.set(i, b(*x));
    }
    v
}

#[test]
fn dot_is_commutative() {
    let a2 = Vector2::new(b(1.5), b(-2.0));
    let b2 = Vector2::new(b(3.25), b(0.5));
    assert_eq!(a2.dot(&b2), b2.dot(&a2));

    let a3 = Vector3::new(b(1.), b(2.), b(3.));
    let b3 = Vector3::new(b(-4.), b(5.5), b(6.));
    assert_eq!(a3.dot(&b3), b3.dot(&a3));

    let a4 = Vector4::new(b(1.), b(2.), b(3.), b(4.));
    let b4 = Vector4::new(b(5.), b(-6.), b(7.5), b(8.));
    assert_eq!(a4.dot(&b4), b4.dot(&a4));

    let ad = dyn_of(&[1.0, -2.5, 3.0]);
    let bd = dyn_of(&[4.0, 5.0, -6.5]);
    assert_eq!(ad.dot(&bd), bd.dot(&ad));
}

#[test]
fn magnitude_is_nonnegative_and_zero_only_at_zero() {
    let samples = [
        Vector2::new(b(-3.), b(4.)),
        Vector2::new(b(0.5), b(-0.25)),
        Vector2::new(b(-0.0), b(0.0)),
    ];
    for v in samples.iter() {
        let m = f(v.magnitude());
        assert!(m >= 0.0);
    }
    // Zero exactly for the all-zero vector, signs of zero notwithstanding.
    assert_eq!(f(Vector2::new(b(0.0), b(-0.0)).magnitude()), 0.0);
    // Components so small that their squares underflow to zero (around
    // 1e-300 and below) give magnitude zero as well; stay above that.
    assert!(f(Vector2::new(b(1e-150), b(0.0)).magnitude()) > 0.0);
    assert_eq!(f(dyn_of(&[0.0, 0.0, 0.0]).magnitude()), 0.0);
    assert!(f(dyn_of(&[0.0, 2.0, 0.0]).magnitude()) > 0.0);
}

#[test]
fn normalized_magnitude_is_close_to_one() {
    let v2 = Vector2::new(b(3.), b(4.));
    assert!((f(v2.normalize().magnitude()) - 1.0).abs() < 1e-12);

    let v3 = Vector3::new(b(1.), b(2.), b(3.));
    assert!((f(v3.normalize().magnitude()) - 1.0).abs() < 1e-12);

    let v4 = Vector4::new(b(1.), b(2.), b(3.), b(4.));
    assert!((f(v4.normalize().magnitude()) - 1.0).abs() < 1e-12);

    let vd = dyn_of(&[1.0, -2.0, 2.0]);
    assert!((f(vd.normalize().magnitude()) - 1.0).abs() < 1e-12);
}

#[test]
fn cross_3d_is_anticommutative() {
    let a = Vector3::new(b(1.), b(2.), b(3.));
    let v = Vector3::new(b(4.), b(5.5), b(-6.));
    let ab = a.cross(&v);
    let ba = v.cross(&a);
    assert_eq!(f(ab.x), -f(ba.x));
    assert_eq!(f(ab.y), -f(ba.y));
    assert_eq!(f(ab.z), -f(ba.z));
}

#[test]
fn cross_3d_of_a_vector_with_itself_is_zero() {
    let a = Vector3::new(b(1.5), b(-2.), b(3.25));
    let c = a.cross(&a);
    assert_eq!(c, Vector3::new(b(0.), b(0.), b(0.)));
}

#[test]
fn cross_2d_is_anticommutative() {
    let a = Vector2::new(b(1.5), b(2.));
    let v = Vector2::new(b(-3.), b(4.25));
    assert_eq!(f(a.cross(&v)), -f(v.cross(&a)));
}

#[test]
fn array_and_tuple_round_trips() {
    let v2 = Vector2::new(b(1.), b(-2.5));
    assert_eq!(Vector2::from_array(v2.to_array()), v2);
    assert_eq!(Vector2::from_tuple(v2.to_tuple()), v2);

    let v3 = Vector3::new(b(1.), b(2.), b(3.));
    assert_eq!(Vector3::from_array(v3.to_array()), v3);
    assert_eq!(Vector3::from_tuple(v3.to_tuple()), v3);

    let v4 = Vector4::new(b(1.), b(2.), b(3.), b(4.));
    assert_eq!(Vector4::from_array(v4.to_array()), v4);
    assert_eq!(Vector4::from_tuple(v4.to_tuple()), v4);
}

#[test]
fn add_then_sub_returns_the_start() {
    let a = Vector2::new(b(1.5), b(-2.25));
    let v = Vector2::new(b(4.), b(8.5));
    let r = a.add(v).sub(v);
    assert!((f(r.x) - 1.5).abs() < 1e-12);
    assert!((f(r.y) + 2.25).abs() < 1e-12);
}

#[test]
fn mul_then_div_returns_the_start() {
    let a = Vector3::new(b(1.), b(-2.), b(3.5));
    let s = b(2.5);
    let r = a.mul(s).div(s);
    assert!((f(r.x) - 1.0).abs() < 1e-12);
    assert!((f(r.y) + 2.0).abs() < 1e-12);
    assert!((f(r.z) - 3.5).abs() < 1e-12);
}

#[test]
fn known_scenarios() {
    assert_eq!(Vector2::new(b(1.), b(2.)).dot(&Vector2::new(b(3.), b(4.))), b(11.));
    assert_eq!(Vector2::new(b(1.), b(2.)).cross(&Vector2::new(b(3.), b(4.))), b(-2.));
    assert_eq!(
        Vector3::new(b(1.), b(2.), b(3.)).cross(&Vector3::new(b(4.), b(5.), b(6.))),
        Vector3::new(b(-3.), b(6.), b(-3.))
    );
    assert_eq!(Vector2::new(b(3.), b(4.)).magnitude(), b(5.));
    assert_eq!(
        Vector4::new(b(1.), b(2.), b(3.), b(4.)).dot(&Vector4::new(b(5.), b(6.), b(7.), b(8.))),
        b(70.)
    );
    assert_eq!(Vector4::new(b(1.), b(2.), b(3.), b(4.)).magnitude(), b(5.477225575051661));
    let d1 = dyn_of(&[1.0, 2.0, 3.0]);
    let d2 = dyn_of(&[4.0, 5.0, 6.0]);
    assert_eq!(d1.dot(&d2), b(32.));
}

#[test]
fn normalizing_the_zero_vector_propagates_nan() {
    let z = Vector2::new(b(0.), b(0.));
    let n = z.normalize();
    assert!(f(n.x).is_nan());
    assert!(f(n.y).is_nan());
}

#[test]
fn nan_components_make_vectors_unequal_and_unordered() {
    let a = Vector2::new(b(f64::NAN), b(2.));
    assert_ne!(a, a);
    let v = Vector2::new(b(1.), b(2.));
    assert!(!(a < v));
    assert!(!(a > v));
    assert!(!(v < a));
    assert!(!(v > a));
}

#[test]
fn zeros_of_both_signs_are_equal() {
    let a = Vector2::new(b(0.0), b(-0.0));
    let v = Vector2::new(b(-0.0), b(0.0));
    assert_eq!(a, v);
    assert!(!(a < v));
    assert!(!(v < a));
}

#[test]
fn comparison_agrees_with_hardware_floats() {
    let values = [-3.5, -0.0, 0.0, 1.0, 2.5, f64::INFINITY, f64::NEG_INFINITY, f64::NAN];
    for &x in values.iter() {
        for &y in values.iter() {
            let vx = Vector2::new(b(x), b(0.0));
            let vy = Vector2::new(b(y), b(0.0));
            assert_eq!(vx == vy, x == y);
            assert_eq!(vx < vy, x < y);
            assert_eq!(vx > vy, x > y);
        }
    }
}
