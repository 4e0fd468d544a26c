use libvector::{Vector, Vector3};

fn b(x: f64) -> u64 {
    x.to_bits()
}

#[test]
fn vector3_test_cross() {
    let a = Vector3::new(b(1.), b(2.), b(3.));
    let v = Vector3::new(b(4.), b(5.), b(6.));
    let cross = a.cross(&v);
    assert_eq!(cross, Vector3::new(b(-3.), b(6.), b(-3.)));
}

#[test]
fn vector3_test_dot() {
    let a = Vector3::new(b(1.), b(2.), b(3.));
    let v = Vector3::new(b(4.), b(5.), b(6.));
    let dot_product = a.dot(&v);
    assert_eq!(dot_product, b(32.));
}

#[test]
fn vector3_test_magnitude() {
    let vector = Vector3::new(b(1.), b(2.), b(3.));
    let magnitude = vector.magnitude();
    assert_eq!(magnitude, b((14.0 as f64).sqrt()));
}

#[test]
fn vector3_test_normalize() {
    let vector = Vector3::new(b(1.), b(2.), b(3.));
    let normalized = vector.normalize();
    let magnitude = normalized.magnitude();
    assert_eq!(magnitude, b(1.));
}

#[test]
fn vector3_test_from_array() {
    let arr = [b(1.), b(2.), b(3.)];
    let vector = Vector3::from_array(arr);
    assert_eq!(vector, Vector3::new(b(1.), b(2.), b(3.)));
}

#[test]
fn vector3_test_into_array() {
    let vector = Vector3::new(b(1.), b(2.), b(3.));
    let arr: [u64; 3] = vector.to_array();
    assert_eq!(arr, [b(1.), b(2.), b(3.)]);
}

#[test]
fn vector3_test_from_tuple() {
    let tuple = (b(1.), b(2.), b(3.));
    let vector = Vector3::from_tuple(tuple);
    assert_eq!(vector, Vector3::new(b(1.), b(2.), b(3.)));
}

#[test]
fn vector3_test_into_tuple() {
    let vector = Vector3::new(b(1.), b(2.), b(3.));
    let tuple: (u64, u64, u64) = vector.to_tuple();
    assert_eq!(tuple, (b(1.), b(2.), b(3.)));
}

#[test]
fn test_addition() {
    let a = Vector3::new(b(1.), b(2.), b(3.));
    let v = Vector3::new(b(4.), b(5.), b(6.));
    let sum = a.add(v);
    assert_eq!(sum, Vector3::new(b(5.), b(7.), b(9.)));
}

#[test]
fn test_subtraction() {
    let a = Vector3::new(b(1.), b(2.), b(3.));
    let v = Vector3::new(b(4.), b(5.), b(6.));
    let difference = a.sub(v);
    assert_eq!(difference, Vector3::new(b(-3.), b(-3.), b(-3.)));
}

#[test]
fn test_scalar_multiplication() {
    let vector = Vector3::new(b(1.), b(2.), b(3.));
    let scalar = b(2.);
    let result = vector.mul(scalar);
    assert_eq!(result, Vector3::new(b(2.), b(4.), b(6.)));
}

#[test]
fn test_scalar_division() {
    let vector = Vector3::new(b(1.), b(2.), b(3.));
    let scalar = b(2.);
    let result = vector.div(scalar);
    assert_eq!(result, Vector3::new(b(0.5), b(1.), b(1.5)));
}

#[test]
fn test_equality() {
    let a = Vector3::new(b(1.), b(2.), b(3.));
    let v = Vector3::new(b(1.), b(2.), b(3.));
    assert_eq!(a, v);

    let v = Vector3::new(b(1.), b(2.), b(4.));
    assert_ne!(a, v);
}

#[test]
fn vector3_test_ordering() {
    let a = Vector3::new(b(1.), b(2.), b(3.));
    let v = Vector3::new(b(4.), b(5.), b(6.));
    assert!(a < v);
    assert!(v > a);
}
