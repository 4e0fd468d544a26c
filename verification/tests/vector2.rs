use libvector::{Vector, Vector2};

fn b(x: f64) -> u64 {
    x.to_bits()
}

#[test]
fn test_magnitude() {
    let a = Vector2::new(b(3.), b(4.));
    let mag = a.magnitude();
    assert_eq!(mag, b(5.));
}

#[test]
fn test_cross() {
    let a = Vector2::new(b(1.), b(2.));
    let v = Vector2::new(b(3.), b(4.));
    let cross = a.cross(&v);
    assert_eq!(cross, b(-2.));
}

#[test]
fn test_normalize() {
    let a = Vector2::new(b(3.), b(4.));
    let norm = a.normalize();
    assert_eq!(norm.x, b(3. / 5.));
    assert_eq!(norm.y, b(4. / 5.));
}

#[test]
fn test_add() {
    let a = Vector2::new(b(1.), b(2.));
    let v = Vector2::new(b(3.), b(4.));
    let result = a.add(v);
    assert_eq!(result.x, b(4.));
    assert_eq!(result.y, b(6.));
}

#[test]
fn test_sub() {
    let a = Vector2::new(b(5.), b(6.));
    let v = Vector2::new(b(2.), b(3.));
    let result = a.sub(v);
    assert_eq!(result.x, b(3.));
    assert_eq!(result.y, b(3.));
}

#[test]
fn test_mul() {
    let a = Vector2::new(b(2.), b(3.));
    let scalar = b(2.5);
    let result = a.mul(scalar);
    assert_eq!(result.x, b(5.));
    assert_eq!(result.y, b(7.5));
}

#[test]
fn test_div() {
    let a = Vector2::new(b(6.), b(8.));
    let scalar = b(2.);
    let result = a.div(scalar);
    assert_eq!(result.x, b(3.));
    assert_eq!(result.y, b(4.));
}

#[test]
fn test_equal() {
    let a = Vector2::new(b(1.), b(2.));
    let v = Vector2::new(b(1.), b(2.));
    assert_eq!(a, v);

    let v = Vector2::new(b(1.), b(3.));
    assert_ne!(a, v);
}

#[test]
fn test_ordering() {
    let a = Vector2::new(b(1.), b(2.));
    let v = Vector2::new(b(1.), b(3.));
    assert!(a < v);
    assert!(v > a);
}

#[test]
fn test_dot() {
    let a = Vector2::new(b(1.), b(2.));
    let v = Vector2::new(b(3.), b(4.));
    let result = a.dot(&v);
    assert_eq!(result, b(11.));
}

#[test]
fn test_to_from_tuple() {
    let a = Vector2::new(b(1.), b(2.));
    let tuple: (u64, u64) = a.to_tuple();
    assert_eq!(tuple, (b(1.), b(2.)));
    let v = Vector2::from_tuple(tuple);
    assert_eq!(a, v);
}

#[test]
fn test_to_from_array() {
    let a = Vector2::new(b(1.), b(2.));
    let array: [u64; 2] = a.to_array();
    assert_eq!(array, [b(1.), b(2.)]);
    let v = Vector2::from_array(array);
    assert_eq!(a, v);
}
