use libvector::{Vector, Vector4};

fn b(x: f64) -> u64 {
    x.to_bits()
}

#[test]
fn vector4_test_normalize() {
    let a = Vector4::new(b(1.), b(2.), b(3.), b(4.));
    let norm = a.normalize();
    assert_eq!(
        norm,
        Vector4::new(
            b(0.18257418583505536),
            b(0.3651483716701107),
            b(0.5477225575051661),
            b(0.7302967433402214)
        )
    );
}

#[test]
fn vector4_test_add() {
    let a = Vector4::new(b(1.), b(2.), b(3.), b(4.));
    let v = Vector4::new(b(5.), b(6.), b(7.), b(8.));
    let result = a.add(v);
    assert_eq!(result, Vector4::new(b(6.), b(8.), b(10.), b(12.)));
}

#[test]
fn vector4_test_sub() {
    let a = Vector4::new(b(5.), b(6.), b(7.), b(8.));
    let v = Vector4::new(b(1.), b(2.), b(3.), b(4.));
    let result = a.sub(v);
    assert_eq!(result, Vector4::new(b(4.), b(4.), b(4.), b(4.)));
}

#[test]
fn vector4_test_mul() {
    let a = Vector4::new(b(1.), b(2.), b(3.), b(4.));
    let scalar = b(2.0);
    let result = a.mul(scalar);
    assert_eq!(result, Vector4::new(b(2.), b(4.), b(6.), b(8.)));
}

#[test]
fn vector4_test_div() {
    let a = Vector4::new(b(4.), b(6.), b(8.), b(10.));
    let scalar = b(2.0);
    let result = a.div(scalar);
    assert_eq!(result, Vector4::new(b(2.), b(3.), b(4.), b(5.)));
}

#[test]
fn vector4_test_from_array() {
    let array = [b(1.), b(2.), b(3.), b(4.)];
    let result = Vector4::from_array(array);
    assert_eq!(result, Vector4::new(b(1.), b(2.), b(3.), b(4.)));
}

#[test]
fn vector4_test_into_array() {
    let vector = Vector4::new(b(1.), b(2.), b(3.), b(4.));
    let result: [u64; 4] = vector.to_array();
    assert_eq!(result, [b(1.), b(2.), b(3.), b(4.)]);
}

#[test]
fn vector4_test_from_tuple() {
    let tuple = (b(1.), b(2.), b(3.), b(4.));
    let result = Vector4::from_tuple(tuple);
    assert_eq!(result, Vector4::new(b(1.), b(2.), b(3.), b(4.)));
}

#[test]
fn vector4_test_into_tuple() {
    let vector = Vector4::new(b(1.), b(2.), b(3.), b(4.));
    let result: (u64, u64, u64, u64) = vector.to_tuple();
    assert_eq!(result, (b(1.), b(2.), b(3.), b(4.)));
}
