use bird_sim::Vector2;

#[test]
fn new_keeps_components() {
    let v = Vector2::new(3i32, -4);
    assert_eq!(v.x, 3);
    assert_eq!(v.y, -4);
}

#[test]
fn add_is_componentwise() {
    let v = Vector2::new(1i64, 2) + Vector2::new(3i64, 4);
    assert_eq!((v.x, v.y), (4, 6));
}

#[test]
fn sub_is_componentwise() {
    let v = Vector2::new(3i64, 4) - Vector2::new(1i64, 7);
    assert_eq!((v.x, v.y), (2, -3));
}

#[test]
fn mul_of_vectors_is_componentwise() {
    let v = Vector2::new(2i64, -3) * Vector2::new(5i64, 4);
    assert_eq!((v.x, v.y), (10, -12));
}

#[test]
fn mul_by_scalar_scales_both_components() {
    let v = Vector2::new(2i64, -3) * 5i64;
    assert_eq!((v.x, v.y), (10, -15));
}

#[test]
fn dot_product_value() {
    assert_eq!(Vector2::new(1i64, 2).dot(Vector2::new(3i64, 4)), 11);
    assert_eq!(Vector2::new(1i64, 0).dot(Vector2::new(0i64, 1)), 0);
    assert_eq!(Vector2::new(-2i32, 5).dot(Vector2::new(3i32, 1)), -1);
}

#[test]
fn float_vectors() {
    let v = Vector2::new(1.5f32, -2.0) + Vector2::new(0.5f32, 1.0);
    assert_eq!((v.x, v.y), (2.0, -1.0));
    let w = Vector2::new(1.5f32, -2.0) * 2.0f32;
    assert_eq!((w.x, w.y), (3.0, -4.0));
    assert_eq!(Vector2::new(1.0f32, 2.0).dot(Vector2::new(3.0f32, 4.0)), 11.0);
}

#[test]
fn law_add_commutative() {
    let a = Vector2::new(7i64, -3);
    let b = Vector2::new(-2i64, 11);
    let ab = a + b;
    let ba = b + a;
    assert_eq!((ab.x, ab.y), (ba.x, ba.y));
}

#[test]
fn law_sub_undoes_add() {
    let a = Vector2::new(7i64, -3);
    let b = Vector2::new(-2i64, 11);
    let r = (a + b) - b;
    assert_eq!((r.x, r.y), (a.x, a.y));
}

#[test]
fn law_dot_symmetric() {
    let a = Vector2::new(7i64, -3);
    let b = Vector2::new(-2i64, 11);
    assert_eq!(a.dot(b), b.dot(a));
}

#[test]
fn law_dot_self_nonnegative() {
    let a = Vector2::new(-7i64, -3);
    assert_eq!(a.dot(a), 58);
    assert!(a.dot(a) >= 0);
}

#[test]
fn law_scale_by_one() {
    let a = Vector2::new(-7i64, 9);
    let r = a * 1i64;
    assert_eq!((r.x, r.y), (-7, 9));
}
