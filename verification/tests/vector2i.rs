use vecmath::Vector2i;

#[test]
fn test_vector2i_add() {
    let a = Vector2i::new(0, 5);
    let b = Vector2i::new(-6, 4);
    let c = a + b;
    assert_eq!(c.x, -6);
    assert_eq!(c.y, 9);
}

#[test]
fn test_vector2i_sub() {
    let a = Vector2i::new(0, 5);
    let b = Vector2i::new(-6, 4);
    let c = a - b;
    assert_eq!(c.x, 6);
    assert_eq!(c.y, 1);
}

#[test]
fn test_vector2i_mul() {
    let a = Vector2i::new(0, 5);
    let b = 3;
    let c = a * b;
    assert_eq!(c.x, 0);
    assert_eq!(c.y, 15);

    let c = b * a;
    assert_eq!(c.x, 0);
    assert_eq!(c.y, 15);
}

#[test]
fn test_vector2i_mul_vector2i() {
    let a = Vector2i::new(0, 5);
    let b = Vector2i::new(3, 2);
    let c = a * b;
    assert_eq!(c.x, 0);
    assert_eq!(c.y, 10);
}

#[test]
fn test_vector2i_div() {
    let a = Vector2i::new(12, 5);
    let b = 3;
    let c = a / b;
    assert_eq!(c.x, 4);
    assert_eq!(c.y, 1);
}

#[test]
fn test_vector2i_neg() {
    let a = Vector2i::new(12, 0);
    let c = -a;
    assert_eq!(c.x, -12);
    assert_eq!(c.y, 0);
}

#[test]
fn test_vector2i_index() {
    let a = Vector2i::new(12, 0);
    assert_eq!(a[0], 12);
    assert_eq!(a[1], 0);
}

#[test]
#[should_panic]
fn test_vector2i_index_panic() {
    let a = Vector2i::new(12, 0);
    assert_eq!(a[2], 0);
}

#[test]
fn new_keeps_both_components() {
    let a = Vector2i::new(i32::MIN, i32::MAX);
    assert_eq!(a.x, i32::MIN);
    assert_eq!(a.y, i32::MAX);
    assert_eq!(a, Vector2i { x: i32::MIN, y: i32::MAX });
}

#[test]
fn add_and_sub_undo_each_other() {
    let a = Vector2i::new(17, -4);
    let b = Vector2i::new(-9, 23);
    assert_eq!((a + b) - b, a);
    assert_eq!(a + b, b + a);
    assert_eq!(a - b, a + (-b));
}

#[test]
fn scalar_multiplies_from_either_side() {
    let a = Vector2i::new(-7, 11);
    assert_eq!(a * -3, Vector2i::new(21, -33));
    assert_eq!(-3 * a, Vector2i::new(21, -33));
    assert_eq!(a * 0, Vector2i::new(0, 0));
    assert_eq!(1 * a, a);
}

#[test]
fn component_product_is_per_axis() {
    let a = Vector2i::new(-7, 11);
    let b = Vector2i::new(2, -5);
    assert_eq!(a * b, Vector2i::new(-14, -55));
    assert_eq!(b * a, Vector2i::new(-14, -55));
}

#[test]
fn div_rounds_toward_zero() {
    assert_eq!(Vector2i::new(-7, 7) / 2, Vector2i::new(-3, 3));
    assert_eq!(Vector2i::new(-7, 7) / -2, Vector2i::new(3, -3));
    assert_eq!(Vector2i::new(-1, 1) / 2, Vector2i::new(0, 0));
    assert_eq!(Vector2i::new(-8, 9) / 4, Vector2i::new(-2, 2));
    assert_eq!(Vector2i::new(i32::MIN, i32::MAX) / 1, Vector2i::new(i32::MIN, i32::MAX));
    assert_eq!(Vector2i::new(i32::MAX, -i32::MAX) / -1, Vector2i::new(-i32::MAX, i32::MAX));
}

#[test]
fn div_leaves_a_remainder_of_the_dividend_sign() {
    let a = Vector2i::new(-17, 17);
    let d = 5;
    let q = a / d;
    let r = a - q * d;
    assert_eq!(q, Vector2i::new(-3, 3));
    assert_eq!(r, Vector2i::new(-2, 2));
}

#[test]
fn neg_twice_is_the_vector() {
    let a = Vector2i::new(i32::MAX, -5);
    assert_eq!(-a, Vector2i::new(-i32::MAX, 5));
    assert_eq!(-(-a), a);
}

#[test]
fn index_mut_writes_one_component() {
    let mut a = Vector2i::new(12, 0);
    *a.index_mut(1) = 7;
    assert_eq!(a, Vector2i::new(12, 7));
    *a.index_mut(0) = -1;
    assert_eq!(a, Vector2i::new(-1, 7));
    assert_eq!(*a.index_mut(0), -1);
    assert_eq!(a[0], -1);
    assert_eq!(a[1], 7);
}
