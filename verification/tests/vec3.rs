use raytracer::vec3::{Color, Vec3};

#[test]
fn add_test() {
    let mut first = Vec3::<u8>::new(1, 2, 3);
    let second = Vec3::<u8>::new(4, 5, 6);

    let expected = Vec3::<u8>::new(5, 7, 9);

    let add_out = first + second;

    assert_eq!(add_out, expected);
    first += second;
    assert_eq!(first, expected);
}

#[test]
fn sub_test() {
    let mut first = Vec3::<u8>::new(1, 2, 3);
    let second = first.clone();
    let expected = Vec3::<u8>::zero();

    let sub_out = first - second;
    assert_eq!(sub_out, expected);
    first -= second;
    assert_eq!(first, expected)
}

#[test]
fn mul_test() {
    let mut first = Vec3::<u8>::new(1, 2, 3);
    let scalar: u8 = 2;
    let expected = Vec3::<u8>::new(2, 4, 6);

    let out = first * scalar;
    assert_eq!(out, expected);
    first *= scalar;
    assert_eq!(first, expected);
}

#[test]
fn div_test() {
    let mut first = Vec3::<u8>::new(2, 4, 6);
    let expected = Vec3::<u8>::new(1, 2, 3);
    let scalar: u8 = 2;

    let out = first / scalar;
    assert_eq!(out, expected);
    first /= scalar;
    assert_eq!(first, expected);
}

#[test]
fn dot_test() {
    let u = Vec3::<u8>::new(1, 2, 3);
    let v = Vec3::<u8>::new(4, 5, 6);
    assert_eq!(Vec3::dot(&u, &v), 32);

    let p = Vec3::<i32>::new(-1, 2, -3);
    let q = Vec3::<i32>::new(4, -5, 6);
    assert_eq!(Vec3::dot(&p, &q), -32);
}

#[test]
fn cross_test() {
    let u = Vec3::<i32>::new(1, 2, 3);
    let v = Vec3::<i32>::new(4, 5, 6);
    assert_eq!(Vec3::cross(&u, &v), Vec3::<i32>::new(-3, 6, -3));
}

#[test]
fn new_keeps_the_components_in_order() {
    let v = Vec3::<u16>::new(7, 8, 9);
    assert_eq!(v.x, 7);
    assert_eq!(v.y, 8);
    assert_eq!(v.z, 9);
}

#[test]
fn a_color_is_a_vector_of_bytes() {
    let c: Color = Vec3::new(255, 0, 128);
    assert_eq!(c, Vec3::<u8>::new(255, 0, 128));
}

#[test]
fn cross_is_right_handed() {
    let x = Vec3::<i32>::new(1, 0, 0);
    let y = Vec3::<i32>::new(0, 1, 0);
    let z = Vec3::<i32>::new(0, 0, 1);
    assert_eq!(Vec3::cross(&x, &y), z);
    assert_eq!(Vec3::cross(&y, &z), x);
    assert_eq!(Vec3::cross(&z, &x), y);
}

#[test]
fn cross_of_unsigned_vectors() {
    let u = Vec3::<u8>::new(1, 0, 0);
    let v = Vec3::<u8>::new(0, 1, 0);
    assert_eq!(Vec3::cross(&u, &v), Vec3::<u8>::new(0, 0, 1));
}

#[test]
fn cross_of_swapped_arguments_is_negated() {
    let u = Vec3::<i64>::new(2, -3, 5);
    let v = Vec3::<i64>::new(-7, 11, 13);
    let uv = Vec3::cross(&u, &v);
    let vu = Vec3::cross(&v, &u);
    assert_eq!(uv, Vec3::<i64>::new(-94, -61, 1));
    assert_eq!(uv, vu * -1);
    assert_eq!(uv + vu, Vec3::<i64>::zero());
}

#[test]
fn dot_is_commutative() {
    let u = Vec3::<i16>::new(2, -3, 5);
    let v = Vec3::<i16>::new(-7, 11, 13);
    assert_eq!(Vec3::dot(&u, &v), 18);
    assert_eq!(Vec3::dot(&v, &u), 18);
}

#[test]
fn add_is_associative() {
    let u = Vec3::<i32>::new(1, -2, 3);
    let v = Vec3::<i32>::new(40, 50, -60);
    let w = Vec3::<i32>::new(-700, 800, 900);
    let expected = Vec3::<i32>::new(-659, 848, 843);
    assert_eq!(u + (v + w), expected);
    assert_eq!((u + v) + w, expected);
}

#[test]
fn add_is_commutative() {
    let u = Vec3::<u16>::new(1, 20, 300);
    let v = Vec3::<u16>::new(65000, 0, 7);
    assert_eq!(u + v, Vec3::<u16>::new(65001, 20, 307));
    assert_eq!(v + u, Vec3::<u16>::new(65001, 20, 307));
}

#[test]
fn adding_zero_changes_nothing() {
    let u = Vec3::<u8>::new(255, 0, 17);
    assert_eq!(u + Vec3::<u8>::zero(), u);
    assert_eq!(Vec3::<u8>::zero() + u, u);
    let s = Vec3::<i8>::new(-128, 127, 0);
    assert_eq!(s + Vec3::<i8>::zero(), s);
}

#[test]
fn a_vector_minus_itself_is_zero() {
    let u = Vec3::<u64>::new(u64::MAX, 0, 17);
    assert_eq!(u - u, Vec3::<u64>::zero());
    let s = Vec3::<i8>::new(-128, 127, 0);
    assert_eq!(s - s, Vec3::<i8>::zero());
}

#[test]
fn len_squared_is_the_dot_product_with_itself() {
    let v = Vec3::<u32>::new(3, 4, 12);
    assert_eq!(v.len_squared(), 169);
    assert_eq!(Vec3::dot(&v, &v), 169);
    let s = Vec3::<i32>::new(-7, 7, 1);
    assert_eq!(s.len_squared(), 99);
    assert_eq!(Vec3::<u8>::zero().len_squared(), 0);
}

#[test]
fn arithmetic_reaches_the_limits_of_the_type() {
    let u = Vec3::<u8>::new(200, 100, 0);
    let v = Vec3::<u8>::new(55, 155, 255);
    assert_eq!(u + v, Vec3::<u8>::new(255, 255, 255));
    assert_eq!(Vec3::<u8>::new(51, 85, 1) * 3, Vec3::<u8>::new(153, 255, 3));
    assert_eq!(Vec3::<u8>::new(15, 0, 0).len_squared(), 225);
    assert_eq!(
        Vec3::<i8>::new(-128, 0, 127) - Vec3::<i8>::new(-1, 0, 1),
        Vec3::<i8>::new(-127, 0, 126)
    );
}

#[test]
fn division_rounds_toward_zero() {
    assert_eq!(Vec3::<u8>::new(7, 8, 9) / 2, Vec3::<u8>::new(3, 4, 4));
    assert_eq!(Vec3::<i32>::new(-7, 7, -1) / 2, Vec3::<i32>::new(-3, 3, 0));
    assert_eq!(Vec3::<i32>::new(-7, 7, -1) / -2, Vec3::<i32>::new(3, -3, 0));
    assert_eq!(Vec3::<i8>::new(-128, 127, 0) / 1, Vec3::<i8>::new(-128, 127, 0));
    assert_eq!(Vec3::<i8>::new(-127, 127, 0) / -1, Vec3::<i8>::new(127, -127, 0));
}

#[test]
fn assigning_operators_agree_with_the_plain_ones() {
    let u = Vec3::<i32>::new(9, -12, 30);
    let v = Vec3::<i32>::new(1, 2, 3);

    let mut a = u;
    a += v;
    assert_eq!(a, u + v);
    assert_eq!(a, Vec3::<i32>::new(10, -10, 33));

    let mut s = u;
    s -= v;
    assert_eq!(s, u - v);
    assert_eq!(s, Vec3::<i32>::new(8, -14, 27));

    let mut m = u;
    m *= -3;
    assert_eq!(m, u * -3);
    assert_eq!(m, Vec3::<i32>::new(-27, 36, -90));

    let mut d = u;
    d /= 3;
    assert_eq!(d, u / 3);
    assert_eq!(d, Vec3::<i32>::new(3, -4, 10));
}

#[test]
fn vectors_are_ordered_by_their_components_in_turn() {
    assert!(Vec3::<u8>::new(1, 9, 9) < Vec3::<u8>::new(2, 0, 0));
    assert!(Vec3::<u8>::new(1, 2, 3) < Vec3::<u8>::new(1, 2, 4));
    assert_ne!(Vec3::<u8>::new(1, 2, 3), Vec3::<u8>::new(3, 2, 1));
}
