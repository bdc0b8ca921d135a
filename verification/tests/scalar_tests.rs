use math_lib::notation::{basis_notation, decimal_text};
use math_lib::scalar::Scalar;
use math_lib::vector_3d::Vector3d;

#[test]
fn integer_arithmetic_is_exact_or_absent() {
    assert_eq!(2i64.try_add(3), Some(5));
    assert_eq!(i64::MAX.try_add(1), None);
    assert_eq!(2i64.try_sub(3), Some(-1));
    assert_eq!(i64::MIN.try_sub(1), None);
    assert_eq!((-4i64).try_mul(5), Some(-20));
    assert_eq!(i64::MIN.try_mul(-1), None);
    assert_eq!(5i64.try_neg(), Some(-5));
    assert_eq!(i64::MIN.try_neg(), None);
    assert_eq!(i64::MAX.try_neg(), Some(-i64::MAX));
}

#[test]
fn integer_division_is_exact_or_absent() {
    assert_eq!(12i64.try_div(4), Some(3));
    assert_eq!((-12i64).try_div(4), Some(-3));
    assert_eq!(12i64.try_div(-4), Some(-3));
    assert_eq!((-12i64).try_div(-4), Some(3));
    assert_eq!(0i64.try_div(7), Some(0));
    assert_eq!(7i64.try_div(2), None);
    assert_eq!((-7i64).try_div(2), None);
    assert_eq!(7i64.try_div(0), None);
    assert_eq!(i64::MIN.try_div(-1), None);
    assert_eq!(i64::MIN.try_div(1), Some(i64::MIN));
}

#[test]
fn integer_square_root_of_perfect_squares_only() {
    assert_eq!(0i64.try_sqrt(), Some(0));
    assert_eq!(1i64.try_sqrt(), Some(1));
    assert_eq!(4i64.try_sqrt(), Some(2));
    assert_eq!(144i64.try_sqrt(), Some(12));
    assert_eq!(2i64.try_sqrt(), None);
    assert_eq!(14i64.try_sqrt(), None);
    assert_eq!((-4i64).try_sqrt(), None);
    assert_eq!(i64::MAX.try_sqrt(), None);
    assert_eq!((3037000499i64 * 3037000499).try_sqrt(), Some(3037000499));
    assert_eq!((3037000499i64 * 3037000499 - 1).try_sqrt(), None);
}

#[test]
fn integer_inverse_cosine() {
    assert_eq!(1i64.try_acos(), Some(0));
    assert_eq!(0i64.try_acos(), None);
    assert_eq!((-1i64).try_acos(), None);
    assert_eq!(2i64.try_acos(), None);
}

#[test]
fn integers_in_decimal() {
    assert_eq!(decimal_text(0i64, false), "0");
    assert_eq!(decimal_text(0i64, true), "+0");
    assert_eq!(decimal_text(7i64, false), "7");
    assert_eq!(decimal_text(10i64, true), "+10");
    assert_eq!(decimal_text(-305i64, false), "-305");
    assert_eq!(decimal_text(-305i64, true), "-305");
    assert_eq!(decimal_text(i64::MAX, false), "9223372036854775807");
    assert_eq!(decimal_text(i64::MIN, true), "-9223372036854775808");
    assert_eq!(decimal_text(1234567890i64, false), format!("{}", 1234567890i64));
    assert_eq!(decimal_text(1234567890i64, true), format!("{:+}", 1234567890i64));
}

#[test]
fn components_in_basis_notation() {
    assert_eq!(basis_notation("1.5", "+2", "-0.25"), "1.5i\u{302} +2j\u{302} -0.25k\u{302}");
    assert_eq!(basis_notation("", "", ""), "i\u{302} j\u{302} k\u{302}");
}

#[test]
fn vector_in_basis_notation() {
    assert_eq!(Vector3d::new(1i64, 2, 3).to_string(), "1i\u{302} +2j\u{302} +3k\u{302}");
    assert_eq!(Vector3d::new(-1i64, 0, -30).to_string(), "-1i\u{302} +0j\u{302} -30k\u{302}");
}
