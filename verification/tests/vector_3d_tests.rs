use math_lib::error::VectorError;
use math_lib::scalar::Scalar;
use math_lib::vector_3d::{i_hat, j_hat, k_hat, zero, Vector3d};

fn v(i: i64, j: i64, k: i64) -> Vector3d<i64> {
    Vector3d::new(i, j, k)
}

#[test]
fn new_keeps_the_components() {
    let a = v(7, -8, 9);
    assert_eq!(a.i, 7);
    assert_eq!(a.j, -8);
    assert_eq!(a.k, 9);
}

#[test]
fn basis_vectors() {
    assert_eq!(zero::<i64>(), v(0, 0, 0));
    assert_eq!(i_hat::<i64>(), v(1, 0, 0));
    assert_eq!(j_hat::<i64>(), v(0, 1, 0));
    assert_eq!(k_hat::<i64>(), v(0, 0, 1));
}

#[test]
fn integer_zero_and_one_come_from_the_identities() {
    assert_eq!(<i64 as Scalar>::zero(), 0);
    assert_eq!(<i64 as Scalar>::one(), 1);
    assert!(0i64.is_zero());
    assert!(!1i64.is_zero());
}

#[test]
fn cross_of_two_vectors() {
    assert_eq!(v(1, 2, 3).cross(&v(4, 5, 6)), Ok(v(-3, 6, -3)));
}

#[test]
fn cross_of_basis_vectors_follows_the_right_hand_rule() {
    assert_eq!(v(1, 0, 0).cross(&v(0, 1, 0)), Ok(v(0, 0, 1)));
    assert_eq!(v(0, 1, 0).cross(&v(0, 0, 1)), Ok(v(1, 0, 0)));
    assert_eq!(v(0, 0, 1).cross(&v(1, 0, 0)), Ok(v(0, 1, 0)));
}

#[test]
fn cross_is_anticommutative() {
    let a = v(1, 2, 3);
    let b = v(4, 5, 6);
    let ab = a.cross(&b).unwrap();
    let ba = b.cross(&a).unwrap();
    assert_eq!(ab, v(-ba.i, -ba.j, -ba.k));
}

#[test]
fn cross_reports_an_overflow() {
    let big = i64::MAX;
    assert_eq!(v(0, big, 0).cross(&v(0, 0, 2)), Err(VectorError::ConversionError));
}

#[test]
fn dot_of_two_vectors() {
    assert_eq!(v(1, 2, 3).dot(&v(4, 5, 6)), Ok(32));
}

#[test]
fn dot_is_commutative() {
    let a = v(1, -2, 3);
    let b = v(-4, 5, 6);
    assert_eq!(a.dot(&b), b.dot(&a));
    assert_eq!(a.dot(&b), Ok(4));
}

#[test]
fn dot_reports_an_overflow() {
    assert_eq!(v(i64::MAX, 0, 0).dot(&v(2, 0, 0)), Err(VectorError::ConversionError));
    assert_eq!(v(i64::MAX, 1, 0).dot(&v(1, 1, 0)), Err(VectorError::ConversionError));
}

#[test]
fn magnitude_of_a_pythagorean_vector() {
    assert_eq!(v(3, 4, 0).magnitude(), Ok(5));
    assert_eq!(v(2, 3, 6).magnitude(), Ok(7));
    assert_eq!(v(0, 0, 0).magnitude(), Ok(0));
}

#[test]
fn magnitude_without_integer_root_is_a_conversion_error() {
    assert_eq!(v(1, 2, 3).magnitude(), Err(VectorError::ConversionError));
}

#[test]
fn unit_vector_along_an_axis() {
    assert_eq!(v(0, 0, 5).unit_vector(), Ok(v(0, 0, 1)));
    assert_eq!(v(-7, 0, 0).unit_vector(), Ok(v(-1, 0, 0)));
}

#[test]
fn unit_vector_has_magnitude_one() {
    let u = v(0, -9, 0).unit_vector().unwrap();
    assert_eq!(u.magnitude(), Ok(1));
}

#[test]
fn unit_vector_of_zero_is_a_domain_error() {
    assert_eq!(v(0, 0, 0).unit_vector(), Err(VectorError::DomainError));
}

#[test]
fn unit_vector_with_inexact_components_is_a_conversion_error() {
    assert_eq!(v(3, 4, 0).unit_vector(), Err(VectorError::ConversionError));
    assert_eq!(v(1, 2, 3).unit_vector(), Err(VectorError::ConversionError));
}

#[test]
fn angle_with_itself_is_zero() {
    assert_eq!(v(3, 4, 0).angle_rad(&v(3, 4, 0)), Ok(0));
    assert_eq!(v(0, 0, 2).angle_rad(&v(0, 0, 7)), Ok(0));
}

#[test]
fn angle_against_zero_magnitude_is_a_domain_error() {
    assert_eq!(v(0, 0, 0).angle_rad(&v(1, 0, 0)), Err(VectorError::DomainError));
    assert_eq!(v(1, 0, 0).angle_rad(&v(0, 0, 0)), Err(VectorError::DomainError));
    assert_eq!(v(1, 2, 3).angle_rad(&v(0, 0, 0)), Err(VectorError::DomainError));
    assert_eq!(v(0, 0, 0).angle_rad(&v(1, 2, 3)), Err(VectorError::DomainError));
}

#[test]
fn angle_without_integer_value_is_a_conversion_error() {
    assert_eq!(v(1, 0, 0).angle_rad(&v(0, 1, 0)), Err(VectorError::ConversionError));
    assert_eq!(v(1, 2, 3).angle_rad(&v(1, 0, 0)), Err(VectorError::ConversionError));
}

#[test]
fn project_onto_a_vector() {
    assert_eq!(Vector3d::project(&v(2, 0, 0), &v(1, 1, 0)), Ok(v(1, 1, 0)));
    assert_eq!(Vector3d::project(&v(3, 4, 5), &v(0, 0, 1)), Ok(v(0, 0, 5)));
    assert_eq!(Vector3d::project(&v(0, 1, 0), &v(1, 0, 0)), Ok(v(0, 0, 0)));
}

#[test]
fn project_onto_zero_is_a_domain_error() {
    assert_eq!(Vector3d::project(&v(1, 2, 3), &v(0, 0, 0)), Err(VectorError::DomainError));
}

#[test]
fn project_with_inexact_scalar_is_a_conversion_error() {
    assert_eq!(Vector3d::project(&v(1, 0, 0), &v(1, 1, 0)), Err(VectorError::ConversionError));
}

#[test]
fn index_reads_i_j_k() {
    let a = v(10, 20, 30);
    assert_eq!(a.index(0), Ok(&10));
    assert_eq!(a.index(1), Ok(&20));
    assert_eq!(a.index(2), Ok(&30));
}

#[test]
fn index_out_of_range() {
    let a = v(10, 20, 30);
    assert_eq!(a.index(3), Err(VectorError::IndexOutOfRange));
    assert_eq!(a.index(255), Err(VectorError::IndexOutOfRange));
}

#[test]
fn index_mut_writes_one_component() {
    let mut a = v(10, 20, 30);
    *a.index_mut(0).unwrap() = 11;
    *a.index_mut(1).unwrap() = 21;
    *a.index_mut(2).unwrap() = 31;
    assert_eq!(a, v(11, 21, 31));
    assert_eq!(a.index_mut(3), Err(VectorError::IndexOutOfRange));
    assert_eq!(a, v(11, 21, 31));
}

#[test]
fn add_sub_mul_div() {
    let a = v(1, 2, 3);
    let b = v(10, 20, 30);
    assert_eq!(a + b, Ok(v(11, 22, 33)));
    assert_eq!(b - a, Ok(v(9, 18, 27)));
    assert_eq!(a * -4, Ok(v(-4, -8, -12)));
    assert_eq!(b / 10, Ok(v(1, 2, 3)));
}

#[test]
fn addition_laws_on_concrete_vectors() {
    let a = v(1, 2, 3);
    let b = v(-4, 5, 6);
    let c = v(7, -8, 9);
    assert_eq!(a + b, b + a);
    assert_eq!((a + b).unwrap() + c, a + (b + c).unwrap());
    assert_eq!(a + zero(), Ok(a));
}

#[test]
fn associativity_fails_only_where_a_sum_does_not_exist() {
    let a = v(i64::MAX, 0, 0);
    let b = v(1, 0, 0);
    let c = v(-1, 0, 0);
    assert_eq!(a + b, Err(VectorError::ConversionError));
    assert_eq!(a + (b + c).unwrap(), Ok(a));
}

#[test]
fn scaling_and_dividing_gives_the_vector_back() {
    let a = v(1, -2, 3);
    assert_eq!((a * 7).unwrap() / 7, Ok(a));
    assert_eq!((a * -1).unwrap() / -1, Ok(a));
}

#[test]
fn dividing_by_zero_is_a_domain_error() {
    assert_eq!(v(1, 2, 3) / 0, Err(VectorError::DomainError));
}

#[test]
fn dividing_inexactly_is_a_conversion_error() {
    assert_eq!(v(2, 4, 5) / 2, Err(VectorError::ConversionError));
    assert_eq!(v(i64::MIN, 0, 0) / -1, Err(VectorError::ConversionError));
}

#[test]
fn arithmetic_reports_an_overflow() {
    assert_eq!(v(i64::MAX, 0, 0) + v(1, 0, 0), Err(VectorError::ConversionError));
    assert_eq!(v(0, i64::MIN, 0) - v(0, 1, 0), Err(VectorError::ConversionError));
    assert_eq!(v(0, 0, i64::MAX) * 2, Err(VectorError::ConversionError));
}

#[test]
fn in_place_variants_match_the_pure_ones() {
    let start = v(2, 4, 6);
    let mut a = start;
    assert_eq!(a.add_assign(v(1, 1, 1)), Ok(()));
    assert_eq!(Ok(a), start + v(1, 1, 1));
    let mut b = start;
    assert_eq!(b.sub_assign(v(1, 1, 1)), Ok(()));
    assert_eq!(Ok(b), start - v(1, 1, 1));
    let mut c = start;
    assert_eq!(c.mul_assign(3), Ok(()));
    assert_eq!(Ok(c), start * 3);
    let mut d = start;
    assert_eq!(d.div_assign(2), Ok(()));
    assert_eq!(Ok(d), start / 2);
}

#[test]
fn in_place_variants_leave_the_vector_on_failure() {
    let start = v(i64::MAX, 4, 6);
    let mut a = start;
    assert_eq!(a.add_assign(v(1, 1, 1)), Err(VectorError::ConversionError));
    assert_eq!(a, start);
    assert_eq!(a.mul_assign(2), Err(VectorError::ConversionError));
    assert_eq!(a, start);
    assert_eq!(a.div_assign(0), Err(VectorError::DomainError));
    assert_eq!(a, start);
    let mut b = v(i64::MIN, 0, 0);
    assert_eq!(b.sub_assign(v(1, 0, 0)), Err(VectorError::ConversionError));
    assert_eq!(b, v(i64::MIN, 0, 0));
}

#[test]
fn error_descriptions_differ() {
    let texts = [
        VectorError::DomainError.describe(),
        VectorError::IndexOutOfRange.describe(),
        VectorError::ConversionError.describe(),
    ];
    assert_eq!(texts[1], "index out of range");
    assert_ne!(texts[0], texts[1]);
    assert_ne!(texts[1], texts[2]);
    assert_ne!(texts[0], texts[2]);
}
