use math_lib::error::VectorError;
use math_lib::vector::Vector;

fn v4(a: i64, b: i64, c: i64, d: i64) -> Vector<i64, 4> {
    Vector::new([a, b, c, d])
}

#[test]
fn n_new_and_zero() {
    assert_eq!(v4(1, 2, 3, 4).components, [1, 2, 3, 4]);
    assert_eq!(Vector::<i64, 4>::zero().components, [0, 0, 0, 0]);
    assert_eq!(Vector::<i64, 0>::zero().components, []);
}

#[test]
fn n_dot() {
    assert_eq!(v4(1, 2, 3, 4).dot(&v4(5, 6, 7, 8)), Ok(70));
    assert_eq!(v4(1, 2, 3, 4).dot(&v4(5, 6, 7, 8)), v4(5, 6, 7, 8).dot(&v4(1, 2, 3, 4)));
    assert_eq!(Vector::<i64, 0>::zero().dot(&Vector::zero()), Ok(0));
    assert_eq!(v4(i64::MAX, 0, 0, 0).dot(&v4(2, 0, 0, 0)), Err(VectorError::ConversionError));
    assert_eq!(v4(i64::MAX, 1, 0, 0).dot(&v4(1, 1, 0, 0)), Err(VectorError::ConversionError));
}

#[test]
fn n_magnitude() {
    assert_eq!(v4(1, 1, 1, 1).magnitude(), Ok(2));
    assert_eq!(v4(2, 4, 5, 6).magnitude(), Ok(9));
    assert_eq!(v4(0, 0, 0, 0).magnitude(), Ok(0));
    assert_eq!(v4(1, 1, 1, 0).magnitude(), Err(VectorError::ConversionError));
}

#[test]
fn n_unit_vector() {
    assert_eq!(v4(0, 0, -6, 0).unit_vector(), Ok(v4(0, 0, -1, 0)));
    assert_eq!(v4(0, 0, -6, 0).unit_vector().unwrap().magnitude(), Ok(1));
    assert_eq!(v4(0, 0, 0, 0).unit_vector(), Err(VectorError::DomainError));
    assert_eq!(v4(1, 1, 1, 1).unit_vector(), Err(VectorError::ConversionError));
    assert_eq!(v4(1, 2, 0, 0).unit_vector(), Err(VectorError::ConversionError));
}

#[test]
fn n_angle_rad() {
    assert_eq!(v4(1, 1, 1, 1).angle_rad(&v4(1, 1, 1, 1)), Ok(0));
    assert_eq!(v4(1, 1, 1, 1).angle_rad(&v4(2, 2, 2, 2)), Ok(0));
    assert_eq!(v4(0, 0, 0, 0).angle_rad(&v4(1, 1, 1, 1)), Err(VectorError::DomainError));
    assert_eq!(v4(1, 1, 1, 1).angle_rad(&v4(0, 0, 0, 0)), Err(VectorError::DomainError));
    assert_eq!(v4(1, 2, 0, 0).angle_rad(&v4(0, 0, 0, 0)), Err(VectorError::DomainError));
    assert_eq!(v4(1, 0, 0, 0).angle_rad(&v4(0, 1, 0, 0)), Err(VectorError::ConversionError));
}

#[test]
fn n_add_sub_mul_div() {
    let a = v4(1, 2, 3, 4);
    let b = v4(10, 20, 30, 40);
    assert_eq!(a + b, Ok(v4(11, 22, 33, 44)));
    assert_eq!(b - a, Ok(v4(9, 18, 27, 36)));
    assert_eq!(a * 3, Ok(v4(3, 6, 9, 12)));
    assert_eq!(b / -10, Ok(v4(-1, -2, -3, -4)));
}

#[test]
fn n_addition_laws_on_concrete_vectors() {
    let a = v4(1, 2, 3, 4);
    let b = v4(-4, 5, 6, 0);
    let c = v4(7, -8, 9, 1);
    assert_eq!(a + b, b + a);
    assert_eq!((a + b).unwrap() + c, a + (b + c).unwrap());
    assert_eq!(a + Vector::zero(), Ok(a));
    assert_eq!((a * 5).unwrap() / 5, Ok(a));
}

#[test]
fn n_failures() {
    let a = v4(1, 2, 3, 4);
    assert_eq!(a / 0, Err(VectorError::DomainError));
    assert_eq!(a / 2, Err(VectorError::ConversionError));
    assert_eq!(v4(0, 0, 0, i64::MAX) + v4(0, 0, 0, 1), Err(VectorError::ConversionError));
    assert_eq!(v4(0, 0, i64::MIN, 0) - v4(0, 0, 1, 0), Err(VectorError::ConversionError));
    assert_eq!(v4(0, i64::MAX, 0, 0) * 2, Err(VectorError::ConversionError));
}

#[test]
fn n_in_place_variants() {
    let start = v4(2, 4, 6, 8);
    let mut a = start;
    assert_eq!(a.add_assign(v4(1, 1, 1, 1)), Ok(()));
    assert_eq!(Ok(a), start + v4(1, 1, 1, 1));
    let mut b = start;
    assert_eq!(b.sub_assign(v4(1, 1, 1, 1)), Ok(()));
    assert_eq!(Ok(b), start - v4(1, 1, 1, 1));
    let mut c = start;
    assert_eq!(c.mul_assign(3), Ok(()));
    assert_eq!(Ok(c), start * 3);
    let mut d = start;
    assert_eq!(d.div_assign(2), Ok(()));
    assert_eq!(Ok(d), start / 2);
    let mut e = start;
    assert_eq!(e.div_assign(0), Err(VectorError::DomainError));
    assert_eq!(e.div_assign(4), Err(VectorError::ConversionError));
    assert_eq!(e.mul_assign(i64::MAX), Err(VectorError::ConversionError));
    assert_eq!(e, start);
}

#[test]
fn two_dimensional_integer_vector() {
    let a = Vector::new([1i64, 2]);
    let b = Vector::new([3i64, 5]);
    assert_eq!(a + b, Ok(Vector::new([4, 7])));
    assert_eq!(b - a, Ok(Vector::new([2, 3])));
    let mut c = a;
    assert_eq!(c.add_assign(b), Ok(()));
    assert_eq!(c, Vector::new([4, 7]));
}
