use math_lib::error::VectorError;
use math_lib::scalar::Scalar;
use math_lib::vector::Vector;
use math_lib::vector_3d::Vector3d;

/// A finite double-precision number as a vector element.
#[derive(Clone, Copy, Debug, PartialEq)]
struct Real(f64);

fn finite(x: f64) -> Option<Real> {
    if x.is_finite() {
        Some(Real(x))
    } else {
        None
    }
}

// The methods named after the model of an operation (`sum`, `product`, ...)
// are what the contracts speak of; for this element the model of an operation
// is the operation.
impl Scalar for Real {
    fn zero_spec() -> Self {
        Real(0.0)
    }

    fn one_spec() -> Self {
        Real(1.0)
    }

    fn is_zero_spec(self) -> bool {
        self.0 == 0.0
    }

    fn sum(self, rhs: Self) -> Option<Self> {
        finite(self.0 + rhs.0)
    }

    fn difference(self, rhs: Self) -> Option<Self> {
        finite(self.0 - rhs.0)
    }

    fn product(self, rhs: Self) -> Option<Self> {
        finite(self.0 * rhs.0)
    }

    fn quotient(self, rhs: Self) -> Option<Self> {
        finite(self.0 / rhs.0)
    }

    fn negation(self) -> Option<Self> {
        finite(-self.0)
    }

    fn square_root(self) -> Option<Self> {
        finite(self.0.sqrt())
    }

    fn arc_cosine(self) -> Option<Self> {
        finite(self.0.acos())
    }

    fn zero() -> Self {
        Real(0.0)
    }

    fn one() -> Self {
        Real(1.0)
    }

    fn is_zero(&self) -> bool {
        self.0 == 0.0
    }

    fn try_add(self, rhs: Self) -> Option<Self> {
        finite(self.0 + rhs.0)
    }

    fn try_sub(self, rhs: Self) -> Option<Self> {
        finite(self.0 - rhs.0)
    }

    fn try_mul(self, rhs: Self) -> Option<Self> {
        finite(self.0 * rhs.0)
    }

    fn try_div(self, rhs: Self) -> Option<Self> {
        finite(self.0 / rhs.0)
    }

    fn try_neg(self) -> Option<Self> {
        finite(-self.0)
    }

    fn try_sqrt(self) -> Option<Self> {
        finite(self.0.sqrt())
    }

    fn try_acos(self) -> Option<Self> {
        finite(self.0.acos())
    }
}

fn r(i: f64, j: f64, k: f64) -> Vector3d<Real> {
    Vector3d::new(Real(i), Real(j), Real(k))
}

fn close(a: Real, b: f64) -> bool {
    (a.0 - b).abs() < 1e-6
}

#[test]
fn real_cross_dot_magnitude() {
    let a = r(1.0, 2.0, 3.0);
    let b = r(4.0, 5.0, 6.0);
    assert_eq!(a.cross(&b), Ok(r(-3.0, 6.0, -3.0)));
    assert_eq!(a.dot(&b), Ok(Real(32.0)));
    assert!(close(a.magnitude().unwrap(), 3.7416573));
}

#[test]
fn real_project() {
    assert_eq!(Vector3d::project(&r(1.0, 0.0, 0.0), &r(1.0, 1.0, 0.0)), Ok(r(0.5, 0.5, 0.0)));
    assert_eq!(
        Vector3d::project(&r(1.0, 0.0, 0.0), &r(0.0, 0.0, 0.0)),
        Err(VectorError::DomainError)
    );
}

#[test]
fn real_unit_vector() {
    let u = r(3.0, 4.0, 0.0).unit_vector().unwrap();
    assert!(close(u.i, 0.6));
    assert!(close(u.j, 0.8));
    assert!(close(u.k, 0.0));
    assert!(close(u.magnitude().unwrap(), 1.0));
    assert!(close(r(1.0, 2.0, 3.0).unit_vector().unwrap().magnitude().unwrap(), 1.0));
    assert_eq!(r(0.0, 0.0, 0.0).unit_vector(), Err(VectorError::DomainError));
}

#[test]
fn real_angle() {
    let a = r(1.0, 2.0, 3.0);
    assert!(close(a.angle_rad(&r(2.0, 4.0, 6.0)).unwrap(), 0.0));
    assert!(close(r(3.0, 0.0, 0.0).angle_rad(&r(3.0, 0.0, 0.0)).unwrap(), 0.0));
    assert!(close(
        r(1.0, 0.0, 0.0).angle_rad(&r(0.0, 1.0, 0.0)).unwrap(),
        std::f64::consts::FRAC_PI_2
    ));
    assert_eq!(a.angle_rad(&r(0.0, 0.0, 0.0)), Err(VectorError::DomainError));
    assert_eq!(r(0.0, 0.0, 0.0).angle_rad(&a), Err(VectorError::DomainError));
}

#[test]
fn real_scale_and_divide() {
    let a = r(1.5, -2.25, 3.0);
    let back = ((a * Real(3.0)).unwrap() / Real(3.0)).unwrap();
    assert!(close(back.i, 1.5));
    assert!(close(back.j, -2.25));
    assert!(close(back.k, 3.0));
    assert_eq!(a / Real(0.0), Err(VectorError::DomainError));
}

#[test]
fn real_overflow_is_a_conversion_error() {
    assert_eq!(r(f64::MAX, 0.0, 0.0) * Real(2.0), Err(VectorError::ConversionError));
    assert_eq!(r(f64::MAX, 0.0, 0.0).magnitude(), Err(VectorError::ConversionError));
}

#[test]
fn real_n_dimensional() {
    let a = Vector::new([Real(1.0), Real(2.0), Real(2.0), Real(4.0)]);
    assert_eq!(a.magnitude(), Ok(Real(5.0)));
    let u = a.unit_vector().unwrap();
    assert!(close(u.components[3], 0.8));
    assert!(close(u.magnitude().unwrap(), 1.0));
    assert!(close(a.angle_rad(&a).unwrap(), 0.0));
}

#[test]
fn real_addition_laws() {
    let a = r(1.5, -2.25, 3.0);
    let b = r(0.5, 4.0, -8.0);
    let zero = r(0.0, 0.0, 0.0);
    assert_eq!(a + b, b + a);
    assert_eq!(a + b, Ok(r(2.0, 1.75, -5.0)));
    assert_eq!(a + zero, Ok(a));
    assert_eq!(a - b, Ok(r(1.0, -6.25, 11.0)));
}

#[test]
fn real_dot_commutes_and_cross_anticommutes() {
    let a = r(1.5, -2.25, 3.0);
    let b = r(0.5, 4.0, -8.0);
    assert_eq!(a.dot(&b), b.dot(&a));
    let ab = a.cross(&b).unwrap();
    let ba = b.cross(&a).unwrap();
    assert_eq!(ab, r(-ba.i.0, -ba.j.0, -ba.k.0));
}

#[test]
fn real_iteration_and_indexing() {
    let mut a = r(1.0, 2.0, 3.0);
    assert_eq!(a.index(2), Ok(&Real(3.0)));
    assert_eq!(a.index(3), Err(VectorError::IndexOutOfRange));
    {
        let mut it = a.iter_mut();
        while let Some(x) = it.next_back() {
            x.0 *= 2.0;
        }
    }
    assert_eq!(a, r(2.0, 4.0, 6.0));
}
