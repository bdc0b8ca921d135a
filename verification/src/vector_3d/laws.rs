//! Laws of [`Vector3d`] arithmetic and geometry, for every element type whose
//! arithmetic is exact.

use crate::cursor::{
    lemma_trace_backward, lemma_trace_forward, lemma_trace_never_repeats, uniform, Cursor,
};
use crate::error::VectorError;
use crate::scalar::{ExactScalar, Scalar};
use crate::vector_3d::{assemble, Vector3d};
use vstd::prelude::*;

verus! {

impl<T: Scalar> Vector3d<T> {
    /// Every component negated.
    pub open spec fn negated(self) -> Result<Self, VectorError> {
        assemble(self.i.negation(), self.j.negation(), self.k.negation())
    }
}

/// `a + b == b + a`, in its failures too.
pub proof fn lemma_add_commutes<T: ExactScalar>(a: Vector3d<T>, b: Vector3d<T>)
    ensures
        a.sum_with(b) == b.sum_with(a),
{
    T::lemma_sum_commutes(a.i, b.i);
    T::lemma_sum_commutes(a.j, b.j);
    T::lemma_sum_commutes(a.k, b.k);
}

/// `(a + b) + c == a + (b + c)` where the four sums exist.
pub proof fn lemma_add_associates<T: ExactScalar>(a: Vector3d<T>, b: Vector3d<T>, c: Vector3d<T>)
    requires
        a.sum_with(b) is Ok,
        a.sum_with(b).unwrap().sum_with(c) is Ok,
        b.sum_with(c) is Ok,
        a.sum_with(b.sum_with(c).unwrap()) is Ok,
    ensures
        a.sum_with(b).unwrap().sum_with(c) == a.sum_with(b.sum_with(c).unwrap()),
{
    T::lemma_sum_associates(a.i, b.i, c.i);
    T::lemma_sum_associates(a.j, b.j, c.j);
    T::lemma_sum_associates(a.k, b.k, c.k);
}

/// `a + zero == a`.
pub proof fn lemma_add_zero<T: ExactScalar>(a: Vector3d<T>)
    ensures
        a.sum_with(Vector3d::zero_spec()) == Ok::<Vector3d<T>, VectorError>(a),
{
    T::lemma_sum_zero(a.i);
    T::lemma_sum_zero(a.j);
    T::lemma_sum_zero(a.k);
}

/// `(a * s) / s == a` for a non-zero `s`, where the product exists.
pub proof fn lemma_mul_div_cancels<T: ExactScalar>(a: Vector3d<T>, s: T)
    requires
        !s.is_zero_spec(),
        a.scaled_by(s) is Ok,
    ensures
        a.scaled_by(s).unwrap().divided_by(s) == Ok::<Vector3d<T>, VectorError>(a),
{
    T::lemma_product_cancels(a.i, s);
    T::lemma_product_cancels(a.j, s);
    T::lemma_product_cancels(a.k, s);
}

/// `a . b == b . a`, in its failures too.
pub proof fn lemma_dot_commutes<T: ExactScalar>(a: Vector3d<T>, b: Vector3d<T>)
    ensures
        a.dot_spec(b) == b.dot_spec(a),
{
    T::lemma_product_commutes(a.i, b.i);
    T::lemma_product_commutes(a.j, b.j);
    T::lemma_product_commutes(a.k, b.k);
}

/// `a x b == -(b x a)` where both sides exist.
pub proof fn lemma_cross_anticommutes<T: ExactScalar>(a: Vector3d<T>, b: Vector3d<T>)
    requires
        a.cross_spec(b) is Ok,
        b.cross_spec(a) is Ok,
        b.cross_spec(a).unwrap().negated() is Ok,
    ensures
        a.cross_spec(b) == b.cross_spec(a).unwrap().negated(),
{
    let jk = a.j.product(b.k).unwrap();
    let kj = b.j.product(a.k).unwrap();
    T::lemma_difference_reverses(jk, kj);
    let ik = a.i.product(b.k).unwrap();
    let ki = b.i.product(a.k).unwrap();
    T::lemma_difference_reverses(ik, ki);
    let ij = a.i.product(b.j).unwrap();
    let ji = b.i.product(a.j).unwrap();
    T::lemma_difference_reverses(ij, ji);
}

/// The zero vector has zero magnitude.
pub proof fn lemma_zero_has_zero_magnitude<T: ExactScalar>()
    ensures
        Vector3d::<T>::zero_spec().has_zero_magnitude(),
{
    let zero = T::zero_spec();
    T::lemma_product_by_zero(zero);
    T::lemma_sum_zero(zero);
    T::lemma_square_root_zero();
    T::lemma_zero(zero);
}

/// Normalising fails with a domain error exactly where the magnitude exists
/// and is zero.
pub proof fn lemma_unit_vector_domain<T: Scalar>(a: Vector3d<T>)
    ensures
        a.unit_vector_spec() == Err::<Vector3d<T>, VectorError>(VectorError::DomainError)
            <==> a.has_zero_magnitude(),
{
}

/// Normalising the zero vector is a domain error.
pub proof fn lemma_unit_vector_of_zero<T: ExactScalar>()
    ensures
        Vector3d::<T>::zero_spec().unit_vector_spec() == Err::<Vector3d<T>, VectorError>(
            VectorError::DomainError,
        ),
{
    lemma_zero_has_zero_magnitude::<T>();
}

/// The angle between a vector and itself is zero, where the vector has a
/// magnitude and that magnitude is not zero.
pub proof fn lemma_angle_with_itself<T: ExactScalar>(a: Vector3d<T>)
    requires
        a.magnitude_spec() is Some,
        !a.has_zero_magnitude(),
    ensures
        a.angle_rad_spec(a) == Ok::<T, VectorError>(T::zero_spec()),
{
    let d = a.dot_spec(a).unwrap();
    let m = a.magnitude_spec().unwrap();
    T::lemma_square_root_squares(d);
    if d.is_zero_spec() {
        T::lemma_product_zero(m, m);
    }
    T::lemma_quotient_self(d);
    T::lemma_arc_cosine_one();
}

/// The angle against a vector of zero magnitude, on either side, is a domain
/// error.
pub proof fn lemma_angle_with_zero_magnitude<T: Scalar>(a: Vector3d<T>, b: Vector3d<T>)
    requires
        a.has_zero_magnitude() || b.has_zero_magnitude(),
    ensures
        a.angle_rad_spec(b) == Err::<T, VectorError>(VectorError::DomainError),
{
}

/// Projecting onto the zero vector is a domain error.
pub proof fn lemma_project_onto_zero<T: ExactScalar>(u: Vector3d<T>)
    ensures
        Vector3d::project_spec(u, Vector3d::zero_spec()) == Err::<Vector3d<T>, VectorError>(
            VectorError::DomainError,
        ),
{
    let zero = T::zero_spec();
    T::lemma_product_by_zero(zero);
    T::lemma_sum_zero(zero);
    T::lemma_zero(zero);
}

/// Indexed access reads i, j and k at 0, 1 and 2.
pub proof fn lemma_components<T>(v: Vector3d<T>)
    ensures
        v@.len() == 3,
        v@[0] == v.i,
        v@[1] == v.j,
        v@[2] == v.k,
{
}

/// The components that a fresh iterator over `v` yields in a run of steps,
/// each from the back where its entry in `moves` is `true`.
pub open spec fn yielded<T>(v: Vector3d<T>, moves: Seq<bool>) -> Seq<T> {
    Cursor::start(3).trace(moves).map_values(|slot: nat| v@[slot as int])
}

/// Iterating forward yields i, j, k; iterating backward yields k, j, i; and
/// further steps yield nothing more.
pub proof fn lemma_iteration_order<T>(v: Vector3d<T>, steps: nat)
    requires
        steps >= 3,
    ensures
        yielded(v, uniform(steps, false)) == seq![v.i, v.j, v.k],
        yielded(v, uniform(steps, true)) == seq![v.k, v.j, v.i],
{
    lemma_trace_forward(Cursor::start(3), steps);
    lemma_trace_backward(Cursor::start(3), steps);
    assert(yielded(v, uniform(steps, false)) =~= seq![v.i, v.j, v.k]);
    assert(yielded(v, uniform(steps, true)) =~= seq![v.k, v.j, v.i]);
}

/// However steps from the front and from the back are mixed, one iterator
/// yields at most three components and no slot twice.
pub proof fn lemma_iteration_never_repeats<T>(v: Vector3d<T>, moves: Seq<bool>)
    ensures
        yielded(v, moves).len() <= 3,
        forall|x: int|
            0 <= x < yielded(v, moves).len() ==> (#[trigger] Cursor::start(3).trace(moves)[x]) < 3,
        forall|x: int, y: int|
            #![trigger Cursor::start(3).trace(moves)[x], Cursor::start(3).trace(moves)[y]]
            0 <= x < y < yielded(v, moves).len() ==> Cursor::start(3).trace(moves)[x]
                != Cursor::start(3).trace(moves)[y],
{
    lemma_trace_never_repeats(Cursor::start(3), moves);
}

/// `(u * m)^2 == m^2 * u^2`.
proof fn lemma_square_of_multiple(u: int, m: int)
    ensures
        (u * m) * (u * m) == (m * m) * (u * u),
{
    assert((u * m) * (u * m) == (m * m) * (u * u)) by (nonlinear_arith);
}

/// The unit vector of a vector of integers has magnitude one.
pub proof fn lemma_unit_vector_has_unit_magnitude(a: Vector3d<i64>)
    requires
        a.unit_vector_spec() is Ok,
    ensures
        a.unit_vector_spec().unwrap().magnitude_spec() == Some(1i64),
{
    let u = a.unit_vector_spec().unwrap();
    let m = a.magnitude_spec().unwrap();
    let d = a.dot_spec(a).unwrap();
    assert(m * m == d);
    assert(m != 0);
    assert(a.i == u.i * m) by {
        vstd::arithmetic::div_mod::lemma_fundamental_div_mod(a.i as int, m as int);
        assert(m * (a.i / m) == (a.i / m) * m) by (nonlinear_arith);
    }
    assert(a.j == u.j * m) by {
        vstd::arithmetic::div_mod::lemma_fundamental_div_mod(a.j as int, m as int);
        assert(m * (a.j / m) == (a.j / m) * m) by (nonlinear_arith);
    }
    assert(a.k == u.k * m) by {
        vstd::arithmetic::div_mod::lemma_fundamental_div_mod(a.k as int, m as int);
        assert(m * (a.k / m) == (a.k / m) * m) by (nonlinear_arith);
    }
    assert(d == a.i * a.i + a.j * a.j + a.k * a.k);
    let s = u.i * u.i + u.j * u.j + u.k * u.k;
    let mm = m * m;
    let (x, y, z) = (u.i * u.i, u.j * u.j, u.k * u.k);
    lemma_square_of_multiple(u.i as int, m as int);
    lemma_square_of_multiple(u.j as int, m as int);
    lemma_square_of_multiple(u.k as int, m as int);
    assert(mm * x + mm * y + mm * z == mm * s) by (nonlinear_arith)
        requires
            s == x + y + z,
    ;
    assert(s == 1) by (nonlinear_arith)
        requires
            mm == mm * s,
            mm == m * m,
            m != 0,
    ;
    assert(u.i * u.i >= 0 && u.j * u.j >= 0 && u.k * u.k >= 0) by (nonlinear_arith);
    crate::integer::lemma_square_root_of_square(1, 1);
}

} // verus!
