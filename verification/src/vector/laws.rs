//! Laws of [`Vector`] arithmetic and geometry, for every element type whose
//! arithmetic is exact.

use crate::error::VectorError;
use crate::scalar::{ExactScalar, Scalar};
use crate::vector::ops::{products, quotients, scaled_down, sums};
use crate::vector::{dot_upto, gather, Vector};
use vstd::prelude::*;

verus! {

/// `a + b == b + a`, in its failures too.
pub proof fn lemma_add_commutes<T: ExactScalar, const N: usize>(a: Vector<T, N>, b: Vector<T, N>)
    ensures
        gather(sums(a@, b@)) == gather(sums(b@, a@)),
{
    assert forall|x: int| 0 <= x < N implies sums(a@, b@)[x] == sums(b@, a@)[x] by {
        T::lemma_sum_commutes(a@[x], b@[x]);
    }
    assert(sums(a@, b@) =~= sums(b@, a@));
}

/// `(a + b) + c == a + (b + c)` where the four sums exist.
pub proof fn lemma_add_associates<T: ExactScalar, const N: usize>(
    a: Vector<T, N>,
    b: Vector<T, N>,
    c: Vector<T, N>,
)
    requires
        gather(sums(a@, b@)) is Ok,
        gather(sums(gather(sums(a@, b@)).unwrap(), c@)) is Ok,
        gather(sums(b@, c@)) is Ok,
        gather(sums(a@, gather(sums(b@, c@)).unwrap())) is Ok,
    ensures
        gather(sums(gather(sums(a@, b@)).unwrap(), c@)) == gather(
            sums(a@, gather(sums(b@, c@)).unwrap()),
        ),
{
    let ab = gather(sums(a@, b@)).unwrap();
    let bc = gather(sums(b@, c@)).unwrap();
    assert forall|x: int| 0 <= x < N implies sums(ab, c@)[x] == sums(a@, bc)[x] by {
        assert(sums(a@, b@)[x] is Some);
        assert(sums(b@, c@)[x] is Some);
        assert(sums(ab, c@)[x] is Some);
        assert(sums(a@, bc)[x] is Some);
        T::lemma_sum_associates(a@[x], b@[x], c@[x]);
    }
    assert(sums(ab, c@) =~= sums(a@, bc));
}

/// `a + zero == a`.
pub proof fn lemma_add_zero<T: ExactScalar, const N: usize>(a: Vector<T, N>)
    ensures
        gather(sums(a@, Vector::<T, N>::zero_spec())) == Ok::<Seq<T>, VectorError>(a@),
{
    let all = sums(a@, Vector::<T, N>::zero_spec());
    assert forall|x: int| 0 <= x < N implies all[x] == Some(a@[x]) by {
        T::lemma_sum_zero(a@[x]);
    }
    assert(gather(all).unwrap() =~= a@);
}

/// `(a * s) / s == a` for a non-zero `s`, where the product exists.
pub proof fn lemma_mul_div_cancels<T: ExactScalar, const N: usize>(a: Vector<T, N>, s: T)
    requires
        !s.is_zero_spec(),
        gather(products(a@, s)) is Ok,
    ensures
        scaled_down(gather(products(a@, s)).unwrap(), s) == Ok::<Seq<T>, VectorError>(a@),
{
    let scaled = gather(products(a@, s)).unwrap();
    let all = quotients(scaled, s);
    assert forall|x: int| 0 <= x < N implies all[x] == Some(a@[x]) by {
        assert(products(a@, s)[x] is Some);
        T::lemma_product_cancels(a@[x], s);
    }
    assert(gather(all).unwrap() =~= a@);
}

/// The dot product of two prefixes does not depend on the order of the operands.
pub proof fn lemma_dot_upto_commutes<T: ExactScalar>(a: Seq<T>, b: Seq<T>, n: nat)
    ensures
        dot_upto(a, b, n) == dot_upto(b, a, n),
    decreases n,
{
    if n > 0 {
        lemma_dot_upto_commutes(a, b, (n - 1) as nat);
        T::lemma_product_commutes(a[n - 1], b[n - 1]);
    }
}

/// `a . b == b . a`, in its failures too.
pub proof fn lemma_dot_commutes<T: ExactScalar, const N: usize>(a: Vector<T, N>, b: Vector<T, N>)
    ensures
        a.dot_spec(b) == b.dot_spec(a),
{
    lemma_dot_upto_commutes(a@, b@, N as nat);
}

/// Every prefix of the dot product of the zero vector with itself is zero.
proof fn lemma_dot_upto_of_zero<T: ExactScalar>(count: nat, n: nat)
    requires
        n <= count,
    ensures
        dot_upto(
            Seq::new(count, |x: int| T::zero_spec()),
            Seq::new(count, |x: int| T::zero_spec()),
            n,
        ) == Some(T::zero_spec()),
    decreases n,
{
    if n > 0 {
        lemma_dot_upto_of_zero::<T>(count, (n - 1) as nat);
        T::lemma_product_by_zero(T::zero_spec());
        T::lemma_sum_zero(T::zero_spec());
    }
}

/// Normalising fails with a domain error exactly where the magnitude exists
/// and is zero.
pub proof fn lemma_unit_vector_domain<T: Scalar, const N: usize>(a: Vector<T, N>)
    ensures
        a.unit_vector_spec() == Err::<Seq<T>, VectorError>(VectorError::DomainError)
            <==> a.has_zero_magnitude(),
{
    let m = a.magnitude_spec();
    if m is Some && !m.unwrap().is_zero_spec() {
        assert(scaled_down(a@, m.unwrap()) == gather(quotients(a@, m.unwrap())));
    }
}

/// The vector of zeros has zero magnitude, so normalising it is a domain error.
pub proof fn lemma_unit_vector_of_zero<T: ExactScalar, const N: usize>(zero: Vector<T, N>)
    requires
        zero@ == Vector::<T, N>::zero_spec(),
    ensures
        zero.has_zero_magnitude(),
        zero.unit_vector_spec() == Err::<Seq<T>, VectorError>(VectorError::DomainError),
{
    lemma_dot_upto_of_zero::<T>(N as nat, N as nat);
    T::lemma_square_root_zero();
    T::lemma_zero(T::zero_spec());
}

/// The angle between a vector and itself is zero, where the vector has a
/// magnitude and that magnitude is not zero.
pub proof fn lemma_angle_with_itself<T: ExactScalar, const N: usize>(a: Vector<T, N>)
    requires
        a.magnitude_spec() is Some,
        !a.has_zero_magnitude(),
    ensures
        a.angle_rad_spec(a) == Ok::<T, VectorError>(T::zero_spec()),
{
    let d = a.dot_spec(a).unwrap();
    let m = a.magnitude_spec().unwrap();
    T::lemma_square_root_squares(d);
    if d.is_zero_spec() {
        T::lemma_product_zero(m, m);
    }
    T::lemma_quotient_self(d);
    T::lemma_arc_cosine_one();
}

/// The angle against a vector of zero magnitude, on either side, is a domain
/// error.
pub proof fn lemma_angle_with_zero_magnitude<T: Scalar, const N: usize>(
    a: Vector<T, N>,
    b: Vector<T, N>,
)
    requires
        a.has_zero_magnitude() || b.has_zero_magnitude(),
    ensures
        a.angle_rad_spec(b) == Err::<T, VectorError>(VectorError::DomainError),
{
}

/// The sum of the squares of the first `n` components, as a number.
pub open spec fn sum_of_squares(s: Seq<i64>, n: nat) -> int
    decreases n,
{
    if n == 0 {
        0
    } else {
        sum_of_squares(s, (n - 1) as nat) + s[n - 1] * s[n - 1]
    }
}

/// Sums of squares are not negative and do not fall as components are added.
proof fn lemma_sum_of_squares_grows(s: Seq<i64>, n: nat, m: nat)
    requires
        n <= m,
    ensures
        0 <= sum_of_squares(s, n) <= sum_of_squares(s, m),
    decreases m,
{
    if n < m {
        lemma_sum_of_squares_grows(s, n, (m - 1) as nat);
        assert(s[m - 1] * s[m - 1] >= 0) by (nonlinear_arith);
    } else if n > 0 {
        lemma_sum_of_squares_grows(s, (n - 1) as nat, (n - 1) as nat);
        assert(s[n - 1] * s[n - 1] >= 0) by (nonlinear_arith);
    }
}

/// Where the dot product of a prefix with itself exists, it is the sum of
/// the squares.
proof fn lemma_dot_upto_is_sum_of_squares(s: Seq<i64>, n: nat)
    requires
        dot_upto(s, s, n) is Some,
    ensures
        dot_upto(s, s, n).unwrap() == sum_of_squares(s, n),
    decreases n,
{
    if n > 0 {
        lemma_dot_upto_is_sum_of_squares(s, (n - 1) as nat);
    }
}

/// Where the sum of all squares fits the element type, the dot product of
/// every prefix with itself exists.
proof fn lemma_dot_upto_exists(s: Seq<i64>, n: nat, count: nat)
    requires
        n <= count,
        sum_of_squares(s, count) <= i64::MAX,
    ensures
        dot_upto(s, s, n) == Some(sum_of_squares(s, n) as i64),
    decreases n,
{
    if n > 0 {
        lemma_dot_upto_exists(s, (n - 1) as nat, count);
        lemma_sum_of_squares_grows(s, (n - 1) as nat, n);
        lemma_sum_of_squares_grows(s, n, count);
        lemma_sum_of_squares_grows(s, 0, (n - 1) as nat);
    }
}

/// Scaling every component by `m` scales the sum of squares by `m * m`.
proof fn lemma_sum_of_squares_scales(a: Seq<i64>, u: Seq<i64>, m: int, n: nat)
    requires
        forall|x: int| 0 <= x < n ==> (#[trigger] a[x]) == u[x] * m,
    ensures
        sum_of_squares(a, n) == (m * m) * sum_of_squares(u, n),
    decreases n,
{
    if n > 0 {
        lemma_sum_of_squares_scales(a, u, m, (n - 1) as nat);
        let before = sum_of_squares(u, (n - 1) as nat);
        let last = u[n - 1] * u[n - 1];
        assert(a[n - 1] == u[n - 1] * m);
        assert((u[n - 1] * m) * (u[n - 1] * m) == (m * m) * last) by (nonlinear_arith)
            requires
                last == u[n - 1] * u[n - 1],
        ;
        assert((m * m) * before + (m * m) * last == (m * m) * (before + last))
            by (nonlinear_arith);
    } else {
        assert((m * m) * 0 == 0) by (nonlinear_arith);
    }
}

/// The unit vector of a vector of integers has magnitude one.
pub proof fn lemma_unit_vector_has_unit_magnitude<const N: usize>(
    a: Vector<i64, N>,
    u: Vector<i64, N>,
)
    requires
        a.unit_vector_spec() == Ok::<Seq<i64>, VectorError>(u@),
    ensures
        u.magnitude_spec() == Some(1i64),
{
    let m = a.magnitude_spec().unwrap();
    let d = a.dot_spec(a).unwrap();
    assert(m * m == d);
    assert(m != 0);
    assert forall|x: int| 0 <= x < N implies (#[trigger] a@[x]) == u@[x] * m by {
        assert(quotients(a@, m)[x] is Some);
        vstd::arithmetic::div_mod::lemma_fundamental_div_mod(a@[x] as int, m as int);
        assert(m * (a@[x] / m) == (a@[x] / m) * m) by (nonlinear_arith);
    }
    lemma_dot_upto_is_sum_of_squares(a@, N as nat);
    lemma_sum_of_squares_scales(a@, u@, m as int, N as nat);
    let total = sum_of_squares(u@, N as nat);
    let mm = m * m;
    assert(total == 1) by (nonlinear_arith)
        requires
            mm == mm * total,
            mm == m * m,
            m != 0,
    ;
    lemma_dot_upto_exists(u@, N as nat, N as nat);
    crate::integer::lemma_square_root_of_square(1, 1);
}

} // verus!
