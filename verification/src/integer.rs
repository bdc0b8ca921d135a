//! Exact integer arithmetic as the element type of a vector: `i64`, where an
//! operation yields the mathematical result when that result is an integer in
//! range, and nothing otherwise.

use crate::scalar::{ExactScalar, Scalar};
use vstd::prelude::*;

verus! {

/// Whether `x` lies in the range of `i64`.
pub open spec fn fits(x: int) -> bool {
    i64::MIN <= x <= i64::MAX
}

/// Whether `r` is the non-negative integer square root of `x`.
pub open spec fn is_root_of(r: int, x: int) -> bool {
    0 <= r && r * r == x
}

/// The largest integer whose square fits in `i64`.
pub const MAX_ROOT: i64 = 3037000499;

/// Calls `num_traits::Zero::zero` for `i64`, which returns the constant 0.
#[verifier::external_body]
fn integer_zero() -> (r: i64)
    ensures
        r == 0,
{
    num_traits::Zero::zero()
}

/// Calls `num_traits::One::one` for `i64`, which returns the constant 1.
#[verifier::external_body]
fn integer_one() -> (r: i64)
    ensures
        r == 1,
{
    num_traits::One::one()
}

/// Squaring keeps the order of non-negative numbers.
proof fn lemma_square_monotonic(a: int, b: int)
    requires
        0 <= a <= b,
    ensures
        a * a <= b * b,
{
    assert(a * a <= a * b) by (nonlinear_arith)
        requires
            0 <= a <= b,
    ;
    assert(a * b <= b * b) by (nonlinear_arith)
        requires
            0 <= a <= b,
    ;
}

/// A square has one non-negative root.
pub proof fn lemma_root_unique(r: int, s: int, x: int)
    requires
        is_root_of(r, x),
        is_root_of(s, x),
    ensures
        r == s,
{
    if r < s {
        lemma_square_monotonic(r + 1, s);
        assert((r + 1) * (r + 1) == r * r + 2 * r + 1) by (nonlinear_arith);
    } else if s < r {
        lemma_square_monotonic(s + 1, r);
        assert((s + 1) * (s + 1) == s * s + 2 * s + 1) by (nonlinear_arith);
    }
}

/// The square root of a perfect square is its non-negative root.
pub proof fn lemma_square_root_of_square(r: i64, x: i64)
    requires
        is_root_of(r as int, x as int),
    ensures
        x.square_root() == Some(r),
{
    let chosen = choose|s: i64| is_root_of(s as int, x as int);
    lemma_root_unique(chosen as int, r as int, x as int);
}

/// Exact integer arithmetic: an operation yields the mathematical result when
/// that result is an integer in the range of `i64`, and `None` otherwise.
impl Scalar for i64 {
    open spec fn zero_spec() -> i64 {
        0
    }

    open spec fn one_spec() -> i64 {
        1
    }

    open spec fn is_zero_spec(self) -> bool {
        self == 0
    }

    open spec fn sum(self, rhs: i64) -> Option<i64> {
        if fits(self + rhs) {
            Some((self + rhs) as i64)
        } else {
            None
        }
    }

    open spec fn difference(self, rhs: i64) -> Option<i64> {
        if fits(self - rhs) {
            Some((self - rhs) as i64)
        } else {
            None
        }
    }

    open spec fn product(self, rhs: i64) -> Option<i64> {
        if fits(self * rhs) {
            Some((self * rhs) as i64)
        } else {
            None
        }
    }

    /// The quotient exists when `rhs` divides `self` without remainder.
    open spec fn quotient(self, rhs: i64) -> Option<i64> {
        if rhs != 0 && self % rhs == 0 && fits(self / rhs) {
            Some((self / rhs) as i64)
        } else {
            None
        }
    }

    open spec fn negation(self) -> Option<i64> {
        if fits(-self) {
            Some((-self) as i64)
        } else {
            None
        }
    }

    /// The root exists when `self` is a perfect square.
    open spec fn square_root(self) -> Option<i64> {
        if exists|r: i64| is_root_of(r as int, self as int) {
            Some(choose|r: i64| is_root_of(r as int, self as int))
        } else {
            None
        }
    }

    /// Among the integers only 1 has an integer inverse cosine, which is 0.
    open spec fn arc_cosine(self) -> Option<i64> {
        if self == 1 {
            Some(0)
        } else {
            None
        }
    }

    fn zero() -> (r: i64) {
        integer_zero()
    }

    fn one() -> (r: i64) {
        integer_one()
    }

    fn is_zero(&self) -> (b: bool) {
        *self == 0
    }

    fn try_add(self, rhs: i64) -> (r: Option<i64>) {
        self.checked_add(rhs)
    }

    fn try_sub(self, rhs: i64) -> (r: Option<i64>) {
        self.checked_sub(rhs)
    }

    fn try_mul(self, rhs: i64) -> (r: Option<i64>) {
        self.checked_mul(rhs)
    }

    fn try_div(self, rhs: i64) -> (r: Option<i64>) {
        if rhs == 0 {
            return None;
        }
        match self.checked_rem_euclid(rhs) {
            Some(0) => self.checked_div_euclid(rhs),
            _ => None,
        }
    }

    fn try_neg(self) -> (r: Option<i64>) {
        0i64.checked_sub(self)
    }

    fn try_sqrt(self) -> (r: Option<i64>) {
        if self < 0 {
            assert forall|r: i64| !is_root_of(r as int, self as int) by {
                assert(r * r >= 0) by (nonlinear_arith);
            }
            return None;
        }
        let mut low: i64 = 0;
        let mut high: i64 = MAX_ROOT + 1;
        proof {
            assert((MAX_ROOT + 1) * (MAX_ROOT + 1) > i64::MAX) by (nonlinear_arith);
        }
        while high - low > 1
            invariant
                0 <= low < high <= MAX_ROOT + 1,
                low * low <= self,
                self < high * high,
            decreases high - low,
        {
            let middle: i64 = low + (high - low) / 2;
            proof {
                lemma_square_monotonic(middle as int, MAX_ROOT as int);
                assert(MAX_ROOT * MAX_ROOT <= i64::MAX) by (nonlinear_arith);
            }
            if middle * middle <= self {
                low = middle;
            } else {
                high = middle;
            }
        }
        proof {
            lemma_square_monotonic(low as int, MAX_ROOT as int);
            assert(MAX_ROOT * MAX_ROOT <= i64::MAX) by (nonlinear_arith);
        }
        if low * low == self {
            proof {
                assert(is_root_of(low as int, self as int));
                let chosen = choose|r: i64| is_root_of(r as int, self as int);
                lemma_root_unique(chosen as int, low as int, self as int);
            }
            Some(low)
        } else {
            assert forall|r: i64| !is_root_of(r as int, self as int) by {
                if 0 <= r {
                    if r <= low {
                        lemma_square_monotonic(r as int, low as int);
                    } else {
                        lemma_square_monotonic(high as int, r as int);
                    }
                }
            }
            None
        }
    }

    fn try_acos(self) -> (r: Option<i64>) {
        if self == 1 {
            Some(0)
        } else {
            None
        }
    }
}

impl ExactScalar for i64 {
    proof fn lemma_zero(x: i64) {
    }

    proof fn lemma_sum_commutes(a: i64, b: i64) {
    }

    proof fn lemma_sum_zero(a: i64) {
    }

    proof fn lemma_sum_associates(a: i64, b: i64, c: i64) {
    }

    proof fn lemma_product_commutes(a: i64, b: i64) {
        assert(a * b == b * a) by (nonlinear_arith);
    }

    proof fn lemma_product_by_zero(a: i64) {
        assert(a * 0 == 0) by (nonlinear_arith);
    }

    proof fn lemma_product_zero(a: i64, b: i64) {
        assert(a * b == 0 ==> a == 0 || b == 0) by (nonlinear_arith);
    }

    proof fn lemma_product_cancels(a: i64, s: i64) {
        lemma_exact_division(a as int, s as int);
    }

    proof fn lemma_quotient_self(x: i64) {
        lemma_exact_division(1, x as int);
    }

    proof fn lemma_difference_reverses(a: i64, b: i64) {
    }

    proof fn lemma_square_root_squares(x: i64) {
    }

    proof fn lemma_square_root_zero() {
        lemma_square_root_of_square(0, 0);
    }

    proof fn lemma_arc_cosine_one() {
    }
}

/// A multiple of a non-zero divisor divides without remainder, and the
/// quotient is the other factor.
pub proof fn lemma_exact_division(q: int, d: int)
    requires
        d != 0,
    ensures
        (q * d) % d == 0,
        (q * d) / d == q,
{
    if d > 0 {
        vstd::arithmetic::div_mod::lemma_fundamental_div_mod_converse(q * d, d, q, 0);
    } else {
        let p = q * d;
        assert(-p == q * (-d)) by (nonlinear_arith)
            requires
                p == q * d,
        ;
        vstd::arithmetic::div_mod::lemma_fundamental_div_mod_converse(-p, -d, q, 0);
        assert(p % d == 0 && p / d == q) by (nonlinear_arith)
            requires
                d < 0,
                (-p) % (-d) == 0,
                (-p) / (-d) == q,
                p == q * d,
        ;
    }
}

} // verus!
