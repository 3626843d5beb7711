//! Capability traits for the element types of a vector.
//!
//! [`Scalar`] is the ring-level capability: addition, subtraction,
//! multiplication, division, remainder and the identities zero and one.
//! Every scalar is modeled by a mathematical integer through
//! [`Scalar::as_int`], and every contract of the library is stated over that
//! model. [`OrderScalar`] adds comparison; [`SignedScalar`] adds negation.

use vstd::arithmetic::div_mod::lemma_div_basics;
use vstd::arithmetic::div_mod::lemma_fundamental_div_mod;
use vstd::prelude::*;

verus! {

/// The absolute value of a mathematical integer.
pub open spec fn abs_int(v: int) -> int {
    if v < 0 {
        -v
    } else {
        v
    }
}

/// Quotient of division truncated toward zero, the convention of the
/// integer domains: the magnitude is divided, and the sign of the result
/// follows the signs of the operands.
pub open spec fn trunc_div(a: int, b: int) -> int {
    if (a < 0) == (b < 0) {
        abs_int(a) / abs_int(b)
    } else {
        -(abs_int(a) / abs_int(b))
    }
}

/// Remainder matching [`trunc_div`]: `a == b * trunc_div(a, b) + trunc_rem(a, b)`,
/// with the sign of the dividend.
pub open spec fn trunc_rem(a: int, b: int) -> int {
    a - b * trunc_div(a, b)
}

/// The Euclidean quotient negates with its divisor, and the Euclidean
/// remainder does not depend on the divisor's sign.
proof fn lemma_euclid_neg_divisor(a: int, b: int)
    requires
        b > 0,
    ensures
        a / (-b) == -(a / b),
        a % (-b) == a % b,
{
    assert(a / (-b) == -(a / b) && a % (-b) == a % b) by (nonlinear_arith)
        requires
            b > 0,
    ;
}

/// On a nonnegative dividend and positive divisor the truncated operations
/// coincide with the Euclidean ones.
proof fn lemma_trunc_unsigned(a: int, b: int)
    requires
        a >= 0,
        b > 0,
    ensures
        trunc_div(a, b) == a / b,
        trunc_rem(a, b) == a % b,
{
    lemma_fundamental_div_mod(a, b);
}

/// The truncated quotient in terms of the Euclidean one, in the shape the
/// executable operators of the signed domains take.
proof fn lemma_trunc_div_euclid(a: int, b: int)
    requires
        b != 0,
    ensures
        a >= 0 ==> trunc_div(a, b) == a / b,
        a < 0 ==> trunc_div(a, b) == -((-a) / b),
{
    if b < 0 {
        if a >= 0 {
            lemma_euclid_neg_divisor(a, -b);
        } else {
            lemma_euclid_neg_divisor(-a, -b);
        }
    }
}

/// The truncated remainder in terms of the Euclidean one, in the shape the
/// executable operators of the signed domains take.
proof fn lemma_trunc_rem_euclid(a: int, b: int)
    requires
        b != 0,
    ensures
        a >= 0 ==> trunc_rem(a, b) == a % b,
        a < 0 ==> trunc_rem(a, b) == -((-a) % b),
{
    lemma_trunc_div_euclid(a, b);
    if a >= 0 {
        lemma_fundamental_div_mod(a, b);
    } else {
        let m = -a;
        lemma_fundamental_div_mod(m, b);
        assert(trunc_div(a, b) == -(m / b));
        assert(b * (-(m / b)) == -(b * (m / b))) by (nonlinear_arith);
        assert(trunc_rem(a, b) == a + b * (m / b));
        assert(b * (m / b) == m - m % b);
        assert(trunc_rem(a, b) == -(m % b));
    }
}

/// A ring-like scalar: the element capability every vector requires.
///
/// A scalar is a copyable value modeled by a mathematical integer in the
/// interval `[min_int(), max_int()]`. The model determines the value
/// ([`Scalar::lemma_injective`]), so a contract over models pins the result
/// of an operation down exactly.
pub trait Scalar: Sized + Copy {
    /// The mathematical integer this value stands for.
    spec fn as_int(self) -> int;

    /// The least integer representable in this domain.
    spec fn min_int() -> int;

    /// The greatest integer representable in this domain.
    spec fn max_int() -> int;

    /// Every value lies within the domain's bounds.
    proof fn lemma_bounds(self)
        ensures
            Self::min_int() <= self.as_int() <= Self::max_int(),
    ;

    /// The model determines the value: equal models mean equal values.
    proof fn lemma_injective(self, other: Self)
        ensures
            self.as_int() == other.as_int() ==> self == other,
    ;

    /// The additive identity.
    fn zero_val() -> (r: Self)
        ensures
            r.as_int() == 0,
    ;

    /// The multiplicative identity.
    fn one_val() -> (r: Self)
        ensures
            r.as_int() == 1,
    ;

    /// Addition in the domain.
    fn add_val(self, rhs: Self) -> (r: Self)
        requires
            Self::min_int() <= self.as_int() + rhs.as_int() <= Self::max_int(),
        ensures
            r.as_int() == self.as_int() + rhs.as_int(),
    ;

    /// Subtraction in the domain.
    fn sub_val(self, rhs: Self) -> (r: Self)
        requires
            Self::min_int() <= self.as_int() - rhs.as_int() <= Self::max_int(),
        ensures
            r.as_int() == self.as_int() - rhs.as_int(),
    ;

    /// Multiplication in the domain.
    fn mul_val(self, rhs: Self) -> (r: Self)
        requires
            Self::min_int() <= self.as_int() * rhs.as_int() <= Self::max_int(),
        ensures
            r.as_int() == self.as_int() * rhs.as_int(),
    ;

    /// Division in the domain, truncated toward zero.
    fn div_val(self, rhs: Self) -> (r: Self)
        requires
            rhs.as_int() != 0,
            Self::min_int() <= trunc_div(self.as_int(), rhs.as_int()) <= Self::max_int(),
        ensures
            r.as_int() == trunc_div(self.as_int(), rhs.as_int()),
    ;

    /// Remainder matching [`Scalar::div_val`].
    fn rem_val(self, rhs: Self) -> (r: Self)
        requires
            rhs.as_int() != 0,
            Self::min_int() <= trunc_div(self.as_int(), rhs.as_int()) <= Self::max_int(),
        ensures
            r.as_int() == trunc_rem(self.as_int(), rhs.as_int()),
    ;

    /// Equality in the domain.
    fn eq_val(self, rhs: Self) -> (r: bool)
        ensures
            r <==> self.as_int() == rhs.as_int(),
    ;
}

/// Whether the integer `v` is representable in the domain `T`.
pub open spec fn fits<T: Scalar>(v: int) -> bool {
    T::min_int() <= v && v <= T::max_int()
}

/// A scalar domain with an order: compared by the integer model.
pub trait OrderScalar: Scalar {
    /// Strict comparison in the domain.
    fn lt_val(self, rhs: Self) -> (r: bool)
        ensures
            r <==> self.as_int() < rhs.as_int(),
    ;
}

/// A scalar domain with negation.
pub trait SignedScalar: Scalar {
    /// Arithmetic negation in the domain.
    fn neg_val(self) -> (r: Self)
        requires
            Self::min_int() <= -self.as_int() <= Self::max_int(),
        ensures
            r.as_int() == -self.as_int(),
    ;
}

impl Scalar for u8 {
    open spec fn as_int(self) -> int {
        self as int
    }

    open spec fn min_int() -> int {
        0
    }

    open spec fn max_int() -> int {
        u8::MAX as int
    }

    proof fn lemma_bounds(self) {
    }

    proof fn lemma_injective(self, other: Self) {
    }

    fn zero_val() -> Self {
        0
    }

    fn one_val() -> Self {
        1
    }

    fn add_val(self, rhs: Self) -> Self {
        self + rhs
    }

    fn sub_val(self, rhs: Self) -> Self {
        self - rhs
    }

    fn mul_val(self, rhs: Self) -> Self {
        self * rhs
    }

    fn div_val(self, rhs: Self) -> Self {
        proof {
            lemma_trunc_unsigned(self as int, rhs as int);
        }
        self / rhs
    }

    fn rem_val(self, rhs: Self) -> Self {
        proof {
            lemma_trunc_unsigned(self as int, rhs as int);
        }
        self % rhs
    }

    fn eq_val(self, rhs: Self) -> bool {
        self == rhs
    }
}

impl OrderScalar for u8 {
    fn lt_val(self, rhs: Self) -> bool {
        self < rhs
    }
}

impl Scalar for i8 {
    open spec fn as_int(self) -> int {
        self as int
    }

    open spec fn min_int() -> int {
        i8::MIN as int
    }

    open spec fn max_int() -> int {
        i8::MAX as int
    }

    proof fn lemma_bounds(self) {
    }

    proof fn lemma_injective(self, other: Self) {
    }

    fn zero_val() -> Self {
        0
    }

    fn one_val() -> Self {
        1
    }

    fn add_val(self, rhs: Self) -> Self {
        self + rhs
    }

    fn sub_val(self, rhs: Self) -> Self {
        self - rhs
    }

    fn mul_val(self, rhs: Self) -> Self {
        self * rhs
    }

    fn div_val(self, rhs: Self) -> Self {
        proof {
            lemma_trunc_div_euclid(self as int, rhs as int);
        }
        self / rhs
    }

    fn rem_val(self, rhs: Self) -> Self {
        proof {
            lemma_trunc_div_euclid(self as int, rhs as int);
            lemma_trunc_rem_euclid(self as int, rhs as int);
        }
        self % rhs
    }

    fn eq_val(self, rhs: Self) -> bool {
        self == rhs
    }
}

impl OrderScalar for i8 {
    fn lt_val(self, rhs: Self) -> bool {
        self < rhs
    }
}

impl SignedScalar for i8 {
    fn neg_val(self) -> Self {
        -self
    }
}

impl Scalar for u16 {
    open spec fn as_int(self) -> int {
        self as int
    }

    open spec fn min_int() -> int {
        0
    }

    open spec fn max_int() -> int {
        u16::MAX as int
    }

    proof fn lemma_bounds(self) {
    }

    proof fn lemma_injective(self, other: Self) {
    }

    fn zero_val() -> Self {
        0
    }

    fn one_val() -> Self {
        1
    }

    fn add_val(self, rhs: Self) -> Self {
        self + rhs
    }

    fn sub_val(self, rhs: Self) -> Self {
        self - rhs
    }

    fn mul_val(self, rhs: Self) -> Self {
        self * rhs
    }

    fn div_val(self, rhs: Self) -> Self {
        proof {
            lemma_trunc_unsigned(self as int, rhs as int);
        }
        self / rhs
    }

    fn rem_val(self, rhs: Self) -> Self {
        proof {
            lemma_trunc_unsigned(self as int, rhs as int);
        }
        self % rhs
    }

    fn eq_val(self, rhs: Self) -> bool {
        self == rhs
    }
}

impl OrderScalar for u16 {
    fn lt_val(self, rhs: Self) -> bool {
        self < rhs
    }
}

impl Scalar for u32 {
    open spec fn as_int(self) -> int {
        self as int
    }

    open spec fn min_int() -> int {
        0
    }

    open spec fn max_int() -> int {
        u32::MAX as int
    }

    proof fn lemma_bounds(self) {
    }

    proof fn lemma_injective(self, other: Self) {
    }

    fn zero_val() -> Self {
        0
    }

    fn one_val() -> Self {
        1
    }

    fn add_val(self, rhs: Self) -> Self {
        self + rhs
    }

    fn sub_val(self, rhs: Self) -> Self {
        self - rhs
    }

    fn mul_val(self, rhs: Self) -> Self {
        self * rhs
    }

    fn div_val(self, rhs: Self) -> Self {
        proof {
            lemma_trunc_unsigned(self as int, rhs as int);
        }
        self / rhs
    }

    fn rem_val(self, rhs: Self) -> Self {
        proof {
            lemma_trunc_unsigned(self as int, rhs as int);
        }
        self % rhs
    }

    fn eq_val(self, rhs: Self) -> bool {
        self == rhs
    }
}

impl OrderScalar for u32 {
    fn lt_val(self, rhs: Self) -> bool {
        self < rhs
    }
}

impl Scalar for u64 {
    open spec fn as_int(self) -> int {
        self as int
    }

    open spec fn min_int() -> int {
        0
    }

    open spec fn max_int() -> int {
        u64::MAX as int
    }

    proof fn lemma_bounds(self) {
    }

    proof fn lemma_injective(self, other: Self) {
    }

    fn zero_val() -> Self {
        0
    }

    fn one_val() -> Self {
        1
    }

    fn add_val(self, rhs: Self) -> Self {
        self + rhs
    }

    fn sub_val(self, rhs: Self) -> Self {
        self - rhs
    }

    fn mul_val(self, rhs: Self) -> Self {
        self * rhs
    }

    fn div_val(self, rhs: Self) -> Self {
        proof {
            lemma_trunc_unsigned(self as int, rhs as int);
        }
        self / rhs
    }

    fn rem_val(self, rhs: Self) -> Self {
        proof {
            lemma_trunc_unsigned(self as int, rhs as int);
        }
        self % rhs
    }

    fn eq_val(self, rhs: Self) -> bool {
        self == rhs
    }
}

impl OrderScalar for u64 {
    fn lt_val(self, rhs: Self) -> bool {
        self < rhs
    }
}

impl Scalar for u128 {
    open spec fn as_int(self) -> int {
        self as int
    }

    open spec fn min_int() -> int {
        0
    }

    open spec fn max_int() -> int {
        u128::MAX as int
    }

    proof fn lemma_bounds(self) {
    }

    proof fn lemma_injective(self, other: Self) {
    }

    fn zero_val() -> Self {
        0
    }

    fn one_val() -> Self {
        1
    }

    fn add_val(self, rhs: Self) -> Self {
        self + rhs
    }

    fn sub_val(self, rhs: Self) -> Self {
        self - rhs
    }

    fn mul_val(self, rhs: Self) -> Self {
        self * rhs
    }

    fn div_val(self, rhs: Self) -> Self {
        proof {
            lemma_trunc_unsigned(self as int, rhs as int);
        }
        self / rhs
    }

    fn rem_val(self, rhs: Self) -> Self {
        proof {
            lemma_trunc_unsigned(self as int, rhs as int);
        }
        self % rhs
    }

    fn eq_val(self, rhs: Self) -> bool {
        self == rhs
    }
}

impl OrderScalar for u128 {
    fn lt_val(self, rhs: Self) -> bool {
        self < rhs
    }
}

impl Scalar for usize {
    open spec fn as_int(self) -> int {
        self as int
    }

    open spec fn min_int() -> int {
        0
    }

    open spec fn max_int() -> int {
        usize::MAX as int
    }

    proof fn lemma_bounds(self) {
    }

    proof fn lemma_injective(self, other: Self) {
    }

    fn zero_val() -> Self {
        0
    }

    fn one_val() -> Self {
        1
    }

    fn add_val(self, rhs: Self) -> Self {
        self + rhs
    }

    fn sub_val(self, rhs: Self) -> Self {
        self - rhs
    }

    fn mul_val(self, rhs: Self) -> Self {
        self * rhs
    }

    fn div_val(self, rhs: Self) -> Self {
        proof {
            lemma_trunc_unsigned(self as int, rhs as int);
        }
        self / rhs
    }

    fn rem_val(self, rhs: Self) -> Self {
        proof {
            lemma_trunc_unsigned(self as int, rhs as int);
        }
        self % rhs
    }

    fn eq_val(self, rhs: Self) -> bool {
        self == rhs
    }
}

impl OrderScalar for usize {
    fn lt_val(self, rhs: Self) -> bool {
        self < rhs
    }
}

impl Scalar for i16 {
    open spec fn as_int(self) -> int {
        self as int
    }

    open spec fn min_int() -> int {
        i16::MIN as int
    }

    open spec fn max_int() -> int {
        i16::MAX as int
    }

    proof fn lemma_bounds(self) {
    }

    proof fn lemma_injective(self, other: Self) {
    }

    fn zero_val() -> Self {
        0
    }

    fn one_val() -> Self {
        1
    }

    fn add_val(self, rhs: Self) -> Self {
        self + rhs
    }

    fn sub_val(self, rhs: Self) -> Self {
        self - rhs
    }

    fn mul_val(self, rhs: Self) -> Self {
        self * rhs
    }

    fn div_val(self, rhs: Self) -> Self {
        proof {
            lemma_trunc_div_euclid(self as int, rhs as int);
        }
        self / rhs
    }

    fn rem_val(self, rhs: Self) -> Self {
        proof {
            lemma_trunc_div_euclid(self as int, rhs as int);
            lemma_trunc_rem_euclid(self as int, rhs as int);
        }
        self % rhs
    }

    fn eq_val(self, rhs: Self) -> bool {
        self == rhs
    }
}

impl OrderScalar for i16 {
    fn lt_val(self, rhs: Self) -> bool {
        self < rhs
    }
}

impl SignedScalar for i16 {
    fn neg_val(self) -> Self {
        -self
    }
}

impl Scalar for i32 {
    open spec fn as_int(self) -> int {
        self as int
    }

    open spec fn min_int() -> int {
        i32::MIN as int
    }

    open spec fn max_int() -> int {
        i32::MAX as int
    }

    proof fn lemma_bounds(self) {
    }

    proof fn lemma_injective(self, other: Self) {
    }

    fn zero_val() -> Self {
        0
    }

    fn one_val() -> Self {
        1
    }

    fn add_val(self, rhs: Self) -> Self {
        self + rhs
    }

    fn sub_val(self, rhs: Self) -> Self {
        self - rhs
    }

    fn mul_val(self, rhs: Self) -> Self {
        self * rhs
    }

    fn div_val(self, rhs: Self) -> Self {
        proof {
            lemma_trunc_div_euclid(self as int, rhs as int);
        }
        self / rhs
    }

    fn rem_val(self, rhs: Self) -> Self {
        proof {
            lemma_trunc_div_euclid(self as int, rhs as int);
            lemma_trunc_rem_euclid(self as int, rhs as int);
        }
        self % rhs
    }

    fn eq_val(self, rhs: Self) -> bool {
        self == rhs
    }
}

impl OrderScalar for i32 {
    fn lt_val(self, rhs: Self) -> bool {
        self < rhs
    }
}

impl SignedScalar for i32 {
    fn neg_val(self) -> Self {
        -self
    }
}

impl Scalar for i64 {
    open spec fn as_int(self) -> int {
        self as int
    }

    open spec fn min_int() -> int {
        i64::MIN as int
    }

    open spec fn max_int() -> int {
        i64::MAX as int
    }

    proof fn lemma_bounds(self) {
    }

    proof fn lemma_injective(self, other: Self) {
    }

    fn zero_val() -> Self {
        0
    }

    fn one_val() -> Self {
        1
    }

    fn add_val(self, rhs: Self) -> Self {
        self + rhs
    }

    fn sub_val(self, rhs: Self) -> Self {
        self - rhs
    }

    fn mul_val(self, rhs: Self) -> Self {
        self * rhs
    }

    fn div_val(self, rhs: Self) -> Self {
        proof {
            lemma_trunc_div_euclid(self as int, rhs as int);
        }
        self / rhs
    }

    fn rem_val(self, rhs: Self) -> Self {
        proof {
            lemma_trunc_div_euclid(self as int, rhs as int);
            lemma_trunc_rem_euclid(self as int, rhs as int);
        }
        self % rhs
    }

    fn eq_val(self, rhs: Self) -> bool {
        self == rhs
    }
}

impl OrderScalar for i64 {
    fn lt_val(self, rhs: Self) -> bool {
        self < rhs
    }
}

impl SignedScalar for i64 {
    fn neg_val(self) -> Self {
        -self
    }
}

impl Scalar for i128 {
    open spec fn as_int(self) -> int {
        self as int
    }

    open spec fn min_int() -> int {
        i128::MIN as int
    }

    open spec fn max_int() -> int {
        i128::MAX as int
    }

    proof fn lemma_bounds(self) {
    }

    proof fn lemma_injective(self, other: Self) {
    }

    fn zero_val() -> Self {
        0
    }

    fn one_val() -> Self {
        1
    }

    fn add_val(self, rhs: Self) -> Self {
        self + rhs
    }

    fn sub_val(self, rhs: Self) -> Self {
        self - rhs
    }

    fn mul_val(self, rhs: Self) -> Self {
        self * rhs
    }

    fn div_val(self, rhs: Self) -> Self {
        proof {
            lemma_trunc_div_euclid(self as int, rhs as int);
        }
        self / rhs
    }

    fn rem_val(self, rhs: Self) -> Self {
        proof {
            lemma_trunc_div_euclid(self as int, rhs as int);
            lemma_trunc_rem_euclid(self as int, rhs as int);
        }
        self % rhs
    }

    fn eq_val(self, rhs: Self) -> bool {
        self == rhs
    }
}

impl OrderScalar for i128 {
    fn lt_val(self, rhs: Self) -> bool {
        self < rhs
    }
}

impl SignedScalar for i128 {
    fn neg_val(self) -> Self {
        -self
    }
}

impl Scalar for isize {
    open spec fn as_int(self) -> int {
        self as int
    }

    open spec fn min_int() -> int {
        isize::MIN as int
    }

    open spec fn max_int() -> int {
        isize::MAX as int
    }

    proof fn lemma_bounds(self) {
    }

    proof fn lemma_injective(self, other: Self) {
    }

    fn zero_val() -> Self {
        0
    }

    fn one_val() -> Self {
        1
    }

    fn add_val(self, rhs: Self) -> Self {
        self + rhs
    }

    fn sub_val(self, rhs: Self) -> Self {
        self - rhs
    }

    fn mul_val(self, rhs: Self) -> Self {
        self * rhs
    }

    fn div_val(self, rhs: Self) -> Self {
        proof {
            lemma_div_basics(-(self as int));
            lemma_trunc_div_euclid(self as int, rhs as int);
        }
        self / rhs
    }

    fn rem_val(self, rhs: Self) -> Self {
        proof {
            lemma_div_basics(-(self as int));
            lemma_trunc_div_euclid(self as int, rhs as int);
            lemma_trunc_rem_euclid(self as int, rhs as int);
        }
        self % rhs
    }

    fn eq_val(self, rhs: Self) -> bool {
        self == rhs
    }
}

impl OrderScalar for isize {
    fn lt_val(self, rhs: Self) -> bool {
        self < rhs
    }
}

impl SignedScalar for isize {
    fn neg_val(self) -> Self {
        -self
    }
}

} // verus!
