//! The scalar abstraction: what a numeric type must offer to be used as the
//! component type of vectors, points, angles and quaternions.
//!
//! The library never looks inside a scalar. It calls the operations of
//! [`BaseNum`] and [`BaseFloat`], and states what it computes over the
//! specification functions that name their results. The signed integers of
//! 32 and 64 bits are scalars here, with arithmetic that wraps around. A
//! floating-point scalar is supplied by the user of the library.
use vstd::prelude::*;

verus! {

/// Quotient of `x` by `d`, rounded towards zero.
pub open spec fn trunc_div(x: int, d: int) -> int {
    if x >= 0 && d > 0 {
        x / d
    } else if x < 0 && d < 0 {
        (-x) / (-d)
    } else if x < 0 {
        -((-x) / d)
    } else {
        -(x / (-d))
    }
}

/// Remainder of `x` by `d` that goes with [`trunc_div`]: it has the sign of `x`.
pub open spec fn trunc_rem(x: int, d: int) -> int {
    if x >= 0 && d > 0 {
        x % d
    } else if x < 0 && d < 0 {
        -((-x) % (-d))
    } else if x < 0 {
        -((-x) % d)
    } else {
        x % (-d)
    }
}

/// Bounds of a non-negative quotient and remainder.
proof fn lemma_div_rem_bounds(a: int, b: int)
    requires
        a >= 0,
        b > 0,
    ensures
        0 <= a / b <= a,
        b >= 2 ==> 2 * (a / b) <= a,
        0 <= a % b < b,
        a % b <= a,
{
    assert(0 <= a / b <= a) by (nonlinear_arith)
        requires
            a >= 0,
            b > 0,
    ;
    assert(b >= 2 ==> 2 * (a / b) <= a) by (nonlinear_arith)
        requires
            a >= 0,
            b > 0,
    ;
    assert(0 <= a % b < b && a % b <= a) by (nonlinear_arith)
        requires
            a >= 0,
            b > 0,
    ;
}

/// The truncated quotient and remainder are no larger in magnitude than the
/// dividend, and the remainder is smaller in magnitude than the divisor.
proof fn lemma_trunc_bounds(x: int, d: int)
    requires
        d != 0,
    ensures
        x >= 0 ==> -x <= trunc_div(x, d) <= x,
        x < 0 ==> x <= trunc_div(x, d) <= -x,
        (d >= 2 || d <= -2) && x < 0 ==> 2 * trunc_div(x, d) <= -x,
        x >= 0 ==> 0 <= trunc_rem(x, d) <= x,
        x < 0 ==> x <= trunc_rem(x, d) <= 0,
        d > 0 ==> -d < trunc_rem(x, d) < d,
        d < 0 ==> d < trunc_rem(x, d) < -d,
{
    let a = if x >= 0 { x } else { -x };
    let b = if d > 0 { d } else { -d };
    lemma_div_rem_bounds(a, b);
}

/// A scalar with ring-like arithmetic and a partial order.
///
/// Each executable operation is a function of its arguments alone, named by
/// the specification function of the same name with the suffix `_spec`.
/// Addition, subtraction, multiplication and negation are total. Division and
/// remainder are defined where [`BaseNum::div_defined_spec`] holds.
///
/// To implement the trait is to promise all of this. For a type whose
/// implementation is verified, such as the integers below, the promise is
/// proved. For any other type, what the library proves through the trait
/// rests on the promise alone.
pub trait BaseNum: Copy + Sized {
    spec fn zero_spec() -> Self;

    spec fn one_spec() -> Self;

    spec fn add_spec(self, rhs: Self) -> Self;

    spec fn sub_spec(self, rhs: Self) -> Self;

    spec fn mul_spec(self, rhs: Self) -> Self;

    spec fn div_spec(self, rhs: Self) -> Self;

    spec fn rem_spec(self, rhs: Self) -> Self;

    spec fn neg_spec(self) -> Self;

    /// Whether `self / rhs` and `self % rhs` are defined.
    spec fn div_defined_spec(self, rhs: Self) -> bool;

    /// Strict order; it may leave some pairs unordered.
    spec fn lt_spec(self, rhs: Self) -> bool;

    /// The order that goes with [`BaseNum::lt_spec`] and holds of equal
    /// values too; it may leave some pairs unordered.
    spec fn le_spec(self, rhs: Self) -> bool;

    spec fn partial_min_spec(self, rhs: Self) -> Self;

    spec fn partial_max_spec(self, rhs: Self) -> Self;

    /// Products and differences of the two identities are exact.
    proof fn lemma_identities()
        ensures
            Self::zero_spec().mul_spec(Self::zero_spec()) == Self::zero_spec(),
            Self::zero_spec().mul_spec(Self::one_spec()) == Self::zero_spec(),
            Self::one_spec().mul_spec(Self::zero_spec()) == Self::zero_spec(),
            Self::one_spec().mul_spec(Self::one_spec()) == Self::one_spec(),
            Self::zero_spec().sub_spec(Self::zero_spec()) == Self::zero_spec(),
            Self::one_spec().sub_spec(Self::zero_spec()) == Self::one_spec(),
    ;

    /// What is strictly below a value is below it.
    proof fn lemma_lt_is_le(a: Self, b: Self)
        ensures
            a.lt_spec(b) ==> a.le_spec(b),
    ;

    /// The additive identity.
    fn zero() -> (r: Self)
        ensures
            r == Self::zero_spec(),
    ;

    /// The multiplicative identity.
    fn one() -> (r: Self)
        ensures
            r == Self::one_spec(),
    ;

    fn add(self, rhs: Self) -> (r: Self)
        ensures
            r == self.add_spec(rhs),
    ;

    fn sub(self, rhs: Self) -> (r: Self)
        ensures
            r == self.sub_spec(rhs),
    ;

    fn mul(self, rhs: Self) -> (r: Self)
        ensures
            r == self.mul_spec(rhs),
    ;

    fn div(self, rhs: Self) -> (r: Self)
        requires
            self.div_defined_spec(rhs),
        ensures
            r == self.div_spec(rhs),
    ;

    fn rem(self, rhs: Self) -> (r: Self)
        requires
            self.div_defined_spec(rhs),
        ensures
            r == self.rem_spec(rhs),
    ;

    fn neg(self) -> (r: Self)
        ensures
            r == self.neg_spec(),
    ;

    fn lt(self, rhs: Self) -> (r: bool)
        ensures
            r == self.lt_spec(rhs),
    ;

    fn le(self, rhs: Self) -> (r: bool)
        ensures
            r == self.le_spec(rhs),
    ;

    /// The smaller of the two, by the type's own rule for unordered pairs.
    fn partial_min(self, rhs: Self) -> (r: Self)
        ensures
            r == self.partial_min_spec(rhs),
    ;

    /// The larger of the two, by the type's own rule for unordered pairs.
    fn partial_max(self, rhs: Self) -> (r: Self)
        ensures
            r == self.partial_max_spec(rhs),
    ;
}

/// `a > b`, stated through the strict order of the scalar.
pub open spec fn gt_spec<S: BaseNum>(a: S, b: S) -> bool {
    b.lt_spec(a)
}

/// `a > b`.
pub fn gt<S: BaseNum>(a: S, b: S) -> (r: bool)
    ensures
        r == gt_spec(a, b),
{
    b.lt(a)
}

/// `a >= b`, stated through the order of the scalar.
pub open spec fn ge_spec<S: BaseNum>(a: S, b: S) -> bool {
    b.le_spec(a)
}

/// `a >= b`.
pub fn ge<S: BaseNum>(a: S, b: S) -> (r: bool)
    ensures
        r == ge_spec(a, b),
{
    b.le(a)
}

/// Sums, differences, products and negations wrap around. Quotients round
/// towards zero; they are defined unless the divisor is zero or the quotient
/// does not fit.
impl BaseNum for i32 {
    open spec fn zero_spec() -> i32 {
        0i32
    }

    open spec fn one_spec() -> i32 {
        1i32
    }

    open spec fn add_spec(self, rhs: i32) -> i32 {
        vstd::wrapping::i32_specs::wrapping_add(self, rhs)
    }

    open spec fn sub_spec(self, rhs: i32) -> i32 {
        vstd::wrapping::i32_specs::wrapping_sub(self, rhs)
    }

    open spec fn mul_spec(self, rhs: i32) -> i32 {
        vstd::wrapping::i32_specs::wrapping_mul(self, rhs)
    }

    open spec fn div_spec(self, rhs: i32) -> i32 {
        trunc_div(self as int, rhs as int) as i32
    }

    open spec fn rem_spec(self, rhs: i32) -> i32 {
        trunc_rem(self as int, rhs as int) as i32
    }

    open spec fn neg_spec(self) -> i32 {
        vstd::wrapping::i32_specs::wrapping_sub(0i32, self)
    }

    open spec fn div_defined_spec(self, rhs: i32) -> bool {
        rhs != 0 && !(self == i32::MIN && rhs == -1)
    }

    open spec fn lt_spec(self, rhs: i32) -> bool {
        self < rhs
    }

    open spec fn le_spec(self, rhs: i32) -> bool {
        self <= rhs
    }

    open spec fn partial_min_spec(self, rhs: i32) -> i32 {
        if rhs < self {
            rhs
        } else {
            self
        }
    }

    open spec fn partial_max_spec(self, rhs: i32) -> i32 {
        if rhs > self {
            rhs
        } else {
            self
        }
    }

    proof fn lemma_identities() {
    }

    proof fn lemma_lt_is_le(a: i32, b: i32) {
    }

    fn zero() -> i32 {
        0i32
    }

    fn one() -> i32 {
        1i32
    }

    fn add(self, rhs: i32) -> i32 {
        self.wrapping_add(rhs)
    }

    fn sub(self, rhs: i32) -> i32 {
        self.wrapping_sub(rhs)
    }

    fn mul(self, rhs: i32) -> i32 {
        self.wrapping_mul(rhs)
    }

    fn div(self, rhs: i32) -> i32 {
        proof {
            lemma_trunc_bounds(self as int, rhs as int);
        }
        self.checked_div(rhs).unwrap()
    }

    fn rem(self, rhs: i32) -> i32 {
        proof {
            lemma_trunc_bounds(self as int, rhs as int);
        }
        self.checked_rem(rhs).unwrap()
    }

    fn neg(self) -> i32 {
        0i32.wrapping_sub(self)
    }

    fn lt(self, rhs: i32) -> bool {
        self < rhs
    }

    fn le(self, rhs: i32) -> bool {
        self <= rhs
    }

    fn partial_min(self, rhs: i32) -> i32 {
        if rhs < self {
            rhs
        } else {
            self
        }
    }

    fn partial_max(self, rhs: i32) -> i32 {
        if rhs > self {
            rhs
        } else {
            self
        }
    }
}

/// Sums, differences, products and negations wrap around. Quotients round
/// towards zero; they are defined unless the divisor is zero or the quotient
/// does not fit.
impl BaseNum for i64 {
    open spec fn zero_spec() -> i64 {
        0i64
    }

    open spec fn one_spec() -> i64 {
        1i64
    }

    open spec fn add_spec(self, rhs: i64) -> i64 {
        vstd::wrapping::i64_specs::wrapping_add(self, rhs)
    }

    open spec fn sub_spec(self, rhs: i64) -> i64 {
        vstd::wrapping::i64_specs::wrapping_sub(self, rhs)
    }

    open spec fn mul_spec(self, rhs: i64) -> i64 {
        vstd::wrapping::i64_specs::wrapping_mul(self, rhs)
    }

    open spec fn div_spec(self, rhs: i64) -> i64 {
        trunc_div(self as int, rhs as int) as i64
    }

    open spec fn rem_spec(self, rhs: i64) -> i64 {
        trunc_rem(self as int, rhs as int) as i64
    }

    open spec fn neg_spec(self) -> i64 {
        vstd::wrapping::i64_specs::wrapping_sub(0i64, self)
    }

    open spec fn div_defined_spec(self, rhs: i64) -> bool {
        rhs != 0 && !(self == i64::MIN && rhs == -1)
    }

    open spec fn lt_spec(self, rhs: i64) -> bool {
        self < rhs
    }

    open spec fn le_spec(self, rhs: i64) -> bool {
        self <= rhs
    }

    open spec fn partial_min_spec(self, rhs: i64) -> i64 {
        if rhs < self {
            rhs
        } else {
            self
        }
    }

    open spec fn partial_max_spec(self, rhs: i64) -> i64 {
        if rhs > self {
            rhs
        } else {
            self
        }
    }

    proof fn lemma_identities() {
    }

    proof fn lemma_lt_is_le(a: i64, b: i64) {
    }

    fn zero() -> i64 {
        0i64
    }

    fn one() -> i64 {
        1i64
    }

    fn add(self, rhs: i64) -> i64 {
        self.wrapping_add(rhs)
    }

    fn sub(self, rhs: i64) -> i64 {
        self.wrapping_sub(rhs)
    }

    fn mul(self, rhs: i64) -> i64 {
        self.wrapping_mul(rhs)
    }

    fn div(self, rhs: i64) -> i64 {
        proof {
            lemma_trunc_bounds(self as int, rhs as int);
        }
        self.checked_div(rhs).unwrap()
    }

    fn rem(self, rhs: i64) -> i64 {
        proof {
            lemma_trunc_bounds(self as int, rhs as int);
        }
        self.checked_rem(rhs).unwrap()
    }

    fn neg(self) -> i64 {
        0i64.wrapping_sub(self)
    }

    fn lt(self, rhs: i64) -> bool {
        self < rhs
    }

    fn le(self, rhs: i64) -> bool {
        self <= rhs
    }

    fn partial_min(self, rhs: i64) -> i64 {
        if rhs < self {
            rhs
        } else {
            self
        }
    }

    fn partial_max(self, rhs: i64) -> i64 {
        if rhs > self {
            rhs
        } else {
            self
        }
    }
}

/// A scalar that behaves like a floating-point number: division is total,
/// every 64-bit integer has a nearest scalar, and the square root and the
/// trigonometric functions are available.
///
/// As in [`BaseNum`], each executable operation is a function of its
/// arguments alone, named by the specification function with the suffix
/// `_spec`. Angles are in radians. The library forms its constants, such as
/// one half or the degrees in a radian, with the scalar's own arithmetic.
///
/// No type of this library implements the trait: it is there for the
/// floating-point type that the user brings. That type has to return the
/// same result for the same arguments every time, also from the square root
/// and the trigonometric functions.
pub trait BaseFloat: BaseNum {
    spec fn from_i64_spec(n: i64) -> Self;

    spec fn pi_spec() -> Self;

    spec fn abs_spec(self) -> Self;

    spec fn sqrt_spec(self) -> Self;

    spec fn sin_spec(self) -> Self;

    spec fn cos_spec(self) -> Self;

    spec fn tan_spec(self) -> Self;

    spec fn asin_spec(self) -> Self;

    spec fn acos_spec(self) -> Self;

    spec fn atan_spec(self) -> Self;

    spec fn atan2_spec(self, other: Self) -> Self;

    /// Division and remainder are defined for every pair of operands.
    proof fn lemma_div_defined(a: Self, b: Self)
        ensures
            a.div_defined_spec(b),
    ;

    /// The scalar nearest to the integer `n`.
    fn from_i64(n: i64) -> (r: Self)
        ensures
            r == Self::from_i64_spec(n),
    ;

    /// The scalar nearest to the ratio of a circle's circumference to its diameter.
    fn pi() -> (r: Self)
        ensures
            r == Self::pi_spec(),
    ;

    fn abs(self) -> (r: Self)
        ensures
            r == self.abs_spec(),
    ;

    fn sqrt(self) -> (r: Self)
        ensures
            r == self.sqrt_spec(),
    ;

    fn sin(self) -> (r: Self)
        ensures
            r == self.sin_spec(),
    ;

    fn cos(self) -> (r: Self)
        ensures
            r == self.cos_spec(),
    ;

    fn tan(self) -> (r: Self)
        ensures
            r == self.tan_spec(),
    ;

    fn asin(self) -> (r: Self)
        ensures
            r == self.asin_spec(),
    ;

    fn acos(self) -> (r: Self)
        ensures
            r == self.acos_spec(),
    ;

    fn atan(self) -> (r: Self)
        ensures
            r == self.atan_spec(),
    ;

    /// The four-quadrant arctangent of `self / other`.
    fn atan2(self, other: Self) -> (r: Self)
        ensures
            r == self.atan2_spec(other),
    ;
}

/// The scalar that `n / d` gives, for integers `n` and `d`.
pub open spec fn ratio_spec<S: BaseFloat>(n: i64, d: i64) -> S {
    S::from_i64_spec(n).div_spec(S::from_i64_spec(d))
}

/// The scalar that `n / d` gives, for integers `n` and `d`.
pub fn ratio<S: BaseFloat>(n: i64, d: i64) -> (r: S)
    ensures
        r == ratio_spec::<S>(n, d),
{
    let a = S::from_i64(n);
    let b = S::from_i64(d);
    proof {
        S::lemma_div_defined(a, b);
    }
    a.div(b)
}

/// The reciprocal `1 / x`.
pub open spec fn recip_spec<S: BaseFloat>(x: S) -> S {
    S::one_spec().div_spec(x)
}

/// The reciprocal `1 / x`.
pub fn recip<S: BaseFloat>(x: S) -> (r: S)
    ensures
        r == recip_spec(x),
{
    let one = S::one();
    proof {
        S::lemma_div_defined(one, x);
    }
    one.div(x)
}

/// `a / b` for a scalar whose division is total.
pub fn quot<S: BaseFloat>(a: S, b: S) -> (r: S)
    ensures
        r == a.div_spec(b),
{
    proof {
        S::lemma_div_defined(a, b);
    }
    a.div(b)
}

/// `a % b` for a scalar whose division is total.
pub fn modulo<S: BaseFloat>(a: S, b: S) -> (r: S)
    ensures
        r == a.rem_spec(b),
{
    proof {
        S::lemma_div_defined(a, b);
    }
    a.rem(b)
}

} // verus!
