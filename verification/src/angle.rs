//! Angle units: radians and degrees, kept apart by type.
use vstd::prelude::*;
use crate::approx::ApproxEq;
use crate::num::{BaseFloat, modulo, quot};

verus! {

/// An angle, in radians.
#[derive(PartialEq, PartialOrd, Debug)]
pub struct Rad<S>(pub S);

/// An angle, in degrees.
#[derive(PartialEq, PartialOrd, Debug)]
pub struct Deg<S>(pub S);

impl<S: Copy> Clone for Rad<S> {
    fn clone(&self) -> (r: Rad<S>)
        ensures
            r == *self,
    {
        *self
    }
}

impl<S: Copy> Copy for Rad<S> {
}

impl<S: Copy> Clone for Deg<S> {
    fn clone(&self) -> (r: Deg<S>)
        ensures
            r == *self,
    {
        *self
    }
}

impl<S: Copy> Copy for Deg<S> {
}

/// The number of degrees in one radian: `180 / pi`.
pub open spec fn deg_per_rad_spec<S: BaseFloat>() -> S {
    S::from_i64_spec(180).div_spec(S::pi_spec())
}

/// The number of radians in one degree: `pi / 180`.
pub open spec fn rad_per_deg_spec<S: BaseFloat>() -> S {
    S::pi_spec().div_spec(S::from_i64_spec(180))
}

/// A full turn in radians: `2 * pi`.
pub open spec fn rad_full_turn_spec<S: BaseFloat>() -> S {
    S::pi_spec().mul_spec(S::from_i64_spec(2))
}

impl<S: BaseFloat> vstd::std_specs::convert::FromSpecImpl<Rad<S>> for Deg<S> {
    open spec fn obeys_from_spec() -> bool {
        true
    }

    open spec fn from_spec(src: Rad<S>) -> Deg<S> {
        Deg(src.0.mul_spec(deg_per_rad_spec::<S>()))
    }
}

impl<S: BaseFloat> From<Rad<S>> for Deg<S> {
    /// Radians to degrees: the value times `180 / pi`.
    fn from(src: Rad<S>) -> (r: Deg<S>) {
        Deg(src.0.mul(quot(S::from_i64(180), S::pi())))
    }
}

impl<S: BaseFloat> vstd::std_specs::convert::FromSpecImpl<Deg<S>> for Rad<S> {
    open spec fn obeys_from_spec() -> bool {
        true
    }

    open spec fn from_spec(src: Deg<S>) -> Rad<S> {
        Rad(src.0.mul_spec(rad_per_deg_spec::<S>()))
    }
}

impl<S: BaseFloat> From<Deg<S>> for Rad<S> {
    /// Degrees to radians: the value times `pi / 180`.
    fn from(src: Deg<S>) -> (r: Rad<S>) {
        Rad(src.0.mul(quot(S::pi(), S::from_i64(180))))
    }
}

/// A unit of angle. The trigonometric functions go through radians: an angle
/// is converted to [`Rad`] before the scalar function is applied, and an
/// inverse function's result is converted from [`Rad`]. No angle is ever
/// wrapped into a range.
pub trait Angle: Copy + Sized {
    /// The scalar that the angle wraps.
    type Unitless: BaseFloat;

    spec fn full_turn_spec() -> Self;

    spec fn zero_spec() -> Self;

    spec fn div_s_spec(self, scalar: Self::Unitless) -> Self;

    spec fn to_rad_spec(self) -> Rad<Self::Unitless>;

    spec fn from_rad_spec(rad: Rad<Self::Unitless>) -> Self;

    /// The angle of no rotation.
    fn zero() -> (r: Self)
        ensures
            r == Self::zero_spec(),
    ;

    /// A full rotation.
    fn full_turn() -> (r: Self)
        ensures
            r == Self::full_turn_spec(),
    ;

    /// The angle divided by a scalar.
    fn div_s(self, scalar: Self::Unitless) -> (r: Self)
        ensures
            r == self.div_s_spec(scalar),
    ;

    /// The same angle in radians.
    fn to_rad(self) -> (r: Rad<Self::Unitless>)
        ensures
            r == self.to_rad_spec(),
    ;

    /// The angle that `rad` is, in this unit.
    fn from_rad(rad: Rad<Self::Unitless>) -> (r: Self)
        ensures
            r == Self::from_rad_spec(rad),
    ;

    /// Half of a full rotation.
    fn turn_div_2() -> (r: Self)
        ensures
            r == Self::full_turn_spec().div_s_spec(Self::Unitless::from_i64_spec(2)),
    {
        Self::full_turn().div_s(Self::Unitless::from_i64(2))
    }

    /// A third of a full rotation.
    fn turn_div_3() -> (r: Self)
        ensures
            r == Self::full_turn_spec().div_s_spec(Self::Unitless::from_i64_spec(3)),
    {
        Self::full_turn().div_s(Self::Unitless::from_i64(3))
    }

    /// A quarter of a full rotation.
    fn turn_div_4() -> (r: Self)
        ensures
            r == Self::full_turn_spec().div_s_spec(Self::Unitless::from_i64_spec(4)),
    {
        Self::full_turn().div_s(Self::Unitless::from_i64(4))
    }

    /// A sixth of a full rotation.
    fn turn_div_6() -> (r: Self)
        ensures
            r == Self::full_turn_spec().div_s_spec(Self::Unitless::from_i64_spec(6)),
    {
        Self::full_turn().div_s(Self::Unitless::from_i64(6))
    }

    fn sin(self) -> (r: Self::Unitless)
        ensures
            r == self.to_rad_spec().0.sin_spec(),
    {
        self.to_rad().0.sin()
    }

    fn cos(self) -> (r: Self::Unitless)
        ensures
            r == self.to_rad_spec().0.cos_spec(),
    {
        self.to_rad().0.cos()
    }

    fn tan(self) -> (r: Self::Unitless)
        ensures
            r == self.to_rad_spec().0.tan_spec(),
    {
        self.to_rad().0.tan()
    }

    /// The sine and the cosine, in this order.
    fn sin_cos(self) -> (r: (Self::Unitless, Self::Unitless))
        ensures
            r.0 == self.to_rad_spec().0.sin_spec(),
            r.1 == self.to_rad_spec().0.cos_spec(),
    {
        let rad = self.to_rad();
        (rad.0.sin(), rad.0.cos())
    }

    fn asin(a: Self::Unitless) -> (r: Self)
        ensures
            r == Self::from_rad_spec(Rad(a.asin_spec())),
    {
        Self::from_rad(Rad(a.asin()))
    }

    fn acos(a: Self::Unitless) -> (r: Self)
        ensures
            r == Self::from_rad_spec(Rad(a.acos_spec())),
    {
        Self::from_rad(Rad(a.acos()))
    }

    fn atan(a: Self::Unitless) -> (r: Self)
        ensures
            r == Self::from_rad_spec(Rad(a.atan_spec())),
    {
        Self::from_rad(Rad(a.atan()))
    }

    fn atan2(a: Self::Unitless, b: Self::Unitless) -> (r: Self)
        ensures
            r == Self::from_rad_spec(Rad(a.atan2_spec(b))),
    {
        Self::from_rad(Rad(a.atan2(b)))
    }
}

impl<S: BaseFloat> Angle for Rad<S> {
    type Unitless = S;

    open spec fn full_turn_spec() -> Rad<S> {
        Rad(rad_full_turn_spec::<S>())
    }

    open spec fn zero_spec() -> Rad<S> {
        Rad(S::zero_spec())
    }

    open spec fn div_s_spec(self, scalar: S) -> Rad<S> {
        Rad(self.0.div_spec(scalar))
    }

    open spec fn to_rad_spec(self) -> Rad<S> {
        self
    }

    open spec fn from_rad_spec(rad: Rad<S>) -> Rad<S> {
        rad
    }

    fn zero() -> (r: Rad<S>) {
        Rad(S::zero())
    }

    fn full_turn() -> (r: Rad<S>) {
        Rad(S::pi().mul(S::from_i64(2)))
    }

    fn div_s(self, scalar: S) -> (r: Rad<S>) {
        Rad(quot(self.0, scalar))
    }

    fn to_rad(self) -> (r: Rad<S>) {
        self
    }

    fn from_rad(rad: Rad<S>) -> (r: Rad<S>) {
        rad
    }
}

impl<S: BaseFloat> Angle for Deg<S> {
    type Unitless = S;

    open spec fn full_turn_spec() -> Deg<S> {
        Deg(S::from_i64_spec(360))
    }

    open spec fn zero_spec() -> Deg<S> {
        Deg(S::zero_spec())
    }

    open spec fn div_s_spec(self, scalar: S) -> Deg<S> {
        Deg(self.0.div_spec(scalar))
    }

    open spec fn to_rad_spec(self) -> Rad<S> {
        Rad(self.0.mul_spec(rad_per_deg_spec::<S>()))
    }

    open spec fn from_rad_spec(rad: Rad<S>) -> Deg<S> {
        Deg(rad.0.mul_spec(deg_per_rad_spec::<S>()))
    }

    fn zero() -> (r: Deg<S>) {
        Deg(S::zero())
    }

    fn full_turn() -> (r: Deg<S>) {
        Deg(S::from_i64(360))
    }

    fn div_s(self, scalar: S) -> (r: Deg<S>) {
        Deg(quot(self.0, scalar))
    }

    fn to_rad(self) -> (r: Rad<S>) {
        Rad(self.0.mul(quot(S::pi(), S::from_i64(180))))
    }

    fn from_rad(rad: Rad<S>) -> (r: Deg<S>) {
        Deg(rad.0.mul(quot(S::from_i64(180), S::pi())))
    }
}

impl<S: BaseFloat> vstd::std_specs::ops::NegSpecImpl for Rad<S> {
    open spec fn obeys_neg_spec() -> bool {
        true
    }

    open spec fn neg_req(self) -> bool {
        true
    }

    open spec fn neg_spec(self) -> Rad<S> {
        Rad(self.0.neg_spec())
    }
}

impl<S: BaseFloat> core::ops::Neg for Rad<S> {
    type Output = Rad<S>;

    fn neg(self) -> (r: Rad<S>) {
        Rad(self.0.neg())
    }
}

impl<S: BaseFloat> vstd::std_specs::ops::AddSpecImpl for Rad<S> {
    open spec fn obeys_add_spec() -> bool {
        true
    }

    open spec fn add_req(self, rhs: Rad<S>) -> bool {
        true
    }

    open spec fn add_spec(self, rhs: Rad<S>) -> Rad<S> {
        Rad(self.0.add_spec(rhs.0))
    }
}

impl<S: BaseFloat> core::ops::Add for Rad<S> {
    type Output = Rad<S>;

    fn add(self, rhs: Rad<S>) -> (r: Rad<S>) {
        Rad(self.0.add(rhs.0))
    }
}

impl<S: BaseFloat> vstd::std_specs::ops::SubSpecImpl for Rad<S> {
    open spec fn obeys_sub_spec() -> bool {
        true
    }

    open spec fn sub_req(self, rhs: Rad<S>) -> bool {
        true
    }

    open spec fn sub_spec(self, rhs: Rad<S>) -> Rad<S> {
        Rad(self.0.sub_spec(rhs.0))
    }
}

impl<S: BaseFloat> core::ops::Sub for Rad<S> {
    type Output = Rad<S>;

    fn sub(self, rhs: Rad<S>) -> (r: Rad<S>) {
        Rad(self.0.sub(rhs.0))
    }
}

impl<S: BaseFloat> vstd::std_specs::ops::DivSpecImpl for Rad<S> {
    open spec fn obeys_div_spec() -> bool {
        true
    }

    open spec fn div_req(self, rhs: Rad<S>) -> bool {
        true
    }

    open spec fn div_spec(self, rhs: Rad<S>) -> S {
        self.0.div_spec(rhs.0)
    }
}

impl<S: BaseFloat> core::ops::Div for Rad<S> {
    type Output = S;

    /// The ratio of two angles, a bare scalar.
    fn div(self, rhs: Rad<S>) -> (r: S) {
        quot(self.0, rhs.0)
    }
}

impl<S: BaseFloat> vstd::std_specs::ops::RemSpecImpl for Rad<S> {
    open spec fn obeys_rem_spec() -> bool {
        true
    }

    open spec fn rem_req(self, rhs: Rad<S>) -> bool {
        true
    }

    open spec fn rem_spec(self, rhs: Rad<S>) -> Rad<S> {
        Rad(self.0.rem_spec(rhs.0))
    }
}

impl<S: BaseFloat> core::ops::Rem for Rad<S> {
    type Output = Rad<S>;

    fn rem(self, rhs: Rad<S>) -> (r: Rad<S>) {
        Rad(modulo(self.0, rhs.0))
    }
}

impl<S: BaseFloat> vstd::std_specs::ops::MulSpecImpl<S> for Rad<S> {
    open spec fn obeys_mul_spec() -> bool {
        true
    }

    open spec fn mul_req(self, scalar: S) -> bool {
        true
    }

    open spec fn mul_spec(self, scalar: S) -> Rad<S> {
        Rad(self.0.mul_spec(scalar))
    }
}

impl<S: BaseFloat> core::ops::Mul<S> for Rad<S> {
    type Output = Rad<S>;

    fn mul(self, scalar: S) -> (r: Rad<S>) {
        Rad(self.0.mul(scalar))
    }
}

impl<S: BaseFloat> vstd::std_specs::ops::DivSpecImpl<S> for Rad<S> {
    open spec fn obeys_div_spec() -> bool {
        true
    }

    open spec fn div_req(self, scalar: S) -> bool {
        true
    }

    open spec fn div_spec(self, scalar: S) -> Rad<S> {
        Rad(self.0.div_spec(scalar))
    }
}

impl<S: BaseFloat> core::ops::Div<S> for Rad<S> {
    type Output = Rad<S>;

    fn div(self, scalar: S) -> (r: Rad<S>) {
        Rad(quot(self.0, scalar))
    }
}

impl<S: BaseFloat> ApproxEq for Rad<S> {
    type Epsilon = S;

    open spec fn approx_eq_eps_spec(&self, other: &Rad<S>, epsilon: &S) -> bool {
        self.0.approx_eq_eps_spec(&other.0, epsilon)
    }

    fn approx_eq_eps(&self, other: &Rad<S>, epsilon: &S) -> (r: bool) {
        self.0.approx_eq_eps(&other.0, epsilon)
    }
}

impl<S: BaseFloat> core::ops::AddAssign for Rad<S> {
    fn add_assign(&mut self, other: Rad<S>)
        ensures
            *final(self) == Rad(old(self).0.add_spec(other.0)),
    {
        self.0 = self.0.add(other.0);
    }
}

impl<S: BaseFloat> core::ops::SubAssign for Rad<S> {
    fn sub_assign(&mut self, other: Rad<S>)
        ensures
            *final(self) == Rad(old(self).0.sub_spec(other.0)),
    {
        self.0 = self.0.sub(other.0);
    }
}

impl<S: BaseFloat> core::ops::RemAssign for Rad<S> {
    fn rem_assign(&mut self, other: Rad<S>)
        ensures
            *final(self) == Rad(old(self).0.rem_spec(other.0)),
    {
        self.0 = modulo(self.0, other.0);
    }
}

impl<S: BaseFloat> core::ops::MulAssign<S> for Rad<S> {
    fn mul_assign(&mut self, scalar: S)
        ensures
            *final(self) == Rad(old(self).0.mul_spec(scalar)),
    {
        self.0 = self.0.mul(scalar);
    }
}

impl<S: BaseFloat> core::ops::DivAssign<S> for Rad<S> {
    fn div_assign(&mut self, scalar: S)
        ensures
            *final(self) == Rad(old(self).0.div_spec(scalar)),
    {
        self.0 = quot(self.0, scalar);
    }
}

impl<S: BaseFloat> vstd::std_specs::ops::NegSpecImpl for Deg<S> {
    open spec fn obeys_neg_spec() -> bool {
        true
    }

    open spec fn neg_req(self) -> bool {
        true
    }

    open spec fn neg_spec(self) -> Deg<S> {
        Deg(self.0.neg_spec())
    }
}

impl<S: BaseFloat> core::ops::Neg for Deg<S> {
    type Output = Deg<S>;

    fn neg(self) -> (r: Deg<S>) {
        Deg(self.0.neg())
    }
}

impl<S: BaseFloat> vstd::std_specs::ops::AddSpecImpl for Deg<S> {
    open spec fn obeys_add_spec() -> bool {
        true
    }

    open spec fn add_req(self, rhs: Deg<S>) -> bool {
        true
    }

    open spec fn add_spec(self, rhs: Deg<S>) -> Deg<S> {
        Deg(self.0.add_spec(rhs.0))
    }
}

impl<S: BaseFloat> core::ops::Add for Deg<S> {
    type Output = Deg<S>;

    fn add(self, rhs: Deg<S>) -> (r: Deg<S>) {
        Deg(self.0.add(rhs.0))
    }
}

impl<S: BaseFloat> vstd::std_specs::ops::SubSpecImpl for Deg<S> {
    open spec fn obeys_sub_spec() -> bool {
        true
    }

    open spec fn sub_req(self, rhs: Deg<S>) -> bool {
        true
    }

    open spec fn sub_spec(self, rhs: Deg<S>) -> Deg<S> {
        Deg(self.0.sub_spec(rhs.0))
    }
}

impl<S: BaseFloat> core::ops::Sub for Deg<S> {
    type Output = Deg<S>;

    fn sub(self, rhs: Deg<S>) -> (r: Deg<S>) {
        Deg(self.0.sub(rhs.0))
    }
}

impl<S: BaseFloat> vstd::std_specs::ops::DivSpecImpl for Deg<S> {
    open spec fn obeys_div_spec() -> bool {
        true
    }

    open spec fn div_req(self, rhs: Deg<S>) -> bool {
        true
    }

    open spec fn div_spec(self, rhs: Deg<S>) -> S {
        self.0.div_spec(rhs.0)
    }
}

impl<S: BaseFloat> core::ops::Div for Deg<S> {
    type Output = S;

    /// The ratio of two angles, a bare scalar.
    fn div(self, rhs: Deg<S>) -> (r: S) {
        quot(self.0, rhs.0)
    }
}

impl<S: BaseFloat> vstd::std_specs::ops::RemSpecImpl for Deg<S> {
    open spec fn obeys_rem_spec() -> bool {
        true
    }

    open spec fn rem_req(self, rhs: Deg<S>) -> bool {
        true
    }

    open spec fn rem_spec(self, rhs: Deg<S>) -> Deg<S> {
        Deg(self.0.rem_spec(rhs.0))
    }
}

impl<S: BaseFloat> core::ops::Rem for Deg<S> {
    type Output = Deg<S>;

    fn rem(self, rhs: Deg<S>) -> (r: Deg<S>) {
        Deg(modulo(self.0, rhs.0))
    }
}

impl<S: BaseFloat> vstd::std_specs::ops::MulSpecImpl<S> for Deg<S> {
    open spec fn obeys_mul_spec() -> bool {
        true
    }

    open spec fn mul_req(self, scalar: S) -> bool {
        true
    }

    open spec fn mul_spec(self, scalar: S) -> Deg<S> {
        Deg(self.0.mul_spec(scalar))
    }
}

impl<S: BaseFloat> core::ops::Mul<S> for Deg<S> {
    type Output = Deg<S>;

    fn mul(self, scalar: S) -> (r: Deg<S>) {
        Deg(self.0.mul(scalar))
    }
}

impl<S: BaseFloat> vstd::std_specs::ops::DivSpecImpl<S> for Deg<S> {
    open spec fn obeys_div_spec() -> bool {
        true
    }

    open spec fn div_req(self, scalar: S) -> bool {
        true
    }

    open spec fn div_spec(self, scalar: S) -> Deg<S> {
        Deg(self.0.div_spec(scalar))
    }
}

impl<S: BaseFloat> core::ops::Div<S> for Deg<S> {
    type Output = Deg<S>;

    fn div(self, scalar: S) -> (r: Deg<S>) {
        Deg(quot(self.0, scalar))
    }
}

impl<S: BaseFloat> ApproxEq for Deg<S> {
    type Epsilon = S;

    open spec fn approx_eq_eps_spec(&self, other: &Deg<S>, epsilon: &S) -> bool {
        self.0.approx_eq_eps_spec(&other.0, epsilon)
    }

    fn approx_eq_eps(&self, other: &Deg<S>, epsilon: &S) -> (r: bool) {
        self.0.approx_eq_eps(&other.0, epsilon)
    }
}

impl<S: BaseFloat> core::ops::AddAssign for Deg<S> {
    fn add_assign(&mut self, other: Deg<S>)
        ensures
            *final(self) == Deg(old(self).0.add_spec(other.0)),
    {
        self.0 = self.0.add(other.0);
    }
}

impl<S: BaseFloat> core::ops::SubAssign for Deg<S> {
    fn sub_assign(&mut self, other: Deg<S>)
        ensures
            *final(self) == Deg(old(self).0.sub_spec(other.0)),
    {
        self.0 = self.0.sub(other.0);
    }
}

impl<S: BaseFloat> core::ops::RemAssign for Deg<S> {
    fn rem_assign(&mut self, other: Deg<S>)
        ensures
            *final(self) == Deg(old(self).0.rem_spec(other.0)),
    {
        self.0 = modulo(self.0, other.0);
    }
}

impl<S: BaseFloat> core::ops::MulAssign<S> for Deg<S> {
    fn mul_assign(&mut self, scalar: S)
        ensures
            *final(self) == Deg(old(self).0.mul_spec(scalar)),
    {
        self.0 = self.0.mul(scalar);
    }
}

impl<S: BaseFloat> core::ops::DivAssign<S> for Deg<S> {
    fn div_assign(&mut self, scalar: S)
        ensures
            *final(self) == Deg(old(self).0.div_spec(scalar)),
    {
        self.0 = quot(self.0, scalar);
    }
}

} // verus!
