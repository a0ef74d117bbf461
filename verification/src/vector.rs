//! Vectors of two, three and four dimensions over an abstract scalar.
//!
//! A vector is a free direction and magnitude. Its arithmetic is
//! component-wise; the contract of each operation names every component of
//! the result through the scalar's own operations.
use vstd::prelude::*;
use crate::angle::Rad;
use crate::approx::{ApproxEq, default_epsilon_spec};
use crate::array::{Array, Array1, FixedArray};
use crate::num::{BaseFloat, BaseNum, quot, recip};

verus! {

/// The numeric operations that the vectors of every dimension share.
pub trait Vector: Copy + Sized {
    /// The type of the components.
    type Scalar: BaseNum;

    spec fn from_value_spec(scalar: Self::Scalar) -> Self;

    spec fn add_s_spec(self, scalar: Self::Scalar) -> Self;

    spec fn sub_s_spec(self, scalar: Self::Scalar) -> Self;

    spec fn mul_s_spec(self, scalar: Self::Scalar) -> Self;

    spec fn div_s_spec(self, scalar: Self::Scalar) -> Self;

    spec fn rem_s_spec(self, scalar: Self::Scalar) -> Self;

    /// Whether every component can be divided by `scalar`.
    spec fn div_s_defined_spec(self, scalar: Self::Scalar) -> bool;

    spec fn add_v_spec(self, v: Self) -> Self;

    spec fn sub_v_spec(self, v: Self) -> Self;

    spec fn mul_v_spec(self, v: Self) -> Self;

    spec fn div_v_spec(self, v: Self) -> Self;

    spec fn rem_v_spec(self, v: Self) -> Self;

    /// Whether every component can be divided by the matching component of `v`.
    spec fn div_v_defined_spec(self, v: Self) -> bool;

    spec fn dot_spec(self, other: Self) -> Self::Scalar;

    /// The vector whose components all equal `scalar`.
    fn from_value(scalar: Self::Scalar) -> (r: Self)
        ensures
            r == Self::from_value_spec(scalar),
    ;

    /// The vector whose components are all zero.
    fn zero() -> (r: Self)
        ensures
            r == Self::from_value_spec(Self::Scalar::zero_spec()),
    {
        Self::from_value(Self::Scalar::zero())
    }

    /// The vector whose components are all one.
    fn one() -> (r: Self)
        ensures
            r == Self::from_value_spec(Self::Scalar::one_spec()),
    {
        Self::from_value(Self::Scalar::one())
    }

    /// Adds `scalar` to every component.
    fn add_s(self, scalar: Self::Scalar) -> (r: Self)
        ensures
            r == self.add_s_spec(scalar),
    ;

    /// Subtracts `scalar` from every component.
    fn sub_s(self, scalar: Self::Scalar) -> (r: Self)
        ensures
            r == self.sub_s_spec(scalar),
    ;

    /// Multiplies every component by `scalar`.
    fn mul_s(self, scalar: Self::Scalar) -> (r: Self)
        ensures
            r == self.mul_s_spec(scalar),
    ;

    /// Divides every component by `scalar`.
    fn div_s(self, scalar: Self::Scalar) -> (r: Self)
        requires
            self.div_s_defined_spec(scalar),
        ensures
            r == self.div_s_spec(scalar),
    ;

    /// Takes the remainder of every component by `scalar`.
    fn rem_s(self, scalar: Self::Scalar) -> (r: Self)
        requires
            self.div_s_defined_spec(scalar),
        ensures
            r == self.rem_s_spec(scalar),
    ;

    /// Adds the vectors component by component.
    fn add_v(self, v: Self) -> (r: Self)
        ensures
            r == self.add_v_spec(v),
    ;

    /// Subtracts `v` component by component.
    fn sub_v(self, v: Self) -> (r: Self)
        ensures
            r == self.sub_v_spec(v),
    ;

    /// Multiplies the vectors component by component.
    fn mul_v(self, v: Self) -> (r: Self)
        ensures
            r == self.mul_v_spec(v),
    ;

    /// Divides by `v` component by component.
    fn div_v(self, v: Self) -> (r: Self)
        requires
            self.div_v_defined_spec(v),
        ensures
            r == self.div_v_spec(v),
    ;

    /// Takes the remainder by `v` component by component.
    fn rem_v(self, v: Self) -> (r: Self)
        requires
            self.div_v_defined_spec(v),
        ensures
            r == self.rem_v_spec(v),
    ;

    /// [`Vector::add_s`], in place.
    fn add_self_s(&mut self, scalar: Self::Scalar)
        ensures
            *final(self) == old(self).add_s_spec(scalar),
    {
        *self = self.add_s(scalar);
    }

    /// [`Vector::sub_s`], in place.
    fn sub_self_s(&mut self, scalar: Self::Scalar)
        ensures
            *final(self) == old(self).sub_s_spec(scalar),
    {
        *self = self.sub_s(scalar);
    }

    /// [`Vector::mul_s`], in place.
    fn mul_self_s(&mut self, scalar: Self::Scalar)
        ensures
            *final(self) == old(self).mul_s_spec(scalar),
    {
        *self = self.mul_s(scalar);
    }

    /// [`Vector::div_s`], in place.
    fn div_self_s(&mut self, scalar: Self::Scalar)
        requires
            old(self).div_s_defined_spec(scalar),
        ensures
            *final(self) == old(self).div_s_spec(scalar),
    {
        *self = self.div_s(scalar);
    }

    /// [`Vector::rem_s`], in place.
    fn rem_self_s(&mut self, scalar: Self::Scalar)
        requires
            old(self).div_s_defined_spec(scalar),
        ensures
            *final(self) == old(self).rem_s_spec(scalar),
    {
        *self = self.rem_s(scalar);
    }

    /// [`Vector::add_v`], in place.
    fn add_self_v(&mut self, v: Self)
        ensures
            *final(self) == old(self).add_v_spec(v),
    {
        *self = self.add_v(v);
    }

    /// [`Vector::sub_v`], in place.
    fn sub_self_v(&mut self, v: Self)
        ensures
            *final(self) == old(self).sub_v_spec(v),
    {
        *self = self.sub_v(v);
    }

    /// [`Vector::mul_v`], in place.
    fn mul_self_v(&mut self, v: Self)
        ensures
            *final(self) == old(self).mul_v_spec(v),
    {
        *self = self.mul_v(v);
    }

    /// [`Vector::div_v`], in place.
    fn div_self_v(&mut self, v: Self)
        requires
            old(self).div_v_defined_spec(v),
        ensures
            *final(self) == old(self).div_v_spec(v),
    {
        *self = self.div_v(v);
    }

    /// [`Vector::rem_v`], in place.
    fn rem_self_v(&mut self, v: Self)
        requires
            old(self).div_v_defined_spec(v),
        ensures
            *final(self) == old(self).rem_v_spec(v),
    {
        *self = self.rem_v(v);
    }

    /// The dot product: the sum of the products of matching components,
    /// added from the first component to the last.
    fn dot(self, other: Self) -> (r: Self::Scalar)
        ensures
            r == self.dot_spec(other),
    ;
}

/// The dot product of two vectors.
pub fn dot<V: Vector>(a: V, b: V) -> (r: V::Scalar)
    ensures
        r == a.dot_spec(b),
{
    a.dot(b)
}

/// A two-dimensional vector.
#[derive(PartialEq, Eq, Hash, Debug)]
pub struct Vector2<S> {
    pub x: S,
    pub y: S,
}

impl<S: Copy> Clone for Vector2<S> {
    fn clone(&self) -> (r: Vector2<S>)
        ensures
            r == *self,
    {
        *self
    }
}

impl<S: Copy> Copy for Vector2<S> {
}

impl<S> Vector2<S> {
    /// A vector with the given components.
    pub fn new(x: S, y: S) -> (r: Vector2<S>)
        ensures
            r == (Vector2 { x: x, y: y }),
    {
        Vector2 { x: x, y: y }
    }
}

/// Short for [`Vector2::new`].
pub fn vec2<S>(x: S, y: S) -> (r: Vector2<S>)
    ensures
        r == (Vector2 { x: x, y: y }),
{
    Vector2::new(x, y)
}

impl<S: BaseNum> Vector2<S> {
    /// The vector with every component negated.
    pub open spec fn neg_v_spec(self) -> Vector2<S> {
        Vector2 { x: self.x.neg_spec(), y: self.y.neg_spec() }
    }

    /// Negates every component, in place.
    pub fn neg_self(&mut self)
        ensures
            *final(self) == old(self).neg_v_spec(),
    {
        *self = Vector2 { x: self.x.neg(), y: self.y.neg() };
    }
}

impl<S: BaseNum> Vector for Vector2<S> {
    type Scalar = S;

    open spec fn from_value_spec(scalar: S) -> Vector2<S> {
        Vector2 { x: scalar, y: scalar }
    }

    open spec fn add_s_spec(self, scalar: S) -> Vector2<S> {
        Vector2 { x: self.x.add_spec(scalar), y: self.y.add_spec(scalar) }
    }

    open spec fn sub_s_spec(self, scalar: S) -> Vector2<S> {
        Vector2 { x: self.x.sub_spec(scalar), y: self.y.sub_spec(scalar) }
    }

    open spec fn mul_s_spec(self, scalar: S) -> Vector2<S> {
        Vector2 { x: self.x.mul_spec(scalar), y: self.y.mul_spec(scalar) }
    }

    open spec fn div_s_spec(self, scalar: S) -> Vector2<S> {
        Vector2 { x: self.x.div_spec(scalar), y: self.y.div_spec(scalar) }
    }

    open spec fn rem_s_spec(self, scalar: S) -> Vector2<S> {
        Vector2 { x: self.x.rem_spec(scalar), y: self.y.rem_spec(scalar) }
    }

    open spec fn div_s_defined_spec(self, scalar: S) -> bool {
        self.x.div_defined_spec(scalar)
        && self.y.div_defined_spec(scalar)
    }

    open spec fn add_v_spec(self, v: Vector2<S>) -> Vector2<S> {
        Vector2 { x: self.x.add_spec(v.x), y: self.y.add_spec(v.y) }
    }

    open spec fn sub_v_spec(self, v: Vector2<S>) -> Vector2<S> {
        Vector2 { x: self.x.sub_spec(v.x), y: self.y.sub_spec(v.y) }
    }

    open spec fn mul_v_spec(self, v: Vector2<S>) -> Vector2<S> {
        Vector2 { x: self.x.mul_spec(v.x), y: self.y.mul_spec(v.y) }
    }

    open spec fn div_v_spec(self, v: Vector2<S>) -> Vector2<S> {
        Vector2 { x: self.x.div_spec(v.x), y: self.y.div_spec(v.y) }
    }

    open spec fn rem_v_spec(self, v: Vector2<S>) -> Vector2<S> {
        Vector2 { x: self.x.rem_spec(v.x), y: self.y.rem_spec(v.y) }
    }

    open spec fn div_v_defined_spec(self, v: Vector2<S>) -> bool {
        self.x.div_defined_spec(v.x)
        && self.y.div_defined_spec(v.y)
    }

    open spec fn dot_spec(self, other: Vector2<S>) -> S {
        self.x.mul_spec(other.x).add_spec(self.y.mul_spec(other.y))
    }

    fn from_value(scalar: S) -> (r: Vector2<S>) {
        Vector2 { x: scalar, y: scalar }
    }

    fn add_s(self, scalar: S) -> (r: Vector2<S>) {
        Vector2 { x: self.x.add(scalar), y: self.y.add(scalar) }
    }

    fn sub_s(self, scalar: S) -> (r: Vector2<S>) {
        Vector2 { x: self.x.sub(scalar), y: self.y.sub(scalar) }
    }

    fn mul_s(self, scalar: S) -> (r: Vector2<S>) {
        Vector2 { x: self.x.mul(scalar), y: self.y.mul(scalar) }
    }

    fn div_s(self, scalar: S) -> (r: Vector2<S>) {
        Vector2 { x: self.x.div(scalar), y: self.y.div(scalar) }
    }

    fn rem_s(self, scalar: S) -> (r: Vector2<S>) {
        Vector2 { x: self.x.rem(scalar), y: self.y.rem(scalar) }
    }

    fn add_v(self, v: Vector2<S>) -> (r: Vector2<S>) {
        Vector2 { x: self.x.add(v.x), y: self.y.add(v.y) }
    }

    fn sub_v(self, v: Vector2<S>) -> (r: Vector2<S>) {
        Vector2 { x: self.x.sub(v.x), y: self.y.sub(v.y) }
    }

    fn mul_v(self, v: Vector2<S>) -> (r: Vector2<S>) {
        Vector2 { x: self.x.mul(v.x), y: self.y.mul(v.y) }
    }

    fn div_v(self, v: Vector2<S>) -> (r: Vector2<S>) {
        Vector2 { x: self.x.div(v.x), y: self.y.div(v.y) }
    }

    fn rem_v(self, v: Vector2<S>) -> (r: Vector2<S>) {
        Vector2 { x: self.x.rem(v.x), y: self.y.rem(v.y) }
    }

    fn dot(self, other: Vector2<S>) -> (r: S) {
        self.x.mul(other.x).add(self.y.mul(other.y))
    }
}

impl<S: BaseNum> Array for Vector2<S> {
    type Element = S;

    open spec fn sum_spec(self) -> S {
        self.x.add_spec(self.y)
    }

    open spec fn product_spec(self) -> S {
        self.x.mul_spec(self.y)
    }

    open spec fn min_spec(self) -> S {
        self.x.partial_min_spec(self.y)
    }

    open spec fn max_spec(self) -> S {
        self.x.partial_max_spec(self.y)
    }

    fn sum(self) -> (r: S) {
        self.x.add(self.y)
    }

    fn product(self) -> (r: S) {
        self.x.mul(self.y)
    }

    fn min(self) -> (r: S) {
        self.x.partial_min(self.y)
    }

    fn max(self) -> (r: S) {
        self.x.partial_max(self.y)
    }
}

impl<S: BaseNum> vstd::std_specs::ops::NegSpecImpl for Vector2<S> {
    open spec fn obeys_neg_spec() -> bool {
        true
    }

    open spec fn neg_req(self) -> bool {
        true
    }

    open spec fn neg_spec(self) -> Vector2<S> {
        self.neg_v_spec()
    }
}

impl<S: BaseNum> core::ops::Neg for Vector2<S> {
    type Output = Vector2<S>;

    fn neg(self) -> (r: Vector2<S>) {
        Vector2 { x: self.x.neg(), y: self.y.neg() }
    }
}

impl<S: BaseNum> vstd::std_specs::ops::AddSpecImpl<S> for Vector2<S> {
    open spec fn obeys_add_spec() -> bool {
        true
    }

    open spec fn add_req(self, scalar: S) -> bool {
        true
    }

    open spec fn add_spec(self, scalar: S) -> Vector2<S> {
        self.add_s_spec(scalar)
    }
}

impl<S: BaseNum> core::ops::Add<S> for Vector2<S> {
    type Output = Vector2<S>;

    fn add(self, scalar: S) -> (r: Vector2<S>) {
        self.add_s(scalar)
    }
}

impl<S: BaseNum> vstd::std_specs::ops::AddSpecImpl for Vector2<S> {
    open spec fn obeys_add_spec() -> bool {
        true
    }

    open spec fn add_req(self, v: Vector2<S>) -> bool {
        true
    }

    open spec fn add_spec(self, v: Vector2<S>) -> Vector2<S> {
        self.add_v_spec(v)
    }
}

impl<S: BaseNum> core::ops::Add for Vector2<S> {
    type Output = Vector2<S>;

    fn add(self, v: Vector2<S>) -> (r: Vector2<S>) {
        self.add_v(v)
    }
}

impl<S: BaseNum> vstd::std_specs::ops::SubSpecImpl<S> for Vector2<S> {
    open spec fn obeys_sub_spec() -> bool {
        true
    }

    open spec fn sub_req(self, scalar: S) -> bool {
        true
    }

    open spec fn sub_spec(self, scalar: S) -> Vector2<S> {
        self.sub_s_spec(scalar)
    }
}

impl<S: BaseNum> core::ops::Sub<S> for Vector2<S> {
    type Output = Vector2<S>;

    fn sub(self, scalar: S) -> (r: Vector2<S>) {
        self.sub_s(scalar)
    }
}

impl<S: BaseNum> vstd::std_specs::ops::SubSpecImpl for Vector2<S> {
    open spec fn obeys_sub_spec() -> bool {
        true
    }

    open spec fn sub_req(self, v: Vector2<S>) -> bool {
        true
    }

    open spec fn sub_spec(self, v: Vector2<S>) -> Vector2<S> {
        self.sub_v_spec(v)
    }
}

impl<S: BaseNum> core::ops::Sub for Vector2<S> {
    type Output = Vector2<S>;

    fn sub(self, v: Vector2<S>) -> (r: Vector2<S>) {
        self.sub_v(v)
    }
}

impl<S: BaseNum> vstd::std_specs::ops::MulSpecImpl<S> for Vector2<S> {
    open spec fn obeys_mul_spec() -> bool {
        true
    }

    open spec fn mul_req(self, scalar: S) -> bool {
        true
    }

    open spec fn mul_spec(self, scalar: S) -> Vector2<S> {
        self.mul_s_spec(scalar)
    }
}

impl<S: BaseNum> core::ops::Mul<S> for Vector2<S> {
    type Output = Vector2<S>;

    fn mul(self, scalar: S) -> (r: Vector2<S>) {
        self.mul_s(scalar)
    }
}

impl<S: BaseNum> vstd::std_specs::ops::MulSpecImpl for Vector2<S> {
    open spec fn obeys_mul_spec() -> bool {
        true
    }

    open spec fn mul_req(self, v: Vector2<S>) -> bool {
        true
    }

    open spec fn mul_spec(self, v: Vector2<S>) -> Vector2<S> {
        self.mul_v_spec(v)
    }
}

impl<S: BaseNum> core::ops::Mul for Vector2<S> {
    type Output = Vector2<S>;

    fn mul(self, v: Vector2<S>) -> (r: Vector2<S>) {
        self.mul_v(v)
    }
}

impl<S: BaseNum> vstd::std_specs::ops::DivSpecImpl<S> for Vector2<S> {
    open spec fn obeys_div_spec() -> bool {
        true
    }

    open spec fn div_req(self, scalar: S) -> bool {
        self.div_s_defined_spec(scalar)
    }

    open spec fn div_spec(self, scalar: S) -> Vector2<S> {
        self.div_s_spec(scalar)
    }
}

impl<S: BaseNum> core::ops::Div<S> for Vector2<S> {
    type Output = Vector2<S>;

    fn div(self, scalar: S) -> (r: Vector2<S>) {
        self.div_s(scalar)
    }
}

impl<S: BaseNum> vstd::std_specs::ops::DivSpecImpl for Vector2<S> {
    open spec fn obeys_div_spec() -> bool {
        true
    }

    open spec fn div_req(self, v: Vector2<S>) -> bool {
        self.div_v_defined_spec(v)
    }

    open spec fn div_spec(self, v: Vector2<S>) -> Vector2<S> {
        self.div_v_spec(v)
    }
}

impl<S: BaseNum> core::ops::Div for Vector2<S> {
    type Output = Vector2<S>;

    fn div(self, v: Vector2<S>) -> (r: Vector2<S>) {
        self.div_v(v)
    }
}

impl<S: BaseNum> vstd::std_specs::ops::RemSpecImpl<S> for Vector2<S> {
    open spec fn obeys_rem_spec() -> bool {
        true
    }

    open spec fn rem_req(self, scalar: S) -> bool {
        self.div_s_defined_spec(scalar)
    }

    open spec fn rem_spec(self, scalar: S) -> Vector2<S> {
        self.rem_s_spec(scalar)
    }
}

impl<S: BaseNum> core::ops::Rem<S> for Vector2<S> {
    type Output = Vector2<S>;

    fn rem(self, scalar: S) -> (r: Vector2<S>) {
        self.rem_s(scalar)
    }
}

impl<S: BaseNum> vstd::std_specs::ops::RemSpecImpl for Vector2<S> {
    open spec fn obeys_rem_spec() -> bool {
        true
    }

    open spec fn rem_req(self, v: Vector2<S>) -> bool {
        self.div_v_defined_spec(v)
    }

    open spec fn rem_spec(self, v: Vector2<S>) -> Vector2<S> {
        self.rem_v_spec(v)
    }
}

impl<S: BaseNum> core::ops::Rem for Vector2<S> {
    type Output = Vector2<S>;

    fn rem(self, v: Vector2<S>) -> (r: Vector2<S>) {
        self.rem_v(v)
    }
}

/// Approximately equal when every component is.
impl<S: BaseFloat> ApproxEq for Vector2<S> {
    type Epsilon = S;

    open spec fn approx_eq_eps_spec(&self, other: &Vector2<S>, epsilon: &S) -> bool {
        self.x.approx_eq_eps_spec(&other.x, epsilon)
        && self.y.approx_eq_eps_spec(&other.y, epsilon)
    }

    fn approx_eq_eps(&self, other: &Vector2<S>, epsilon: &S) -> (r: bool) {
        self.x.approx_eq_eps(&other.x, epsilon)
        && self.y.approx_eq_eps(&other.y, epsilon)
    }
}

impl<S: Copy> vstd::std_specs::convert::FromSpecImpl<[S; 2]> for Vector2<S> {
    open spec fn obeys_from_spec() -> bool {
        true
    }

    open spec fn from_spec(v: [S; 2]) -> Vector2<S> {
        Vector2 { x: v[0], y: v[1] }
    }
}

impl<S: Copy> From<[S; 2]> for Vector2<S> {
    /// The value whose components are the array's elements, in order.
    fn from(v: [S; 2]) -> (r: Vector2<S>) {
        Vector2 { x: v[0], y: v[1] }
    }
}

impl<S: Copy> vstd::std_specs::convert::FromSpecImpl<Vector2<S>> for [S; 2] {
    open spec fn obeys_from_spec() -> bool {
        true
    }

    open spec fn from_spec(v: Vector2<S>) -> [S; 2] {
        [v.x, v.y]
    }
}

impl<S: Copy> From<Vector2<S>> for [S; 2] {
    /// The components, in order.
    fn from(v: Vector2<S>) -> (r: [S; 2]) {
        [v.x, v.y]
    }
}

impl<S: Copy> vstd::std_specs::convert::FromSpecImpl<(S, S)> for Vector2<S> {
    open spec fn obeys_from_spec() -> bool {
        true
    }

    open spec fn from_spec(v: (S, S)) -> Vector2<S> {
        Vector2 { x: v.0, y: v.1 }
    }
}

impl<S: Copy> From<(S, S)> for Vector2<S> {
    /// The value whose components are the tuple's fields, in order.
    fn from(v: (S, S)) -> (r: Vector2<S>) {
        Vector2 { x: v.0, y: v.1 }
    }
}

impl<S: Copy> vstd::std_specs::convert::FromSpecImpl<Vector2<S>> for (S, S) {
    open spec fn obeys_from_spec() -> bool {
        true
    }

    open spec fn from_spec(v: Vector2<S>) -> (S, S) {
        (v.x, v.y)
    }
}

impl<S: Copy> From<Vector2<S>> for (S, S) {
    /// The components, in order.
    fn from(v: Vector2<S>) -> (r: (S, S)) {
        (v.x, v.y)
    }
}

/// Converting a value to an array, or to a tuple, and back gives the value
/// itself.
pub proof fn lemma_vector2_round_trip<S: Copy>(v: Vector2<S>)
    ensures
        <Vector2<S> as vstd::std_specs::convert::FromSpec<[S; 2]>>::from_spec(
            <[S; 2] as vstd::std_specs::convert::FromSpec<Vector2<S>>>::from_spec(v),
        ) == v,
        <Vector2<S> as vstd::std_specs::convert::FromSpec<(S, S)>>::from_spec(
            <(S, S) as vstd::std_specs::convert::FromSpec<Vector2<S>>>::from_spec(v),
        ) == v,
{
}

impl<S: Copy> FixedArray<[S; 2]> for Vector2<S> {
    open spec fn into_fixed_spec(self) -> [S; 2] {
        [self.x, self.y]
    }

    open spec fn from_fixed_spec(v: [S; 2]) -> Vector2<S> {
        Vector2 { x: v[0], y: v[1] }
    }

    proof fn lemma_round_trip(self) {
    }

    fn into_fixed(self) -> (r: [S; 2]) {
        [self.x, self.y]
    }

    fn from_fixed(v: [S; 2]) -> (r: Vector2<S>) {
        Vector2 { x: v[0], y: v[1] }
    }
}

impl<S: Copy> FixedArray<(S, S)> for Vector2<S> {
    open spec fn into_fixed_spec(self) -> (S, S) {
        (self.x, self.y)
    }

    open spec fn from_fixed_spec(v: (S, S)) -> Vector2<S> {
        Vector2 { x: v.0, y: v.1 }
    }

    proof fn lemma_round_trip(self) {
    }

    fn into_fixed(self) -> (r: (S, S)) {
        (self.x, self.y)
    }

    fn from_fixed(v: (S, S)) -> (r: Vector2<S>) {
        Vector2 { x: v.0, y: v.1 }
    }
}

impl<S: Copy> Array1<S> for Vector2<S> {
    open spec fn elems(&self) -> Seq<S> {
        seq![self.x, self.y]
    }

    fn get(&self, i: usize) -> (r: &S) {
        match i {
            0 => &self.x,
            1 => &self.y,
            _ => vstd::pervasive::unreached(),
        }
    }

    fn get_mut(&mut self, i: usize) -> (r: &mut S) {
        match i {
            0 => &mut self.x,
            1 => &mut self.y,
            _ => vstd::pervasive::unreached(),
        }
    }

    fn map<F: Fn(S) -> S>(&mut self, op: F) -> (r: Vector2<S>) {
        proof {
            assert(self.elems()[0] == self.x);
            assert(self.elems()[1] == self.y);
        }
        let x = op(self.x);
        let y = op(self.y);
        self.x = x;
        self.y = y;
        *self
    }
}

impl<S> vstd::std_specs::core::IndexSpecImpl<usize> for Vector2<S> {
    open spec fn index_req(&self, index: &usize) -> bool {
        *index < 2
    }
}

impl<S> core::ops::Index<usize> for Vector2<S> {
    type Output = S;

    /// The component at position `i`, counted from zero. A position past
    /// the last component stops the program.
    fn index(&self, i: usize) -> (r: &S)
        ensures
            i == 0 ==> *r == self.x,
            i == 1 ==> *r == self.y,
    {
        match i {
            0 => &self.x,
            1 => &self.y,
            _ => vstd::pervasive::unreached(),
        }
    }
}

/// A three-dimensional vector.
#[derive(PartialEq, Eq, Hash, Debug)]
pub struct Vector3<S> {
    pub x: S,
    pub y: S,
    pub z: S,
}

impl<S: Copy> Clone for Vector3<S> {
    fn clone(&self) -> (r: Vector3<S>)
        ensures
            r == *self,
    {
        *self
    }
}

impl<S: Copy> Copy for Vector3<S> {
}

impl<S> Vector3<S> {
    /// A vector with the given components.
    pub fn new(x: S, y: S, z: S) -> (r: Vector3<S>)
        ensures
            r == (Vector3 { x: x, y: y, z: z }),
    {
        Vector3 { x: x, y: y, z: z }
    }
}

/// Short for [`Vector3::new`].
pub fn vec3<S>(x: S, y: S, z: S) -> (r: Vector3<S>)
    ensures
        r == (Vector3 { x: x, y: y, z: z }),
{
    Vector3::new(x, y, z)
}

impl<S: BaseNum> Vector3<S> {
    /// The vector with every component negated.
    pub open spec fn neg_v_spec(self) -> Vector3<S> {
        Vector3 { x: self.x.neg_spec(), y: self.y.neg_spec(), z: self.z.neg_spec() }
    }

    /// Negates every component, in place.
    pub fn neg_self(&mut self)
        ensures
            *final(self) == old(self).neg_v_spec(),
    {
        *self = Vector3 { x: self.x.neg(), y: self.y.neg(), z: self.z.neg() };
    }
}

impl<S: BaseNum> Vector for Vector3<S> {
    type Scalar = S;

    open spec fn from_value_spec(scalar: S) -> Vector3<S> {
        Vector3 { x: scalar, y: scalar, z: scalar }
    }

    open spec fn add_s_spec(self, scalar: S) -> Vector3<S> {
        Vector3 {
            x: self.x.add_spec(scalar),
            y: self.y.add_spec(scalar),
            z: self.z.add_spec(scalar),
        }
    }

    open spec fn sub_s_spec(self, scalar: S) -> Vector3<S> {
        Vector3 {
            x: self.x.sub_spec(scalar),
            y: self.y.sub_spec(scalar),
            z: self.z.sub_spec(scalar),
        }
    }

    open spec fn mul_s_spec(self, scalar: S) -> Vector3<S> {
        Vector3 {
            x: self.x.mul_spec(scalar),
            y: self.y.mul_spec(scalar),
            z: self.z.mul_spec(scalar),
        }
    }

    open spec fn div_s_spec(self, scalar: S) -> Vector3<S> {
        Vector3 {
            x: self.x.div_spec(scalar),
            y: self.y.div_spec(scalar),
            z: self.z.div_spec(scalar),
        }
    }

    open spec fn rem_s_spec(self, scalar: S) -> Vector3<S> {
        Vector3 {
            x: self.x.rem_spec(scalar),
            y: self.y.rem_spec(scalar),
            z: self.z.rem_spec(scalar),
        }
    }

    open spec fn div_s_defined_spec(self, scalar: S) -> bool {
        self.x.div_defined_spec(scalar)
        && self.y.div_defined_spec(scalar)
        && self.z.div_defined_spec(scalar)
    }

    open spec fn add_v_spec(self, v: Vector3<S>) -> Vector3<S> {
        Vector3 { x: self.x.add_spec(v.x), y: self.y.add_spec(v.y), z: self.z.add_spec(v.z) }
    }

    open spec fn sub_v_spec(self, v: Vector3<S>) -> Vector3<S> {
        Vector3 { x: self.x.sub_spec(v.x), y: self.y.sub_spec(v.y), z: self.z.sub_spec(v.z) }
    }

    open spec fn mul_v_spec(self, v: Vector3<S>) -> Vector3<S> {
        Vector3 { x: self.x.mul_spec(v.x), y: self.y.mul_spec(v.y), z: self.z.mul_spec(v.z) }
    }

    open spec fn div_v_spec(self, v: Vector3<S>) -> Vector3<S> {
        Vector3 { x: self.x.div_spec(v.x), y: self.y.div_spec(v.y), z: self.z.div_spec(v.z) }
    }

    open spec fn rem_v_spec(self, v: Vector3<S>) -> Vector3<S> {
        Vector3 { x: self.x.rem_spec(v.x), y: self.y.rem_spec(v.y), z: self.z.rem_spec(v.z) }
    }

    open spec fn div_v_defined_spec(self, v: Vector3<S>) -> bool {
        self.x.div_defined_spec(v.x)
        && self.y.div_defined_spec(v.y)
        && self.z.div_defined_spec(v.z)
    }

    open spec fn dot_spec(self, other: Vector3<S>) -> S {
        self.x.mul_spec(other.x)
            .add_spec(self.y.mul_spec(other.y))
            .add_spec(self.z.mul_spec(other.z))
    }

    fn from_value(scalar: S) -> (r: Vector3<S>) {
        Vector3 { x: scalar, y: scalar, z: scalar }
    }

    fn add_s(self, scalar: S) -> (r: Vector3<S>) {
        Vector3 { x: self.x.add(scalar), y: self.y.add(scalar), z: self.z.add(scalar) }
    }

    fn sub_s(self, scalar: S) -> (r: Vector3<S>) {
        Vector3 { x: self.x.sub(scalar), y: self.y.sub(scalar), z: self.z.sub(scalar) }
    }

    fn mul_s(self, scalar: S) -> (r: Vector3<S>) {
        Vector3 { x: self.x.mul(scalar), y: self.y.mul(scalar), z: self.z.mul(scalar) }
    }

    fn div_s(self, scalar: S) -> (r: Vector3<S>) {
        Vector3 { x: self.x.div(scalar), y: self.y.div(scalar), z: self.z.div(scalar) }
    }

    fn rem_s(self, scalar: S) -> (r: Vector3<S>) {
        Vector3 { x: self.x.rem(scalar), y: self.y.rem(scalar), z: self.z.rem(scalar) }
    }

    fn add_v(self, v: Vector3<S>) -> (r: Vector3<S>) {
        Vector3 { x: self.x.add(v.x), y: self.y.add(v.y), z: self.z.add(v.z) }
    }

    fn sub_v(self, v: Vector3<S>) -> (r: Vector3<S>) {
        Vector3 { x: self.x.sub(v.x), y: self.y.sub(v.y), z: self.z.sub(v.z) }
    }

    fn mul_v(self, v: Vector3<S>) -> (r: Vector3<S>) {
        Vector3 { x: self.x.mul(v.x), y: self.y.mul(v.y), z: self.z.mul(v.z) }
    }

    fn div_v(self, v: Vector3<S>) -> (r: Vector3<S>) {
        Vector3 { x: self.x.div(v.x), y: self.y.div(v.y), z: self.z.div(v.z) }
    }

    fn rem_v(self, v: Vector3<S>) -> (r: Vector3<S>) {
        Vector3 { x: self.x.rem(v.x), y: self.y.rem(v.y), z: self.z.rem(v.z) }
    }

    fn dot(self, other: Vector3<S>) -> (r: S) {
        self.x.mul(other.x).add(self.y.mul(other.y)).add(self.z.mul(other.z))
    }
}

impl<S: BaseNum> Array for Vector3<S> {
    type Element = S;

    open spec fn sum_spec(self) -> S {
        self.x.add_spec(self.y).add_spec(self.z)
    }

    open spec fn product_spec(self) -> S {
        self.x.mul_spec(self.y).mul_spec(self.z)
    }

    open spec fn min_spec(self) -> S {
        self.x.partial_min_spec(self.y).partial_min_spec(self.z)
    }

    open spec fn max_spec(self) -> S {
        self.x.partial_max_spec(self.y).partial_max_spec(self.z)
    }

    fn sum(self) -> (r: S) {
        self.x.add(self.y).add(self.z)
    }

    fn product(self) -> (r: S) {
        self.x.mul(self.y).mul(self.z)
    }

    fn min(self) -> (r: S) {
        self.x.partial_min(self.y).partial_min(self.z)
    }

    fn max(self) -> (r: S) {
        self.x.partial_max(self.y).partial_max(self.z)
    }
}

impl<S: BaseNum> vstd::std_specs::ops::NegSpecImpl for Vector3<S> {
    open spec fn obeys_neg_spec() -> bool {
        true
    }

    open spec fn neg_req(self) -> bool {
        true
    }

    open spec fn neg_spec(self) -> Vector3<S> {
        self.neg_v_spec()
    }
}

impl<S: BaseNum> core::ops::Neg for Vector3<S> {
    type Output = Vector3<S>;

    fn neg(self) -> (r: Vector3<S>) {
        Vector3 { x: self.x.neg(), y: self.y.neg(), z: self.z.neg() }
    }
}

impl<S: BaseNum> vstd::std_specs::ops::AddSpecImpl<S> for Vector3<S> {
    open spec fn obeys_add_spec() -> bool {
        true
    }

    open spec fn add_req(self, scalar: S) -> bool {
        true
    }

    open spec fn add_spec(self, scalar: S) -> Vector3<S> {
        self.add_s_spec(scalar)
    }
}

impl<S: BaseNum> core::ops::Add<S> for Vector3<S> {
    type Output = Vector3<S>;

    fn add(self, scalar: S) -> (r: Vector3<S>) {
        self.add_s(scalar)
    }
}

impl<S: BaseNum> vstd::std_specs::ops::AddSpecImpl for Vector3<S> {
    open spec fn obeys_add_spec() -> bool {
        true
    }

    open spec fn add_req(self, v: Vector3<S>) -> bool {
        true
    }

    open spec fn add_spec(self, v: Vector3<S>) -> Vector3<S> {
        self.add_v_spec(v)
    }
}

impl<S: BaseNum> core::ops::Add for Vector3<S> {
    type Output = Vector3<S>;

    fn add(self, v: Vector3<S>) -> (r: Vector3<S>) {
        self.add_v(v)
    }
}

impl<S: BaseNum> vstd::std_specs::ops::SubSpecImpl<S> for Vector3<S> {
    open spec fn obeys_sub_spec() -> bool {
        true
    }

    open spec fn sub_req(self, scalar: S) -> bool {
        true
    }

    open spec fn sub_spec(self, scalar: S) -> Vector3<S> {
        self.sub_s_spec(scalar)
    }
}

impl<S: BaseNum> core::ops::Sub<S> for Vector3<S> {
    type Output = Vector3<S>;

    fn sub(self, scalar: S) -> (r: Vector3<S>) {
        self.sub_s(scalar)
    }
}

impl<S: BaseNum> vstd::std_specs::ops::SubSpecImpl for Vector3<S> {
    open spec fn obeys_sub_spec() -> bool {
        true
    }

    open spec fn sub_req(self, v: Vector3<S>) -> bool {
        true
    }

    open spec fn sub_spec(self, v: Vector3<S>) -> Vector3<S> {
        self.sub_v_spec(v)
    }
}

impl<S: BaseNum> core::ops::Sub for Vector3<S> {
    type Output = Vector3<S>;

    fn sub(self, v: Vector3<S>) -> (r: Vector3<S>) {
        self.sub_v(v)
    }
}

impl<S: BaseNum> vstd::std_specs::ops::MulSpecImpl<S> for Vector3<S> {
    open spec fn obeys_mul_spec() -> bool {
        true
    }

    open spec fn mul_req(self, scalar: S) -> bool {
        true
    }

    open spec fn mul_spec(self, scalar: S) -> Vector3<S> {
        self.mul_s_spec(scalar)
    }
}

impl<S: BaseNum> core::ops::Mul<S> for Vector3<S> {
    type Output = Vector3<S>;

    fn mul(self, scalar: S) -> (r: Vector3<S>) {
        self.mul_s(scalar)
    }
}

impl<S: BaseNum> vstd::std_specs::ops::MulSpecImpl for Vector3<S> {
    open spec fn obeys_mul_spec() -> bool {
        true
    }

    open spec fn mul_req(self, v: Vector3<S>) -> bool {
        true
    }

    open spec fn mul_spec(self, v: Vector3<S>) -> Vector3<S> {
        self.mul_v_spec(v)
    }
}

impl<S: BaseNum> core::ops::Mul for Vector3<S> {
    type Output = Vector3<S>;

    fn mul(self, v: Vector3<S>) -> (r: Vector3<S>) {
        self.mul_v(v)
    }
}

impl<S: BaseNum> vstd::std_specs::ops::DivSpecImpl<S> for Vector3<S> {
    open spec fn obeys_div_spec() -> bool {
        true
    }

    open spec fn div_req(self, scalar: S) -> bool {
        self.div_s_defined_spec(scalar)
    }

    open spec fn div_spec(self, scalar: S) -> Vector3<S> {
        self.div_s_spec(scalar)
    }
}

impl<S: BaseNum> core::ops::Div<S> for Vector3<S> {
    type Output = Vector3<S>;

    fn div(self, scalar: S) -> (r: Vector3<S>) {
        self.div_s(scalar)
    }
}

impl<S: BaseNum> vstd::std_specs::ops::DivSpecImpl for Vector3<S> {
    open spec fn obeys_div_spec() -> bool {
        true
    }

    open spec fn div_req(self, v: Vector3<S>) -> bool {
        self.div_v_defined_spec(v)
    }

    open spec fn div_spec(self, v: Vector3<S>) -> Vector3<S> {
        self.div_v_spec(v)
    }
}

impl<S: BaseNum> core::ops::Div for Vector3<S> {
    type Output = Vector3<S>;

    fn div(self, v: Vector3<S>) -> (r: Vector3<S>) {
        self.div_v(v)
    }
}

impl<S: BaseNum> vstd::std_specs::ops::RemSpecImpl<S> for Vector3<S> {
    open spec fn obeys_rem_spec() -> bool {
        true
    }

    open spec fn rem_req(self, scalar: S) -> bool {
        self.div_s_defined_spec(scalar)
    }

    open spec fn rem_spec(self, scalar: S) -> Vector3<S> {
        self.rem_s_spec(scalar)
    }
}

impl<S: BaseNum> core::ops::Rem<S> for Vector3<S> {
    type Output = Vector3<S>;

    fn rem(self, scalar: S) -> (r: Vector3<S>) {
        self.rem_s(scalar)
    }
}

impl<S: BaseNum> vstd::std_specs::ops::RemSpecImpl for Vector3<S> {
    open spec fn obeys_rem_spec() -> bool {
        true
    }

    open spec fn rem_req(self, v: Vector3<S>) -> bool {
        self.div_v_defined_spec(v)
    }

    open spec fn rem_spec(self, v: Vector3<S>) -> Vector3<S> {
        self.rem_v_spec(v)
    }
}

impl<S: BaseNum> core::ops::Rem for Vector3<S> {
    type Output = Vector3<S>;

    fn rem(self, v: Vector3<S>) -> (r: Vector3<S>) {
        self.rem_v(v)
    }
}

/// Approximately equal when every component is.
impl<S: BaseFloat> ApproxEq for Vector3<S> {
    type Epsilon = S;

    open spec fn approx_eq_eps_spec(&self, other: &Vector3<S>, epsilon: &S) -> bool {
        self.x.approx_eq_eps_spec(&other.x, epsilon)
        && self.y.approx_eq_eps_spec(&other.y, epsilon)
        && self.z.approx_eq_eps_spec(&other.z, epsilon)
    }

    fn approx_eq_eps(&self, other: &Vector3<S>, epsilon: &S) -> (r: bool) {
        self.x.approx_eq_eps(&other.x, epsilon)
        && self.y.approx_eq_eps(&other.y, epsilon)
        && self.z.approx_eq_eps(&other.z, epsilon)
    }
}

impl<S: Copy> vstd::std_specs::convert::FromSpecImpl<[S; 3]> for Vector3<S> {
    open spec fn obeys_from_spec() -> bool {
        true
    }

    open spec fn from_spec(v: [S; 3]) -> Vector3<S> {
        Vector3 { x: v[0], y: v[1], z: v[2] }
    }
}

impl<S: Copy> From<[S; 3]> for Vector3<S> {
    /// The value whose components are the array's elements, in order.
    fn from(v: [S; 3]) -> (r: Vector3<S>) {
        Vector3 { x: v[0], y: v[1], z: v[2] }
    }
}

impl<S: Copy> vstd::std_specs::convert::FromSpecImpl<Vector3<S>> for [S; 3] {
    open spec fn obeys_from_spec() -> bool {
        true
    }

    open spec fn from_spec(v: Vector3<S>) -> [S; 3] {
        [v.x, v.y, v.z]
    }
}

impl<S: Copy> From<Vector3<S>> for [S; 3] {
    /// The components, in order.
    fn from(v: Vector3<S>) -> (r: [S; 3]) {
        [v.x, v.y, v.z]
    }
}

impl<S: Copy> vstd::std_specs::convert::FromSpecImpl<(S, S, S)> for Vector3<S> {
    open spec fn obeys_from_spec() -> bool {
        true
    }

    open spec fn from_spec(v: (S, S, S)) -> Vector3<S> {
        Vector3 { x: v.0, y: v.1, z: v.2 }
    }
}

impl<S: Copy> From<(S, S, S)> for Vector3<S> {
    /// The value whose components are the tuple's fields, in order.
    fn from(v: (S, S, S)) -> (r: Vector3<S>) {
        Vector3 { x: v.0, y: v.1, z: v.2 }
    }
}

impl<S: Copy> vstd::std_specs::convert::FromSpecImpl<Vector3<S>> for (S, S, S) {
    open spec fn obeys_from_spec() -> bool {
        true
    }

    open spec fn from_spec(v: Vector3<S>) -> (S, S, S) {
        (v.x, v.y, v.z)
    }
}

impl<S: Copy> From<Vector3<S>> for (S, S, S) {
    /// The components, in order.
    fn from(v: Vector3<S>) -> (r: (S, S, S)) {
        (v.x, v.y, v.z)
    }
}

/// Converting a value to an array, or to a tuple, and back gives the value
/// itself.
pub proof fn lemma_vector3_round_trip<S: Copy>(v: Vector3<S>)
    ensures
        <Vector3<S> as vstd::std_specs::convert::FromSpec<[S; 3]>>::from_spec(
            <[S; 3] as vstd::std_specs::convert::FromSpec<Vector3<S>>>::from_spec(v),
        ) == v,
        <Vector3<S> as vstd::std_specs::convert::FromSpec<(S, S, S)>>::from_spec(
            <(S, S, S) as vstd::std_specs::convert::FromSpec<Vector3<S>>>::from_spec(v),
        ) == v,
{
}

impl<S: Copy> FixedArray<[S; 3]> for Vector3<S> {
    open spec fn into_fixed_spec(self) -> [S; 3] {
        [self.x, self.y, self.z]
    }

    open spec fn from_fixed_spec(v: [S; 3]) -> Vector3<S> {
        Vector3 { x: v[0], y: v[1], z: v[2] }
    }

    proof fn lemma_round_trip(self) {
    }

    fn into_fixed(self) -> (r: [S; 3]) {
        [self.x, self.y, self.z]
    }

    fn from_fixed(v: [S; 3]) -> (r: Vector3<S>) {
        Vector3 { x: v[0], y: v[1], z: v[2] }
    }
}

impl<S: Copy> FixedArray<(S, S, S)> for Vector3<S> {
    open spec fn into_fixed_spec(self) -> (S, S, S) {
        (self.x, self.y, self.z)
    }

    open spec fn from_fixed_spec(v: (S, S, S)) -> Vector3<S> {
        Vector3 { x: v.0, y: v.1, z: v.2 }
    }

    proof fn lemma_round_trip(self) {
    }

    fn into_fixed(self) -> (r: (S, S, S)) {
        (self.x, self.y, self.z)
    }

    fn from_fixed(v: (S, S, S)) -> (r: Vector3<S>) {
        Vector3 { x: v.0, y: v.1, z: v.2 }
    }
}

impl<S: Copy> Array1<S> for Vector3<S> {
    open spec fn elems(&self) -> Seq<S> {
        seq![self.x, self.y, self.z]
    }

    fn get(&self, i: usize) -> (r: &S) {
        match i {
            0 => &self.x,
            1 => &self.y,
            2 => &self.z,
            _ => vstd::pervasive::unreached(),
        }
    }

    fn get_mut(&mut self, i: usize) -> (r: &mut S) {
        match i {
            0 => &mut self.x,
            1 => &mut self.y,
            2 => &mut self.z,
            _ => vstd::pervasive::unreached(),
        }
    }

    fn map<F: Fn(S) -> S>(&mut self, op: F) -> (r: Vector3<S>) {
        proof {
            assert(self.elems()[0] == self.x);
            assert(self.elems()[1] == self.y);
            assert(self.elems()[2] == self.z);
        }
        let x = op(self.x);
        let y = op(self.y);
        let z = op(self.z);
        self.x = x;
        self.y = y;
        self.z = z;
        *self
    }
}

impl<S> vstd::std_specs::core::IndexSpecImpl<usize> for Vector3<S> {
    open spec fn index_req(&self, index: &usize) -> bool {
        *index < 3
    }
}

impl<S> core::ops::Index<usize> for Vector3<S> {
    type Output = S;

    /// The component at position `i`, counted from zero. A position past
    /// the last component stops the program.
    fn index(&self, i: usize) -> (r: &S)
        ensures
            i == 0 ==> *r == self.x,
            i == 1 ==> *r == self.y,
            i == 2 ==> *r == self.z,
    {
        match i {
            0 => &self.x,
            1 => &self.y,
            2 => &self.z,
            _ => vstd::pervasive::unreached(),
        }
    }
}

/// A four-dimensional vector.
#[derive(PartialEq, Eq, Hash, Debug)]
pub struct Vector4<S> {
    pub x: S,
    pub y: S,
    pub z: S,
    pub w: S,
}

impl<S: Copy> Clone for Vector4<S> {
    fn clone(&self) -> (r: Vector4<S>)
        ensures
            r == *self,
    {
        *self
    }
}

impl<S: Copy> Copy for Vector4<S> {
}

impl<S> Vector4<S> {
    /// A vector with the given components.
    pub fn new(x: S, y: S, z: S, w: S) -> (r: Vector4<S>)
        ensures
            r == (Vector4 { x: x, y: y, z: z, w: w }),
    {
        Vector4 { x: x, y: y, z: z, w: w }
    }
}

/// Short for [`Vector4::new`].
pub fn vec4<S>(x: S, y: S, z: S, w: S) -> (r: Vector4<S>)
    ensures
        r == (Vector4 { x: x, y: y, z: z, w: w }),
{
    Vector4::new(x, y, z, w)
}

impl<S: BaseNum> Vector4<S> {
    /// The vector with every component negated.
    pub open spec fn neg_v_spec(self) -> Vector4<S> {
        Vector4 {
            x: self.x.neg_spec(),
            y: self.y.neg_spec(),
            z: self.z.neg_spec(),
            w: self.w.neg_spec(),
        }
    }

    /// Negates every component, in place.
    pub fn neg_self(&mut self)
        ensures
            *final(self) == old(self).neg_v_spec(),
    {
        *self = Vector4 { x: self.x.neg(), y: self.y.neg(), z: self.z.neg(), w: self.w.neg() };
    }
}

impl<S: BaseNum> Vector for Vector4<S> {
    type Scalar = S;

    open spec fn from_value_spec(scalar: S) -> Vector4<S> {
        Vector4 { x: scalar, y: scalar, z: scalar, w: scalar }
    }

    open spec fn add_s_spec(self, scalar: S) -> Vector4<S> {
        Vector4 {
            x: self.x.add_spec(scalar),
            y: self.y.add_spec(scalar),
            z: self.z.add_spec(scalar),
            w: self.w.add_spec(scalar),
        }
    }

    open spec fn sub_s_spec(self, scalar: S) -> Vector4<S> {
        Vector4 {
            x: self.x.sub_spec(scalar),
            y: self.y.sub_spec(scalar),
            z: self.z.sub_spec(scalar),
            w: self.w.sub_spec(scalar),
        }
    }

    open spec fn mul_s_spec(self, scalar: S) -> Vector4<S> {
        Vector4 {
            x: self.x.mul_spec(scalar),
            y: self.y.mul_spec(scalar),
            z: self.z.mul_spec(scalar),
            w: self.w.mul_spec(scalar),
        }
    }

    open spec fn div_s_spec(self, scalar: S) -> Vector4<S> {
        Vector4 {
            x: self.x.div_spec(scalar),
            y: self.y.div_spec(scalar),
            z: self.z.div_spec(scalar),
            w: self.w.div_spec(scalar),
        }
    }

    open spec fn rem_s_spec(self, scalar: S) -> Vector4<S> {
        Vector4 {
            x: self.x.rem_spec(scalar),
            y: self.y.rem_spec(scalar),
            z: self.z.rem_spec(scalar),
            w: self.w.rem_spec(scalar),
        }
    }

    open spec fn div_s_defined_spec(self, scalar: S) -> bool {
        self.x.div_defined_spec(scalar)
        && self.y.div_defined_spec(scalar)
        && self.z.div_defined_spec(scalar)
        && self.w.div_defined_spec(scalar)
    }

    open spec fn add_v_spec(self, v: Vector4<S>) -> Vector4<S> {
        Vector4 {
            x: self.x.add_spec(v.x),
            y: self.y.add_spec(v.y),
            z: self.z.add_spec(v.z),
            w: self.w.add_spec(v.w),
        }
    }

    open spec fn sub_v_spec(self, v: Vector4<S>) -> Vector4<S> {
        Vector4 {
            x: self.x.sub_spec(v.x),
            y: self.y.sub_spec(v.y),
            z: self.z.sub_spec(v.z),
            w: self.w.sub_spec(v.w),
        }
    }

    open spec fn mul_v_spec(self, v: Vector4<S>) -> Vector4<S> {
        Vector4 {
            x: self.x.mul_spec(v.x),
            y: self.y.mul_spec(v.y),
            z: self.z.mul_spec(v.z),
            w: self.w.mul_spec(v.w),
        }
    }

    open spec fn div_v_spec(self, v: Vector4<S>) -> Vector4<S> {
        Vector4 {
            x: self.x.div_spec(v.x),
            y: self.y.div_spec(v.y),
            z: self.z.div_spec(v.z),
            w: self.w.div_spec(v.w),
        }
    }

    open spec fn rem_v_spec(self, v: Vector4<S>) -> Vector4<S> {
        Vector4 {
            x: self.x.rem_spec(v.x),
            y: self.y.rem_spec(v.y),
            z: self.z.rem_spec(v.z),
            w: self.w.rem_spec(v.w),
        }
    }

    open spec fn div_v_defined_spec(self, v: Vector4<S>) -> bool {
        self.x.div_defined_spec(v.x)
        && self.y.div_defined_spec(v.y)
        && self.z.div_defined_spec(v.z)
        && self.w.div_defined_spec(v.w)
    }

    open spec fn dot_spec(self, other: Vector4<S>) -> S {
        self.x.mul_spec(other.x)
            .add_spec(self.y.mul_spec(other.y))
            .add_spec(self.z.mul_spec(other.z))
            .add_spec(self.w.mul_spec(other.w))
    }

    fn from_value(scalar: S) -> (r: Vector4<S>) {
        Vector4 { x: scalar, y: scalar, z: scalar, w: scalar }
    }

    fn add_s(self, scalar: S) -> (r: Vector4<S>) {
        Vector4 {
            x: self.x.add(scalar),
            y: self.y.add(scalar),
            z: self.z.add(scalar),
            w: self.w.add(scalar),
        }
    }

    fn sub_s(self, scalar: S) -> (r: Vector4<S>) {
        Vector4 {
            x: self.x.sub(scalar),
            y: self.y.sub(scalar),
            z: self.z.sub(scalar),
            w: self.w.sub(scalar),
        }
    }

    fn mul_s(self, scalar: S) -> (r: Vector4<S>) {
        Vector4 {
            x: self.x.mul(scalar),
            y: self.y.mul(scalar),
            z: self.z.mul(scalar),
            w: self.w.mul(scalar),
        }
    }

    fn div_s(self, scalar: S) -> (r: Vector4<S>) {
        Vector4 {
            x: self.x.div(scalar),
            y: self.y.div(scalar),
            z: self.z.div(scalar),
            w: self.w.div(scalar),
        }
    }

    fn rem_s(self, scalar: S) -> (r: Vector4<S>) {
        Vector4 {
            x: self.x.rem(scalar),
            y: self.y.rem(scalar),
            z: self.z.rem(scalar),
            w: self.w.rem(scalar),
        }
    }

    fn add_v(self, v: Vector4<S>) -> (r: Vector4<S>) {
        Vector4 { x: self.x.add(v.x), y: self.y.add(v.y), z: self.z.add(v.z), w: self.w.add(v.w) }
    }

    fn sub_v(self, v: Vector4<S>) -> (r: Vector4<S>) {
        Vector4 { x: self.x.sub(v.x), y: self.y.sub(v.y), z: self.z.sub(v.z), w: self.w.sub(v.w) }
    }

    fn mul_v(self, v: Vector4<S>) -> (r: Vector4<S>) {
        Vector4 { x: self.x.mul(v.x), y: self.y.mul(v.y), z: self.z.mul(v.z), w: self.w.mul(v.w) }
    }

    fn div_v(self, v: Vector4<S>) -> (r: Vector4<S>) {
        Vector4 { x: self.x.div(v.x), y: self.y.div(v.y), z: self.z.div(v.z), w: self.w.div(v.w) }
    }

    fn rem_v(self, v: Vector4<S>) -> (r: Vector4<S>) {
        Vector4 { x: self.x.rem(v.x), y: self.y.rem(v.y), z: self.z.rem(v.z), w: self.w.rem(v.w) }
    }

    fn dot(self, other: Vector4<S>) -> (r: S) {
        self.x.mul(other.x)
            .add(self.y.mul(other.y))
            .add(self.z.mul(other.z))
            .add(self.w.mul(other.w))
    }
}

impl<S: BaseNum> Array for Vector4<S> {
    type Element = S;

    open spec fn sum_spec(self) -> S {
        self.x.add_spec(self.y).add_spec(self.z).add_spec(self.w)
    }

    open spec fn product_spec(self) -> S {
        self.x.mul_spec(self.y).mul_spec(self.z).mul_spec(self.w)
    }

    open spec fn min_spec(self) -> S {
        self.x.partial_min_spec(self.y).partial_min_spec(self.z).partial_min_spec(self.w)
    }

    open spec fn max_spec(self) -> S {
        self.x.partial_max_spec(self.y).partial_max_spec(self.z).partial_max_spec(self.w)
    }

    fn sum(self) -> (r: S) {
        self.x.add(self.y).add(self.z).add(self.w)
    }

    fn product(self) -> (r: S) {
        self.x.mul(self.y).mul(self.z).mul(self.w)
    }

    fn min(self) -> (r: S) {
        self.x.partial_min(self.y).partial_min(self.z).partial_min(self.w)
    }

    fn max(self) -> (r: S) {
        self.x.partial_max(self.y).partial_max(self.z).partial_max(self.w)
    }
}

impl<S: BaseNum> vstd::std_specs::ops::NegSpecImpl for Vector4<S> {
    open spec fn obeys_neg_spec() -> bool {
        true
    }

    open spec fn neg_req(self) -> bool {
        true
    }

    open spec fn neg_spec(self) -> Vector4<S> {
        self.neg_v_spec()
    }
}

impl<S: BaseNum> core::ops::Neg for Vector4<S> {
    type Output = Vector4<S>;

    fn neg(self) -> (r: Vector4<S>) {
        Vector4 { x: self.x.neg(), y: self.y.neg(), z: self.z.neg(), w: self.w.neg() }
    }
}

impl<S: BaseNum> vstd::std_specs::ops::AddSpecImpl<S> for Vector4<S> {
    open spec fn obeys_add_spec() -> bool {
        true
    }

    open spec fn add_req(self, scalar: S) -> bool {
        true
    }

    open spec fn add_spec(self, scalar: S) -> Vector4<S> {
        self.add_s_spec(scalar)
    }
}

impl<S: BaseNum> core::ops::Add<S> for Vector4<S> {
    type Output = Vector4<S>;

    fn add(self, scalar: S) -> (r: Vector4<S>) {
        self.add_s(scalar)
    }
}

impl<S: BaseNum> vstd::std_specs::ops::AddSpecImpl for Vector4<S> {
    open spec fn obeys_add_spec() -> bool {
        true
    }

    open spec fn add_req(self, v: Vector4<S>) -> bool {
        true
    }

    open spec fn add_spec(self, v: Vector4<S>) -> Vector4<S> {
        self.add_v_spec(v)
    }
}

impl<S: BaseNum> core::ops::Add for Vector4<S> {
    type Output = Vector4<S>;

    fn add(self, v: Vector4<S>) -> (r: Vector4<S>) {
        self.add_v(v)
    }
}

impl<S: BaseNum> vstd::std_specs::ops::SubSpecImpl<S> for Vector4<S> {
    open spec fn obeys_sub_spec() -> bool {
        true
    }

    open spec fn sub_req(self, scalar: S) -> bool {
        true
    }

    open spec fn sub_spec(self, scalar: S) -> Vector4<S> {
        self.sub_s_spec(scalar)
    }
}

impl<S: BaseNum> core::ops::Sub<S> for Vector4<S> {
    type Output = Vector4<S>;

    fn sub(self, scalar: S) -> (r: Vector4<S>) {
        self.sub_s(scalar)
    }
}

impl<S: BaseNum> vstd::std_specs::ops::SubSpecImpl for Vector4<S> {
    open spec fn obeys_sub_spec() -> bool {
        true
    }

    open spec fn sub_req(self, v: Vector4<S>) -> bool {
        true
    }

    open spec fn sub_spec(self, v: Vector4<S>) -> Vector4<S> {
        self.sub_v_spec(v)
    }
}

impl<S: BaseNum> core::ops::Sub for Vector4<S> {
    type Output = Vector4<S>;

    fn sub(self, v: Vector4<S>) -> (r: Vector4<S>) {
        self.sub_v(v)
    }
}

impl<S: BaseNum> vstd::std_specs::ops::MulSpecImpl<S> for Vector4<S> {
    open spec fn obeys_mul_spec() -> bool {
        true
    }

    open spec fn mul_req(self, scalar: S) -> bool {
        true
    }

    open spec fn mul_spec(self, scalar: S) -> Vector4<S> {
        self.mul_s_spec(scalar)
    }
}

impl<S: BaseNum> core::ops::Mul<S> for Vector4<S> {
    type Output = Vector4<S>;

    fn mul(self, scalar: S) -> (r: Vector4<S>) {
        self.mul_s(scalar)
    }
}

impl<S: BaseNum> vstd::std_specs::ops::MulSpecImpl for Vector4<S> {
    open spec fn obeys_mul_spec() -> bool {
        true
    }

    open spec fn mul_req(self, v: Vector4<S>) -> bool {
        true
    }

    open spec fn mul_spec(self, v: Vector4<S>) -> Vector4<S> {
        self.mul_v_spec(v)
    }
}

impl<S: BaseNum> core::ops::Mul for Vector4<S> {
    type Output = Vector4<S>;

    fn mul(self, v: Vector4<S>) -> (r: Vector4<S>) {
        self.mul_v(v)
    }
}

impl<S: BaseNum> vstd::std_specs::ops::DivSpecImpl<S> for Vector4<S> {
    open spec fn obeys_div_spec() -> bool {
        true
    }

    open spec fn div_req(self, scalar: S) -> bool {
        self.div_s_defined_spec(scalar)
    }

    open spec fn div_spec(self, scalar: S) -> Vector4<S> {
        self.div_s_spec(scalar)
    }
}

impl<S: BaseNum> core::ops::Div<S> for Vector4<S> {
    type Output = Vector4<S>;

    fn div(self, scalar: S) -> (r: Vector4<S>) {
        self.div_s(scalar)
    }
}

impl<S: BaseNum> vstd::std_specs::ops::DivSpecImpl for Vector4<S> {
    open spec fn obeys_div_spec() -> bool {
        true
    }

    open spec fn div_req(self, v: Vector4<S>) -> bool {
        self.div_v_defined_spec(v)
    }

    open spec fn div_spec(self, v: Vector4<S>) -> Vector4<S> {
        self.div_v_spec(v)
    }
}

impl<S: BaseNum> core::ops::Div for Vector4<S> {
    type Output = Vector4<S>;

    fn div(self, v: Vector4<S>) -> (r: Vector4<S>) {
        self.div_v(v)
    }
}

impl<S: BaseNum> vstd::std_specs::ops::RemSpecImpl<S> for Vector4<S> {
    open spec fn obeys_rem_spec() -> bool {
        true
    }

    open spec fn rem_req(self, scalar: S) -> bool {
        self.div_s_defined_spec(scalar)
    }

    open spec fn rem_spec(self, scalar: S) -> Vector4<S> {
        self.rem_s_spec(scalar)
    }
}

impl<S: BaseNum> core::ops::Rem<S> for Vector4<S> {
    type Output = Vector4<S>;

    fn rem(self, scalar: S) -> (r: Vector4<S>) {
        self.rem_s(scalar)
    }
}

impl<S: BaseNum> vstd::std_specs::ops::RemSpecImpl for Vector4<S> {
    open spec fn obeys_rem_spec() -> bool {
        true
    }

    open spec fn rem_req(self, v: Vector4<S>) -> bool {
        self.div_v_defined_spec(v)
    }

    open spec fn rem_spec(self, v: Vector4<S>) -> Vector4<S> {
        self.rem_v_spec(v)
    }
}

impl<S: BaseNum> core::ops::Rem for Vector4<S> {
    type Output = Vector4<S>;

    fn rem(self, v: Vector4<S>) -> (r: Vector4<S>) {
        self.rem_v(v)
    }
}

/// Approximately equal when every component is.
impl<S: BaseFloat> ApproxEq for Vector4<S> {
    type Epsilon = S;

    open spec fn approx_eq_eps_spec(&self, other: &Vector4<S>, epsilon: &S) -> bool {
        self.x.approx_eq_eps_spec(&other.x, epsilon)
        && self.y.approx_eq_eps_spec(&other.y, epsilon)
        && self.z.approx_eq_eps_spec(&other.z, epsilon)
        && self.w.approx_eq_eps_spec(&other.w, epsilon)
    }

    fn approx_eq_eps(&self, other: &Vector4<S>, epsilon: &S) -> (r: bool) {
        self.x.approx_eq_eps(&other.x, epsilon)
        && self.y.approx_eq_eps(&other.y, epsilon)
        && self.z.approx_eq_eps(&other.z, epsilon)
        && self.w.approx_eq_eps(&other.w, epsilon)
    }
}

impl<S: Copy> vstd::std_specs::convert::FromSpecImpl<[S; 4]> for Vector4<S> {
    open spec fn obeys_from_spec() -> bool {
        true
    }

    open spec fn from_spec(v: [S; 4]) -> Vector4<S> {
        Vector4 { x: v[0], y: v[1], z: v[2], w: v[3] }
    }
}

impl<S: Copy> From<[S; 4]> for Vector4<S> {
    /// The value whose components are the array's elements, in order.
    fn from(v: [S; 4]) -> (r: Vector4<S>) {
        Vector4 { x: v[0], y: v[1], z: v[2], w: v[3] }
    }
}

impl<S: Copy> vstd::std_specs::convert::FromSpecImpl<Vector4<S>> for [S; 4] {
    open spec fn obeys_from_spec() -> bool {
        true
    }

    open spec fn from_spec(v: Vector4<S>) -> [S; 4] {
        [v.x, v.y, v.z, v.w]
    }
}

impl<S: Copy> From<Vector4<S>> for [S; 4] {
    /// The components, in order.
    fn from(v: Vector4<S>) -> (r: [S; 4]) {
        [v.x, v.y, v.z, v.w]
    }
}

impl<S: Copy> vstd::std_specs::convert::FromSpecImpl<(S, S, S, S)> for Vector4<S> {
    open spec fn obeys_from_spec() -> bool {
        true
    }

    open spec fn from_spec(v: (S, S, S, S)) -> Vector4<S> {
        Vector4 { x: v.0, y: v.1, z: v.2, w: v.3 }
    }
}

impl<S: Copy> From<(S, S, S, S)> for Vector4<S> {
    /// The value whose components are the tuple's fields, in order.
    fn from(v: (S, S, S, S)) -> (r: Vector4<S>) {
        Vector4 { x: v.0, y: v.1, z: v.2, w: v.3 }
    }
}

impl<S: Copy> vstd::std_specs::convert::FromSpecImpl<Vector4<S>> for (S, S, S, S) {
    open spec fn obeys_from_spec() -> bool {
        true
    }

    open spec fn from_spec(v: Vector4<S>) -> (S, S, S, S) {
        (v.x, v.y, v.z, v.w)
    }
}

impl<S: Copy> From<Vector4<S>> for (S, S, S, S) {
    /// The components, in order.
    fn from(v: Vector4<S>) -> (r: (S, S, S, S)) {
        (v.x, v.y, v.z, v.w)
    }
}

/// Converting a value to an array, or to a tuple, and back gives the value
/// itself.
pub proof fn lemma_vector4_round_trip<S: Copy>(v: Vector4<S>)
    ensures
        <Vector4<S> as vstd::std_specs::convert::FromSpec<[S; 4]>>::from_spec(
            <[S; 4] as vstd::std_specs::convert::FromSpec<Vector4<S>>>::from_spec(v),
        ) == v,
        <Vector4<S> as vstd::std_specs::convert::FromSpec<(S, S, S, S)>>::from_spec(
            <(S, S, S, S) as vstd::std_specs::convert::FromSpec<Vector4<S>>>::from_spec(v),
        ) == v,
{
}

impl<S: Copy> FixedArray<[S; 4]> for Vector4<S> {
    open spec fn into_fixed_spec(self) -> [S; 4] {
        [self.x, self.y, self.z, self.w]
    }

    open spec fn from_fixed_spec(v: [S; 4]) -> Vector4<S> {
        Vector4 { x: v[0], y: v[1], z: v[2], w: v[3] }
    }

    proof fn lemma_round_trip(self) {
    }

    fn into_fixed(self) -> (r: [S; 4]) {
        [self.x, self.y, self.z, self.w]
    }

    fn from_fixed(v: [S; 4]) -> (r: Vector4<S>) {
        Vector4 { x: v[0], y: v[1], z: v[2], w: v[3] }
    }
}

impl<S: Copy> FixedArray<(S, S, S, S)> for Vector4<S> {
    open spec fn into_fixed_spec(self) -> (S, S, S, S) {
        (self.x, self.y, self.z, self.w)
    }

    open spec fn from_fixed_spec(v: (S, S, S, S)) -> Vector4<S> {
        Vector4 { x: v.0, y: v.1, z: v.2, w: v.3 }
    }

    proof fn lemma_round_trip(self) {
    }

    fn into_fixed(self) -> (r: (S, S, S, S)) {
        (self.x, self.y, self.z, self.w)
    }

    fn from_fixed(v: (S, S, S, S)) -> (r: Vector4<S>) {
        Vector4 { x: v.0, y: v.1, z: v.2, w: v.3 }
    }
}

impl<S: Copy> Array1<S> for Vector4<S> {
    open spec fn elems(&self) -> Seq<S> {
        seq![self.x, self.y, self.z, self.w]
    }

    fn get(&self, i: usize) -> (r: &S) {
        match i {
            0 => &self.x,
            1 => &self.y,
            2 => &self.z,
            3 => &self.w,
            _ => vstd::pervasive::unreached(),
        }
    }

    fn get_mut(&mut self, i: usize) -> (r: &mut S) {
        match i {
            0 => &mut self.x,
            1 => &mut self.y,
            2 => &mut self.z,
            3 => &mut self.w,
            _ => vstd::pervasive::unreached(),
        }
    }

    fn map<F: Fn(S) -> S>(&mut self, op: F) -> (r: Vector4<S>) {
        proof {
            assert(self.elems()[0] == self.x);
            assert(self.elems()[1] == self.y);
            assert(self.elems()[2] == self.z);
            assert(self.elems()[3] == self.w);
        }
        let x = op(self.x);
        let y = op(self.y);
        let z = op(self.z);
        let w = op(self.w);
        self.x = x;
        self.y = y;
        self.z = z;
        self.w = w;
        *self
    }
}

impl<S> vstd::std_specs::core::IndexSpecImpl<usize> for Vector4<S> {
    open spec fn index_req(&self, index: &usize) -> bool {
        *index < 4
    }
}

impl<S> core::ops::Index<usize> for Vector4<S> {
    type Output = S;

    /// The component at position `i`, counted from zero. A position past
    /// the last component stops the program.
    fn index(&self, i: usize) -> (r: &S)
        ensures
            i == 0 ==> *r == self.x,
            i == 1 ==> *r == self.y,
            i == 2 ==> *r == self.z,
            i == 3 ==> *r == self.w,
    {
        match i {
            0 => &self.x,
            1 => &self.y,
            2 => &self.z,
            3 => &self.w,
            _ => vstd::pervasive::unreached(),
        }
    }
}

impl<S: BaseNum> Vector2<S> {
    /// The unit vector along `x`: one for `x`, zero elsewhere.
    pub open spec fn unit_x_spec() -> Vector2<S> {
        Vector2 { x: S::one_spec(), y: S::zero_spec() }
    }

    /// The unit vector along `y`: one for `y`, zero elsewhere.
    pub open spec fn unit_y_spec() -> Vector2<S> {
        Vector2 { x: S::zero_spec(), y: S::one_spec() }
    }

    /// The perpendicular dot product `x * other.y - y * other.x`.
    pub open spec fn perp_dot_spec(self, other: Vector2<S>) -> S {
        self.x.mul_spec(other.y).sub_spec(self.y.mul_spec(other.x))
    }

    /// The unit vector along `x`.
    pub fn unit_x() -> (r: Vector2<S>)
        ensures
            r == Self::unit_x_spec(),
    {
        Vector2::new(S::one(), S::zero())
    }

    /// The unit vector along `y`.
    pub fn unit_y() -> (r: Vector2<S>)
        ensures
            r == Self::unit_y_spec(),
    {
        Vector2::new(S::zero(), S::one())
    }

    /// The perpendicular dot product of the vector and `other`.
    pub fn perp_dot(self, other: Vector2<S>) -> (r: S)
        ensures
            r == self.perp_dot_spec(other),
    {
        self.x.mul(other.y).sub(self.y.mul(other.x))
    }

    /// The three-dimensional vector with this vector's `x` and `y`, and the given `z`.
    pub fn extend(self, z: S) -> (r: Vector3<S>)
        ensures
            r == (Vector3 { x: self.x, y: self.y, z: z }),
    {
        Vector3::new(self.x, self.y, z)
    }
}

impl<S: BaseNum> Vector3<S> {
    /// The unit vector along `x`: one for `x`, zero elsewhere.
    pub open spec fn unit_x_spec() -> Vector3<S> {
        Vector3 { x: S::one_spec(), y: S::zero_spec(), z: S::zero_spec() }
    }

    /// The unit vector along `y`: one for `y`, zero elsewhere.
    pub open spec fn unit_y_spec() -> Vector3<S> {
        Vector3 { x: S::zero_spec(), y: S::one_spec(), z: S::zero_spec() }
    }

    /// The unit vector along `z`: one for `z`, zero elsewhere.
    pub open spec fn unit_z_spec() -> Vector3<S> {
        Vector3 { x: S::zero_spec(), y: S::zero_spec(), z: S::one_spec() }
    }

    /// The vector without its `z`.
    pub open spec fn truncate_spec(self) -> Vector2<S> {
        Vector2 { x: self.x, y: self.y }
    }

    /// The right-handed cross product.
    pub open spec fn cross_spec(self, other: Vector3<S>) -> Vector3<S> {
        Vector3 {
            x: self.y.mul_spec(other.z).sub_spec(self.z.mul_spec(other.y)),
            y: self.z.mul_spec(other.x).sub_spec(self.x.mul_spec(other.z)),
            z: self.x.mul_spec(other.y).sub_spec(self.y.mul_spec(other.x)),
        }
    }

    /// The unit vector along `x`.
    pub fn unit_x() -> (r: Vector3<S>)
        ensures
            r == Self::unit_x_spec(),
    {
        Vector3::new(S::one(), S::zero(), S::zero())
    }

    /// The unit vector along `y`.
    pub fn unit_y() -> (r: Vector3<S>)
        ensures
            r == Self::unit_y_spec(),
    {
        Vector3::new(S::zero(), S::one(), S::zero())
    }

    /// The unit vector along `z`.
    pub fn unit_z() -> (r: Vector3<S>)
        ensures
            r == Self::unit_z_spec(),
    {
        Vector3::new(S::zero(), S::zero(), S::one())
    }

    /// The cross product of the vector and `other`.
    #[must_use]
    pub fn cross(self, other: Vector3<S>) -> (r: Vector3<S>)
        ensures
            r == self.cross_spec(other),
    {
        Vector3::new(
            self.y.mul(other.z).sub(self.z.mul(other.y)),
            self.z.mul(other.x).sub(self.x.mul(other.z)),
            self.x.mul(other.y).sub(self.y.mul(other.x)),
        )
    }

    /// Replaces the vector by its cross product with `other`.
    pub fn cross_self(&mut self, other: Vector3<S>)
        ensures
            *final(self) == old(self).cross_spec(other),
    {
        *self = self.cross(other)
    }

    /// The four-dimensional vector with this vector's `x`, `y` and `z`, and the given `w`.
    pub fn extend(self, w: S) -> (r: Vector4<S>)
        ensures
            r == (Vector4 { x: self.x, y: self.y, z: self.z, w: w }),
    {
        Vector4::new(self.x, self.y, self.z, w)
    }

    /// The two-dimensional vector that is left when `z` is dropped.
    pub fn truncate(self) -> (r: Vector2<S>)
        ensures
            r == self.truncate_spec(),
    {
        Vector2::new(self.x, self.y)
    }
}

impl<S: BaseNum> Vector4<S> {
    /// The unit vector along `x`: one for `x`, zero elsewhere.
    pub open spec fn unit_x_spec() -> Vector4<S> {
        Vector4 { x: S::one_spec(), y: S::zero_spec(), z: S::zero_spec(), w: S::zero_spec() }
    }

    /// The unit vector along `y`: one for `y`, zero elsewhere.
    pub open spec fn unit_y_spec() -> Vector4<S> {
        Vector4 { x: S::zero_spec(), y: S::one_spec(), z: S::zero_spec(), w: S::zero_spec() }
    }

    /// The unit vector along `z`: one for `z`, zero elsewhere.
    pub open spec fn unit_z_spec() -> Vector4<S> {
        Vector4 { x: S::zero_spec(), y: S::zero_spec(), z: S::one_spec(), w: S::zero_spec() }
    }

    /// The unit vector along `w`: one for `w`, zero elsewhere.
    pub open spec fn unit_w_spec() -> Vector4<S> {
        Vector4 { x: S::zero_spec(), y: S::zero_spec(), z: S::zero_spec(), w: S::one_spec() }
    }

    /// The vector without its `w`.
    pub open spec fn truncate_spec(self) -> Vector3<S> {
        Vector3 { x: self.x, y: self.y, z: self.z }
    }

    /// The vector that is left when the component at position `n` is dropped.
    pub open spec fn truncate_n_spec(self, n: int) -> Vector3<S> {
        if n == 0 {
            Vector3 { x: self.y, y: self.z, z: self.w }
        } else if n == 1 {
            Vector3 { x: self.x, y: self.z, z: self.w }
        } else if n == 2 {
            Vector3 { x: self.x, y: self.y, z: self.w }
        } else {
            Vector3 { x: self.x, y: self.y, z: self.z }
        }
    }

    /// The unit vector along `x`.
    pub fn unit_x() -> (r: Vector4<S>)
        ensures
            r == Self::unit_x_spec(),
    {
        Vector4::new(S::one(), S::zero(), S::zero(), S::zero())
    }

    /// The unit vector along `y`.
    pub fn unit_y() -> (r: Vector4<S>)
        ensures
            r == Self::unit_y_spec(),
    {
        Vector4::new(S::zero(), S::one(), S::zero(), S::zero())
    }

    /// The unit vector along `z`.
    pub fn unit_z() -> (r: Vector4<S>)
        ensures
            r == Self::unit_z_spec(),
    {
        Vector4::new(S::zero(), S::zero(), S::one(), S::zero())
    }

    /// The unit vector along `w`.
    pub fn unit_w() -> (r: Vector4<S>)
        ensures
            r == Self::unit_w_spec(),
    {
        Vector4::new(S::zero(), S::zero(), S::zero(), S::one())
    }

    /// The three-dimensional vector that is left when `w` is dropped.
    pub fn truncate(self) -> (r: Vector3<S>)
        ensures
            r == self.truncate_spec(),
    {
        Vector3::new(self.x, self.y, self.z)
    }

    /// The three-dimensional vector that is left when the component at
    /// position `n` is dropped. Positions run from 0 to 3; any other stops
    /// the program.
    pub fn truncate_n(&self, n: isize) -> (r: Vector3<S>)
        requires
            0 <= n <= 3,
        ensures
            r == self.truncate_n_spec(n as int),
    {
        if n == 0 {
            Vector3::new(self.y, self.z, self.w)
        } else if n == 1 {
            Vector3::new(self.x, self.z, self.w)
        } else if n == 2 {
            Vector3::new(self.x, self.y, self.w)
        } else if n == 3 {
            Vector3::new(self.x, self.y, self.z)
        } else {
            vstd::pervasive::unreached()
        }
    }
}

/// The cross product of two unit vectors along the axes is exactly the unit
/// vector along the third axis, in the right-handed order `x`, `y`, `z`.
pub proof fn lemma_cross_of_unit_vectors<S: BaseNum>()
    ensures
        Vector3::<S>::unit_x_spec().cross_spec(Vector3::<S>::unit_y_spec())
            == Vector3::<S>::unit_z_spec(),
        Vector3::<S>::unit_y_spec().cross_spec(Vector3::<S>::unit_z_spec())
            == Vector3::<S>::unit_x_spec(),
        Vector3::<S>::unit_z_spec().cross_spec(Vector3::<S>::unit_x_spec())
            == Vector3::<S>::unit_y_spec(),
{
    S::lemma_identities();
}

/// The cross product of a unit vector along an axis with itself is exactly
/// the zero vector.
pub proof fn lemma_cross_of_unit_vector_with_itself<S: BaseNum>()
    ensures
        Vector3::<S>::unit_x_spec().cross_spec(Vector3::<S>::unit_x_spec())
            == Vector3::<S>::from_value_spec(S::zero_spec()),
        Vector3::<S>::unit_y_spec().cross_spec(Vector3::<S>::unit_y_spec())
            == Vector3::<S>::from_value_spec(S::zero_spec()),
        Vector3::<S>::unit_z_spec().cross_spec(Vector3::<S>::unit_z_spec())
            == Vector3::<S>::from_value_spec(S::zero_spec()),
{
    S::lemma_identities();
}

/// Extending a vector by one component and dropping that component again
/// gives the vector back.
pub proof fn lemma_extend_truncate<S: BaseNum>(a: Vector2<S>, b: Vector3<S>, last: S)
    ensures
        (Vector3 { x: a.x, y: a.y, z: last }).truncate_spec() == a,
        (Vector4 { x: b.x, y: b.y, z: b.z, w: last }).truncate_spec() == b,
        (Vector4 { x: b.x, y: b.y, z: b.z, w: last }).truncate_n_spec(3) == b,
{
}

/// The squared length of `v`: its dot product with itself.
pub open spec fn length2_spec<V: Vector>(v: V) -> V::Scalar {
    v.dot_spec(v)
}

/// The length of `v`: the square root of its squared length.
pub open spec fn length_spec<V: Vector>(v: V) -> V::Scalar where V::Scalar: BaseFloat {
    v.dot_spec(v).sqrt_spec()
}

/// `v` scaled by `length / |v|`.
pub open spec fn normalize_to_spec<V: Vector>(v: V, length: V::Scalar) -> V where
    V::Scalar: BaseFloat,
 {
    v.mul_s_spec(length.div_spec(length_spec(v)))
}

/// `v` scaled by `1 / |v|`.
pub open spec fn normalize_spec<V: Vector>(v: V) -> V where V::Scalar: BaseFloat {
    normalize_to_spec(v, V::Scalar::one_spec())
}

/// `v + (other - v) * amount`.
pub open spec fn lerp_spec<V: Vector>(v: V, other: V, amount: V::Scalar) -> V {
    v.add_v_spec(other.sub_v_spec(v).mul_s_spec(amount))
}

/// Whether the dot product of `v` and `other` is zero within the default tolerance.
pub open spec fn is_perpendicular_spec<V: Vector>(v: V, other: V) -> bool where
    V::Scalar: BaseFloat,
 {
    v.dot_spec(other).approx_eq_eps_spec(
        &V::Scalar::zero_spec(),
        &default_epsilon_spec::<V::Scalar>(),
    )
}

/// Geometric operations on vectors whose scalar is a floating-point number.
///
/// A vector of length zero is not treated apart: normalising it divides by
/// zero, with whatever the scalar's division then gives.
pub trait EuclideanVector: Vector where <Self as Vector>::Scalar: BaseFloat {
    spec fn angle_spec(self, other: Self) -> Rad<Self::Scalar>;

    /// Whether the vector is at right angles to `other`.
    fn is_perpendicular(self, other: Self) -> (r: bool)
        ensures
            r == is_perpendicular_spec(self, other),
    {
        let d = self.dot(other);
        let zero = Self::Scalar::zero();
        d.approx_eq(&zero)
    }

    /// The squared length. It needs no square root, which makes it the
    /// cheaper way to compare two lengths.
    fn length2(self) -> (r: Self::Scalar)
        ensures
            r == length2_spec(self),
    {
        self.dot(self)
    }

    /// The length.
    fn length(self) -> (r: Self::Scalar)
        ensures
            r == length_spec(self),
    {
        self.dot(self).sqrt()
    }

    /// The angle from the vector to `other`, in radians.
    fn angle(self, other: Self) -> (r: Rad<Self::Scalar>)
        ensures
            r == self.angle_spec(other),
    ;

    /// The vector of the same direction and of length one.
    #[must_use]
    fn normalize(self) -> (r: Self)
        ensures
            r == normalize_spec(self),
    {
        self.normalize_to(Self::Scalar::one())
    }

    /// The vector of the same direction and of the given length.
    #[must_use]
    fn normalize_to(self, length: Self::Scalar) -> (r: Self)
        ensures
            r == normalize_to_spec(self, length),
    {
        let current = self.length();
        self.mul_s(quot(length, current))
    }

    /// The point at `amount` on the way from the vector to `other`:
    /// `self + (other - self) * amount`.
    #[must_use]
    fn lerp(self, other: Self, amount: Self::Scalar) -> (r: Self)
        ensures
            r == lerp_spec(self, other, amount),
    {
        self.add_v(other.sub_v(self).mul_s(amount))
    }

    /// [`EuclideanVector::normalize`], in place.
    fn normalize_self(&mut self)
        ensures
            *final(self) == normalize_spec(*old(self)),
    {
        let rlen = recip(self.length());
        self.mul_self_s(rlen);
    }

    /// [`EuclideanVector::normalize_to`], in place.
    fn normalize_self_to(&mut self, length: Self::Scalar)
        ensures
            *final(self) == normalize_to_spec(*old(self), length),
    {
        let n = quot(length, self.length());
        self.mul_self_s(n);
    }

    /// [`EuclideanVector::lerp`], in place.
    fn lerp_self(&mut self, other: Self, amount: Self::Scalar)
        ensures
            *final(self) == lerp_spec(*old(self), other, amount),
    {
        let v = other.sub_v(*self).mul_s(amount);
        self.add_self_v(v);
    }
}

impl<S: BaseFloat> EuclideanVector for Vector2<S> {
    /// Signed: the arctangent of the perpendicular dot product over the dot product.
    open spec fn angle_spec(self, other: Vector2<S>) -> Rad<S> {
        Rad(self.perp_dot_spec(other).atan2_spec(self.dot_spec(other)))
    }

    fn angle(self, other: Vector2<S>) -> (r: Rad<S>) {
        Rad(self.perp_dot(other).atan2(self.dot(other)))
    }
}

impl<S: BaseFloat> EuclideanVector for Vector3<S> {
    /// Unsigned: the arctangent of the cross product's length over the dot product.
    open spec fn angle_spec(self, other: Vector3<S>) -> Rad<S> {
        Rad(length_spec(self.cross_spec(other)).atan2_spec(self.dot_spec(other)))
    }

    fn angle(self, other: Vector3<S>) -> (r: Rad<S>) {
        Rad(self.cross(other).length().atan2(self.dot(other)))
    }
}

impl<S: BaseFloat> EuclideanVector for Vector4<S> {
    /// Unsigned: the arccosine of the dot product over the product of the lengths.
    open spec fn angle_spec(self, other: Vector4<S>) -> Rad<S> {
        Rad(self.dot_spec(other).div_spec(length_spec(self).mul_spec(length_spec(other))).acos_spec())
    }

    fn angle(self, other: Vector4<S>) -> (r: Rad<S>) {
        Rad(quot(self.dot(other), self.length().mul(other.length())).acos())
    }
}

} // verus!
