//! Points: fixed positions in affine space.
//!
//! A point differs from a vector of the same dimension by what can be done
//! with it: a vector can be added to a point, and two points can be
//! subtracted to give a vector, but two points cannot be added.
use vstd::prelude::*;
use crate::approx::ApproxEq;
use crate::array::{Array, Array1, FixedArray};
use crate::num::{BaseFloat, BaseNum};
use crate::vector::{Vector, Vector2, Vector3, Vector4};

verus! {

/// The numeric operations that the points of every dimension share.
pub trait Point: Copy + Sized {
    /// The type of the coordinates.
    type Scalar: BaseNum;

    /// The displacement between two points.
    type Vector: Vector<Scalar = Self::Scalar>;

    spec fn origin_spec() -> Self;

    spec fn from_vec_spec(v: Self::Vector) -> Self;

    spec fn to_vec_spec(self) -> Self::Vector;

    spec fn mul_s_spec(self, scalar: Self::Scalar) -> Self;

    spec fn div_s_spec(self, scalar: Self::Scalar) -> Self;

    spec fn rem_s_spec(self, scalar: Self::Scalar) -> Self;

    /// Whether every coordinate can be divided by `scalar`.
    spec fn div_s_defined_spec(self, scalar: Self::Scalar) -> bool;

    spec fn add_v_spec(self, v: Self::Vector) -> Self;

    spec fn sub_p_spec(self, p: Self) -> Self::Vector;

    spec fn dot_spec(self, v: Self::Vector) -> Self::Scalar;

    spec fn min_spec(self, p: Self) -> Self;

    spec fn max_spec(self, p: Self) -> Self;

    /// The point whose coordinates are all zero.
    fn origin() -> (r: Self)
        ensures
            r == Self::origin_spec(),
    ;

    /// The point at the tip of `v`, when `v` starts at the origin.
    fn from_vec(v: Self::Vector) -> (r: Self)
        ensures
            r == Self::from_vec_spec(v),
    ;

    /// The vector from the origin to the point.
    fn to_vec(self) -> (r: Self::Vector)
        ensures
            r == self.to_vec_spec(),
    ;

    /// Multiplies every coordinate by `scalar`.
    #[must_use]
    fn mul_s(self, scalar: Self::Scalar) -> (r: Self)
        ensures
            r == self.mul_s_spec(scalar),
    ;

    /// Divides every coordinate by `scalar`.
    #[must_use]
    fn div_s(self, scalar: Self::Scalar) -> (r: Self)
        requires
            self.div_s_defined_spec(scalar),
        ensures
            r == self.div_s_spec(scalar),
    ;

    /// Takes the remainder of every coordinate by `scalar`.
    #[must_use]
    fn rem_s(self, scalar: Self::Scalar) -> (r: Self)
        requires
            self.div_s_defined_spec(scalar),
        ensures
            r == self.rem_s_spec(scalar),
    ;

    /// The point displaced by `v`.
    #[must_use]
    fn add_v(self, v: Self::Vector) -> (r: Self)
        ensures
            r == self.add_v_spec(v),
    ;

    /// The vector that leads from `p` to the point.
    fn sub_p(self, p: Self) -> (r: Self::Vector)
        ensures
            r == self.sub_p_spec(p),
    ;

    /// [`Point::mul_s`], in place.
    fn mul_self_s(&mut self, scalar: Self::Scalar)
        ensures
            *final(self) == old(self).mul_s_spec(scalar),
    {
        *self = self.mul_s(scalar);
    }

    /// [`Point::div_s`], in place.
    fn div_self_s(&mut self, scalar: Self::Scalar)
        requires
            old(self).div_s_defined_spec(scalar),
        ensures
            *final(self) == old(self).div_s_spec(scalar),
    {
        *self = self.div_s(scalar);
    }

    /// [`Point::rem_s`], in place.
    fn rem_self_s(&mut self, scalar: Self::Scalar)
        requires
            old(self).div_s_defined_spec(scalar),
        ensures
            *final(self) == old(self).rem_s_spec(scalar),
    {
        *self = self.rem_s(scalar);
    }

    /// [`Point::add_v`], in place.
    fn add_self_v(&mut self, v: Self::Vector)
        ensures
            *final(self) == old(self).add_v_spec(v),
    {
        *self = self.add_v(v);
    }

    /// The dot product of the point's coordinates, read as a vector, with
    /// `v`. It serves to measure the distance of a point from a plane.
    fn dot(self, v: Self::Vector) -> (r: Self::Scalar)
        ensures
            r == self.dot_spec(v),
    ;

    /// The point of the smaller coordinates, taken one by one with the
    /// scalar's partial minimum.
    #[must_use]
    fn min(self, p: Self) -> (r: Self)
        ensures
            r == self.min_spec(p),
    ;

    /// The point of the larger coordinates, taken one by one with the
    /// scalar's partial maximum.
    #[must_use]
    fn max(self, p: Self) -> (r: Self)
        ensures
            r == self.max_spec(p),
    ;
}

/// A point in two-dimensional space.
#[derive(PartialEq, Eq, Hash, Debug)]
pub struct Point2<S> {
    pub x: S,
    pub y: S,
}

impl<S: Copy> Clone for Point2<S> {
    fn clone(&self) -> (r: Point2<S>)
        ensures
            r == *self,
    {
        *self
    }
}

impl<S: Copy> Copy for Point2<S> {
}

impl<S: BaseNum> Point2<S> {
    /// The point with the given coordinates.
    pub fn new(x: S, y: S) -> (r: Point2<S>)
        ensures
            r == (Point2 { x: x, y: y }),
    {
        Point2 { x: x, y: y }
    }
}

impl<S: BaseNum> Point for Point2<S> {
    type Scalar = S;

    type Vector = Vector2<S>;

    open spec fn origin_spec() -> Point2<S> {
        Point2 { x: S::zero_spec(), y: S::zero_spec() }
    }

    open spec fn from_vec_spec(v: Vector2<S>) -> Point2<S> {
        Point2 { x: v.x, y: v.y }
    }

    open spec fn to_vec_spec(self) -> Vector2<S> {
        Vector2 { x: self.x, y: self.y }
    }

    open spec fn mul_s_spec(self, scalar: S) -> Point2<S> {
        Point2 { x: self.x.mul_spec(scalar), y: self.y.mul_spec(scalar) }
    }

    open spec fn div_s_spec(self, scalar: S) -> Point2<S> {
        Point2 { x: self.x.div_spec(scalar), y: self.y.div_spec(scalar) }
    }

    open spec fn rem_s_spec(self, scalar: S) -> Point2<S> {
        Point2 { x: self.x.rem_spec(scalar), y: self.y.rem_spec(scalar) }
    }

    open spec fn div_s_defined_spec(self, scalar: S) -> bool {
        self.x.div_defined_spec(scalar)
        && self.y.div_defined_spec(scalar)
    }

    open spec fn add_v_spec(self, v: Vector2<S>) -> Point2<S> {
        Point2 { x: self.x.add_spec(v.x), y: self.y.add_spec(v.y) }
    }

    open spec fn sub_p_spec(self, p: Point2<S>) -> Vector2<S> {
        Vector2 { x: self.x.sub_spec(p.x), y: self.y.sub_spec(p.y) }
    }

    open spec fn dot_spec(self, v: Vector2<S>) -> S {
        self.x.mul_spec(v.x).add_spec(self.y.mul_spec(v.y))
    }

    open spec fn min_spec(self, p: Point2<S>) -> Point2<S> {
        Point2 { x: self.x.partial_min_spec(p.x), y: self.y.partial_min_spec(p.y) }
    }

    open spec fn max_spec(self, p: Point2<S>) -> Point2<S> {
        Point2 { x: self.x.partial_max_spec(p.x), y: self.y.partial_max_spec(p.y) }
    }

    fn origin() -> (r: Point2<S>) {
        Point2 { x: S::zero(), y: S::zero() }
    }

    fn from_vec(v: Vector2<S>) -> (r: Point2<S>) {
        Point2 { x: v.x, y: v.y }
    }

    fn to_vec(self) -> (r: Vector2<S>) {
        Vector2 { x: self.x, y: self.y }
    }

    fn mul_s(self, scalar: S) -> (r: Point2<S>) {
        Point2 { x: self.x.mul(scalar), y: self.y.mul(scalar) }
    }

    fn div_s(self, scalar: S) -> (r: Point2<S>) {
        Point2 { x: self.x.div(scalar), y: self.y.div(scalar) }
    }

    fn rem_s(self, scalar: S) -> (r: Point2<S>) {
        Point2 { x: self.x.rem(scalar), y: self.y.rem(scalar) }
    }

    fn add_v(self, v: Vector2<S>) -> (r: Point2<S>) {
        Point2 { x: self.x.add(v.x), y: self.y.add(v.y) }
    }

    fn sub_p(self, p: Point2<S>) -> (r: Vector2<S>) {
        Vector2 { x: self.x.sub(p.x), y: self.y.sub(p.y) }
    }

    fn dot(self, v: Vector2<S>) -> (r: S) {
        self.x.mul(v.x).add(self.y.mul(v.y))
    }

    fn min(self, p: Point2<S>) -> (r: Point2<S>) {
        Point2 { x: self.x.partial_min(p.x), y: self.y.partial_min(p.y) }
    }

    fn max(self, p: Point2<S>) -> (r: Point2<S>) {
        Point2 { x: self.x.partial_max(p.x), y: self.y.partial_max(p.y) }
    }
}

impl<S: BaseNum> Array for Point2<S> {
    type Element = S;

    open spec fn sum_spec(self) -> S {
        self.x.add_spec(self.y)
    }

    open spec fn product_spec(self) -> S {
        self.x.mul_spec(self.y)
    }

    open spec fn min_spec(self) -> S {
        self.x.partial_min_spec(self.y)
    }

    open spec fn max_spec(self) -> S {
        self.x.partial_max_spec(self.y)
    }

    fn sum(self) -> (r: S) {
        self.x.add(self.y)
    }

    fn product(self) -> (r: S) {
        self.x.mul(self.y)
    }

    fn min(self) -> (r: S) {
        self.x.partial_min(self.y)
    }

    fn max(self) -> (r: S) {
        self.x.partial_max(self.y)
    }
}

impl<S: BaseNum> vstd::std_specs::ops::MulSpecImpl<S> for Point2<S> {
    open spec fn obeys_mul_spec() -> bool {
        true
    }

    open spec fn mul_req(self, scalar: S) -> bool {
        true
    }

    open spec fn mul_spec(self, scalar: S) -> Point2<S> {
        Point2 { x: self.x.mul_spec(scalar), y: self.y.mul_spec(scalar) }
    }
}

impl<S: BaseNum> core::ops::Mul<S> for Point2<S> {
    type Output = Point2<S>;

    fn mul(self, scalar: S) -> (r: Point2<S>) {
        Point2 { x: self.x.mul(scalar), y: self.y.mul(scalar) }
    }
}

impl<S: BaseNum> vstd::std_specs::ops::DivSpecImpl<S> for Point2<S> {
    open spec fn obeys_div_spec() -> bool {
        true
    }

    open spec fn div_req(self, scalar: S) -> bool {
        self.x.div_defined_spec(scalar)
        && self.y.div_defined_spec(scalar)
    }

    open spec fn div_spec(self, scalar: S) -> Point2<S> {
        Point2 { x: self.x.div_spec(scalar), y: self.y.div_spec(scalar) }
    }
}

impl<S: BaseNum> core::ops::Div<S> for Point2<S> {
    type Output = Point2<S>;

    fn div(self, scalar: S) -> (r: Point2<S>) {
        Point2 { x: self.x.div(scalar), y: self.y.div(scalar) }
    }
}

impl<S: BaseNum> vstd::std_specs::ops::RemSpecImpl<S> for Point2<S> {
    open spec fn obeys_rem_spec() -> bool {
        true
    }

    open spec fn rem_req(self, scalar: S) -> bool {
        self.x.div_defined_spec(scalar)
        && self.y.div_defined_spec(scalar)
    }

    open spec fn rem_spec(self, scalar: S) -> Point2<S> {
        Point2 { x: self.x.rem_spec(scalar), y: self.y.rem_spec(scalar) }
    }
}

impl<S: BaseNum> core::ops::Rem<S> for Point2<S> {
    type Output = Point2<S>;

    fn rem(self, scalar: S) -> (r: Point2<S>) {
        Point2 { x: self.x.rem(scalar), y: self.y.rem(scalar) }
    }
}

impl<S: BaseNum> vstd::std_specs::ops::AddSpecImpl<Vector2<S>> for Point2<S> {
    open spec fn obeys_add_spec() -> bool {
        true
    }

    open spec fn add_req(self, v: Vector2<S>) -> bool {
        true
    }

    open spec fn add_spec(self, v: Vector2<S>) -> Point2<S> {
        Point2 { x: self.x.add_spec(v.x), y: self.y.add_spec(v.y) }
    }
}

impl<S: BaseNum> core::ops::Add<Vector2<S>> for Point2<S> {
    type Output = Point2<S>;

    /// The point displaced by `v`.
    fn add(self, v: Vector2<S>) -> (r: Point2<S>) {
        Point2 { x: self.x.add(v.x), y: self.y.add(v.y) }
    }
}

impl<S: BaseNum> vstd::std_specs::ops::SubSpecImpl for Point2<S> {
    open spec fn obeys_sub_spec() -> bool {
        true
    }

    open spec fn sub_req(self, p: Point2<S>) -> bool {
        true
    }

    open spec fn sub_spec(self, p: Point2<S>) -> Vector2<S> {
        Vector2 { x: self.x.sub_spec(p.x), y: self.y.sub_spec(p.y) }
    }
}

impl<S: BaseNum> core::ops::Sub for Point2<S> {
    type Output = Vector2<S>;

    /// The vector that leads from `p` to the point.
    fn sub(self, p: Point2<S>) -> (r: Vector2<S>) {
        Vector2 { x: self.x.sub(p.x), y: self.y.sub(p.y) }
    }
}

/// Approximately equal when every component is.
impl<S: BaseFloat> ApproxEq for Point2<S> {
    type Epsilon = S;

    open spec fn approx_eq_eps_spec(&self, other: &Point2<S>, epsilon: &S) -> bool {
        self.x.approx_eq_eps_spec(&other.x, epsilon)
        && self.y.approx_eq_eps_spec(&other.y, epsilon)
    }

    fn approx_eq_eps(&self, other: &Point2<S>, epsilon: &S) -> (r: bool) {
        self.x.approx_eq_eps(&other.x, epsilon)
        && self.y.approx_eq_eps(&other.y, epsilon)
    }
}

impl<S: Copy> vstd::std_specs::convert::FromSpecImpl<[S; 2]> for Point2<S> {
    open spec fn obeys_from_spec() -> bool {
        true
    }

    open spec fn from_spec(v: [S; 2]) -> Point2<S> {
        Point2 { x: v[0], y: v[1] }
    }
}

impl<S: Copy> From<[S; 2]> for Point2<S> {
    /// The value whose components are the array's elements, in order.
    fn from(v: [S; 2]) -> (r: Point2<S>) {
        Point2 { x: v[0], y: v[1] }
    }
}

impl<S: Copy> vstd::std_specs::convert::FromSpecImpl<Point2<S>> for [S; 2] {
    open spec fn obeys_from_spec() -> bool {
        true
    }

    open spec fn from_spec(v: Point2<S>) -> [S; 2] {
        [v.x, v.y]
    }
}

impl<S: Copy> From<Point2<S>> for [S; 2] {
    /// The components, in order.
    fn from(v: Point2<S>) -> (r: [S; 2]) {
        [v.x, v.y]
    }
}

impl<S: Copy> vstd::std_specs::convert::FromSpecImpl<(S, S)> for Point2<S> {
    open spec fn obeys_from_spec() -> bool {
        true
    }

    open spec fn from_spec(v: (S, S)) -> Point2<S> {
        Point2 { x: v.0, y: v.1 }
    }
}

impl<S: Copy> From<(S, S)> for Point2<S> {
    /// The value whose components are the tuple's fields, in order.
    fn from(v: (S, S)) -> (r: Point2<S>) {
        Point2 { x: v.0, y: v.1 }
    }
}

impl<S: Copy> vstd::std_specs::convert::FromSpecImpl<Point2<S>> for (S, S) {
    open spec fn obeys_from_spec() -> bool {
        true
    }

    open spec fn from_spec(v: Point2<S>) -> (S, S) {
        (v.x, v.y)
    }
}

impl<S: Copy> From<Point2<S>> for (S, S) {
    /// The components, in order.
    fn from(v: Point2<S>) -> (r: (S, S)) {
        (v.x, v.y)
    }
}

/// Converting a value to an array, or to a tuple, and back gives the value
/// itself.
pub proof fn lemma_point2_round_trip<S: Copy>(v: Point2<S>)
    ensures
        <Point2<S> as vstd::std_specs::convert::FromSpec<[S; 2]>>::from_spec(
            <[S; 2] as vstd::std_specs::convert::FromSpec<Point2<S>>>::from_spec(v),
        ) == v,
        <Point2<S> as vstd::std_specs::convert::FromSpec<(S, S)>>::from_spec(
            <(S, S) as vstd::std_specs::convert::FromSpec<Point2<S>>>::from_spec(v),
        ) == v,
{
}

impl<S: Copy> FixedArray<[S; 2]> for Point2<S> {
    open spec fn into_fixed_spec(self) -> [S; 2] {
        [self.x, self.y]
    }

    open spec fn from_fixed_spec(v: [S; 2]) -> Point2<S> {
        Point2 { x: v[0], y: v[1] }
    }

    proof fn lemma_round_trip(self) {
    }

    fn into_fixed(self) -> (r: [S; 2]) {
        [self.x, self.y]
    }

    fn from_fixed(v: [S; 2]) -> (r: Point2<S>) {
        Point2 { x: v[0], y: v[1] }
    }
}

impl<S: Copy> FixedArray<(S, S)> for Point2<S> {
    open spec fn into_fixed_spec(self) -> (S, S) {
        (self.x, self.y)
    }

    open spec fn from_fixed_spec(v: (S, S)) -> Point2<S> {
        Point2 { x: v.0, y: v.1 }
    }

    proof fn lemma_round_trip(self) {
    }

    fn into_fixed(self) -> (r: (S, S)) {
        (self.x, self.y)
    }

    fn from_fixed(v: (S, S)) -> (r: Point2<S>) {
        Point2 { x: v.0, y: v.1 }
    }
}

impl<S: Copy> Array1<S> for Point2<S> {
    open spec fn elems(&self) -> Seq<S> {
        seq![self.x, self.y]
    }

    fn get(&self, i: usize) -> (r: &S) {
        match i {
            0 => &self.x,
            1 => &self.y,
            _ => vstd::pervasive::unreached(),
        }
    }

    fn get_mut(&mut self, i: usize) -> (r: &mut S) {
        match i {
            0 => &mut self.x,
            1 => &mut self.y,
            _ => vstd::pervasive::unreached(),
        }
    }

    fn map<F: Fn(S) -> S>(&mut self, op: F) -> (r: Point2<S>) {
        proof {
            assert(self.elems()[0] == self.x);
            assert(self.elems()[1] == self.y);
        }
        let x = op(self.x);
        let y = op(self.y);
        self.x = x;
        self.y = y;
        *self
    }
}

impl<S> vstd::std_specs::core::IndexSpecImpl<usize> for Point2<S> {
    open spec fn index_req(&self, index: &usize) -> bool {
        *index < 2
    }
}

impl<S> core::ops::Index<usize> for Point2<S> {
    type Output = S;

    /// The component at position `i`, counted from zero. A position past
    /// the last component stops the program.
    fn index(&self, i: usize) -> (r: &S)
        ensures
            i == 0 ==> *r == self.x,
            i == 1 ==> *r == self.y,
    {
        match i {
            0 => &self.x,
            1 => &self.y,
            _ => vstd::pervasive::unreached(),
        }
    }
}

/// A point in three-dimensional space.
#[derive(PartialEq, Eq, Hash, Debug)]
pub struct Point3<S> {
    pub x: S,
    pub y: S,
    pub z: S,
}

impl<S: Copy> Clone for Point3<S> {
    fn clone(&self) -> (r: Point3<S>)
        ensures
            r == *self,
    {
        *self
    }
}

impl<S: Copy> Copy for Point3<S> {
}

impl<S: BaseNum> Point3<S> {
    /// The point with the given coordinates.
    pub fn new(x: S, y: S, z: S) -> (r: Point3<S>)
        ensures
            r == (Point3 { x: x, y: y, z: z }),
    {
        Point3 { x: x, y: y, z: z }
    }
}

impl<S: BaseNum> Point3<S> {
    /// The point that a homogeneous vector stands for: each of `x`, `y` and
    /// `z` divided by `w`.
    pub open spec fn from_homogeneous_spec(v: Vector4<S>) -> Point3<S> {
        Point3 { x: v.x.div_spec(v.w), y: v.y.div_spec(v.w), z: v.z.div_spec(v.w) }
    }

    /// The perspective divide. Nothing guards a zero `w` beyond the scalar's
    /// own division: the caller sees to it that the three quotients are
    /// defined.
    pub fn from_homogeneous(v: Vector4<S>) -> (r: Point3<S>)
        requires
            v.x.div_defined_spec(v.w),
            v.y.div_defined_spec(v.w),
            v.z.div_defined_spec(v.w),
        ensures
            r == Self::from_homogeneous_spec(v),
    {
        let e = v.truncate().div_s(v.w);
        Point3::new(e.x, e.y, e.z)
    }

    /// The homogeneous vector of the point: its coordinates, and one for `w`.
    pub fn to_homogeneous(self) -> (r: Vector4<S>)
        ensures
            r == (Vector4 { x: self.x, y: self.y, z: self.z, w: S::one_spec() }),
    {
        Vector4::new(self.x, self.y, self.z, S::one())
    }
}

impl<S: BaseNum> Point for Point3<S> {
    type Scalar = S;

    type Vector = Vector3<S>;

    open spec fn origin_spec() -> Point3<S> {
        Point3 { x: S::zero_spec(), y: S::zero_spec(), z: S::zero_spec() }
    }

    open spec fn from_vec_spec(v: Vector3<S>) -> Point3<S> {
        Point3 { x: v.x, y: v.y, z: v.z }
    }

    open spec fn to_vec_spec(self) -> Vector3<S> {
        Vector3 { x: self.x, y: self.y, z: self.z }
    }

    open spec fn mul_s_spec(self, scalar: S) -> Point3<S> {
        Point3 {
            x: self.x.mul_spec(scalar),
            y: self.y.mul_spec(scalar),
            z: self.z.mul_spec(scalar),
        }
    }

    open spec fn div_s_spec(self, scalar: S) -> Point3<S> {
        Point3 {
            x: self.x.div_spec(scalar),
            y: self.y.div_spec(scalar),
            z: self.z.div_spec(scalar),
        }
    }

    open spec fn rem_s_spec(self, scalar: S) -> Point3<S> {
        Point3 {
            x: self.x.rem_spec(scalar),
            y: self.y.rem_spec(scalar),
            z: self.z.rem_spec(scalar),
        }
    }

    open spec fn div_s_defined_spec(self, scalar: S) -> bool {
        self.x.div_defined_spec(scalar)
        && self.y.div_defined_spec(scalar)
        && self.z.div_defined_spec(scalar)
    }

    open spec fn add_v_spec(self, v: Vector3<S>) -> Point3<S> {
        Point3 { x: self.x.add_spec(v.x), y: self.y.add_spec(v.y), z: self.z.add_spec(v.z) }
    }

    open spec fn sub_p_spec(self, p: Point3<S>) -> Vector3<S> {
        Vector3 { x: self.x.sub_spec(p.x), y: self.y.sub_spec(p.y), z: self.z.sub_spec(p.z) }
    }

    open spec fn dot_spec(self, v: Vector3<S>) -> S {
        self.x.mul_spec(v.x).add_spec(self.y.mul_spec(v.y)).add_spec(self.z.mul_spec(v.z))
    }

    open spec fn min_spec(self, p: Point3<S>) -> Point3<S> {
        Point3 {
            x: self.x.partial_min_spec(p.x),
            y: self.y.partial_min_spec(p.y),
            z: self.z.partial_min_spec(p.z),
        }
    }

    open spec fn max_spec(self, p: Point3<S>) -> Point3<S> {
        Point3 {
            x: self.x.partial_max_spec(p.x),
            y: self.y.partial_max_spec(p.y),
            z: self.z.partial_max_spec(p.z),
        }
    }

    fn origin() -> (r: Point3<S>) {
        Point3 { x: S::zero(), y: S::zero(), z: S::zero() }
    }

    fn from_vec(v: Vector3<S>) -> (r: Point3<S>) {
        Point3 { x: v.x, y: v.y, z: v.z }
    }

    fn to_vec(self) -> (r: Vector3<S>) {
        Vector3 { x: self.x, y: self.y, z: self.z }
    }

    fn mul_s(self, scalar: S) -> (r: Point3<S>) {
        Point3 { x: self.x.mul(scalar), y: self.y.mul(scalar), z: self.z.mul(scalar) }
    }

    fn div_s(self, scalar: S) -> (r: Point3<S>) {
        Point3 { x: self.x.div(scalar), y: self.y.div(scalar), z: self.z.div(scalar) }
    }

    fn rem_s(self, scalar: S) -> (r: Point3<S>) {
        Point3 { x: self.x.rem(scalar), y: self.y.rem(scalar), z: self.z.rem(scalar) }
    }

    fn add_v(self, v: Vector3<S>) -> (r: Point3<S>) {
        Point3 { x: self.x.add(v.x), y: self.y.add(v.y), z: self.z.add(v.z) }
    }

    fn sub_p(self, p: Point3<S>) -> (r: Vector3<S>) {
        Vector3 { x: self.x.sub(p.x), y: self.y.sub(p.y), z: self.z.sub(p.z) }
    }

    fn dot(self, v: Vector3<S>) -> (r: S) {
        self.x.mul(v.x).add(self.y.mul(v.y)).add(self.z.mul(v.z))
    }

    fn min(self, p: Point3<S>) -> (r: Point3<S>) {
        Point3 {
            x: self.x.partial_min(p.x),
            y: self.y.partial_min(p.y),
            z: self.z.partial_min(p.z),
        }
    }

    fn max(self, p: Point3<S>) -> (r: Point3<S>) {
        Point3 {
            x: self.x.partial_max(p.x),
            y: self.y.partial_max(p.y),
            z: self.z.partial_max(p.z),
        }
    }
}

impl<S: BaseNum> Array for Point3<S> {
    type Element = S;

    open spec fn sum_spec(self) -> S {
        self.x.add_spec(self.y).add_spec(self.z)
    }

    open spec fn product_spec(self) -> S {
        self.x.mul_spec(self.y).mul_spec(self.z)
    }

    open spec fn min_spec(self) -> S {
        self.x.partial_min_spec(self.y).partial_min_spec(self.z)
    }

    open spec fn max_spec(self) -> S {
        self.x.partial_max_spec(self.y).partial_max_spec(self.z)
    }

    fn sum(self) -> (r: S) {
        self.x.add(self.y).add(self.z)
    }

    fn product(self) -> (r: S) {
        self.x.mul(self.y).mul(self.z)
    }

    fn min(self) -> (r: S) {
        self.x.partial_min(self.y).partial_min(self.z)
    }

    fn max(self) -> (r: S) {
        self.x.partial_max(self.y).partial_max(self.z)
    }
}

impl<S: BaseNum> vstd::std_specs::ops::MulSpecImpl<S> for Point3<S> {
    open spec fn obeys_mul_spec() -> bool {
        true
    }

    open spec fn mul_req(self, scalar: S) -> bool {
        true
    }

    open spec fn mul_spec(self, scalar: S) -> Point3<S> {
        Point3 {
            x: self.x.mul_spec(scalar),
            y: self.y.mul_spec(scalar),
            z: self.z.mul_spec(scalar),
        }
    }
}

impl<S: BaseNum> core::ops::Mul<S> for Point3<S> {
    type Output = Point3<S>;

    fn mul(self, scalar: S) -> (r: Point3<S>) {
        Point3 { x: self.x.mul(scalar), y: self.y.mul(scalar), z: self.z.mul(scalar) }
    }
}

impl<S: BaseNum> vstd::std_specs::ops::DivSpecImpl<S> for Point3<S> {
    open spec fn obeys_div_spec() -> bool {
        true
    }

    open spec fn div_req(self, scalar: S) -> bool {
        self.x.div_defined_spec(scalar)
        && self.y.div_defined_spec(scalar)
        && self.z.div_defined_spec(scalar)
    }

    open spec fn div_spec(self, scalar: S) -> Point3<S> {
        Point3 {
            x: self.x.div_spec(scalar),
            y: self.y.div_spec(scalar),
            z: self.z.div_spec(scalar),
        }
    }
}

impl<S: BaseNum> core::ops::Div<S> for Point3<S> {
    type Output = Point3<S>;

    fn div(self, scalar: S) -> (r: Point3<S>) {
        Point3 { x: self.x.div(scalar), y: self.y.div(scalar), z: self.z.div(scalar) }
    }
}

impl<S: BaseNum> vstd::std_specs::ops::RemSpecImpl<S> for Point3<S> {
    open spec fn obeys_rem_spec() -> bool {
        true
    }

    open spec fn rem_req(self, scalar: S) -> bool {
        self.x.div_defined_spec(scalar)
        && self.y.div_defined_spec(scalar)
        && self.z.div_defined_spec(scalar)
    }

    open spec fn rem_spec(self, scalar: S) -> Point3<S> {
        Point3 {
            x: self.x.rem_spec(scalar),
            y: self.y.rem_spec(scalar),
            z: self.z.rem_spec(scalar),
        }
    }
}

impl<S: BaseNum> core::ops::Rem<S> for Point3<S> {
    type Output = Point3<S>;

    fn rem(self, scalar: S) -> (r: Point3<S>) {
        Point3 { x: self.x.rem(scalar), y: self.y.rem(scalar), z: self.z.rem(scalar) }
    }
}

impl<S: BaseNum> vstd::std_specs::ops::AddSpecImpl<Vector3<S>> for Point3<S> {
    open spec fn obeys_add_spec() -> bool {
        true
    }

    open spec fn add_req(self, v: Vector3<S>) -> bool {
        true
    }

    open spec fn add_spec(self, v: Vector3<S>) -> Point3<S> {
        Point3 { x: self.x.add_spec(v.x), y: self.y.add_spec(v.y), z: self.z.add_spec(v.z) }
    }
}

impl<S: BaseNum> core::ops::Add<Vector3<S>> for Point3<S> {
    type Output = Point3<S>;

    /// The point displaced by `v`.
    fn add(self, v: Vector3<S>) -> (r: Point3<S>) {
        Point3 { x: self.x.add(v.x), y: self.y.add(v.y), z: self.z.add(v.z) }
    }
}

impl<S: BaseNum> vstd::std_specs::ops::SubSpecImpl for Point3<S> {
    open spec fn obeys_sub_spec() -> bool {
        true
    }

    open spec fn sub_req(self, p: Point3<S>) -> bool {
        true
    }

    open spec fn sub_spec(self, p: Point3<S>) -> Vector3<S> {
        Vector3 { x: self.x.sub_spec(p.x), y: self.y.sub_spec(p.y), z: self.z.sub_spec(p.z) }
    }
}

impl<S: BaseNum> core::ops::Sub for Point3<S> {
    type Output = Vector3<S>;

    /// The vector that leads from `p` to the point.
    fn sub(self, p: Point3<S>) -> (r: Vector3<S>) {
        Vector3 { x: self.x.sub(p.x), y: self.y.sub(p.y), z: self.z.sub(p.z) }
    }
}

/// Approximately equal when every component is.
impl<S: BaseFloat> ApproxEq for Point3<S> {
    type Epsilon = S;

    open spec fn approx_eq_eps_spec(&self, other: &Point3<S>, epsilon: &S) -> bool {
        self.x.approx_eq_eps_spec(&other.x, epsilon)
        && self.y.approx_eq_eps_spec(&other.y, epsilon)
        && self.z.approx_eq_eps_spec(&other.z, epsilon)
    }

    fn approx_eq_eps(&self, other: &Point3<S>, epsilon: &S) -> (r: bool) {
        self.x.approx_eq_eps(&other.x, epsilon)
        && self.y.approx_eq_eps(&other.y, epsilon)
        && self.z.approx_eq_eps(&other.z, epsilon)
    }
}

impl<S: Copy> vstd::std_specs::convert::FromSpecImpl<[S; 3]> for Point3<S> {
    open spec fn obeys_from_spec() -> bool {
        true
    }

    open spec fn from_spec(v: [S; 3]) -> Point3<S> {
        Point3 { x: v[0], y: v[1], z: v[2] }
    }
}

impl<S: Copy> From<[S; 3]> for Point3<S> {
    /// The value whose components are the array's elements, in order.
    fn from(v: [S; 3]) -> (r: Point3<S>) {
        Point3 { x: v[0], y: v[1], z: v[2] }
    }
}

impl<S: Copy> vstd::std_specs::convert::FromSpecImpl<Point3<S>> for [S; 3] {
    open spec fn obeys_from_spec() -> bool {
        true
    }

    open spec fn from_spec(v: Point3<S>) -> [S; 3] {
        [v.x, v.y, v.z]
    }
}

impl<S: Copy> From<Point3<S>> for [S; 3] {
    /// The components, in order.
    fn from(v: Point3<S>) -> (r: [S; 3]) {
        [v.x, v.y, v.z]
    }
}

impl<S: Copy> vstd::std_specs::convert::FromSpecImpl<(S, S, S)> for Point3<S> {
    open spec fn obeys_from_spec() -> bool {
        true
    }

    open spec fn from_spec(v: (S, S, S)) -> Point3<S> {
        Point3 { x: v.0, y: v.1, z: v.2 }
    }
}

impl<S: Copy> From<(S, S, S)> for Point3<S> {
    /// The value whose components are the tuple's fields, in order.
    fn from(v: (S, S, S)) -> (r: Point3<S>) {
        Point3 { x: v.0, y: v.1, z: v.2 }
    }
}

impl<S: Copy> vstd::std_specs::convert::FromSpecImpl<Point3<S>> for (S, S, S) {
    open spec fn obeys_from_spec() -> bool {
        true
    }

    open spec fn from_spec(v: Point3<S>) -> (S, S, S) {
        (v.x, v.y, v.z)
    }
}

impl<S: Copy> From<Point3<S>> for (S, S, S) {
    /// The components, in order.
    fn from(v: Point3<S>) -> (r: (S, S, S)) {
        (v.x, v.y, v.z)
    }
}

/// Converting a value to an array, or to a tuple, and back gives the value
/// itself.
pub proof fn lemma_point3_round_trip<S: Copy>(v: Point3<S>)
    ensures
        <Point3<S> as vstd::std_specs::convert::FromSpec<[S; 3]>>::from_spec(
            <[S; 3] as vstd::std_specs::convert::FromSpec<Point3<S>>>::from_spec(v),
        ) == v,
        <Point3<S> as vstd::std_specs::convert::FromSpec<(S, S, S)>>::from_spec(
            <(S, S, S) as vstd::std_specs::convert::FromSpec<Point3<S>>>::from_spec(v),
        ) == v,
{
}

impl<S: Copy> FixedArray<[S; 3]> for Point3<S> {
    open spec fn into_fixed_spec(self) -> [S; 3] {
        [self.x, self.y, self.z]
    }

    open spec fn from_fixed_spec(v: [S; 3]) -> Point3<S> {
        Point3 { x: v[0], y: v[1], z: v[2] }
    }

    proof fn lemma_round_trip(self) {
    }

    fn into_fixed(self) -> (r: [S; 3]) {
        [self.x, self.y, self.z]
    }

    fn from_fixed(v: [S; 3]) -> (r: Point3<S>) {
        Point3 { x: v[0], y: v[1], z: v[2] }
    }
}

impl<S: Copy> FixedArray<(S, S, S)> for Point3<S> {
    open spec fn into_fixed_spec(self) -> (S, S, S) {
        (self.x, self.y, self.z)
    }

    open spec fn from_fixed_spec(v: (S, S, S)) -> Point3<S> {
        Point3 { x: v.0, y: v.1, z: v.2 }
    }

    proof fn lemma_round_trip(self) {
    }

    fn into_fixed(self) -> (r: (S, S, S)) {
        (self.x, self.y, self.z)
    }

    fn from_fixed(v: (S, S, S)) -> (r: Point3<S>) {
        Point3 { x: v.0, y: v.1, z: v.2 }
    }
}

impl<S: Copy> Array1<S> for Point3<S> {
    open spec fn elems(&self) -> Seq<S> {
        seq![self.x, self.y, self.z]
    }

    fn get(&self, i: usize) -> (r: &S) {
        match i {
            0 => &self.x,
            1 => &self.y,
            2 => &self.z,
            _ => vstd::pervasive::unreached(),
        }
    }

    fn get_mut(&mut self, i: usize) -> (r: &mut S) {
        match i {
            0 => &mut self.x,
            1 => &mut self.y,
            2 => &mut self.z,
            _ => vstd::pervasive::unreached(),
        }
    }

    fn map<F: Fn(S) -> S>(&mut self, op: F) -> (r: Point3<S>) {
        proof {
            assert(self.elems()[0] == self.x);
            assert(self.elems()[1] == self.y);
            assert(self.elems()[2] == self.z);
        }
        let x = op(self.x);
        let y = op(self.y);
        let z = op(self.z);
        self.x = x;
        self.y = y;
        self.z = z;
        *self
    }
}

impl<S> vstd::std_specs::core::IndexSpecImpl<usize> for Point3<S> {
    open spec fn index_req(&self, index: &usize) -> bool {
        *index < 3
    }
}

impl<S> core::ops::Index<usize> for Point3<S> {
    type Output = S;

    /// The component at position `i`, counted from zero. A position past
    /// the last component stops the program.
    fn index(&self, i: usize) -> (r: &S)
        ensures
            i == 0 ==> *r == self.x,
            i == 1 ==> *r == self.y,
            i == 2 ==> *r == self.z,
    {
        match i {
            0 => &self.x,
            1 => &self.y,
            2 => &self.z,
            _ => vstd::pervasive::unreached(),
        }
    }
}

/// A point and the vector from the origin to it hold the same numbers: the
/// conversion from one to the other and back gives the value itself.
pub proof fn lemma_point_vector_round_trip<S: BaseNum>(
    p2: Point2<S>,
    v2: Vector2<S>,
    p3: Point3<S>,
    v3: Vector3<S>,
)
    ensures
        Point2::from_vec_spec(p2.to_vec_spec()) == p2,
        Point2::from_vec_spec(v2).to_vec_spec() == v2,
        Point3::from_vec_spec(p3.to_vec_spec()) == p3,
        Point3::from_vec_spec(v3).to_vec_spec() == v3,
{
}

} // verus!
