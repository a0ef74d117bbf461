//! Rotations about the origin.
use vstd::prelude::*;
use crate::angle::Rad;
use crate::matrix::{Matrix2, Matrix3};
use crate::num::BaseFloat;
use crate::point::{Point, Point2, Point3};
use crate::quaternion::Quaternion;
use crate::vector::{Vector, Vector2, Vector3};

verus! {

/// A rotation of the space in which the points of type `P` lie.
pub trait Rotation<P: Point>: Sized where P::Scalar: BaseFloat {
    spec fn one_spec() -> Self;

    spec fn look_at_spec(dir: P::Vector, up: P::Vector) -> Self;

    spec fn between_vectors_spec(a: P::Vector, b: P::Vector) -> Self;

    spec fn rotate_vector_spec(&self, vec: P::Vector) -> P::Vector;

    spec fn concat_spec(&self, other: &Self) -> Self;

    spec fn invert_spec(&self) -> Self;

    /// The rotation that leaves everything in place.
    fn one() -> (r: Self)
        ensures
            r == Self::one_spec(),
    ;

    /// The rotation that turns the view towards `dir`, with `up` upwards.
    fn look_at(dir: P::Vector, up: P::Vector) -> (r: Self)
        ensures
            r == Self::look_at_spec(dir, up),
    ;

    /// The shortest rotation that takes the direction of `a` to that of `b`.
    fn between_vectors(a: P::Vector, b: P::Vector) -> (r: Self)
        ensures
            r == Self::between_vectors_spec(a, b),
    ;

    /// The vector, rotated.
    fn rotate_vector(&self, vec: P::Vector) -> (r: P::Vector)
        ensures
            r == self.rotate_vector_spec(vec),
    ;

    /// The point, rotated about the origin.
    fn rotate_point(&self, point: P) -> (r: P)
        ensures
            r == P::from_vec_spec(self.rotate_vector_spec(point.to_vec_spec())),
    {
        P::from_vec(self.rotate_vector(point.to_vec()))
    }

    /// The rotation that applies `other` first and `self` after it.
    fn concat(&self, other: &Self) -> (r: Self)
        ensures
            r == self.concat_spec(other),
    ;

    /// The rotation that undoes this one.
    fn invert(&self) -> (r: Self)
        ensures
            r == self.invert_spec(),
    ;

    /// [`Rotation::concat`], in place.
    fn concat_self(&mut self, other: &Self)
        ensures
            *final(self) == old(self).concat_spec(other),
    {
        *self = self.concat(other);
    }

    /// [`Rotation::invert`], in place.
    fn invert_self(&mut self)
        ensures
            *final(self) == old(self).invert_spec(),
    {
        *self = self.invert();
    }
}

/// A rotation of the plane.
pub trait Rotation2<S: BaseFloat>: Rotation<Point2<S>> {
    spec fn from_angle_spec(theta: Rad<S>) -> Self;

    spec fn to_matrix_spec(&self) -> Matrix2<S>;

    /// The 2 x 2 matrix of the rotation.
    fn to_matrix(&self) -> (r: Matrix2<S>)
        ensures
            r == self.to_matrix_spec(),
    ;

    /// The rotation by the angle `theta`.
    fn from_angle(theta: Rad<S>) -> (r: Self)
        ensures
            r == Self::from_angle_spec(theta),
    ;
}

/// A rotation of three-dimensional space.
pub trait Rotation3<S: BaseFloat>: Rotation<Point3<S>> {
    spec fn from_axis_angle_spec(axis: Vector3<S>, angle: Rad<S>) -> Self;

    spec fn from_euler_spec(x: Rad<S>, y: Rad<S>, z: Rad<S>) -> Self;

    spec fn to_matrix_spec(&self) -> Matrix3<S>;

    /// The 3 x 3 matrix of the rotation.
    fn to_matrix(&self) -> (r: Matrix3<S>)
        ensures
            r == self.to_matrix_spec(),
    ;

    /// The rotation by `angle` about `axis`.
    fn from_axis_angle(axis: Vector3<S>, angle: Rad<S>) -> (r: Self)
        ensures
            r == Self::from_axis_angle_spec(axis, angle),
    ;

    /// The rotation with the given Euler angles: `x` about the `x` axis
    /// (pitch), `y` about the `y` axis (yaw), `z` about the `z` axis (roll).
    fn from_euler(x: Rad<S>, y: Rad<S>, z: Rad<S>) -> (r: Self)
        ensures
            r == Self::from_euler_spec(x, y, z),
    ;

    /// The rotation by `theta` about the `x` axis.
    fn from_angle_x(theta: Rad<S>) -> (r: Self)
        ensures
            r == Self::from_axis_angle_spec(Vector3::<S>::unit_x_spec(), theta),
    {
        Self::from_axis_angle(Vector3::unit_x(), theta)
    }

    /// The rotation by `theta` about the `y` axis.
    fn from_angle_y(theta: Rad<S>) -> (r: Self)
        ensures
            r == Self::from_axis_angle_spec(Vector3::<S>::unit_y_spec(), theta),
    {
        Self::from_axis_angle(Vector3::unit_y(), theta)
    }

    /// The rotation by `theta` about the `z` axis.
    fn from_angle_z(theta: Rad<S>) -> (r: Self)
        ensures
            r == Self::from_axis_angle_spec(Vector3::<S>::unit_z_spec(), theta),
    {
        Self::from_axis_angle(Vector3::unit_z(), theta)
    }
}

/// A rotation of the plane, kept as its matrix. Nothing checks that the
/// matrix is a rotation: that is left to whoever builds it.
#[derive(PartialEq, Debug)]
pub struct Basis2<S> {
    pub mat: Matrix2<S>,
}

impl<S: Copy> Clone for Basis2<S> {
    fn clone(&self) -> (r: Basis2<S>)
        ensures
            r == *self,
    {
        *self
    }
}

impl<S: Copy> Copy for Basis2<S> {
}

impl<S: BaseFloat> Basis2<S> {
    /// The matrix of the rotation.
    pub fn as_matrix(&self) -> (r: &Matrix2<S>)
        ensures
            *r == self.mat,
    {
        &self.mat
    }
}

impl<S: BaseFloat> Rotation<Point2<S>> for Basis2<S> {
    open spec fn one_spec() -> Basis2<S> {
        Basis2 { mat: Matrix2::one_spec() }
    }

    open spec fn look_at_spec(dir: Vector2<S>, up: Vector2<S>) -> Basis2<S> {
        Basis2 { mat: Matrix2::look_at_spec(dir, up) }
    }

    /// The rotation by the arccosine of the dot product of `a` and `b`,
    /// which are taken to have length one.
    open spec fn between_vectors_spec(a: Vector2<S>, b: Vector2<S>) -> Basis2<S> {
        Basis2 { mat: Matrix2::from_angle_spec(Rad(a.dot_spec(b).acos_spec())) }
    }

    open spec fn rotate_vector_spec(&self, vec: Vector2<S>) -> Vector2<S> {
        self.mat.mul_v_spec(vec)
    }

    open spec fn concat_spec(&self, other: &Basis2<S>) -> Basis2<S> {
        Basis2 { mat: self.mat.mul_m_spec(other.mat) }
    }

    /// The transposed matrix, which is the inverse of a rotation matrix.
    open spec fn invert_spec(&self) -> Basis2<S> {
        Basis2 { mat: self.mat.transpose_spec() }
    }

    fn one() -> (r: Basis2<S>) {
        Basis2 { mat: Matrix2::one() }
    }

    fn look_at(dir: Vector2<S>, up: Vector2<S>) -> (r: Basis2<S>) {
        Basis2 { mat: Matrix2::look_at(dir, up) }
    }

    fn between_vectors(a: Vector2<S>, b: Vector2<S>) -> (r: Basis2<S>) {
        Basis2 { mat: Matrix2::from_angle(Rad(a.dot(b).acos())) }
    }

    fn rotate_vector(&self, vec: Vector2<S>) -> (r: Vector2<S>) {
        self.mat.mul_v(vec)
    }

    fn concat(&self, other: &Basis2<S>) -> (r: Basis2<S>) {
        Basis2 { mat: self.mat.mul_m(&other.mat) }
    }

    fn invert(&self) -> (r: Basis2<S>) {
        Basis2 { mat: self.mat.transpose() }
    }
}

impl<S: BaseFloat> Rotation2<S> for Basis2<S> {
    open spec fn from_angle_spec(theta: Rad<S>) -> Basis2<S> {
        Basis2 { mat: Matrix2::from_angle_spec(theta) }
    }

    open spec fn to_matrix_spec(&self) -> Matrix2<S> {
        self.mat
    }

    fn from_angle(theta: Rad<S>) -> (r: Basis2<S>) {
        Basis2 { mat: Matrix2::from_angle(theta) }
    }

    fn to_matrix(&self) -> (r: Matrix2<S>) {
        self.mat
    }
}

/// A rotation of three-dimensional space, kept as its matrix. Nothing checks
/// that the matrix is a rotation: that is left to whoever builds it.
#[derive(PartialEq, Debug)]
pub struct Basis3<S> {
    pub mat: Matrix3<S>,
}

impl<S: Copy> Clone for Basis3<S> {
    fn clone(&self) -> (r: Basis3<S>)
        ensures
            r == *self,
    {
        *self
    }
}

impl<S: Copy> Copy for Basis3<S> {
}

impl<S: BaseFloat> Basis3<S> {
    /// The rotation that the quaternion stands for.
    pub fn from_quaternion(quaternion: &Quaternion<S>) -> (r: Basis3<S>)
        ensures
            r == (Basis3 { mat: quaternion.to_matrix3_spec() }),
    {
        Basis3 { mat: quaternion.to_matrix3() }
    }

    /// The matrix of the rotation.
    pub fn as_matrix(&self) -> (r: &Matrix3<S>)
        ensures
            *r == self.mat,
    {
        &self.mat
    }
}

impl<S: BaseFloat> Rotation<Point3<S>> for Basis3<S> {
    open spec fn one_spec() -> Basis3<S> {
        Basis3 { mat: Matrix3::one_spec() }
    }

    open spec fn look_at_spec(dir: Vector3<S>, up: Vector3<S>) -> Basis3<S> {
        Basis3 { mat: Matrix3::look_at_spec(dir, up) }
    }

    /// The matrix of the quaternion between the two vectors.
    open spec fn between_vectors_spec(a: Vector3<S>, b: Vector3<S>) -> Basis3<S> {
        Basis3 { mat: Quaternion::between_vectors_q_spec(a, b).to_matrix3_spec() }
    }

    open spec fn rotate_vector_spec(&self, vec: Vector3<S>) -> Vector3<S> {
        self.mat.mul_v_spec(vec)
    }

    open spec fn concat_spec(&self, other: &Basis3<S>) -> Basis3<S> {
        Basis3 { mat: self.mat.mul_m_spec(other.mat) }
    }

    /// The transposed matrix, which is the inverse of a rotation matrix.
    open spec fn invert_spec(&self) -> Basis3<S> {
        Basis3 { mat: self.mat.transpose_spec() }
    }

    fn one() -> (r: Basis3<S>) {
        Basis3 { mat: Matrix3::one() }
    }

    fn look_at(dir: Vector3<S>, up: Vector3<S>) -> (r: Basis3<S>) {
        Basis3 { mat: Matrix3::look_at(dir, up) }
    }

    fn between_vectors(a: Vector3<S>, b: Vector3<S>) -> (r: Basis3<S>) {
        let q: Quaternion<S> = Rotation::between_vectors(a, b);
        Basis3::from_quaternion(&q)
    }

    fn rotate_vector(&self, vec: Vector3<S>) -> (r: Vector3<S>) {
        self.mat.mul_v(vec)
    }

    fn concat(&self, other: &Basis3<S>) -> (r: Basis3<S>) {
        Basis3 { mat: self.mat.mul_m(&other.mat) }
    }

    fn invert(&self) -> (r: Basis3<S>) {
        Basis3 { mat: self.mat.transpose() }
    }
}

impl<S: BaseFloat> Rotation3<S> for Basis3<S> {
    /// The matrix of the quaternion of the same rotation.
    open spec fn from_axis_angle_spec(axis: Vector3<S>, angle: Rad<S>) -> Basis3<S> {
        Basis3 { mat: Quaternion::from_axis_angle_q_spec(axis, angle).to_matrix3_spec() }
    }

    /// The matrix of the quaternion of the same rotation.
    open spec fn from_euler_spec(x: Rad<S>, y: Rad<S>, z: Rad<S>) -> Basis3<S> {
        Basis3 { mat: Quaternion::from_euler_q_spec(x, y, z).to_matrix3_spec() }
    }

    open spec fn to_matrix_spec(&self) -> Matrix3<S> {
        self.mat
    }

    fn from_axis_angle(axis: Vector3<S>, angle: Rad<S>) -> (r: Basis3<S>) {
        let q: Quaternion<S> = Rotation3::from_axis_angle(axis, angle);
        Basis3::from_quaternion(&q)
    }

    fn from_euler(x: Rad<S>, y: Rad<S>, z: Rad<S>) -> (r: Basis3<S>) {
        let q: Quaternion<S> = Rotation3::from_euler(x, y, z);
        Basis3::from_quaternion(&q)
    }

    fn to_matrix(&self) -> (r: Matrix3<S>) {
        self.mat
    }
}

impl<S: BaseFloat> vstd::std_specs::convert::FromSpecImpl<Quaternion<S>> for Basis3<S> {
    open spec fn obeys_from_spec() -> bool {
        true
    }

    open spec fn from_spec(quat: Quaternion<S>) -> Basis3<S> {
        Basis3 { mat: quat.to_matrix3_spec() }
    }
}

impl<S: BaseFloat> From<Quaternion<S>> for Basis3<S> {
    /// The rotation that the quaternion stands for, as a matrix.
    fn from(quat: Quaternion<S>) -> (r: Basis3<S>) {
        Basis3::from_quaternion(&quat)
    }
}

} // verus!
