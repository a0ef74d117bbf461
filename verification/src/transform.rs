//! Affine transforms: a scale, a rotation and a displacement, or a matrix.
use vstd::prelude::*;
use crate::approx::{ApproxEq, default_epsilon_spec};
use crate::matrix::{Matrix3, Matrix4};
use crate::num::{BaseFloat, BaseNum, recip, recip_spec};
use crate::point::{Point, Point2, Point3};
use crate::rotation::{Rotation, Rotation2, Rotation3};
use crate::vector::{Vector, Vector2, Vector3, Vector4};

verus! {

/// An affine transformation of the space in which the points of type `P` lie.
pub trait Transform<P: Point>: Sized {
    spec fn one_spec() -> Self;

    spec fn look_at_spec(eye: P, center: P, up: P::Vector) -> Self;

    spec fn transform_vector_spec(&self, vec: P::Vector) -> P::Vector;

    spec fn transform_point_spec(&self, point: P) -> P;

    spec fn concat_spec(&self, other: &Self) -> Self;

    /// The inverse, or nothing where the transform has none.
    spec fn invert_spec(&self) -> Option<Self>;

    /// The transform that leaves everything in place.
    fn one() -> (r: Self)
        ensures
            r == Self::one_spec(),
    ;

    /// The transform of an observer at `eye` who looks at `center`, with
    /// `up` upwards.
    fn look_at(eye: P, center: P, up: P::Vector) -> (r: Self)
        ensures
            r == Self::look_at_spec(eye, center, up),
    ;

    /// The vector, transformed. A vector has no position: the displacement
    /// of the transform does not touch it.
    fn transform_vector(&self, vec: P::Vector) -> (r: P::Vector)
        ensures
            r == self.transform_vector_spec(vec),
    ;

    /// The point, transformed.
    fn transform_point(&self, point: P) -> (r: P)
        ensures
            r == self.transform_point_spec(point),
    ;

    /// The vector, transformed as the point at its tip.
    fn transform_as_point(&self, vec: P::Vector) -> (r: P::Vector)
        ensures
            r == self.transform_point_spec(P::from_vec_spec(vec)).to_vec_spec(),
    {
        self.transform_point(P::from_vec(vec)).to_vec()
    }

    /// The transform that applies `other` first and `self` after it.
    fn concat(&self, other: &Self) -> (r: Self)
        ensures
            r == self.concat_spec(other),
    ;

    /// The transform that undoes this one, or nothing where there is none.
    fn invert(&self) -> (r: Option<Self>)
        ensures
            r == self.invert_spec(),
    ;

    /// [`Transform::concat`], in place.
    fn concat_self(&mut self, other: &Self)
        ensures
            *final(self) == old(self).concat_spec(other),
    {
        *self = Self::concat(self, other);
    }

    /// [`Transform::invert`], in place, for a transform that has an inverse.
    fn invert_self(&mut self)
        requires
            old(self).invert_spec().is_some(),
        ensures
            Some(*final(self)) == old(self).invert_spec(),
    {
        let inverse = self.invert();
        *self = inverse.unwrap()
    }
}

/// A transform made of a scale, a rotation and a displacement, applied in
/// this order: a point is scaled, then rotated, then displaced.
#[derive(Debug)]
pub struct Decomposed<V: Vector, R> {
    pub scale: V::Scalar,
    pub rot: R,
    pub disp: V,
}

impl<V: Vector, R: Copy> Clone for Decomposed<V, R> {
    fn clone(&self) -> (r: Decomposed<V, R>)
        ensures
            r == *self,
    {
        *self
    }
}

impl<V: Vector, R: Copy> Copy for Decomposed<V, R> {
}

/// Whether `scale` is zero within the default tolerance, which leaves a
/// [`Decomposed`] transform without an inverse.
pub open spec fn scale_is_zero_spec<S: BaseFloat>(scale: S) -> bool {
    scale.approx_eq_eps_spec(&S::zero_spec(), &default_epsilon_spec::<S>())
}

impl<P: Point, R: Rotation<P>> Transform<P> for Decomposed<P::Vector, R> where P::Scalar: BaseFloat {
    open spec fn one_spec() -> Decomposed<P::Vector, R> {
        Decomposed {
            scale: P::Scalar::one_spec(),
            rot: R::one_spec(),
            disp: P::Vector::from_value_spec(P::Scalar::zero_spec()),
        }
    }

    /// The rotation looks from `eye` towards `center`; the displacement is
    /// the rotated vector from `eye` to the origin; the scale is one.
    open spec fn look_at_spec(eye: P, center: P, up: P::Vector) -> Decomposed<P::Vector, R> {
        let rot = R::look_at_spec(center.sub_p_spec(eye), up);
        Decomposed {
            scale: P::Scalar::one_spec(),
            rot: rot,
            disp: rot.rotate_vector_spec(P::origin_spec().sub_p_spec(eye)),
        }
    }

    open spec fn transform_vector_spec(&self, vec: P::Vector) -> P::Vector {
        self.rot.rotate_vector_spec(vec.mul_s_spec(self.scale))
    }

    open spec fn transform_point_spec(&self, point: P) -> P {
        P::from_vec_spec(
            self.rot.rotate_vector_spec(point.mul_s_spec(self.scale).to_vec_spec()),
        ).add_v_spec(self.disp)
    }

    /// The scales multiply, the rotations compose, and the displacement is
    /// that of `other`, transformed as a point by `self`.
    open spec fn concat_spec(&self, other: &Decomposed<P::Vector, R>) -> Decomposed<P::Vector, R> {
        Decomposed {
            scale: self.scale.mul_spec(other.scale),
            rot: self.rot.concat_spec(&other.rot),
            disp: self.transform_point_spec(P::from_vec_spec(other.disp)).to_vec_spec(),
        }
    }

    /// With a scale that is zero within the default tolerance there is no
    /// inverse. Elsewhere the scale is inverted, the rotation is inverted,
    /// and the displacement is rotated back and scaled by minus the new scale.
    open spec fn invert_spec(&self) -> Option<Decomposed<P::Vector, R>> {
        if scale_is_zero_spec(self.scale) {
            None
        } else {
            let s = recip_spec(self.scale);
            let r = self.rot.invert_spec();
            Some(
                Decomposed {
                    scale: s,
                    rot: r,
                    disp: r.rotate_vector_spec(self.disp).mul_s_spec(s.neg_spec()),
                },
            )
        }
    }

    fn one() -> (r: Decomposed<P::Vector, R>) {
        Decomposed { scale: P::Scalar::one(), rot: R::one(), disp: P::Vector::zero() }
    }

    fn look_at(eye: P, center: P, up: P::Vector) -> (r: Decomposed<P::Vector, R>) {
        let rot = R::look_at(center.sub_p(eye), up);
        let disp = rot.rotate_vector(P::origin().sub_p(eye));
        Decomposed { scale: P::Scalar::one(), rot: rot, disp: disp }
    }

    fn transform_vector(&self, vec: P::Vector) -> (r: P::Vector) {
        self.rot.rotate_vector(vec.mul_s(self.scale))
    }

    fn transform_point(&self, point: P) -> (r: P) {
        self.rot.rotate_point(point.mul_s(self.scale)).add_v(self.disp)
    }

    fn concat(&self, other: &Decomposed<P::Vector, R>) -> (r: Decomposed<P::Vector, R>) {
        Decomposed {
            scale: self.scale.mul(other.scale),
            rot: self.rot.concat(&other.rot),
            disp: self.transform_as_point(other.disp),
        }
    }

    fn invert(&self) -> (r: Option<Decomposed<P::Vector, R>>) {
        let zero = P::Scalar::zero();
        if self.scale.approx_eq(&zero) {
            None
        } else {
            let s = recip(self.scale);
            let r = self.rot.invert();
            let d = r.rotate_vector(self.disp).mul_s(s.neg());
            Some(Decomposed { scale: s, rot: r, disp: d })
        }
    }
}

/// A decomposed transform has an inverse exactly when its scale is not zero
/// within the default tolerance. The inverse then has the reciprocal scale
/// and the inverse rotation.
pub proof fn lemma_decomposed_invert<P: Point, R: Rotation<P>>(t: Decomposed<P::Vector, R>) where
    P::Scalar: BaseFloat,

    ensures
        <Decomposed<P::Vector, R> as Transform<P>>::invert_spec(&t).is_none()
            <==> scale_is_zero_spec(t.scale),
        !scale_is_zero_spec(t.scale) ==> {
            let inverse = <Decomposed<P::Vector, R> as Transform<P>>::invert_spec(&t).unwrap();
            &&& inverse.scale == recip_spec(t.scale)
            &&& inverse.rot == t.rot.invert_spec()
        },
{
}

/// A transform kept as a matrix has an inverse exactly when the matrix is
/// not singular.
pub proof fn lemma_affine_invert<S: BaseFloat>(t: AffineMatrix3<S>)
    ensures
        t.invert_spec().is_none() <==> t.mat.is_singular_spec(),
{
}

/// A transform of the plane that can be written as a 3 x 3 matrix.
pub trait Transform2<S: BaseNum>: Transform<Point2<S>> + Into<Matrix3<S>> {
}

/// A transform of three-dimensional space that can be written as a 4 x 4 matrix.
pub trait Transform3<S: BaseNum>: Transform<Point3<S>> + Into<Matrix4<S>> {
}

impl<S: BaseFloat, R: Rotation2<S>> Decomposed<Vector2<S>, R> {
    /// The homogeneous matrix of the transform: the matrix of the rotation
    /// times the scale in the upper left, and the displacement, with a one
    /// below it, as the last column.
    pub open spec fn to_matrix3_spec(&self) -> Matrix3<S> {
        let m = self.rot.to_matrix_spec().mul_s_spec(self.scale);
        Matrix3 {
            x: Vector3 { x: m.x.x, y: m.x.y, z: S::zero_spec() },
            y: Vector3 { x: m.y.x, y: m.y.y, z: S::zero_spec() },
            z: Vector3 { x: self.disp.x, y: self.disp.y, z: S::one_spec() },
        }
    }

    /// The homogeneous matrix of the transform.
    pub fn to_matrix3(&self) -> (r: Matrix3<S>)
        ensures
            r == self.to_matrix3_spec(),
    {
        let m = self.rot.to_matrix().mul_s(self.scale);
        Matrix3::from_cols(
            m.x.extend(S::zero()),
            m.y.extend(S::zero()),
            self.disp.extend(S::one()),
        )
    }
}

impl<S: BaseFloat, R: Rotation3<S>> Decomposed<Vector3<S>, R> {
    /// The homogeneous matrix of the transform: the matrix of the rotation
    /// times the scale in the upper left, and the displacement, with a one
    /// below it, as the last column.
    pub open spec fn to_matrix4_spec(&self) -> Matrix4<S> {
        let m = self.rot.to_matrix_spec().mul_s_spec(self.scale);
        Matrix4 {
            x: Vector4 { x: m.x.x, y: m.x.y, z: m.x.z, w: S::zero_spec() },
            y: Vector4 { x: m.y.x, y: m.y.y, z: m.y.z, w: S::zero_spec() },
            z: Vector4 { x: m.z.x, y: m.z.y, z: m.z.z, w: S::zero_spec() },
            w: Vector4 { x: self.disp.x, y: self.disp.y, z: self.disp.z, w: S::one_spec() },
        }
    }

    /// The homogeneous matrix of the transform.
    pub fn to_matrix4(&self) -> (r: Matrix4<S>)
        ensures
            r == self.to_matrix4_spec(),
    {
        let m = self.rot.to_matrix().mul_s(self.scale);
        Matrix4::from_cols(
            m.x.extend(S::zero()),
            m.y.extend(S::zero()),
            m.z.extend(S::zero()),
            self.disp.extend(S::one()),
        )
    }
}

impl<S: BaseFloat, R: Rotation2<S>> vstd::std_specs::convert::FromSpecImpl<Decomposed<Vector2<S>, R>> for Matrix3<S> {
    open spec fn obeys_from_spec() -> bool {
        true
    }

    open spec fn from_spec(dec: Decomposed<Vector2<S>, R>) -> Matrix3<S> {
        dec.to_matrix3_spec()
    }
}

impl<S: BaseFloat, R: Rotation2<S>> From<Decomposed<Vector2<S>, R>> for Matrix3<S> {
    /// The homogeneous matrix of the transform.
    fn from(dec: Decomposed<Vector2<S>, R>) -> (r: Matrix3<S>) {
        dec.to_matrix3()
    }
}

impl<S: BaseFloat, R: Rotation3<S>> vstd::std_specs::convert::FromSpecImpl<Decomposed<Vector3<S>, R>> for Matrix4<S> {
    open spec fn obeys_from_spec() -> bool {
        true
    }

    open spec fn from_spec(dec: Decomposed<Vector3<S>, R>) -> Matrix4<S> {
        dec.to_matrix4_spec()
    }
}

impl<S: BaseFloat, R: Rotation3<S>> From<Decomposed<Vector3<S>, R>> for Matrix4<S> {
    /// The homogeneous matrix of the transform.
    fn from(dec: Decomposed<Vector3<S>, R>) -> (r: Matrix4<S>) {
        dec.to_matrix4()
    }
}

impl<S: BaseFloat, R: Rotation2<S>> Transform2<S> for Decomposed<Vector2<S>, R> {
}

impl<S: BaseFloat, R: Rotation3<S>> Transform3<S> for Decomposed<Vector3<S>, R> {
}

/// A transform of three-dimensional space, kept as a homogeneous matrix.
/// Nothing checks that the matrix is affine, with a last row of
/// `(0, 0, 0, 1)`: that is left to whoever builds it.
#[derive(PartialEq, Debug)]
pub struct AffineMatrix3<S> {
    pub mat: Matrix4<S>,
}

impl<S: Copy> Clone for AffineMatrix3<S> {
    fn clone(&self) -> (r: AffineMatrix3<S>)
        ensures
            r == *self,
    {
        *self
    }
}

impl<S: Copy> Copy for AffineMatrix3<S> {
}

impl<S: BaseFloat> Transform<Point3<S>> for AffineMatrix3<S> {
    open spec fn one_spec() -> AffineMatrix3<S> {
        AffineMatrix3 { mat: Matrix4::one_spec() }
    }

    open spec fn look_at_spec(eye: Point3<S>, center: Point3<S>, up: Vector3<S>) -> AffineMatrix3<
        S,
    > {
        AffineMatrix3 { mat: Matrix4::look_at_spec(eye, center, up) }
    }

    /// The matrix times the vector with a zero for `w`, and `w` dropped again.
    open spec fn transform_vector_spec(&self, vec: Vector3<S>) -> Vector3<S> {
        let v = self.mat.mul_v_spec(Vector4 { x: vec.x, y: vec.y, z: vec.z, w: S::zero_spec() });
        Vector3 { x: v.x, y: v.y, z: v.z }
    }

    /// The matrix times the homogeneous vector of the point, and the
    /// perspective divide of the product.
    open spec fn transform_point_spec(&self, point: Point3<S>) -> Point3<S> {
        Point3::from_homogeneous_spec(
            self.mat.mul_v_spec(
                Vector4 { x: point.x, y: point.y, z: point.z, w: S::one_spec() },
            ),
        )
    }

    open spec fn concat_spec(&self, other: &AffineMatrix3<S>) -> AffineMatrix3<S> {
        AffineMatrix3 { mat: self.mat.mul_m_spec(other.mat) }
    }

    /// The transform of the inverse matrix, or nothing for a singular matrix.
    open spec fn invert_spec(&self) -> Option<AffineMatrix3<S>> {
        match self.mat.invert_spec() {
            Some(m) => Some(AffineMatrix3 { mat: m }),
            None => None,
        }
    }

    fn one() -> (r: AffineMatrix3<S>) {
        AffineMatrix3 { mat: Matrix4::one() }
    }

    fn look_at(eye: Point3<S>, center: Point3<S>, up: Vector3<S>) -> (r: AffineMatrix3<S>) {
        AffineMatrix3 { mat: Matrix4::look_at(eye, center, up) }
    }

    fn transform_vector(&self, vec: Vector3<S>) -> (r: Vector3<S>) {
        self.mat.mul_v(vec.extend(S::zero())).truncate()
    }

    fn transform_point(&self, point: Point3<S>) -> (r: Point3<S>) {
        let v = self.mat.mul_v(point.to_homogeneous());
        proof {
            S::lemma_div_defined(v.x, v.w);
            S::lemma_div_defined(v.y, v.w);
            S::lemma_div_defined(v.z, v.w);
        }
        Point3::from_homogeneous(v)
    }

    fn concat(&self, other: &AffineMatrix3<S>) -> (r: AffineMatrix3<S>) {
        AffineMatrix3 { mat: self.mat.mul_m(&other.mat) }
    }

    fn invert(&self) -> (r: Option<AffineMatrix3<S>>) {
        match self.mat.invert() {
            Some(m) => Some(AffineMatrix3 { mat: m }),
            None => None,
        }
    }
}

impl<S: BaseFloat> vstd::std_specs::convert::FromSpecImpl<AffineMatrix3<S>> for Matrix4<S> {
    open spec fn obeys_from_spec() -> bool {
        true
    }

    open spec fn from_spec(aff: AffineMatrix3<S>) -> Matrix4<S> {
        aff.mat
    }
}

impl<S: BaseFloat> From<AffineMatrix3<S>> for Matrix4<S> {
    /// The matrix of the transform.
    fn from(aff: AffineMatrix3<S>) -> (r: Matrix4<S>) {
        aff.mat
    }
}

impl<S: BaseFloat> Transform3<S> for AffineMatrix3<S> {
}

/// The parts of a transform, for inspection.
pub trait ToComponents<P: Point, R: Rotation<P>> where P::Scalar: BaseFloat {
    spec fn decompose_spec(&self) -> (P::Vector, R, P::Vector);

    /// The scale along each axis, the rotation and the displacement.
    fn decompose(&self) -> (r: (P::Vector, R, P::Vector))
        ensures
            r == self.decompose_spec(),
    ;
}

/// [`ToComponents`] in the plane.
pub trait ToComponents2<S: BaseFloat, R: Rotation2<S>>: ToComponents<Point2<S>, R> {
}

/// [`ToComponents`] in three-dimensional space.
pub trait ToComponents3<S: BaseFloat, R: Rotation3<S>>: ToComponents<Point3<S>, R> {
}

/// A transform that can be applied and taken apart.
pub trait CompositeTransform<P: Point, R: Rotation<P>>: Transform<P> + ToComponents<
    P,
    R,
> where P::Scalar: BaseFloat {
}

/// [`CompositeTransform`] in the plane.
pub trait CompositeTransform2<S: BaseFloat, R: Rotation2<S>>: Transform2<S> + ToComponents2<
    S,
    R,
> {
}

/// [`CompositeTransform`] in three-dimensional space.
pub trait CompositeTransform3<S: BaseFloat, R: Rotation3<S>>: Transform3<S> + ToComponents3<
    S,
    R,
> {
}

impl<P: Point, R: Rotation<P> + Copy> ToComponents<P, R> for Decomposed<P::Vector, R> where
    P::Scalar: BaseFloat,
 {
    /// The scale is the same along every axis.
    open spec fn decompose_spec(&self) -> (P::Vector, R, P::Vector) {
        (
            P::Vector::from_value_spec(P::Scalar::one_spec()).mul_s_spec(self.scale),
            self.rot,
            self.disp,
        )
    }

    fn decompose(&self) -> (r: (P::Vector, R, P::Vector)) {
        (P::Vector::one().mul_s(self.scale), self.rot, self.disp)
    }
}

impl<S: BaseFloat, R: Rotation2<S> + Copy> ToComponents2<S, R> for Decomposed<Vector2<S>, R> {
}

impl<S: BaseFloat, R: Rotation3<S> + Copy> ToComponents3<S, R> for Decomposed<Vector3<S>, R> {
}

impl<S: BaseFloat, R: Rotation2<S> + Copy> CompositeTransform2<S, R> for Decomposed<Vector2<S>, R> {
}

impl<S: BaseFloat, R: Rotation3<S> + Copy> CompositeTransform3<S, R> for Decomposed<Vector3<S>, R> {
}

} // verus!
