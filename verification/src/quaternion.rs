//! Quaternions: a scalar part and a three-dimensional vector part.
//!
//! A quaternion of magnitude one stands for a rotation of three-dimensional
//! space. Nothing here enforces that magnitude: the operations that read a
//! quaternion as a rotation expect the caller to have normalised it.
use vstd::prelude::*;
use crate::angle::{Angle, Rad};
use crate::approx::ApproxEq;
use crate::array::{Array1, FixedArray};
use crate::matrix::{Matrix3, Matrix4};
use crate::num::{BaseFloat, ge, ge_spec, gt, gt_spec, quot, ratio, ratio_spec, recip, recip_spec};
use crate::point::Point3;
use crate::rotation::{Rotation, Rotation3};
use crate::vector::{EuclideanVector, Vector, Vector3, Vector4, length2_spec};

verus! {

/// A quaternion in scalar/vector form.
#[derive(PartialEq, Debug)]
pub struct Quaternion<S> {
    /// The scalar part.
    pub s: S,
    /// The vector part.
    pub v: Vector3<S>,
}

impl<S: Copy> Clone for Quaternion<S> {
    fn clone(&self) -> (r: Quaternion<S>)
        ensures
            r == *self,
    {
        *self
    }
}

impl<S: Copy> Copy for Quaternion<S> {
}

/// The dot product above which [`Quaternion::slerp`] takes two quaternions
/// for nearly parallel: 9995 parts in 10000.
pub open spec fn slerp_threshold_spec<S: BaseFloat>() -> S {
    ratio_spec::<S>(9995, 10000)
}

/// The share of the squared magnitude from which on [`Quaternion::to_euler`]
/// takes the pitch for a right angle: 499 parts in 1000.
pub open spec fn euler_threshold_spec<S: BaseFloat>() -> S {
    ratio_spec::<S>(499, 1000)
}

/// A quarter turn, in radians.
pub open spec fn quarter_turn_spec<S: BaseFloat>() -> Rad<S> {
    Rad::<S>::full_turn_spec().div_s_spec(S::from_i64_spec(4))
}

/// `dot`, brought into the domain of the arccosine: no more than one and no
/// less than minus one.
pub open spec fn clamp_unit_spec<S: BaseFloat>(dot: S) -> S {
    if gt_spec(dot, S::one_spec()) {
        S::one_spec()
    } else if dot.lt_spec(S::one_spec().neg_spec()) {
        S::one_spec().neg_spec()
    } else {
        dot
    }
}

/// `dot`, brought into the domain of the arccosine.
pub fn clamp_unit<S: BaseFloat>(dot: S) -> (r: S)
    ensures
        r == clamp_unit_spec(dot),
{
    if gt(dot, S::one()) {
        S::one()
    } else if dot.lt(S::one().neg()) {
        S::one().neg()
    } else {
        dot
    }
}

impl<S: BaseFloat> Quaternion<S> {
    /// `self.s * other.s + self.v . other.v`.
    pub open spec fn dot_spec(self, other: Quaternion<S>) -> S {
        self.s.mul_spec(other.s).add_spec(self.v.dot_spec(other.v))
    }

    /// The quaternion with the vector part negated.
    pub open spec fn conjugate_spec(self) -> Quaternion<S> {
        Quaternion { s: self.s, v: self.v.neg_v_spec() }
    }

    /// `s * s + v . v`.
    pub open spec fn magnitude2_spec(self) -> S {
        self.s.mul_spec(self.s).add_spec(length2_spec(self.v))
    }

    /// The square root of [`Quaternion::magnitude2_spec`].
    pub open spec fn magnitude_spec(self) -> S {
        self.magnitude2_spec().sqrt_spec()
    }

    /// The quaternion with both parts negated.
    pub open spec fn neg_q_spec(self) -> Quaternion<S> {
        Quaternion { s: self.s.neg_spec(), v: self.v.neg_v_spec() }
    }

    /// Both parts times `scalar`.
    pub open spec fn mul_s_spec(self, scalar: S) -> Quaternion<S> {
        Quaternion { s: self.s.mul_spec(scalar), v: self.v.mul_s_spec(scalar) }
    }

    /// Both parts divided by `scalar`.
    pub open spec fn div_s_spec(self, scalar: S) -> Quaternion<S> {
        Quaternion { s: self.s.div_spec(scalar), v: self.v.div_s_spec(scalar) }
    }

    /// The sum, part by part.
    pub open spec fn add_q_spec(self, other: Quaternion<S>) -> Quaternion<S> {
        Quaternion { s: self.s.add_spec(other.s), v: self.v.add_v_spec(other.v) }
    }

    /// The difference, part by part.
    pub open spec fn sub_q_spec(self, other: Quaternion<S>) -> Quaternion<S> {
        Quaternion { s: self.s.sub_spec(other.s), v: self.v.sub_v_spec(other.v) }
    }

    /// The Hamilton product `self * other`. Each component is a sum of four
    /// products, taken from left to right.
    pub open spec fn mul_q_spec(self, other: Quaternion<S>) -> Quaternion<S> {
        Quaternion {
            s: self.s.mul_spec(other.s).sub_spec(self.v.x.mul_spec(other.v.x)).sub_spec(
                self.v.y.mul_spec(other.v.y),
            ).sub_spec(self.v.z.mul_spec(other.v.z)),
            v: Vector3 {
                x: self.s.mul_spec(other.v.x).add_spec(self.v.x.mul_spec(other.s)).add_spec(
                    self.v.y.mul_spec(other.v.z),
                ).sub_spec(self.v.z.mul_spec(other.v.y)),
                y: self.s.mul_spec(other.v.y).add_spec(self.v.y.mul_spec(other.s)).add_spec(
                    self.v.z.mul_spec(other.v.x),
                ).sub_spec(self.v.x.mul_spec(other.v.z)),
                z: self.s.mul_spec(other.v.z).add_spec(self.v.z.mul_spec(other.s)).add_spec(
                    self.v.x.mul_spec(other.v.y),
                ).sub_spec(self.v.y.mul_spec(other.v.x)),
            },
        }
    }

    /// The vector `vec` turned by the rotation that the quaternion stands
    /// for: `vec + 2 * (v x (v x vec + s * vec))`, computed as
    /// `(v x (v x vec + vec * s)) * 2 + vec`.
    pub open spec fn mul_v_spec(self, vec: Vector3<S>) -> Vector3<S> {
        let tmp = self.v.cross_spec(vec).add_v_spec(vec.mul_s_spec(self.s));
        self.v.cross_spec(tmp).mul_s_spec(S::from_i64_spec(2)).add_v_spec(vec)
    }

    /// The quaternion times the reciprocal of its magnitude.
    pub open spec fn normalize_spec(self) -> Quaternion<S> {
        self.mul_s_spec(recip_spec(self.magnitude_spec()))
    }

    /// The normalised blend `self * (1 - amount) + other * amount`.
    pub open spec fn nlerp_spec(self, other: Quaternion<S>, amount: S) -> Quaternion<S> {
        self.mul_s_spec(S::one_spec().sub_spec(amount)).add_q_spec(
            other.mul_s_spec(amount),
        ).normalize_spec()
    }

    /// The conjugate divided by the squared magnitude.
    pub open spec fn invert_q_spec(self) -> Quaternion<S> {
        self.conjugate_spec().div_s_spec(self.magnitude2_spec())
    }

    /// The spherical blend of two quaternions that are not nearly parallel.
    /// With `theta` the arccosine of their clamped dot product, the weight of
    /// `self` is `sin(theta * (1 - amount)) / sin(theta)`, the weight of
    /// `other` is `sin(theta * amount) / sin(theta)`, and the blend is
    /// `self * weight1 + other * weight2`.
    pub open spec fn slerp_arc_spec(self, other: Quaternion<S>, amount: S) -> Quaternion<S> {
        let theta = clamp_unit_spec(self.dot_spec(other)).acos_spec();
        let weight1 = theta.mul_spec(S::one_spec().sub_spec(amount)).sin_spec().div_spec(
            theta.sin_spec(),
        );
        let weight2 = theta.mul_spec(amount).sin_spec().div_spec(theta.sin_spec());
        self.mul_s_spec(weight1).add_q_spec(other.mul_s_spec(weight2))
    }

    /// Spherical linear interpolation. Where the dot product of the two
    /// quaternions exceeds the threshold, it is the normalised linear blend;
    /// elsewhere it is the blend along the arc.
    pub open spec fn slerp_spec(self, other: Quaternion<S>, amount: S) -> Quaternion<S> {
        if gt_spec(self.dot_spec(other), slerp_threshold_spec::<S>()) {
            self.nlerp_spec(other, amount)
        } else {
            self.slerp_arc_spec(other, amount)
        }
    }

    /// `x * y + z * s`: the quantity whose size, against the squared
    /// magnitude, tells whether the pitch is a right angle.
    pub open spec fn euler_test_spec(self) -> S {
        self.v.x.mul_spec(self.v.y).add_spec(self.v.z.mul_spec(self.s))
    }

    /// `x * x + y * y + z * z + s * s`, added in this order.
    pub open spec fn euler_unit_spec(self) -> S {
        self.v.x.mul_spec(self.v.x).add_spec(self.v.y.mul_spec(self.v.y)).add_spec(
            self.v.z.mul_spec(self.v.z),
        ).add_spec(self.s.mul_spec(self.s))
    }

    /// Whether the pitch is taken for a quarter turn upwards: the test
    /// quantity has reached the threshold's share of the squared magnitude.
    pub open spec fn euler_north_spec(self) -> bool {
        ge_spec(self.euler_test_spec(), euler_threshold_spec::<S>().mul_spec(self.euler_unit_spec()))
    }

    /// Whether the pitch is taken for a quarter turn downwards: the test
    /// quantity has reached minus the threshold's share of the squared
    /// magnitude, and the pitch is not taken for a quarter turn upwards.
    pub open spec fn euler_south_spec(self) -> bool {
        !self.euler_north_spec() && self.euler_test_spec().le_spec(
            euler_threshold_spec::<S>().neg_spec().mul_spec(self.euler_unit_spec()),
        )
    }

    /// The yaw at either pole: twice the arctangent of `x` over `s`.
    pub open spec fn euler_polar_yaw_spec(self) -> Rad<S> {
        Rad(self.v.x.atan2_spec(self.s).mul_spec(S::from_i64_spec(2)))
    }

    /// The three angles away from the poles, by the closed formulas.
    pub open spec fn euler_general_spec(self) -> (Rad<S>, Rad<S>, Rad<S>) {
        let two = S::from_i64_spec(2);
        let one = S::one_spec();
        let (qw, qx, qy, qz) = (self.s, self.v.x, self.v.y, self.v.z);
        let (sqx, sqy, sqz) = (qx.mul_spec(qx), qy.mul_spec(qy), qz.mul_spec(qz));
        (
            Rad(two.mul_spec(qx.mul_spec(qy).add_spec(qz.mul_spec(qw))).asin_spec()),
            Rad(
                two.mul_spec(qy.mul_spec(qw).sub_spec(qx.mul_spec(qz))).atan2_spec(
                    one.sub_spec(two.mul_spec(sqy.add_spec(sqz))),
                ),
            ),
            Rad(
                two.mul_spec(qx.mul_spec(qw).sub_spec(qy.mul_spec(qz))).atan2_spec(
                    one.sub_spec(two.mul_spec(sqx.add_spec(sqz))),
                ),
            ),
        )
    }

    /// The Euler angles of the quaternion, as (pitch about `x`, yaw about
    /// `y`, roll about `z`).
    pub open spec fn to_euler_spec(self) -> (Rad<S>, Rad<S>, Rad<S>) {
        if self.euler_north_spec() {
            (quarter_turn_spec::<S>(), self.euler_polar_yaw_spec(), Rad(S::zero_spec()))
        } else if self.euler_south_spec() {
            (
                Rad(quarter_turn_spec::<S>().0.neg_spec()),
                self.euler_polar_yaw_spec(),
                Rad(S::zero_spec()),
            )
        } else {
            self.euler_general_spec()
        }
    }

    /// The 3 x 3 rotation matrix of the quaternion, by the doubled products.
    pub open spec fn to_matrix3_spec(self) -> Matrix3<S> {
        let x2 = self.v.x.add_spec(self.v.x);
        let y2 = self.v.y.add_spec(self.v.y);
        let z2 = self.v.z.add_spec(self.v.z);
        let xx2 = x2.mul_spec(self.v.x);
        let xy2 = x2.mul_spec(self.v.y);
        let xz2 = x2.mul_spec(self.v.z);
        let yy2 = y2.mul_spec(self.v.y);
        let yz2 = y2.mul_spec(self.v.z);
        let zz2 = z2.mul_spec(self.v.z);
        let sy2 = y2.mul_spec(self.s);
        let sz2 = z2.mul_spec(self.s);
        let sx2 = x2.mul_spec(self.s);
        let one = S::one_spec();
        Matrix3 {
            x: Vector3 {
                x: one.sub_spec(yy2).sub_spec(zz2),
                y: xy2.add_spec(sz2),
                z: xz2.sub_spec(sy2),
            },
            y: Vector3 {
                x: xy2.sub_spec(sz2),
                y: one.sub_spec(xx2).sub_spec(zz2),
                z: yz2.add_spec(sx2),
            },
            z: Vector3 {
                x: xz2.add_spec(sy2),
                y: yz2.sub_spec(sx2),
                z: one.sub_spec(xx2).sub_spec(yy2),
            },
        }
    }

    /// The 4 x 4 matrix of the quaternion: the 3 x 3 rotation matrix, no
    /// translation, and the homogeneous row and column `(0, 0, 0, 1)`.
    pub open spec fn to_matrix4_spec(self) -> Matrix4<S> {
        let m = self.to_matrix3_spec();
        let zero = S::zero_spec();
        Matrix4 {
            x: Vector4 { x: m.x.x, y: m.x.y, z: m.x.z, w: zero },
            y: Vector4 { x: m.y.x, y: m.y.y, z: m.y.z, w: zero },
            z: Vector4 { x: m.z.x, y: m.z.y, z: m.z.z, w: zero },
            w: Vector4 { x: zero, y: zero, z: zero, w: S::one_spec() },
        }
    }

    /// The quaternion `w + xi i + yj j + zk k`.
    pub fn new(w: S, xi: S, yj: S, zk: S) -> (r: Quaternion<S>)
        ensures
            r == (Quaternion { s: w, v: Vector3 { x: xi, y: yj, z: zk } }),
    {
        Quaternion::from_sv(w, Vector3::new(xi, yj, zk))
    }

    /// The quaternion with the scalar part `s` and the vector part `v`.
    pub fn from_sv(s: S, v: Vector3<S>) -> (r: Quaternion<S>)
        ensures
            r == (Quaternion { s: s, v: v }),
    {
        Quaternion { s: s, v: v }
    }

    /// The additive identity `0 + 0i + 0j + 0k`.
    pub fn zero() -> (r: Quaternion<S>)
        ensures
            r == (Quaternion {
                s: S::zero_spec(),
                v: Vector3 { x: S::zero_spec(), y: S::zero_spec(), z: S::zero_spec() },
            }),
    {
        Quaternion::new(S::zero(), S::zero(), S::zero(), S::zero())
    }

    /// The multiplicative identity `1 + 0i + 0j + 0k`.
    pub fn one() -> (r: Quaternion<S>)
        ensures
            r == (Quaternion {
                s: S::one_spec(),
                v: Vector3 { x: S::zero_spec(), y: S::zero_spec(), z: S::zero_spec() },
            }),
    {
        Quaternion::from_sv(S::one(), Vector3::zero())
    }

    /// The dot product of the quaternion and `other`.
    pub fn dot(self, other: Quaternion<S>) -> (r: S)
        ensures
            r == self.dot_spec(other),
    {
        self.s.mul(other.s).add(self.v.dot(other.v))
    }

    /// The conjugate of the quaternion.
    pub fn conjugate(self) -> (r: Quaternion<S>)
        ensures
            r == self.conjugate_spec(),
    {
        let mut v = self.v;
        v.neg_self();
        Quaternion::from_sv(self.s, v)
    }

    /// The squared magnitude. It needs no square root, which makes it the
    /// cheaper way to compare two magnitudes.
    pub fn magnitude2(self) -> (r: S)
        ensures
            r == self.magnitude2_spec(),
    {
        self.s.mul(self.s).add(self.v.length2())
    }

    /// The magnitude.
    pub fn magnitude(self) -> (r: S)
        ensures
            r == self.magnitude_spec(),
    {
        self.magnitude2().sqrt()
    }

    /// The quaternion of the same direction and of magnitude one.
    pub fn normalize(self) -> (r: Quaternion<S>)
        ensures
            r == self.normalize_spec(),
    {
        self.mul_s(recip(self.magnitude()))
    }

    /// The normalised linear interpolation with `other`, by `amount`.
    pub fn nlerp(self, other: Quaternion<S>, amount: S) -> (r: Quaternion<S>)
        ensures
            r == self.nlerp_spec(other, amount),
    {
        self.mul_s(S::one().sub(amount)).add_q(other.mul_s(amount)).normalize()
    }

    /// The quaternion with both parts negated.
    pub fn neg_q(self) -> (r: Quaternion<S>)
        ensures
            r == self.neg_q_spec(),
    {
        let mut v = self.v;
        v.neg_self();
        Quaternion::from_sv(self.s.neg(), v)
    }

    /// The quaternion times a scalar.
    pub fn mul_s(self, scalar: S) -> (r: Quaternion<S>)
        ensures
            r == self.mul_s_spec(scalar),
    {
        Quaternion::from_sv(self.s.mul(scalar), self.v.mul_s(scalar))
    }

    /// The quaternion divided by a scalar.
    pub fn div_s(self, scalar: S) -> (r: Quaternion<S>)
        ensures
            r == self.div_s_spec(scalar),
    {
        proof {
            S::lemma_div_defined(self.v.x, scalar);
            S::lemma_div_defined(self.v.y, scalar);
            S::lemma_div_defined(self.v.z, scalar);
        }
        Quaternion::from_sv(quot(self.s, scalar), self.v.div_s(scalar))
    }

    /// The sum of the quaternion and `other`.
    pub fn add_q(self, other: Quaternion<S>) -> (r: Quaternion<S>)
        ensures
            r == self.add_q_spec(other),
    {
        Quaternion::from_sv(self.s.add(other.s), self.v.add_v(other.v))
    }

    /// The difference of the quaternion and `other`.
    pub fn sub_q(self, other: Quaternion<S>) -> (r: Quaternion<S>)
        ensures
            r == self.sub_q_spec(other),
    {
        Quaternion::from_sv(self.s.sub(other.s), self.v.sub_v(other.v))
    }

    /// The Hamilton product of the quaternion and `other`. It does not commute.
    pub fn mul_q(self, other: Quaternion<S>) -> (r: Quaternion<S>)
        ensures
            r == self.mul_q_spec(other),
    {
        Quaternion::new(
            self.s.mul(other.s).sub(self.v.x.mul(other.v.x)).sub(self.v.y.mul(other.v.y)).sub(
                self.v.z.mul(other.v.z),
            ),
            self.s.mul(other.v.x).add(self.v.x.mul(other.s)).add(self.v.y.mul(other.v.z)).sub(
                self.v.z.mul(other.v.y),
            ),
            self.s.mul(other.v.y).add(self.v.y.mul(other.s)).add(self.v.z.mul(other.v.x)).sub(
                self.v.x.mul(other.v.z),
            ),
            self.s.mul(other.v.z).add(self.v.z.mul(other.s)).add(self.v.x.mul(other.v.y)).sub(
                self.v.y.mul(other.v.x),
            ),
        )
    }

    /// The vector `vec`, turned by the rotation that the quaternion stands for.
    pub fn mul_v(self, vec: Vector3<S>) -> (r: Vector3<S>)
        ensures
            r == self.mul_v_spec(vec),
    {
        let two = S::from_i64(2);
        let tmp = self.v.cross(vec).add_v(vec.mul_s(self.s));
        self.v.cross(tmp).mul_s(two).add_v(vec)
    }

    /// Spherical linear interpolation between the quaternion and `other`,
    /// both of which should have magnitude one.
    ///
    /// Two quaternions whose dot product exceeds the threshold are nearly
    /// parallel, and the sine by which the arc formula divides is then too
    /// small to trust: the result is the normalised linear blend. Elsewhere
    /// the dot product is clamped to the domain of the arccosine, and the
    /// two are blended along the arc between them.
    pub fn slerp(self, other: Quaternion<S>, amount: S) -> (r: Quaternion<S>)
        ensures
            r == self.slerp_spec(other, amount),
    {
        let dot = self.dot(other);
        let dot_threshold: S = ratio(9995, 10000);
        if gt(dot, dot_threshold) {
            self.nlerp(other, amount)
        } else {
            let robust_dot = clamp_unit(dot);
            let theta = robust_dot.acos();
            let sin_theta = theta.sin();
            let weight1 = quot(theta.mul(S::one().sub(amount)).sin(), sin_theta);
            let weight2 = quot(theta.mul(amount).sin(), sin_theta);
            self.mul_s(weight1).add_q(other.mul_s(weight2))
        }
    }

    /// The Euler angles of the quaternion, in radians, as (pitch about `x`,
    /// yaw about `y`, roll about `z`).
    ///
    /// The conversion knows the two poles. With `test = x * y + z * s` and
    /// `unit` the squared magnitude, a `test` of 499 thousandths of `unit` or
    /// more gives a pitch of a quarter turn, and one of minus that or less a
    /// pitch of minus a quarter turn; in both cases the yaw is twice the
    /// arctangent of `x` over `s` and the roll is zero. Elsewhere the angles
    /// come from the closed formulas. The comparison with `unit` makes the
    /// test right for a quaternion that is not normalised.
    pub fn to_euler(self) -> (r: (Rad<S>, Rad<S>, Rad<S>))
        ensures
            r == self.to_euler_spec(),
    {
        let sig: S = ratio(499, 1000);
        let two: S = S::from_i64(2);
        let one: S = S::one();
        let (qw, qx, qy, qz) = (self.s, self.v.x, self.v.y, self.v.z);
        let (sqw, sqx, sqy, sqz) = (qw.mul(qw), qx.mul(qx), qy.mul(qy), qz.mul(qz));
        let unit = sqx.add(sqy).add(sqz).add(sqw);
        let test = qx.mul(qy).add(qz.mul(qw));
        if ge(test, sig.mul(unit)) {
            (Rad::turn_div_4(), Rad(qx.atan2(qw).mul(two)), Rad::zero())
        } else if test.le(sig.neg().mul(unit)) {
            (Rad(Rad::<S>::turn_div_4().0.neg()), Rad(qx.atan2(qw).mul(two)), Rad::zero())
        } else {
            (
                Rad(two.mul(qx.mul(qy).add(qz.mul(qw))).asin()),
                Rad(two.mul(qy.mul(qw).sub(qx.mul(qz))).atan2(one.sub(two.mul(sqy.add(sqz))))),
                Rad(two.mul(qx.mul(qw).sub(qy.mul(qz))).atan2(one.sub(two.mul(sqx.add(sqz))))),
            )
        }
    }

    /// The 3 x 3 rotation matrix of the quaternion.
    pub fn to_matrix3(self) -> (r: Matrix3<S>)
        ensures
            r == self.to_matrix3_spec(),
    {
        let x2 = self.v.x.add(self.v.x);
        let y2 = self.v.y.add(self.v.y);
        let z2 = self.v.z.add(self.v.z);
        let xx2 = x2.mul(self.v.x);
        let xy2 = x2.mul(self.v.y);
        let xz2 = x2.mul(self.v.z);
        let yy2 = y2.mul(self.v.y);
        let yz2 = y2.mul(self.v.z);
        let zz2 = z2.mul(self.v.z);
        let sy2 = y2.mul(self.s);
        let sz2 = z2.mul(self.s);
        let sx2 = x2.mul(self.s);
        Matrix3::new(
            S::one().sub(yy2).sub(zz2),
            xy2.add(sz2),
            xz2.sub(sy2),
            xy2.sub(sz2),
            S::one().sub(xx2).sub(zz2),
            yz2.add(sx2),
            xz2.add(sy2),
            yz2.sub(sx2),
            S::one().sub(xx2).sub(yy2),
        )
    }

    /// The 4 x 4 rotation matrix of the quaternion.
    pub fn to_matrix4(self) -> (r: Matrix4<S>)
        ensures
            r == self.to_matrix4_spec(),
    {
        let x2 = self.v.x.add(self.v.x);
        let y2 = self.v.y.add(self.v.y);
        let z2 = self.v.z.add(self.v.z);
        let xx2 = x2.mul(self.v.x);
        let xy2 = x2.mul(self.v.y);
        let xz2 = x2.mul(self.v.z);
        let yy2 = y2.mul(self.v.y);
        let yz2 = y2.mul(self.v.z);
        let zz2 = z2.mul(self.v.z);
        let sy2 = y2.mul(self.s);
        let sz2 = z2.mul(self.s);
        let sx2 = x2.mul(self.s);
        Matrix4::new(
            S::one().sub(yy2).sub(zz2),
            xy2.add(sz2),
            xz2.sub(sy2),
            S::zero(),
            xy2.sub(sz2),
            S::one().sub(xx2).sub(zz2),
            yz2.add(sx2),
            S::zero(),
            xz2.add(sy2),
            yz2.sub(sx2),
            S::one().sub(xx2).sub(yy2),
            S::zero(),
            S::zero(),
            S::zero(),
            S::zero(),
            S::one(),
        )
    }

    /// The rotation that undoes the quaternion's: the conjugate divided by
    /// the squared magnitude, which is right for any magnitude but zero.
    pub fn invert_q(self) -> (r: Quaternion<S>)
        ensures
            r == self.invert_q_spec(),
    {
        self.conjugate().div_s(self.magnitude2())
    }
}

impl<S: BaseFloat> vstd::std_specs::ops::NegSpecImpl for Quaternion<S> {
    open spec fn obeys_neg_spec() -> bool {
        true
    }

    open spec fn neg_req(self) -> bool {
        true
    }

    open spec fn neg_spec(self) -> Quaternion<S> {
        self.neg_q_spec()
    }
}

impl<S: BaseFloat> core::ops::Neg for Quaternion<S> {
    type Output = Quaternion<S>;

    fn neg(self) -> (r: Quaternion<S>) {
        self.neg_q()
    }
}

impl<S: BaseFloat> vstd::std_specs::ops::MulSpecImpl<S> for Quaternion<S> {
    open spec fn obeys_mul_spec() -> bool {
        true
    }

    open spec fn mul_req(self, scalar: S) -> bool {
        true
    }

    open spec fn mul_spec(self, scalar: S) -> Quaternion<S> {
        self.mul_s_spec(scalar)
    }
}

impl<S: BaseFloat> core::ops::Mul<S> for Quaternion<S> {
    type Output = Quaternion<S>;

    fn mul(self, scalar: S) -> (r: Quaternion<S>) {
        self.mul_s(scalar)
    }
}

impl<S: BaseFloat> vstd::std_specs::ops::DivSpecImpl<S> for Quaternion<S> {
    open spec fn obeys_div_spec() -> bool {
        true
    }

    open spec fn div_req(self, scalar: S) -> bool {
        true
    }

    open spec fn div_spec(self, scalar: S) -> Quaternion<S> {
        self.div_s_spec(scalar)
    }
}

impl<S: BaseFloat> core::ops::Div<S> for Quaternion<S> {
    type Output = Quaternion<S>;

    fn div(self, scalar: S) -> (r: Quaternion<S>) {
        self.div_s(scalar)
    }
}

impl<S: BaseFloat> vstd::std_specs::ops::MulSpecImpl<Vector3<S>> for Quaternion<S> {
    open spec fn obeys_mul_spec() -> bool {
        true
    }

    open spec fn mul_req(self, vec: Vector3<S>) -> bool {
        true
    }

    open spec fn mul_spec(self, vec: Vector3<S>) -> Vector3<S> {
        self.mul_v_spec(vec)
    }
}

impl<S: BaseFloat> core::ops::Mul<Vector3<S>> for Quaternion<S> {
    type Output = Vector3<S>;

    /// The vector, turned by the rotation that the quaternion stands for.
    fn mul(self, vec: Vector3<S>) -> (r: Vector3<S>) {
        self.mul_v(vec)
    }
}

impl<S: BaseFloat> vstd::std_specs::ops::AddSpecImpl for Quaternion<S> {
    open spec fn obeys_add_spec() -> bool {
        true
    }

    open spec fn add_req(self, other: Quaternion<S>) -> bool {
        true
    }

    open spec fn add_spec(self, other: Quaternion<S>) -> Quaternion<S> {
        self.add_q_spec(other)
    }
}

impl<S: BaseFloat> core::ops::Add for Quaternion<S> {
    type Output = Quaternion<S>;

    fn add(self, other: Quaternion<S>) -> (r: Quaternion<S>) {
        self.add_q(other)
    }
}

impl<S: BaseFloat> vstd::std_specs::ops::SubSpecImpl for Quaternion<S> {
    open spec fn obeys_sub_spec() -> bool {
        true
    }

    open spec fn sub_req(self, other: Quaternion<S>) -> bool {
        true
    }

    open spec fn sub_spec(self, other: Quaternion<S>) -> Quaternion<S> {
        self.sub_q_spec(other)
    }
}

impl<S: BaseFloat> core::ops::Sub for Quaternion<S> {
    type Output = Quaternion<S>;

    fn sub(self, other: Quaternion<S>) -> (r: Quaternion<S>) {
        self.sub_q(other)
    }
}

impl<S: BaseFloat> vstd::std_specs::ops::MulSpecImpl for Quaternion<S> {
    open spec fn obeys_mul_spec() -> bool {
        true
    }

    open spec fn mul_req(self, other: Quaternion<S>) -> bool {
        true
    }

    open spec fn mul_spec(self, other: Quaternion<S>) -> Quaternion<S> {
        self.mul_q_spec(other)
    }
}

impl<S: BaseFloat> core::ops::Mul for Quaternion<S> {
    type Output = Quaternion<S>;

    /// The Hamilton product.
    fn mul(self, other: Quaternion<S>) -> (r: Quaternion<S>) {
        self.mul_q(other)
    }
}

impl<S: BaseFloat> core::ops::MulAssign<S> for Quaternion<S> {
    fn mul_assign(&mut self, scalar: S)
        ensures
            *final(self) == old(self).mul_s_spec(scalar),
    {
        *self = self.mul_s(scalar);
    }
}

impl<S: BaseFloat> core::ops::DivAssign<S> for Quaternion<S> {
    fn div_assign(&mut self, scalar: S)
        ensures
            *final(self) == old(self).div_s_spec(scalar),
    {
        *self = self.div_s(scalar);
    }
}

impl<S: BaseFloat> core::ops::AddAssign for Quaternion<S> {
    fn add_assign(&mut self, other: Quaternion<S>)
        ensures
            *final(self) == old(self).add_q_spec(other),
    {
        *self = self.add_q(other);
    }
}

impl<S: BaseFloat> core::ops::SubAssign for Quaternion<S> {
    fn sub_assign(&mut self, other: Quaternion<S>)
        ensures
            *final(self) == old(self).sub_q_spec(other),
    {
        *self = self.sub_q(other);
    }
}

/// Approximately equal when the scalar parts and the vector parts are.
impl<S: BaseFloat> ApproxEq for Quaternion<S> {
    type Epsilon = S;

    open spec fn approx_eq_eps_spec(&self, other: &Quaternion<S>, epsilon: &S) -> bool {
        self.s.approx_eq_eps_spec(&other.s, epsilon) && self.v.approx_eq_eps_spec(
            &other.v,
            epsilon,
        )
    }

    fn approx_eq_eps(&self, other: &Quaternion<S>, epsilon: &S) -> (r: bool) {
        self.s.approx_eq_eps(&other.s, epsilon) && self.v.approx_eq_eps(&other.v, epsilon)
    }
}

impl<S: BaseFloat> vstd::std_specs::convert::FromSpecImpl<Quaternion<S>> for Matrix3<S> {
    open spec fn obeys_from_spec() -> bool {
        true
    }

    open spec fn from_spec(quat: Quaternion<S>) -> Matrix3<S> {
        quat.to_matrix3_spec()
    }
}

impl<S: BaseFloat> From<Quaternion<S>> for Matrix3<S> {
    /// The 3 x 3 rotation matrix of the quaternion.
    fn from(quat: Quaternion<S>) -> (r: Matrix3<S>) {
        quat.to_matrix3()
    }
}

impl<S: BaseFloat> vstd::std_specs::convert::FromSpecImpl<Quaternion<S>> for Matrix4<S> {
    open spec fn obeys_from_spec() -> bool {
        true
    }

    open spec fn from_spec(quat: Quaternion<S>) -> Matrix4<S> {
        quat.to_matrix4_spec()
    }
}

impl<S: BaseFloat> From<Quaternion<S>> for Matrix4<S> {
    /// The 4 x 4 rotation matrix of the quaternion.
    fn from(quat: Quaternion<S>) -> (r: Matrix4<S>) {
        quat.to_matrix4()
    }
}

impl<S: BaseFloat> Quaternion<S> {
    /// The quaternion of the rotation that the matrix `mat` stands for.
    ///
    /// With a trace that is not negative, the scalar part comes from the
    /// trace. With a negative trace, the largest entry of the diagonal says
    /// which component of the vector part is computed first, so that the
    /// square root is never taken of a small number.
    pub open spec fn from_matrix3_spec(mat: Matrix3<S>) -> Quaternion<S> {
        let half = ratio_spec::<S>(1, 2);
        let one = S::one_spec();
        if !mat.trace_spec().lt_spec(S::zero_spec()) {
            let s = one.add_spec(mat.trace_spec()).sqrt_spec();
            let k = half.div_spec(s);
            Quaternion {
                s: half.mul_spec(s),
                v: Vector3 {
                    x: mat.y.z.sub_spec(mat.z.y).mul_spec(k),
                    y: mat.z.x.sub_spec(mat.x.z).mul_spec(k),
                    z: mat.x.y.sub_spec(mat.y.x).mul_spec(k),
                },
            }
        } else if gt_spec(mat.x.x, mat.y.y) && gt_spec(mat.x.x, mat.z.z) {
            let s = mat.x.x.sub_spec(mat.y.y).sub_spec(mat.z.z).add_spec(one).sqrt_spec();
            let k = half.div_spec(s);
            Quaternion {
                s: mat.y.z.sub_spec(mat.z.y).mul_spec(k),
                v: Vector3 {
                    x: half.mul_spec(s),
                    y: mat.y.x.add_spec(mat.x.y).mul_spec(k),
                    z: mat.x.z.add_spec(mat.z.x).mul_spec(k),
                },
            }
        } else if gt_spec(mat.y.y, mat.z.z) {
            let s = mat.y.y.sub_spec(mat.x.x).sub_spec(mat.z.z).add_spec(one).sqrt_spec();
            let k = half.div_spec(s);
            Quaternion {
                s: mat.z.x.sub_spec(mat.x.z).mul_spec(k),
                v: Vector3 {
                    x: mat.y.x.add_spec(mat.x.y).mul_spec(k),
                    y: half.mul_spec(s),
                    z: mat.z.y.add_spec(mat.y.z).mul_spec(k),
                },
            }
        } else {
            let s = mat.z.z.sub_spec(mat.x.x).sub_spec(mat.y.y).add_spec(one).sqrt_spec();
            let k = half.div_spec(s);
            Quaternion {
                s: mat.x.y.sub_spec(mat.y.x).mul_spec(k),
                v: Vector3 {
                    x: mat.x.z.add_spec(mat.z.x).mul_spec(k),
                    y: mat.z.y.add_spec(mat.y.z).mul_spec(k),
                    z: half.mul_spec(s),
                },
            }
        }
    }

    /// The quaternion of the rotation by `angle` about `axis`: the cosine of
    /// the half angle, and the sine of the half angle times the axis. The
    /// axis is read in the order `(z, y, x)`, which suits the order of pitch,
    /// yaw and roll that the Euler conversions use.
    pub open spec fn from_axis_angle_q_spec(axis: Vector3<S>, angle: Rad<S>) -> Quaternion<S> {
        let half_angle = angle.0.mul_spec(ratio_spec::<S>(1, 2));
        Quaternion {
            s: half_angle.cos_spec(),
            v: (Vector3 { x: axis.z, y: axis.y, z: axis.x }).mul_s_spec(half_angle.sin_spec()),
        }
    }

    /// The quaternion of the rotation with the Euler angles `x`, `y` and
    /// `z`, from the sines and cosines of the half angles.
    pub open spec fn from_euler_q_spec(x: Rad<S>, y: Rad<S>, z: Rad<S>) -> Quaternion<S> {
        let half = ratio_spec::<S>(1, 2);
        let (s_x, c_x) = (x.0.mul_spec(half).sin_spec(), x.0.mul_spec(half).cos_spec());
        let (s_y, c_y) = (y.0.mul_spec(half).sin_spec(), y.0.mul_spec(half).cos_spec());
        let (s_z, c_z) = (z.0.mul_spec(half).sin_spec(), z.0.mul_spec(half).cos_spec());
        Quaternion {
            s: c_y.mul_spec(c_x).mul_spec(c_z).sub_spec(s_y.mul_spec(s_x).mul_spec(s_z)),
            v: Vector3 {
                x: s_y.mul_spec(s_x).mul_spec(c_z).add_spec(c_y.mul_spec(c_x).mul_spec(s_z)),
                y: s_y.mul_spec(c_x).mul_spec(c_z).add_spec(c_y.mul_spec(s_x).mul_spec(s_z)),
                z: c_y.mul_spec(s_x).mul_spec(c_z).sub_spec(s_y.mul_spec(c_x).mul_spec(s_z)),
            },
        }
    }

    /// The quaternion, before it is normalised, of the shortest rotation from
    /// `a` to `b`: `1 + a . b` and `a x b`.
    pub open spec fn between_vectors_q_spec(a: Vector3<S>, b: Vector3<S>) -> Quaternion<S> {
        (Quaternion {
            s: S::one_spec().add_spec(a.dot_spec(b)),
            v: a.cross_spec(b),
        }).normalize_spec()
    }

    /// The quaternion of the rotation that the matrix `mat` stands for.
    pub fn from_matrix3(mat: Matrix3<S>) -> (r: Quaternion<S>)
        ensures
            r == Self::from_matrix3_spec(mat),
    {
        let half: S = ratio(1, 2);
        let one = S::one();
        if !mat.trace().lt(S::zero()) {
            let s = one.add(mat.trace()).sqrt();
            let k = quot(half, s);
            Quaternion::new(
                half.mul(s),
                mat.y.z.sub(mat.z.y).mul(k),
                mat.z.x.sub(mat.x.z).mul(k),
                mat.x.y.sub(mat.y.x).mul(k),
            )
        } else if gt(mat.x.x, mat.y.y) && gt(mat.x.x, mat.z.z) {
            let s = mat.x.x.sub(mat.y.y).sub(mat.z.z).add(one).sqrt();
            let k = quot(half, s);
            Quaternion::new(
                mat.y.z.sub(mat.z.y).mul(k),
                half.mul(s),
                mat.y.x.add(mat.x.y).mul(k),
                mat.x.z.add(mat.z.x).mul(k),
            )
        } else if gt(mat.y.y, mat.z.z) {
            let s = mat.y.y.sub(mat.x.x).sub(mat.z.z).add(one).sqrt();
            let k = quot(half, s);
            Quaternion::new(
                mat.z.x.sub(mat.x.z).mul(k),
                mat.y.x.add(mat.x.y).mul(k),
                half.mul(s),
                mat.z.y.add(mat.y.z).mul(k),
            )
        } else {
            let s = mat.z.z.sub(mat.x.x).sub(mat.y.y).add(one).sqrt();
            let k = quot(half, s);
            Quaternion::new(
                mat.x.y.sub(mat.y.x).mul(k),
                mat.x.z.add(mat.z.x).mul(k),
                mat.z.y.add(mat.y.z).mul(k),
                half.mul(s),
            )
        }
    }
}

impl<S: BaseFloat> vstd::std_specs::convert::FromSpecImpl<Matrix3<S>> for Quaternion<S> {
    open spec fn obeys_from_spec() -> bool {
        true
    }

    open spec fn from_spec(mat: Matrix3<S>) -> Quaternion<S> {
        Quaternion::from_matrix3_spec(mat)
    }
}

impl<S: BaseFloat> From<Matrix3<S>> for Quaternion<S> {
    /// The quaternion of the rotation that the matrix stands for.
    fn from(mat: Matrix3<S>) -> (r: Quaternion<S>) {
        Quaternion::from_matrix3(mat)
    }
}

impl<S: BaseFloat> Rotation<Point3<S>> for Quaternion<S> {
    open spec fn one_spec() -> Quaternion<S> {
        Quaternion {
            s: S::one_spec(),
            v: Vector3 { x: S::zero_spec(), y: S::zero_spec(), z: S::zero_spec() },
        }
    }

    open spec fn look_at_spec(dir: Vector3<S>, up: Vector3<S>) -> Quaternion<S> {
        Quaternion::from_matrix3_spec(Matrix3::look_at_spec(dir, up))
    }

    open spec fn between_vectors_spec(a: Vector3<S>, b: Vector3<S>) -> Quaternion<S> {
        Quaternion::between_vectors_q_spec(a, b)
    }

    open spec fn rotate_vector_spec(&self, vec: Vector3<S>) -> Vector3<S> {
        self.mul_v_spec(vec)
    }

    open spec fn concat_spec(&self, other: &Quaternion<S>) -> Quaternion<S> {
        self.mul_q_spec(*other)
    }

    open spec fn invert_spec(&self) -> Quaternion<S> {
        self.invert_q_spec()
    }

    fn one() -> (r: Quaternion<S>) {
        Quaternion::one()
    }

    fn look_at(dir: Vector3<S>, up: Vector3<S>) -> (r: Quaternion<S>) {
        Quaternion::from_matrix3(Matrix3::look_at(dir, up))
    }

    fn between_vectors(a: Vector3<S>, b: Vector3<S>) -> (r: Quaternion<S>) {
        Quaternion::from_sv(S::one().add(a.dot(b)), a.cross(b)).normalize()
    }

    fn rotate_vector(&self, vec: Vector3<S>) -> (r: Vector3<S>) {
        self.mul_v(vec)
    }

    fn concat(&self, other: &Quaternion<S>) -> (r: Quaternion<S>) {
        self.mul_q(*other)
    }

    fn invert(&self) -> (r: Quaternion<S>) {
        self.invert_q()
    }
}

impl<S: BaseFloat> Rotation3<S> for Quaternion<S> {
    open spec fn from_axis_angle_spec(axis: Vector3<S>, angle: Rad<S>) -> Quaternion<S> {
        Quaternion::from_axis_angle_q_spec(axis, angle)
    }

    open spec fn from_euler_spec(x: Rad<S>, y: Rad<S>, z: Rad<S>) -> Quaternion<S> {
        Quaternion::from_euler_q_spec(x, y, z)
    }

    open spec fn to_matrix_spec(&self) -> Matrix3<S> {
        self.to_matrix3_spec()
    }

    fn to_matrix(&self) -> (r: Matrix3<S>) {
        self.to_matrix3()
    }

    fn from_axis_angle(axis: Vector3<S>, angle: Rad<S>) -> (r: Quaternion<S>) {
        let half: S = ratio(1, 2);
        let (s, c) = Rad(angle.0.mul(half)).sin_cos();
        let axis = Vector3::new(axis.z, axis.y, axis.x);
        Quaternion::from_sv(c, axis.mul_s(s))
    }

    fn from_euler(x: Rad<S>, y: Rad<S>, z: Rad<S>) -> (r: Quaternion<S>) {
        let half: S = ratio(1, 2);
        let (s_x, c_x) = Rad(x.0.mul(half)).sin_cos();
        let (s_y, c_y) = Rad(y.0.mul(half)).sin_cos();
        let (s_z, c_z) = Rad(z.0.mul(half)).sin_cos();
        Quaternion::new(
            c_y.mul(c_x).mul(c_z).sub(s_y.mul(s_x).mul(s_z)),
            s_y.mul(s_x).mul(c_z).add(c_y.mul(c_x).mul(s_z)),
            s_y.mul(c_x).mul(c_z).add(c_y.mul(s_x).mul(s_z)),
            c_y.mul(s_x).mul(c_z).sub(s_y.mul(c_x).mul(s_z)),
        )
    }
}

/// Where the dot product of two quaternions exceeds the threshold, their
/// spherical interpolation is their normalised linear interpolation, whatever
/// the amount. Elsewhere it is the blend along the arc.
pub proof fn lemma_slerp_branches<S: BaseFloat>(q1: Quaternion<S>, q2: Quaternion<S>, amount: S)
    ensures
        gt_spec(q1.dot_spec(q2), slerp_threshold_spec::<S>()) ==> q1.slerp_spec(q2, amount)
            == q1.nlerp_spec(q2, amount),
        !gt_spec(q1.dot_spec(q2), slerp_threshold_spec::<S>()) ==> q1.slerp_spec(q2, amount)
            == q1.slerp_arc_spec(q2, amount),
{
}

/// A quaternion whose test quantity exceeds the threshold's share of its
/// squared magnitude, or equals it and is a number that the order compares
/// with itself, has a pitch of a quarter turn, the yaw of the polar formula
/// and no roll.
pub proof fn lemma_to_euler_at_the_north_pole<S: BaseFloat>(q: Quaternion<S>)
    requires
        ({
            let bound = euler_threshold_spec::<S>().mul_spec(q.euler_unit_spec());
            gt_spec(q.euler_test_spec(), bound) || (q.euler_test_spec() == bound && bound.le_spec(bound))
        }),
    ensures
        q.to_euler_spec() == (quarter_turn_spec::<S>(), q.euler_polar_yaw_spec(), Rad(S::zero_spec())),
{
    S::lemma_lt_is_le(
        euler_threshold_spec::<S>().mul_spec(q.euler_unit_spec()),
        q.euler_test_spec(),
    );
}

/// A quaternion that is not at the north pole and whose test quantity is
/// below minus the threshold's share of its squared magnitude, or equals it
/// and is a number that the order compares with itself, has a pitch of minus
/// a quarter turn, the yaw of the polar formula and no roll.
pub proof fn lemma_to_euler_at_the_south_pole<S: BaseFloat>(q: Quaternion<S>)
    requires
        !q.euler_north_spec(),
        ({
            let bound = euler_threshold_spec::<S>().neg_spec().mul_spec(q.euler_unit_spec());
            q.euler_test_spec()
                .lt_spec(bound) || (q.euler_test_spec() == bound && bound.le_spec(bound))
        }),
    ensures
        q.to_euler_spec() == (
            Rad(quarter_turn_spec::<S>().0.neg_spec()),
            q.euler_polar_yaw_spec(),
            Rad(S::zero_spec()),
        ),
{
    S::lemma_lt_is_le(
        q.euler_test_spec(),
        euler_threshold_spec::<S>().neg_spec().mul_spec(q.euler_unit_spec()),
    );
}

/// At either pole, the threshold itself included, the Euler angles of a
/// quaternion are a quarter turn of pitch, up or down, the yaw of the polar
/// formula, and no roll; the closed formulas are used nowhere but away from
/// the poles.
pub proof fn lemma_to_euler_branches<S: BaseFloat>(q: Quaternion<S>)
    ensures
        q.euler_north_spec() ==> q.to_euler_spec() == (
            quarter_turn_spec::<S>(),
            q.euler_polar_yaw_spec(),
            Rad(S::zero_spec()),
        ),
        q.euler_south_spec() ==> q.to_euler_spec() == (
            Rad(quarter_turn_spec::<S>().0.neg_spec()),
            q.euler_polar_yaw_spec(),
            Rad(S::zero_spec()),
        ),
        !q.euler_north_spec() && !q.euler_south_spec() ==> q.to_euler_spec()
            == q.euler_general_spec(),
{
}

impl<S: Copy> vstd::std_specs::convert::FromSpecImpl<[S; 4]> for Quaternion<S> {
    open spec fn obeys_from_spec() -> bool {
        true
    }

    open spec fn from_spec(v: [S; 4]) -> Quaternion<S> {
        Quaternion { s: v[0], v: Vector3 { x: v[1], y: v[2], z: v[3] } }
    }
}

impl<S: Copy> From<[S; 4]> for Quaternion<S> {
    /// The value whose components are the array's elements: the scalar part, then `x`, `y` and `z`.
    fn from(v: [S; 4]) -> (r: Quaternion<S>) {
        Quaternion { s: v[0], v: Vector3 { x: v[1], y: v[2], z: v[3] } }
    }
}

impl<S: Copy> vstd::std_specs::convert::FromSpecImpl<Quaternion<S>> for [S; 4] {
    open spec fn obeys_from_spec() -> bool {
        true
    }

    open spec fn from_spec(v: Quaternion<S>) -> [S; 4] {
        [v.s, v.v.x, v.v.y, v.v.z]
    }
}

impl<S: Copy> From<Quaternion<S>> for [S; 4] {
    /// The scalar part, then `x`, `y` and `z`.
    fn from(v: Quaternion<S>) -> (r: [S; 4]) {
        [v.s, v.v.x, v.v.y, v.v.z]
    }
}

impl<S: Copy> vstd::std_specs::convert::FromSpecImpl<(S, S, S, S)> for Quaternion<S> {
    open spec fn obeys_from_spec() -> bool {
        true
    }

    open spec fn from_spec(v: (S, S, S, S)) -> Quaternion<S> {
        Quaternion { s: v.0, v: Vector3 { x: v.1, y: v.2, z: v.3 } }
    }
}

impl<S: Copy> From<(S, S, S, S)> for Quaternion<S> {
    /// The value whose components are the tuple's fields: the scalar part, then `x`, `y` and `z`.
    fn from(v: (S, S, S, S)) -> (r: Quaternion<S>) {
        Quaternion { s: v.0, v: Vector3 { x: v.1, y: v.2, z: v.3 } }
    }
}

impl<S: Copy> vstd::std_specs::convert::FromSpecImpl<Quaternion<S>> for (S, S, S, S) {
    open spec fn obeys_from_spec() -> bool {
        true
    }

    open spec fn from_spec(v: Quaternion<S>) -> (S, S, S, S) {
        (v.s, v.v.x, v.v.y, v.v.z)
    }
}

impl<S: Copy> From<Quaternion<S>> for (S, S, S, S) {
    /// The scalar part, then `x`, `y` and `z`.
    fn from(v: Quaternion<S>) -> (r: (S, S, S, S)) {
        (v.s, v.v.x, v.v.y, v.v.z)
    }
}

/// Converting a value to an array, or to a tuple, and back gives the value
/// itself.
pub proof fn lemma_quaternion_round_trip<S: Copy>(v: Quaternion<S>)
    ensures
        <Quaternion<S> as vstd::std_specs::convert::FromSpec<[S; 4]>>::from_spec(
            <[S; 4] as vstd::std_specs::convert::FromSpec<Quaternion<S>>>::from_spec(v),
        ) == v,
        <Quaternion<S> as vstd::std_specs::convert::FromSpec<(S, S, S, S)>>::from_spec(
            <(S, S, S, S) as vstd::std_specs::convert::FromSpec<Quaternion<S>>>::from_spec(v),
        ) == v,
{
}

impl<S: Copy> FixedArray<[S; 4]> for Quaternion<S> {
    open spec fn into_fixed_spec(self) -> [S; 4] {
        [self.s, self.v.x, self.v.y, self.v.z]
    }

    open spec fn from_fixed_spec(v: [S; 4]) -> Quaternion<S> {
        Quaternion { s: v[0], v: Vector3 { x: v[1], y: v[2], z: v[3] } }
    }

    proof fn lemma_round_trip(self) {
    }

    fn into_fixed(self) -> (r: [S; 4]) {
        [self.s, self.v.x, self.v.y, self.v.z]
    }

    fn from_fixed(v: [S; 4]) -> (r: Quaternion<S>) {
        Quaternion { s: v[0], v: Vector3 { x: v[1], y: v[2], z: v[3] } }
    }
}

impl<S: Copy> FixedArray<(S, S, S, S)> for Quaternion<S> {
    open spec fn into_fixed_spec(self) -> (S, S, S, S) {
        (self.s, self.v.x, self.v.y, self.v.z)
    }

    open spec fn from_fixed_spec(v: (S, S, S, S)) -> Quaternion<S> {
        Quaternion { s: v.0, v: Vector3 { x: v.1, y: v.2, z: v.3 } }
    }

    proof fn lemma_round_trip(self) {
    }

    fn into_fixed(self) -> (r: (S, S, S, S)) {
        (self.s, self.v.x, self.v.y, self.v.z)
    }

    fn from_fixed(v: (S, S, S, S)) -> (r: Quaternion<S>) {
        Quaternion { s: v.0, v: Vector3 { x: v.1, y: v.2, z: v.3 } }
    }
}

impl<S: Copy> Array1<S> for Quaternion<S> {
    open spec fn elems(&self) -> Seq<S> {
        seq![self.s, self.v.x, self.v.y, self.v.z]
    }

    fn get(&self, i: usize) -> (r: &S) {
        match i {
            0 => &self.s,
            1 => &self.v.x,
            2 => &self.v.y,
            3 => &self.v.z,
            _ => vstd::pervasive::unreached(),
        }
    }

    fn get_mut(&mut self, i: usize) -> (r: &mut S) {
        match i {
            0 => &mut self.s,
            1 => &mut self.v.x,
            2 => &mut self.v.y,
            3 => &mut self.v.z,
            _ => vstd::pervasive::unreached(),
        }
    }

    fn map<F: Fn(S) -> S>(&mut self, op: F) -> (r: Quaternion<S>) {
        proof {
            assert(self.elems()[0] == self.s);
            assert(self.elems()[1] == self.v.x);
            assert(self.elems()[2] == self.v.y);
            assert(self.elems()[3] == self.v.z);
        }
        let s = op(self.s);
        let x = op(self.v.x);
        let y = op(self.v.y);
        let z = op(self.v.z);
        self.s = s;
        self.v.x = x;
        self.v.y = y;
        self.v.z = z;
        *self
    }
}

impl<S> vstd::std_specs::core::IndexSpecImpl<usize> for Quaternion<S> {
    open spec fn index_req(&self, index: &usize) -> bool {
        *index < 4
    }
}

impl<S> core::ops::Index<usize> for Quaternion<S> {
    type Output = S;

    /// The component at position `i`: the scalar part is at zero, then `x`,
    /// `y` and `z`. A position past the last stops the program.
    fn index(&self, i: usize) -> (r: &S)
        ensures
            i == 0 ==> *r == self.s,
            i == 1 ==> *r == self.v.x,
            i == 2 ==> *r == self.v.y,
            i == 3 ==> *r == self.v.z,
    {
        match i {
            0 => &self.s,
            1 => &self.v.x,
            2 => &self.v.y,
            3 => &self.v.z,
            _ => vstd::pervasive::unreached(),
        }
    }
}

} // verus!
