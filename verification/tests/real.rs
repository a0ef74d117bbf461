//! The library over floating-point scalars of 32 and 64 bits.
use cgmath::angle::{Angle, Deg, Rad};
use cgmath::approx::ApproxEq;
use cgmath::array::Array1;
use cgmath::matrix::{Matrix2, Matrix3, Matrix4};
use cgmath::num::{ge, gt, modulo, quot, ratio, recip, BaseFloat, BaseNum};
use cgmath::point::{Point, Point2, Point3};
use cgmath::quaternion::{clamp_unit, Quaternion};
use cgmath::rotation::{Basis2, Basis3, Rotation, Rotation2, Rotation3};
use cgmath::transform::{AffineMatrix3, Decomposed, ToComponents, Transform};
use cgmath::vector::{EuclideanVector, Vector, Vector2, Vector3, Vector4};
use num_traits::Float;
use std::f64::consts::PI;

/// A floating-point number as a scalar of the library. What the library
/// states of an operation is what the operation computes.
#[derive(Clone, Copy, Debug, PartialEq, PartialOrd)]
struct Real<F>(F);

impl<F: Float> BaseNum for Real<F> {
    fn zero_spec() -> Self {
        Self::zero()
    }

    fn one_spec() -> Self {
        Self::one()
    }

    fn add_spec(self, rhs: Self) -> Self {
        self.add(rhs)
    }

    fn sub_spec(self, rhs: Self) -> Self {
        self.sub(rhs)
    }

    fn mul_spec(self, rhs: Self) -> Self {
        self.mul(rhs)
    }

    fn div_spec(self, rhs: Self) -> Self {
        self.div(rhs)
    }

    fn rem_spec(self, rhs: Self) -> Self {
        self.rem(rhs)
    }

    fn neg_spec(self) -> Self {
        self.neg()
    }

    fn div_defined_spec(self, _rhs: Self) -> bool {
        true
    }

    fn lt_spec(self, rhs: Self) -> bool {
        self.lt(rhs)
    }

    fn le_spec(self, rhs: Self) -> bool {
        self.le(rhs)
    }

    fn partial_min_spec(self, rhs: Self) -> Self {
        self.partial_min(rhs)
    }

    fn partial_max_spec(self, rhs: Self) -> Self {
        self.partial_max(rhs)
    }

    fn lemma_identities() {
    }

    fn lemma_lt_is_le(_a: Self, _b: Self) {
    }

    fn zero() -> Self {
        Real(F::zero())
    }

    fn one() -> Self {
        Real(F::one())
    }

    fn add(self, rhs: Self) -> Self {
        Real(self.0 + rhs.0)
    }

    fn sub(self, rhs: Self) -> Self {
        Real(self.0 - rhs.0)
    }

    fn mul(self, rhs: Self) -> Self {
        Real(self.0 * rhs.0)
    }

    fn div(self, rhs: Self) -> Self {
        Real(self.0 / rhs.0)
    }

    fn rem(self, rhs: Self) -> Self {
        Real(self.0 % rhs.0)
    }

    fn neg(self) -> Self {
        Real(-self.0)
    }

    fn lt(self, rhs: Self) -> bool {
        self.0 < rhs.0
    }

    fn le(self, rhs: Self) -> bool {
        self.0 <= rhs.0
    }

    fn partial_min(self, rhs: Self) -> Self {
        Real(self.0.min(rhs.0))
    }

    fn partial_max(self, rhs: Self) -> Self {
        Real(self.0.max(rhs.0))
    }
}

impl<F: Float> BaseFloat for Real<F> {
    fn from_i64_spec(n: i64) -> Self {
        Self::from_i64(n)
    }

    fn pi_spec() -> Self {
        Self::pi()
    }

    fn abs_spec(self) -> Self {
        self.abs()
    }

    fn sqrt_spec(self) -> Self {
        self.sqrt()
    }

    fn sin_spec(self) -> Self {
        self.sin()
    }

    fn cos_spec(self) -> Self {
        self.cos()
    }

    fn tan_spec(self) -> Self {
        self.tan()
    }

    fn asin_spec(self) -> Self {
        self.asin()
    }

    fn acos_spec(self) -> Self {
        self.acos()
    }

    fn atan_spec(self) -> Self {
        self.atan()
    }

    fn atan2_spec(self, other: Self) -> Self {
        self.atan2(other)
    }

    fn lemma_div_defined(_a: Self, _b: Self) {
    }

    fn from_i64(n: i64) -> Self {
        Real(num_traits::cast(n).unwrap())
    }

    fn pi() -> Self {
        Real(num_traits::cast(PI).unwrap())
    }

    fn abs(self) -> Self {
        Real(self.0.abs())
    }

    fn sqrt(self) -> Self {
        Real(self.0.sqrt())
    }

    fn sin(self) -> Self {
        Real(self.0.sin())
    }

    fn cos(self) -> Self {
        Real(self.0.cos())
    }

    fn tan(self) -> Self {
        Real(self.0.tan())
    }

    fn asin(self) -> Self {
        Real(self.0.asin())
    }

    fn acos(self) -> Self {
        Real(self.0.acos())
    }

    fn atan(self) -> Self {
        Real(self.0.atan())
    }

    fn atan2(self, other: Self) -> Self {
        Real(self.0.atan2(other.0))
    }
}

type R64 = Real<f64>;
type R32 = Real<f32>;

fn r(x: f64) -> R64 {
    Real(x)
}

fn v2(x: f64, y: f64) -> Vector2<R64> {
    Vector2::new(r(x), r(y))
}

fn v3(x: f64, y: f64, z: f64) -> Vector3<R64> {
    Vector3::new(r(x), r(y), r(z))
}

fn v4(x: f64, y: f64, z: f64, w: f64) -> Vector4<R64> {
    Vector4::new(r(x), r(y), r(z), r(w))
}

fn p3(x: f64, y: f64, z: f64) -> Point3<R64> {
    Point3::new(r(x), r(y), r(z))
}

fn q(w: f64, x: f64, y: f64, z: f64) -> Quaternion<R64> {
    Quaternion::new(r(w), r(x), r(y), r(z))
}

fn close(a: R64, b: f64, tolerance: f64) -> bool {
    (a.0 - b).abs() < tolerance
}

fn close_v3(a: Vector3<R64>, b: (f64, f64, f64), tolerance: f64) -> bool {
    close(a.x, b.0, tolerance) && close(a.y, b.1, tolerance) && close(a.z, b.2, tolerance)
}

fn close_q(a: Quaternion<R64>, b: (f64, f64, f64, f64), tolerance: f64) -> bool {
    close(a.s, b.0, tolerance) && close_v3(a.v, (b.1, b.2, b.3), tolerance)
}

fn m4_rows(m: &Matrix4<R64>) -> [[f64; 4]; 4] {
    [
        [m.x.x.0, m.y.x.0, m.z.x.0, m.w.x.0],
        [m.x.y.0, m.y.y.0, m.z.y.0, m.w.y.0],
        [m.x.z.0, m.y.z.0, m.z.z.0, m.w.z.0],
        [m.x.w.0, m.y.w.0, m.z.w.0, m.w.w.0],
    ]
}

// Scalars

#[test]
fn scalar_constants() {
    assert_eq!(ratio::<R64>(1, 2), r(0.5));
    assert_eq!(ratio::<R64>(9995, 10000), r(0.9995));
    assert_eq!(ratio::<R64>(499, 1000), r(0.499));
    assert_eq!(ratio::<R32>(499, 1000), Real(0.499f32));
    assert_eq!(ratio::<R32>(9995, 10000), Real(0.9995f32));
    assert_eq!(recip(r(4.0)), r(0.25));
    assert_eq!(recip(r(0.0)), r(f64::INFINITY));
    assert_eq!(quot(r(1.0), r(8.0)), r(0.125));
    assert_eq!(modulo(r(7.5), r(2.0)), r(1.5));
    assert!(gt(r(2.0), r(1.0)));
    assert!(!gt(r(1.0), r(1.0)));
    assert!(!gt(r(f64::NAN), r(1.0)));
    assert!(!gt(r(1.0), r(f64::NAN)));
    assert!(ge(r(2.0), r(1.0)));
    assert!(ge(r(1.0), r(1.0)));
    assert!(!ge(r(0.5), r(1.0)));
    assert!(!ge(r(f64::NAN), r(f64::NAN)));
}

#[test]
fn clamp_to_the_domain_of_the_arccosine() {
    assert_eq!(clamp_unit(r(0.25)), r(0.25));
    assert_eq!(clamp_unit(r(1.0)), r(1.0));
    assert_eq!(clamp_unit(r(1.0000000000000002)), r(1.0));
    assert_eq!(clamp_unit(r(-1.0)), r(-1.0));
    assert_eq!(clamp_unit(r(-1.5)), r(-1.0));
    assert_eq!(clamp_unit(r(7.0)), r(1.0));
}

// Approximate equality

#[test]
fn default_tolerance() {
    assert_eq!(<R64 as ApproxEq>::approx_epsilon(), r(1.0e-16));
    assert_eq!(<Vector3<R64> as ApproxEq>::approx_epsilon(), r(1.0e-16));
    assert_eq!(<Rad<R64> as ApproxEq>::approx_epsilon(), r(1.0e-16));
}

#[test]
fn approximate_equality_of_scalars() {
    assert!(r(1.0).approx_eq(&r(1.0)));
    assert!(r(0.0).approx_eq(&r(0.0)));
    assert!(!r(1.0).approx_eq(&r(1.0000000000000002)));
    assert!(r(0.0).approx_eq(&r(1.0e-17)));
    assert!(!r(0.0).approx_eq(&r(1.0e-15)));
    assert!(r(1.0).approx_eq_eps(&r(1.1), &r(0.2)));
    assert!(r(1.1).approx_eq_eps(&r(1.0), &r(0.2)));
    assert!(!r(1.0).approx_eq_eps(&r(1.3), &r(0.2)));
    // the difference has to stay strictly below the tolerance
    assert!(!r(0.0).approx_eq_eps(&r(1.0), &r(1.0)));
    assert!(!r(f64::NAN).approx_eq_eps(&r(f64::NAN), &r(1.0)));
}

#[test]
fn approximate_equality_of_composites() {
    let e = r(0.01);
    assert!(v2(1.0, 2.0).approx_eq_eps(&v2(1.001, 1.999), &e));
    assert!(!v2(1.0, 2.0).approx_eq_eps(&v2(1.001, 2.1), &e));
    assert!(v3(1.0, 2.0, 3.0).approx_eq_eps(&v3(1.001, 1.999, 3.001), &e));
    assert!(!v3(1.0, 2.0, 3.0).approx_eq_eps(&v3(1.001, 1.999, 3.1), &e));
    assert!(v4(1.0, 2.0, 3.0, 4.0).approx_eq_eps(&v4(1.0, 2.0, 3.0, 4.001), &e));
    assert!(!v4(1.0, 2.0, 3.0, 4.0).approx_eq_eps(&v4(1.1, 2.0, 3.0, 4.0), &e));
    assert!(p3(1.0, 2.0, 3.0).approx_eq_eps(&p3(1.001, 1.999, 3.001), &e));
    assert!(!p3(1.0, 2.0, 3.0).approx_eq_eps(&p3(1.1, 2.0, 3.0), &e));
    assert!(Point2::new(r(1.0), r(2.0)).approx_eq_eps(&Point2::new(r(1.001), r(2.0)), &e));
    assert!(!Point2::new(r(1.0), r(2.0)).approx_eq_eps(&Point2::new(r(1.0), r(2.1)), &e));
    assert!(q(1.0, 2.0, 3.0, 4.0).approx_eq_eps(&q(1.001, 2.0, 3.0, 3.999), &e));
    assert!(!q(1.0, 2.0, 3.0, 4.0).approx_eq_eps(&q(1.1, 2.0, 3.0, 4.0), &e));
    assert!(!q(1.0, 2.0, 3.0, 4.0).approx_eq_eps(&q(1.0, 2.0, 3.0, 4.1), &e));
    assert!(Rad(r(1.0)).approx_eq_eps(&Rad(r(1.001)), &e));
    assert!(!Deg(r(1.0)).approx_eq_eps(&Deg(r(1.1)), &e));
    assert!(v3(1.0, 2.0, 3.0).approx_eq(&v3(1.0, 2.0, 3.0)));
}

// Angles

#[test]
fn degrees_to_radians_and_back() {
    assert_eq!(Rad::from(Deg(r(180.0))), Rad(r(PI)));
    assert_eq!(Rad::from(Deg(r(90.0))), Rad(r(PI / 2.0)));
    assert_eq!(Rad::from(Deg(r(1.0))), Rad(r(0.017453292519943295)));
    assert_eq!(Deg::from(Rad(r(PI))), Deg(r(180.0)));
    assert_eq!(Deg::from(Rad(r(1.0))), Deg(r(57.29577951308232)));
    assert_eq!(Deg(r(180.0)).to_rad(), Rad(r(PI)));
    assert_eq!(Deg::from_rad(Rad(r(PI))), Deg(r(180.0)));
    assert_eq!(Rad(r(2.0)).to_rad(), Rad(r(2.0)));
    assert_eq!(Rad::from_rad(Rad(r(2.0))), Rad(r(2.0)));
}

#[test]
fn angle_conversion_round_trip_in_single_precision() {
    let epsilon: R32 = Real(1.0e-6f32);
    for x in [0.0f32, 0.001, 0.25, -0.5, 0.75, 1.0, -1.0] {
        let there: Deg<R32> = Deg::from(Rad(Real(x)));
        let back: Rad<R32> = Rad::from(there);
        assert!(back.approx_eq_eps(&Rad(Real(x)), &epsilon));
    }
}

#[test]
fn angle_conversion_round_trip_in_double_precision() {
    let epsilon = r(1.0e-12);
    for x in [0.0, 0.001, 0.25, -0.5, 1.0, 3.0, -6.0, 100.0] {
        let there: Deg<R64> = Deg::from(Rad(r(x)));
        let back: Rad<R64> = Rad::from(there);
        assert!(back.approx_eq_eps(&Rad(r(x)), &epsilon));
    }
}

#[test]
fn parts_of_a_turn() {
    assert_eq!(Deg::<R64>::zero(), Deg(r(0.0)));
    assert_eq!(Deg::<R64>::full_turn(), Deg(r(360.0)));
    assert_eq!(Deg::<R64>::turn_div_2(), Deg(r(180.0)));
    assert_eq!(Deg::<R64>::turn_div_3(), Deg(r(120.0)));
    assert_eq!(Deg::<R64>::turn_div_4(), Deg(r(90.0)));
    assert_eq!(Deg::<R64>::turn_div_6(), Deg(r(60.0)));
    assert_eq!(Rad::<R64>::zero(), Rad(r(0.0)));
    assert_eq!(Rad::<R64>::full_turn(), Rad(r(2.0 * PI)));
    assert_eq!(Rad::<R64>::turn_div_2(), Rad(r(PI)));
    assert_eq!(Rad::<R64>::turn_div_3(), Rad(r(2.0943951023931953)));
    assert_eq!(Rad::<R64>::turn_div_4(), Rad(r(PI / 2.0)));
    assert_eq!(Rad::<R64>::turn_div_6(), Rad(r(1.0471975511965976)));
}

#[test]
fn trigonometry_goes_through_radians() {
    assert_eq!(Rad(r(0.5)).sin(), r(0.5f64.sin()));
    assert_eq!(Rad(r(0.5)).cos(), r(0.5f64.cos()));
    assert_eq!(Rad(r(0.5)).tan(), r(0.5f64.tan()));
    assert_eq!(Rad(r(0.5)).sin_cos(), (r(0.5f64.sin()), r(0.5f64.cos())));
    assert_eq!(Deg(r(90.0)).sin(), r(1.0));
    assert!(close(Deg(r(180.0)).cos(), -1.0, 1.0e-15));
    assert!(close(Deg(r(45.0)).tan(), 1.0, 1.0e-15));
    assert_eq!(Deg(r(30.0)).sin(), r((30.0 * (PI / 180.0)).sin()));
    let (s, c) = Deg(r(60.0)).sin_cos();
    assert!(close(s, 0.8660254037844386, 1.0e-15));
    assert!(close(c, 0.5, 1.0e-15));
}

#[test]
fn inverse_trigonometry_gives_an_angle() {
    assert_eq!(Rad::asin(r(1.0)), Rad(r(PI / 2.0)));
    assert_eq!(Rad::acos(r(1.0)), Rad(r(0.0)));
    assert_eq!(Rad::acos(r(0.0)), Rad(r(PI / 2.0)));
    assert_eq!(Rad::atan(r(1.0)), Rad(r(PI / 4.0)));
    assert_eq!(Rad::atan2(r(1.0), r(-1.0)), Rad(r(3.0 * PI / 4.0)));
    assert_eq!(Rad::atan2(r(-1.0), r(0.0)), Rad(r(-PI / 2.0)));
    assert_eq!(Deg::asin(r(1.0)), Deg(r(90.0)));
    assert_eq!(Deg::acos(r(1.0)), Deg(r(0.0)));
    assert_eq!(Deg::atan(r(1.0)), Deg(r(45.0)));
    assert_eq!(Deg::atan2(r(1.0), r(0.0)), Deg(r(90.0)));
    assert!(Rad::asin(r(2.0)).0 .0.is_nan());
}

#[test]
fn angle_arithmetic() {
    assert_eq!(Rad(r(1.0)) + Rad(r(2.0)), Rad(r(3.0)));
    assert_eq!(Rad(r(1.0)) - Rad(r(2.0)), Rad(r(-1.0)));
    assert_eq!(Rad(r(6.0)) / Rad(r(3.0)), r(2.0));
    assert_eq!(Rad(r(7.0)) % Rad(r(4.0)), Rad(r(3.0)));
    assert_eq!(Rad(r(2.0)) * r(3.0), Rad(r(6.0)));
    assert_eq!(Rad(r(6.0)) / r(3.0), Rad(r(2.0)));
    assert_eq!(-Rad(r(6.0)), Rad(r(-6.0)));
    assert_eq!(Rad(r(6.0)).div_s(r(4.0)), Rad(r(1.5)));
    assert_eq!(Deg(r(10.0)) + Deg(r(20.0)), Deg(r(30.0)));
    assert_eq!(Deg(r(10.0)) - Deg(r(20.0)), Deg(r(-10.0)));
    assert_eq!(Deg(r(90.0)) / Deg(r(360.0)), r(0.25));
    assert_eq!(Deg(r(370.0)) % Deg(r(360.0)), Deg(r(10.0)));
    assert_eq!(Deg(r(20.0)) * r(3.0), Deg(r(60.0)));
    assert_eq!(Deg(r(60.0)) / r(3.0), Deg(r(20.0)));
    assert_eq!(-Deg(r(60.0)), Deg(r(-60.0)));
    assert_eq!(Deg(r(60.0)).div_s(r(4.0)), Deg(r(15.0)));
    // no angle is brought back into a range
    assert_eq!(Deg(r(350.0)) + Deg(r(20.0)), Deg(r(370.0)));
}

#[test]
fn angle_arithmetic_in_place() {
    let mut a = Rad(r(1.0));
    a += Rad(r(2.0));
    assert_eq!(a, Rad(r(3.0)));
    a -= Rad(r(0.5));
    assert_eq!(a, Rad(r(2.5)));
    a *= r(4.0);
    assert_eq!(a, Rad(r(10.0)));
    a /= r(2.0);
    assert_eq!(a, Rad(r(5.0)));
    a %= Rad(r(3.0));
    assert_eq!(a, Rad(r(2.0)));
    let mut d = Deg(r(10.0));
    d += Deg(r(20.0));
    assert_eq!(d, Deg(r(30.0)));
    d -= Deg(r(5.0));
    assert_eq!(d, Deg(r(25.0)));
    d *= r(4.0);
    assert_eq!(d, Deg(r(100.0)));
    d /= r(2.0);
    assert_eq!(d, Deg(r(50.0)));
    d %= Deg(r(30.0));
    assert_eq!(d, Deg(r(20.0)));
}

// Vectors

#[test]
fn lengths() {
    assert_eq!(v2(3.0, 4.0).length2(), r(25.0));
    assert_eq!(v2(3.0, 4.0).length(), r(5.0));
    assert_eq!(v3(1.0, 2.0, 2.0).length2(), r(9.0));
    assert_eq!(v3(1.0, 2.0, 2.0).length(), r(3.0));
    assert_eq!(v4(1.0, 2.0, 2.0, 4.0).length(), r(5.0));
    assert_eq!(v3(0.0, 0.0, 0.0).length(), r(0.0));
}

#[test]
fn normalise() {
    // each component times the rounded reciprocal of the length
    assert_eq!(v2(3.0, 4.0).normalize(), v2(0.6000000000000001, 0.8));
    assert_eq!(v2(3.0, 4.0).normalize_to(r(10.0)), v2(6.0, 8.0));
    assert!(close(v3(1.0, 2.0, 3.0).normalize().length(), 1.0, 1.0e-15));
    assert!(close(v4(1.0, 2.0, 3.0, 4.0).normalize_to(r(7.0)).length(), 7.0, 1.0e-14));
    let mut v = v2(3.0, 4.0);
    v.normalize_self();
    assert_eq!(v, v2(0.6000000000000001, 0.8));
    let mut v = v2(3.0, 4.0);
    v.normalize_self_to(r(10.0));
    assert_eq!(v, v2(6.0, 8.0));
}

#[test]
fn normalising_the_zero_vector_is_not_guarded() {
    let n = v3(0.0, 0.0, 0.0).normalize();
    assert!(n.x.0.is_nan() && n.y.0.is_nan() && n.z.0.is_nan());
    let n = v2(0.0, 0.0).normalize_to(r(2.0));
    assert!(n.x.0.is_nan() && n.y.0.is_nan());
}

#[test]
fn linear_interpolation() {
    assert_eq!(v2(1.0, 2.0).lerp(v2(3.0, 6.0), r(0.5)), v2(2.0, 4.0));
    assert_eq!(v2(1.0, 2.0).lerp(v2(3.0, 6.0), r(0.0)), v2(1.0, 2.0));
    assert_eq!(v2(1.0, 2.0).lerp(v2(3.0, 6.0), r(1.0)), v2(3.0, 6.0));
    assert_eq!(v3(1.0, 2.0, 3.0).lerp(v3(5.0, 2.0, -1.0), r(0.25)), v3(2.0, 2.0, 2.0));
    assert_eq!(v2(1.0, 2.0).lerp(v2(3.0, 6.0), r(2.0)), v2(5.0, 10.0));
    let mut v = v4(0.0, 0.0, 0.0, 0.0);
    v.lerp_self(v4(4.0, 8.0, 12.0, 16.0), r(0.75));
    assert_eq!(v, v4(3.0, 6.0, 9.0, 12.0));
}

#[test]
fn angle_between_vectors() {
    // signed in the plane
    assert_eq!(v2(1.0, 0.0).angle(v2(0.0, 1.0)), Rad(r(PI / 2.0)));
    assert_eq!(v2(0.0, 1.0).angle(v2(1.0, 0.0)), Rad(r(-PI / 2.0)));
    assert_eq!(v2(1.0, 0.0).angle(v2(1.0, 1.0)), Rad(r(PI / 4.0)));
    // unsigned in space
    assert_eq!(v3(1.0, 0.0, 0.0).angle(v3(0.0, 1.0, 0.0)), Rad(r(PI / 2.0)));
    assert_eq!(v3(0.0, 1.0, 0.0).angle(v3(1.0, 0.0, 0.0)), Rad(r(PI / 2.0)));
    assert_eq!(v3(1.0, 0.0, 0.0).angle(v3(-1.0, 0.0, 0.0)), Rad(r(PI)));
    // by the arccosine in four dimensions
    assert_eq!(v4(1.0, 0.0, 0.0, 0.0).angle(v4(0.0, 0.0, 0.0, 1.0)), Rad(r(PI / 2.0)));
    assert_eq!(v4(2.0, 0.0, 0.0, 0.0).angle(v4(3.0, 0.0, 0.0, 0.0)), Rad(r(0.0)));
    assert!(v4(0.0, 0.0, 0.0, 0.0).angle(v4(1.0, 0.0, 0.0, 0.0)).0 .0.is_nan());
}

#[test]
fn perpendicular_vectors() {
    assert!(v2(1.0, 0.0).is_perpendicular(v2(0.0, 1.0)));
    assert!(v2(3.0, 6.0).is_perpendicular(v2(-2.0, 1.0)));
    assert!(!v2(1.0, 0.0).is_perpendicular(v2(1.0, 0.0)));
    assert!(v3(1.0, 2.0, 3.0).is_perpendicular(v3(3.0, 0.0, -1.0)));
    assert!(!v3(1.0, 2.0, 3.0).is_perpendicular(v3(3.0, 0.0, -1.000001)));
}

#[test]
fn cross_of_unit_vectors_is_exact_in_floating_point() {
    let (x, y, z) = (Vector3::<R64>::unit_x(), Vector3::<R64>::unit_y(), Vector3::<R64>::unit_z());
    assert_eq!(x.cross(y), z);
    assert_eq!(y.cross(z), x);
    assert_eq!(z.cross(x), y);
    assert_eq!(x, v3(1.0, 0.0, 0.0));
    assert_eq!(z, v3(0.0, 0.0, 1.0));
    let (x, y, z) = (Vector3::<R32>::unit_x(), Vector3::<R32>::unit_y(), Vector3::<R32>::unit_z());
    assert_eq!(x.cross(y), z);
}

#[test]
fn floating_point_vector_arithmetic() {
    assert_eq!(v3(1.0, 2.0, 3.0).dot(v3(4.0, 5.0, 6.0)), r(32.0));
    assert_eq!(v3(1.0, 2.0, 3.0).cross(v3(4.0, 5.0, 6.0)), v3(-3.0, 6.0, -3.0));
    assert_eq!(v2(1.0, 2.0).perp_dot(v2(3.0, 4.0)), r(-2.0));
    assert_eq!(v2(1.0, 2.0) / r(4.0), v2(0.25, 0.5));
    assert_eq!(v2(1.0, -2.0) / r(0.0), v2(f64::INFINITY, f64::NEG_INFINITY));
    assert_eq!(v2(7.5, -7.5) % r(2.0), v2(1.5, -1.5));
    assert_eq!(-v2(1.0, -2.0), v2(-1.0, 2.0));
}

#[test]
fn array_round_trip_in_floating_point() {
    let v = v4(0.1, -0.0, f64::MAX, f64::MIN_POSITIVE);
    let a: [R64; 4] = v.into();
    assert_eq!(Vector4::from(a), v);
    assert!(a[1].0.is_sign_negative());
    let p = p3(1.0e300, -1.0e-300, 0.3);
    let b: [R64; 3] = p.into();
    assert_eq!(Point3::from(b), p);
    let quaternion = q(0.1, 0.2, 0.3, 0.4);
    let c: [R64; 4] = quaternion.into();
    assert_eq!(c, [r(0.1), r(0.2), r(0.3), r(0.4)]);
    assert_eq!(Quaternion::from(c), quaternion);
    let t: (R64, R64, R64, R64) = quaternion.into();
    assert_eq!(Quaternion::from(t), quaternion);
}

// Points

#[test]
fn perspective_divide() {
    assert_eq!(Point3::from_homogeneous(v4(2.0, 4.0, 6.0, 2.0)), p3(1.0, 2.0, 3.0));
    assert_eq!(Point3::from_homogeneous(v4(1.0, 2.0, 3.0, 4.0)), p3(0.25, 0.5, 0.75));
    // each coordinate is divided by w, not multiplied by a rounded 1 / w
    assert_eq!(Point3::from_homogeneous(v4(3.0, 9.0, 49.0, 49.0)), p3(3.0 / 49.0, 9.0 / 49.0, 1.0));
    assert_eq!(p3(1.0, 2.0, 3.0).to_homogeneous(), v4(1.0, 2.0, 3.0, 1.0));
    assert_eq!(Point3::from_homogeneous(p3(1.5, -2.5, 3.5).to_homogeneous()), p3(1.5, -2.5, 3.5));
}

#[test]
fn perspective_divide_by_zero_is_not_guarded() {
    let p = Point3::from_homogeneous(v4(1.0, -1.0, 0.0, 0.0));
    assert_eq!(p.x, r(f64::INFINITY));
    assert_eq!(p.y, r(f64::NEG_INFINITY));
    assert!(p.z.0.is_nan());
}

#[test]
fn point_minimum_and_maximum_pass_over_nan() {
    let a = p3(1.0, f64::NAN, 3.0);
    let b = p3(2.0, 5.0, f64::NAN);
    assert_eq!(Point::min(a, b), p3(1.0, 5.0, 3.0));
    assert_eq!(Point::max(a, b), p3(2.0, 5.0, 3.0));
    let c = Point2::new(r(1.0), r(8.0));
    let d = Point2::new(r(2.0), r(7.0));
    assert_eq!(Point::min(c, d), Point2::new(r(1.0), r(7.0)));
    assert_eq!(Point::max(c, d), Point2::new(r(2.0), r(8.0)));
}

// Quaternions

#[test]
fn quaternion_constructors() {
    assert_eq!(q(1.0, 2.0, 3.0, 4.0), Quaternion { s: r(1.0), v: v3(2.0, 3.0, 4.0) });
    assert_eq!(Quaternion::from_sv(r(1.0), v3(2.0, 3.0, 4.0)), q(1.0, 2.0, 3.0, 4.0));
    assert_eq!(Quaternion::<R64>::zero(), q(0.0, 0.0, 0.0, 0.0));
    assert_eq!(Quaternion::<R64>::one(), q(1.0, 0.0, 0.0, 0.0));
    assert_eq!(<Quaternion<R64> as Rotation<Point3<R64>>>::one(), q(1.0, 0.0, 0.0, 0.0));
}

#[test]
fn quaternion_products_and_magnitudes() {
    let a = q(1.0, 2.0, 3.0, 4.0);
    let b = q(5.0, 6.0, 7.0, 8.0);
    assert_eq!(a.dot(b), r(70.0));
    assert_eq!(a.conjugate(), q(1.0, -2.0, -3.0, -4.0));
    assert_eq!(a.magnitude2(), r(30.0));
    assert_eq!(a.magnitude(), r(5.477225575051661));
    assert_eq!(a.mul_q(b), q(-60.0, 12.0, 30.0, 24.0));
    assert_eq!(b.mul_q(a), q(-60.0, 20.0, 14.0, 32.0));
    assert_eq!(a * b, q(-60.0, 12.0, 30.0, 24.0));
    assert_eq!(a.concat(&b), q(-60.0, 12.0, 30.0, 24.0));
    let mut c = a;
    c.concat_self(&b);
    assert_eq!(c, q(-60.0, 12.0, 30.0, 24.0));
}

#[test]
fn quaternion_arithmetic() {
    let a = q(1.0, 2.0, 3.0, 4.0);
    let b = q(5.0, 6.0, 7.0, 9.0);
    assert_eq!(a + b, q(6.0, 8.0, 10.0, 13.0));
    assert_eq!(a - b, q(-4.0, -4.0, -4.0, -5.0));
    assert_eq!(a * r(2.0), q(2.0, 4.0, 6.0, 8.0));
    assert_eq!(a / r(2.0), q(0.5, 1.0, 1.5, 2.0));
    assert_eq!(-a, q(-1.0, -2.0, -3.0, -4.0));
    assert_eq!(a.add_q(b), q(6.0, 8.0, 10.0, 13.0));
    assert_eq!(a.sub_q(b), q(-4.0, -4.0, -4.0, -5.0));
    assert_eq!(a.mul_s(r(2.0)), q(2.0, 4.0, 6.0, 8.0));
    assert_eq!(a.div_s(r(2.0)), q(0.5, 1.0, 1.5, 2.0));
    assert_eq!(a.neg_q(), q(-1.0, -2.0, -3.0, -4.0));
    let mut c = a;
    c += b;
    assert_eq!(c, q(6.0, 8.0, 10.0, 13.0));
    c -= a;
    assert_eq!(c, b);
    c *= r(2.0);
    assert_eq!(c, q(10.0, 12.0, 14.0, 18.0));
    c /= r(4.0);
    assert_eq!(c, q(2.5, 3.0, 3.5, 4.5));
}

#[test]
fn normalised_quaternion_has_magnitude_one() {
    let n = q(1.0, 2.0, 3.0, 4.0).normalize();
    assert_eq!(n, q(0.18257418583505536, 0.3651483716701107, 0.5477225575051661, 0.7302967433402214));
    assert!(n.magnitude().approx_eq_eps(&r(1.0), &r(1.0e-15)));
    for quaternion in [q(0.0, 0.0, 0.0, 2.0), q(-3.0, 0.5, 0.25, 1.0e-3), q(1.0e10, 1.0, -1.0, 7.0)] {
        assert!(quaternion.normalize().magnitude().approx_eq_eps(&r(1.0), &r(1.0e-15)));
    }
    let single: Quaternion<R32> = Quaternion::new(Real(1.0), Real(2.0), Real(3.0), Real(4.0));
    assert!(single.normalize().magnitude().approx_eq_eps(&Real(1.0f32), &Real(1.0e-6f32)));
}

#[test]
fn quaternion_inverse() {
    let a = q(1.0, 2.0, 3.0, 4.0);
    let inverse = a.invert();
    assert!(close_q(inverse, (1.0 / 30.0, -2.0 / 30.0, -3.0 / 30.0, -4.0 / 30.0), 1.0e-16));
    assert_eq!(a.invert_q(), inverse);
    assert!(close_q(a.mul_q(inverse), (1.0, 0.0, 0.0, 0.0), 1.0e-15));
    let mut b = a;
    b.invert_self();
    assert_eq!(b, inverse);
    let unit = q(0.5, 0.5, 0.5, 0.5);
    assert_eq!(unit.invert(), unit.conjugate());
}

#[test]
fn rotation_of_a_vector() {
    let quarter = Rad(r(PI / 2.0));
    // the axis is read as (z, y, x): a turn "about x" turns the plane of x and y
    let about_x: Quaternion<R64> = Rotation3::from_axis_angle(Vector3::unit_x(), quarter);
    assert_eq!(about_x, q(0.7071067811865476, 0.0, 0.0, 0.7071067811865475));
    let about_y: Quaternion<R64> = Rotation3::from_axis_angle(Vector3::unit_y(), quarter);
    assert_eq!(about_y, q(0.7071067811865476, 0.0, 0.7071067811865475, 0.0));
    let about_z: Quaternion<R64> = Rotation3::from_axis_angle(Vector3::unit_z(), quarter);
    assert_eq!(about_z, q(0.7071067811865476, 0.7071067811865475, 0.0, 0.0));
    assert_eq!(about_x.rotate_vector(v3(1.0, 0.0, 0.0)), v3(2.220446049250313e-16, 1.0, 0.0));
    assert_eq!(about_x.rotate_vector(v3(0.0, 1.0, 0.0)), v3(-1.0, 2.220446049250313e-16, 0.0));
    assert_eq!(about_x.rotate_vector(v3(0.0, 0.0, 1.0)), v3(0.0, 0.0, 1.0));
    assert_eq!(about_x * v3(1.0, 0.0, 0.0), about_x.mul_v(v3(1.0, 0.0, 0.0)));
    assert_eq!(about_x.rotate_point(p3(1.0, 0.0, 0.0)), p3(2.220446049250313e-16, 1.0, 0.0));
    assert_eq!(Quaternion::<R64>::one().rotate_vector(v3(1.0, 2.0, 3.0)), v3(1.0, 2.0, 3.0));
    assert_eq!(Quaternion::<R64>::from_angle_x(quarter), about_x);
    assert_eq!(Quaternion::<R64>::from_angle_y(quarter), about_y);
    assert_eq!(Quaternion::<R64>::from_angle_z(quarter), about_z);
}

#[test]
fn rotations_compose() {
    let quarter = Rad(r(PI / 2.0));
    let about_x: Quaternion<R64> = Rotation3::from_axis_angle(Vector3::unit_x(), quarter);
    let about_y: Quaternion<R64> = Rotation3::from_axis_angle(Vector3::unit_y(), quarter);
    let v = v3(0.0, 0.0, 1.0);
    // first about x, then about y
    let both = about_y.concat(&about_x);
    assert!(close_v3(both.rotate_vector(v), (1.0, 0.0, 0.0), 1.0e-6));
    assert!(close_v3(about_y.rotate_vector(about_x.rotate_vector(v)), (1.0, 0.0, 0.0), 1.0e-6));
    for (a, b, v) in [
        (q(1.0, 2.0, 3.0, 4.0).normalize(), q(-2.0, 0.5, 1.0, 0.0).normalize(), v3(0.3, -0.7, 2.0)),
        (q(0.0, 0.0, 1.0, 0.0), q(0.6, 0.0, 0.0, 0.8), v3(1.0, 1.0, 1.0)),
    ] {
        let together = a.concat(&b).rotate_vector(v);
        let in_turn = a.rotate_vector(b.rotate_vector(v));
        assert!(together.approx_eq_eps(&in_turn, &r(1.0e-14)));
    }
}

#[test]
fn normalised_linear_interpolation() {
    let a = q(1.0, 0.0, 0.0, 0.0);
    let b = q(0.0, 1.0, 0.0, 0.0);
    assert_eq!(a.nlerp(b, r(0.0)), a);
    assert_eq!(a.nlerp(b, r(1.0)), b);
    assert_eq!(a.nlerp(b, r(0.5)), q(0.7071067811865475, 0.7071067811865475, 0.0, 0.0));
}

#[test]
fn spherical_interpolation_along_the_arc() {
    let a = q(1.0, 0.0, 0.0, 0.0);
    let b = q(0.7071067811865476, 0.7071067811865475, 0.0, 0.0);
    assert_eq!(a.slerp(b, r(0.0)), a);
    assert_eq!(a.slerp(b, r(1.0)), b);
    assert_eq!(a.slerp(b, r(0.5)), q(0.9238795325112868, 0.3826834323650898, 0.0, 0.0));
    // half way along a quarter turn is an eighth of a turn
    assert!(close_q(a.slerp(b, r(0.5)), ((PI / 8.0).cos(), (PI / 8.0).sin(), 0.0, 0.0), 1.0e-15));
    let c = q(1.0, 2.0, 3.0, 4.0).normalize();
    let d = q(-1.0, 0.5, 2.0, 0.0).normalize();
    assert_eq!(c.slerp(d, r(0.0)), c);
    assert_eq!(c.slerp(d, r(1.0)), d);
    assert!(c.slerp(d, r(1.0)).approx_eq_eps(&d, &r(1.0e-6)));
    assert!(!c.slerp(d, r(1.0)).approx_eq_eps(&d.neg_q(), &r(1.0e-6)));
    assert!(c.slerp(d, r(0.3)).magnitude().approx_eq_eps(&r(1.0), &r(1.0e-15)));
}

#[test]
fn spherical_interpolation_of_nearly_parallel_quaternions() {
    let a = q(1.0, 0.0, 0.0, 0.0);
    let c = q(1.0, 0.01, 0.0, 0.0).normalize();
    assert!(a.dot(c).0 > 0.9995);
    for amount in [0.0, 0.3, 0.5, 1.0] {
        assert_eq!(a.slerp(c, r(amount)), a.nlerp(c, r(amount)));
    }
    assert_eq!(a.slerp(c, r(0.3)), q(0.9999955003453461, 0.0029998815078080302, 0.0, 0.0));
    // above the threshold the blend is normalised once more, so that at
    // amount zero the first quaternion comes back up to rounding only
    let n = q(1.0, 2.0, 3.0, 4.0).normalize();
    assert!(n.slerp(n, r(0.0)) != n);
    assert!(n.slerp(n, r(0.0)).approx_eq_eps(&n, &r(1.0e-15)));
    // at the threshold itself the arc is taken
    let at = q(0.9995, (1.0f64 - 0.9995 * 0.9995).sqrt(), 0.0, 0.0);
    assert_eq!(a.dot(at), r(0.9995));
    assert_eq!(a.slerp(at, r(0.5)), q(0.9998749921865231, 0.015811388300840747, 0.0, 0.0));
    assert_eq!(a.nlerp(at, r(0.5)), q(0.9998749921865234, 0.01581138830084075, 0.0, 0.0));
}

#[test]
fn quaternion_from_euler_angles() {
    assert_eq!(
        Quaternion::<R64>::from_euler(Rad(r(0.3)), Rad(r(0.2)), Rad(r(0.1))),
        q(0.981856172866081, 0.06407134770607116, 0.10602051106179562, 0.14357217502739192)
    );
    assert_eq!(
        Quaternion::<R64>::from_euler(Rad(r(0.3)), Rad(r(0.0)), Rad(r(0.0))),
        q(0.9887710779360422, 0.0, 0.0, 0.14943813247359922)
    );
    assert_eq!(
        Quaternion::<R64>::from_euler(Rad(r(0.0)), Rad(r(0.2)), Rad(r(0.0))),
        q(0.9950041652780258, 0.0, 0.09983341664682815, 0.0)
    );
    assert_eq!(
        Quaternion::<R64>::from_euler(Rad(r(0.0)), Rad(r(0.0)), Rad(r(0.1))),
        q(0.9987502603949663, 0.04997916927067833, 0.0, 0.0)
    );
    assert_eq!(Quaternion::<R64>::from_euler(Rad(r(0.0)), Rad(r(0.0)), Rad(r(0.0))), q(1.0, 0.0, 0.0, 0.0));
}

#[test]
fn euler_angles_of_a_quaternion() {
    let e = Quaternion::<R64>::from_euler(Rad(r(0.3)), Rad(r(0.2)), Rad(r(0.1))).to_euler();
    assert_eq!(e, (Rad(r(0.3000000000000001)), Rad(r(0.20000000000000004)), Rad(r(0.10000000000000002))));
    let e = Quaternion::<R64>::from_euler(Rad(r(-1.0)), Rad(r(2.0)), Rad(r(-3.0))).to_euler();
    assert!(close(e.0 .0, -1.0, 1.0e-14) && close(e.1 .0, 2.0, 1.0e-14) && close(e.2 .0, -3.0, 1.0e-14));
    assert_eq!(q(1.0, 0.0, 0.0, 0.0).to_euler(), (Rad(r(0.0)), Rad(r(0.0)), Rad(r(0.0))));
}

#[test]
fn euler_angles_at_the_poles() {
    // a pitch of a quarter turn upwards: the yaw comes from the polar
    // formula and there is no roll
    let north = Quaternion::<R64>::from_euler(Rad(r(PI / 2.0)), Rad(r(0.6)), Rad(r(0.0)));
    assert_eq!(north, q(0.6755249097756645, 0.20896434210788312, 0.20896434210788314, 0.6755249097756644));
    let (pitch, yaw, roll) = north.to_euler();
    assert_eq!(pitch, Rad(r(PI / 2.0)));
    assert_eq!(yaw, Rad(r(2.0 * 0.20896434210788312f64.atan2(0.6755249097756645))));
    assert_eq!(yaw, Rad(r(0.5999999999999999)));
    assert_eq!(roll, Rad(r(0.0)));
    // and downwards
    let south = Quaternion::<R64>::from_euler(Rad(r(-PI / 2.0)), Rad(r(0.6)), Rad(r(0.0)));
    let (pitch, yaw, roll) = south.to_euler();
    assert_eq!(pitch, Rad(r(-PI / 2.0)));
    assert_eq!(yaw, Rad(r(-0.5999999999999999)));
    assert_eq!(roll, Rad(r(0.0)));
    // the comparison is with the squared magnitude, so a quaternion that is
    // not normalised is at the pole as well
    let (pitch, yaw, roll) = north.mul_s(r(3.0)).to_euler();
    assert_eq!(pitch, Rad(r(PI / 2.0)));
    assert!(close(yaw.0, 0.6, 1.0e-15));
    assert_eq!(roll, Rad(r(0.0)));
}

#[test]
fn euler_angles_on_the_threshold_itself() {
    // x = y = 0: the test quantity is z * s, the squared magnitude z * z + s * s
    let on = q(3.0, 0.0, 0.0, 2.8159902128743988);
    let test = 2.8159902128743988f64 * 3.0;
    let unit = 2.8159902128743988f64 * 2.8159902128743988 + 3.0 * 3.0;
    assert_eq!(test, 0.499 * unit);
    let (pitch, yaw, roll) = on.to_euler();
    assert_eq!(pitch, Rad(r(PI / 2.0)));
    assert_eq!(yaw, Rad(r(0.0)));
    assert_eq!(roll, Rad(r(0.0)));
    let (pitch, yaw, roll) = q(-3.0, 0.0, 0.0, 2.8159902128743988).to_euler();
    assert_eq!(pitch, Rad(r(-PI / 2.0)));
    assert_eq!(yaw, Rad(r(2.0 * 0.0f64.atan2(-3.0))));
    assert_eq!(roll, Rad(r(0.0)));
}

#[test]
fn euler_angles_next_to_the_pole() {
    // with x = y = 0, the test quantity is z * s and the squared magnitude z * z + s * s
    let angle = |t: f64| (t / 2.0).sin() * (t / 2.0).cos();
    // 86 degrees of pitch: the closed formulas
    let near = q((0.5f64 * 1.5009831567151235).cos(), 0.0, 0.0, (0.5f64 * 1.5009831567151235).sin());
    assert!(angle(1.5009831567151235) < 0.499);
    let (pitch, yaw, roll) = near.to_euler();
    assert!(close(pitch.0, 1.5009831567151235, 1.0e-14));
    assert_eq!(yaw, Rad(r(0.0)));
    assert_eq!(roll, Rad(r(0.0)));
    // 89 degrees of pitch: beyond the threshold, a quarter turn is reported
    let at = q((0.5f64 * 1.5533430342749532).cos(), 0.0, 0.0, (0.5f64 * 1.5533430342749532).sin());
    assert!(angle(1.5533430342749532) > 0.499);
    let (pitch, yaw, roll) = at.to_euler();
    assert_eq!(pitch, Rad(r(PI / 2.0)));
    assert_eq!(yaw, Rad(r(0.0)));
    assert_eq!(roll, Rad(r(0.0)));
}

#[test]
fn quaternion_to_matrix() {
    let m = q(1.0, 2.0, 3.0, 4.0).to_matrix3();
    assert_eq!(
        m,
        Matrix3::new(
            r(-49.0), r(20.0), r(10.0),
            r(4.0), r(-39.0), r(28.0),
            r(22.0), r(20.0), r(-25.0),
        )
    );
    assert_eq!(Matrix3::from(q(1.0, 2.0, 3.0, 4.0)), m);
    assert_eq!(Rotation3::to_matrix(&q(1.0, 2.0, 3.0, 4.0)), m);
    let m4 = q(1.0, 2.0, 3.0, 4.0).to_matrix4();
    assert_eq!(
        m4,
        Matrix4::new(
            r(-49.0), r(20.0), r(10.0), r(0.0),
            r(4.0), r(-39.0), r(28.0), r(0.0),
            r(22.0), r(20.0), r(-25.0), r(0.0),
            r(0.0), r(0.0), r(0.0), r(1.0),
        )
    );
    assert_eq!(Matrix4::from(q(1.0, 2.0, 3.0, 4.0)), m4);
    assert_eq!(Matrix4::from(m), m4);
    assert_eq!(Quaternion::<R64>::one().to_matrix3(), Matrix3::one());
    assert_eq!(Basis3::from_quaternion(&q(1.0, 2.0, 3.0, 4.0)).mat, m);
    assert_eq!(Basis3::from(q(1.0, 2.0, 3.0, 4.0)).as_matrix(), &m);
}

#[test]
fn rotation_matrix_acts_as_the_quaternion() {
    let quaternion = q(1.0, 2.0, 3.0, 4.0).normalize();
    let v = v3(0.5, -1.5, 2.5);
    let by_matrix = quaternion.to_matrix3().mul_v(v);
    assert!(by_matrix.approx_eq_eps(&quaternion.rotate_vector(v), &r(1.0e-14)));
}

#[test]
fn matrix_to_quaternion() {
    for (x, y, z) in [(0.3, 0.2, 0.1), (3.0, 0.1, 0.2), (0.1, 3.0, 0.2), (0.2, 0.1, 3.0), (2.5, 2.5, 0.3)] {
        let quaternion = Quaternion::<R64>::from_euler(Rad(r(x)), Rad(r(y)), Rad(r(z)));
        let back = Quaternion::from_matrix3(quaternion.to_matrix3());
        assert!(back.approx_eq_eps(&quaternion, &r(1.0e-14)));
        assert_eq!(Quaternion::from(quaternion.to_matrix3()), back);
    }
    assert_eq!(Quaternion::from_matrix3(Matrix3::<R64>::one()), q(1.0, 0.0, 0.0, 0.0));
}

#[test]
fn quaternion_between_vectors_and_look_at() {
    let between: Quaternion<R64> = Rotation::between_vectors(v3(1.0, 0.0, 0.0), v3(0.0, 1.0, 0.0));
    assert_eq!(between, q(0.7071067811865475, 0.0, 0.0, 0.7071067811865475));
    assert!(close_v3(between.rotate_vector(v3(1.0, 0.0, 0.0)), (0.0, 1.0, 0.0), 1.0e-15));
    let ahead: Quaternion<R64> = Rotation::look_at(v3(0.0, 0.0, 1.0), v3(0.0, 1.0, 0.0));
    assert_eq!(ahead, q(1.0, 0.0, 0.0, 0.0));
    let aside: Quaternion<R64> = Rotation::look_at(v3(1.0, 0.0, 0.0), v3(0.0, 1.0, 0.0));
    assert!(close_v3(aside.rotate_vector(v3(1.0, 0.0, 0.0)), (0.0, 0.0, 1.0), 1.0e-15));
    assert!(close_v3(aside.rotate_vector(v3(0.0, 1.0, 0.0)), (0.0, 1.0, 0.0), 1.0e-15));
}

// Matrices

#[test]
fn matrix_constructors() {
    let m = Matrix2::new(r(1.0), r(2.0), r(3.0), r(4.0));
    assert_eq!(m.x, v2(1.0, 2.0));
    assert_eq!(m.y, v2(3.0, 4.0));
    assert_eq!(Matrix2::from_cols(v2(1.0, 2.0), v2(3.0, 4.0)), m);
    assert_eq!(m.mul_s(r(2.0)), Matrix2::new(r(2.0), r(4.0), r(6.0), r(8.0)));
    let n = Matrix3::from_cols(v3(1.0, 2.0, 3.0), v3(4.0, 5.0, 6.0), v3(7.0, 8.0, 9.0));
    assert_eq!(n, Matrix3::new(r(1.0), r(2.0), r(3.0), r(4.0), r(5.0), r(6.0), r(7.0), r(8.0), r(9.0)));
    assert_eq!(n.row(0), v3(1.0, 4.0, 7.0));
    assert_eq!(n.row(1), v3(2.0, 5.0, 8.0));
    assert_eq!(n.row(2), v3(3.0, 6.0, 9.0));
    assert_eq!(n.transpose(), Matrix3::from_cols(v3(1.0, 4.0, 7.0), v3(2.0, 5.0, 8.0), v3(3.0, 6.0, 9.0)));
    assert_eq!(n.trace(), r(15.0));
    assert_eq!(n.mul_s(r(2.0)).z, v3(14.0, 16.0, 18.0));
    assert_eq!(
        Matrix3::from(m),
        Matrix3::new(r(1.0), r(2.0), r(0.0), r(3.0), r(4.0), r(0.0), r(0.0), r(0.0), r(1.0))
    );
    assert_eq!(
        Matrix4::<R64>::one(),
        Matrix4::from_cols(v4(1.0, 0.0, 0.0, 0.0), v4(0.0, 1.0, 0.0, 0.0), v4(0.0, 0.0, 1.0, 0.0), v4(0.0, 0.0, 0.0, 1.0))
    );
}

#[test]
fn matrix_products() {
    let n = Matrix3::from_cols(v3(1.0, 2.0, 3.0), v3(4.0, 5.0, 6.0), v3(7.0, 8.0, 10.0));
    assert_eq!(n.mul_v(v3(1.0, 0.0, 0.0)), v3(1.0, 2.0, 3.0));
    assert_eq!(n.mul_v(v3(1.0, 2.0, 3.0)), v3(30.0, 36.0, 45.0));
    assert_eq!(n.mul_m(&Matrix3::one()), n);
    assert_eq!(Matrix3::one().mul_m(&n), n);
    let shear = Matrix3::from_cols(v3(1.0, 0.0, 0.0), v3(1.0, 1.0, 0.0), v3(0.0, 0.0, 1.0));
    assert_eq!(
        n.mul_m(&shear),
        Matrix3::from_cols(v3(1.0, 2.0, 3.0), v3(5.0, 7.0, 9.0), v3(7.0, 8.0, 10.0))
    );
    assert_eq!(
        shear.mul_m(&n),
        Matrix3::from_cols(v3(3.0, 2.0, 3.0), v3(9.0, 5.0, 6.0), v3(15.0, 8.0, 10.0))
    );
    assert_eq!(n.determinant(), r(-3.0));
    assert_eq!(Matrix3::<R64>::one().determinant(), r(1.0));
    let m = Matrix4::from_cols(
        v4(1.0, 2.0, 3.0, 4.0),
        v4(5.0, 6.0, 7.0, 8.0),
        v4(9.0, 10.0, 11.0, 12.0),
        v4(13.0, 14.0, 15.0, 16.0),
    );
    assert_eq!(m.row(1), v4(2.0, 6.0, 10.0, 14.0));
    assert_eq!(m.transpose().x, v4(1.0, 5.0, 9.0, 13.0));
    assert_eq!(m.mul_v(v4(1.0, 1.0, 1.0, 1.0)), v4(28.0, 32.0, 36.0, 40.0));
    assert_eq!(m.mul_m(&Matrix4::one()), m);
    assert_eq!(m.determinant(), r(0.0));
    assert_eq!(m.minor(0, 0), Matrix3::from_cols(v3(6.0, 7.0, 8.0), v3(10.0, 11.0, 12.0), v3(14.0, 15.0, 16.0)));
    assert_eq!(m.minor(3, 1), Matrix3::from_cols(v3(1.0, 3.0, 4.0), v3(5.0, 7.0, 8.0), v3(9.0, 11.0, 12.0)));
}

#[test]
fn matrix_inverse() {
    let m = Matrix4::from_cols(
        v4(2.0, 0.0, 0.0, 0.0),
        v4(0.0, 4.0, 0.0, 0.0),
        v4(0.0, 0.0, 8.0, 0.0),
        v4(1.0, 2.0, 3.0, 1.0),
    );
    assert_eq!(m.determinant(), r(64.0));
    let inverse = m.invert().unwrap();
    assert_eq!(
        m4_rows(&inverse),
        [
            [0.5, 0.0, 0.0, -0.5],
            [0.0, 0.25, 0.0, -0.5],
            [0.0, 0.0, 0.125, -0.375],
            [0.0, 0.0, 0.0, 1.0],
        ]
    );
    assert_eq!(m4_rows(&m.mul_m(&inverse)), m4_rows(&Matrix4::one()));
    assert_eq!(Matrix4::<R64>::one().invert(), Some(Matrix4::one()));
    let general = Matrix4::from_cols(
        v4(1.0, 2.0, 0.0, 1.0),
        v4(0.0, 1.0, 3.0, 0.0),
        v4(2.0, 0.0, 1.0, 1.0),
        v4(1.0, 1.0, 0.0, 2.0),
    );
    let product = general.mul_m(&general.invert().unwrap());
    let rows = m4_rows(&product);
    for i in 0..4 {
        for j in 0..4 {
            let expected = if i == j { 1.0 } else { 0.0 };
            assert!((rows[i][j] - expected).abs() < 1.0e-14);
        }
    }
}

#[test]
fn singular_matrix_has_no_inverse() {
    let m = Matrix4::from_cols(
        v4(1.0, 2.0, 3.0, 4.0),
        v4(5.0, 6.0, 7.0, 8.0),
        v4(9.0, 10.0, 11.0, 12.0),
        v4(13.0, 14.0, 15.0, 16.0),
    );
    assert_eq!(m.invert(), None);
    let zero = Matrix4::from_cols(v4(0.0, 0.0, 0.0, 0.0), v4(0.0, 0.0, 0.0, 0.0), v4(0.0, 0.0, 0.0, 0.0), v4(0.0, 0.0, 0.0, 0.0));
    assert_eq!(zero.invert(), None);
}

#[test]
fn view_matrices() {
    assert_eq!(Matrix3::look_at(v3(0.0, 0.0, 1.0), v3(0.0, 1.0, 0.0)), Matrix3::one());
    let aside = Matrix3::look_at(v3(2.0, 0.0, 0.0), v3(0.0, 1.0, 0.0));
    assert_eq!(aside.row(0), v3(0.0, 0.0, -1.0));
    assert_eq!(aside.row(1), v3(0.0, 1.0, 0.0));
    assert_eq!(aside.row(2), v3(1.0, 0.0, 0.0));
    let view = Matrix4::look_at(p3(0.0, 0.0, 5.0), p3(0.0, 0.0, 0.0), v3(0.0, 1.0, 0.0));
    assert_eq!(
        m4_rows(&view),
        [
            [1.0, 0.0, 0.0, 0.0],
            [0.0, 1.0, 0.0, 0.0],
            [0.0, 0.0, 1.0, -5.0],
            [0.0, 0.0, 0.0, 1.0],
        ]
    );
}

// Transforms

type Placed = Decomposed<Vector3<R64>, Quaternion<R64>>;

fn placed(scale: f64, rot: Quaternion<R64>, disp: (f64, f64, f64)) -> Placed {
    Decomposed { scale: r(scale), rot: rot, disp: v3(disp.0, disp.1, disp.2) }
}

#[test]
fn decomposed_identity() {
    let one: Placed = Transform::one();
    assert_eq!(one.scale, r(1.0));
    assert_eq!(one.rot, q(1.0, 0.0, 0.0, 0.0));
    assert_eq!(one.disp, v3(0.0, 0.0, 0.0));
    assert_eq!(one.transform_point(p3(1.0, 2.0, 3.0)), p3(1.0, 2.0, 3.0));
    assert_eq!(one.transform_vector(v3(1.0, 2.0, 3.0)), v3(1.0, 2.0, 3.0));
}

#[test]
fn decomposed_scales_then_rotates_then_displaces() {
    let t = placed(2.0, Quaternion::one(), (1.0, 2.0, 3.0));
    assert_eq!(t.transform_point(p3(1.0, 1.0, 1.0)), p3(3.0, 4.0, 5.0));
    assert_eq!(t.transform_vector(v3(1.0, 1.0, 1.0)), v3(2.0, 2.0, 2.0));
    assert_eq!(t.transform_as_point(v3(1.0, 1.0, 1.0)), v3(3.0, 4.0, 5.0));
    let half_turn = q(0.0, 0.0, 0.0, 1.0);
    let u = placed(3.0, half_turn, (10.0, 0.0, 0.0));
    assert_eq!(u.transform_point(p3(1.0, 2.0, 4.0)), p3(7.0, -6.0, 12.0));
    assert_eq!(u.transform_vector(v3(1.0, 2.0, 4.0)), v3(-3.0, -6.0, 12.0));
}

#[test]
fn decomposed_concatenation() {
    let a = placed(2.0, Quaternion::one(), (1.0, 2.0, 3.0));
    let b = placed(3.0, q(0.0, 0.0, 0.0, 1.0), (10.0, 0.0, 0.0));
    let ab = a.concat(&b);
    assert_eq!(ab.scale, r(6.0));
    assert_eq!(ab.rot, q(0.0, 0.0, 0.0, 1.0));
    assert_eq!(ab.disp, v3(21.0, 2.0, 3.0));
    let p = p3(1.0, 2.0, 4.0);
    assert_eq!(ab.transform_point(p), a.transform_point(b.transform_point(p)));
    let ba = b.concat(&a);
    assert_eq!(ba.scale, r(6.0));
    assert_eq!(ba.disp, v3(7.0, -6.0, 9.0));
    assert_eq!(ba.transform_point(p), b.transform_point(a.transform_point(p)));
    let mut c = a;
    c.concat_self(&b);
    assert_eq!(c.disp, ab.disp);
    assert_eq!(c.scale, ab.scale);
}

#[test]
fn transform_without_scale_has_no_inverse() {
    assert!(placed(0.0, Quaternion::one(), (1.0, 2.0, 3.0)).invert().is_none());
    assert!(placed(-0.0, Quaternion::one(), (0.0, 0.0, 0.0)).invert().is_none());
    // zero within the default tolerance
    assert!(placed(1.0e-17, Quaternion::one(), (1.0, 2.0, 3.0)).invert().is_none());
    assert!(placed(-1.0e-17, Quaternion::one(), (1.0, 2.0, 3.0)).invert().is_none());
    assert!(placed(1.0e-15, Quaternion::one(), (1.0, 2.0, 3.0)).invert().is_some());
}

#[test]
fn transform_inverse_undoes_the_transform() {
    let forward = placed(2.0, Quaternion::one(), (1.0, 2.0, 3.0));
    let inverse = forward.invert().unwrap();
    assert_eq!(inverse.scale, r(0.5));
    assert_eq!(inverse.rot, q(1.0, 0.0, 0.0, 0.0));
    assert_eq!(inverse.disp, v3(-0.5, -1.0, -1.5));
    let identity = inverse.concat(&forward);
    assert!(identity.scale.approx_eq_eps(&r(1.0), &r(1.0e-15)));
    assert!(identity.rot.approx_eq_eps(&q(1.0, 0.0, 0.0, 0.0), &r(1.0e-15)));
    assert!(identity.disp.approx_eq_eps(&v3(0.0, 0.0, 0.0), &r(1.0e-15)));
    let turned = placed(4.0, q(1.0, 2.0, 3.0, 4.0).normalize(), (-1.0, 0.5, 8.0));
    let back = turned.invert().unwrap().concat(&turned);
    assert!(back.scale.approx_eq_eps(&r(1.0), &r(1.0e-14)));
    assert!(back.rot.approx_eq_eps(&q(1.0, 0.0, 0.0, 0.0), &r(1.0e-14)));
    assert!(back.disp.approx_eq_eps(&v3(0.0, 0.0, 0.0), &r(1.0e-14)));
    let p = p3(0.3, 0.4, 0.5);
    let there_and_back = turned.invert().unwrap().transform_point(turned.transform_point(p));
    assert!(there_and_back.approx_eq_eps(&p, &r(1.0e-14)));
    let mut in_place = forward;
    in_place.invert_self();
    assert_eq!(in_place.disp, inverse.disp);
    assert_eq!(in_place.scale, inverse.scale);
}

#[test]
fn decomposed_look_at() {
    let t: Placed = Transform::look_at(p3(0.0, 0.0, -5.0), p3(0.0, 0.0, 0.0), v3(0.0, 1.0, 0.0));
    assert_eq!(t.scale, r(1.0));
    assert_eq!(t.rot, q(1.0, 0.0, 0.0, 0.0));
    assert_eq!(t.disp, v3(0.0, 0.0, 5.0));
    assert_eq!(t.transform_point(p3(0.0, 0.0, -5.0)), p3(0.0, 0.0, 0.0));
}

#[test]
fn decomposed_to_matrix_and_components() {
    let t = placed(2.0, Quaternion::one(), (1.0, 2.0, 3.0));
    let m = t.to_matrix4();
    assert_eq!(
        m4_rows(&m),
        [
            [2.0, 0.0, 0.0, 1.0],
            [0.0, 2.0, 0.0, 2.0],
            [0.0, 0.0, 2.0, 3.0],
            [0.0, 0.0, 0.0, 1.0],
        ]
    );
    assert_eq!(Matrix4::from(t), m);
    let p = p3(1.0, 1.0, 1.0);
    assert_eq!(Point3::from_homogeneous(m.mul_v(p.to_homogeneous())), t.transform_point(p));
    let (scale, rot, disp) = <Placed as ToComponents<Point3<R64>, Quaternion<R64>>>::decompose(&t);
    assert_eq!(scale, v3(2.0, 2.0, 2.0));
    assert_eq!(rot, q(1.0, 0.0, 0.0, 0.0));
    assert_eq!(disp, v3(1.0, 2.0, 3.0));
}

#[test]
fn affine_matrix_transform() {
    let one: AffineMatrix3<R64> = Transform::one();
    assert_eq!(one.mat, Matrix4::one());
    assert_eq!(one.transform_point(p3(1.0, 2.0, 3.0)), p3(1.0, 2.0, 3.0));
    let t = AffineMatrix3 { mat: placed(2.0, Quaternion::one(), (1.0, 2.0, 3.0)).to_matrix4() };
    assert_eq!(t.transform_point(p3(1.0, 1.0, 1.0)), p3(3.0, 4.0, 5.0));
    assert_eq!(t.transform_vector(v3(1.0, 1.0, 1.0)), v3(2.0, 2.0, 2.0));
    assert_eq!(t.transform_as_point(v3(1.0, 1.0, 1.0)), v3(3.0, 4.0, 5.0));
    let twice = t.concat(&t);
    assert_eq!(twice.transform_point(p3(1.0, 1.0, 1.0)), p3(7.0, 10.0, 13.0));
    let inverse = t.invert().unwrap();
    assert_eq!(inverse.transform_point(p3(3.0, 4.0, 5.0)), p3(1.0, 1.0, 1.0));
    assert_eq!(Matrix4::from(t), t.mat);
    let flat = AffineMatrix3 { mat: Matrix4::from_cols(v4(1.0, 0.0, 0.0, 0.0), v4(2.0, 0.0, 0.0, 0.0), v4(0.0, 0.0, 1.0, 0.0), v4(0.0, 0.0, 0.0, 1.0)) };
    assert!(flat.invert().is_none());
    let view: AffineMatrix3<R64> = Transform::look_at(p3(0.0, 0.0, 5.0), p3(0.0, 0.0, 0.0), v3(0.0, 1.0, 0.0));
    assert_eq!(view.transform_point(p3(0.0, 0.0, 5.0)), p3(0.0, 0.0, 0.0));
}

// Rotations kept as matrices

#[test]
fn rotation_of_the_plane() {
    let quarter: Basis2<R64> = Rotation2::from_angle(Rad(r(PI / 2.0)));
    assert_eq!(quarter.mat, Matrix2::new(r(6.123233995736766e-17), r(1.0), r(-1.0), r(6.123233995736766e-17)));
    assert_eq!(quarter.to_matrix(), quarter.mat);
    assert_eq!(quarter.as_matrix(), &quarter.mat);
    let turned = quarter.rotate_vector(v2(1.0, 0.0));
    assert!(close(turned.x, 0.0, 1.0e-15) && close(turned.y, 1.0, 1.0e-15));
    let back = quarter.invert().rotate_vector(turned);
    assert!(close(back.x, 1.0, 1.0e-15) && close(back.y, 0.0, 1.0e-15));
    let half = quarter.concat(&quarter).rotate_vector(v2(1.0, 0.0));
    assert!(close(half.x, -1.0, 1.0e-15) && close(half.y, 0.0, 1.0e-15));
    let one: Basis2<R64> = Rotation::one();
    assert_eq!(one.rotate_vector(v2(3.0, 4.0)), v2(3.0, 4.0));
    assert_eq!(one.rotate_point(Point2::new(r(3.0), r(4.0))), Point2::new(r(3.0), r(4.0)));
    let between: Basis2<R64> = Rotation::between_vectors(v2(1.0, 0.0), v2(0.0, 1.0));
    assert_eq!(between, quarter);
    let look: Basis2<R64> = Rotation::look_at(v2(0.0, 1.0), v2(1.0, 0.0));
    assert_eq!(look.mat, Matrix2::new(r(1.0), r(0.0), r(0.0), r(1.0)));
}

#[test]
fn decomposed_transform_of_the_plane() {
    let t: Decomposed<Vector2<R64>, Basis2<R64>> =
        Decomposed { scale: r(2.0), rot: Rotation::one(), disp: v2(5.0, 6.0) };
    assert_eq!(t.transform_point(Point2::new(r(1.0), r(1.0))), Point2::new(r(7.0), r(8.0)));
    assert_eq!(t.transform_vector(v2(1.0, 1.0)), v2(2.0, 2.0));
    let m = t.to_matrix3();
    assert_eq!(m, Matrix3::from_cols(v3(2.0, 0.0, 0.0), v3(0.0, 2.0, 0.0), v3(5.0, 6.0, 1.0)));
    assert_eq!(Matrix3::from(t), m);
    let inverse = t.invert().unwrap();
    assert_eq!(inverse.scale, r(0.5));
    assert_eq!(inverse.disp, v2(-2.5, -3.0));
    assert_eq!(inverse.transform_point(Point2::new(r(7.0), r(8.0))), Point2::new(r(1.0), r(1.0)));
    let none: Decomposed<Vector2<R64>, Basis2<R64>> =
        Decomposed { scale: r(0.0), rot: Rotation::one(), disp: v2(5.0, 6.0) };
    assert!(none.invert().is_none());
}

#[test]
fn rotation_of_space_as_a_matrix() {
    let quarter = Rad(r(PI / 2.0));
    let q_x: Quaternion<R64> = Rotation3::from_axis_angle(Vector3::unit_x(), quarter);
    let b_x: Basis3<R64> = Rotation3::from_axis_angle(Vector3::unit_x(), quarter);
    assert_eq!(b_x.mat, q_x.to_matrix3());
    assert_eq!(b_x.to_matrix(), q_x.to_matrix3());
    let v = v3(0.5, -1.5, 2.5);
    assert!(b_x.rotate_vector(v).approx_eq_eps(&q_x.rotate_vector(v), &r(1.0e-15)));
    assert!(b_x.invert().rotate_vector(b_x.rotate_vector(v)).approx_eq_eps(&v, &r(1.0e-15)));
    let q_e: Quaternion<R64> = Rotation3::from_euler(Rad(r(0.3)), Rad(r(0.2)), Rad(r(0.1)));
    let b_e: Basis3<R64> = Rotation3::from_euler(Rad(r(0.3)), Rad(r(0.2)), Rad(r(0.1)));
    assert_eq!(b_e.mat, q_e.to_matrix3());
    let together = b_e.concat(&b_x).rotate_vector(v);
    assert!(together.approx_eq_eps(&q_e.concat(&q_x).rotate_vector(v), &r(1.0e-14)));
    let one: Basis3<R64> = Rotation::one();
    assert_eq!(one.mat, Matrix3::one());
    let between: Basis3<R64> = Rotation::between_vectors(v3(1.0, 0.0, 0.0), v3(0.0, 1.0, 0.0));
    let turned = between.rotate_vector(v3(1.0, 0.0, 0.0));
    assert!(close_v3(turned, (0.0, 1.0, 0.0), 1.0e-15));
    let look: Basis3<R64> = Rotation::look_at(v3(0.0, 0.0, 1.0), v3(0.0, 1.0, 0.0));
    assert_eq!(look.mat, Matrix3::one());
}

#[test]
fn floating_point_map() {
    let mut v = v3(1.0, 4.0, 9.0);
    assert_eq!(v.map(|x| x.sqrt()), v3(1.0, 2.0, 3.0));
    let mut quaternion = q(1.0, 2.0, 3.0, 4.0);
    assert_eq!(quaternion.map(|x| x.mul(x)), q(1.0, 4.0, 9.0, 16.0));
    assert_eq!(quaternion, q(1.0, 4.0, 9.0, 16.0));
}
