//! Square matrices, stored as columns.
//!
//! The entry in column `c` and row `r` is the component `r` of the column
//! vector `c`; the constructors take the entries column by column.
use vstd::prelude::*;
use crate::angle::{Angle, Rad};
use crate::approx::{ApproxEq, default_epsilon_spec};
use crate::array::{Array1, Array2};
use crate::num::{BaseFloat, BaseNum, recip, recip_spec};
use crate::point::{Point, Point3};
use crate::vector::{EuclideanVector, Vector, Vector2, Vector3, Vector4, normalize_spec};

verus! {

/// A 2 x 2 matrix: its two columns.
#[derive(PartialEq, Eq, Hash, Debug)]
pub struct Matrix2<S> {
    pub x: Vector2<S>,
    pub y: Vector2<S>,
}

/// A 3 x 3 matrix: its three columns.
#[derive(PartialEq, Eq, Hash, Debug)]
pub struct Matrix3<S> {
    pub x: Vector3<S>,
    pub y: Vector3<S>,
    pub z: Vector3<S>,
}

/// A 4 x 4 matrix: its four columns.
#[derive(PartialEq, Eq, Hash, Debug)]
pub struct Matrix4<S> {
    pub x: Vector4<S>,
    pub y: Vector4<S>,
    pub z: Vector4<S>,
    pub w: Vector4<S>,
}

impl<S: Copy> Clone for Matrix2<S> {
    fn clone(&self) -> (r: Matrix2<S>)
        ensures
            r == *self,
    {
        *self
    }
}

impl<S: Copy> Copy for Matrix2<S> {
}

impl<S: Copy> Clone for Matrix3<S> {
    fn clone(&self) -> (r: Matrix3<S>)
        ensures
            r == *self,
    {
        *self
    }
}

impl<S: Copy> Copy for Matrix3<S> {
}

impl<S: Copy> Clone for Matrix4<S> {
    fn clone(&self) -> (r: Matrix4<S>)
        ensures
            r == *self,
    {
        *self
    }
}

impl<S: Copy> Copy for Matrix4<S> {
}

impl<S> Matrix2<S> {
    /// The matrix with the given entries, column by column.
    pub fn new(c0r0: S, c0r1: S, c1r0: S, c1r1: S) -> (r: Matrix2<S>)
        ensures
            r == (Matrix2 { x: Vector2 { x: c0r0, y: c0r1 }, y: Vector2 { x: c1r0, y: c1r1 } }),
    {
        Matrix2 { x: Vector2::new(c0r0, c0r1), y: Vector2::new(c1r0, c1r1) }
    }

    /// The matrix with the given columns.
    pub fn from_cols(c0: Vector2<S>, c1: Vector2<S>) -> (r: Matrix2<S>)
        ensures
            r == (Matrix2 { x: c0, y: c1 }),
    {
        Matrix2 { x: c0, y: c1 }
    }
}

impl<S> Matrix3<S> {
    /// The matrix with the given entries, column by column.
    pub fn new(
        c0r0: S,
        c0r1: S,
        c0r2: S,
        c1r0: S,
        c1r1: S,
        c1r2: S,
        c2r0: S,
        c2r1: S,
        c2r2: S,
    ) -> (r: Matrix3<S>)
        ensures
            r == (Matrix3 {
                x: Vector3 { x: c0r0, y: c0r1, z: c0r2 },
                y: Vector3 { x: c1r0, y: c1r1, z: c1r2 },
                z: Vector3 { x: c2r0, y: c2r1, z: c2r2 },
            }),
    {
        Matrix3 {
            x: Vector3::new(c0r0, c0r1, c0r2),
            y: Vector3::new(c1r0, c1r1, c1r2),
            z: Vector3::new(c2r0, c2r1, c2r2),
        }
    }

    /// The matrix with the given columns.
    pub fn from_cols(c0: Vector3<S>, c1: Vector3<S>, c2: Vector3<S>) -> (r: Matrix3<S>)
        ensures
            r == (Matrix3 { x: c0, y: c1, z: c2 }),
    {
        Matrix3 { x: c0, y: c1, z: c2 }
    }
}

impl<S> Matrix4<S> {
    /// The matrix with the given entries, column by column.
    pub fn new(
        c0r0: S,
        c0r1: S,
        c0r2: S,
        c0r3: S,
        c1r0: S,
        c1r1: S,
        c1r2: S,
        c1r3: S,
        c2r0: S,
        c2r1: S,
        c2r2: S,
        c2r3: S,
        c3r0: S,
        c3r1: S,
        c3r2: S,
        c3r3: S,
    ) -> (r: Matrix4<S>)
        ensures
            r == (Matrix4 {
                x: Vector4 { x: c0r0, y: c0r1, z: c0r2, w: c0r3 },
                y: Vector4 { x: c1r0, y: c1r1, z: c1r2, w: c1r3 },
                z: Vector4 { x: c2r0, y: c2r1, z: c2r2, w: c2r3 },
                w: Vector4 { x: c3r0, y: c3r1, z: c3r2, w: c3r3 },
            }),
    {
        Matrix4 {
            x: Vector4::new(c0r0, c0r1, c0r2, c0r3),
            y: Vector4::new(c1r0, c1r1, c1r2, c1r3),
            z: Vector4::new(c2r0, c2r1, c2r2, c2r3),
            w: Vector4::new(c3r0, c3r1, c3r2, c3r3),
        }
    }

    /// The matrix with the given columns.
    pub fn from_cols(c0: Vector4<S>, c1: Vector4<S>, c2: Vector4<S>, c3: Vector4<S>) -> (r:
        Matrix4<S>)
        ensures
            r == (Matrix4 { x: c0, y: c1, z: c2, w: c3 }),
    {
        Matrix4 { x: c0, y: c1, z: c2, w: c3 }
    }
}

impl<S: BaseNum> Matrix2<S> {
    /// The identity matrix.
    pub open spec fn one_spec() -> Matrix2<S> {
        Matrix2 {
            x: Vector2 { x: S::one_spec(), y: S::zero_spec() },
            y: Vector2 { x: S::zero_spec(), y: S::one_spec() },
        }
    }

    /// Every entry times `scalar`.
    pub open spec fn mul_s_spec(self, scalar: S) -> Matrix2<S> {
        Matrix2 { x: self.x.mul_s_spec(scalar), y: self.y.mul_s_spec(scalar) }
    }

    /// The matrix whose columns are the rows of this one.
    pub open spec fn transpose_spec(self) -> Matrix2<S> {
        Matrix2 {
            x: Vector2 { x: self.x.x, y: self.y.x },
            y: Vector2 { x: self.x.y, y: self.y.y },
        }
    }

    /// The product of the matrix and the column vector `v`: each component
    /// is the dot product of a row with `v`.
    pub open spec fn mul_v_spec(self, v: Vector2<S>) -> Vector2<S> {
        Vector2 {
            x: self.transpose_spec().x.dot_spec(v),
            y: self.transpose_spec().y.dot_spec(v),
        }
    }

    /// The matrix product: each column is this matrix times a column of `other`.
    pub open spec fn mul_m_spec(self, other: Matrix2<S>) -> Matrix2<S> {
        Matrix2 { x: self.mul_v_spec(other.x), y: self.mul_v_spec(other.y) }
    }

    /// The identity matrix.
    pub fn one() -> (r: Matrix2<S>)
        ensures
            r == Self::one_spec(),
    {
        Matrix2::new(S::one(), S::zero(), S::zero(), S::one())
    }

    /// The matrix times a scalar.
    pub fn mul_s(&self, scalar: S) -> (r: Matrix2<S>)
        ensures
            r == self.mul_s_spec(scalar),
    {
        Matrix2 { x: self.x.mul_s(scalar), y: self.y.mul_s(scalar) }
    }

    /// The transposed matrix.
    pub fn transpose(&self) -> (r: Matrix2<S>)
        ensures
            r == self.transpose_spec(),
    {
        Matrix2::new(self.x.x, self.y.x, self.x.y, self.y.y)
    }

    /// The matrix times a column vector.
    pub fn mul_v(&self, v: Vector2<S>) -> (r: Vector2<S>)
        ensures
            r == self.mul_v_spec(v),
    {
        let t = self.transpose();
        Vector2::new(t.x.dot(v), t.y.dot(v))
    }

    /// The matrix product `self * other`.
    pub fn mul_m(&self, other: &Matrix2<S>) -> (r: Matrix2<S>)
        ensures
            r == self.mul_m_spec(*other),
    {
        Matrix2::from_cols(self.mul_v(other.x), self.mul_v(other.y))
    }
}

impl<S: BaseFloat> Matrix2<S> {
    /// The matrix of the rotation of the plane by `theta`: the columns
    /// `(cos, sin)` and `(-sin, cos)`.
    pub open spec fn from_angle_spec(theta: Rad<S>) -> Matrix2<S> {
        let (s, c) = (theta.0.sin_spec(), theta.0.cos_spec());
        Matrix2 { x: Vector2 { x: c, y: s }, y: Vector2 { x: s.neg_spec(), y: c } }
    }

    /// The matrix with the rows `up` and `dir`.
    pub open spec fn look_at_spec(dir: Vector2<S>, up: Vector2<S>) -> Matrix2<S> {
        (Matrix2 { x: up, y: dir }).transpose_spec()
    }

    /// The matrix of the rotation of the plane by `theta`.
    pub fn from_angle(theta: Rad<S>) -> (r: Matrix2<S>)
        ensures
            r == Self::from_angle_spec(theta),
    {
        let (s, c) = theta.sin_cos();
        Matrix2::new(c, s, s.neg(), c)
    }

    /// The matrix that takes `up` and `dir` for the directions of its rows.
    pub fn look_at(dir: Vector2<S>, up: Vector2<S>) -> (r: Matrix2<S>)
        ensures
            r == Self::look_at_spec(dir, up),
    {
        Matrix2::from_cols(up, dir).transpose()
    }
}

impl<S: BaseNum> Matrix3<S> {
    /// The identity matrix.
    pub open spec fn one_spec() -> Matrix3<S> {
        let (o, z) = (S::one_spec(), S::zero_spec());
        Matrix3 {
            x: Vector3 { x: o, y: z, z: z },
            y: Vector3 { x: z, y: o, z: z },
            z: Vector3 { x: z, y: z, z: o },
        }
    }

    /// Every entry times `scalar`.
    pub open spec fn mul_s_spec(self, scalar: S) -> Matrix3<S> {
        Matrix3 {
            x: self.x.mul_s_spec(scalar),
            y: self.y.mul_s_spec(scalar),
            z: self.z.mul_s_spec(scalar),
        }
    }

    /// Row `r` of the matrix, for `r` from 0 to 2.
    pub open spec fn row_spec(self, r: int) -> Vector3<S> {
        if r == 0 {
            Vector3 { x: self.x.x, y: self.y.x, z: self.z.x }
        } else if r == 1 {
            Vector3 { x: self.x.y, y: self.y.y, z: self.z.y }
        } else {
            Vector3 { x: self.x.z, y: self.y.z, z: self.z.z }
        }
    }

    /// The matrix whose columns are the rows of this one.
    pub open spec fn transpose_spec(self) -> Matrix3<S> {
        Matrix3 { x: self.row_spec(0), y: self.row_spec(1), z: self.row_spec(2) }
    }

    /// The product of the matrix and the column vector `v`: each component
    /// is the dot product of a row with `v`.
    pub open spec fn mul_v_spec(self, v: Vector3<S>) -> Vector3<S> {
        Vector3 {
            x: self.row_spec(0).dot_spec(v),
            y: self.row_spec(1).dot_spec(v),
            z: self.row_spec(2).dot_spec(v),
        }
    }

    /// The matrix product: each column is this matrix times a column of `other`.
    pub open spec fn mul_m_spec(self, other: Matrix3<S>) -> Matrix3<S> {
        Matrix3 {
            x: self.mul_v_spec(other.x),
            y: self.mul_v_spec(other.y),
            z: self.mul_v_spec(other.z),
        }
    }

    /// The sum of the entries on the diagonal.
    pub open spec fn trace_spec(self) -> S {
        self.x.x.add_spec(self.y.y).add_spec(self.z.z)
    }

    /// The determinant, expanded along the first row.
    pub open spec fn determinant_spec(self) -> S {
        self.x.x.mul_spec(self.y.y.mul_spec(self.z.z).sub_spec(self.z.y.mul_spec(self.y.z))).sub_spec(
            self.y.x.mul_spec(self.x.y.mul_spec(self.z.z).sub_spec(self.z.y.mul_spec(self.x.z))),
        ).add_spec(
            self.z.x.mul_spec(self.x.y.mul_spec(self.y.z).sub_spec(self.y.y.mul_spec(self.x.z))),
        )
    }

    /// The identity matrix.
    pub fn one() -> (r: Matrix3<S>)
        ensures
            r == Self::one_spec(),
    {
        Matrix3::new(
            S::one(),
            S::zero(),
            S::zero(),
            S::zero(),
            S::one(),
            S::zero(),
            S::zero(),
            S::zero(),
            S::one(),
        )
    }

    /// The matrix times a scalar.
    pub fn mul_s(&self, scalar: S) -> (r: Matrix3<S>)
        ensures
            r == self.mul_s_spec(scalar),
    {
        Matrix3 { x: self.x.mul_s(scalar), y: self.y.mul_s(scalar), z: self.z.mul_s(scalar) }
    }

    /// Row `r` of the matrix.
    pub fn row(&self, r: usize) -> (v: Vector3<S>)
        requires
            r < 3,
        ensures
            v == self.row_spec(r as int),
    {
        if r == 0 {
            Vector3::new(self.x.x, self.y.x, self.z.x)
        } else if r == 1 {
            Vector3::new(self.x.y, self.y.y, self.z.y)
        } else if r == 2 {
            Vector3::new(self.x.z, self.y.z, self.z.z)
        } else {
            vstd::pervasive::unreached()
        }
    }

    /// The transposed matrix.
    pub fn transpose(&self) -> (r: Matrix3<S>)
        ensures
            r == self.transpose_spec(),
    {
        Matrix3::from_cols(self.row(0), self.row(1), self.row(2))
    }

    /// The matrix times a column vector.
    pub fn mul_v(&self, v: Vector3<S>) -> (r: Vector3<S>)
        ensures
            r == self.mul_v_spec(v),
    {
        Vector3::new(self.row(0).dot(v), self.row(1).dot(v), self.row(2).dot(v))
    }

    /// The matrix product `self * other`.
    pub fn mul_m(&self, other: &Matrix3<S>) -> (r: Matrix3<S>)
        ensures
            r == self.mul_m_spec(*other),
    {
        Matrix3::from_cols(self.mul_v(other.x), self.mul_v(other.y), self.mul_v(other.z))
    }

    /// The trace.
    pub fn trace(&self) -> (r: S)
        ensures
            r == self.trace_spec(),
    {
        self.x.x.add(self.y.y).add(self.z.z)
    }

    /// The determinant.
    pub fn determinant(&self) -> (r: S)
        ensures
            r == self.determinant_spec(),
    {
        self.x.x.mul(self.y.y.mul(self.z.z).sub(self.z.y.mul(self.y.z))).sub(
            self.y.x.mul(self.x.y.mul(self.z.z).sub(self.z.y.mul(self.x.z))),
        ).add(self.z.x.mul(self.x.y.mul(self.y.z).sub(self.y.y.mul(self.x.z))))
    }
}

impl<S: BaseFloat> Matrix3<S> {
    /// The rotation matrix that turns the view towards `dir`, with `up`
    /// upwards: its rows are the normalised side `up x dir`, the normalised
    /// `dir x side`, and the normalised `dir`.
    pub open spec fn look_at_spec(dir: Vector3<S>, up: Vector3<S>) -> Matrix3<S> {
        let dir = normalize_spec(dir);
        let side = normalize_spec(up.cross_spec(dir));
        let up = normalize_spec(dir.cross_spec(side));
        (Matrix3 { x: side, y: up, z: dir }).transpose_spec()
    }

    /// The rotation matrix that turns the view towards `dir`, with `up` upwards.
    pub fn look_at(dir: Vector3<S>, up: Vector3<S>) -> (r: Matrix3<S>)
        ensures
            r == Self::look_at_spec(dir, up),
    {
        let dir = dir.normalize();
        let side = up.cross(dir).normalize();
        let up = dir.cross(side).normalize();
        Matrix3::from_cols(side, up, dir).transpose()
    }
}

impl<S: BaseNum> Matrix4<S> {
    /// The identity matrix.
    pub open spec fn one_spec() -> Matrix4<S> {
        let (o, z) = (S::one_spec(), S::zero_spec());
        Matrix4 {
            x: Vector4 { x: o, y: z, z: z, w: z },
            y: Vector4 { x: z, y: o, z: z, w: z },
            z: Vector4 { x: z, y: z, z: o, w: z },
            w: Vector4 { x: z, y: z, z: z, w: o },
        }
    }

    /// Row `r` of the matrix, for `r` from 0 to 3.
    pub open spec fn row_spec(self, r: int) -> Vector4<S> {
        if r == 0 {
            Vector4 { x: self.x.x, y: self.y.x, z: self.z.x, w: self.w.x }
        } else if r == 1 {
            Vector4 { x: self.x.y, y: self.y.y, z: self.z.y, w: self.w.y }
        } else if r == 2 {
            Vector4 { x: self.x.z, y: self.y.z, z: self.z.z, w: self.w.z }
        } else {
            Vector4 { x: self.x.w, y: self.y.w, z: self.z.w, w: self.w.w }
        }
    }

    /// The matrix whose columns are the rows of this one.
    pub open spec fn transpose_spec(self) -> Matrix4<S> {
        Matrix4 {
            x: self.row_spec(0),
            y: self.row_spec(1),
            z: self.row_spec(2),
            w: self.row_spec(3),
        }
    }

    /// The product of the matrix and the column vector `v`: each component
    /// is the dot product of a row with `v`.
    pub open spec fn mul_v_spec(self, v: Vector4<S>) -> Vector4<S> {
        Vector4 {
            x: self.row_spec(0).dot_spec(v),
            y: self.row_spec(1).dot_spec(v),
            z: self.row_spec(2).dot_spec(v),
            w: self.row_spec(3).dot_spec(v),
        }
    }

    /// The matrix product: each column is this matrix times a column of `other`.
    pub open spec fn mul_m_spec(self, other: Matrix4<S>) -> Matrix4<S> {
        Matrix4 {
            x: self.mul_v_spec(other.x),
            y: self.mul_v_spec(other.y),
            z: self.mul_v_spec(other.z),
            w: self.mul_v_spec(other.w),
        }
    }

    /// The 3 x 3 matrix that is left when column `col` and row `row` are
    /// struck out, for `col` and `row` from 0 to 3.
    pub open spec fn minor_spec(self, col: int, row: int) -> Matrix3<S> {
        if col == 0 {
            Matrix3 {
                x: self.y.truncate_n_spec(row),
                y: self.z.truncate_n_spec(row),
                z: self.w.truncate_n_spec(row),
            }
        } else if col == 1 {
            Matrix3 {
                x: self.x.truncate_n_spec(row),
                y: self.z.truncate_n_spec(row),
                z: self.w.truncate_n_spec(row),
            }
        } else if col == 2 {
            Matrix3 {
                x: self.x.truncate_n_spec(row),
                y: self.y.truncate_n_spec(row),
                z: self.w.truncate_n_spec(row),
            }
        } else {
            Matrix3 {
                x: self.x.truncate_n_spec(row),
                y: self.y.truncate_n_spec(row),
                z: self.z.truncate_n_spec(row),
            }
        }
    }

    /// The determinant, expanded along the first row.
    pub open spec fn determinant_spec(self) -> S {
        self.x.x.mul_spec(self.minor_spec(0, 0).determinant_spec()).sub_spec(
            self.y.x.mul_spec(self.minor_spec(1, 0).determinant_spec()),
        ).add_spec(self.z.x.mul_spec(self.minor_spec(2, 0).determinant_spec())).sub_spec(
            self.w.x.mul_spec(self.minor_spec(3, 0).determinant_spec()),
        )
    }

    /// The identity matrix.
    pub fn one() -> (r: Matrix4<S>)
        ensures
            r == Self::one_spec(),
    {
        Matrix4::new(
            S::one(),
            S::zero(),
            S::zero(),
            S::zero(),
            S::zero(),
            S::one(),
            S::zero(),
            S::zero(),
            S::zero(),
            S::zero(),
            S::one(),
            S::zero(),
            S::zero(),
            S::zero(),
            S::zero(),
            S::one(),
        )
    }

    /// Row `r` of the matrix.
    pub fn row(&self, r: usize) -> (v: Vector4<S>)
        requires
            r < 4,
        ensures
            v == self.row_spec(r as int),
    {
        if r == 0 {
            Vector4::new(self.x.x, self.y.x, self.z.x, self.w.x)
        } else if r == 1 {
            Vector4::new(self.x.y, self.y.y, self.z.y, self.w.y)
        } else if r == 2 {
            Vector4::new(self.x.z, self.y.z, self.z.z, self.w.z)
        } else if r == 3 {
            Vector4::new(self.x.w, self.y.w, self.z.w, self.w.w)
        } else {
            vstd::pervasive::unreached()
        }
    }

    /// The transposed matrix.
    pub fn transpose(&self) -> (r: Matrix4<S>)
        ensures
            r == self.transpose_spec(),
    {
        Matrix4::from_cols(self.row(0), self.row(1), self.row(2), self.row(3))
    }

    /// The matrix times a column vector.
    pub fn mul_v(&self, v: Vector4<S>) -> (r: Vector4<S>)
        ensures
            r == self.mul_v_spec(v),
    {
        Vector4::new(
            self.row(0).dot(v),
            self.row(1).dot(v),
            self.row(2).dot(v),
            self.row(3).dot(v),
        )
    }

    /// The matrix product `self * other`.
    pub fn mul_m(&self, other: &Matrix4<S>) -> (r: Matrix4<S>)
        ensures
            r == self.mul_m_spec(*other),
    {
        Matrix4::from_cols(
            self.mul_v(other.x),
            self.mul_v(other.y),
            self.mul_v(other.z),
            self.mul_v(other.w),
        )
    }

    /// The 3 x 3 matrix that is left when column `col` and row `row` are struck out.
    pub fn minor(&self, col: usize, row: isize) -> (r: Matrix3<S>)
        requires
            col < 4,
            0 <= row <= 3,
        ensures
            r == self.minor_spec(col as int, row as int),
    {
        if col == 0 {
            Matrix3::from_cols(self.y.truncate_n(row), self.z.truncate_n(row), self.w.truncate_n(row))
        } else if col == 1 {
            Matrix3::from_cols(self.x.truncate_n(row), self.z.truncate_n(row), self.w.truncate_n(row))
        } else if col == 2 {
            Matrix3::from_cols(self.x.truncate_n(row), self.y.truncate_n(row), self.w.truncate_n(row))
        } else if col == 3 {
            Matrix3::from_cols(self.x.truncate_n(row), self.y.truncate_n(row), self.z.truncate_n(row))
        } else {
            vstd::pervasive::unreached()
        }
    }

    /// The determinant.
    pub fn determinant(&self) -> (r: S)
        ensures
            r == self.determinant_spec(),
    {
        self.x.x.mul(self.minor(0, 0).determinant()).sub(
            self.y.x.mul(self.minor(1, 0).determinant()),
        ).add(self.z.x.mul(self.minor(2, 0).determinant())).sub(
            self.w.x.mul(self.minor(3, 0).determinant()),
        )
    }
}

impl<S: BaseFloat> Matrix4<S> {
    /// Whether the matrix counts as singular: its determinant is zero within
    /// the default tolerance.
    pub open spec fn is_singular_spec(self) -> bool {
        self.determinant_spec().approx_eq_eps_spec(&S::zero_spec(), &default_epsilon_spec::<S>())
    }

    /// The entry of the inverse in column `col` and row `row`: the signed
    /// determinant of the transposed matrix without its column `col` and row
    /// `row`, times the reciprocal of the determinant.
    pub open spec fn cofactor_spec(self, col: int, row: int) -> S {
        let sign = if (col + row) % 2 == 1 {
            S::one_spec().neg_spec()
        } else {
            S::one_spec()
        };
        self.transpose_spec().minor_spec(col, row).determinant_spec().mul_spec(sign).mul_spec(
            recip_spec(self.determinant_spec()),
        )
    }

    /// The inverse by cofactors, whatever the determinant.
    pub open spec fn inverse_spec(self) -> Matrix4<S> {
        Matrix4 {
            x: Vector4 {
                x: self.cofactor_spec(0, 0),
                y: self.cofactor_spec(0, 1),
                z: self.cofactor_spec(0, 2),
                w: self.cofactor_spec(0, 3),
            },
            y: Vector4 {
                x: self.cofactor_spec(1, 0),
                y: self.cofactor_spec(1, 1),
                z: self.cofactor_spec(1, 2),
                w: self.cofactor_spec(1, 3),
            },
            z: Vector4 {
                x: self.cofactor_spec(2, 0),
                y: self.cofactor_spec(2, 1),
                z: self.cofactor_spec(2, 2),
                w: self.cofactor_spec(2, 3),
            },
            w: Vector4 {
                x: self.cofactor_spec(3, 0),
                y: self.cofactor_spec(3, 1),
                z: self.cofactor_spec(3, 2),
                w: self.cofactor_spec(3, 3),
            },
        }
    }

    /// The inverse, or nothing for a singular matrix.
    pub open spec fn invert_spec(self) -> Option<Matrix4<S>> {
        if self.is_singular_spec() {
            None
        } else {
            Some(self.inverse_spec())
        }
    }

    /// The view matrix of an observer at `eye` who looks at `center`, with
    /// `up` upwards.
    pub open spec fn look_at_spec(eye: Point3<S>, center: Point3<S>, up: Vector3<S>) -> Matrix4<S> {
        let f = normalize_spec(center.sub_p_spec(eye));
        let s = normalize_spec(f.cross_spec(up));
        let u = s.cross_spec(f);
        Matrix4 {
            x: Vector4 { x: s.x, y: u.x, z: f.x.neg_spec(), w: S::zero_spec() },
            y: Vector4 { x: s.y, y: u.y, z: f.y.neg_spec(), w: S::zero_spec() },
            z: Vector4 { x: s.z, y: u.z, z: f.z.neg_spec(), w: S::zero_spec() },
            w: Vector4 {
                x: eye.dot_spec(s).neg_spec(),
                y: eye.dot_spec(u).neg_spec(),
                z: eye.dot_spec(f),
                w: S::one_spec(),
            },
        }
    }

    /// One entry of the inverse; `t` is the transposed matrix and `inv_det`
    /// the reciprocal of the determinant.
    fn cofactor(&self, t: &Matrix4<S>, inv_det: S, col: usize, row: isize) -> (r: S)
        requires
            col < 4,
            0 <= row <= 3,
            *t == self.transpose_spec(),
            inv_det == recip_spec(self.determinant_spec()),
        ensures
            r == self.cofactor_spec(col as int, row as int),
    {
        let odd = (col == 0 || col == 2) != (row == 0 || row == 2);
        let sign = if odd {
            S::one().neg()
        } else {
            S::one()
        };
        t.minor(col, row).determinant().mul(sign).mul(inv_det)
    }

    /// The inverse of the matrix. A matrix whose determinant is zero within
    /// the default tolerance has none.
    pub fn invert(&self) -> (r: Option<Matrix4<S>>)
        ensures
            r == self.invert_spec(),
            r.is_none() <==> self.is_singular_spec(),
    {
        let det = self.determinant();
        let zero = S::zero();
        if det.approx_eq(&zero) {
            None
        } else {
            let inv_det = recip(det);
            let t = self.transpose();
            Some(
                Matrix4::new(
                    self.cofactor(&t, inv_det, 0, 0),
                    self.cofactor(&t, inv_det, 0, 1),
                    self.cofactor(&t, inv_det, 0, 2),
                    self.cofactor(&t, inv_det, 0, 3),
                    self.cofactor(&t, inv_det, 1, 0),
                    self.cofactor(&t, inv_det, 1, 1),
                    self.cofactor(&t, inv_det, 1, 2),
                    self.cofactor(&t, inv_det, 1, 3),
                    self.cofactor(&t, inv_det, 2, 0),
                    self.cofactor(&t, inv_det, 2, 1),
                    self.cofactor(&t, inv_det, 2, 2),
                    self.cofactor(&t, inv_det, 2, 3),
                    self.cofactor(&t, inv_det, 3, 0),
                    self.cofactor(&t, inv_det, 3, 1),
                    self.cofactor(&t, inv_det, 3, 2),
                    self.cofactor(&t, inv_det, 3, 3),
                ),
            )
        }
    }

    /// The view matrix of an observer at `eye` who looks at `center`, with
    /// `up` upwards.
    pub fn look_at(eye: Point3<S>, center: Point3<S>, up: Vector3<S>) -> (r: Matrix4<S>)
        ensures
            r == Self::look_at_spec(eye, center, up),
    {
        let f = center.sub_p(eye).normalize();
        let s = f.cross(up).normalize();
        let u = s.cross(f);
        Matrix4::new(
            s.x,
            u.x,
            f.x.neg(),
            S::zero(),
            s.y,
            u.y,
            f.y.neg(),
            S::zero(),
            s.z,
            u.z,
            f.z.neg(),
            S::zero(),
            eye.dot(s).neg(),
            eye.dot(u).neg(),
            eye.dot(f),
            S::one(),
        )
    }
}

impl<S: BaseNum> vstd::std_specs::convert::FromSpecImpl<Matrix2<S>> for Matrix3<S> {
    open spec fn obeys_from_spec() -> bool {
        true
    }

    open spec fn from_spec(m: Matrix2<S>) -> Matrix3<S> {
        let (o, z) = (S::one_spec(), S::zero_spec());
        Matrix3 {
            x: Vector3 { x: m.x.x, y: m.x.y, z: z },
            y: Vector3 { x: m.y.x, y: m.y.y, z: z },
            z: Vector3 { x: z, y: z, z: o },
        }
    }
}

impl<S: BaseNum> From<Matrix2<S>> for Matrix3<S> {
    /// The 3 x 3 matrix that acts as `m` on the first two coordinates and
    /// leaves the third in place.
    fn from(m: Matrix2<S>) -> (r: Matrix3<S>) {
        Matrix3::new(
            m.x.x,
            m.x.y,
            S::zero(),
            m.y.x,
            m.y.y,
            S::zero(),
            S::zero(),
            S::zero(),
            S::one(),
        )
    }
}

impl<S: BaseNum> vstd::std_specs::convert::FromSpecImpl<Matrix3<S>> for Matrix4<S> {
    open spec fn obeys_from_spec() -> bool {
        true
    }

    open spec fn from_spec(m: Matrix3<S>) -> Matrix4<S> {
        let (o, z) = (S::one_spec(), S::zero_spec());
        Matrix4 {
            x: Vector4 { x: m.x.x, y: m.x.y, z: m.x.z, w: z },
            y: Vector4 { x: m.y.x, y: m.y.y, z: m.y.z, w: z },
            z: Vector4 { x: m.z.x, y: m.z.y, z: m.z.z, w: z },
            w: Vector4 { x: z, y: z, z: z, w: o },
        }
    }
}

impl<S: BaseNum> From<Matrix3<S>> for Matrix4<S> {
    /// The 4 x 4 matrix that acts as `m` on the first three coordinates and
    /// leaves the fourth in place.
    fn from(m: Matrix3<S>) -> (r: Matrix4<S>) {
        Matrix4::new(
            m.x.x,
            m.x.y,
            m.x.z,
            S::zero(),
            m.y.x,
            m.y.y,
            m.y.z,
            S::zero(),
            m.z.x,
            m.z.y,
            m.z.z,
            S::zero(),
            S::zero(),
            S::zero(),
            S::zero(),
            S::one(),
        )
    }
}

impl<S: Copy + 'static> Array2<Vector2<S>, Vector2<S>, S> for Matrix2<S> {
    open spec fn cols(&self) -> Seq<Vector2<S>> {
        seq![self.x, self.y]
    }

    fn col(&self, c: usize) -> (r: &Vector2<S>) {
        match c {
            0 => &self.x,
            1 => &self.y,
            _ => vstd::pervasive::unreached(),
        }
    }

    fn col_mut(&mut self, c: usize) -> (r: &mut Vector2<S>) {
        match c {
            0 => &mut self.x,
            1 => &mut self.y,
            _ => vstd::pervasive::unreached(),
        }
    }

    fn map<F: Fn(&Vector2<S>) -> Vector2<S>>(&mut self, op: F) -> (r: Matrix2<S>) {
        proof {
            assert(self.cols()[0] == self.x);
            assert(self.cols()[1] == self.y);
        }
        let x = op(&self.x);
        let y = op(&self.y);
        self.x = x;
        self.y = y;
        *self
    }

    fn row(&self, r: usize) -> (row: Vector2<S>) {
        proof {
            assert(self.cols()[0] == self.x);
            assert(self.cols()[1] == self.y);
        }
        match r {
            0 => Vector2 { x: self.x.x, y: self.y.x },
            1 => Vector2 { x: self.x.y, y: self.y.y },
            _ => vstd::pervasive::unreached(),
        }
    }

    fn swap_rows(&mut self, a: usize, b: usize) {
        proof {
            assert(old(self).cols()[0] == old(self).x);
            assert(old(self).cols()[1] == old(self).y);
        }
        self.x.swap_elems(a, b);
        self.y.swap_elems(a, b);
    }
}

impl<S: Copy + 'static> Array2<Vector3<S>, Vector3<S>, S> for Matrix3<S> {
    open spec fn cols(&self) -> Seq<Vector3<S>> {
        seq![self.x, self.y, self.z]
    }

    fn col(&self, c: usize) -> (r: &Vector3<S>) {
        match c {
            0 => &self.x,
            1 => &self.y,
            2 => &self.z,
            _ => vstd::pervasive::unreached(),
        }
    }

    fn col_mut(&mut self, c: usize) -> (r: &mut Vector3<S>) {
        match c {
            0 => &mut self.x,
            1 => &mut self.y,
            2 => &mut self.z,
            _ => vstd::pervasive::unreached(),
        }
    }

    fn map<F: Fn(&Vector3<S>) -> Vector3<S>>(&mut self, op: F) -> (r: Matrix3<S>) {
        proof {
            assert(self.cols()[0] == self.x);
            assert(self.cols()[1] == self.y);
            assert(self.cols()[2] == self.z);
        }
        let x = op(&self.x);
        let y = op(&self.y);
        let z = op(&self.z);
        self.x = x;
        self.y = y;
        self.z = z;
        *self
    }

    fn row(&self, r: usize) -> (row: Vector3<S>) {
        proof {
            assert(self.cols()[0] == self.x);
            assert(self.cols()[1] == self.y);
            assert(self.cols()[2] == self.z);
        }
        match r {
            0 => Vector3 { x: self.x.x, y: self.y.x, z: self.z.x },
            1 => Vector3 { x: self.x.y, y: self.y.y, z: self.z.y },
            2 => Vector3 { x: self.x.z, y: self.y.z, z: self.z.z },
            _ => vstd::pervasive::unreached(),
        }
    }

    fn swap_rows(&mut self, a: usize, b: usize) {
        proof {
            assert(old(self).cols()[0] == old(self).x);
            assert(old(self).cols()[1] == old(self).y);
            assert(old(self).cols()[2] == old(self).z);
        }
        self.x.swap_elems(a, b);
        self.y.swap_elems(a, b);
        self.z.swap_elems(a, b);
    }
}

impl<S: Copy + 'static> Array2<Vector4<S>, Vector4<S>, S> for Matrix4<S> {
    open spec fn cols(&self) -> Seq<Vector4<S>> {
        seq![self.x, self.y, self.z, self.w]
    }

    fn col(&self, c: usize) -> (r: &Vector4<S>) {
        match c {
            0 => &self.x,
            1 => &self.y,
            2 => &self.z,
            3 => &self.w,
            _ => vstd::pervasive::unreached(),
        }
    }

    fn col_mut(&mut self, c: usize) -> (r: &mut Vector4<S>) {
        match c {
            0 => &mut self.x,
            1 => &mut self.y,
            2 => &mut self.z,
            3 => &mut self.w,
            _ => vstd::pervasive::unreached(),
        }
    }

    fn map<F: Fn(&Vector4<S>) -> Vector4<S>>(&mut self, op: F) -> (r: Matrix4<S>) {
        proof {
            assert(self.cols()[0] == self.x);
            assert(self.cols()[1] == self.y);
            assert(self.cols()[2] == self.z);
            assert(self.cols()[3] == self.w);
        }
        let x = op(&self.x);
        let y = op(&self.y);
        let z = op(&self.z);
        let w = op(&self.w);
        self.x = x;
        self.y = y;
        self.z = z;
        self.w = w;
        *self
    }

    fn row(&self, r: usize) -> (row: Vector4<S>) {
        proof {
            assert(self.cols()[0] == self.x);
            assert(self.cols()[1] == self.y);
            assert(self.cols()[2] == self.z);
            assert(self.cols()[3] == self.w);
        }
        match r {
            0 => Vector4 { x: self.x.x, y: self.y.x, z: self.z.x, w: self.w.x },
            1 => Vector4 { x: self.x.y, y: self.y.y, z: self.z.y, w: self.w.y },
            2 => Vector4 { x: self.x.z, y: self.y.z, z: self.z.z, w: self.w.z },
            3 => Vector4 { x: self.x.w, y: self.y.w, z: self.z.w, w: self.w.w },
            _ => vstd::pervasive::unreached(),
        }
    }

    fn swap_rows(&mut self, a: usize, b: usize) {
        proof {
            assert(old(self).cols()[0] == old(self).x);
            assert(old(self).cols()[1] == old(self).y);
            assert(old(self).cols()[2] == old(self).z);
            assert(old(self).cols()[3] == old(self).w);
        }
        self.x.swap_elems(a, b);
        self.y.swap_elems(a, b);
        self.z.swap_elems(a, b);
        self.w.swap_elems(a, b);
    }
}

} // verus!
