//! Column-major 4x4 matrices over fixed-point scalars, as the projection
//! constant handed to the draw passes: an accumulated free rotation composed
//! with a uniform scale and a fixed translation.

use vstd::prelude::*;

use crate::math::{fx_mul_spec, Fx, FX_SCALE};

verus! {

/// Largest raw magnitude a scalar may have to take part in a product.
pub const FX_MUL_BOUND: i64 = 0x4000_0000;

#[derive(Clone, Copy, Debug, PartialEq, Eq)]
#[verifier::ext_equal]
pub struct Vec4 {
    pub e: [Fx; 4],
}

/// Raw value of one component.
pub open spec fn vec_raw(v: Vec4, i: int) -> int {
    v.e[i].raw as int
}

/// Every component's raw value lies within `b`.
pub open spec fn vec_bounded(v: Vec4, b: int) -> bool {
    &&& -b <= vec_raw(v, 0) <= b
    &&& -b <= vec_raw(v, 1) <= b
    &&& -b <= vec_raw(v, 2) <= b
    &&& -b <= vec_raw(v, 3) <= b
}

/// Fixed-point dot product: the sum of the four truncated products.
pub open spec fn dot_spec(a: Vec4, b: Vec4) -> int {
    fx_mul_spec(vec_raw(a, 0), vec_raw(b, 0)) + fx_mul_spec(vec_raw(a, 1), vec_raw(b, 1))
        + fx_mul_spec(vec_raw(a, 2), vec_raw(b, 2)) + fx_mul_spec(vec_raw(a, 3), vec_raw(b, 3))
}

impl Vec4 {
    pub fn new(x: Fx, y: Fx, z: Fx, w: Fx) -> (r: Vec4)
        ensures
            r.e[0] == x,
            r.e[1] == y,
            r.e[2] == z,
            r.e[3] == w,
    {
        Vec4 { e: [x, y, z, w] }
    }

    pub fn zero() -> (r: Vec4)
        ensures
            vec_raw(r, 0) == 0,
            vec_raw(r, 1) == 0,
            vec_raw(r, 2) == 0,
            vec_raw(r, 3) == 0,
    {
        Vec4 { e: [Fx::zero(), Fx::zero(), Fx::zero(), Fx::zero()] }
    }

    pub fn x(&self) -> (r: Fx)
        ensures
            r == self.e[0],
    {
        self.e[0]
    }

    pub fn y(&self) -> (r: Fx)
        ensures
            r == self.e[1],
    {
        self.e[1]
    }

    pub fn z(&self) -> (r: Fx)
        ensures
            r == self.e[2],
    {
        self.e[2]
    }

    pub fn w(&self) -> (r: Fx)
        ensures
            r == self.e[3],
    {
        self.e[3]
    }

    pub fn dot(&self, other: &Vec4) -> (r: Fx)
        requires
            vec_bounded(*self, FX_MUL_BOUND as int),
            vec_bounded(*other, FX_MUL_BOUND as int),
        ensures
            r.raw == dot_spec(*self, *other),
    {
        let t0 = self.e[0].mul(other.e[0]);
        let t1 = self.e[1].mul(other.e[1]);
        let t2 = self.e[2].mul(other.e[2]);
        let t3 = self.e[3].mul(other.e[3]);
        t0.add(t1).add(t2).add(t3)
    }
}

#[derive(Clone, Copy, Debug, PartialEq, Eq)]
#[verifier::ext_equal]
pub struct Matrix {
    pub cols: [Vec4; 4],
}

/// Raw value at row `i`, column `j`.
pub open spec fn mat_raw(m: Matrix, i: int, j: int) -> int {
    m.cols[j].e[i].raw as int
}

/// Every entry's raw value lies within `b`.
pub open spec fn mat_bounded(m: Matrix, b: int) -> bool {
    forall|i: int, j: int| 0 <= i < 4 && 0 <= j < 4 ==> -b <= #[trigger] mat_raw(m, i, j) <= b
}

/// The four raw component values of a column, in order.
pub open spec fn col_vals(v: Vec4, a: int, b: int, c: int, d: int) -> bool {
    vec_raw(v, 0) == a && vec_raw(v, 1) == b && vec_raw(v, 2) == c && vec_raw(v, 3) == d
}

/// Entry `(i, j)` of the fixed-point product: row `i` of `a` dotted with
/// column `j` of `b`.
pub open spec fn mat_mul_entry(a: Matrix, b: Matrix, i: int, j: int) -> int {
    fx_mul_spec(mat_raw(a, i, 0), mat_raw(b, 0, j)) + fx_mul_spec(mat_raw(a, i, 1), mat_raw(b, 1, j))
        + fx_mul_spec(mat_raw(a, i, 2), mat_raw(b, 2, j)) + fx_mul_spec(
        mat_raw(a, i, 3),
        mat_raw(b, 3, j),
    )
}

/// Every entry of a product of bounded matrices is bounded: each is a sum
/// of four truncated products of bounded factors.
pub proof fn lemma_mat_mul_result_bounded(a: Matrix, b: Matrix, m1: int, m2: int)
    requires
        m1 >= 0,
        m2 >= 0,
        mat_bounded(a, m1),
        mat_bounded(b, m2),
    ensures
        forall|i: int, j: int|
            0 <= i < 4 && 0 <= j < 4 ==> -(4 * (m1 * m2 / FX_SCALE as int))
                <= #[trigger] mat_mul_entry(a, b, i, j) <= 4 * (m1 * m2 / FX_SCALE as int),
{
    assert forall|i: int, j: int| 0 <= i < 4 && 0 <= j < 4 implies -(4 * (m1 * m2
        / FX_SCALE as int)) <= #[trigger] mat_mul_entry(a, b, i, j) <= 4 * (m1 * m2
        / FX_SCALE as int) by {
        crate::math::lemma_fx_mul_bound(mat_raw(a, i, 0), mat_raw(b, 0, j), m1, m2);
        crate::math::lemma_fx_mul_bound(mat_raw(a, i, 1), mat_raw(b, 1, j), m1, m2);
        crate::math::lemma_fx_mul_bound(mat_raw(a, i, 2), mat_raw(b, 2, j), m1, m2);
        crate::math::lemma_fx_mul_bound(mat_raw(a, i, 3), mat_raw(b, 3, j), m1, m2);
    }
}

impl Matrix {
    pub fn new(col0: Vec4, col1: Vec4, col2: Vec4, col3: Vec4) -> (r: Matrix)
        ensures
            r.cols[0] == col0,
            r.cols[1] == col1,
            r.cols[2] == col2,
            r.cols[3] == col3,
    {
        Matrix { cols: [col0, col1, col2, col3] }
    }

    pub fn zero() -> (r: Matrix)
        ensures
            forall|i: int, j: int| 0 <= i < 4 && 0 <= j < 4 ==> #[trigger] mat_raw(r, i, j) == 0,
    {
        Matrix::new(Vec4::zero(), Vec4::zero(), Vec4::zero(), Vec4::zero())
    }

    pub fn identity() -> (r: Matrix)
        ensures
            forall|i: int, j: int|
                0 <= i < 4 && 0 <= j < 4 ==> #[trigger] mat_raw(r, i, j) == if i == j {
                    FX_SCALE as int
                } else {
                    0
                },
    {
        let o = Fx::one();
        let z = Fx::zero();
        Matrix::new(
            Vec4::new(o, z, z, z),
            Vec4::new(z, o, z, z),
            Vec4::new(z, z, o, z),
            Vec4::new(z, z, z, o),
        )
    }

    /// Rotation about the x axis, from the sine and cosine of the angle.
    pub fn rot_x(sin: Fx, cos: Fx) -> (r: Matrix)
        requires
            sin.raw > i64::MIN,
        ensures
            col_vals(r.cols[0], FX_SCALE as int, 0, 0, 0),
            col_vals(r.cols[1], 0, cos.raw as int, -sin.raw, 0),
            col_vals(r.cols[2], 0, sin.raw as int, cos.raw as int, 0),
            col_vals(r.cols[3], 0, 0, 0, FX_SCALE as int),
    {
        let o = Fx::one();
        let z = Fx::zero();
        Matrix::new(
            Vec4::new(o, z, z, z),
            Vec4::new(z, cos, sin.neg(), z),
            Vec4::new(z, sin, cos, z),
            Vec4::new(z, z, z, o),
        )
    }

    /// Rotation about the y axis, from the sine and cosine of the angle.
    pub fn rot_y(sin: Fx, cos: Fx) -> (r: Matrix)
        requires
            sin.raw > i64::MIN,
        ensures
            col_vals(r.cols[0], cos.raw as int, 0, sin.raw as int, 0),
            col_vals(r.cols[1], 0, FX_SCALE as int, 0, 0),
            col_vals(r.cols[2], -sin.raw, 0, cos.raw as int, 0),
            col_vals(r.cols[3], 0, 0, 0, FX_SCALE as int),
    {
        let o = Fx::one();
        let z = Fx::zero();
        Matrix::new(
            Vec4::new(cos, z, sin, z),
            Vec4::new(z, o, z, z),
            Vec4::new(sin.neg(), z, cos, z),
            Vec4::new(z, z, z, o),
        )
    }

    /// Rotation about the z axis, from the sine and cosine of the angle.
    pub fn rot_z(sin: Fx, cos: Fx) -> (r: Matrix)
        requires
            sin.raw > i64::MIN,
        ensures
            col_vals(r.cols[0], cos.raw as int, sin.raw as int, 0, 0),
            col_vals(r.cols[1], -sin.raw, cos.raw as int, 0, 0),
            col_vals(r.cols[2], 0, 0, FX_SCALE as int, 0),
            col_vals(r.cols[3], 0, 0, 0, FX_SCALE as int),
    {
        let o = Fx::one();
        let z = Fx::zero();
        Matrix::new(
            Vec4::new(cos, sin, z, z),
            Vec4::new(sin.neg(), cos, z, z),
            Vec4::new(z, z, o, z),
            Vec4::new(z, z, z, o),
        )
    }

    pub fn scale(x: Fx, y: Fx, z: Fx) -> (r: Matrix)
        ensures
            col_vals(r.cols[0], x.raw as int, 0, 0, 0),
            col_vals(r.cols[1], 0, y.raw as int, 0, 0),
            col_vals(r.cols[2], 0, 0, z.raw as int, 0),
            col_vals(r.cols[3], 0, 0, 0, FX_SCALE as int),
    {
        let zr = Fx::zero();
        Matrix::new(
            Vec4::new(x, zr, zr, zr),
            Vec4::new(zr, y, zr, zr),
            Vec4::new(zr, zr, z, zr),
            Vec4::new(zr, zr, zr, Fx::one()),
        )
    }

    pub fn translate(x: Fx, y: Fx, z: Fx) -> (r: Matrix)
        ensures
            col_vals(r.cols[0], FX_SCALE as int, 0, 0, x.raw as int),
            col_vals(r.cols[1], 0, FX_SCALE as int, 0, y.raw as int),
            col_vals(r.cols[2], 0, 0, FX_SCALE as int, z.raw as int),
            col_vals(r.cols[3], 0, 0, 0, FX_SCALE as int),
    {
        let o = Fx::one();
        let zr = Fx::zero();
        Matrix::new(
            Vec4::new(o, zr, zr, x),
            Vec4::new(zr, o, zr, y),
            Vec4::new(zr, zr, o, z),
            Vec4::new(zr, zr, zr, o),
        )
    }

    /// Row `i` as a vector.
    pub fn row(&self, row: usize) -> (r: Vec4)
        requires
            row < 4,
        ensures
            r.e[0].raw == mat_raw(*self, row as int, 0),
            r.e[1].raw == mat_raw(*self, row as int, 1),
            r.e[2].raw == mat_raw(*self, row as int, 2),
            r.e[3].raw == mat_raw(*self, row as int, 3),
    {
        Vec4::new(
            self.cols[0].e[row],
            self.cols[1].e[row],
            self.cols[2].e[row],
            self.cols[3].e[row],
        )
    }

    /// Column `col` as a vector.
    pub fn col(&self, col: usize) -> (r: Vec4)
        requires
            col < 4,
        ensures
            r == self.cols[col as int],
    {
        self.cols[col]
    }

    /// Fixed-point matrix product, entrywise the dot of a row with a column.
    pub fn mul(&self, other: &Matrix) -> (r: Matrix)
        requires
            mat_bounded(*self, FX_MUL_BOUND as int),
            mat_bounded(*other, FX_MUL_BOUND as int),
        ensures
            forall|i: int, j: int|
                0 <= i < 4 && 0 <= j < 4 ==> #[trigger] mat_raw(r, i, j) == mat_mul_entry(
                    *self,
                    *other,
                    i,
                    j,
                ),
    {
        proof {
            assert forall|i: int, j: int| 0 <= i < 4 && 0 <= j < 4 implies -(FX_MUL_BOUND as int)
                <= #[trigger] vec_raw(other.cols[j], i) <= FX_MUL_BOUND as int by {
                assert(-(FX_MUL_BOUND as int) <= mat_raw(*other, i, j) <= FX_MUL_BOUND as int);
            }
        }
        let r0 = self.row(0);
        let r1 = self.row(1);
        let r2 = self.row(2);
        let r3 = self.row(3);
        let c0 = Vec4::new(r0.dot(&other.cols[0]), r1.dot(&other.cols[0]), r2.dot(&other.cols[0]), r3.dot(&other.cols[0]));
        let c1 = Vec4::new(r0.dot(&other.cols[1]), r1.dot(&other.cols[1]), r2.dot(&other.cols[1]), r3.dot(&other.cols[1]));
        let c2 = Vec4::new(r0.dot(&other.cols[2]), r1.dot(&other.cols[2]), r2.dot(&other.cols[2]), r3.dot(&other.cols[2]));
        let c3 = Vec4::new(r0.dot(&other.cols[3]), r1.dot(&other.cols[3]), r2.dot(&other.cols[3]), r3.dot(&other.cols[3]));
        Matrix::new(c0, c1, c2, c3)
    }

    /// The twelve raw values handed to the draw stages: the first three
    /// columns, each with all four components.
    pub fn as_4x3(&self) -> (r: [Fx; 12])
        ensures
            forall|j: int, i: int|
                0 <= j < 3 && 0 <= i < 4 ==> (#[trigger] r[j * 4 + i]).raw == mat_raw(
                    *self,
                    i,
                    j,
                ),
    {
        [
            self.cols[0].e[0],
            self.cols[0].e[1],
            self.cols[0].e[2],
            self.cols[0].e[3],
            self.cols[1].e[0],
            self.cols[1].e[1],
            self.cols[1].e[2],
            self.cols[1].e[3],
            self.cols[2].e[0],
            self.cols[2].e[1],
            self.cols[2].e[2],
            self.cols[2].e[3],
        ]
    }
}

} // verus!
