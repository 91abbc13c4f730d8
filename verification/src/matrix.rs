//! 4x4 transform-matrix kernel with exact integer cells.
//!
//! The matrix is stored as one flat buffer of 16 cells; a flat position
//! `p` and a (row, column) pair are related by `p == row + 4 * col`, so
//! the buffer is column-major. Every operator of the kernel (equality,
//! scalar and matrix multiplication, determinant, adjugate-based
//! inversion) works over this one layout. Cells are exact 64-bit
//! integers, so each operation's result is pinned down exactly by its
//! contract and the algebraic laws of the kernel are proved, not
//! approximated.

use vstd::prelude::*;

verus! {

use crate::error::Error;

/// A 4x4 matrix: exactly 16 cells in a flat, column-major buffer.
pub struct Matrix4 {
    data: Vec<i64>,
}

impl View for Matrix4 {
    type V = Seq<int>;

    closed spec fn view(&self) -> Seq<int> {
        self.data@.map(|_i: int, v: i64| v as int)
    }
}

/// The flat position of the cell at `(row, col)`.
pub open spec fn flat(row: int, col: int) -> int {
    row + 4 * col
}

/// The 16 cells of the identity matrix: 1 on the diagonal, 0 elsewhere.
pub open spec fn identity_seq() -> Seq<int> {
    Seq::new(16, |p: int| if p == 0 || p == 5 || p == 10 || p == 15 { 1int } else { 0int })
}

/// The 16 cells of the zero matrix.
pub open spec fn zero_seq() -> Seq<int> {
    Seq::new(16, |p: int| 0int)
}

/// All 16 cells lie within `[-b, b]`.
pub open spec fn bounded(m: Seq<int>, b: int) -> bool {
    forall|p: int| 0 <= p < 16 ==> -b <= #[trigger] m[p] <= b
}

/// Every cell multiplied by the scalar `k`.
pub open spec fn scale_seq(m: Seq<int>, k: int) -> Seq<int> {
    Seq::new(16, |p: int| m[p] * k)
}

/// One cell of the standard matrix product: the sum of the four cross
/// terms of row `r` of `a` against column `c` of `b`.
pub open spec fn mul_cell(a: Seq<int>, b: Seq<int>, r: int, c: int) -> int {
    a[flat(r, 0)] * b[flat(0, c)] + a[flat(r, 1)] * b[flat(1, c)] + a[flat(r, 2)] * b[flat(
        2,
        c,
    )] + a[flat(r, 3)] * b[flat(3, c)]
}

/// The standard matrix product `a * b`, cell by cell.
pub open spec fn mul_seq(a: Seq<int>, b: Seq<int>) -> Seq<int> {
    Seq::new(16, |p: int| mul_cell(a, b, p % 4, p / 4))
}

/// Bound on cells accepted by the multiplication operators: keeps every
/// intermediate product of two cells, and the sum of four of them,
/// inside the 64-bit cell type.
pub const MUL_LIMIT: i64 = 0x4000_0000;

/// Bound on cells accepted by the determinant and inversion engine:
/// keeps every intermediate of the minor, determinant and adjugate
/// computations inside the 64-bit cell type.
pub const DET_LIMIT: i64 = 16384;

proof fn lemma_mul_bound(x: int, y: int, bx: int, by: int)
    by (nonlinear_arith)
    requires
        -bx <= x <= bx,
        -by <= y <= by,
        0 <= bx,
        0 <= by,
    ensures
        -(bx * by) <= x * y <= bx * by,
{
}

/// Multiplies two cells that respect `MUL_LIMIT`.
fn mul_mm(x: i64, y: i64) -> (r: i64)
    requires
        -MUL_LIMIT <= x <= MUL_LIMIT,
        -MUL_LIMIT <= y <= MUL_LIMIT,
    ensures
        r as int == x as int * y as int,
        -0x1000_0000_0000_0000 <= r as int <= 0x1000_0000_0000_0000,
{
    proof {
        lemma_mul_bound(x as int, y as int, MUL_LIMIT as int, MUL_LIMIT as int);
    }
    x * y
}

/// The twelve 2x2 minors of the matrix: six from the first two columns
/// (cells 0..8), six from the last two (cells 8..16), one for each pair
/// of rows `(0,1),(0,2),(0,3),(1,2),(1,3),(2,3)`.
pub open spec fn minors_of(m: Seq<int>) -> Seq<int> {
    seq![
        m[0] * m[5] - m[1] * m[4],
        m[0] * m[6] - m[2] * m[4],
        m[0] * m[7] - m[3] * m[4],
        m[1] * m[6] - m[2] * m[5],
        m[1] * m[7] - m[3] * m[5],
        m[2] * m[7] - m[3] * m[6],
        m[8] * m[13] - m[9] * m[12],
        m[8] * m[14] - m[10] * m[12],
        m[8] * m[15] - m[11] * m[12],
        m[9] * m[14] - m[10] * m[13],
        m[9] * m[15] - m[11] * m[13],
        m[10] * m[15] - m[11] * m[14],
    ]
}

/// The determinant: the generalized Laplace expansion along the two
/// column blocks, combining complementary minor pairs with alternating
/// signs.
pub open spec fn det_of(m: Seq<int>) -> int {
    let s = minors_of(m);
    s[0] * s[11] - s[1] * s[10] + s[2] * s[9] + s[3] * s[8] - s[4] * s[7] + s[5] * s[6]
}

/// The adjugate (cofactor-transpose) matrix: each cell mixes three
/// minors of one column block with raw cells of the other block, with
/// the sign dictated by the cofactor position.
pub open spec fn adjugate_of(m: Seq<int>) -> Seq<int> {
    let s = minors_of(m);
    seq![
        m[5] * s[11] - m[6] * s[10] + m[7] * s[9],
        m[2] * s[10] - m[1] * s[11] - m[3] * s[9],
        m[13] * s[5] - m[14] * s[4] + m[15] * s[3],
        m[10] * s[4] - m[9] * s[5] - m[11] * s[3],
        m[6] * s[8] - m[4] * s[11] - m[7] * s[7],
        m[0] * s[11] - m[2] * s[8] + m[3] * s[7],
        m[14] * s[2] - m[12] * s[5] - m[15] * s[1],
        m[8] * s[5] - m[10] * s[2] + m[11] * s[1],
        m[4] * s[10] - m[5] * s[8] + m[7] * s[6],
        m[1] * s[8] - m[0] * s[10] - m[3] * s[6],
        m[12] * s[4] - m[13] * s[2] + m[15] * s[0],
        m[9] * s[2] - m[8] * s[4] - m[11] * s[0],
        m[5] * s[7] - m[4] * s[9] - m[6] * s[6],
        m[0] * s[9] - m[1] * s[7] + m[2] * s[6],
        m[13] * s[1] - m[12] * s[3] - m[14] * s[0],
        m[8] * s[3] - m[9] * s[1] + m[10] * s[0],
    ]
}

/// `d` divides `a` exactly.
pub open spec fn divides(d: int, a: int) -> bool {
    exists|q: int| a == #[trigger] (q * d)
}

/// Computes one 2x2 minor of cells that respect `DET_LIMIT`.
fn minor2(a: i64, b: i64, c: i64, d: i64) -> (r: i64)
    requires
        -DET_LIMIT <= a <= DET_LIMIT,
        -DET_LIMIT <= b <= DET_LIMIT,
        -DET_LIMIT <= c <= DET_LIMIT,
        -DET_LIMIT <= d <= DET_LIMIT,
    ensures
        r as int == a as int * b as int - c as int * d as int,
        -0x2000_0000 <= r <= 0x2000_0000,
{
    proof {
        lemma_mul_bound(a as int, b as int, DET_LIMIT as int, DET_LIMIT as int);
        lemma_mul_bound(c as int, d as int, DET_LIMIT as int, DET_LIMIT as int);
    }
    a * b - c * d
}

/// Multiplies two minors.
fn mul_ss(x: i64, y: i64) -> (r: i64)
    requires
        -0x2000_0000 <= x <= 0x2000_0000,
        -0x2000_0000 <= y <= 0x2000_0000,
    ensures
        r as int == x as int * y as int,
        -0x400_0000_0000_0000 <= r <= 0x400_0000_0000_0000,
{
    proof {
        lemma_mul_bound(x as int, y as int, 0x2000_0000, 0x2000_0000);
    }
    x * y
}

/// Multiplies a cell that respects `DET_LIMIT` by a minor.
fn mul_cs(c: i64, s: i64) -> (r: i64)
    requires
        -DET_LIMIT <= c <= DET_LIMIT,
        -0x2000_0000 <= s <= 0x2000_0000,
    ensures
        r as int == c as int * s as int,
        -0x800_0000_0000 <= r <= 0x800_0000_0000,
{
    proof {
        lemma_mul_bound(c as int, s as int, DET_LIMIT as int, 0x2000_0000);
    }
    c * s
}

/// Division as the cell type's `/` computes it: the quotient of the
/// magnitudes, carrying the sign of the operands (rounding toward
/// zero).
pub open spec fn trunc_div(x: int, d: int) -> int {
    if x == 0 {
        0
    } else if x > 0 && d > 0 {
        x / d
    } else if x < 0 && d < 0 {
        (x * -1) / (d * -1)
    } else if x < 0 {
        ((x * -1) / d) * -1
    } else {
        (x / (d * -1)) * -1
    }
}

/// The magnitude of a truncating quotient never exceeds the magnitude
/// of the dividend.
proof fn lemma_trunc_div_in_range(x: int, d: int)
    requires
        d != 0,
        -0x2000_0000_0000 <= x <= 0x2000_0000_0000,
    ensures
        -0x2000_0000_0000 <= trunc_div(x, d) <= 0x2000_0000_0000,
{
    if x == 0 {
    } else if x > 0 && d > 0 {
        vstd::arithmetic::div_mod::lemma_div_pos_is_pos(x, d);
        vstd::arithmetic::div_mod::lemma_div_nonincreasing(x, d);
    } else if x < 0 && d < 0 {
        vstd::arithmetic::div_mod::lemma_div_pos_is_pos(x * -1, d * -1);
        vstd::arithmetic::div_mod::lemma_div_nonincreasing(x * -1, d * -1);
    } else if x < 0 {
        vstd::arithmetic::div_mod::lemma_div_pos_is_pos(x * -1, d);
        vstd::arithmetic::div_mod::lemma_div_nonincreasing(x * -1, d);
    } else {
        vstd::arithmetic::div_mod::lemma_div_pos_is_pos(x, d * -1);
        vstd::arithmetic::div_mod::lemma_div_nonincreasing(x, d * -1);
    }
}

/// When the division is exact, the truncating quotient is the exact
/// one.
proof fn lemma_exact_trunc_div(x: int, d: int, w: int)
    requires
        d != 0,
        x == w * d,
    ensures
        trunc_div(x, d) == w,
{
    if x == 0 {
        assert(w == 0) by (nonlinear_arith)
            requires
                w * d == 0,
                d != 0,
        ;
    } else if x > 0 && d > 0 {
        assert(x == d * w) by (nonlinear_arith)
            requires
                x == w * d,
        ;
        vstd::arithmetic::div_mod::lemma_div_multiples_vanish(w, d);
    } else if x < 0 && d < 0 {
        assert(x * -1 == (d * -1) * w) by (nonlinear_arith)
            requires
                x == w * d,
        ;
        vstd::arithmetic::div_mod::lemma_div_multiples_vanish(w, d * -1);
    } else if x < 0 {
        assert(x * -1 == d * (w * -1)) by (nonlinear_arith)
            requires
                x == w * d,
        ;
        vstd::arithmetic::div_mod::lemma_div_multiples_vanish(w * -1, d);
    } else {
        assert(x == (d * -1) * (w * -1)) by (nonlinear_arith)
            requires
                x == w * d,
        ;
        vstd::arithmetic::div_mod::lemma_div_multiples_vanish(w * -1, d * -1);
    }
}

impl Matrix4 {
    /// A matrix value is well-formed when it holds exactly 16 cells.
    pub closed spec fn wf(&self) -> bool {
        self.data@.len() == 16
    }

    /// Returns the identity matrix.
    pub fn identity() -> (m: Matrix4)
        ensures
            m.wf(),
            m@ == identity_seq(),
    {
        let mut data: Vec<i64> = Vec::new();
        let mut p: usize = 0;
        while p < 16
            invariant
                p <= 16,
                data@.len() == p,
                forall|q: int|
                    0 <= q < p ==> data@[q] == (if q == 0 || q == 5 || q == 10 || q == 15 {
                        1i64
                    } else {
                        0i64
                    }),
            decreases 16 - p,
        {
            if p == 0 || p == 5 || p == 10 || p == 15 {
                data.push(1);
            } else {
                data.push(0);
            }
            p += 1;
        }
        let m = Matrix4 { data };
        proof {
            assert(m@ =~= identity_seq());
        }
        m
    }

    /// Returns the all-zero matrix.
    pub fn zero() -> (m: Matrix4)
        ensures
            m.wf(),
            m@ == zero_seq(),
    {
        let mut data: Vec<i64> = Vec::new();
        let mut p: usize = 0;
        while p < 16
            invariant
                p <= 16,
                data@.len() == p,
                forall|q: int| 0 <= q < p ==> data@[q] == 0i64,
            decreases 16 - p,
        {
            data.push(0);
            p += 1;
        }
        let m = Matrix4 { data };
        proof {
            assert(m@ =~= zero_seq());
        }
        m
    }

    /// Builds a matrix from an explicit 16-cell flat sequence, keeping
    /// the supplied cells exactly, in the supplied order.
    pub fn from_flat(data: Vec<i64>) -> (m: Matrix4)
        requires
            data@.len() == 16,
        ensures
            m.wf(),
            m@ == data@.map(|_i: int, v: i64| v as int),
    {
        Matrix4 { data }
    }

    /// Exports the cells as a flat 16-value buffer in storage order.
    pub fn to_flat(&self) -> (r: Vec<i64>)
        requires
            self.wf(),
        ensures
            r@.len() == 16,
            r@.map(|_i: int, v: i64| v as int) == self@,
    {
        let mut r: Vec<i64> = Vec::new();
        let mut p: usize = 0;
        while p < 16
            invariant
                self.wf(),
                p <= 16,
                r@.len() == p,
                forall|q: int| 0 <= q < p ==> r@[q] as int == self@[q],
            decreases 16 - p,
        {
            r.push(self.data[p]);
            p += 1;
        }
        proof {
            assert(r@.map(|_i: int, v: i64| v as int) =~= self@);
        }
        r
    }

    /// Reads the cell at flat position `p`.
    pub fn get(&self, p: usize) -> (r: i64)
        requires
            self.wf(),
            p < 16,
        ensures
            r as int == self@[p as int],
    {
        self.data[p]
    }

    /// Overwrites the cell at flat position `p`.
    pub fn set(&mut self, p: usize, v: i64)
        requires
            old(self).wf(),
            p < 16,
        ensures
            final(self).wf(),
            final(self)@ == old(self)@.update(p as int, v as int),
    {
        self.data.set(p, v);
        proof {
            assert(self@ =~= old(self)@.update(p as int, v as int));
        }
    }

    /// Reads the cell at `(row, col)`: always the same cell that
    /// `get(row + 4 * col)` reads.
    pub fn get_rc(&self, row: usize, col: usize) -> (r: i64)
        requires
            self.wf(),
            row < 4,
            col < 4,
        ensures
            r as int == self@[flat(row as int, col as int)],
    {
        self.data[row + 4 * col]
    }

    /// Overwrites the cell at `(row, col)`: always the same cell that
    /// `set(row + 4 * col, v)` overwrites.
    pub fn set_rc(&mut self, row: usize, col: usize, v: i64)
        requires
            old(self).wf(),
            row < 4,
            col < 4,
        ensures
            final(self).wf(),
            final(self)@ == old(self)@.update(flat(row as int, col as int), v as int),
    {
        self.set(row + 4 * col, v);
    }

    /// Tests whether this matrix equals another one: true exactly when
    /// all 16 corresponding cells are equal.
    pub fn equals(&self, mat: &Matrix4) -> (r: bool)
        requires
            self.wf(),
            mat.wf(),
        ensures
            r <==> self@ == mat@,
    {
        let mut p: usize = 0;
        while p < 16
            invariant
                self.wf(),
                mat.wf(),
                p <= 16,
                forall|q: int| 0 <= q < p ==> self@[q] == mat@[q],
            decreases 16 - p,
        {
            if self.data[p] != mat.data[p] {
                proof {
                    assert(self.data@[p as int] as int == self@[p as int]);
                    assert(mat.data@[p as int] as int == mat@[p as int]);
                }
                return false;
            }
            p += 1;
        }
        proof {
            assert(self@ =~= mat@);
        }
        true
    }

    /// Returns a new matrix with every cell multiplied by `k`.
    pub fn multiply_scalar(&self, k: i64) -> (m: Matrix4)
        requires
            self.wf(),
            forall|p: int| 0 <= p < 16 ==> i64::MIN <= #[trigger] self@[p] * k <= i64::MAX,
        ensures
            m.wf(),
            m@ == scale_seq(self@, k as int),
    {
        let mut data: Vec<i64> = Vec::new();
        let mut p: usize = 0;
        while p < 16
            invariant
                self.wf(),
                forall|q: int| 0 <= q < 16 ==> i64::MIN <= #[trigger] self@[q] * k <= i64::MAX,
                p <= 16,
                data@.len() == p,
                forall|q: int| 0 <= q < p ==> data@[q] as int == self@[q] * k,
            decreases 16 - p,
        {
            proof {
                assert(self.data@[p as int] as int == self@[p as int]);
                assert(i64::MIN <= self@[p as int] * k as int <= i64::MAX);
            }
            data.push(self.data[p] * k);
            p += 1;
        }
        let m = Matrix4 { data };
        proof {
            assert(m@ =~= scale_seq(self@, k as int));
        }
        m
    }

    /// Multiplies every cell by `k` in place; equal to computing
    /// `multiply_scalar(k)` and overwriting `self` with the result.
    pub fn scale_in_place(&mut self, k: i64)
        requires
            old(self).wf(),
            forall|p: int| 0 <= p < 16 ==> i64::MIN <= #[trigger] old(self)@[p] * k <= i64::MAX,
        ensures
            final(self).wf(),
            final(self)@ == scale_seq(old(self)@, k as int),
    {
        let m = self.multiply_scalar(k);
        *self = m;
    }

    /// Returns the standard matrix product `self * mat`: each output
    /// cell is the sum of the four cross terms of a row of `self`
    /// against a column of `mat`.
    pub fn multiply_matrix(&self, mat: &Matrix4) -> (m: Matrix4)
        requires
            self.wf(),
            mat.wf(),
            bounded(self@, MUL_LIMIT as int),
            bounded(mat@, MUL_LIMIT as int),
        ensures
            m.wf(),
            m@ == mul_seq(self@, mat@),
    {
        let mut data: Vec<i64> = Vec::new();
        let mut p: usize = 0;
        while p < 16
            invariant
                self.wf(),
                mat.wf(),
                bounded(self@, MUL_LIMIT as int),
                bounded(mat@, MUL_LIMIT as int),
                p <= 16,
                data@.len() == p,
                forall|q: int| 0 <= q < p ==> data@[q] as int == mul_cell(self@, mat@, q % 4, q / 4),
            decreases 16 - p,
        {
            let row = p % 4;
            let col = p / 4;
            proof {
                assert(self.data@[row as int] as int == self@[row as int]);
                assert(self.data@[row as int + 4] as int == self@[row as int + 4]);
                assert(self.data@[row as int + 8] as int == self@[row as int + 8]);
                assert(self.data@[row as int + 12] as int == self@[row as int + 12]);
                assert(mat.data@[4 * col as int] as int == mat@[4 * col as int]);
                assert(mat.data@[1 + 4 * col as int] as int == mat@[1 + 4 * col as int]);
                assert(mat.data@[2 + 4 * col as int] as int == mat@[2 + 4 * col as int]);
                assert(mat.data@[3 + 4 * col as int] as int == mat@[3 + 4 * col as int]);
            }
            let x0 = mul_mm(self.data[row], mat.data[4 * col]);
            let x1 = mul_mm(self.data[row + 4], mat.data[1 + 4 * col]);
            let x2 = mul_mm(self.data[row + 8], mat.data[2 + 4 * col]);
            let x3 = mul_mm(self.data[row + 12], mat.data[3 + 4 * col]);
            let cell = x0 + x1 + x2 + x3;
            proof {
                assert(cell as int == mul_cell(self@, mat@, p as int % 4, p as int / 4));
            }
            data.push(cell);
            p += 1;
        }
        let m = Matrix4 { data };
        proof {
            assert(m@ =~= mul_seq(self@, mat@));
        }
        m
    }

    /// Computes the twelve 2x2 sub-determinants of the two column
    /// blocks.
    fn minors(&self) -> (s: Vec<i64>)
        requires
            self.wf(),
            bounded(self@, DET_LIMIT as int),
        ensures
            s@.len() == 12,
            forall|i: int| 0 <= i < 12 ==> #[trigger] (s@[i] as int) == minors_of(self@)[i],
            forall|i: int| 0 <= i < 12 ==> -0x2000_0000 <= #[trigger] s@[i] <= 0x2000_0000,
    {
        proof {
            assert forall|i: int| 0 <= i < 16 implies -DET_LIMIT <= #[trigger] self.data@[i]
                <= DET_LIMIT by {
                assert(self@[i] == self.data@[i] as int);
            }
        }
        let mut s: Vec<i64> = Vec::new();
        s.push(minor2(self.data[0], self.data[5], self.data[1], self.data[4]));
        s.push(minor2(self.data[0], self.data[6], self.data[2], self.data[4]));
        s.push(minor2(self.data[0], self.data[7], self.data[3], self.data[4]));
        s.push(minor2(self.data[1], self.data[6], self.data[2], self.data[5]));
        s.push(minor2(self.data[1], self.data[7], self.data[3], self.data[5]));
        s.push(minor2(self.data[2], self.data[7], self.data[3], self.data[6]));
        s.push(minor2(self.data[8], self.data[13], self.data[9], self.data[12]));
        s.push(minor2(self.data[8], self.data[14], self.data[10], self.data[12]));
        s.push(minor2(self.data[8], self.data[15], self.data[11], self.data[12]));
        s.push(minor2(self.data[9], self.data[14], self.data[10], self.data[13]));
        s.push(minor2(self.data[9], self.data[15], self.data[11], self.data[13]));
        s.push(minor2(self.data[10], self.data[15], self.data[11], self.data[14]));
        s
    }

    /// Computes the determinant of the matrix.
    pub fn determinant(&self) -> (r: i64)
        requires
            self.wf(),
            bounded(self@, DET_LIMIT as int),
        ensures
            r as int == det_of(self@),
    {
        let s = self.minors();
        let t0 = mul_ss(s[0], s[11]);
        let t1 = mul_ss(s[1], s[10]);
        let t2 = mul_ss(s[2], s[9]);
        let t3 = mul_ss(s[3], s[8]);
        let t4 = mul_ss(s[4], s[7]);
        let t5 = mul_ss(s[5], s[6]);
        t0 - t1 + t2 + t3 - t4 + t5
    }

    /// Computes the adjugate (cofactor-transpose) matrix, cell by cell.
    fn adjugate(&self) -> (a: Vec<i64>)
        requires
            self.wf(),
            bounded(self@, DET_LIMIT as int),
        ensures
            a@.len() == 16,
            forall|p: int| 0 <= p < 16 ==> #[trigger] (a@[p] as int) == adjugate_of(self@)[p],
            forall|p: int| 0 <= p < 16 ==> -0x2000_0000_0000 <= #[trigger] a@[p] <= 0x2000_0000_0000,
    {
        proof {
            assert forall|i: int| 0 <= i < 16 implies -DET_LIMIT <= #[trigger] self.data@[i]
                <= DET_LIMIT by {
                assert(self@[i] == self.data@[i] as int);
            }
        }
        let s = self.minors();
        let mut a: Vec<i64> = Vec::new();
        a.push(mul_cs(self.data[5], s[11]) - mul_cs(self.data[6], s[10]) + mul_cs(self.data[7], s[9]));
        a.push(mul_cs(self.data[2], s[10]) - mul_cs(self.data[1], s[11]) - mul_cs(self.data[3], s[9]));
        a.push(mul_cs(self.data[13], s[5]) - mul_cs(self.data[14], s[4]) + mul_cs(self.data[15], s[3]));
        a.push(mul_cs(self.data[10], s[4]) - mul_cs(self.data[9], s[5]) - mul_cs(self.data[11], s[3]));
        a.push(mul_cs(self.data[6], s[8]) - mul_cs(self.data[4], s[11]) - mul_cs(self.data[7], s[7]));
        a.push(mul_cs(self.data[0], s[11]) - mul_cs(self.data[2], s[8]) + mul_cs(self.data[3], s[7]));
        a.push(mul_cs(self.data[14], s[2]) - mul_cs(self.data[12], s[5]) - mul_cs(self.data[15], s[1]));
        a.push(mul_cs(self.data[8], s[5]) - mul_cs(self.data[10], s[2]) + mul_cs(self.data[11], s[1]));
        a.push(mul_cs(self.data[4], s[10]) - mul_cs(self.data[5], s[8]) + mul_cs(self.data[7], s[6]));
        a.push(mul_cs(self.data[1], s[8]) - mul_cs(self.data[0], s[10]) - mul_cs(self.data[3], s[6]));
        a.push(mul_cs(self.data[12], s[4]) - mul_cs(self.data[13], s[2]) + mul_cs(self.data[15], s[0]));
        a.push(mul_cs(self.data[9], s[2]) - mul_cs(self.data[8], s[4]) - mul_cs(self.data[11], s[0]));
        a.push(mul_cs(self.data[5], s[7]) - mul_cs(self.data[4], s[9]) - mul_cs(self.data[6], s[6]));
        a.push(mul_cs(self.data[0], s[9]) - mul_cs(self.data[1], s[7]) + mul_cs(self.data[2], s[6]));
        a.push(mul_cs(self.data[13], s[1]) - mul_cs(self.data[12], s[3]) - mul_cs(self.data[14], s[0]));
        a.push(mul_cs(self.data[8], s[3]) - mul_cs(self.data[9], s[1]) + mul_cs(self.data[10], s[0]));
        a
    }

    /// Computes the inverse of the matrix: the adjugate divided cell by
    /// cell by the determinant. Fails with `SingularMatrix` exactly when
    /// the determinant is zero, and with `InexactInverse` exactly when
    /// the determinant does not divide some adjugate cell, so that the
    /// true inverse has no exact-cell representation; it never returns a
    /// rounded matrix.
    pub fn inverse(&self) -> (r: Result<Matrix4, Error>)
        requires
            self.wf(),
            bounded(self@, DET_LIMIT as int),
        ensures
            match r {
                Ok(inv) => {
                    &&& inv.wf()
                    &&& det_of(self@) != 0
                    &&& forall|p: int|
                        0 <= p < 16 ==> #[trigger] inv@[p] * det_of(self@) == adjugate_of(self@)[p]
                },
                Err(e) => {
                    if det_of(self@) == 0 {
                        e == Error::SingularMatrix
                    } else {
                        &&& e == Error::InexactInverse
                        &&& exists|p: int|
                            0 <= p < 16 && !divides(det_of(self@), #[trigger] adjugate_of(self@)[p])
                    }
                },
            },
    {
        let det = self.determinant();
        if det == 0 {
            return Err(Error::SingularMatrix);
        }
        let adj = self.adjugate();
        let mut data: Vec<i64> = Vec::new();
        let mut p: usize = 0;
        while p < 16
            invariant
                self.wf(),
                bounded(self@, DET_LIMIT as int),
                det as int == det_of(self@),
                det != 0,
                adj@.len() == 16,
                forall|i: int| 0 <= i < 16 ==> #[trigger] (adj@[i] as int) == adjugate_of(self@)[i],
                forall|i: int| 0 <= i < 16 ==> -0x2000_0000_0000 <= #[trigger] adj@[i] <= 0x2000_0000_0000,
                p <= 16,
                data@.len() == p,
                forall|i: int|
                    0 <= i < p ==> #[trigger] (data@[i] as int) * det_of(self@) == adjugate_of(
                        self@,
                    )[i],
            decreases 16 - p,
        {
            let a = adj[p];
            proof {
                lemma_trunc_div_in_range(a as int, det as int);
            }
            let q = a.checked_div(det).unwrap();
            proof {
                assert(q as int == trunc_div(a as int, det as int));
            }
            let exact = match q.checked_mul(det) {
                Some(prod) => prod == a,
                None => false,
            };
            if !exact {
                proof {
                    assert(!divides(det as int, a as int)) by {
                        if divides(det as int, a as int) {
                            let w = choose|w: int| a as int == #[trigger] (w * (det as int));
                            lemma_exact_trunc_div(a as int, det as int, w);
                            assert(q as int == w);
                            assert(q as int * det as int == a as int);
                            assert(i64::MIN <= q as int * det as int <= i64::MAX);
                            assert(false);
                        }
                    }
                    assert(0 <= p < 16 && !divides(
                        det_of(self@),
                        adjugate_of(self@)[p as int],
                    ));
                }
                return Err(Error::InexactInverse);
            }
            proof {
                assert(q as int * det_of(self@) == adjugate_of(self@)[p as int]);
            }
            data.push(q);
            p += 1;
        }
        Ok(Matrix4 { data })
    }

    /// Multiplies by `mat` in place; equal to computing
    /// `multiply_matrix(mat)` and overwriting `self` with the result.
    pub fn compose_in_place(&mut self, mat: &Matrix4)
        requires
            old(self).wf(),
            mat.wf(),
            bounded(old(self)@, MUL_LIMIT as int),
            bounded(mat@, MUL_LIMIT as int),
        ensures
            final(self).wf(),
            final(self)@ == mul_seq(old(self)@, mat@),
    {
        let m = self.multiply_matrix(mat);
        *self = m;
    }
}

} // verus!
