use vstd::prelude::*;

verus! {

/// Position in column-major storage of the entry at `row`, `col`.
pub open spec fn column_major_index(row: int, col: int) -> int {
    3 * col + row
}

/// The three rows of a matrix given as nine values in row-major order.
pub open spec fn rows_of<T>(m: Seq<T>) -> Seq<Seq<T>> {
    Seq::new(3, |r: int| Seq::new(3, |c: int| m[3 * r + c]))
}

/// Nine values in row-major order, read off three rows.
pub open spec fn flatten_rows<T>(rows: Seq<Seq<T>>) -> Seq<T> {
    Seq::new(9, |k: int| rows[k / 3][k % 3])
}

/// The rows of the transpose: row `i` is column `i` of `rows`.
pub open spec fn transpose_of<T>(rows: Seq<Seq<T>>) -> Seq<Seq<T>> {
    Seq::new(3, |i: int| Seq::new(3, |j: int| rows[j][i]))
}

/// Column `col` of a matrix given by its rows.
pub open spec fn column_of<T>(rows: Seq<Seq<T>>, col: int) -> Seq<T> {
    Seq::new(3, |i: int| rows[i][col])
}

/// The index among `0, 1, 2` that comes `k`-th once `skipped` is left out.
pub open spec fn kept(skipped: int, k: int) -> int {
    if k < skipped {
        k
    } else {
        k + 1
    }
}

/// The 2×2 submatrix left when row `row` and column `col` are deleted, in
/// row-major order: its determinant is `m[0] * m[3] - m[1] * m[2]`.
pub open spec fn minor_of<T>(rows: Seq<Seq<T>>, row: int, col: int) -> Seq<T> {
    seq![
        rows[kept(row, 0)][kept(col, 0)],
        rows[kept(row, 0)][kept(col, 1)],
        rows[kept(row, 1)][kept(col, 0)],
        rows[kept(row, 1)][kept(col, 1)],
    ]
}

/// A 3×3 matrix whose nine entries are stored column after column:
/// `data` is `[a00, a10, a20, a01, a11, a21, a02, a12, a22]`.
#[derive(Clone, Copy, Debug, PartialEq)]
pub struct Matrix3x3<T> {
    pub data: [T; 9],
}

impl<T> View for Matrix3x3<T> {
    type V = Seq<Seq<T>>;

    /// The matrix as its three rows.
    open spec fn view(&self) -> Seq<Seq<T>> {
        Seq::new(3, |r: int| Seq::new(3, |c: int| self.data@[column_major_index(r, c)]))
    }
}

impl<T: Copy> Matrix3x3<T> {
    /// Builds the matrix whose rows are `(m0, m1, m2)`, `(m3, m4, m5)` and
    /// `(m6, m7, m8)`.
    pub fn new(m0: T, m1: T, m2: T, m3: T, m4: T, m5: T, m6: T, m7: T, m8: T) -> (r: Self)
        ensures
            r.data@ == seq![m0, m3, m6, m1, m4, m7, m2, m5, m8],
            r@ == rows_of(seq![m0, m1, m2, m3, m4, m5, m6, m7, m8]),
    {
        let r = Matrix3x3 { data: [m0, m3, m6, m1, m4, m7, m2, m5, m8] };
        assert(r@ =~~= rows_of(seq![m0, m1, m2, m3, m4, m5, m6, m7, m8]));
        r
    }

    /// Builds the matrix from its nine entries in row-major order.
    pub fn from_row_major(m: [T; 9]) -> (r: Self)
        ensures
            r@ == rows_of(m@),
    {
        assert(m@ =~= seq![m[0], m[1], m[2], m[3], m[4], m[5], m[6], m[7], m[8]]);
        Matrix3x3::new(m[0], m[1], m[2], m[3], m[4], m[5], m[6], m[7], m[8])
    }

    /// The entry in row `row` and column `col`.
    pub fn get(&self, row: usize, col: usize) -> (r: T)
        requires
            row < 3,
            col < 3,
        ensures
            r == self@[row as int][col as int],
    {
        self.data[3 * col + row]
    }

    /// Row `row`, from left to right.
    pub fn row(&self, row: usize) -> (r: [T; 3])
        requires
            row < 3,
        ensures
            r@ == self@[row as int],
    {
        let r = [self.data[row], self.data[3 + row], self.data[6 + row]];
        assert(r@ =~= self@[row as int]);
        r
    }

    /// Column `col`, from top to bottom.
    pub fn column(&self, col: usize) -> (r: [T; 3])
        requires
            col < 3,
        ensures
            r@ == column_of(self@, col as int),
    {
        let r = [self.data[3 * col], self.data[3 * col + 1], self.data[3 * col + 2]];
        assert(r@ =~= column_of(self@, col as int));
        r
    }

    /// The transpose: the entry in row `i` and column `j` is the entry of
    /// `self` in row `j` and column `i`.
    pub fn transpose(self) -> (r: Self)
        ensures
            r@ == transpose_of(self@),
    {
        let d = self.data;
        let r = Matrix3x3::new(d[0], d[1], d[2], d[3], d[4], d[5], d[6], d[7], d[8]);
        assert(r@ =~~= transpose_of(self@));
        r
    }

    /// The nine entries in row-major order, as a matrix is shown row by row.
    pub fn to_row_major(&self) -> (r: [T; 9])
        ensures
            r@ == flatten_rows(self@),
    {
        let d = self.data;
        let r = [d[0], d[3], d[6], d[1], d[4], d[7], d[2], d[5], d[8]];
        assert(r@ =~= flatten_rows(self@));
        r
    }

    /// The 2×2 submatrix left when row `row` and column `col` are deleted,
    /// in row-major order.
    pub fn minor(&self, row: usize, col: usize) -> (r: [T; 4])
        requires
            row < 3,
            col < 3,
        ensures
            r@ == minor_of(self@, row as int, col as int),
    {
        let r0: usize = if row == 0 { 1 } else { 0 };
        let r1: usize = if row == 2 { 1 } else { 2 };
        let c0: usize = if col == 0 { 1 } else { 0 };
        let c1: usize = if col == 2 { 1 } else { 2 };
        let r = [self.get(r0, c0), self.get(r0, c1), self.get(r1, c0), self.get(r1, c1)];
        assert(r@ =~= minor_of(self@, row as int, col as int));
        r
    }
}

/// Reading back, row by row, a matrix built from nine values in row-major
/// order gives those nine values.
pub proof fn lemma_row_major_round_trip<T>(m: Seq<T>)
    requires
        m.len() == 9,
    ensures
        flatten_rows(rows_of(m)) == m,
{
    assert(flatten_rows(rows_of(m)) =~= m);
}

/// Transposing a matrix twice gives the matrix back.
pub proof fn lemma_transpose_twice<T>(a: Matrix3x3<T>)
    ensures
        transpose_of(transpose_of(a@)) == a@,
{
    assert(transpose_of(transpose_of(a@)) =~~= a@);
}

} // verus!
