//! Matrices of whole numbers, as the vertex data of a model is laid out in
//! them, and putting two of them side by side or one above the other.

use vstd::prelude::*;

verus! {

/// A matrix of whole numbers whose numbers of rows and of columns are known
/// when the program runs: a `DMatrix<i32>` of the `nalgebra` crate.
#[verifier::external_body]
#[derive(Debug)]
pub struct IntMatrix {
    inner: nalgebra::DMatrix<i32>,
}

/// What `Matrix::shape` returns for the matrix: its number of rows and its
/// number of columns.
pub uninterp spec fn matrix_shape(m: IntMatrix) -> (usize, usize);

/// What indexing the matrix with a row and a column, both counted from
/// zero and within its shape, returns: the number that stands there.
pub uninterp spec fn matrix_cell(m: IntMatrix, row: int, column: int) -> i32;

/// Number of bytes that one number of a matrix takes.
pub const CELL_BYTES: usize = 4;

/// Whether a matrix of the given shape can be kept in memory: its numbers
/// take no more bytes than an allocation can have.
pub open spec fn fits(rows: int, columns: int) -> bool {
    rows * columns * CELL_BYTES <= isize::MAX
}

impl IntMatrix {
    /// Number of rows of the matrix.
    #[verifier::inline]
    pub open spec fn rows(self) -> int {
        matrix_shape(self).0 as int
    }

    /// Number of columns of the matrix.
    #[verifier::inline]
    pub open spec fn columns(self) -> int {
        matrix_shape(self).1 as int
    }

    /// The number at the given row and column.
    #[verifier::inline]
    pub open spec fn at(self, row: int, column: int) -> i32 {
        matrix_cell(self, row, column)
    }

    /// Whether the matrix has the same shape and the same numbers as the
    /// given rows.
    pub open spec fn shows(self, rows: Seq<Vec<i32>>) -> bool {
        &&& self.rows() == rows.len()
        &&& forall|r: int| 0 <= r < rows.len() ==> (#[trigger] rows[r])@.len() == self.columns()
        &&& forall|r: int, c: int|
            0 <= r < self.rows() && 0 <= c < self.columns() ==> rows[r]@[c] == #[trigger] self.at(
                r,
                c,
            )
    }

    /// Calls `Matrix::shape`: the numbers of rows and of columns.
    #[verifier::external_body]
    fn shape(&self) -> (dims: (usize, usize))
        ensures
            dims == matrix_shape(*self),
    {
        self.inner.shape()
    }

    /// Indexes the matrix with a row and a column, which `Index::index`
    /// refuses unless both are within the shape.
    #[verifier::external_body]
    fn cell(&self, row: usize, column: usize) -> (value: i32)
        requires
            row < self.rows(),
            column < self.columns(),
        ensures
            value == matrix_cell(*self, row as int, column as int),
    {
        self.inner[(row, column)]
    }

    /// Assigns through `IndexMut::index_mut`, which refuses a row or a column
    /// outside the shape: the number at that place becomes `value`, and the
    /// shape and every other number stay.
    #[verifier::external_body]
    fn set_cell(&mut self, row: usize, column: usize, value: i32)
        requires
            row < old(self).rows(),
            column < old(self).columns(),
        ensures
            matrix_shape(*final(self)) == matrix_shape(*old(self)),
            forall|r: int, c: int|
                0 <= r < old(self).rows() && 0 <= c < old(self).columns() ==> #[trigger] matrix_cell(
                    *final(self),
                    r,
                    c,
                ) == if r == row && c == column {
                    value
                } else {
                    matrix_cell(*old(self), r, c)
                },
    {
        self.inner[(row, column)] = value;
    }

    /// Calls `Matrix::from_element`: a matrix of the given shape with `value`
    /// at every place. The shape must fit in memory.
    #[verifier::external_body]
    fn from_element(rows: usize, columns: usize, value: i32) -> (made: IntMatrix)
        requires
            fits(rows as int, columns as int),
        ensures
            matrix_shape(made) == (rows, columns),
            forall|r: int, c: int|
                0 <= r < rows && 0 <= c < columns ==> #[trigger] made.at(r, c) == value,
    {
        IntMatrix { inner: nalgebra::DMatrix::from_element(rows, columns, value) }
    }

    /// Calls `Matrix::insert_columns`: `count` columns of `value` are put in
    /// before the column `at`, or after the last column where `at` is the
    /// number of columns; the columns from `at` on move right. `at` must not
    /// be beyond the number of columns, the new number of columns must be
    /// one that a matrix can have, and the new shape must fit in memory.
    #[verifier::external_body]
    fn insert_columns(self, at: usize, count: usize, value: i32) -> (wider: IntMatrix)
        requires
            at <= self.columns(),
            self.columns() + count <= usize::MAX,
            fits(self.rows(), self.columns() + count),
        ensures
            wider.rows() == self.rows(),
            wider.columns() == self.columns() + count,
            forall|r: int, c: int|
                0 <= r < wider.rows() && 0 <= c < wider.columns() ==> #[trigger] wider.at(r, c)
                    == if c < at {
                    self.at(r, c)
                } else if c < at + count {
                    value
                } else {
                    self.at(r, c - count)
                },
    {
        IntMatrix { inner: self.inner.insert_columns(at, count, value) }
    }

    /// Calls `Matrix::insert_rows`: `count` rows of `value` are put in before
    /// the row `at`, or after the last row where `at` is the number of rows;
    /// the rows from `at` on move down. `at` must not be beyond the number of
    /// rows, the new number of rows must be one that a matrix can have, and
    /// the new shape must fit in memory.
    #[verifier::external_body]
    fn insert_rows(self, at: usize, count: usize, value: i32) -> (taller: IntMatrix)
        requires
            at <= self.rows(),
            self.rows() + count <= usize::MAX,
            fits(self.rows() + count, self.columns()),
        ensures
            taller.rows() == self.rows() + count,
            taller.columns() == self.columns(),
            forall|r: int, c: int|
                0 <= r < taller.rows() && 0 <= c < taller.columns() ==> #[trigger] taller.at(r, c)
                    == if r < at {
                    self.at(r, c)
                } else if r < at + count {
                    value
                } else {
                    self.at(r - count, c)
                },
    {
        IntMatrix { inner: self.inner.insert_rows(at, count, value) }
    }

    /// Number of rows of the matrix.
    pub fn nrows(&self) -> (n: usize)
        ensures
            n == self.rows(),
    {
        self.shape().0
    }

    /// Number of columns of the matrix.
    pub fn ncols(&self) -> (n: usize)
        ensures
            n == self.columns(),
    {
        self.shape().1
    }

    /// The number at the given row and column, or nothing where the matrix
    /// has no such place.
    pub fn get(&self, row: usize, column: usize) -> (value: Option<i32>)
        ensures
            row < self.rows() && column < self.columns() ==> value == Some(
                self.at(row as int, column as int),
            ),
            !(row < self.rows() && column < self.columns()) ==> value is None,
    {
        let (rows, columns) = self.shape();
        if row < rows && column < columns {
            Some(self.cell(row, column))
        } else {
            None
        }
    }
}

/// Whether `rows * columns` numbers fit in memory.
fn shape_fits(rows: usize, columns: usize) -> (ok: bool)
    ensures
        ok == fits(rows as int, columns as int),
{
    let limit = (isize::MAX as usize) / CELL_BYTES;
    match rows.checked_mul(columns) {
        Some(cells) => {
            assert(rows * columns * CELL_BYTES == cells * 4);
            cells <= limit
        },
        None => {
            assert(rows * columns > usize::MAX);
            assert(rows * columns * CELL_BYTES > isize::MAX) by (nonlinear_arith)
                requires
                    rows * columns > usize::MAX,
                    usize::MAX >= isize::MAX,
            ;
            false
        },
    }
}

impl IntMatrix {
    /// The matrix of the given rows, or nothing where the rows are not all of
    /// one length or the matrix would not fit in memory. A matrix without
    /// rows has no columns.
    pub fn from_rows(rows: &Vec<Vec<i32>>) -> (made: Option<IntMatrix>)
        ensures
            made is Some ==> made->Some_0.shows(rows@),
            made is Some <==> {
                let columns = if rows@.len() == 0 {
                    0
                } else {
                    rows@[0]@.len() as int
                };
                &&& forall|r: int| 0 <= r < rows@.len() ==> (#[trigger] rows@[r])@.len() == columns
                &&& fits(rows@.len() as int, columns)
            },
    {
        let nrows = rows.len();
        let ncols = if nrows == 0 {
            0
        } else {
            rows[0].len()
        };
        let mut r: usize = 0;
        while r < nrows
            invariant
                nrows == rows@.len(),
                r <= nrows,
                nrows > 0 ==> ncols == rows@[0]@.len(),
                forall|k: int| 0 <= k < r ==> (#[trigger] rows@[k])@.len() == ncols,
            decreases nrows - r,
        {
            if rows[r].len() != ncols {
                assert(rows@[r as int]@.len() != ncols);
                return None;
            }
            r += 1;
        }
        if !shape_fits(nrows, ncols) {
            return None;
        }
        let mut made = IntMatrix::from_element(nrows, ncols, 0);
        let mut r: usize = 0;
        while r < nrows
            invariant
                nrows == rows@.len(),
                r <= nrows,
                forall|k: int| 0 <= k < nrows ==> (#[trigger] rows@[k])@.len() == ncols,
                matrix_shape(made) == (nrows, ncols),
                forall|i: int, j: int|
                    0 <= i < r && 0 <= j < ncols ==> rows@[i]@[j] == #[trigger] made.at(i, j),
            decreases nrows - r,
        {
            let mut c: usize = 0;
            while c < ncols
                invariant
                    nrows == rows@.len(),
                    r < nrows,
                    c <= ncols,
                    forall|k: int| 0 <= k < nrows ==> (#[trigger] rows@[k])@.len() == ncols,
                    matrix_shape(made) == (nrows, ncols),
                    forall|i: int, j: int|
                        0 <= i < r && 0 <= j < ncols ==> rows@[i]@[j] == #[trigger] made.at(i, j),
                    forall|j: int| 0 <= j < c ==> rows@[r as int]@[j] == #[trigger] made.at(r as int, j),
                decreases ncols - c,
            {
                made.set_cell(r, c, rows[r][c]);
                c += 1;
            }
            r += 1;
        }
        Some(made)
    }

    /// The rows of the matrix, from the first to the last.
    pub fn to_rows(&self) -> (rows: Vec<Vec<i32>>)
        ensures
            self.shows(rows@),
    {
        let (nrows, ncols) = self.shape();
        let mut rows: Vec<Vec<i32>> = Vec::new();
        let mut r: usize = 0;
        while r < nrows
            invariant
                matrix_shape(*self) == (nrows, ncols),
                r <= nrows,
                rows@.len() == r,
                forall|i: int| 0 <= i < r ==> (#[trigger] rows@[i])@.len() == ncols,
                forall|i: int, j: int|
                    0 <= i < r && 0 <= j < ncols ==> rows@[i]@[j] == #[trigger] self.at(i, j),
            decreases nrows - r,
        {
            let mut row: Vec<i32> = Vec::new();
            let mut c: usize = 0;
            while c < ncols
                invariant
                    matrix_shape(*self) == (nrows, ncols),
                    r < nrows,
                    c <= ncols,
                    row@.len() == c,
                    forall|j: int| 0 <= j < c ==> row@[j] == #[trigger] self.at(r as int, j),
                decreases ncols - c,
            {
                row.push(self.cell(r, c));
                c += 1;
            }
            rows.push(row);
            r += 1;
        }
        rows
    }
}

/// Whether `joined` is `left` with `right` to its right: it has the rows of
/// both and the columns of `left` followed by those of `right`.
pub open spec fn is_beside(left: IntMatrix, right: IntMatrix, joined: IntMatrix) -> bool {
    &&& joined.rows() == left.rows()
    &&& joined.columns() == left.columns() + right.columns()
    &&& forall|r: int, c: int|
        0 <= r < joined.rows() && 0 <= c < joined.columns() ==> #[trigger] joined.at(r, c) == if c
            < left.columns() {
            left.at(r, c)
        } else {
            right.at(r, c - left.columns())
        }
}

/// Whether `joined` is `upper` with `lower` below it: it has the columns of
/// both and the rows of `upper` followed by those of `lower`.
pub open spec fn is_above(upper: IntMatrix, lower: IntMatrix, joined: IntMatrix) -> bool {
    &&& joined.columns() == upper.columns()
    &&& joined.rows() == upper.rows() + lower.rows()
    &&& forall|r: int, c: int|
        0 <= r < joined.rows() && 0 <= c < joined.columns() ==> #[trigger] joined.at(r, c) == if r
            < upper.rows() {
            upper.at(r, c)
        } else {
            lower.at(r - upper.rows(), c)
        }
}

/// Puts `other` to the right of `me`. There is no result where `me` has no
/// row or no column, where the two do not have the same number of rows, or
/// where the result would not fit in memory.
pub fn augment_right(me: IntMatrix, other: IntMatrix) -> (joined: Option<IntMatrix>)
    ensures
        joined is Some <==> me.rows() > 0 && me.columns() > 0 && me.rows() == other.rows() && fits(
            me.rows(),
            me.columns() + other.columns(),
        ),
        joined is Some ==> is_beside(me, other, joined->Some_0),
{
    // augmenting to the right (number of rows is constant, adding new columns)
    let (num_rows, num_columns) = me.shape();

    if num_rows == 0 || num_columns == 0 {
        return None;
    }
    let (aug_rows, aug_columns) = other.shape();
    if num_rows != aug_rows {
        return None;
    }
    let all_columns = match num_columns.checked_add(aug_columns) {
        Some(sum) => sum,
        None => {
            assert(!fits(num_rows as int, num_columns + aug_columns)) by (nonlinear_arith)
                requires
                    num_rows >= 1,
                    num_columns + aug_columns > usize::MAX,
                    usize::MAX >= isize::MAX,
            ;
            return None;
        },
    };
    if !shape_fits(num_rows, all_columns) {
        return None;
    }
    // insert new columns to place stuff into
    let insert_val_temp = me.cell(0, 0);
    let ghost left = me;
    let mut me = me.insert_columns(num_columns, aug_columns, insert_val_temp);

    let mut column_index = num_columns;
    while column_index < all_columns
        invariant
            num_columns <= column_index <= all_columns,
            all_columns == num_columns + aug_columns,
            matrix_shape(left) == (num_rows, num_columns),
            matrix_shape(other) == (num_rows, aug_columns),
            matrix_shape(me) == (num_rows, all_columns),
            forall|r: int, c: int|
                0 <= r < num_rows && 0 <= c < num_columns ==> #[trigger] me.at(r, c) == left.at(r, c),
            forall|r: int, c: int|
                0 <= r < num_rows && num_columns <= c < column_index ==> #[trigger] me.at(r, c)
                    == other.at(r, c - num_columns),
        decreases all_columns - column_index,
    {
        // normalize to other
        let aug_column_index = column_index - num_columns;
        let mut row_index: usize = 0;
        while row_index < num_rows
            invariant
                row_index <= num_rows,
                num_columns <= column_index < all_columns,
                aug_column_index == column_index - num_columns,
                all_columns == num_columns + aug_columns,
                matrix_shape(other) == (num_rows, aug_columns),
                matrix_shape(me) == (num_rows, all_columns),
                forall|r: int, c: int|
                    0 <= r < num_rows && 0 <= c < num_columns ==> #[trigger] me.at(r, c) == left.at(
                        r,
                        c,
                    ),
                forall|r: int, c: int|
                    0 <= r < num_rows && num_columns <= c < column_index ==> #[trigger] me.at(r, c)
                        == other.at(r, c - num_columns),
                forall|r: int|
                    0 <= r < row_index ==> #[trigger] me.at(r, column_index as int) == other.at(
                        r,
                        aug_column_index as int,
                    ),
            decreases num_rows - row_index,
        {
            me.set_cell(row_index, column_index, other.cell(row_index, aug_column_index));
            row_index += 1;
        }
        column_index += 1;
    }

    Some(me)
}

/// Puts `other` below `me`. There is no result where `me` has no row or no
/// column, where the two do not have the same number of columns, or where
/// the result would not fit in memory.
pub fn augment_bottom(me: IntMatrix, other: IntMatrix) -> (joined: Option<IntMatrix>)
    ensures
        joined is Some <==> me.rows() > 0 && me.columns() > 0 && me.columns() == other.columns()
            && fits(me.rows() + other.rows(), me.columns()),
        joined is Some ==> is_above(me, other, joined->Some_0),
{
    // augmenting to the bottom (number of rows changes, number of columns is consistent)
    let (num_rows, num_columns) = me.shape();

    if num_rows == 0 || num_columns == 0 {
        return None;
    }
    let (aug_rows, aug_columns) = other.shape();
    if num_columns != aug_columns {
        return None;
    }
    let all_rows = match num_rows.checked_add(aug_rows) {
        Some(sum) => sum,
        None => {
            assert(!fits(num_rows + aug_rows, num_columns as int)) by (nonlinear_arith)
                requires
                    num_columns >= 1,
                    num_rows + aug_rows > usize::MAX,
                    usize::MAX >= isize::MAX,
            ;
            return None;
        },
    };
    if !shape_fits(all_rows, num_columns) {
        return None;
    }
    let insert_val_temp = me.cell(0, 0);
    let ghost upper = me;
    let mut me = me.insert_rows(num_rows, aug_rows, insert_val_temp);

    let mut row_index = num_rows;
    while row_index < all_rows
        invariant
            num_rows <= row_index <= all_rows,
            all_rows == num_rows + aug_rows,
            matrix_shape(upper) == (num_rows, num_columns),
            matrix_shape(other) == (aug_rows, num_columns),
            matrix_shape(me) == (all_rows, num_columns),
            forall|r: int, c: int|
                0 <= r < num_rows && 0 <= c < num_columns ==> #[trigger] me.at(r, c) == upper.at(
                    r,
                    c,
                ),
            forall|r: int, c: int|
                num_rows <= r < row_index && 0 <= c < num_columns ==> #[trigger] me.at(r, c)
                    == other.at(r - num_rows, c),
        decreases all_rows - row_index,
    {
        let aug_row_index = row_index - num_rows;
        let mut column_index: usize = 0;
        while column_index < num_columns
            invariant
                column_index <= num_columns,
                num_rows <= row_index < all_rows,
                aug_row_index == row_index - num_rows,
                all_rows == num_rows + aug_rows,
                matrix_shape(other) == (aug_rows, num_columns),
                matrix_shape(me) == (all_rows, num_columns),
                forall|r: int, c: int|
                    0 <= r < num_rows && 0 <= c < num_columns ==> #[trigger] me.at(r, c)
                        == upper.at(r, c),
                forall|r: int, c: int|
                    num_rows <= r < row_index && 0 <= c < num_columns ==> #[trigger] me.at(r, c)
                        == other.at(r - num_rows, c),
                forall|c: int|
                    0 <= c < column_index ==> #[trigger] me.at(row_index as int, c) == other.at(
                        aug_row_index as int,
                        c,
                    ),
            decreases num_columns - column_index,
        {
            me.set_cell(row_index, column_index, other.cell(aug_row_index, column_index));
            column_index += 1;
        }
        row_index += 1;
    }

    Some(me)
}

/// What the vertices of a mesh hold besides their positions.
#[derive(Debug, Clone, Copy, PartialEq, Eq, Structural)]
pub enum VertexContent {
    /// Positions only.
    Positions,
    /// Positions and texture coordinates.
    Textured,
    /// Positions and normals.
    Lit,
    /// Positions, texture coordinates and normals.
    TexturedAndLit,
}

impl VertexContent {
    /// What the vertices of a mesh hold, by how many scalars of normals and
    /// of texture coordinates the mesh has: a mesh has normals, or texture
    /// coordinates, if it has any scalar of them.
    pub open spec fn of(normals: nat, texcoords: nat) -> VertexContent {
        if normals == 0 && texcoords == 0 {
            VertexContent::Positions
        } else if normals == 0 {
            VertexContent::Textured
        } else if texcoords == 0 {
            VertexContent::Lit
        } else {
            VertexContent::TexturedAndLit
        }
    }

    /// What the vertices of a mesh hold, by how many scalars of normals and
    /// of texture coordinates the mesh has.
    pub fn of_mesh(normals: usize, texcoords: usize) -> (content: VertexContent)
        ensures
            content == VertexContent::of(normals as nat, texcoords as nat),
    {
        if normals == 0 && texcoords == 0 {
            VertexContent::Positions
        } else if normals == 0 {
            VertexContent::Textured
        } else if texcoords == 0 {
            VertexContent::Lit
        } else {
            VertexContent::TexturedAndLit
        }
    }
}

/// The name of the material of a mesh: the name at the place that the mesh
/// gives, if it gives one and the list of names is that long.
pub fn material_name(material_id: Option<usize>, names: &Vec<String>) -> (name: Option<String>)
    ensures
        match material_id {
            Some(id) if id < names@.len() => name is Some && name->Some_0@ == names@[id as int]@,
            _ => name is None,
        },
{
    match material_id {
        Some(id) => {
            if id < names.len() {
                Some(names[id].clone())
            } else {
                None
            }
        },
        None => None,
    }
}

} // verus!
