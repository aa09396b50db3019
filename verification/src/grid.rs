//! Rectangular grids and their quarter-turn rotations.
//!
//! A grid is modelled as `Seq<Seq<T>>`: a sequence of rows, top to bottom,
//! each row a sequence of cells, left to right. The executable functions work
//! on `Vec<Vec<T>>` and are specified through [`grid_of`].

use vstd::prelude::*;

verus! {

/// The grid that a vector of row vectors stands for.
pub open spec fn grid_of<T>(rows: &Vec<Vec<T>>) -> Seq<Seq<T>> {
    Seq::new(rows@.len(), |i: int| rows@[i]@)
}

/// Number of columns: the length of the first row, or 0 without rows.
pub open spec fn width<T>(g: Seq<Seq<T>>) -> nat {
    if g.len() == 0 {
        0
    } else {
        g[0].len()
    }
}

/// Every row is as long as the first one.
pub open spec fn rectangular<T>(g: Seq<Seq<T>>) -> bool {
    forall|i: int| 0 <= i < g.len() ==> (#[trigger] g[i]).len() == width(g)
}

/// A grid that can be rotated: at least one row, at least one column, and
/// all rows of equal length.
pub open spec fn well_formed<T>(g: Seq<Seq<T>>) -> bool {
    &&& g.len() >= 1
    &&& width(g) >= 1
    &&& rectangular(g)
}

/// Why a grid cannot be rotated.
#[derive(Clone, Copy, Debug, PartialEq, Eq, Structural)]
pub enum GridError {
    /// The grid has no rows.
    NoRows,
    /// Some row has no cells.
    EmptyRow,
    /// No row is empty, but the rows are not all of the same length.
    RaggedRows,
}

/// Some row of `g` has no cells.
pub open spec fn has_empty_row<T>(g: Seq<Seq<T>>) -> bool {
    exists|i: int| 0 <= i < g.len() && (#[trigger] g[i]).len() == 0
}

/// What is wrong with `g`, if anything: the first that applies of no rows,
/// an empty row, rows of different lengths.
pub open spec fn grid_fault<T>(g: Seq<Seq<T>>) -> Option<GridError> {
    if g.len() == 0 {
        Some(GridError::NoRows)
    } else if has_empty_row(g) {
        Some(GridError::EmptyRow)
    } else if !rectangular(g) {
        Some(GridError::RaggedRows)
    } else {
        None
    }
}

/// Rows become columns: cell `(j, i)` of the result is cell `(i, j)` of `g`.
pub open spec fn transposed<T>(g: Seq<Seq<T>>) -> Seq<Seq<T>> {
    Seq::new(width(g), |j: int| Seq::new(g.len(), |i: int| g[i][j]))
}

/// Every row is reversed; the order of the rows stays.
pub open spec fn reflected<T>(g: Seq<Seq<T>>) -> Seq<Seq<T>> {
    Seq::new(g.len(), |i: int| g[i].reverse())
}

/// A quarter turn clockwise. With `R` rows and `C` columns in `g`, the result
/// has `C` rows and `R` columns, and its cell `(j, i)` is cell `(R-1-i, j)`
/// of `g`.
pub open spec fn rotated_cw<T>(g: Seq<Seq<T>>) -> Seq<Seq<T>> {
    Seq::new(width(g), |j: int| Seq::new(g.len(), |i: int| g[g.len() - 1 - i][j]))
}

/// A quarter turn counter-clockwise. With `R` rows and `C` columns in `g`,
/// the result has `C` rows and `R` columns, and its cell `(j, i)` is cell
/// `(i, C-1-j)` of `g`.
pub open spec fn rotated_ccw<T>(g: Seq<Seq<T>>) -> Seq<Seq<T>> {
    Seq::new(width(g), |j: int| Seq::new(g.len(), |i: int| g[i][width(g) - 1 - j]))
}

/// Tells whether the rows form a grid that can be rotated, and if not, why.
pub fn validate_grid<T>(rows: &Vec<Vec<T>>) -> (outcome: Result<(), GridError>)
    ensures
        outcome is Ok <==> well_formed(grid_of(rows)),
        grid_fault(grid_of(rows)) == (match outcome {
            Ok(_) => None,
            Err(fault) => Some(fault),
        }),
{
    let ghost g = grid_of(rows);
    if rows.len() == 0 {
        return Err(GridError::NoRows);
    }
    let first = rows[0].len();
    let mut ragged = false;
    let mut i: usize = 0;
    while i < rows.len()
        invariant
            g == grid_of(rows),
            g.len() >= 1,
            first == g[0].len(),
            i <= rows.len(),
            forall|k: int| 0 <= k < i ==> (#[trigger] g[k]).len() != 0,
            ragged <==> exists|k: int| 0 <= k < i && (#[trigger] g[k]).len() != first,
        decreases rows.len() - i,
    {
        assert(g[i as int] == rows@[i as int]@);
        let n = rows[i].len();
        if n == 0 {
            return Err(GridError::EmptyRow);
        }
        if n != first {
            ragged = true;
        }
        i += 1;
    }
    if ragged {
        Err(GridError::RaggedRows)
    } else {
        Ok(())
    }
}

/// Reverses every row of `m`, keeping the rows in order.
pub fn matrix_reflect<T: Copy>(m: &Vec<Vec<T>>) -> (out: Vec<Vec<T>>)
    ensures
        grid_of(&out) == reflected(grid_of(m)),
{
    let mut out: Vec<Vec<T>> = Vec::new();
    let mut i: usize = 0;
    while i < m.len()
        invariant
            i <= m.len(),
            out.len() == i,
            forall|k: int| 0 <= k < i ==> (#[trigger] out@[k])@ == m@[k]@.reverse(),
        decreases m.len() - i,
    {
        let row = &m[i];
        let n = row.len();
        let mut rev: Vec<T> = Vec::new();
        let mut j: usize = 0;
        while j < n
            invariant
                n == row.len(),
                j <= n,
                rev.len() == j,
                forall|k: int| 0 <= k < j ==> #[trigger] rev@[k] == row@[n - 1 - k],
            decreases n - j,
        {
            rev.push(row[n - 1 - j]);
            j += 1;
        }
        out.push(rev);
        i += 1;
    }
    out
}

/// Turns the rows of `matrix` into columns. The rows must form a grid that
/// can be rotated; [`validate_grid`] tells whether they do.
pub fn matrix_transpose<T: Copy>(matrix: &Vec<Vec<T>>) -> (out: Vec<Vec<T>>)
    requires
        well_formed(grid_of(matrix)),
    ensures
        grid_of(&out) == transposed(grid_of(matrix)),
{
    let ghost g = grid_of(matrix);
    let rows = matrix.len();
    let cols = matrix[0].len();
    let mut out: Vec<Vec<T>> = Vec::new();
    let mut j: usize = 0;
    while j < cols
        invariant
            g == grid_of(matrix),
            well_formed(g),
            rows == g.len(),
            cols == width(g),
            j <= cols,
            out.len() == j,
            forall|k: int| 0 <= k < j ==> (#[trigger] out@[k])@ == transposed(g)[k],
        decreases cols - j,
    {
        let mut column: Vec<T> = Vec::new();
        let mut i: usize = 0;
        while i < rows
            invariant
                g == grid_of(matrix),
                well_formed(g),
                rows == g.len(),
                cols == width(g),
                j < cols,
                i <= rows,
                column.len() == i,
                forall|k: int| 0 <= k < i ==> #[trigger] column@[k] == g[k][j as int],
            decreases rows - i,
        {
            assert(g[i as int] == matrix@[i as int]@);
            column.push(matrix[i][j]);
            i += 1;
        }
        out.push(column);
        j += 1;
    }
    out
}

/// A grid can be rotated exactly if nothing is wrong with it.
pub proof fn lemma_no_fault_is_well_formed<T>(g: Seq<Seq<T>>)
    ensures
        grid_fault(g) is None <==> well_formed(g),
{
}

/// A clockwise quarter turn is a transposition followed by the reversal of
/// every row.
pub proof fn lemma_cw_is_transpose_then_reflect<T>(g: Seq<Seq<T>>)
    ensures
        rotated_cw(g) == reflected(transposed(g)),
{
    assert(rotated_cw(g) =~~= reflected(transposed(g)));
}

/// A counter-clockwise quarter turn is a transposition followed by the
/// reversal of the order of the rows.
pub proof fn lemma_ccw_is_transpose_then_flip<T>(g: Seq<Seq<T>>)
    ensures
        rotated_ccw(g) == transposed(g).reverse(),
{
}

/// On a rectangular grid, a counter-clockwise quarter turn is also the
/// reversal of every row followed by a transposition.
pub proof fn lemma_ccw_is_reflect_then_transpose<T>(g: Seq<Seq<T>>)
    requires
        rectangular(g),
    ensures
        rotated_ccw(g) == transposed(reflected(g)),
{
    assert(rotated_ccw(g) =~~= transposed(reflected(g)));
}

/// A quarter turn of a grid with `R` rows and `C` columns, in either
/// direction, has `C` rows and `R` columns, and can be rotated again.
pub proof fn lemma_rotation_swaps_dimensions<T>(g: Seq<Seq<T>>)
    requires
        well_formed(g),
    ensures
        rotated_cw(g).len() == width(g),
        width(rotated_cw(g)) == g.len(),
        well_formed(rotated_cw(g)),
        rotated_ccw(g).len() == width(g),
        width(rotated_ccw(g)) == g.len(),
        well_formed(rotated_ccw(g)),
{
}

/// A clockwise quarter turn followed by a counter-clockwise one gives the
/// grid back, cell for cell.
pub proof fn lemma_cw_then_ccw<T>(g: Seq<Seq<T>>)
    requires
        well_formed(g),
    ensures
        rotated_ccw(rotated_cw(g)) == g,
{
    assert(rotated_ccw(rotated_cw(g)) =~~= g);
}

/// A counter-clockwise quarter turn followed by a clockwise one gives the
/// grid back, cell for cell.
pub proof fn lemma_ccw_then_cw<T>(g: Seq<Seq<T>>)
    requires
        well_formed(g),
    ensures
        rotated_cw(rotated_ccw(g)) == g,
{
    assert(rotated_cw(rotated_ccw(g)) =~~= g);
}

/// Four clockwise quarter turns give the grid back, cell for cell.
pub proof fn lemma_four_cw_turns<T>(g: Seq<Seq<T>>)
    requires
        well_formed(g),
    ensures
        rotated_cw(rotated_cw(rotated_cw(rotated_cw(g)))) == g,
{
    let g1 = rotated_cw(g);
    let g2 = rotated_cw(g1);
    let g3 = rotated_cw(g2);
    assert(rotated_cw(g3) =~~= g);
}

} // verus!
