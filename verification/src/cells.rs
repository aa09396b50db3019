//! Counting the filled cells of a grid of `bool`, and what rotation does to
//! the count.

use vstd::prelude::*;
use crate::grid::lemma_ccw_is_reflect_then_transpose;
use crate::grid::lemma_cw_is_transpose_then_reflect;
use crate::grid::rectangular;
use crate::grid::reflected;
use crate::grid::rotated_ccw;
use crate::grid::rotated_cw;
use crate::grid::transposed;
use crate::grid::well_formed;
use crate::grid::width;

verus! {

/// 1 for a filled cell, 0 for an empty one.
pub open spec fn one_if(cell: bool) -> nat {
    if cell {
        1
    } else {
        0
    }
}

/// Number of filled cells in a row.
pub open spec fn filled_in_row(row: Seq<bool>) -> nat
    decreases row.len(),
{
    if row.len() == 0 {
        0
    } else {
        filled_in_row(row.drop_last()) + one_if(row.last())
    }
}

/// Number of filled cells in a grid.
pub open spec fn filled_cells(g: Seq<Seq<bool>>) -> nat
    decreases g.len(),
{
    if g.len() == 0 {
        0
    } else {
        filled_cells(g.drop_last()) + filled_in_row(g.last())
    }
}

/// The count of a short row, cell by cell.
pub(crate) proof fn lemma_filled_in_short_row(row: Seq<bool>)
    ensures
        row.len() == 2 ==> filled_in_row(row) == one_if(row[0]) + one_if(row[1]),
        row.len() == 3 ==> filled_in_row(row) == one_if(row[0]) + one_if(row[1]) + one_if(row[2]),
        row.len() == 4 ==> filled_in_row(row) == one_if(row[0]) + one_if(row[1]) + one_if(row[2])
            + one_if(row[3]),
{
    reveal_with_fuel(filled_in_row, 5);
}

/// The count of a grid of one or two rows, row by row.
pub(crate) proof fn lemma_filled_cells_of_few_rows(g: Seq<Seq<bool>>)
    ensures
        g.len() == 1 ==> filled_cells(g) == filled_in_row(g[0]),
        g.len() == 2 ==> filled_cells(g) == filled_in_row(g[0]) + filled_in_row(g[1]),
{
    reveal_with_fuel(filled_cells, 3);
}

/// A cell put in front of a row counts like one put behind it.
proof fn lemma_filled_in_row_front(cell: bool, row: Seq<bool>)
    ensures
        filled_in_row(seq![cell] + row) == one_if(cell) + filled_in_row(row),
    decreases row.len(),
{
    let whole = seq![cell] + row;
    if row.len() == 0 {
        assert(whole.drop_last() =~= row);
    } else {
        assert(whole.drop_last() =~= seq![cell] + row.drop_last());
        lemma_filled_in_row_front(cell, row.drop_last());
    }
}

/// A row read backwards has as many filled cells.
pub proof fn lemma_filled_in_reversed_row(row: Seq<bool>)
    ensures
        filled_in_row(row.reverse()) == filled_in_row(row),
    decreases row.len(),
{
    if row.len() > 0 {
        let rest = row.drop_last();
        assert(row.reverse() =~= seq![row.last()] + rest.reverse());
        lemma_filled_in_row_front(row.last(), rest.reverse());
        lemma_filled_in_reversed_row(rest);
    }
}

/// Reversing every row keeps the number of filled cells.
pub proof fn lemma_filled_cells_reflected(g: Seq<Seq<bool>>)
    ensures
        filled_cells(reflected(g)) == filled_cells(g),
    decreases g.len(),
{
    if g.len() > 0 {
        assert(reflected(g).drop_last() =~= reflected(g.drop_last()));
        lemma_filled_cells_reflected(g.drop_last());
        lemma_filled_in_reversed_row(g.last());
    }
}

/// The first `w` columns of `g`, each read top to bottom.
spec fn columns(g: Seq<Seq<bool>>, w: nat) -> Seq<Seq<bool>> {
    Seq::new(w, |j: int| Seq::new(g.len(), |i: int| g[i][j]))
}

/// Where every row of `longer` is the row of `shorter` at the same place
/// with one cell of `added` behind it, `longer` has the filled cells of
/// `shorter` and those of `added`.
proof fn lemma_filled_cells_with_added_cells(
    longer: Seq<Seq<bool>>,
    shorter: Seq<Seq<bool>>,
    added: Seq<bool>,
)
    requires
        longer.len() == shorter.len(),
        longer.len() == added.len(),
        forall|j: int| 0 <= j < longer.len() ==> #[trigger] longer[j] == shorter[j].push(added[j]),
    ensures
        filled_cells(longer) == filled_cells(shorter) + filled_in_row(added),
    decreases longer.len(),
{
    if longer.len() > 0 {
        let last = longer.len() - 1;
        lemma_filled_cells_with_added_cells(
            longer.drop_last(),
            shorter.drop_last(),
            added.drop_last(),
        );
        assert(longer[last].drop_last() =~= shorter[last]);
    }
}

/// The columns of a grid whose rows all have `w` cells hold as many filled
/// cells as its rows.
proof fn lemma_filled_cells_in_columns(g: Seq<Seq<bool>>, w: nat)
    requires
        forall|i: int| 0 <= i < g.len() ==> (#[trigger] g[i]).len() == w,
    ensures
        filled_cells(columns(g, w)) == filled_cells(g),
    decreases g.len(), w,
{
    if g.len() == 0 {
        if w > 0 {
            assert(columns(g, w).drop_last() =~= columns(g, (w - 1) as nat));
            lemma_filled_cells_in_columns(g, (w - 1) as nat);
        }
    } else {
        let above = g.drop_last();
        lemma_filled_cells_in_columns(above, w);
        assert forall|j: int| 0 <= j < w implies #[trigger] columns(g, w)[j] =~= columns(above, w)[j].push(
            g.last()[j],
        ) by {}
        lemma_filled_cells_with_added_cells(columns(g, w), columns(above, w), g.last());
    }
}

/// Turning the rows of a rectangular grid into columns keeps the number of
/// filled cells.
pub proof fn lemma_filled_cells_transposed(g: Seq<Seq<bool>>)
    requires
        rectangular(g),
    ensures
        filled_cells(transposed(g)) == filled_cells(g),
{
    lemma_filled_cells_in_columns(g, width(g));
}

/// A quarter turn, in either direction, keeps the number of filled cells.
pub proof fn lemma_rotation_keeps_filled_cells(g: Seq<Seq<bool>>)
    requires
        well_formed(g),
    ensures
        filled_cells(rotated_cw(g)) == filled_cells(g),
        filled_cells(rotated_ccw(g)) == filled_cells(g),
{
    lemma_cw_is_transpose_then_reflect(g);
    lemma_filled_cells_reflected(transposed(g));
    lemma_filled_cells_transposed(g);
    lemma_ccw_is_reflect_then_transpose(g);
    lemma_filled_cells_transposed(reflected(g));
    lemma_filled_cells_reflected(g);
}

} // verus!
