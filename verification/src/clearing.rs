//! What holds of clearing full rows.

use vstd::prelude::*;
use crate::grid::Cell;
use crate::board::{ROWS, COLS, empty_row, well_sized, row_full, no_full_row, survivors, full_rows, cleared, with_cell};

verus! {

/// Where the row at index `i` stands after clearing, if it stays: it moves
/// down by the number of full rows below it.
pub open spec fn landing(g: Seq<Seq<Cell>>, i: int) -> int {
    i + full_rows(g.skip(i + 1))
}

/// No more rows stay than there are.
pub proof fn lemma_survivors_len(g: Seq<Seq<Cell>>)
    ensures
        survivors(g).len() <= g.len(),
        0 <= full_rows(g) <= g.len(),
    decreases g.len(),
{
    if g.len() > 0 {
        lemma_survivors_len(g.drop_last());
    }
}

/// The rows that stay of two grids on top of each other are those of the
/// upper one followed by those of the lower one.
pub proof fn lemma_survivors_concat(a: Seq<Seq<Cell>>, b: Seq<Seq<Cell>>)
    ensures
        survivors(a + b) == survivors(a) + survivors(b),
    decreases b.len(),
{
    if b.len() == 0 {
        assert(a + b =~= a);
    } else {
        assert((a + b).drop_last() =~= a + b.drop_last());
        lemma_survivors_concat(a, b.drop_last());
        if row_full(b.last()) {
        } else {
            assert(survivors(a + b) =~= survivors(a) + survivors(b));
        }
    }
}

/// Every row that stays is a row that is not full, of the fixed width if all
/// rows were.
pub proof fn lemma_survivors_rows(g: Seq<Seq<Cell>>)
    ensures
        no_full_row(survivors(g)),
        (forall|r: int| 0 <= r < g.len() ==> (#[trigger] g[r]).len() == COLS) ==> (forall|r: int|
            0 <= r < survivors(g).len() ==> (#[trigger] survivors(g)[r]).len() == COLS),
    decreases g.len(),
{
    if g.len() > 0 {
        lemma_survivors_rows(g.drop_last());
        if forall|r: int| 0 <= r < g.len() ==> (#[trigger] g[r]).len() == COLS {
            assert forall|r: int| 0 <= r < g.drop_last().len() implies (#[trigger] g.drop_last()[r]).len()
                == COLS by {
                assert(g.drop_last()[r] == g[r]);
            }
        }
    }
}

/// Where no row is full, all rows stay.
pub proof fn lemma_survivors_all(g: Seq<Seq<Cell>>)
    requires
        no_full_row(g),
    ensures
        survivors(g) == g,
    decreases g.len(),
{
    if g.len() > 0 {
        assert forall|r: int| 0 <= r < g.drop_last().len() implies !row_full(#[trigger] g.drop_last()[r]) by {
            assert(g.drop_last()[r] == g[r]);
        }
        lemma_survivors_all(g.drop_last());
    } else {
        assert(survivors(g) =~= g);
    }
}

/// Clearing keeps the playfield's size and leaves no full row.
pub proof fn lemma_cleared_settled(g: Seq<Seq<Cell>>)
    requires
        well_sized(g),
    ensures
        well_sized(cleared(g)),
        no_full_row(cleared(g)),
        0 <= full_rows(g) <= ROWS,
{
    lemma_survivors_len(g);
    lemma_survivors_rows(g);
    let k = full_rows(g);
    assert forall|r: int| 0 <= r < cleared(g).len() implies (#[trigger] cleared(g)[r]).len() == COLS && !row_full(
        cleared(g)[r],
    ) by {
        if r < k {
            assert(empty_row()[0].is_none());
        } else {
            assert(cleared(g)[r] == survivors(g)[r - k]);
        }
    }
}

/// Clearing a playfield without a full row removes nothing and changes
/// nothing; so clearing twice is the same as clearing once.
pub proof fn lemma_clear_idle(g: Seq<Seq<Cell>>)
    requires
        well_sized(g),
    ensures
        no_full_row(g) ==> full_rows(g) == 0 && cleared(g) == g,
        full_rows(cleared(g)) == 0,
        cleared(cleared(g)) == cleared(g),
{
    if no_full_row(g) {
        lemma_survivors_all(g);
    }
    lemma_cleared_settled(g);
    lemma_survivors_all(cleared(g));
}

/// Writing one cell of a playfield without a full row completes at most one row.
pub proof fn lemma_one_cell(g: Seq<Seq<Cell>>, row: int, column: int, cell: Cell)
    requires
        well_sized(g),
        no_full_row(g),
        0 <= row < ROWS,
        0 <= column < COLS,
    ensures
        well_sized(with_cell(g, row, column, cell)),
        0 <= full_rows(with_cell(g, row, column, cell)) <= 1,
{
    let h = with_cell(g, row, column, cell);
    let a = h.take(row);
    let m = seq![h[row]];
    let b = h.skip(row + 1);
    assert(h =~= a + m + b);
    lemma_survivors_concat(a + m, b);
    lemma_survivors_concat(a, m);
    assert forall|r: int| 0 <= r < a.len() implies !row_full(#[trigger] a[r]) by {
        assert(a[r] == g[r]);
    }
    assert forall|r: int| 0 <= r < b.len() implies !row_full(#[trigger] b[r]) by {
        assert(b[r] == g[r + row + 1]);
    }
    lemma_survivors_all(a);
    lemma_survivors_all(b);
    lemma_survivors_len(m);
    lemma_survivors_len(h);
}

/// Where all full rows lie within four rows that follow each other, as
/// after a piece was locked, no more than four rows are cleared.
pub proof fn lemma_clear_within_span(g: Seq<Seq<Cell>>, top: int)
    requires
        0 <= top,
        top + 4 <= g.len(),
        forall|r: int| 0 <= r < g.len() && row_full(#[trigger] g[r]) ==> top <= r < top + 4,
    ensures
        0 <= full_rows(g) <= 4,
{
    let a = g.take(top);
    let m = g.subrange(top, top + 4);
    let b = g.skip(top + 4);
    assert(g =~= a + m + b);
    lemma_survivors_concat(a + m, b);
    lemma_survivors_concat(a, m);
    assert forall|r: int| 0 <= r < a.len() implies !row_full(#[trigger] a[r]) by {
        assert(a[r] == g[r]);
    }
    assert forall|r: int| 0 <= r < b.len() implies !row_full(#[trigger] b[r]) by {
        assert(b[r] == g[r + top + 4]);
    }
    lemma_survivors_all(a);
    lemma_survivors_all(b);
    lemma_survivors_len(m);
}

/// A row that is not full is found again after clearing, moved down by the
/// number of full rows below it.
pub proof fn lemma_row_lands(g: Seq<Seq<Cell>>, i: int)
    requires
        0 <= i < g.len(),
        !row_full(g[i]),
    ensures
        0 <= landing(g, i) < cleared(g).len(),
        cleared(g)[landing(g, i)] == g[i],
        landing(g, i) == full_rows(g) + survivors(g.take(i)).len(),
{
    let a = g.take(i);
    let m = seq![g[i]];
    let b = g.skip(i + 1);
    assert(g =~= a + m + b);
    lemma_survivors_concat(a + m, b);
    lemma_survivors_concat(a, m);
    assert(survivors(m) =~= m) by {
        assert(survivors(m.drop_last()) =~= Seq::<Seq<Cell>>::empty());
    }
    lemma_survivors_len(a);
    lemma_survivors_len(b);
    lemma_survivors_len(g);
}

/// Clearing keeps the number of rows, and two rows that stay keep their
/// order: the upper one is still above the lower one.
pub proof fn lemma_clear_keeps_order(g: Seq<Seq<Cell>>, i: int, j: int)
    requires
        0 <= i < j < g.len(),
        !row_full(g[i]),
        !row_full(g[j]),
    ensures
        cleared(g).len() == g.len(),
        0 <= landing(g, i) < landing(g, j) < g.len(),
        cleared(g)[landing(g, i)] == g[i],
        cleared(g)[landing(g, j)] == g[j],
{
    lemma_survivors_len(g);
    lemma_row_lands(g, i);
    lemma_row_lands(g, j);
    let a = g.take(i);
    let m = seq![g[i]];
    let c = g.subrange(i + 1, j);
    assert(g.take(j) =~= a + m + c);
    lemma_survivors_concat(a + m, c);
    lemma_survivors_concat(a, m);
    assert(survivors(m) =~= m) by {
        assert(survivors(m.drop_last()) =~= Seq::<Seq<Cell>>::empty());
    }
    lemma_survivors_len(c);
}

} // verus!
