//! The two-dimensional array that holds shapes and the playfield.

use vstd::prelude::*;
use crate::piece::Piece;

verus! {

/// `array2d::Array2D`: a rectangular array. Nothing is known of a value of it
/// but what the functions below say.
#[verifier::external_type_specification]
#[verifier::external_body]
#[verifier::reject_recursive_types(T)]
pub struct ExArray2D<T>(array2d::Array2D<T>);

/// `array2d::Error`: why an array could not be built or written.
#[verifier::external_type_specification]
#[verifier::external_body]
pub struct ExGridError(array2d::Error);

/// What a cell holds: nothing, or the identity of the piece that fills it.
pub type Cell = Option<Piece>;

/// The rows of an array, top to bottom, each left to right.
pub uninterp spec fn cells_of(a: array2d::Array2D<Option<Piece>>) -> Seq<Seq<Option<Piece>>>;

/// The rows of a vector of vectors.
pub open spec fn rows_view(rows: Seq<Vec<Cell>>) -> Seq<Seq<Cell>> {
    Seq::new(rows.len(), |i: int| rows[i]@)
}

/// Every row is as long as the first.
pub open spec fn uniform(rows: Seq<Vec<Cell>>) -> bool {
    forall|i: int| 0 <= i < rows.len() ==> (#[trigger] rows[i]).len() == rows[0].len()
}

/// Whether a place lies inside the rows.
pub open spec fn inside(g: Seq<Seq<Cell>>, row: int, column: int) -> bool {
    0 <= row < g.len() && 0 <= column < g[row].len()
}

/// `Array2D::from_rows`: succeeds exactly when all rows have the length of the
/// first, and the array then holds the rows as given.
#[verifier::external_body]
pub(crate) fn grid_from_rows(rows: &Vec<Vec<Cell>>) -> (res: Result<array2d::Array2D<Cell>, array2d::Error>)
    ensures
        res.is_ok() <==> uniform(rows@),
        res.is_ok() ==> cells_of(res.unwrap()) == rows_view(rows@),
{
    array2d::Array2D::from_rows(rows)
}

/// Packs rows of equal length into an array.
pub(crate) fn assemble(rows: Vec<Vec<Cell>>) -> (blocks: array2d::Array2D<Cell>)
    requires
        uniform(rows@),
    ensures
        cells_of(blocks) == rows_view(rows@),
{
    match grid_from_rows(&rows) {
        Ok(blocks) => blocks,
        Err(_) => {
            proof {
                assert(false);
            }
            vstd::pervasive::unreached()
        },
    }
}

/// `Array2D::filled_with`: an array of the given size with the element in every place.
#[verifier::external_body]
pub(crate) fn grid_filled_with(element: Cell, num_rows: usize, num_columns: usize) -> (a: array2d::Array2D<Cell>)
    requires
        num_rows * num_columns <= usize::MAX,
    ensures
        cells_of(a) == Seq::new(num_rows as nat, |r: int| Seq::new(num_columns as nat, |c: int| element)),
{
    array2d::Array2D::filled_with(element, num_rows, num_columns)
}

/// `Array2D::get`: the element at a place inside the array, nothing outside it.
#[verifier::external_body]
pub(crate) fn grid_get(a: &array2d::Array2D<Cell>, row: usize, column: usize) -> (res: Option<Cell>)
    ensures
        res.is_some() <==> inside(cells_of(*a), row as int, column as int),
        res.is_some() ==> res.unwrap() == cells_of(*a)[row as int][column as int],
{
    a.get(row, column).copied()
}

/// `Array2D::set`: replaces the element at a place inside the array and leaves
/// the rest; outside the array it fails and changes nothing.
#[verifier::external_body]
pub(crate) fn grid_set(a: &mut array2d::Array2D<Cell>, row: usize, column: usize, element: Cell) -> (res: Result<(), array2d::Error>)
    ensures
        res.is_ok() <==> inside(cells_of(*old(a)), row as int, column as int),
        res.is_ok() ==> cells_of(*final(a)) == cells_of(*old(a)).update(
            row as int,
            cells_of(*old(a))[row as int].update(column as int, element),
        ),
        res.is_err() ==> cells_of(*final(a)) == cells_of(*old(a)),
{
    a.set(row, column, element)
}

} // verus!
