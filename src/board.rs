//! The mathematical model of a board: a flat, row-major sequence of `(revealed, cell)`
//! pairs, `width + 2` cells to a row and `height + 2` rows, whose outermost ring of cells
//! is a border that never holds a bomb.

use vstd::prelude::*;

verus! {

/// What a cell holds.
#[derive(Clone, Copy, Debug, PartialEq, Eq, Structural)]
pub enum Cell {
    /// No bomb and no bomb next to it; also every border cell.
    Empty,
    /// A bomb.
    Bomb,
    /// No bomb, with this many bombs among its eight neighbours.
    NearBomb(usize),
}

/// Number of cells in one row, border included.
pub open spec fn row_len(width: nat) -> nat {
    width + 2
}

/// Number of cells of a board with `width * height` playable cells, border included.
pub open spec fn grid_len(width: nat, height: nat) -> nat {
    (width + 2) * (height + 2)
}

/// The board's dimensions can be laid out in memory: its cell count fits in a `usize`.
pub open spec fn dims_fit(width: nat, height: nat) -> bool {
    grid_len(width, height) <= usize::MAX
}

/// Index `i` lies in the first or last column, or in the first or last row.
pub open spec fn is_border(width: nat, height: nat, i: int) -> bool {
    let row = row_len(width) as int;
    let len = grid_len(width, height) as int;
    i % row == 0 || i % row == width + 1 || i <= width + 1 || (len - row <= i && i <= len - 1)
}

/// One if index `j` holds a bomb, zero if it does not or lies outside the board.
pub open spec fn bomb_at(cells: Seq<(bool, Cell)>, j: int) -> nat {
    if 0 <= j < cells.len() && cells[j].1 == Cell::Bomb {
        1
    } else {
        0
    }
}

/// The number of bombs among the eight neighbours of index `i`: left and right, and the
/// three cells above and the three below.
pub open spec fn bombs_around(width: nat, cells: Seq<(bool, Cell)>, i: int) -> nat {
    bomb_at(cells, i - 1) + bomb_at(cells, i + 1) + bomb_at(cells, i - (width + 3)) + bomb_at(
        cells,
        i - (width + 2),
    ) + bomb_at(cells, i - (width + 1)) + bomb_at(cells, i + (width + 1)) + bomb_at(
        cells,
        i + (width + 2),
    ) + bomb_at(cells, i + (width + 3))
}

/// The neighbour count of index `i`, or `None` where the row above would start before
/// index zero.
pub open spec fn count_around(width: nat, cells: Seq<(bool, Cell)>, i: int) -> Option<nat> {
    if i < width + 3 {
        None
    } else {
        Some(bombs_around(width, cells, i))
    }
}

/// The cell at index `i` after bombs are placed where `mines` says: border cells and cells
/// without a bomb are empty and shown, bombs are hidden.
pub open spec fn placed_cell(width: nat, height: nat, mines: Seq<bool>, i: int) -> (bool, Cell) {
    if is_border(width, height, i) || !mines[i] {
        (true, Cell::Empty)
    } else {
        (false, Cell::Bomb)
    }
}

/// The board after bombs are placed, before any cell is counted.
pub open spec fn placed(width: nat, height: nat, mines: Seq<bool>) -> Seq<(bool, Cell)> {
    Seq::new(grid_len(width, height), |i: int| placed_cell(width, height, mines, i))
}

/// The cell at index `i` once neighbours are counted: a playable cell without a bomb and with
/// bombs around it becomes a hidden `NearBomb`; one with none around it is left as it was.
pub open spec fn counted_cell(width: nat, height: nat, cells: Seq<(bool, Cell)>, i: int) -> (
    bool,
    Cell,
) {
    if is_border(width, height, i) {
        (true, Cell::Empty)
    } else if cells[i].1 == Cell::Bomb {
        cells[i]
    } else {
        match count_around(width, cells, i) {
            None => (false, Cell::Empty),
            Some(n) => if n == 0 {
                cells[i]
            } else {
                (false, Cell::NearBomb(n as usize))
            },
        }
    }
}

/// The board after every cell is counted.
pub open spec fn counted(width: nat, height: nat, cells: Seq<(bool, Cell)>) -> Seq<(bool, Cell)> {
    Seq::new(cells.len(), |i: int| counted_cell(width, height, cells, i))
}

/// The board generated from `mines`, which says for each index whether a bomb is drawn there.
pub open spec fn board(width: nat, height: nat, mines: Seq<bool>) -> Seq<(bool, Cell)> {
    counted(width, height, placed(width, height, mines))
}

/// The board has the right size, and every border cell is empty and shown.
pub open spec fn borders_empty(width: nat, height: nat, cells: Seq<(bool, Cell)>) -> bool {
    &&& cells.len() == grid_len(width, height)
    &&& forall|i: int|
        0 <= i < cells.len() && is_border(width, height, i) ==> #[trigger] cells[i] == (
            true,
            Cell::Empty,
        )
}

/// Every bomb is hidden.
pub open spec fn bombs_hidden(width: nat, height: nat, cells: Seq<(bool, Cell)>) -> bool {
    forall|i: int|
        0 <= i < cells.len() && !is_border(width, height, i) && (#[trigger] cells[i]).1
            == Cell::Bomb ==> !cells[i].0
}

/// Every playable cell without a bomb shows its exact neighbour count: empty and shown where
/// no bomb is next to it, else a hidden `NearBomb` with the count.
pub open spec fn counts_exact(width: nat, height: nat, cells: Seq<(bool, Cell)>) -> bool {
    forall|i: int|
        0 <= i < cells.len() && !is_border(width, height, i) && (#[trigger] cells[i]).1
            != Cell::Bomb ==> if bombs_around(width, cells, i) == 0 {
            cells[i] == (true, Cell::Empty)
        } else {
            cells[i] == (false, Cell::NearBomb(bombs_around(width, cells, i) as usize))
        }
}

/// What holds of every freshly generated board.
pub open spec fn is_generated(width: nat, height: nat, cells: Seq<(bool, Cell)>) -> bool {
    &&& borders_empty(width, height, cells)
    &&& bombs_hidden(width, height, cells)
    &&& counts_exact(width, height, cells)
}

/// The board after the cell at `i` is shown.
pub open spec fn revealed(cells: Seq<(bool, Cell)>, i: int) -> Seq<(bool, Cell)> {
    cells.update(i, (true, cells[i].1))
}

/// A playable cell is at least one full row plus one cell from the start, and at least
/// one full row plus one cell from the end.
pub proof fn lemma_playable_in_range(width: nat, height: nat, i: int)
    requires
        0 <= i < grid_len(width, height),
        !is_border(width, height, i),
    ensures
        width + 3 <= i,
        i + width + 3 < grid_len(width, height),
{
    let row = row_len(width) as int;
    let len = grid_len(width, height) as int;
    assert(row % row == 0) by (nonlinear_arith)
        requires
            row > 0,
    ;
    assert(len == row * (height + 2));
    assert((len - row - 1) % row == row - 1) by (nonlinear_arith)
        requires
            len == row * (height + 2),
            row > 0,
    ;
}

/// A board generated from any draw of bombs has empty, shown borders, hidden bombs and
/// exact neighbour counts.
pub proof fn lemma_board_is_generated(width: nat, height: nat, mines: Seq<bool>)
    ensures
        is_generated(width, height, board(width, height, mines)),
{
    let p = placed(width, height, mines);
    let b = board(width, height, mines);
    assert forall|j: int| #[trigger] bomb_at(b, j) == bomb_at(p, j) by {
        if 0 <= j < b.len() {
            assert(b[j] == counted_cell(width, height, p, j));
        }
    }
    assert forall|i: int|
        0 <= i < b.len() && !is_border(width, height, i) && (#[trigger] b[i]).1
            != Cell::Bomb implies if bombs_around(width, b, i) == 0 {
        b[i] == (true, Cell::Empty)
    } else {
        b[i] == (false, Cell::NearBomb(bombs_around(width, b, i) as usize))
    } by {
        lemma_playable_in_range(width, height, i);
        assert(bomb_at(b, i - 1) == bomb_at(p, i - 1));
        assert(bomb_at(b, i + 1) == bomb_at(p, i + 1));
        assert(bomb_at(b, i - (width + 3)) == bomb_at(p, i - (width + 3)));
        assert(bomb_at(b, i - (width + 2)) == bomb_at(p, i - (width + 2)));
        assert(bomb_at(b, i - (width + 1)) == bomb_at(p, i - (width + 1)));
        assert(bomb_at(b, i + (width + 1)) == bomb_at(p, i + (width + 1)));
        assert(bomb_at(b, i + (width + 2)) == bomb_at(p, i + (width + 2)));
        assert(bomb_at(b, i + (width + 3)) == bomb_at(p, i + (width + 3)));
        assert(bombs_around(width, b, i) == bombs_around(width, p, i));
    }
}

/// Showing a cell a second time changes nothing: the cell stays shown, keeps what it holds,
/// and no other cell changes.
pub proof fn lemma_reveal_idempotent(cells: Seq<(bool, Cell)>, i: int)
    requires
        0 <= i < cells.len(),
    ensures
        revealed(revealed(cells, i), i) == revealed(cells, i),
        revealed(cells, i)[i] == (true, cells[i].1),
        forall|j: int|
            0 <= j < cells.len() && j != i ==> #[trigger] revealed(revealed(cells, i), i)[j]
                == cells[j],
{
    assert(revealed(revealed(cells, i), i) =~= revealed(cells, i));
}

} // verus!
