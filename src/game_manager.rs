//! The board engine: builds a board, places bombs, counts neighbours, and reveals cells.

use crate::board::{
    board, bomb_at, bombs_around, count_around, counted_cell, dims_fit, grid_len, is_border,
    is_generated, lemma_board_is_generated, placed, placed_cell, revealed, Cell,
};
use crate::mine_source::{seeded_draw, MineSource};
use vstd::prelude::*;

verus! {

/// A playable cell gets a bomb with odds `BOMB_ODDS_NUMERATOR` in `BOMB_ODDS_DENOMINATOR`.
pub const BOMB_ODDS_NUMERATOR: u32 = 1;

/// See `BOMB_ODDS_NUMERATOR`.
pub const BOMB_ODDS_DENOMINATOR: u32 = 5;

/// What a game holds: its playable width and height, the seed of its bombs if any, and
/// its cells, row by row, border included.
pub ghost struct GameView {
    pub width: nat,
    pub height: nat,
    pub seed: Option<u64>,
    pub cells: Seq<(bool, Cell)>,
}

/// How many playable cells come before index `i`, in row-major order.
pub open spec fn playable_before(width: nat, height: nat, i: nat) -> nat
    decreases i,
{
    if i == 0 {
        0
    } else {
        playable_before(width, height, (i - 1) as nat) + if is_border(
            width,
            height,
            i - 1,
        ) {
            0nat
        } else {
            1nat
        }
    }
}

/// Whether seed `seed` puts a bomb at index `i`: the playable cells take the draws of the
/// seeded stream in row-major order.
pub open spec fn seeded_mine(width: nat, height: nat, seed: u64, i: int) -> bool {
    !is_border(width, height, i) && seeded_draw(
        seed,
        BOMB_ODDS_NUMERATOR,
        BOMB_ODDS_DENOMINATOR,
        playable_before(width, height, i as nat),
    )
}

/// For each index, whether seed `seed` puts a bomb there.
pub open spec fn seeded_mines(width: nat, height: nat, seed: u64) -> Seq<bool> {
    Seq::new(grid_len(width, height), |i: int| seeded_mine(width, height, seed, i))
}

/// The board that `generate` builds from seed `seed`.
pub open spec fn seeded_board(width: nat, height: nat, seed: u64) -> Seq<(bool, Cell)> {
    board(width, height, seeded_mines(width, height, seed))
}

/// A game whose cells are, where it has a seed, the board generated from that seed.
pub open spec fn generated_from_seed(g: GameView) -> bool {
    g.seed matches Some(s) ==> g.cells == seeded_board(g.width, g.height, s)
}

/// Two seeded games of the same dimensions, generated from the same seed, hold the same cells.
pub proof fn lemma_seeded_generation_deterministic(a: GameView, b: GameView)
    requires
        a.width == b.width,
        a.height == b.height,
        a.seed == b.seed,
        a.seed is Some,
        generated_from_seed(a),
        generated_from_seed(b),
    ensures
        a.cells == b.cells,
{
}

/// Where the cell count fits in a `usize`, so do the row length and the row count.
proof fn lemma_dims_fit(width: nat, height: nat)
    requires
        dims_fit(width, height),
    ensures
        width + 3 <= usize::MAX,
        height + 2 <= usize::MAX,
        2 * (width + 2) <= grid_len(width, height),
{
    assert((width + 2) * (height + 2) >= (width + 2) * 2) by (nonlinear_arith);
    assert((width + 2) * (height + 2) >= height + 2) by (nonlinear_arith);
}

/// A game of minesweeper: a board of `width * height` playable cells inside a border.
#[derive(Clone, Debug)]
pub struct GameManager {
    width: usize,
    height: usize,
    seed: Option<u64>,
    cells: Vec<(bool, Cell)>,
}

impl View for GameManager {
    type V = GameView;

    closed spec fn view(&self) -> GameView {
        GameView {
            width: self.width as nat,
            height: self.height as nat,
            seed: self.seed,
            cells: self.cells@,
        }
    }
}

impl GameManager {
    /// A game of the given size, and of the given seed if any, with no board yet.
    pub fn new(width: usize, height: usize, seed: Option<u64>) -> (r: GameManager)
        ensures
            r@.width == width,
            r@.height == height,
            r@.seed == seed,
            r@.cells == Seq::<(bool, Cell)>::empty(),
    {
        GameManager { width, height, seed, cells: Vec::new() }
    }

    /// Whether `index` lies in the first or last column, or in the first or last row.
    pub fn is_edge_cell(&self, index: usize) -> (r: bool)
        requires
            dims_fit(self@.width, self@.height),
        ensures
            r == is_border(self@.width, self@.height, index as int),
    {
        proof {
            lemma_dims_fit(self@.width, self@.height);
        }
        let row = self.width + 2;
        if index % row == 0 || index % row == self.width + 1 {
            return true;
        }
        if index <= self.width + 1 {
            return true;
        }
        let len = row * (self.height + 2);
        if len - row <= index && index <= len - 1 {
            return true;
        }
        false
    }

    /// One if `index` holds a bomb, zero if not or if it lies past the end.
    fn bomb_at_index(&self, index: usize) -> (r: usize)
        ensures
            r == bomb_at(self@.cells, index as int),
    {
        if index < self.cells.len() && self.cells[index].1 == Cell::Bomb {
            1
        } else {
            0
        }
    }

    /// One if `index + offset` holds a bomb, zero if not or if it lies past the end.
    fn bomb_after(&self, index: usize, offset: usize) -> (r: usize)
        ensures
            r == bomb_at(self@.cells, index + offset),
    {
        if index < self.cells.len() && offset < self.cells.len() - index {
            self.bomb_at_index(index + offset)
        } else {
            0
        }
    }

    /// The number of bombs among the eight neighbours of `index`, or `None` where the row
    /// above it would start before index zero.
    pub fn cell_count_bomb_around(&self, index: usize) -> (r: Option<usize>)
        requires
            dims_fit(self@.width, self@.height),
        ensures
            r is None <==> count_around(self@.width, self@.cells, index as int) is None,
            r matches Some(n) ==> n == bombs_around(self@.width, self@.cells, index as int),
    {
        proof {
            lemma_dims_fit(self@.width, self@.height);
        }
        let w = self.width;
        if index < w + 3 {
            return None;
        }
        let mut count: usize = self.bomb_at_index(index - 1);
        count = count + self.bomb_after(index, 1);
        count = count + self.bomb_at_index(index - (w + 3));
        count = count + self.bomb_at_index(index - (w + 2));
        count = count + self.bomb_at_index(index - (w + 1));
        count = count + self.bomb_after(index, w + 1);
        count = count + self.bomb_after(index, w + 2);
        count = count + self.bomb_after(index, w + 3);
        Some(count)
    }

    /// Lays out a fresh board with bombs where `mines` says, then counts the neighbours of
    /// every playable cell without a bomb. Entries of `mines` at border indices are ignored.
    pub fn generate_with_mines(&mut self, mines: &Vec<bool>)
        requires
            dims_fit(old(self)@.width, old(self)@.height),
            mines@.len() == grid_len(old(self)@.width, old(self)@.height),
        ensures
            final(self)@.width == old(self)@.width,
            final(self)@.height == old(self)@.height,
            final(self)@.seed == old(self)@.seed,
            final(self)@.cells == board(old(self)@.width, old(self)@.height, mines@),
            is_generated(final(self)@.width, final(self)@.height, final(self)@.cells),
    {
        let ghost w = self@.width;
        let ghost h = self@.height;
        proof {
            lemma_dims_fit(w, h);
        }
        let len = (self.width + 2) * (self.height + 2);
        let mut cells: Vec<(bool, Cell)> = Vec::new();
        let mut i: usize = 0;
        while i < len
            invariant
                self@.width == w,
                self@.height == h,
                dims_fit(w, h),
                len == grid_len(w, h),
                mines@.len() == len,
                i <= len,
                cells@.len() == i,
                forall|j: int| 0 <= j < i ==> #[trigger] cells@[j] == placed_cell(w, h, mines@, j),
            decreases len - i,
        {
            if self.is_edge_cell(i) || !mines[i] {
                cells.push((true, Cell::Empty));
            } else {
                cells.push((false, Cell::Bomb));
            }
            i = i + 1;
        }
        self.cells = cells;
        let ghost placed_cells = self@.cells;
        assert(placed_cells =~= placed(w, h, mines@));
        let mut result: Vec<(bool, Cell)> = Vec::new();
        let mut i: usize = 0;
        while i < len
            invariant
                self@.width == w,
                self@.height == h,
                self@.cells == placed_cells,
                dims_fit(w, h),
                len == grid_len(w, h),
                placed_cells.len() == len,
                i <= len,
                result@.len() == i,
                forall|j: int|
                    0 <= j < i ==> #[trigger] result@[j] == counted_cell(w, h, placed_cells, j),
            decreases len - i,
        {
            let cell = self.cells[i];
            if self.is_edge_cell(i) {
                result.push((true, Cell::Empty));
            } else if cell.1 == Cell::Bomb {
                result.push(cell);
            } else {
                match self.cell_count_bomb_around(i) {
                    Some(0) => result.push(cell),
                    Some(n) => result.push((false, Cell::NearBomb(n))),
                    None => result.push((false, Cell::Empty)),
                }
            }
            i = i + 1;
        }
        self.cells = result;
        proof {
            assert(self@.cells =~= board(w, h, mines@));
            lemma_board_is_generated(w, h, mines@);
        }
    }

    /// Generates a fresh board: each playable cell gets a bomb with odds one in five, drawn
    /// from the game's seed where it has one and from the operating system where it has none.
    pub fn generate(&mut self)
        requires
            dims_fit(old(self)@.width, old(self)@.height),
        ensures
            final(self)@.width == old(self)@.width,
            final(self)@.height == old(self)@.height,
            final(self)@.seed == old(self)@.seed,
            is_generated(final(self)@.width, final(self)@.height, final(self)@.cells),
            exists|mines: Seq<bool>|
                mines.len() == grid_len(old(self)@.width, old(self)@.height) && final(self)@.cells
                    == board(old(self)@.width, old(self)@.height, mines),
            generated_from_seed(final(self)@),
    {
        let ghost w = self@.width;
        let ghost h = self@.height;
        proof {
            lemma_dims_fit(w, h);
        }
        let mut source = match self.seed {
            Some(s) => MineSource::seeded(s, BOMB_ODDS_NUMERATOR, BOMB_ODDS_DENOMINATOR),
            None => MineSource::from_entropy(BOMB_ODDS_NUMERATOR, BOMB_ODDS_DENOMINATOR),
        };
        let len = (self.width + 2) * (self.height + 2);
        let mut mines: Vec<bool> = Vec::new();
        let mut i: usize = 0;
        while i < len
            invariant
                self@.width == w,
                self@.height == h,
                dims_fit(w, h),
                len == grid_len(w, h),
                i <= len,
                mines@.len() == i,
                source.seed() == self@.seed,
                source.numerator() == BOMB_ODDS_NUMERATOR,
                source.denominator() == BOMB_ODDS_DENOMINATOR,
                source.drawn() == playable_before(w, h, i as nat),
                self@.seed matches Some(s) ==> forall|j: int|
                    0 <= j < i ==> #[trigger] mines@[j] == seeded_mine(w, h, s, j),
            decreases len - i,
        {
            if self.is_edge_cell(i) {
                mines.push(false);
            } else {
                let m = source.draw();
                mines.push(m);
            }
            i = i + 1;
        }
        proof {
            if let Some(s) = self@.seed {
                assert(mines@ =~= seeded_mines(w, h, s));
            }
        }
        self.generate_with_mines(&mines);
    }

    /// Shows the cell at `index` and returns it as it now stands; nothing else changes.
    pub fn reveal_cell(&mut self, index: usize) -> (r: (bool, Cell))
        requires
            index < old(self)@.cells.len(),
        ensures
            final(self)@.width == old(self)@.width,
            final(self)@.height == old(self)@.height,
            final(self)@.seed == old(self)@.seed,
            final(self)@.cells == revealed(old(self)@.cells, index as int),
            final(self)@.cells[index as int].1 == old(self)@.cells[index as int].1,
            r == (true, old(self)@.cells[index as int].1),
    {
        let cell = (true, self.cells[index].1);
        self.cells.set(index, cell);
        cell
    }

    /// Number of playable columns.
    pub fn width(&self) -> (r: usize)
        ensures
            r == self@.width,
    {
        self.width
    }

    /// Number of playable rows.
    pub fn height(&self) -> (r: usize)
        ensures
            r == self@.height,
    {
        self.height
    }

    /// The seed that bombs are drawn from, if any.
    pub fn seed(&self) -> (r: Option<u64>)
        ensures
            r == self@.seed,
    {
        self.seed
    }

    /// All cells, row by row, border included; empty until the board is generated.
    pub fn cells(&self) -> (r: &Vec<(bool, Cell)>)
        ensures
            r@ == self@.cells,
    {
        &self.cells
    }

    /// The cell at `index`, with whether it is shown.
    pub fn cell(&self, index: usize) -> (r: (bool, Cell))
        requires
            index < self@.cells.len(),
        ensures
            r == self@.cells[index as int],
    {
        self.cells[index]
    }
}

} // verus!
