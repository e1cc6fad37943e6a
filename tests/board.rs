use bomb_game::{Cell, GameManager};

fn row(g: &GameManager) -> usize {
    g.width() + 2
}

fn border(g: &GameManager, i: usize) -> bool {
    let r = row(g);
    let len = g.cells().len();
    i % r == 0 || i % r == r - 1 || i < r || i >= len - r
}

fn manual_count(g: &GameManager, i: usize) -> usize {
    let r = row(g) as isize;
    let i = i as isize;
    let cells = g.cells();
    [i - 1, i + 1, i - r - 1, i - r, i - r + 1, i + r - 1, i + r, i + r + 1]
        .iter()
        .filter(|&&j| j >= 0 && (j as usize) < cells.len() && cells[j as usize].1 == Cell::Bomb)
        .count()
}

fn check_generated(g: &GameManager) {
    assert_eq!(g.cells().len(), (g.width() + 2) * (g.height() + 2));
    for i in 0..g.cells().len() {
        let (shown, cell) = g.cell(i);
        if border(g, i) {
            assert_eq!((shown, cell), (true, Cell::Empty));
        } else if cell == Cell::Bomb {
            assert!(!shown);
        } else {
            let n = manual_count(g, i);
            if n == 0 {
                assert_eq!((shown, cell), (true, Cell::Empty));
            } else {
                assert_eq!((shown, cell), (false, Cell::NearBomb(n)));
            }
        }
    }
}

fn mines_where(width: usize, height: usize, pick: impl Fn(usize) -> bool) -> Vec<bool> {
    (0..(width + 2) * (height + 2)).map(pick).collect()
}

#[test]
fn new_has_no_board() {
    let g = GameManager::new(4, 3, Some(9));
    assert_eq!(g.width(), 4);
    assert_eq!(g.height(), 3);
    assert_eq!(g.seed(), Some(9));
    assert!(g.cells().is_empty());
}

#[test]
fn generate_has_size_and_empty_shown_border() {
    for (w, h) in [(1, 1), (3, 1), (1, 4), (5, 5), (20, 15)] {
        for seed in [0u64, 1, 42, u64::MAX] {
            let mut g = GameManager::new(w, h, Some(seed));
            g.generate();
            assert_eq!(g.cells().len(), (w + 2) * (h + 2));
            for i in 0..g.cells().len() {
                if border(&g, i) {
                    assert_eq!(g.cell(i), (true, Cell::Empty));
                }
            }
        }
    }
}

#[test]
fn generate_hides_every_bomb() {
    let mut g = GameManager::new(30, 30, Some(7));
    g.generate();
    let mut bombs = 0;
    for (shown, cell) in g.cells() {
        if *cell == Cell::Bomb {
            bombs += 1;
            assert!(!shown);
        }
    }
    assert!(bombs > 0);
}

#[test]
fn generate_counts_every_neighbour() {
    for seed in 0u64..20 {
        let mut g = GameManager::new(12, 9, Some(seed));
        g.generate();
        check_generated(&g);
    }
}

#[test]
fn generate_without_seed_is_well_formed() {
    let mut g = GameManager::new(10, 10, None);
    g.generate();
    check_generated(&g);
}

#[test]
fn same_seed_gives_same_board() {
    let mut a = GameManager::new(20, 15, Some(1234));
    let mut b = GameManager::new(20, 15, Some(1234));
    a.generate();
    b.generate();
    assert_eq!(a.cells(), b.cells());
}

#[test]
fn different_seeds_give_different_boards() {
    let mut a = GameManager::new(20, 15, Some(1));
    let mut b = GameManager::new(20, 15, Some(2));
    a.generate();
    b.generate();
    assert_ne!(a.cells(), b.cells());
}

#[test]
fn unseeded_boards_differ() {
    let mut a = GameManager::new(20, 15, None);
    let mut b = GameManager::new(20, 15, None);
    a.generate();
    b.generate();
    assert_ne!(a.cells(), b.cells());
}

#[test]
fn generate_again_replaces_the_board() {
    let mut g = GameManager::new(6, 4, Some(3));
    g.generate();
    let first = g.cells().clone();
    for i in 0..first.len() {
        g.reveal_cell(i);
    }
    g.generate();
    assert_eq!(g.cells(), &first);
}

#[test]
fn reveal_is_idempotent() {
    let mut g = GameManager::new(5, 5, Some(11));
    g.generate();
    let before = g.cells().clone();
    for i in 0..before.len() {
        let mut once = g.clone();
        let first = once.reveal_cell(i);
        let after_once = once.cells().clone();
        let second = once.reveal_cell(i);
        assert_eq!(first, second);
        assert!(first.0);
        assert_eq!(once.cells(), &after_once);
        for j in 0..before.len() {
            if j != i {
                assert_eq!(once.cell(j), before[j]);
            }
        }
    }
}

#[test]
fn reveal_keeps_what_the_cell_holds() {
    let mut g = GameManager::new(8, 6, Some(5));
    g.generate();
    let before = g.cells().clone();
    for i in 0..before.len() {
        let r = g.reveal_cell(i);
        assert_eq!(r, (true, before[i].1));
        assert_eq!(g.cell(i), (true, before[i].1));
    }
}

#[test]
fn reveal_does_not_cascade() {
    let mut g = GameManager::new(3, 3, None);
    g.generate_with_mines(&mines_where(3, 3, |i| i == 6));
    // Index 6 is the top-left playable cell; index 18 is far from it and has no bomb near.
    let before = g.cells().clone();
    assert_eq!(before[18], (true, Cell::Empty));
    g.reveal_cell(6);
    for j in 0..before.len() {
        if j != 6 {
            assert_eq!(g.cell(j), before[j]);
        }
    }
}

#[test]
fn three_by_one_with_seed_42() {
    let mut g = GameManager::new(3, 1, Some(42));
    g.generate();
    assert_eq!(g.cells().len(), 15);
    for i in [0, 1, 2, 3, 4, 5, 9, 10, 11, 12, 13, 14] {
        assert!(g.is_edge_cell(i));
        assert_eq!(g.cell(i), (true, Cell::Empty));
    }
    for i in [6, 7, 8] {
        assert!(!g.is_edge_cell(i));
    }
    check_generated(&g);
    let mut again = GameManager::new(3, 1, Some(42));
    again.generate();
    assert_eq!(again.cells(), g.cells());
    let bombs: Vec<bool> = [6, 7, 8].iter().map(|&i| g.cell(i).1 == Cell::Bomb).collect();
    for (k, i) in [6usize, 7, 8].iter().enumerate() {
        if !bombs[k] {
            let left = k > 0 && bombs[k - 1];
            let right = k < 2 && bombs[k + 1];
            let n = left as usize + right as usize;
            let expected = if n == 0 { (true, Cell::Empty) } else { (false, Cell::NearBomb(n)) };
            assert_eq!(g.cell(*i), expected);
        }
    }
}

#[test]
fn no_bombs_leaves_every_cell_empty_and_shown() {
    let mut g = GameManager::new(6, 4, None);
    g.generate_with_mines(&mines_where(6, 4, |_| false));
    assert_eq!(g.cells().len(), 48);
    for c in g.cells() {
        assert_eq!(*c, (true, Cell::Empty));
    }
}

#[test]
fn all_bombs_leaves_no_counted_cell() {
    let mut g = GameManager::new(6, 4, None);
    g.generate_with_mines(&mines_where(6, 4, |_| true));
    for i in 0..g.cells().len() {
        if g.is_edge_cell(i) {
            assert_eq!(g.cell(i), (true, Cell::Empty));
        } else {
            assert_eq!(g.cell(i), (false, Cell::Bomb));
        }
    }
}

#[test]
fn one_bomb_counts_its_ring() {
    // Width 3, height 3: rows of 5, the bomb in the middle at index 12.
    let mut g = GameManager::new(3, 3, None);
    g.generate_with_mines(&mines_where(3, 3, |i| i == 12));
    assert_eq!(g.cell(12), (false, Cell::Bomb));
    for i in [6, 7, 8, 11, 13, 16, 17, 18] {
        assert_eq!(g.cell(i), (false, Cell::NearBomb(1)));
    }
    assert_eq!(g.cell(0), (true, Cell::Empty));
}

#[test]
fn crowded_cell_counts_eight() {
    let mut g = GameManager::new(3, 3, None);
    g.generate_with_mines(&mines_where(3, 3, |i| i != 12));
    assert_eq!(g.cell(12), (false, Cell::NearBomb(8)));
    assert_eq!(g.cell_count_bomb_around(12), Some(8));
}

#[test]
fn mines_on_the_border_are_ignored() {
    let mut g = GameManager::new(2, 2, None);
    g.generate_with_mines(&mines_where(2, 2, |i| i % 4 == 0 || i < 4));
    for i in 0..16 {
        if g.is_edge_cell(i) {
            assert_eq!(g.cell(i), (true, Cell::Empty));
        }
    }
    // Every picked index lies in the first row or the first column: all of them border.
    for c in g.cells() {
        assert_eq!(*c, (true, Cell::Empty));
    }
}

#[test]
fn count_is_absent_in_the_first_row_and_a_cell() {
    let mut g = GameManager::new(3, 3, None);
    g.generate_with_mines(&mines_where(3, 3, |i| i == 6));
    assert_eq!(g.cell_count_bomb_around(0), None);
    assert_eq!(g.cell_count_bomb_around(5), None);
    assert_eq!(g.cell_count_bomb_around(7), Some(1));
    assert_eq!(g.cell_count_bomb_around(6), Some(0));
}

#[test]
fn count_past_the_end_treats_missing_cells_as_empty() {
    let mut g = GameManager::new(1, 1, None);
    g.generate_with_mines(&mines_where(1, 1, |i| i == 4));
    assert_eq!(g.cell_count_bomb_around(8), Some(1));
    assert_eq!(g.cell_count_bomb_around(100), Some(0));
}

#[test]
fn edge_cells_of_a_wide_board() {
    let g = GameManager::new(4, 2, None);
    let edges: Vec<usize> = (0..24).filter(|&i| g.is_edge_cell(i)).collect();
    assert_eq!(edges, vec![0, 1, 2, 3, 4, 5, 6, 11, 12, 17, 18, 19, 20, 21, 22, 23]);
}

#[test]
fn degenerate_board_is_all_border() {
    let mut g = GameManager::new(0, 3, Some(8));
    g.generate();
    assert_eq!(g.cells().len(), 10);
    for c in g.cells() {
        assert_eq!(*c, (true, Cell::Empty));
    }
}

#[test]
fn about_one_cell_in_five_gets_a_bomb() {
    for seed in [Some(42u64), Some(7), None] {
        let mut g = GameManager::new(100, 100, seed);
        g.generate();
        let bombs = g.cells().iter().filter(|c| c.1 == Cell::Bomb).count();
        assert!(bombs > 1500 && bombs < 2500, "{} bombs", bombs);
    }
}
