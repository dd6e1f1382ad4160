use rand::SeedableRng;
use snake::grid::{Cell, Grid, GRID_COLS, GRID_ROWS};

fn seeded(seed: u64) -> rand::rngs::StdRng {
    rand::rngs::StdRng::seed_from_u64(seed)
}

#[test]
fn new_grid_is_all_empty() {
    let g = Grid::new();
    for c in 0..GRID_COLS {
        for r in 0..GRID_ROWS {
            assert!(g.is_empty(c, r));
            assert_eq!(g.cell_at(c, r), Cell::Empty);
        }
    }
    assert_eq!(g.count_kind(Cell::Empty), GRID_COLS * GRID_ROWS);
    assert_eq!(g.count_kind(Cell::Food), 0);
}

#[test]
fn place_and_clear_roundtrip() {
    let mut g = Grid::new();
    g.place(3, 7, Cell::Food);
    assert!(!g.is_empty(3, 7));
    assert_eq!(g.cell_at(3, 7), Cell::Food);
    assert_eq!(g.count_kind(Cell::Food), 1);
    assert!(g.is_empty(3, 8));
    assert!(g.is_empty(2, 7));
    g.clear(3, 7);
    assert!(g.is_empty(3, 7));
    assert_eq!(g.count_kind(Cell::Food), 0);
}

#[test]
fn count_kind_sees_each_kind() {
    let mut g = Grid::new();
    g.place(0, 0, Cell::Hazard);
    g.place(1, 0, Cell::Hazard);
    g.place(2, 0, Cell::Bonus);
    g.place(3, 0, Cell::Food);
    assert_eq!(g.count_kind(Cell::Hazard), 2);
    assert_eq!(g.count_kind(Cell::Bonus), 1);
    assert_eq!(g.count_kind(Cell::Food), 1);
    assert_eq!(g.count_kind(Cell::Empty), GRID_COLS * GRID_ROWS - 4);
}

#[test]
fn random_empty_position_is_empty_at_call_time() {
    let mut g = Grid::new();
    // Crowd the board so a lazy sampler would often land on occupied cells.
    for c in 0..GRID_COLS {
        for r in 0..GRID_ROWS {
            if (c + r) % 2 == 0 {
                g.place(c, r, Cell::Hazard);
            }
        }
    }
    let mut rng = seeded(42);
    for _ in 0..100 {
        let p = g.random_empty_position(&mut rng).expect("board has empty cells");
        assert!(p.0 < GRID_COLS && p.1 < GRID_ROWS);
        assert!(g.is_empty(p.0, p.1));
    }
}

#[test]
fn random_empty_position_finds_the_single_hole() {
    let mut g = Grid::new();
    for c in 0..GRID_COLS {
        for r in 0..GRID_ROWS {
            if !(c == 17 && r == 11) {
                g.place(c, r, Cell::Hazard);
            }
        }
    }
    let mut rng = seeded(7);
    let p = g.random_empty_position(&mut rng).expect("one cell is empty");
    assert_eq!(p, (17, 11));
}

#[test]
fn random_empty_position_on_full_board_is_none() {
    let mut g = Grid::new();
    for c in 0..GRID_COLS {
        for r in 0..GRID_ROWS {
            g.place(c, r, Cell::Bonus);
        }
    }
    let mut rng = seeded(1);
    assert!(g.random_empty_position(&mut rng).is_none());
}
