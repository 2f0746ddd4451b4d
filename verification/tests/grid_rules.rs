use rinzler::config::CELL_COUNT;
use rinzler::grid::{contains_cell, contains_cell_from, Cell, Direction};
use std::collections::VecDeque;

fn grid_cells(points: &[(i32, i32)]) -> VecDeque<Cell> {
    points.iter().map(|&(x, y)| Cell { x, y }).collect()
}

#[test]
fn board_has_twenty_cells_per_axis() {
    assert_eq!(CELL_COUNT, 20);
}

#[test]
fn direction_vectors_are_unit_steps() {
    assert_eq!(Direction::Up.vector(), Cell { x: 0, y: -1 });
    assert_eq!(Direction::Down.vector(), Cell { x: 0, y: 1 });
    assert_eq!(Direction::Left.vector(), Cell { x: -1, y: 0 });
    assert_eq!(Direction::Right.vector(), Cell { x: 1, y: 0 });
}

#[test]
fn opposite_flips_every_heading() {
    assert_eq!(Direction::Up.opposite(), Direction::Down);
    assert_eq!(Direction::Down.opposite(), Direction::Up);
    assert_eq!(Direction::Left.opposite(), Direction::Right);
    assert_eq!(Direction::Right.opposite(), Direction::Left);
}

#[test]
fn opposite_twice_is_the_heading_itself() {
    for d in [Direction::Up, Direction::Down, Direction::Left, Direction::Right] {
        assert_eq!(d.opposite().opposite(), d);
        assert_ne!(d.opposite(), d);
    }
}

#[test]
fn in_grid_holds_on_the_corners_of_the_board() {
    assert!(Cell { x: 0, y: 0 }.in_grid());
    assert!(Cell { x: 19, y: 0 }.in_grid());
    assert!(Cell { x: 0, y: 19 }.in_grid());
    assert!(Cell { x: 19, y: 19 }.in_grid());
    assert!(Cell { x: 10, y: 7 }.in_grid());
}

#[test]
fn in_grid_fails_one_step_outside() {
    assert!(!Cell { x: -1, y: 0 }.in_grid());
    assert!(!Cell { x: 20, y: 0 }.in_grid());
    assert!(!Cell { x: 0, y: -1 }.in_grid());
    assert!(!Cell { x: 0, y: 20 }.in_grid());
    assert!(!Cell { x: -1, y: -1 }.in_grid());
    assert!(!Cell { x: 20, y: 20 }.in_grid());
    assert!(!Cell { x: i32::MIN, y: 5 }.in_grid());
    assert!(!Cell { x: 5, y: i32::MAX }.in_grid());
}

#[test]
fn in_grid_counts_four_hundred_cells() {
    let mut inside = 0;
    for x in -3..24 {
        for y in -3..24 {
            if (Cell { x, y }).in_grid() {
                inside += 1;
            }
        }
    }
    assert_eq!(inside, 400);
}

#[test]
fn step_moves_one_cell_along_the_heading() {
    let start = Cell { x: 6, y: 9 };
    assert_eq!(start.step(Direction::Right), Cell { x: 7, y: 9 });
    assert_eq!(start.step(Direction::Left), Cell { x: 5, y: 9 });
    assert_eq!(start.step(Direction::Up), Cell { x: 6, y: 8 });
    assert_eq!(start.step(Direction::Down), Cell { x: 6, y: 10 });
}

#[test]
fn step_may_leave_the_board() {
    assert_eq!(Cell { x: 0, y: 0 }.step(Direction::Left), Cell { x: -1, y: 0 });
    assert_eq!(Cell { x: 19, y: 19 }.step(Direction::Down), Cell { x: 19, y: 20 });
}

#[test]
fn step_and_step_back_returns() {
    let start = Cell { x: 3, y: 17 };
    for d in [Direction::Up, Direction::Down, Direction::Left, Direction::Right] {
        assert_eq!(start.step(d).step(d.opposite()), start);
    }
}

#[test]
fn contains_cell_finds_every_member() {
    let cells = grid_cells(&[(6, 9), (5, 9), (4, 9)]);
    assert!(contains_cell(&cells, &Cell { x: 6, y: 9 }));
    assert!(contains_cell(&cells, &Cell { x: 5, y: 9 }));
    assert!(contains_cell(&cells, &Cell { x: 4, y: 9 }));
    assert!(!contains_cell(&cells, &Cell { x: 7, y: 9 }));
    assert!(!contains_cell(&cells, &Cell { x: 9, y: 6 }));
}

#[test]
fn contains_cell_is_false_on_empty() {
    let cells: VecDeque<Cell> = VecDeque::new();
    assert!(!contains_cell(&cells, &Cell { x: 0, y: 0 }));
}

#[test]
fn contains_cell_from_skips_what_lies_before_start() {
    let cells = grid_cells(&[(6, 9), (5, 9), (4, 9), (6, 9)]);
    assert!(contains_cell_from(&cells, 0, &Cell { x: 6, y: 9 }));
    assert!(contains_cell_from(&cells, 1, &Cell { x: 6, y: 9 }));
    assert!(contains_cell_from(&cells, 3, &Cell { x: 6, y: 9 }));
    assert!(!contains_cell_from(&cells, 4, &Cell { x: 6, y: 9 }));
    assert!(!contains_cell_from(&cells, 2, &Cell { x: 5, y: 9 }));
    assert!(contains_cell_from(&cells, 1, &Cell { x: 5, y: 9 }));
    assert!(!contains_cell_from(&cells, 100, &Cell { x: 5, y: 9 }));
}
