//! Cells of the board and the four headings along which the snake moves.

use std::collections::VecDeque;
use vstd::prelude::*;
use vstd::set_lib::{lemma_int_range, lemma_len_subset, set_int_range};
use crate::config::CELL_COUNT;

verus! {

/// A position on the board, or one step outside of it.
///
/// The x axis grows to the right and the y axis grows downwards.
#[derive(Clone, Copy, Debug, PartialEq, Eq, Structural)]
pub struct Cell {
    pub x: i32,
    pub y: i32,
}

/// One of the four headings.
#[derive(Clone, Copy, Debug, PartialEq, Eq, Structural)]
pub enum Direction {
    Up,
    Down,
    Left,
    Right,
}

impl Direction {
    /// Horizontal component of the unit vector of this heading.
    pub open spec fn dx(self) -> int {
        match self {
            Direction::Left => -1,
            Direction::Right => 1,
            _ => 0,
        }
    }

    /// Vertical component of the unit vector of this heading.
    pub open spec fn dy(self) -> int {
        match self {
            Direction::Up => -1,
            Direction::Down => 1,
            _ => 0,
        }
    }

    /// The heading that points the other way.
    pub open spec fn reversed(self) -> Direction {
        match self {
            Direction::Up => Direction::Down,
            Direction::Down => Direction::Up,
            Direction::Left => Direction::Right,
            Direction::Right => Direction::Left,
        }
    }

    /// The unit vector of this heading, as a cell offset.
    pub fn vector(self) -> (v: Cell)
        ensures
            v.x == self.dx(),
            v.y == self.dy(),
    {
        match self {
            Direction::Up => Cell { x: 0, y: -1 },
            Direction::Down => Cell { x: 0, y: 1 },
            Direction::Left => Cell { x: -1, y: 0 },
            Direction::Right => Cell { x: 1, y: 0 },
        }
    }

    /// The heading that points the other way.
    pub fn opposite(self) -> (d: Direction)
        ensures
            d == self.reversed(),
            d.dx() == -self.dx(),
            d.dy() == -self.dy(),
    {
        match self {
            Direction::Up => Direction::Down,
            Direction::Down => Direction::Up,
            Direction::Left => Direction::Right,
            Direction::Right => Direction::Left,
        }
    }
}

impl Cell {
    /// Whether the cell lies on the board: both coordinates in `0..CELL_COUNT`.
    pub open spec fn on_board(self) -> bool {
        0 <= self.x < CELL_COUNT && 0 <= self.y < CELL_COUNT
    }

    /// Whether one step along `direction` stays within the machine's integers.
    pub open spec fn can_step(self, direction: Direction) -> bool {
        &&& i32::MIN <= self.x + direction.dx() <= i32::MAX
        &&& i32::MIN <= self.y + direction.dy() <= i32::MAX
    }

    /// The cell one step along `direction`.
    pub open spec fn stepped(self, direction: Direction) -> Cell
        recommends
            self.can_step(direction),
    {
        Cell { x: (self.x + direction.dx()) as i32, y: (self.y + direction.dy()) as i32 }
    }

    /// Position of the cell in a row-by-row numbering of the board.
    pub open spec fn board_index(self) -> int {
        self.y * CELL_COUNT + self.x
    }

    /// Whether the cell lies on the board.
    pub fn in_grid(&self) -> (inside: bool)
        ensures
            inside == self.on_board(),
    {
        0 <= self.x && self.x < CELL_COUNT && 0 <= self.y && self.y < CELL_COUNT
    }

    /// The cell one step along `direction`.
    pub fn step(&self, direction: Direction) -> (next: Cell)
        requires
            self.can_step(direction),
        ensures
            next == self.stepped(direction),
            next.x == self.x + direction.dx(),
            next.y == self.y + direction.dy(),
    {
        let v = direction.vector();
        Cell { x: self.x + v.x, y: self.y + v.y }
    }
}

/// Whether `needle` occurs in `cells` at index `start` or later.
pub fn contains_cell_from(cells: &VecDeque<Cell>, start: usize, needle: &Cell) -> (found: bool)
    ensures
        found == exists|j: int| start <= j < cells@.len() && cells@[j] == *needle,
{
    let mut i: usize = start;
    while i < cells.len()
        invariant
            start <= i,
            forall|j: int| start <= j < i && j < cells@.len() ==> cells@[j] != *needle,
        decreases cells@.len() - i,
    {
        if cells[i] == *needle {
            return true;
        }
        i = i + 1;
    }
    false
}

/// Whether `needle` occurs in `cells`.
pub fn contains_cell(cells: &VecDeque<Cell>, needle: &Cell) -> (found: bool)
    ensures
        found == cells@.contains(*needle),
{
    contains_cell_from(cells, 0, needle)
}

/// A sequence of board cells without repetition is no longer than the board
/// has cells.
pub proof fn lemma_distinct_cells_fit_board(cells: Seq<Cell>)
    requires
        cells.no_duplicates(),
        forall|i: int| 0 <= i < cells.len() ==> cells[i].on_board(),
    ensures
        cells.len() <= CELL_COUNT * CELL_COUNT,
{
    let slots = Seq::new(cells.len(), |i: int| cells[i].board_index());
    let board = set_int_range(0, CELL_COUNT * CELL_COUNT);
    // Two cells of the board with one number are one cell.
    assert(slots.no_duplicates()) by {
        assert forall|i: int, j: int|
            0 <= i < slots.len() && 0 <= j < slots.len() && i != j implies slots[i] != slots[j] by {
            assert(cells[i].on_board() && cells[j].on_board());
            assert(cells[i] != cells[j]);
        }
    }
    // Every number is below the count of cells.
    assert(slots.to_set().subset_of(board)) by {
        assert forall|k: int| slots.to_set().contains(k) implies board.contains(k) by {
            let i = choose|i: int| 0 <= i < slots.len() && slots[i] == k;
            assert(cells[i].on_board());
        }
    }
    slots.unique_seq_to_set();
    lemma_int_range(0, CELL_COUNT * CELL_COUNT);
    lemma_len_subset(slots.to_set(), board);
}

} // verus!
