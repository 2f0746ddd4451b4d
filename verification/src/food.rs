//! The food: at most one cell of the board, never one that the snake covers.
//!
//! Where the food goes is drawn at random by the caller. The library decides
//! whether a drawn cell is taken: the caller draws again until one is.

use std::collections::VecDeque;
use vstd::prelude::*;
use crate::grid::{contains_cell, Cell};

verus! {

/// The food on the board.
#[derive(Clone, Debug)]
pub struct Food {
    /// Where the food lies; `None` from the moment it was eaten, or the round
    /// was started over, until a drawn cell has been taken for the next one.
    pub position: Option<Cell>,
}

impl View for Food {
    type V = Option<Cell>;

    open spec fn view(&self) -> Option<Cell> {
        self.position
    }
}

/// Whether food may be put on `candidate` while the snake covers `body`: the
/// cell is on the board and no cell of the body.
pub open spec fn is_free(candidate: Cell, body: Seq<Cell>) -> bool {
    candidate.on_board() && !body.contains(candidate)
}

impl Food {
    /// Food that has not been placed yet.
    pub fn new() -> (food: Food)
        ensures
            food@ == None::<Cell>,
    {
        Food { position: None }
    }

    /// Judges one randomly drawn cell as the next position of the food. The
    /// cell is returned if it is on the board and the snake does not cover
    /// it; otherwise the result is `None` and another cell has to be drawn.
    pub fn generate_random_pos(
        snake_body: &VecDeque<Cell>,
        candidate: Cell,
    ) -> (position: Option<Cell>)
        ensures
            is_free(candidate, snake_body@) ==> position == Some(candidate),
            !is_free(candidate, snake_body@) ==> position == None::<Cell>,
            position matches Some(cell) ==> cell.on_board() && !snake_body@.contains(cell),
    {
        if candidate.in_grid() && !contains_cell(snake_body, &candidate) {
            Some(candidate)
        } else {
            None
        }
    }

    /// Offers one randomly drawn cell as the new position of the food. If the
    /// cell is free it replaces the position and the result is `true`;
    /// otherwise nothing changes and the result is `false`.
    pub fn regenerate(&mut self, snake_body: &VecDeque<Cell>, candidate: Cell) -> (placed: bool)
        ensures
            placed == is_free(candidate, snake_body@),
            placed ==> final(self)@ == Some(candidate),
            !placed ==> final(self)@ == old(self)@,
    {
        match Self::generate_random_pos(snake_body, candidate) {
            Some(cell) => {
                self.position = Some(cell);
                true
            },
            None => false,
        }
    }
}

} // verus!
