//! The snake: an ordered body of cells, head first, that moves one cell per
//! step along its heading and grows by keeping its tail for one step.

use std::collections::VecDeque;
use vstd::prelude::*;
use crate::config::{INITIAL_HEAD_X, INITIAL_ROW};
use crate::grid::{Cell, Direction};

verus! {

/// The snake as the game keeps it.
#[derive(Clone, Debug)]
pub struct Snake {
    /// Cells of the body, the head at the front and the tail at the back.
    pub body: VecDeque<Cell>,
    /// Heading along which the next step moves the head.
    pub direction: Direction,
    /// Set when food was eaten; the next step then keeps the tail.
    pub should_increase: bool,
    /// Time, in milliseconds, at which a movement step was last due.
    pub last_update: u64,
}

/// What a [`Snake`] is to the contracts: its body as a sequence, and its
/// other fields as they are.
#[verifier::ext_equal]
pub struct SnakeView {
    pub body: Seq<Cell>,
    pub direction: Direction,
    pub should_increase: bool,
    pub last_update: u64,
}

impl View for Snake {
    type V = SnakeView;

    open spec fn view(&self) -> SnakeView {
        SnakeView {
            body: self.body@,
            direction: self.direction,
            should_increase: self.should_increase,
            last_update: self.last_update,
        }
    }
}

/// The body with which every round starts: the three cells (6, 9), (5, 9)
/// and (4, 9), head first.
pub open spec fn initial_body() -> Seq<Cell> {
    seq![
        Cell { x: INITIAL_HEAD_X, y: INITIAL_ROW },
        Cell { x: (INITIAL_HEAD_X - 1) as i32, y: INITIAL_ROW },
        Cell { x: (INITIAL_HEAD_X - 2) as i32, y: INITIAL_ROW },
    ]
}

impl SnakeView {
    /// The snake at the start of a round, with a step last due at
    /// `last_update`.
    pub open spec fn initial(last_update: u64) -> SnakeView {
        SnakeView {
            body: initial_body(),
            direction: Direction::Right,
            should_increase: false,
            last_update,
        }
    }

    /// The front cell of the body.
    pub open spec fn head(self) -> Cell
        recommends
            self.body.len() > 0,
    {
        self.body[0]
    }

    /// Whether the snake can take a step: it has a head, and the cell in front
    /// of the head is within the machine's integers.
    pub open spec fn can_advance(self) -> bool {
        self.body.len() > 0 && self.head().can_step(self.direction)
    }

    /// The snake after one step: a new head in front of the old one, the tail
    /// dropped unless growth was pending, and no growth pending any more.
    pub open spec fn advanced(self) -> SnakeView
        recommends
            self.can_advance(),
    {
        SnakeView {
            body: seq![self.head().stepped(self.direction)] + (if self.should_increase {
                self.body
            } else {
                self.body.drop_last()
            }),
            direction: self.direction,
            should_increase: false,
            last_update: self.last_update,
        }
    }

    /// Cells by which the body is about to grow: one while growth is
    /// pending, none otherwise.
    pub open spec fn pending_growth(self) -> int {
        if self.should_increase {
            1
        } else {
            0
        }
    }

    /// Whether a request to head towards `requested` is taken: every heading
    /// is, but for the reverse of the current one.
    pub open spec fn accepts(self, requested: Direction) -> bool {
        requested != self.direction.reversed()
    }

    /// The snake after a request to head towards `requested`.
    pub open spec fn turned(self, requested: Direction) -> SnakeView {
        if self.accepts(requested) {
            SnakeView { direction: requested, ..self }
        } else {
            self
        }
    }

    /// Whether a movement step is due at time `now`: at least `interval` has
    /// passed since one last was.
    pub open spec fn step_due(self, now: u64, interval: u64) -> bool {
        now - self.last_update >= interval
    }
}

impl Snake {
    /// A snake at the start of a round. `now` is the current time in
    /// milliseconds, from which the first movement interval is counted.
    pub fn new(now: u64) -> (snake: Snake)
        ensures
            snake@ == SnakeView::initial(now),
    {
        Snake {
            body: Self::generate_initial_pos(),
            direction: Direction::Right,
            should_increase: false,
            last_update: now,
        }
    }

    /// Degrees by which the head's picture is turned for a heading: none
    /// when heading down, and a quarter turn more for right, up and left.
    pub fn get_texture_rotation(direction: Direction) -> (degrees: u32)
        ensures
            direction == Direction::Down ==> degrees == 0,
            direction == Direction::Right ==> degrees == 90,
            direction == Direction::Up ==> degrees == 180,
            direction == Direction::Left ==> degrees == 270,
    {
        match direction {
            Direction::Down => 0,
            Direction::Right => 90,
            Direction::Up => 180,
            Direction::Left => 270,
        }
    }

    /// The body with which every round starts.
    pub fn generate_initial_pos() -> (body: VecDeque<Cell>)
        ensures
            body@ == initial_body(),
    {
        let mut body: VecDeque<Cell> = VecDeque::new();
        body.push_back(Cell { x: INITIAL_HEAD_X, y: INITIAL_ROW });
        body.push_back(Cell { x: INITIAL_HEAD_X - 1, y: INITIAL_ROW });
        body.push_back(Cell { x: INITIAL_HEAD_X - 2, y: INITIAL_ROW });
        body
    }

    /// The front cell of the body.
    pub fn head(&self) -> (head: Cell)
        requires
            self@.body.len() > 0,
        ensures
            head == self@.head(),
    {
        self.body[0]
    }

    /// Asks the snake to head towards `requested`. The request is taken
    /// unless it is the exact reverse of the current heading; the result says
    /// whether it was.
    pub fn set_direction(&mut self, requested: Direction) -> (accepted: bool)
        ensures
            accepted == old(self)@.accepts(requested),
            final(self)@ == old(self)@.turned(requested),
            requested == old(self).direction.reversed()
                ==> final(self).direction == old(self).direction,
    {
        if requested == self.direction.opposite() {
            false
        } else {
            self.direction = requested;
            true
        }
    }

    /// Moves the snake one step along its heading. With growth pending the
    /// tail stays and the body is one cell longer; otherwise the tail leaves
    /// and the length is kept. Either way no growth is pending afterwards.
    pub fn update(&mut self)
        requires
            old(self)@.can_advance(),
        ensures
            final(self)@ == old(self)@.advanced(),
            old(self).should_increase ==> final(self)@.body.len() == old(self)@.body.len() + 1,
            !old(self).should_increase ==> final(self)@.body.len() == old(self)@.body.len(),
            !final(self).should_increase,
    {
        let head = self.body[0].step(self.direction);
        self.body.push_front(head);
        if self.should_increase {
            self.should_increase = false;
        } else {
            self.body.pop_back();
        }
    }

    /// Paces the movement. At time `now` (milliseconds) a step is due when at
    /// least `interval` has passed since one last was; `now` is then
    /// remembered. Otherwise no step is due and nothing changes.
    pub fn should_update(&mut self, now: u64, interval: u64) -> (due: bool)
        ensures
            due == old(self)@.step_due(now, interval),
            due ==> final(self)@ == (SnakeView { last_update: now, ..old(self)@ }),
            !due ==> final(self)@ == old(self)@,
    {
        if now >= self.last_update && now - self.last_update >= interval {
            self.last_update = now;
            true
        } else {
            false
        }
    }

    /// Puts the snake back to the start of a round: the initial body, heading
    /// right, no growth pending. The time of the last step is kept.
    pub fn reset(&mut self)
        ensures
            final(self)@ == SnakeView::initial(old(self).last_update),
    {
        self.body = Self::generate_initial_pos();
        self.direction = Direction::Right;
        self.should_increase = false;
    }
}

} // verus!
