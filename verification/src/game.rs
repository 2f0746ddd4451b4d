//! The game: one snake, one piece of food, a score, and the rules of a tick.
//!
//! A tick moves the snake one step and then looks, in this order, for food
//! under the head, for a head that left the board, and for a head that ran
//! into the body. Eating scores and makes the snake grow on its next step;
//! either crash ends the round and puts everything back to the start.

use vstd::prelude::*;
use crate::config::{CELL_COUNT, FOOD_SCORE, INITIAL_LENGTH};
use crate::food::{is_free, Food};
use crate::grid::{
    contains_cell, contains_cell_from, lemma_distinct_cells_fit_board, Cell, Direction,
};
use crate::snake::{Snake, SnakeView};

verus! {

/// A sound that the caller is asked to start or stop.
#[derive(Clone, Copy, Debug, PartialEq, Eq, Structural)]
pub enum SoundCue {
    /// The snake ate.
    Eat,
    /// The snake crashed and the round is over.
    Crash,
    /// The round has begun: play the introduction, once.
    IntroStart,
    /// The engine loop should run.
    AmbientStart,
    /// Whatever loops, the introduction or the engine, should fall silent.
    AmbientStop,
}

/// The state of the game.
#[derive(Clone, Debug)]
pub struct Game {
    pub snake: Snake,
    pub food: Food,
    /// Whether a round is on: set by the first heading that is taken,
    /// cleared by a crash.
    pub running: bool,
    /// Points of the current round.
    pub score: u32,
    /// Whether the introduction was cued in the current round.
    pub motorcycle_intro_sound_played: bool,
}

/// What a [`Game`] is to the contracts.
#[verifier::ext_equal]
pub struct GameView {
    pub snake: SnakeView,
    pub food: Option<Cell>,
    pub running: bool,
    pub score: nat,
    pub intro_played: bool,
}

impl View for Game {
    type V = GameView;

    open spec fn view(&self) -> GameView {
        GameView {
            snake: self.snake@,
            food: self.food@,
            running: self.running,
            score: self.score as nat,
            intro_played: self.motorcycle_intro_sound_played,
        }
    }
}

impl GameView {
    /// The game before its first round, and after every crash: the snake at
    /// its start, no food placed, no points, nothing running.
    pub open spec fn initial(last_update: u64) -> GameView {
        GameView {
            snake: SnakeView::initial(last_update),
            food: None,
            running: false,
            score: 0,
            intro_played: false,
        }
    }

    /// What holds of the game between two ticks.
    ///
    /// The body has at least its initial length, lies on the board and
    /// covers no cell twice. Food, where placed, is on the board and not
    /// under the snake. The score is the food's worth for every cell by which
    /// the body has grown or is about to grow. The introduction is cued only
    /// in a round that is on.
    pub open spec fn wf(self) -> bool {
        &&& self.snake.body.len() >= INITIAL_LENGTH
        &&& forall|i: int| 0 <= i < self.snake.body.len() ==> self.snake.body[i].on_board()
        &&& self.snake.body.no_duplicates()
        &&& self.food matches Some(cell) ==> is_free(cell, self.snake.body)
        &&& self.score == FOOD_SCORE * (self.snake.body.len() - INITIAL_LENGTH
            + self.snake.pending_growth())
        &&& self.intro_played ==> self.running
    }

    /// Whether a tick can be computed within the machine's integers: while
    /// a round is on, the snake can take a step and the score has room for
    /// one more piece of food. Every well-formed game can tick.
    pub open spec fn can_tick(self) -> bool {
        self.running ==> self.snake.can_advance() && self.score + FOOD_SCORE <= u32::MAX
    }

    /// Whether the head lies on the food.
    pub open spec fn eats(self) -> bool {
        self.snake.body.len() > 0 && self.food == Some(self.snake.head())
    }

    /// Whether the head has left the board.
    pub open spec fn hits_edge(self) -> bool {
        self.snake.body.len() > 0 && !self.snake.head().on_board()
    }

    /// Whether the head lies on another cell of the body.
    pub open spec fn hits_tail(self) -> bool {
        exists|j: int| 1 <= j < self.snake.body.len() && self.snake.body[j] == self.snake.head()
    }

    /// The game after the food was eaten: the food is gone, growth is
    /// pending, and the score is up by the food's worth.
    pub open spec fn fed(self) -> GameView {
        GameView {
            snake: SnakeView { should_increase: true, ..self.snake },
            food: None,
            score: self.score + FOOD_SCORE as nat,
            ..self
        }
    }

    /// The game after a crash: as before its first round. Only the time at
    /// which the snake last moved is kept.
    pub open spec fn over(self) -> GameView {
        GameView::initial(self.snake.last_update)
    }

    /// The game after a key press, or after none. A heading that the snake
    /// takes also starts the round; one that it refuses changes nothing.
    pub open spec fn steered(self, pressed_key: Option<Direction>) -> GameView {
        match pressed_key {
            Some(requested) if self.snake.accepts(requested) => GameView {
                snake: self.snake.turned(requested),
                running: true,
                ..self
            },
            _ => self,
        }
    }

    /// The game after `candidate` was offered as the food's next position.
    pub open spec fn offered(self, candidate: Cell) -> GameView {
        if is_free(candidate, self.snake.body) {
            GameView { food: Some(candidate), ..self }
        } else {
            self
        }
    }

    /// Whether the introduction is due: a round is on and has not had it.
    pub open spec fn intro_due(self) -> bool {
        self.running && !self.intro_played
    }

    /// Whether the engine loop is to be started: a round is on, and neither
    /// the introduction nor the loop is heard.
    pub open spec fn ambient_due(self, intro_playing: bool, ambient_playing: bool) -> bool {
        self.running && !intro_playing && !ambient_playing
    }

    /// The game once the introduction, if it was due, has been cued.
    pub open spec fn introduced(self) -> GameView {
        GameView { intro_played: self.running || self.intro_played, ..self }
    }

    /// The game right after the snake's step of a tick, before anything is
    /// looked for.
    pub open spec fn moved(self) -> GameView {
        GameView { snake: self.snake.advanced(), ..self }
    }

    /// The game after one tick. While no round is on, nothing changes.
    /// Otherwise the snake moves; if its head then is off the board or on
    /// its body, the round is over; if not, food under the head is eaten.
    pub open spec fn ticked(self) -> GameView {
        if !self.running {
            self
        } else if self.moved().hits_edge() || self.moved().hits_tail() {
            self.over()
        } else if self.moved().eats() {
            self.moved().fed()
        } else {
            self.moved()
        }
    }

    /// The game with a movement step due at time `now`.
    pub open spec fn stamped(self, now: u64) -> GameView {
        GameView { snake: SnakeView { last_update: now, ..self.snake }, ..self }
    }

    /// The game after the frame at time `now`: one tick if the movement
    /// interval has passed since the last one was due, and no change
    /// if it has not.
    pub open spec fn paced(self, now: u64, interval: u64) -> GameView {
        if self.snake.step_due(now, interval) {
            self.stamped(now).ticked()
        } else {
            self
        }
    }

    /// The sounds of the frame at time `now`.
    pub open spec fn paced_cues(self, now: u64, interval: u64) -> Seq<SoundCue> {
        if self.snake.step_due(now, interval) {
            self.stamped(now).tick_cues()
        } else {
            Seq::<SoundCue>::empty()
        }
    }

    /// The sounds of one tick, in their order: eating first, then the end of
    /// the round.
    pub open spec fn tick_cues(self) -> Seq<SoundCue> {
        if !self.running {
            Seq::<SoundCue>::empty()
        } else {
            (if self.moved().eats() {
                seq![SoundCue::Eat]
            } else {
                Seq::<SoundCue>::empty()
            }) + (if self.moved().hits_edge() || self.moved().hits_tail() {
                seq![SoundCue::AmbientStop, SoundCue::Crash]
            } else {
                Seq::<SoundCue>::empty()
            })
        }
    }
}

impl Game {
    /// A game before its first round. `now` is the current time in
    /// milliseconds. No food is placed yet: cells are to be offered with
    /// [`Game::regenerate_food`] until one is taken.
    pub fn new(now: u64) -> (game: Game)
        ensures
            game@ == GameView::initial(now),
            game@.wf(),
    {
        proof {
            lemma_initial_wf(now);
        }
        Game {
            snake: Snake::new(now),
            food: Food::new(),
            running: false,
            score: 0,
            motorcycle_intro_sound_played: false,
        }
    }

    /// One tick of the game; to be called whenever a movement step is due.
    /// Returns the sounds to play, in their order.
    ///
    /// While no round is on, nothing changes and nothing sounds. Otherwise
    /// the snake moves one step, and then food under the head is eaten, a
    /// head off the board ends the round, and a head on the body ends the
    /// round.
    pub fn update(&mut self) -> (cues: Vec<SoundCue>)
        requires
            old(self)@.can_tick(),
        ensures
            final(self)@ == old(self)@.ticked(),
            cues@ == old(self)@.tick_cues(),
            !old(self).running ==> final(self)@ == old(self)@ && cues@.len() == 0,
            old(self)@.wf() ==> final(self)@.wf(),
    {
        let mut cues: Vec<SoundCue> = Vec::new();
        proof {
            if self@.wf() {
                lemma_tick_keeps_wf(self@);
            }
        }
        if self.running {
            self.snake.update();
            if self.check_snake_collision_with_food() {
                cues.push(SoundCue::Eat);
            }
            if self.check_snake_collision_with_edges() {
                cues.push(SoundCue::AmbientStop);
                cues.push(SoundCue::Crash);
            }
            if self.check_snake_collision_with_tail() {
                cues.push(SoundCue::AmbientStop);
                cues.push(SoundCue::Crash);
            }
        }
        cues
    }

    /// The simulation's share of one frame at time `now` (milliseconds):
    /// a tick if at least `interval` has passed since the last one, and
    /// nothing otherwise. Returns the sounds to play, in their order.
    ///
    /// While no round is on, the snake's body and the food stay as they are,
    /// whatever the time.
    pub fn tick(&mut self, now: u64, interval: u64) -> (cues: Vec<SoundCue>)
        requires
            old(self)@.can_tick(),
        ensures
            final(self)@ == old(self)@.paced(now, interval),
            cues@ == old(self)@.paced_cues(now, interval),
            old(self)@.wf() ==> final(self)@.wf(),
            !old(self).running ==> final(self)@.snake.body == old(self)@.snake.body,
            !old(self).running ==> final(self)@.food == old(self)@.food,
            !old(self).running ==> cues@.len() == 0,
    {
        if self.snake.should_update(now, interval) {
            self.update()
        } else {
            Vec::new()
        }
    }

    /// Hands the game the key that was pressed, if one was. A heading that is
    /// not the exact reverse of the snake's is taken, and starts the round if
    /// none is on; the reverse is ignored.
    pub fn update_snake_direction(&mut self, pressed_key: Option<Direction>)
        ensures
            final(self)@ == old(self)@.steered(pressed_key),
            pressed_key == Some(old(self).snake.direction.reversed())
                ==> final(self)@ == old(self)@,
            old(self)@.wf() ==> final(self)@.wf(),
    {
        if let Some(requested) = pressed_key {
            if self.snake.set_direction(requested) {
                self.running = true;
            }
        }
    }

    /// Eats the food if the head lies on it: the food is gone until a new
    /// position is taken, growth is pending, and the score is up by the
    /// food's worth. The result says whether the snake ate.
    pub fn check_snake_collision_with_food(&mut self) -> (ate: bool)
        requires
            old(self)@.snake.body.len() > 0,
            old(self).score <= u32::MAX - FOOD_SCORE,
        ensures
            ate == old(self)@.eats(),
            ate ==> final(self)@ == old(self)@.fed(),
            !ate ==> final(self)@ == old(self)@,
    {
        let head = self.snake.head();
        let on_food = match self.food.position {
            Some(cell) => cell == head,
            None => false,
        };
        if on_food {
            self.food.position = None;
            self.snake.should_increase = true;
            self.score = self.score + FOOD_SCORE;
        }
        on_food
    }

    /// Ends the round if the head has left the board, that is, if one of its
    /// coordinates is below zero or not below the cell count. The result says
    /// whether the round ended.
    pub fn check_snake_collision_with_edges(&mut self) -> (crashed: bool)
        requires
            old(self)@.snake.body.len() > 0,
        ensures
            crashed == old(self)@.hits_edge(),
            crashed == !old(self)@.snake.head().on_board(),
            crashed ==> final(self)@ == old(self)@.over(),
            !crashed ==> final(self)@ == old(self)@,
    {
        if !self.snake.head().in_grid() {
            self.game_over();
            true
        } else {
            false
        }
    }

    /// Ends the round if the head lies on another cell of the body. The
    /// result says whether the round ended.
    pub fn check_snake_collision_with_tail(&mut self) -> (crashed: bool)
        requires
            old(self)@.snake.body.len() > 0,
        ensures
            crashed == old(self)@.hits_tail(),
            crashed ==> final(self)@ == old(self)@.over(),
            !crashed ==> final(self)@ == old(self)@,
    {
        let head = self.snake.head();
        if contains_cell_from(&self.snake.body, 1, &head) {
            self.game_over();
            true
        } else {
            false
        }
    }

    /// Offers one randomly drawn cell as the food's next position. A cell on
    /// the board that the snake does not cover is taken, and the result is
    /// `true`; any other is refused, nothing changes, and another cell has to
    /// be drawn.
    pub fn regenerate_food(&mut self, candidate: Cell) -> (placed: bool)
        ensures
            placed == is_free(candidate, old(self)@.snake.body),
            final(self)@ == old(self)@.offered(candidate),
            placed ==> final(self)@.food == Some(candidate),
            placed ==> !final(self)@.snake.body.contains(candidate),
            old(self)@.wf() ==> final(self)@.wf(),
    {
        self.food.regenerate(&self.snake.body, candidate)
    }

    /// Asks whether the introduction is due: it is once per round, as soon as
    /// the round is on.
    pub fn intro_cue(&mut self) -> (cue: Option<SoundCue>)
        ensures
            old(self)@.intro_due() ==> cue == Some(SoundCue::IntroStart),
            !old(self)@.intro_due() ==> cue == None::<SoundCue>,
            final(self)@ == old(self)@.introduced(),
            old(self)@.wf() ==> final(self)@.wf(),
    {
        if self.running && !self.motorcycle_intro_sound_played {
            self.motorcycle_intro_sound_played = true;
            Some(SoundCue::IntroStart)
        } else {
            None
        }
    }

    /// Asks whether the engine loop is to be started: it is while a round is
    /// on and neither the introduction nor the loop itself is heard.
    pub fn ambient_cue(
        &self,
        intro_playing: bool,
        ambient_playing: bool,
    ) -> (cue: Option<SoundCue>)
        ensures
            self@.ambient_due(intro_playing, ambient_playing)
                ==> cue == Some(SoundCue::AmbientStart),
            !self@.ambient_due(intro_playing, ambient_playing) ==> cue == None::<SoundCue>,
    {
        if self.running && !intro_playing && !ambient_playing {
            Some(SoundCue::AmbientStart)
        } else {
            None
        }
    }

    /// Checks at run time whether a tick can be computed: what
    /// [`Game::update`] and [`Game::tick`] ask of their caller.
    pub fn can_tick(&self) -> (ok: bool)
        ensures
            ok == self@.can_tick(),
    {
        if !self.running {
            return true;
        }
        if self.snake.body.len() == 0 || self.score > u32::MAX - FOOD_SCORE {
            return false;
        }
        let head = self.snake.head();
        match self.snake.direction {
            Direction::Up => head.y > i32::MIN,
            Direction::Down => head.y < i32::MAX,
            Direction::Left => head.x > i32::MIN,
            Direction::Right => head.x < i32::MAX,
        }
    }

    /// Checks at run time what [`GameView::wf`] states.
    pub fn is_valid(&self) -> (ok: bool)
        ensures
            ok == self@.wf(),
    {
        let len = self.snake.body.len();
        let cells: usize = (CELL_COUNT * CELL_COUNT) as usize;
        if len < INITIAL_LENGTH || len > cells {
            proof {
                if self@.wf() {
                    lemma_wf_bounds(self@);
                }
            }
            return false;
        }
        let mut i: usize = 0;
        while i < len
            invariant
                len == self.snake.body@.len(),
                i <= len,
                forall|k: int| 0 <= k < i ==> self.snake.body@[k].on_board(),
                forall|a: int, b: int|
                    0 <= a < i && a < b < len ==> self.snake.body@[a] != self.snake.body@[b],
            decreases len - i,
        {
            let cell = self.snake.body[i];
            if !cell.in_grid() || contains_cell_from(&self.snake.body, i + 1, &cell) {
                return false;
            }
            i = i + 1;
        }
        if let Some(cell) = self.food.position {
            if !cell.in_grid() || contains_cell(&self.snake.body, &cell) {
                return false;
            }
        }
        if self.motorcycle_intro_sound_played && !self.running {
            return false;
        }
        let pending: usize = if self.snake.should_increase {
            1
        } else {
            0
        };
        self.score as usize == FOOD_SCORE as usize * (len - INITIAL_LENGTH + pending)
    }

    /// Ends the round: the snake is back at its start, the food is gone until
    /// a new position is taken, the score is zero, nothing runs, and the
    /// introduction is due again in the next round.
    fn game_over(&mut self)
        ensures
            final(self)@ == old(self)@.over(),
    {
        self.snake.reset();
        self.food.position = None;
        self.score = 0;
        self.running = false;
        self.motorcycle_intro_sound_played = false;
    }
}

/// In a well-formed game the body is no longer than the board has cells, and
/// the score no higher than the food's worth for each of them. Such a game
/// can tick.
pub proof fn lemma_wf_bounds(game: GameView)
    requires
        game.wf(),
    ensures
        game.snake.body.len() <= CELL_COUNT * CELL_COUNT,
        game.score <= FOOD_SCORE * (CELL_COUNT * CELL_COUNT),
        game.can_tick(),
{
    lemma_distinct_cells_fit_board(game.snake.body);
}

/// The game before its first round is well formed.
pub proof fn lemma_initial_wf(last_update: u64)
    ensures
        GameView::initial(last_update).wf(),
{
}

/// A tick keeps a well-formed game well formed.
pub proof fn lemma_tick_keeps_wf(game: GameView)
    requires
        game.wf(),
    ensures
        game.ticked().wf(),
{
    if !game.running {
    } else if game.moved().hits_edge() || game.moved().hits_tail() {
        lemma_initial_wf(game.snake.last_update);
    } else {
        // Behind its new head the body is the old one, shifted by one cell.
        let before = game.snake.body;
        let after = game.moved().snake.body;
        assert forall|i: int| 0 < i < after.len() implies after[i] == before[i - 1] by {}
        if let Some(cell) = game.food {
            if after.contains(cell) && !game.moved().eats() {
                let k = choose|k: int| 0 <= k < after.len() && after[k] == cell;
                assert(before[k - 1] == cell);
            }
        }
    }
}

/// In a well-formed game, the step that brings the head onto the food does
/// not crash: food lies on the board and on no cell of the body.
pub proof fn lemma_eating_does_not_crash(game: GameView)
    requires
        game.wf(),
        game.moved().eats(),
    ensures
        !game.moved().hits_edge(),
        !game.moved().hits_tail(),
{
    let before = game.snake.body;
    let after = game.moved().snake.body;
    if game.moved().hits_tail() {
        let head = game.moved().snake.head();
        let j = choose|j: int| 1 <= j < after.len() && #[trigger] after[j] == head;
        assert(after[j] == before[j - 1]);
        assert(before.contains(head));
    }
}

} // verus!
