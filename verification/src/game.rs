//! The tick-driven game engine: snake, food, score and state on a board.

pub use crate::grid::{Direction, Position};
use crate::random::{random_below, thread_rng};
pub use crate::snake::{Snake, SnakeView};
use rand::rngs::ThreadRng;
use vstd::prelude::*;

verus! {

/// The number of segments a freshly seeded snake has.
pub const INITIAL_SNAKE_LENGTH: usize = 4;

/// What one eaten food is worth.
pub const FOOD_SCORE: u32 = 10;

/// How many random cells are tried for new food before the board is
/// searched cell by cell.
pub const FOOD_SAMPLE_LIMIT: u32 = 256;

/// The states of a game. Only a restart leaves `GameOver`.
#[derive(Debug, Clone, Copy, PartialEq, Eq, Structural)]
pub enum GameState {
    Playing,
    Paused,
    GameOver,
}

/// What one simulation step did.
#[derive(Debug, Clone, Copy, PartialEq, Eq, Structural)]
pub enum GameEvent {
    /// Nothing happened: the game was not running.
    Idle,
    Moved,
    FoodEaten,
    GameOver,
}

/// The mathematical content of a [`Game`]: everything but its source of
/// random numbers.
pub struct GameView {
    pub snake: SnakeView,
    pub food: Position,
    pub score: u32,
    pub state: GameState,
    pub board_width: u16,
    pub board_height: u16,
    pub wall_wrapping: bool,
}

impl GameView {
    /// The board has cells, the snake has a head, and while the game can
    /// still go on the head is not at the largest coordinate.
    pub open spec fn well_formed(self) -> bool {
        &&& self.snake.well_formed()
        &&& self.board_width >= 1
        &&& self.board_height >= 1
        &&& self.state != GameState::GameOver ==> self.snake.head().x < u16::MAX && self.snake.head().y
            < u16::MAX
    }

    /// Where the head goes on the next step.
    pub open spec fn next_head(self) -> Position {
        if self.wall_wrapping {
            self.snake.head().wrapped_step(self.snake.direction, self.board_width, self.board_height)
        } else {
            self.snake.head().clamped_step(self.snake.direction)
        }
    }

    /// The snake after the next step, before any food is taken into account.
    pub open spec fn moved_snake(self) -> SnakeView {
        self.snake.advanced(self.next_head())
    }

    /// The next step ends the game: the head leaves a board with solid walls
    /// or runs into the body.
    pub open spec fn crashes(self) -> bool {
        ||| !self.wall_wrapping && !self.next_head().within(self.board_width, self.board_height)
        ||| self.moved_snake().collides()
    }

    /// The next step is taken, survives and lands on the food.
    pub open spec fn feeds(self) -> bool {
        self.state == GameState::Playing && !self.crashes() && self.next_head() == self.food
    }

    /// A new game before its first food is put down: solid or open walls
    /// as asked for, no score, the freshly seeded snake.
    pub open spec fn fresh(board_width: u16, board_height: u16, wall_wrapping: bool) -> GameView {
        GameView {
            snake: seeded_snake(Position { x: board_width / 2, y: board_height / 3 }),
            food: Position { x: 0, y: 0 },
            score: 0,
            state: GameState::Playing,
            board_width,
            board_height,
            wall_wrapping,
        }
    }

    /// Some cell of the board is not covered by the snake.
    pub open spec fn has_free_cell(self) -> bool {
        exists|p: Position|
            #[trigger] p.within(self.board_width, self.board_height) && !self.snake.body.contains(p)
    }

    /// `p` is a cell of the board that the snake does not cover.
    pub open spec fn is_free(self, p: Position) -> bool {
        p.within(self.board_width, self.board_height) && !self.snake.body.contains(p)
    }

    /// `p` comes before `q` when the board is read row by row.
    pub open spec fn scans_before(p: Position, q: Position) -> bool {
        p.y < q.y || (p.y == q.y && p.x < q.x)
    }

    /// This game with the food on `food`.
    pub open spec fn with_food(self, food: Position) -> GameView {
        GameView { food, ..self }
    }

    /// This game with `snake` in place of its own.
    pub open spec fn with_snake(self, snake: SnakeView) -> GameView {
        GameView { snake, ..self }
    }

    /// This game in state `state`.
    pub open spec fn with_state(self, state: GameState) -> GameView {
        GameView { state, ..self }
    }

    /// `next` is this game after new food was put down: nothing but the food
    /// differs, and the food lies on a free cell whenever there is one. On a
    /// board that the snake covers entirely the food stays where it was.
    pub open spec fn respawns_food_to(self, next: GameView) -> bool {
        &&& next == self.with_food(next.food)
        &&& self.has_free_cell() ==> self.is_free(next.food)
        &&& !self.has_free_cell() ==> next.food == self.food
    }

    /// The game after a request to turn towards `d`.
    pub open spec fn turned(self, d: Direction) -> GameView {
        if self.state == GameState::Playing {
            self.with_snake(self.snake.turned(d))
        } else {
            self
        }
    }

    /// The game after the pause key.
    pub open spec fn pause_toggled(self) -> GameView {
        match self.state {
            GameState::Playing => self.with_state(GameState::Paused),
            GameState::Paused => self.with_state(GameState::Playing),
            GameState::GameOver => self,
        }
    }

    /// `next` and `event` are a possible outcome of one simulation step.
    /// Only the cell of the new food, where food is eaten, is left open.
    pub open spec fn steps_to(self, next: GameView, event: GameEvent) -> bool {
        if self.state != GameState::Playing {
            event == GameEvent::Idle && next == self
        } else if self.crashes() {
            event == GameEvent::GameOver && next == self.with_snake(self.moved_snake()).with_state(
                GameState::GameOver,
            )
        } else if self.next_head() == self.food {
            let fed = GameView {
                snake: self.moved_snake().grown(self.snake.tail()),
                score: (self.score + FOOD_SCORE) as u32,
                ..self
            };
            event == GameEvent::FoodEaten && fed.respawns_food_to(next)
        } else {
            event == GameEvent::Moved && next == self.with_snake(self.moved_snake())
        }
    }

    /// `next` is a possible outcome of a restart: a fresh snake at the
    /// centre, no score, the game running, new food; the board and its
    /// walls as before.
    pub open spec fn resets_to(self, next: GameView) -> bool {
        let start = Position { x: self.board_width / 2, y: self.board_height / 2 };
        let fresh = GameView {
            snake: seeded_snake(start),
            score: 0,
            state: GameState::Playing,
            ..self
        };
        fresh.respawns_food_to(next)
    }
}

impl GameView {
    /// Pausing a running game and pausing again gives the running game back;
    /// a game that is over stays over.
    pub proof fn lemma_pause_toggle(self)
        ensures
            self.state == GameState::Playing ==> self.pause_toggled().state == GameState::Paused,
            self.state == GameState::Paused ==> self.pause_toggled().state == GameState::Playing,
            self.state == GameState::GameOver ==> self.pause_toggled() == self,
            self.pause_toggled().pause_toggled() == self,
            self.pause_toggled() == self.with_state(self.pause_toggled().state),
    {
    }

    /// Only a restart leaves the end of a game: a step, a turn and the pause
    /// key change nothing once the game is over, and a step reports nothing.
    pub proof fn lemma_game_over_is_terminal(self, next: GameView, event: GameEvent, d: Direction)
        requires
            self.state == GameState::GameOver,
        ensures
            self.steps_to(next, event) ==> next == self && event == GameEvent::Idle,
            self.turned(d) == self,
            self.pause_toggled() == self,
    {
    }

    /// A paused game does not step and does not turn.
    pub proof fn lemma_paused_game_rests(self, next: GameView, event: GameEvent, d: Direction)
        requires
            self.state == GameState::Paused,
        ensures
            self.steps_to(next, event) ==> next == self && event == GameEvent::Idle,
            self.turned(d) == self,
    {
    }

    /// A step that eats adds exactly the worth of one food to the score and
    /// exactly one segment to the snake, and the game goes on. Where a free
    /// cell is left, the new food lies on the board and on no segment of the
    /// snake.
    pub proof fn lemma_feeding(self, next: GameView, event: GameEvent)
        requires
            self.well_formed(),
            self.feeds(),
            self.score + FOOD_SCORE <= u32::MAX,
            self.steps_to(next, event),
        ensures
            event == GameEvent::FoodEaten,
            next.score == self.score + 10,
            next.snake.body.len() == self.snake.body.len() + 1,
            next.snake.body == seq![self.food] + self.snake.body,
            next.state == GameState::Playing,
            next.has_free_cell() ==> next.food.within(next.board_width, next.board_height)
                && !next.snake.body.contains(next.food),
    {
        self.snake.lemma_advance(self.next_head());
        if next.has_free_cell() {
            // The food was put down before the board of `next` was looked
            // at, on a board and under a snake that are the same.
            let free = choose|p: Position| #[trigger]
                p.within(next.board_width, next.board_height) && !next.snake.body.contains(p);
            assert(free.within(self.board_width, self.board_height));
        }
    }

    /// A step reports food exactly when it eats, and the end of the game
    /// exactly when a running game crashes; it reports nothing exactly when
    /// the game is not running.
    pub proof fn lemma_step_events(self, next: GameView, event: GameEvent)
        requires
            self.well_formed(),
            self.steps_to(next, event),
        ensures
            event == GameEvent::Idle <==> self.state != GameState::Playing,
            event == GameEvent::GameOver <==> self.state == GameState::Playing && self.crashes(),
            event == GameEvent::FoodEaten <==> self.feeds(),
            event == GameEvent::GameOver ==> next.state == GameState::GameOver,
            event != GameEvent::GameOver ==> next.state == self.state,
            event != GameEvent::FoodEaten ==> next.score == self.score && next.food == self.food
                && next.snake.body.len() == self.snake.body.len(),
            next.board_width == self.board_width,
            next.board_height == self.board_height,
            next.wall_wrapping == self.wall_wrapping,
            next.snake.direction == self.snake.direction,
    {
    }

    /// A restart, from whatever state, leaves a running game without score
    /// whose snake has [`INITIAL_SNAKE_LENGTH`] segments, on the same board
    /// with the same walls.
    pub proof fn lemma_reset(self, next: GameView)
        requires
            self.resets_to(next),
        ensures
            next.state == GameState::Playing,
            next.score == 0,
            next.snake.body.len() == INITIAL_SNAKE_LENGTH,
            next.snake.body.len() == 4,
            next.snake.direction == Direction::Right,
            next.wall_wrapping == self.wall_wrapping,
            next.board_width == self.board_width,
            next.board_height == self.board_height,
    {
    }

    /// On a board with solid walls a step that does not end the game keeps
    /// the segments of the snake adjacent, provided the food does not lie
    /// under the snake.
    pub proof fn lemma_step_keeps_contiguity(self, next: GameView, event: GameEvent)
        requires
            self.well_formed(),
            !self.wall_wrapping,
            self.snake.contiguous(),
            !self.snake.body.contains(self.food),
            self.steps_to(next, event),
            event != GameEvent::GameOver,
        ensures
            next.snake.contiguous(),
    {
        if self.state == GameState::Playing {
            let head = self.snake.head();
            let new_head = self.next_head();
            head.lemma_clamped_step_moves_one_unit(self.snake.direction);
            if new_head == head {
                // The head was held back at coordinate 0: a longer snake
                // would have run into itself, and the food is elsewhere.
                if self.snake.body.len() >= 2 {
                    assert(self.moved_snake().body[1] == head);
                }
            } else {
                self.snake.lemma_advance_keeps_contiguity(new_head);
            }
        }
    }

    /// Food that was just put down lies on a free cell of the board, if the
    /// board has one.
    pub proof fn lemma_respawned_food_is_free(self, next: GameView)
        requires
            self.respawns_food_to(next),
            self.has_free_cell(),
        ensures
            next.food.within(next.board_width, next.board_height),
            !next.snake.body.contains(next.food),
            forall|i: int| 0 <= i < next.snake.body.len() ==> next.snake.body[i] != next.food,
    {
    }
}

/// A freshly seeded snake is well formed and its segments are adjacent.
pub proof fn lemma_seeded_snake(start: Position)
    requires
        start.x + INITIAL_SNAKE_LENGTH - 1 <= u16::MAX,
    ensures
        seeded_snake(start).well_formed(),
        seeded_snake(start).contiguous(),
        seeded_snake(start).body.len() == INITIAL_SNAKE_LENGTH,
        seeded_snake(start).head() == (Position {
            x: (start.x + INITIAL_SNAKE_LENGTH - 1) as u16,
            y: start.y,
        }),
        seeded_snake(start).tail() == start,
        !seeded_snake(start).collides(),
{
}

/// A snake of [`INITIAL_SNAKE_LENGTH`] segments in a row, heading right,
/// whose tail lies on `start`.
pub open spec fn seeded_snake(start: Position) -> SnakeView
    recommends
        start.x + INITIAL_SNAKE_LENGTH - 1 <= u16::MAX,
{
    SnakeView {
        body: Seq::new(
            INITIAL_SNAKE_LENGTH as nat,
            |i: int| Position { x: (start.x + INITIAL_SNAKE_LENGTH - 1 - i) as u16, y: start.y },
        ),
        direction: Direction::Right,
    }
}

/// A game: the snake, the food, the score and the state, on a board of
/// fixed size.
pub struct Game {
    snake: Snake,
    food: Position,
    score: u32,
    state: GameState,
    board_width: u16,
    board_height: u16,
    wall_wrapping: bool,
    rng: ThreadRng,
}

impl View for Game {
    type V = GameView;

    closed spec fn view(&self) -> GameView {
        GameView {
            snake: self.snake@,
            food: self.food,
            score: self.score,
            state: self.state,
            board_width: self.board_width,
            board_height: self.board_height,
            wall_wrapping: self.wall_wrapping,
        }
    }
}

impl Game {
    /// A running game on a board of the given size, with solid walls, no
    /// score, a freshly seeded snake and food on a free cell.
    pub fn new(board_width: u16, board_height: u16) -> (game: Self)
        requires
            board_width >= 1,
            board_height >= 1,
        ensures
            game@.well_formed(),
            GameView::fresh(board_width, board_height, false).respawns_food_to(game@),
    {
        let start_pos = Position::new(board_width / 2, board_height / 3);
        let mut game = Self {
            snake: Snake::new(start_pos),
            food: Position::new(0, 0),
            score: 0,
            state: GameState::Playing,
            board_width,
            board_height,
            wall_wrapping: false,
            rng: thread_rng(),
        };
        game.grow_to_initial_length(INITIAL_SNAKE_LENGTH);
        game.spawn_food();
        game
    }

    /// The snake.
    pub fn snake(&self) -> (snake: &Snake)
        ensures
            snake@ == self@.snake,
    {
        &self.snake
    }

    /// The cell of the food.
    pub fn food(&self) -> (food: Position)
        ensures
            food == self@.food,
    {
        self.food
    }

    /// The score: [`FOOD_SCORE`] for every food eaten since the last start.
    pub fn score(&self) -> (score: u32)
        ensures
            score == self@.score,
    {
        self.score
    }

    /// The state of the game.
    pub fn state(&self) -> (state: GameState)
        ensures
            state == self@.state,
    {
        self.state
    }

    /// Opens the walls, so that the snake wraps around, or makes them solid.
    pub fn set_wall_wrapping(&mut self, enabled: bool)
        ensures
            final(self)@ == (GameView { wall_wrapping: enabled, ..old(self)@ }),
    {
        self.wall_wrapping = enabled;
    }

    /// Whether the walls are open.
    pub fn wall_wrapping(&self) -> (enabled: bool)
        ensures
            enabled == self@.wall_wrapping,
    {
        self.wall_wrapping
    }

    /// Puts `snake` in place of the game's own, leaving all else as it is.
    pub fn set_snake(&mut self, snake: Snake)
        requires
            snake@.well_formed(),
            old(self)@.state != GameState::GameOver ==> snake@.head().x < u16::MAX && snake@.head().y
                < u16::MAX,
        ensures
            final(self)@ == old(self)@.with_snake(snake@),
    {
        self.snake = snake;
    }

    /// Turns the snake of a running game; a game that is paused or over
    /// ignores the request.
    pub fn set_direction(&mut self, direction: Direction)
        ensures
            final(self)@ == old(self)@.turned(direction),
    {
        if self.state == GameState::Playing {
            self.snake.set_direction(direction);
        }
    }

    /// Pauses a running game and resumes a paused one; a game that is over
    /// stays over.
    pub fn toggle_pause(&mut self)
        ensures
            final(self)@ == old(self)@.pause_toggled(),
    {
        match self.state {
            GameState::Playing => self.state = GameState::Paused,
            GameState::Paused => self.state = GameState::Playing,
            GameState::GameOver => {},
        }
    }

    /// Lengthens a one-segment snake that heads right, step by step, until
    /// it has `length` segments.
    fn grow_to_initial_length(&mut self, length: usize)
        requires
            length == INITIAL_SNAKE_LENGTH,
            old(self)@.snake.body.len() == 1,
            old(self)@.snake.direction == Direction::Right,
            old(self)@.snake.head().x + length - 1 <= u16::MAX,
        ensures
            final(self)@ == old(self)@.with_snake(seeded_snake(old(self)@.snake.head())),
    {
        let ghost start = self@.snake.head();
        while self.snake.len() < length
            invariant
                length == INITIAL_SNAKE_LENGTH,
                start.x + length - 1 <= u16::MAX,
                1 <= self@.snake.body.len() <= length,
                self@.snake.direction == Direction::Right,
                forall|i: int|
                    0 <= i < self@.snake.body.len() ==> #[trigger] self@.snake.body[i] == (Position {
                        x: (start.x + self@.snake.body.len() - 1 - i) as u16,
                        y: start.y,
                    }),
                self@ == old(self)@.with_snake(self@.snake),
            decreases length - self@.snake.body.len(),
        {
            let tail = self.snake.move_forward();
            self.snake.grow(tail);
        }
        assert(self@.snake.body =~= seeded_snake(start).body);
    }

    /// Starts over on the same board: a fresh snake at the centre, no score,
    /// the game running and new food. The walls stay as they were set.
    pub fn reset(&mut self)
        requires
            old(self)@.well_formed(),
        ensures
            final(self)@.well_formed(),
            old(self)@.resets_to(final(self)@),
    {
        let start_pos = Position::new(self.board_width / 2, self.board_height / 2);
        self.snake = Snake::new(start_pos);
        self.grow_to_initial_length(INITIAL_SNAKE_LENGTH);
        self.score = 0;
        self.state = GameState::Playing;
        self.spawn_food();
    }

    /// One simulation step.
    pub fn update(&mut self) -> (event: GameEvent)
        requires
            old(self)@.well_formed(),
            old(self)@.feeds() ==> old(self)@.score + FOOD_SCORE <= u32::MAX,
        ensures
            final(self)@.well_formed(),
            old(self)@.steps_to(final(self)@, event),
    {
        if self.state != GameState::Playing {
            return GameEvent::Idle;
        }
        let old_tail = if self.wall_wrapping {
            self.snake.move_forward_with_wrapping(self.board_width, self.board_height)
        } else {
            self.snake.move_forward()
        };

        let head = self.snake.head();

        if !self.wall_wrapping && self.is_out_of_bounds(head) {
            self.state = GameState::GameOver;
            return GameEvent::GameOver;
        }
        if self.snake.check_self_collision() {
            self.state = GameState::GameOver;
            return GameEvent::GameOver;
        }
        if head == self.food {
            self.snake.grow(old_tail);
            self.score += FOOD_SCORE;
            self.spawn_food();
            return GameEvent::FoodEaten;
        }
        GameEvent::Moved
    }

    fn is_out_of_bounds(&self, pos: Position) -> (out: bool)
        ensures
            out == !pos.within(self@.board_width, self@.board_height),
    {
        pos.x >= self.board_width || pos.y >= self.board_height
    }

    /// Puts the food on `candidate` if that is a cell of the board which the
    /// snake does not cover, and says whether it did.
    pub fn try_place_food(&mut self, candidate: Position) -> (placed: bool)
        ensures
            placed == old(self)@.is_free(candidate),
            placed ==> final(self)@ == old(self)@.with_food(candidate),
            !placed ==> final(self)@ == old(self)@,
    {
        if self.is_out_of_bounds(candidate) || self.snake.occupies(candidate) {
            false
        } else {
            self.food = candidate;
            true
        }
    }

    /// The first free cell when the board is read row by row, if there is one.
    pub fn first_free_cell(&self) -> (cell: Option<Position>)
        ensures
            match cell {
                Some(p) => self@.is_free(p) && forall|q: Position|
                    #[trigger] self@.is_free(q) ==> !GameView::scans_before(q, p),
                None => !self@.has_free_cell(),
            },
    {
        let mut y: u16 = 0;
        while y < self.board_height
            invariant
                y <= self.board_height,
                forall|q: Position| #[trigger] self@.is_free(q) ==> q.y >= y,
            decreases self.board_height - y,
        {
            let mut x: u16 = 0;
            while x < self.board_width
                invariant
                    y < self.board_height,
                    x <= self.board_width,
                    forall|q: Position| #[trigger] self@.is_free(q) ==> q.y >= y,
                    forall|q: Position| #[trigger] self@.is_free(q) && q.y == y ==> q.x >= x,
                decreases self.board_width - x,
            {
                let p = Position::new(x, y);
                if !self.snake.occupies(p) {
                    return Some(p);
                }
                x += 1;
            }
            y += 1;
        }
        assert forall|p: Position| #[trigger]
            p.within(self@.board_width, self@.board_height) implies self@.snake.body.contains(p) by {
            if !self@.snake.body.contains(p) {
                assert(self@.is_free(p));
            }
        }
        None
    }

    /// Draws random cells until one is free and puts the food there. After
    /// [`FOOD_SAMPLE_LIMIT`] draws on covered cells the board is searched
    /// row by row instead, so that the search ends on every board.
    fn spawn_food(&mut self)
        requires
            old(self)@.board_width >= 1,
            old(self)@.board_height >= 1,
        ensures
            old(self)@.respawns_food_to(final(self)@),
    {
        let mut attempts: u32 = 0;
        while attempts < FOOD_SAMPLE_LIMIT
            invariant
                self@ == old(self)@,
                self@.board_width >= 1,
                self@.board_height >= 1,
            decreases FOOD_SAMPLE_LIMIT - attempts,
        {
            let x: u16 = random_below(&mut self.rng, self.board_width);
            let y: u16 = random_below(&mut self.rng, self.board_height);
            if self.try_place_food(Position::new(x, y)) {
                return;
            }
            attempts += 1;
        }
        match self.first_free_cell() {
            Some(cell) => {
                self.food = cell;
            },
            None => {},
        }
    }
}

} // verus!
