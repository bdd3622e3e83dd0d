//! The session: a game, its settings and the rules by which input and
//! simulation ticks take their turns.
//!
//! The simulation runs at a fixed tick. Between two ticks only the first
//! change of direction reaches the snake at once; a later one waits for the
//! tick and then replaces it.

use crate::config::GameConfig;
use crate::game::{Game, GameEvent, GameView};
use crate::grid::Direction;
use crate::input::{InputAction, InputEvent, InputHandler};
use crate::renderer::TuiRenderer;
use crate::sound::SoundSystem;
use vstd::prelude::*;

verus! {

/// The time between two simulation steps, in nanoseconds: 100 ms.
pub const TICK_INTERVAL_NANOS: u64 = 100_000_000;

/// How long to wait for input when `elapsed_nanos` have passed since the
/// last tick: the rest of the tick interval, and nothing once a tick is due.
pub fn poll_timeout_nanos(elapsed_nanos: u128) -> (timeout: u64)
    ensures
        timeout == if elapsed_nanos >= TICK_INTERVAL_NANOS {
            0
        } else {
            TICK_INTERVAL_NANOS - elapsed_nanos
        },
{
    if elapsed_nanos >= TICK_INTERVAL_NANOS as u128 {
        0
    } else {
        TICK_INTERVAL_NANOS - elapsed_nanos as u64
    }
}

/// Whether a simulation step is due when `elapsed_nanos` have passed since
/// the last one.
pub fn tick_due(elapsed_nanos: u128) -> (due: bool)
    ensures
        due == (elapsed_nanos >= TICK_INTERVAL_NANOS),
{
    elapsed_nanos >= TICK_INTERVAL_NANOS as u128
}

/// The mathematical content of an [`App`].
pub struct AppView {
    pub game: GameView,
    pub config: GameConfig,
    /// The direction asked for since the last tick, if any.
    pub pending_direction: Option<Direction>,
    pub should_quit: bool,
}

impl AppView {
    /// `next` is a possible outcome of applying `action`. Only the cell of
    /// the new food after a restart is left open.
    pub open spec fn acts_to(self, action: InputAction, next: AppView) -> bool {
        match action {
            InputAction::Move(d) => next == (AppView {
                game: if self.pending_direction is None {
                    self.game.turned(d)
                } else {
                    self.game
                },
                pending_direction: Some(d),
                ..self
            }),
            InputAction::Pause => next == (AppView { game: self.game.pause_toggled(), ..self }),
            InputAction::Restart => self.game.resets_to(next.game) && next == (AppView {
                game: next.game,
                ..self
            }),
            InputAction::Quit => next == (AppView { should_quit: true, ..self }),
            InputAction::NoAction => next == self,
        }
    }

    /// The settings after a tick that ended in `event` with the score at
    /// `score`: the end of a game puts its score on record if it is a new best.
    pub open spec fn config_after(self, event: GameEvent, score: u32) -> GameConfig {
        if event == GameEvent::GameOver && score > self.config.high_score {
            GameConfig { high_score: score, ..self.config }
        } else {
            self.config
        }
    }

    /// `next` and `event` are a possible outcome of a tick whose simulation
    /// step led the game to `stepped`: the settings take note of a finished
    /// game, and the pending direction, or else the snake's own, is applied
    /// and forgotten.
    pub open spec fn ticks_through(self, stepped: GameView, next: AppView, event: GameEvent) -> bool {
        &&& self.game.steps_to(stepped, event)
        &&& next == (AppView {
            game: stepped.turned(
                match self.pending_direction {
                    Some(d) => d,
                    None => stepped.snake.direction,
                },
            ),
            config: self.config_after(event, stepped.score),
            pending_direction: None,
            should_quit: self.should_quit,
        })
    }

    /// `next` and `event` are a possible outcome of a tick.
    pub open spec fn ticks_to(self, next: AppView, event: GameEvent) -> bool {
        exists|stepped: GameView| #[trigger] self.ticks_through(stepped, next, event)
    }
}

impl AppView {
    /// The high score never goes down in a tick, and a tick that ends a game
    /// leaves it at the larger of the score of that game and the high score
    /// so far. A tick changes nothing else of the settings and never the
    /// wish to quit, and it leaves no direction pending.
    pub proof fn lemma_tick_records_high_score(self, next: AppView, event: GameEvent)
        requires
            self.ticks_to(next, event),
        ensures
            next.config.high_score >= self.config.high_score,
            event == GameEvent::GameOver ==> next.config.high_score == if next.game.score
                > self.config.high_score {
                next.game.score
            } else {
                self.config.high_score
            },
            event != GameEvent::GameOver ==> next.config == self.config,
            next.config == (GameConfig { high_score: next.config.high_score, ..self.config }),
            next.should_quit == self.should_quit,
            next.pending_direction is None,
    {
        let stepped = choose|stepped: GameView| #[trigger] self.ticks_through(stepped, next, event);
        assert(self.ticks_through(stepped, next, event));
    }

    /// Of the changes of direction between two ticks only the first reaches
    /// the snake at once; the last one is what stays pending.
    pub proof fn lemma_first_turn_is_immediate(
        self,
        first: Direction,
        second: Direction,
        mid: AppView,
        next: AppView,
    )
        requires
            self.pending_direction is None,
            self.acts_to(InputAction::Move(first), mid),
            mid.acts_to(InputAction::Move(second), next),
        ensures
            mid.game == self.game.turned(first),
            next.game == mid.game,
            next.pending_direction == Some(second),
    {
    }
}

/// A session: the game, its settings, and the handlers for input and sound.
pub struct App<I: InputHandler, S: SoundSystem> {
    game: Game,
    config: GameConfig,
    renderer: TuiRenderer,
    input_handler: I,
    sound_system: S,
    should_quit: bool,
    pending_direction: Option<Direction>,
}

impl<I: InputHandler, S: SoundSystem> View for App<I, S> {
    type V = AppView;

    closed spec fn view(&self) -> AppView {
        AppView {
            game: self.game@,
            config: self.config,
            pending_direction: self.pending_direction,
            should_quit: self.should_quit,
        }
    }
}

impl<I: InputHandler, S: SoundSystem> App<I, S> {
    /// The handler that maps the input of this session to actions.
    pub closed spec fn input_handler(&self) -> I {
        self.input_handler
    }

    /// A session with a new game on the board that `config` asks for, with
    /// the walls as `config` wants them.
    pub fn new(config: GameConfig, input_handler: I, sound_system: S) -> (app: Self)
        requires
            config.board_width >= 1,
            config.board_height >= 1,
        ensures
            app@.game.well_formed(),
            GameView::fresh(config.board_width, config.board_height, config.wall_wrapping).respawns_food_to(
                app@.game,
            ),
            app@.config == config,
            app@.pending_direction is None,
            !app@.should_quit,
            app.input_handler() == input_handler,
    {
        let mut game = Game::new(config.board_width, config.board_height);
        game.set_wall_wrapping(config.wall_wrapping);
        Self {
            game,
            config,
            renderer: TuiRenderer::new(),
            input_handler,
            sound_system,
            should_quit: false,
            pending_direction: None,
        }
    }

    /// The game as it stands.
    pub fn game(&self) -> (game: &Game)
        ensures
            game@ == self@.game,
    {
        &self.game
    }

    /// The settings of the session, the high score among them.
    pub fn config(&self) -> (config: &GameConfig)
        ensures
            *config == self@.config,
    {
        &self.config
    }

    /// The renderer that lays out the frames of this session.
    pub fn renderer(&self) -> &TuiRenderer {
        &self.renderer
    }

    /// Whether the player has asked to leave.
    pub fn should_quit(&self) -> (quit: bool)
        ensures
            quit == self@.should_quit,
    {
        self.should_quit
    }

    /// Applies what the player asked for.
    pub fn apply_action(&mut self, action: InputAction)
        requires
            old(self)@.game.well_formed(),
        ensures
            final(self)@.game.well_formed(),
            old(self)@.acts_to(action, final(self)@),
            final(self).input_handler() == old(self).input_handler(),
    {
        match action {
            InputAction::Move(direction) => {
                if self.pending_direction.is_none() {
                    self.game.set_direction(direction);
                }
                self.pending_direction = Some(direction);
            },
            InputAction::Pause => {
                self.game.toggle_pause();
            },
            InputAction::Restart => {
                self.game.reset();
            },
            InputAction::Quit => {
                self.should_quit = true;
            },
            InputAction::NoAction => {},
        }
    }

    /// Hands `event` to the input handler and applies the action that it
    /// answers with. An event that the handler fails on changes nothing.
    pub fn handle_event(&mut self, event: InputEvent)
        requires
            old(self)@.game.well_formed(),
        ensures
            final(self)@.game.well_formed(),
            match old(self).input_handler().answer(event) {
                Some(action) => old(self)@.acts_to(action, final(self)@),
                None => final(self)@ == old(self)@,
            },
            final(self).input_handler() == old(self).input_handler(),
    {
        match self.input_handler.handle_input(event) {
            Ok(action) => {
                self.apply_action(action);
            },
            Err(_) => {},
        }
    }

    /// Ticks if a tick is due when `elapsed_nanos` have passed since the last
    /// one, and says what the tick did. After a tick the time starts over.
    pub fn tick_if_due(&mut self, elapsed_nanos: u128) -> (ticked: Option<GameEvent>)
        requires
            old(self)@.game.well_formed(),
            elapsed_nanos >= TICK_INTERVAL_NANOS && old(self)@.game.feeds() ==> old(self)@.game.score
                + crate::game::FOOD_SCORE <= u32::MAX,
        ensures
            final(self)@.game.well_formed(),
            match ticked {
                Some(event) => {
                    elapsed_nanos >= TICK_INTERVAL_NANOS && old(self)@.ticks_to(final(self)@, event)
                },
                None => elapsed_nanos < TICK_INTERVAL_NANOS && final(self)@ == old(self)@,
            },
            final(self).input_handler() == old(self).input_handler(),
    {
        if tick_due(elapsed_nanos) {
            Some(self.on_tick())
        } else {
            None
        }
    }

    /// One tick: the game takes a simulation step and the sound system hears
    /// of its outcome; a game that ended puts its score on record if it is a
    /// new best; then the direction that was asked for since the last tick
    /// is applied once more and forgotten.
    pub fn on_tick(&mut self) -> (event: GameEvent)
        requires
            old(self)@.game.well_formed(),
            old(self)@.game.feeds() ==> old(self)@.game.score + crate::game::FOOD_SCORE <= u32::MAX,
        ensures
            final(self)@.game.well_formed(),
            old(self)@.ticks_to(final(self)@, event),
            final(self).input_handler() == old(self).input_handler(),
    {
        let event = self.game.update();
        let ghost stepped = self@.game;
        self.sound_system.play_sound(event);
        if event == GameEvent::GameOver {
            self.config.update_high_score(self.game.score());
        }
        let direction = match self.pending_direction.take() {
            Some(direction) => direction,
            None => self.game.snake().direction(),
        };
        self.game.set_direction(direction);
        assert(old(self)@.ticks_through(stepped, self@, event));
        event
    }
}

} // verus!
