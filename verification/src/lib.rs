//! A terminal Snake game: the grid model, the snake, the tick-driven game
//! engine, the session that arbitrates between input and simulation ticks,
//! and the layout of what a frame shows.

pub mod app;
pub mod config;
pub mod game;
pub mod grid;
pub mod input;
pub mod layout;
mod random;
pub mod renderer;
pub mod snake;
pub mod sound;

pub use app::{App, AppView};
pub use config::{Color, GameConfig};
pub use game::{Game, GameEvent, GameState, GameView};
pub use grid::{Direction, Position};
pub use input::{CrosstermInputHandler, InputAction, InputEvent, InputHandler, Key};
pub use layout::{Axis, Constraint, Rect};
pub use renderer::{Renderer, TuiRenderer};
pub use snake::{Snake, SnakeView};
pub use sound::{ConsoleSoundSystem, NoSoundSystem, SoundCue, SoundSystem};
