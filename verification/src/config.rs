//! Session settings: the board, the presentation and the high score.

use vstd::prelude::*;

verus! {

/// A terminal colour.
#[derive(Debug, Clone, Copy, PartialEq, Eq, Structural)]
pub enum Color {
    Reset,
    Black,
    Red,
    Green,
    Yellow,
    Blue,
    Magenta,
    Cyan,
    Gray,
    DarkGray,
    LightRed,
    LightGreen,
    LightYellow,
    LightBlue,
    LightMagenta,
    LightCyan,
    White,
    Rgb(u8, u8, u8),
    Indexed(u8),
}

/// The settings of a session. They belong to the session, not to a game:
/// the high score outlives every restart.
#[derive(Debug, Clone, Copy, PartialEq, Eq, Structural)]
pub struct GameConfig {
    pub board_width: u16,
    pub board_height: u16,
    pub enable_sound: bool,
    pub enable_colors: bool,
    pub wall_wrapping: bool,
    pub snake_color: Color,
    pub food_color: Color,
    pub wall_color: Color,
    pub background_color: Color,
    pub border_color: Color,
    pub high_score: u32,
}

impl GameConfig {
    /// The settings a session starts from on a board of the given size.
    pub open spec fn standard(width: u16, height: u16) -> GameConfig {
        GameConfig {
            board_width: width,
            board_height: height,
            enable_sound: true,
            enable_colors: true,
            wall_wrapping: true,
            snake_color: Color::Green,
            food_color: Color::Red,
            wall_color: Color::Gray,
            background_color: Color::Black,
            border_color: Color::White,
            high_score: 0,
        }
    }
}

impl Default for GameConfig {
    fn default() -> (config: Self)
        ensures
            config == GameConfig::standard(40, 20),
    {
        Self {
            board_width: 40,
            board_height: 20,
            enable_sound: true,
            enable_colors: true,
            wall_wrapping: true,
            snake_color: Color::Green,
            food_color: Color::Red,
            wall_color: Color::Gray,
            background_color: Color::Black,
            border_color: Color::White,
            high_score: 0,
        }
    }
}

impl GameConfig {
    /// The standard settings on a board of the given size.
    pub fn new(width: u16, height: u16) -> (config: Self)
        ensures
            config == GameConfig::standard(width, height),
    {
        let mut config = GameConfig::default();
        config.board_width = width;
        config.board_height = height;
        config
    }

    /// These settings with sound on or off.
    pub fn with_sound(self, enable: bool) -> (config: Self)
        ensures
            config == (GameConfig { enable_sound: enable, ..self }),
    {
        GameConfig { enable_sound: enable, ..self }
    }

    /// These settings with colours on or off.
    pub fn with_colors(self, enable: bool) -> (config: Self)
        ensures
            config == (GameConfig { enable_colors: enable, ..self }),
    {
        GameConfig { enable_colors: enable, ..self }
    }

    /// These settings with open walls, which wrap around, or solid ones.
    pub fn with_wall_wrapping(self, enable: bool) -> (config: Self)
        ensures
            config == (GameConfig { wall_wrapping: enable, ..self }),
    {
        GameConfig { wall_wrapping: enable, ..self }
    }

    /// These settings with the snake in `color`.
    pub fn with_snake_color(self, color: Color) -> (config: Self)
        ensures
            config == (GameConfig { snake_color: color, ..self }),
    {
        GameConfig { snake_color: color, ..self }
    }

    /// These settings with the food in `color`.
    pub fn with_food_color(self, color: Color) -> (config: Self)
        ensures
            config == (GameConfig { food_color: color, ..self }),
    {
        GameConfig { food_color: color, ..self }
    }

    /// These settings with the walls in `color`.
    pub fn with_wall_color(self, color: Color) -> (config: Self)
        ensures
            config == (GameConfig { wall_color: color, ..self }),
    {
        GameConfig { wall_color: color, ..self }
    }

    /// These settings with the background in `color`.
    pub fn with_background_color(self, color: Color) -> (config: Self)
        ensures
            config == (GameConfig { background_color: color, ..self }),
    {
        GameConfig { background_color: color, ..self }
    }

    /// These settings with the borders of the panels in `color`.
    pub fn with_border_color(self, color: Color) -> (config: Self)
        ensures
            config == (GameConfig { border_color: color, ..self }),
    {
        GameConfig { border_color: color, ..self }
    }

    /// Records `score` as the high score if it beats the one on record. The
    /// high score never goes down.
    pub fn update_high_score(&mut self, score: u32)
        ensures
            *final(self) == (GameConfig {
                high_score: if score > old(self).high_score { score } else { old(self).high_score },
                ..*old(self)
            }),
            final(self).high_score >= old(self).high_score,
            final(self).high_score >= score,
    {
        if score > self.high_score {
            self.high_score = score;
        }
    }
}

} // verus!
