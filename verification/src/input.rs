//! Mapping raw key input to what the player asked for.

use crate::grid::Direction;
use vstd::prelude::*;

verus! {

/// What the player asked for.
#[derive(Debug, Clone, Copy, PartialEq, Eq, Structural)]
pub enum InputAction {
    Move(Direction),
    Pause,
    Restart,
    Quit,
    NoAction,
}

/// The keys that the game tells apart.
#[derive(Debug, Clone, Copy, PartialEq, Eq, Structural)]
pub enum Key {
    Up,
    Down,
    Left,
    Right,
    Esc,
    Char(char),
    /// Any other key.
    Other,
}

/// One event from the terminal, reduced to what the game reads of it.
#[derive(Debug, Clone, Copy, PartialEq, Eq, Structural)]
pub enum InputEvent {
    Key(Key),
    /// Anything that is not a key: focus, mouse, paste, resize.
    Other,
}

impl Key {
    /// The key bindings: arrows or `w` `a` `s` `d` steer, space pauses,
    /// `r` restarts, `q` or escape quits. Every other key does nothing.
    pub open spec fn action(self) -> InputAction {
        match self {
            Key::Up => InputAction::Move(Direction::Up),
            Key::Down => InputAction::Move(Direction::Down),
            Key::Left => InputAction::Move(Direction::Left),
            Key::Right => InputAction::Move(Direction::Right),
            Key::Esc => InputAction::Quit,
            Key::Char(c) => if c == 'w' {
                InputAction::Move(Direction::Up)
            } else if c == 's' {
                InputAction::Move(Direction::Down)
            } else if c == 'a' {
                InputAction::Move(Direction::Left)
            } else if c == 'd' {
                InputAction::Move(Direction::Right)
            } else if c == ' ' {
                InputAction::Pause
            } else if c == 'r' || c == 'R' {
                InputAction::Restart
            } else if c == 'q' || c == 'Q' {
                InputAction::Quit
            } else {
                InputAction::NoAction
            },
            Key::Other => InputAction::NoAction,
        }
    }
}

impl InputEvent {
    /// What an event asks for: a key its binding, anything else nothing.
    pub open spec fn action(self) -> InputAction {
        match self {
            InputEvent::Key(key) => key.action(),
            InputEvent::Other => InputAction::NoAction,
        }
    }
}

/// Turns input events into actions. An implementation decides on the key
/// bindings; it may fail, and a failure counts as no action. The mapping is
/// a function of the handler and the event alone: it reads no game and
/// changes none.
pub trait InputHandler {
    type Error;

    /// The action that the handler maps `event` to, and nothing where it
    /// fails on the event.
    spec fn answer(&self, event: InputEvent) -> Option<InputAction>;

    fn handle_input(&self, event: InputEvent) -> (result: Result<InputAction, Self::Error>)
        ensures
            match result {
                Ok(action) => self.answer(event) == Some(action),
                Err(_) => self.answer(event) is None,
            },
    ;
}

/// `std::io::Error`, the error of the terminal layer. The standard handler
/// names it as its error type and never makes one; nothing inside it is
/// visible to proofs.
#[verifier::external_type_specification]
#[verifier::external_body]
pub struct ExIoError(std::io::Error);

/// The standard key bindings, see [`Key::action`].
pub struct CrosstermInputHandler;

impl Default for CrosstermInputHandler {
    fn default() -> Self {
        Self::new()
    }
}

impl CrosstermInputHandler {
    /// The handler with the standard key bindings.
    pub fn new() -> Self {
        Self
    }
}

impl InputHandler for CrosstermInputHandler {
    type Error = std::io::Error;

    open spec fn answer(&self, event: InputEvent) -> Option<InputAction> {
        Some(event.action())
    }

    fn handle_input(&self, event: InputEvent) -> (result: Result<InputAction, Self::Error>)
        ensures
            result matches Ok(action) && action == event.action(),
    {
        if let InputEvent::Key(code) = event {
            let action = match code {
                Key::Up | Key::Char('w') => InputAction::Move(Direction::Up),
                Key::Down | Key::Char('s') => InputAction::Move(Direction::Down),
                Key::Left | Key::Char('a') => InputAction::Move(Direction::Left),
                Key::Right | Key::Char('d') => InputAction::Move(Direction::Right),
                Key::Char(' ') => InputAction::Pause,
                Key::Char('r') | Key::Char('R') => InputAction::Restart,
                Key::Char('q') | Key::Char('Q') | Key::Esc => InputAction::Quit,
                _ => InputAction::NoAction,
            };
            Ok(action)
        } else {
            Ok(InputAction::NoAction)
        }
    }
}

} // verus!
