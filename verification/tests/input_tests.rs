use snake_rs::{CrosstermInputHandler, Direction, InputAction, InputEvent, InputHandler, Key};

fn action_of(event: InputEvent) -> InputAction {
    match CrosstermInputHandler::new().handle_input(event) {
        Ok(action) => action,
        Err(error) => panic!("the standard key bindings never fail: {error}"),
    }
}

#[test]
fn arrow_keys_steer() {
    assert_eq!(action_of(InputEvent::Key(Key::Up)), InputAction::Move(Direction::Up));
    assert_eq!(action_of(InputEvent::Key(Key::Down)), InputAction::Move(Direction::Down));
    assert_eq!(action_of(InputEvent::Key(Key::Left)), InputAction::Move(Direction::Left));
    assert_eq!(action_of(InputEvent::Key(Key::Right)), InputAction::Move(Direction::Right));
}

#[test]
fn letter_keys_steer() {
    assert_eq!(action_of(InputEvent::Key(Key::Char('w'))), InputAction::Move(Direction::Up));
    assert_eq!(action_of(InputEvent::Key(Key::Char('s'))), InputAction::Move(Direction::Down));
    assert_eq!(action_of(InputEvent::Key(Key::Char('a'))), InputAction::Move(Direction::Left));
    assert_eq!(action_of(InputEvent::Key(Key::Char('d'))), InputAction::Move(Direction::Right));
}

#[test]
fn space_pauses() {
    assert_eq!(action_of(InputEvent::Key(Key::Char(' '))), InputAction::Pause);
}

#[test]
fn r_restarts() {
    assert_eq!(action_of(InputEvent::Key(Key::Char('r'))), InputAction::Restart);
    assert_eq!(action_of(InputEvent::Key(Key::Char('R'))), InputAction::Restart);
}

#[test]
fn q_and_escape_quit() {
    assert_eq!(action_of(InputEvent::Key(Key::Char('q'))), InputAction::Quit);
    assert_eq!(action_of(InputEvent::Key(Key::Char('Q'))), InputAction::Quit);
    assert_eq!(action_of(InputEvent::Key(Key::Esc)), InputAction::Quit);
}

#[test]
fn other_keys_do_nothing() {
    assert_eq!(action_of(InputEvent::Key(Key::Other)), InputAction::NoAction);
    for c in ['W', 'A', 'S', 'D', 'x', '1', '\n', 'é'] {
        assert_eq!(action_of(InputEvent::Key(Key::Char(c))), InputAction::NoAction);
    }
}

#[test]
fn events_that_are_no_keys_do_nothing() {
    assert_eq!(action_of(InputEvent::Other), InputAction::NoAction);
}

#[test]
fn default_handler_has_the_standard_bindings() {
    let handler = CrosstermInputHandler::default();
    assert!(matches!(
        handler.handle_input(InputEvent::Key(Key::Esc)),
        Ok(InputAction::Quit)
    ));
}
