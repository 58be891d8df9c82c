use hecto::command::{Command, Edit, InputEvent, KeyCode, KeyPress, Modifiers, Move, System};
use hecto::editorcommand::{Direction, EditorCommand};
use hecto::size::Size;

fn press(code: KeyCode, modifiers: Modifiers) -> KeyPress {
    KeyPress { code, modifiers, is_press: true }
}

#[test]
fn plain_character_inserts() {
    let command = Command::try_from(InputEvent::Key(press(KeyCode::Char('a'), Modifiers::Plain)));
    assert!(matches!(command, Ok(Command::Edit(Edit::Insert('a')))));
    let shifted = Command::try_from(InputEvent::Key(press(KeyCode::Char('A'), Modifiers::Shift)));
    assert!(matches!(shifted, Ok(Command::Edit(Edit::Insert('A')))));
}

#[test]
fn tab_key_inserts_tab_character() {
    let command = Command::try_from(InputEvent::Key(press(KeyCode::Tab, Modifiers::Plain)));
    assert!(matches!(command, Ok(Command::Edit(Edit::Insert('\t')))));
}

#[test]
fn enter_delete_backspace_map_to_edits() {
    assert!(matches!(
        Command::try_from(InputEvent::Key(press(KeyCode::Enter, Modifiers::Plain))),
        Ok(Command::Edit(Edit::InsertNewline))
    ));
    assert!(matches!(
        Command::try_from(InputEvent::Key(press(KeyCode::Delete, Modifiers::Plain))),
        Ok(Command::Edit(Edit::Delete))
    ));
    assert!(matches!(
        Command::try_from(InputEvent::Key(press(KeyCode::Backspace, Modifiers::Plain))),
        Ok(Command::Edit(Edit::DeleteBackward))
    ));
}

#[test]
fn unmodified_navigation_keys_move() {
    assert!(matches!(
        Command::try_from(InputEvent::Key(press(KeyCode::PageUp, Modifiers::Plain))),
        Ok(Command::Move(Move::Pageup))
    ));
    assert!(matches!(
        Command::try_from(InputEvent::Key(press(KeyCode::Home, Modifiers::Plain))),
        Ok(Command::Move(Move::StartofLine))
    ));
    assert!(matches!(
        Command::try_from(InputEvent::Key(press(KeyCode::Down, Modifiers::Plain))),
        Ok(Command::Move(Move::Down))
    ));
}

#[test]
fn control_bindings_are_system_commands() {
    assert!(matches!(
        Command::try_from(InputEvent::Key(press(KeyCode::Char('q'), Modifiers::Control))),
        Ok(Command::System(System::Quit))
    ));
    assert!(matches!(
        Command::try_from(InputEvent::Key(press(KeyCode::Char('s'), Modifiers::Control))),
        Ok(Command::System(System::Save))
    ));
    assert!(matches!(
        Command::try_from(InputEvent::Key(press(KeyCode::Esc, Modifiers::Plain))),
        Ok(Command::System(System::Dismiss))
    ));
}

#[test]
fn resize_event_becomes_system_resize() {
    let command = Command::try_from(InputEvent::Resize(Size { columns: 11, rows: 7 }));
    match command {
        Ok(Command::System(System::Resize(size))) => {
            assert_eq!(size.columns, 11);
            assert_eq!(size.rows, 7);
        },
        _ => panic!("resize event must map to a resize command"),
    }
}

#[test]
fn unbound_input_is_explicitly_unsupported() {
    assert!(Command::try_from(InputEvent::Key(press(KeyCode::Char('x'), Modifiers::Control))).is_err());
    assert!(Command::try_from(InputEvent::Key(press(KeyCode::Up, Modifiers::Control))).is_err());
    assert!(Command::try_from(InputEvent::Key(press(KeyCode::Other, Modifiers::Plain))).is_err());
    assert!(Command::try_from(InputEvent::Other).is_err());
}

#[test]
fn flat_vocabulary_control_c_quits() {
    let command = EditorCommand::try_from(InputEvent::Key(press(
        KeyCode::Char('c'),
        Modifiers::Control,
    )));
    assert!(matches!(command, Ok(EditorCommand::Quit)));
}

#[test]
fn flat_vocabulary_moves_ignore_modifiers() {
    let command = EditorCommand::try_from(InputEvent::Key(press(KeyCode::Up, Modifiers::Control)));
    assert!(matches!(command, Ok(EditorCommand::Move(Direction::Up))));
}

#[test]
fn flat_vocabulary_ignores_non_press_events() {
    let event = InputEvent::Key(KeyPress {
        code: KeyCode::Char('a'),
        modifiers: Modifiers::Plain,
        is_press: false,
    });
    assert!(EditorCommand::try_from(event).is_err());
}
