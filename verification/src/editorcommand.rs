//! An earlier, flat command vocabulary kept alongside the structured one:
//! a single enum of movements, edits, resize, and quit.

use crate::command::{InputEvent, KeyCode, Modifiers, UnsupportedInput};
use crate::size::Size;
use vstd::prelude::*;

verus! {

/// A movement direction.
#[derive(Clone, Copy, Debug)]
pub enum Direction {
    Pageup,
    PageDown,
    Home,
    End,
    Up,
    Left,
    Right,
    Down,
}

/// A command in the flat vocabulary.
#[derive(Clone, Copy, Debug)]
pub enum EditorCommand {
    Move(Direction),
    Resize(Size),
    Insert(char),
    Delete,
    Backspace,
    Tab,
    Quit,
}

impl EditorCommand {
    /// The flat bindings: control-c quits; navigation keys move with any
    /// modifiers; plain or shifted characters insert; delete, backspace
    /// and tab act with any modifiers; only key presses count.
    pub open spec fn spec_try_from(event: InputEvent) -> Result<EditorCommand, UnsupportedInput> {
        match event {
            InputEvent::Key(key) => if !key.is_press {
                Err(UnsupportedInput)
            } else {
                match key.code {
                    KeyCode::Char(ch) => if ch == 'c' && key.modifiers is Control {
                        Ok(EditorCommand::Quit)
                    } else if key.modifiers is Plain || key.modifiers is Shift {
                        Ok(EditorCommand::Insert(ch))
                    } else {
                        Err(UnsupportedInput)
                    },
                    KeyCode::PageUp => Ok(EditorCommand::Move(Direction::Pageup)),
                    KeyCode::PageDown => Ok(EditorCommand::Move(Direction::PageDown)),
                    KeyCode::Home => Ok(EditorCommand::Move(Direction::Home)),
                    KeyCode::End => Ok(EditorCommand::Move(Direction::End)),
                    KeyCode::Up => Ok(EditorCommand::Move(Direction::Up)),
                    KeyCode::Left => Ok(EditorCommand::Move(Direction::Left)),
                    KeyCode::Right => Ok(EditorCommand::Move(Direction::Right)),
                    KeyCode::Down => Ok(EditorCommand::Move(Direction::Down)),
                    KeyCode::Delete => Ok(EditorCommand::Delete),
                    KeyCode::Backspace => Ok(EditorCommand::Backspace),
                    KeyCode::Tab => Ok(EditorCommand::Tab),
                    _ => Err(UnsupportedInput),
                }
            },
            InputEvent::Resize(size) => Ok(EditorCommand::Resize(size)),
            InputEvent::Other => Err(UnsupportedInput),
        }
    }

    /// Interprets an input event in the flat vocabulary.
    pub fn try_from(event: InputEvent) -> (r: Result<EditorCommand, UnsupportedInput>)
        ensures
            r == EditorCommand::spec_try_from(event),
    {
        match event {
            InputEvent::Key(key) => {
                if !key.is_press {
                    return Err(UnsupportedInput);
                }
                match key.code {
                    KeyCode::Char(ch) => {
                        if matches!(key.modifiers, Modifiers::Control) {
                            if ch == 'c' {
                                Ok(EditorCommand::Quit)
                            } else {
                                Err(UnsupportedInput)
                            }
                        } else if matches!(key.modifiers, Modifiers::Plain | Modifiers::Shift) {
                            Ok(EditorCommand::Insert(ch))
                        } else {
                            Err(UnsupportedInput)
                        }
                    },
                    KeyCode::PageUp => Ok(EditorCommand::Move(Direction::Pageup)),
                    KeyCode::PageDown => Ok(EditorCommand::Move(Direction::PageDown)),
                    KeyCode::Home => Ok(EditorCommand::Move(Direction::Home)),
                    KeyCode::End => Ok(EditorCommand::Move(Direction::End)),
                    KeyCode::Up => Ok(EditorCommand::Move(Direction::Up)),
                    KeyCode::Left => Ok(EditorCommand::Move(Direction::Left)),
                    KeyCode::Right => Ok(EditorCommand::Move(Direction::Right)),
                    KeyCode::Down => Ok(EditorCommand::Move(Direction::Down)),
                    KeyCode::Delete => Ok(EditorCommand::Delete),
                    KeyCode::Backspace => Ok(EditorCommand::Backspace),
                    KeyCode::Tab => Ok(EditorCommand::Tab),
                    _ => Err(UnsupportedInput),
                }
            },
            InputEvent::Resize(size) => Ok(EditorCommand::Resize(size)),
            InputEvent::Other => Err(UnsupportedInput),
        }
    }
}

} // verus!
