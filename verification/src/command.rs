//! The command interpreter: raw input events, modeled as plain values,
//! are mapped to a closed set of structured commands — movement, edit, or
//! system. Unrecognized input yields an explicit unsupported result.

use crate::size::Size;
use vstd::prelude::*;

verus! {

/// A key, as the terminal reports it. Keys this editor never binds are
/// collapsed into `Other`.
#[derive(Clone, Copy, Debug)]
pub enum KeyCode {
    Char(char),
    Enter,
    Tab,
    Backspace,
    Delete,
    Up,
    Down,
    Left,
    Right,
    PageUp,
    PageDown,
    Home,
    End,
    Esc,
    Other,
}

/// The modifier state of a key event: none, shift alone, control alone,
/// or any other combination.
#[derive(Clone, Copy, Debug)]
pub enum Modifiers {
    Plain,
    Shift,
    Control,
    Mixed,
}

/// One key event: the key, its modifiers, and whether it was a press
/// (repeats and releases are not presses).
#[derive(Clone, Copy, Debug)]
pub struct KeyPress {
    pub code: KeyCode,
    pub modifiers: Modifiers,
    pub is_press: bool,
}

/// A raw input event: a key event, a window resize, or anything else.
#[derive(Clone, Copy, Debug)]
pub enum InputEvent {
    Key(KeyPress),
    Resize(Size),
    Other,
}

/// The explicit result for input this editor does not bind.
#[derive(Clone, Copy, Debug, PartialEq, Eq, Structural)]
pub struct UnsupportedInput;

/// A cursor movement command.
#[derive(Clone, Copy, Debug)]
pub enum Move {
    Pageup,
    PageDown,
    StartofLine,
    EndofLine,
    Up,
    Left,
    Right,
    Down,
}

impl Move {
    /// Which unmodified keys move the cursor, and where.
    pub open spec fn spec_try_from(key: KeyPress) -> Result<Move, UnsupportedInput> {
        if key.modifiers is Plain {
            match key.code {
                KeyCode::PageUp => Ok(Move::Pageup),
                KeyCode::PageDown => Ok(Move::PageDown),
                KeyCode::Home => Ok(Move::StartofLine),
                KeyCode::End => Ok(Move::EndofLine),
                KeyCode::Up => Ok(Move::Up),
                KeyCode::Left => Ok(Move::Left),
                KeyCode::Right => Ok(Move::Right),
                KeyCode::Down => Ok(Move::Down),
                _ => Err(UnsupportedInput),
            }
        } else {
            Err(UnsupportedInput)
        }
    }

    /// Interprets a key event as a movement command.
    pub fn try_from(key: KeyPress) -> (r: Result<Move, UnsupportedInput>)
        ensures
            r == Move::spec_try_from(key),
    {
        match key.modifiers {
            Modifiers::Plain => match key.code {
                KeyCode::PageUp => Ok(Move::Pageup),
                KeyCode::PageDown => Ok(Move::PageDown),
                KeyCode::Home => Ok(Move::StartofLine),
                KeyCode::End => Ok(Move::EndofLine),
                KeyCode::Up => Ok(Move::Up),
                KeyCode::Left => Ok(Move::Left),
                KeyCode::Right => Ok(Move::Right),
                KeyCode::Down => Ok(Move::Down),
                _ => Err(UnsupportedInput),
            },
            _ => Err(UnsupportedInput),
        }
    }
}

/// A buffer edit command.
#[derive(Clone, Copy, Debug)]
pub enum Edit {
    Insert(char),
    InsertNewline,
    Delete,
    DeleteBackward,
}

impl Edit {
    /// Which keys edit the buffer: characters (with or without shift),
    /// tab, enter, delete, and backspace, all otherwise unmodified.
    pub open spec fn spec_try_from(key: KeyPress) -> Result<Edit, UnsupportedInput> {
        match key.code {
            KeyCode::Char(ch) => if key.modifiers is Plain || key.modifiers is Shift {
                Ok(Edit::Insert(ch))
            } else {
                Err(UnsupportedInput)
            },
            KeyCode::Tab => if key.modifiers is Plain {
                Ok(Edit::Insert('\t'))
            } else {
                Err(UnsupportedInput)
            },
            KeyCode::Enter => if key.modifiers is Plain {
                Ok(Edit::InsertNewline)
            } else {
                Err(UnsupportedInput)
            },
            KeyCode::Delete => if key.modifiers is Plain {
                Ok(Edit::Delete)
            } else {
                Err(UnsupportedInput)
            },
            KeyCode::Backspace => if key.modifiers is Plain {
                Ok(Edit::DeleteBackward)
            } else {
                Err(UnsupportedInput)
            },
            _ => Err(UnsupportedInput),
        }
    }

    /// Interprets a key event as an edit command.
    pub fn try_from(key: KeyPress) -> (r: Result<Edit, UnsupportedInput>)
        ensures
            r == Edit::spec_try_from(key),
    {
        match (key.code, key.modifiers) {
            (KeyCode::Char(ch), Modifiers::Plain) => Ok(Edit::Insert(ch)),
            (KeyCode::Char(ch), Modifiers::Shift) => Ok(Edit::Insert(ch)),
            (KeyCode::Tab, Modifiers::Plain) => Ok(Edit::Insert('\t')),
            (KeyCode::Enter, Modifiers::Plain) => Ok(Edit::InsertNewline),
            (KeyCode::Delete, Modifiers::Plain) => Ok(Edit::Delete),
            (KeyCode::Backspace, Modifiers::Plain) => Ok(Edit::DeleteBackward),
            _ => Err(UnsupportedInput),
        }
    }
}

/// A system command: resize, save, quit, or dismiss the active prompt.
#[derive(Clone, Copy, Debug)]
pub enum System {
    Resize(Size),
    Save,
    Quit,
    Dismiss,
}

impl System {
    /// The system bindings: control-q quits, control-s saves, and escape
    /// dismisses a prompt.
    pub open spec fn spec_try_from(key: KeyPress) -> Result<System, UnsupportedInput> {
        match key.code {
            KeyCode::Char(ch) => if ch == 'q' && key.modifiers is Control {
                Ok(System::Quit)
            } else if ch == 's' && key.modifiers is Control {
                Ok(System::Save)
            } else {
                Err(UnsupportedInput)
            },
            KeyCode::Esc => if key.modifiers is Plain {
                Ok(System::Dismiss)
            } else {
                Err(UnsupportedInput)
            },
            _ => Err(UnsupportedInput),
        }
    }

    /// Interprets a key event as a system command.
    pub fn try_from(key: KeyPress) -> (r: Result<System, UnsupportedInput>)
        ensures
            r == System::spec_try_from(key),
    {
        match (key.code, key.modifiers) {
            (KeyCode::Char(ch), Modifiers::Control) => {
                if ch == 'q' {
                    Ok(System::Quit)
                } else if ch == 's' {
                    Ok(System::Save)
                } else {
                    Err(UnsupportedInput)
                }
            },
            (KeyCode::Esc, Modifiers::Plain) => Ok(System::Dismiss),
            _ => Err(UnsupportedInput),
        }
    }
}

/// Any command the controller dispatches.
#[derive(Clone, Copy, Debug)]
pub enum Command {
    Move(Move),
    Edit(Edit),
    System(System),
}

impl Command {
    /// How an input event becomes a command: key events are tried as an
    /// edit, then a movement, then a system command; a resize is a system
    /// command carrying the new size; anything else is unsupported.
    pub open spec fn spec_try_from(event: InputEvent) -> Result<Command, UnsupportedInput> {
        match event {
            InputEvent::Key(key) => match Edit::spec_try_from(key) {
                Ok(e) => Ok(Command::Edit(e)),
                Err(_) => match Move::spec_try_from(key) {
                    Ok(m) => Ok(Command::Move(m)),
                    Err(_) => match System::spec_try_from(key) {
                        Ok(s) => Ok(Command::System(s)),
                        Err(e) => Err(e),
                    },
                },
            },
            InputEvent::Resize(size) => Ok(Command::System(System::Resize(size))),
            InputEvent::Other => Err(UnsupportedInput),
        }
    }

    /// Interprets an input event as a command.
    pub fn try_from(event: InputEvent) -> (r: Result<Command, UnsupportedInput>)
        ensures
            r == Command::spec_try_from(event),
    {
        match event {
            InputEvent::Key(key) => match Edit::try_from(key) {
                Ok(e) => Ok(Command::Edit(e)),
                Err(_) => match Move::try_from(key) {
                    Ok(m) => Ok(Command::Move(m)),
                    Err(_) => match System::try_from(key) {
                        Ok(s) => Ok(Command::System(s)),
                        Err(e) => Err(e),
                    },
                },
            },
            InputEvent::Resize(size) => Ok(Command::System(System::Resize(size))),
            InputEvent::Other => Err(UnsupportedInput),
        }
    }
}

} // verus!
