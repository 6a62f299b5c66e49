//! What reaches the shell from outside and what the shell asks of the
//! outside: decoded keys, the outcome of an interpreter step, and the
//! requests to the file store and the interpreter that a key can raise.

use vstd::prelude::*;
use crate::browser::{Direction, Name};
use crate::editor::CAPTURE_BYTES;

verus! {

/// A key that is no character.
#[derive(Clone, Copy, PartialEq, Eq, Debug)]
pub enum RawKey {
    F1,
    F2,
    F3,
    F4,
    F5,
    F6,
    ArrowLeft,
    ArrowRight,
    ArrowUp,
    ArrowDown,
    /// Any other key; the shell ignores it.
    Other,
}

/// A decoded keyboard event.
#[derive(Clone, Copy, PartialEq, Eq, Debug)]
pub enum Key {
    /// A function key or an arrow.
    Raw(RawKey),
    /// A character; enter is the line feed, backspace the control character 8.
    Unicode(char),
}

/// How one step of an interpreter ended.
#[derive(Clone, Copy, PartialEq, Eq, Debug)]
pub enum TickOutcome {
    /// The program goes on.
    Continue,
    /// The program has ended.
    Finished,
    /// The program waits for input.
    NeedsInput,
    /// The interpreter reported a fault.
    Error,
}

/// What the caller has to do after a key, as contracts speak of it.
#[verifier::ext_equal]
pub enum Request {
    /// Nothing.
    Nothing,
    /// Create an empty program under `name`.
    CreateFile { name: Seq<u8> },
    /// Store `contents` as the program `name`, and drop the interpreter of `window`.
    SaveFile { window: int, name: Seq<u8>, contents: Seq<u8> },
    /// Read the program `name` and hand its bytes to the shell for editing.
    LoadSource { window: int, name: Seq<u8> },
    /// Read the program `name` and attach a new interpreter for it to `window`.
    StartProgram { window: int, name: Seq<u8> },
    /// Drop the interpreter of `window`.
    DropProgram { window: int },
}

/// What the caller has to do after a key.
#[derive(Clone, Copy, Debug)]
pub enum Action {
    /// Nothing.
    Nothing,
    /// Create an empty program under `name`.
    CreateFile { name: Name },
    /// Store `contents` as the program `name`, and drop the interpreter of `window`.
    SaveFile { window: usize, name: Name, contents: [u8; CAPTURE_BYTES] },
    /// Read the program `name` and hand its bytes to the shell for editing.
    LoadSource { window: usize, name: Name },
    /// Read the program `name` and attach a new interpreter for it to `window`.
    StartProgram { window: usize, name: Name },
    /// Drop the interpreter of `window`.
    DropProgram { window: usize },
}

impl View for Action {
    type V = Request;

    open spec fn view(&self) -> Request {
        match *self {
            Action::Nothing => Request::Nothing,
            Action::CreateFile { name } => Request::CreateFile { name: name@ },
            Action::SaveFile { window, name, contents } => Request::SaveFile {
                window: window as int,
                name: name@,
                contents: contents@,
            },
            Action::LoadSource { window, name } => Request::LoadSource {
                window: window as int,
                name: name@,
            },
            Action::StartProgram { window, name } => Request::StartProgram {
                window: window as int,
                name: name@,
            },
            Action::DropProgram { window } => Request::DropProgram { window: window as int },
        }
    }
}

/// The window that a function key selects: 1 to 4 for F1 to F4, the
/// name-entry pseudo-window for F5, 0 for any other key.
pub open spec fn selected_window(code: RawKey) -> int {
    match code {
        RawKey::F1 => 1,
        RawKey::F2 => 2,
        RawKey::F3 => 3,
        RawKey::F4 => 4,
        RawKey::F5 => 5,
        _ => 0,
    }
}

/// The cursor step that an arrow key asks for.
pub open spec fn arrow_direction(code: RawKey) -> Option<Direction> {
    match code {
        RawKey::ArrowLeft => Some(Direction::Left),
        RawKey::ArrowRight => Some(Direction::Right),
        RawKey::ArrowUp => Some(Direction::Up),
        RawKey::ArrowDown => Some(Direction::Down),
        _ => None,
    }
}

} // verus!
