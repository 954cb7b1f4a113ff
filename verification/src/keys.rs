//! Key events, the intents that they stand for, and the bindings of the
//! one to the other in each mode.

use vstd::prelude::*;
use crate::app::Mode;

verus! {

/// What a key event holds of the key itself.
#[derive(PartialEq, Eq, Clone, Copy, Debug, Structural)]
pub enum KeyCode {
    Char(char),
    Enter,
    Esc,
    Backspace,
    Other,
}

/// A key event: the key, and whether control, and nothing else, was held.
#[derive(PartialEq, Eq, Clone, Copy, Debug, Structural)]
pub struct Key {
    pub code: KeyCode,
    pub ctrl: bool,
}

/// What the user means by an input event.
#[derive(PartialEq, Eq, Clone, Copy, Debug, Structural)]
pub enum Intent {
    ForceQuit,
    Quit,
    EnterCommand,
    EnterInsert,
    EnterAdjust,
    NextClip,
    PreviousClip,
    DeleteCurrentClip,
    YankCurrentClip,
    Paste,
    Undo,
    Redo,
    TogglePlayFrom,
    TogglePlayClip,
    Exit,
    Submit,
    Backspace,
    Character(char),
    NextWord,
    PreviousWord,
    Confirm,
    Unbound,
}

/// The intent that a key in normal mode is bound to.
pub open spec fn normal_binding(key: Key) -> Intent {
    match key.code {
        KeyCode::Char(c) => if c == ':' {
            Intent::EnterCommand
        } else if c == 'q' {
            Intent::Quit
        } else if c == 'j' {
            Intent::NextClip
        } else if c == 'k' {
            Intent::PreviousClip
        } else if c == 'p' {
            Intent::Paste
        } else if c == 'u' {
            Intent::Undo
        } else if c == 'r' && key.ctrl {
            Intent::Redo
        } else if c == 'i' {
            Intent::EnterInsert
        } else if c == 'm' {
            Intent::EnterAdjust
        } else if c == 'P' {
            Intent::TogglePlayFrom
        } else if c == ' ' {
            Intent::TogglePlayClip
        } else if c == 'd' {
            Intent::DeleteCurrentClip
        } else if c == 'y' {
            Intent::YankCurrentClip
        } else {
            Intent::Unbound
        },
        _ => Intent::Unbound,
    }
}

/// The intent that a key is bound to in a session that is ready or not,
/// in the mode `mode`. Control with `c` quits everywhere. While the
/// document loads only `q` is bound.
pub open spec fn binding(ready: bool, mode: Mode, key: Key) -> Intent {
    if key.code == KeyCode::Char('c') && key.ctrl {
        Intent::ForceQuit
    } else if !ready {
        if key.code == KeyCode::Char('q') {
            Intent::Quit
        } else {
            Intent::Unbound
        }
    } else {
        match mode {
            Mode::Normal => normal_binding(key),
            Mode::Insert => match key.code {
                KeyCode::Esc => Intent::Exit,
                KeyCode::Char(c) => Intent::Character(c),
                KeyCode::Backspace => Intent::Backspace,
                _ => Intent::Unbound,
            },
            Mode::Command => match key.code {
                KeyCode::Enter => Intent::Submit,
                KeyCode::Char(c) => Intent::Character(c),
                KeyCode::Backspace => Intent::Backspace,
                KeyCode::Esc => Intent::Exit,
                _ => Intent::Unbound,
            },
            Mode::Adjust => match key.code {
                KeyCode::Esc => Intent::Exit,
                KeyCode::Char(c) => if c == 'w' {
                    Intent::NextWord
                } else if c == 'b' {
                    Intent::PreviousWord
                } else {
                    Intent::Unbound
                },
                KeyCode::Enter => Intent::Confirm,
                _ => Intent::Unbound,
            },
            Mode::Visual => Intent::Unbound,
        }
    }
}

/// Looks up `normal_binding`.
fn bind_normal(key: Key) -> (intent: Intent)
    ensures
        intent == normal_binding(key),
{
    match key.code {
        KeyCode::Char(c) => {
            if c == ':' {
                Intent::EnterCommand
            } else if c == 'q' {
                Intent::Quit
            } else if c == 'j' {
                Intent::NextClip
            } else if c == 'k' {
                Intent::PreviousClip
            } else if c == 'p' {
                Intent::Paste
            } else if c == 'u' {
                Intent::Undo
            } else if c == 'r' && key.ctrl {
                Intent::Redo
            } else if c == 'i' {
                Intent::EnterInsert
            } else if c == 'm' {
                Intent::EnterAdjust
            } else if c == 'P' {
                Intent::TogglePlayFrom
            } else if c == ' ' {
                Intent::TogglePlayClip
            } else if c == 'd' {
                Intent::DeleteCurrentClip
            } else if c == 'y' {
                Intent::YankCurrentClip
            } else {
                Intent::Unbound
            }
        },
        _ => Intent::Unbound,
    }
}

/// Looks up `binding`.
pub fn bind(ready: bool, mode: Mode, key: Key) -> (intent: Intent)
    ensures
        intent == binding(ready, mode, key),
{
    let is_c = match key.code {
        KeyCode::Char(c) => c == 'c',
        _ => false,
    };
    let is_q = match key.code {
        KeyCode::Char(c) => c == 'q',
        _ => false,
    };
    if is_c && key.ctrl {
        Intent::ForceQuit
    } else if !ready {
        if is_q {
            Intent::Quit
        } else {
            Intent::Unbound
        }
    } else {
        match mode {
            Mode::Normal => bind_normal(key),
            Mode::Insert => match key.code {
                KeyCode::Esc => Intent::Exit,
                KeyCode::Char(c) => Intent::Character(c),
                KeyCode::Backspace => Intent::Backspace,
                _ => Intent::Unbound,
            },
            Mode::Command => match key.code {
                KeyCode::Enter => Intent::Submit,
                KeyCode::Char(c) => Intent::Character(c),
                KeyCode::Backspace => Intent::Backspace,
                KeyCode::Esc => Intent::Exit,
                _ => Intent::Unbound,
            },
            Mode::Adjust => match key.code {
                KeyCode::Esc => Intent::Exit,
                KeyCode::Char(c) => {
                    if c == 'w' {
                        Intent::NextWord
                    } else if c == 'b' {
                        Intent::PreviousWord
                    } else {
                        Intent::Unbound
                    }
                },
                KeyCode::Enter => Intent::Confirm,
                _ => Intent::Unbound,
            },
            Mode::Visual => Intent::Unbound,
        }
    }
}

} // verus!
