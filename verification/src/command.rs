//! Keys and the commands they stand for.

use crossterm::event::KeyModifiers;
use vstd::prelude::*;

verus! {

/// How many lines a page key scrolls.
pub const PAGE_SCROLL_LINES: usize = 5;

/// The key of a key event, as far as the front-end tells keys apart.
#[derive(Debug, Clone, Copy)]
pub enum KeyCode {
    /// A key that types this scalar.
    Char(char),
    Esc,
    Enter,
    Backspace,
    Left,
    Right,
    Up,
    Down,
    PageUp,
    PageDown,
    /// Any other key.
    Other,
}

/// Whether a key went down, is held, or came up.
#[derive(Debug, Clone, Copy)]
pub enum KeyKind {
    Press,
    Repeat,
    Release,
}

/// One key event from the terminal.
#[derive(Debug, Clone, Copy)]
pub struct KeyInput {
    /// The key.
    pub code: KeyCode,
    /// The modifier keys held with it, as the bits of the terminal layer's
    /// modifier set.
    pub modifiers: u8,
    /// What happened to the key.
    pub kind: KeyKind,
}

/// A cadence of the typing animation.
#[derive(Debug, Clone, Copy)]
pub enum TypingSpeed {
    Fast,
    Normal,
    Slow,
}

/// What the operator can ask of the front-end.
#[derive(Debug, Clone, Copy)]
pub enum Command {
    /// Leave the front-end.
    Quit,
    /// Submit the input line.
    Submit,
    /// Type this scalar at the cursor.
    InsertChar(char),
    /// Remove the scalar before the cursor.
    Backspace,
    /// Move the cursor one place left.
    MoveLeft,
    /// Move the cursor one place right.
    MoveRight,
    /// Scroll this many lines towards the top.
    ScrollUp(usize),
    /// Scroll this many lines towards the end.
    ScrollDown(usize),
    /// Change the cadence of the typing animation.
    SetSpeed(TypingSpeed),
    /// Show at once all that waits to be typed.
    SkipTyping,
}

/// What the coordinator has to do after a command.
#[derive(Debug, Clone)]
pub enum Action {
    /// Nothing: go on with the loop.
    Continue,
    /// Deliver this text to the process, and report a failure to do so.
    Send(String),
    /// Stop the process and leave the loop.
    Quit,
}

/// Whether the control bit is set in the modifier bits `bits`.
pub open spec fn has_control(bits: u8) -> bool {
    bits & 0b0000_0010 == 0b0000_0010
}

/// Asks crossterm's `KeyModifiers::contains` whether the modifier set with
/// the bits `bits` (made by `KeyModifiers::from_bits_retain`, which keeps
/// every bit) holds `KeyModifiers::CONTROL`. Taken on trust, from the
/// crate's source: `CONTROL` is the second lowest bit, and a set contains a
/// flag when all bits of the flag are set in it.
#[verifier::external_body]
fn control_held(bits: u8) -> (held: bool)
    ensures
        held == has_control(bits),
{
    KeyModifiers::from_bits_retain(bits).contains(KeyModifiers::CONTROL)
}

/// The command that a key with control held stands for.
pub open spec fn control_command(code: KeyCode) -> Option<Command> {
    match code {
        KeyCode::Char(c) => if c == 'q' || c == 'c' {
            Some(Command::Quit)
        } else if c == ' ' {
            Some(Command::SkipTyping)
        } else if c == '1' {
            Some(Command::SetSpeed(TypingSpeed::Fast))
        } else if c == '2' {
            Some(Command::SetSpeed(TypingSpeed::Normal))
        } else if c == '3' {
            Some(Command::SetSpeed(TypingSpeed::Slow))
        } else {
            Some(Command::InsertChar(c))
        },
        _ => plain_command(code),
    }
}

/// The command that a key without control stands for.
pub open spec fn plain_command(code: KeyCode) -> Option<Command> {
    match code {
        KeyCode::Char(c) => if c == 'q' {
            Some(Command::Quit)
        } else {
            Some(Command::InsertChar(c))
        },
        KeyCode::Esc => Some(Command::Quit),
        KeyCode::Enter => Some(Command::Submit),
        KeyCode::Backspace => Some(Command::Backspace),
        KeyCode::Left => Some(Command::MoveLeft),
        KeyCode::Right => Some(Command::MoveRight),
        KeyCode::Up => Some(Command::ScrollUp(1)),
        KeyCode::Down => Some(Command::ScrollDown(1)),
        KeyCode::PageUp => Some(Command::ScrollUp(PAGE_SCROLL_LINES)),
        KeyCode::PageDown => Some(Command::ScrollDown(PAGE_SCROLL_LINES)),
        KeyCode::Other => None,
    }
}

/// The command that a key event stands for. Only a key that goes down
/// commands anything.
pub open spec fn command_of(key: KeyInput) -> Option<Command> {
    match key.kind {
        KeyKind::Press => if has_control(key.modifiers) {
            control_command(key.code)
        } else {
            plain_command(key.code)
        },
        _ => None,
    }
}

/// The command that the key event `key` stands for, if any.
pub fn command_for_key(key: &KeyInput) -> (command: Option<Command>)
    ensures
        command == command_of(*key),
{
    match key.kind {
        KeyKind::Press => {},
        _ => {
            return None;
        },
    }
    let control: bool = control_held(key.modifiers);
    match key.code {
        KeyCode::Char(c) => {
            if c == 'q' {
                Some(Command::Quit)
            } else if control && c == 'c' {
                Some(Command::Quit)
            } else if control && c == ' ' {
                Some(Command::SkipTyping)
            } else if control && c == '1' {
                Some(Command::SetSpeed(TypingSpeed::Fast))
            } else if control && c == '2' {
                Some(Command::SetSpeed(TypingSpeed::Normal))
            } else if control && c == '3' {
                Some(Command::SetSpeed(TypingSpeed::Slow))
            } else {
                Some(Command::InsertChar(c))
            }
        },
        KeyCode::Esc => Some(Command::Quit),
        KeyCode::Enter => Some(Command::Submit),
        KeyCode::Backspace => Some(Command::Backspace),
        KeyCode::Left => Some(Command::MoveLeft),
        KeyCode::Right => Some(Command::MoveRight),
        KeyCode::Up => Some(Command::ScrollUp(1)),
        KeyCode::Down => Some(Command::ScrollDown(1)),
        KeyCode::PageUp => Some(Command::ScrollUp(PAGE_SCROLL_LINES)),
        KeyCode::PageDown => Some(Command::ScrollDown(PAGE_SCROLL_LINES)),
        KeyCode::Other => None,
    }
}

} // verus!
