//! Abstract navigation commands and the total mapping from key input
//! onto them.

use vstd::prelude::*;

verus! {

/// The axis a movement command acts on.
#[derive(Clone, Copy, Debug, PartialEq, Eq, Structural)]
pub enum ScrollType {
    /// Cycle through the tabs.
    Tab,
    /// Move the row (or metadata column) selection.
    Vertical,
    /// Move the column (or chunk) selection.
    Horizontal,
}

/// An abstract navigation command.
#[derive(Clone, Copy, Debug, PartialEq, Eq, Structural)]
pub enum Command {
    /// End the session.
    Exit,
    /// An input that is not bound to anything.
    Nothing,
    /// Move forward along an axis.
    Next(ScrollType),
    /// Move backward along an axis.
    Previous(ScrollType),
}

/// A key press, reduced to what the command mapping reads: the small
/// set of recognized keys, any other character, or anything else.
#[derive(Clone, Copy, Debug, PartialEq, Eq, Structural)]
pub enum KeyInput {
    /// The escape key.
    Esc,
    /// A plain character key.
    Char(char),
    /// The tab key.
    Tab,
    /// Shift-tab.
    BackTab,
    /// The up arrow.
    Up,
    /// The down arrow.
    Down,
    /// The left arrow.
    Left,
    /// The right arrow.
    Right,
    /// Any key the mapping does not recognize.
    Other,
}

/// The command each key press maps onto. Total: every unrecognized
/// input maps onto `Nothing`.
pub open spec fn command_of(key: KeyInput) -> Command {
    match key {
        KeyInput::Esc | KeyInput::Char('q') => Command::Exit,
        KeyInput::BackTab => Command::Previous(ScrollType::Tab),
        KeyInput::Tab => Command::Next(ScrollType::Tab),
        KeyInput::Char('j') | KeyInput::Down => Command::Next(ScrollType::Vertical),
        KeyInput::Char('k') | KeyInput::Up => Command::Previous(ScrollType::Vertical),
        KeyInput::Char('l') | KeyInput::Right => Command::Next(ScrollType::Horizontal),
        KeyInput::Char('h') | KeyInput::Left => Command::Previous(ScrollType::Horizontal),
        _ => Command::Nothing,
    }
}

impl From<KeyInput> for Command {
    /// Maps a key press onto its command; pure and stateless.
    fn from(key: KeyInput) -> (r: Command)
        ensures
            r == command_of(key),
    {
        match key {
            KeyInput::Esc | KeyInput::Char('q') => Command::Exit,
            KeyInput::BackTab => Command::Previous(ScrollType::Tab),
            KeyInput::Tab => Command::Next(ScrollType::Tab),
            KeyInput::Char('j') | KeyInput::Down => Command::Next(ScrollType::Vertical),
            KeyInput::Char('k') | KeyInput::Up => Command::Previous(ScrollType::Vertical),
            KeyInput::Char('l') | KeyInput::Right => Command::Next(ScrollType::Horizontal),
            KeyInput::Char('h') | KeyInput::Left => Command::Previous(ScrollType::Horizontal),
            _ => Command::Nothing,
        }
    }
}

impl vstd::std_specs::convert::FromSpecImpl<KeyInput> for Command {
    open spec fn obeys_from_spec() -> bool {
        true
    }

    open spec fn from_spec(key: KeyInput) -> Command {
        command_of(key)
    }
}

} // verus!
