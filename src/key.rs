use vstd::prelude::*;

use crate::mode::Modes;

verus! {

/// A key press, as the engine reads it.
#[derive(Clone, Copy, Debug, PartialEq, Eq, Structural)]
pub enum Key {
    Char(char),
    Ctrl(char),
    Up,
    Down,
    Left,
    Right,
    Backspace,
    Delete,
    Enter,
    Esc,
    Other,
}

/// What a key press means in the mode in force.
#[derive(Clone, Copy, Debug, PartialEq, Eq, Structural)]
pub enum Command {
    Quit,
    Up,
    Down,
    /// Enter the directory under the cursor.
    Into,
    /// Go to the parent directory.
    Parent,
    /// Open the prompt to rename the entry under the cursor.
    Rename,
    /// Start selecting at the cursor.
    Select,
    /// Stop selecting.
    Unselect,
    /// Remove the file under the cursor.
    Delete,
    /// Remove the selected files.
    DeleteSelected,
    /// Edit the prompt's text or move its caret.
    Edit,
    /// Accept the prompt's text.
    Submit,
    /// Close the prompt, dropping its text.
    Cancel,
    Ignore,
}

/// The key bindings of each mode.
pub open spec fn command(m: Modes, key: Key) -> Command {
    match m {
        Modes::Explore => match key {
            Key::Ctrl(c) => if c == 'q' {
                Command::Quit
            } else {
                Command::Ignore
            },
            Key::Char(c) => if c == 'k' {
                Command::Up
            } else if c == 'j' {
                Command::Down
            } else if c == 'l' {
                Command::Into
            } else if c == 'h' {
                Command::Parent
            } else if c == 'r' {
                Command::Rename
            } else if c == 's' {
                Command::Select
            } else if c == 'x' {
                Command::Delete
            } else {
                Command::Ignore
            },
            Key::Up => Command::Up,
            Key::Down => Command::Down,
            Key::Right => Command::Into,
            Key::Left => Command::Parent,
            _ => Command::Ignore,
        },
        Modes::Select(_) => match key {
            Key::Char(c) => if c == 'k' {
                Command::Up
            } else if c == 'j' {
                Command::Down
            } else if c == 's' {
                Command::Unselect
            } else if c == 'x' {
                Command::DeleteSelected
            } else {
                Command::Ignore
            },
            Key::Up => Command::Up,
            Key::Down => Command::Down,
            _ => Command::Ignore,
        },
        Modes::Input(_) => match key {
            Key::Enter => Command::Submit,
            Key::Esc => Command::Cancel,
            Key::Char(_) | Key::Backspace | Key::Delete | Key::Left | Key::Right => Command::Edit,
            _ => Command::Ignore,
        },
        Modes::Quit => Command::Ignore,
    }
}

/// The meaning of `key` in mode `m`.
pub fn command_of(m: &Modes, key: Key) -> (r: Command)
    ensures
        r == command(*m, key),
{
    match m {
        Modes::Explore => match key {
            Key::Ctrl(c) => if c == 'q' {
                Command::Quit
            } else {
                Command::Ignore
            },
            Key::Char(c) => if c == 'k' {
                Command::Up
            } else if c == 'j' {
                Command::Down
            } else if c == 'l' {
                Command::Into
            } else if c == 'h' {
                Command::Parent
            } else if c == 'r' {
                Command::Rename
            } else if c == 's' {
                Command::Select
            } else if c == 'x' {
                Command::Delete
            } else {
                Command::Ignore
            },
            Key::Up => Command::Up,
            Key::Down => Command::Down,
            Key::Right => Command::Into,
            Key::Left => Command::Parent,
            _ => Command::Ignore,
        },
        Modes::Select(_) => match key {
            Key::Char(c) => if c == 'k' {
                Command::Up
            } else if c == 'j' {
                Command::Down
            } else if c == 's' {
                Command::Unselect
            } else if c == 'x' {
                Command::DeleteSelected
            } else {
                Command::Ignore
            },
            Key::Up => Command::Up,
            Key::Down => Command::Down,
            _ => Command::Ignore,
        },
        Modes::Input(_) => match key {
            Key::Enter => Command::Submit,
            Key::Esc => Command::Cancel,
            Key::Char(_) | Key::Backspace | Key::Delete | Key::Left | Key::Right => Command::Edit,
            _ => Command::Ignore,
        },
        Modes::Quit => Command::Ignore,
    }
}

} // verus!
