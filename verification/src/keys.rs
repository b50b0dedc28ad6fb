//! What a key means: the command it gives, while searching and otherwise.

use vstd::prelude::*;

verus! {

/// A key of the keyboard, as far as the browser tells keys apart.
#[derive(Debug, Clone, Copy, PartialEq, Eq, Structural)]
pub enum Key {
    Char(char),
    Esc,
    Enter,
    Backspace,
    Tab,
    Up,
    Down,
    PageUp,
    PageDown,
    Home,
    End,
    Other,
}

/// What the user asks for with a key.
#[derive(Debug, Clone, Copy, PartialEq, Eq, Structural)]
pub enum Command {
    Nothing,
    Quit,
    Previous,
    Next,
    PreviousPage,
    NextPage,
    First,
    Last,
    Apply,
    Install,
    Delete,
    Refresh,
    ToggleFavorite,
    EnterSearch,
    CycleFilter,
    CycleSort,
    TogglePreview,
    ExitSearch,
    SubmitSearch,
    SearchBackspace,
    SearchInput(char),
}

/// The command that a key gives while the user types a search.
pub open spec fn search_command(key: Key) -> Command {
    match key {
        Key::Esc => Command::ExitSearch,
        Key::Enter => Command::SubmitSearch,
        Key::Backspace => Command::SearchBackspace,
        Key::Char(c) => Command::SearchInput(c),
        _ => Command::Nothing,
    }
}

/// The command that a key gives while the user browses. `ctrl_only` says
/// that the control key, and no other modifier, is held down.
pub open spec fn browse_command(ctrl_only: bool, key: Key) -> Command {
    match key {
        Key::Esc => Command::Quit,
        Key::Up => Command::Previous,
        Key::Down => Command::Next,
        Key::PageUp => Command::PreviousPage,
        Key::PageDown => Command::NextPage,
        Key::Home => Command::First,
        Key::End => Command::Last,
        Key::Enter => Command::Apply,
        Key::Tab => Command::CycleFilter,
        Key::Char(c) => if c == 'q' {
            Command::Quit
        } else if c == 'c' && ctrl_only {
            Command::Quit
        } else if c == 'k' {
            Command::Previous
        } else if c == 'j' {
            Command::Next
        } else if c == 'u' && ctrl_only {
            Command::PreviousPage
        } else if c == 'd' && ctrl_only {
            Command::NextPage
        } else if c == 'g' {
            Command::First
        } else if c == 'G' {
            Command::Last
        } else if c == 'i' {
            Command::Install
        } else if c == 'x' {
            Command::Delete
        } else if c == 'r' {
            Command::Refresh
        } else if c == 'f' {
            Command::ToggleFavorite
        } else if c == '/' {
            Command::EnterSearch
        } else if c == 's' {
            Command::CycleSort
        } else if c == 'p' {
            Command::TogglePreview
        } else {
            Command::Nothing
        },
        _ => Command::Nothing,
    }
}

/// The command that a key event gives. Only a key that is pressed gives one;
/// while a search is typed every key belongs to the search.
pub open spec fn command_of(searching: bool, pressed: bool, ctrl_only: bool, key: Key) -> Command {
    if !pressed {
        Command::Nothing
    } else if searching {
        search_command(key)
    } else {
        browse_command(ctrl_only, key)
    }
}

/// The command that a key event gives.
pub fn command_for(searching: bool, pressed: bool, ctrl_only: bool, key: Key) -> (r: Command)
    ensures
        r == command_of(searching, pressed, ctrl_only, key),
{
    if !pressed {
        return Command::Nothing;
    }
    if searching {
        return match key {
            Key::Esc => Command::ExitSearch,
            Key::Enter => Command::SubmitSearch,
            Key::Backspace => Command::SearchBackspace,
            Key::Char(c) => Command::SearchInput(c),
            _ => Command::Nothing,
        };
    }
    match key {
        Key::Esc => Command::Quit,
        Key::Up => Command::Previous,
        Key::Down => Command::Next,
        Key::PageUp => Command::PreviousPage,
        Key::PageDown => Command::NextPage,
        Key::Home => Command::First,
        Key::End => Command::Last,
        Key::Enter => Command::Apply,
        Key::Tab => Command::CycleFilter,
        Key::Char(c) => match c {
            'q' => Command::Quit,
            'c' => if ctrl_only {
                Command::Quit
            } else {
                Command::Nothing
            },
            'k' => Command::Previous,
            'j' => Command::Next,
            'u' => if ctrl_only {
                Command::PreviousPage
            } else {
                Command::Nothing
            },
            'd' => if ctrl_only {
                Command::NextPage
            } else {
                Command::Nothing
            },
            'g' => Command::First,
            'G' => Command::Last,
            'i' => Command::Install,
            'x' => Command::Delete,
            'r' => Command::Refresh,
            'f' => Command::ToggleFavorite,
            '/' => Command::EnterSearch,
            's' => Command::CycleSort,
            'p' => Command::TogglePreview,
            _ => Command::Nothing,
        },
        _ => Command::Nothing,
    }
}

} // verus!
