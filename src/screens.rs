use vstd::prelude::*;

verus! {

/// The screens of the terminal interface.
#[derive(Debug, Clone, Copy, PartialEq, Eq, Structural)]
pub enum ScreenId {
    Dashboard,
    Login,
    CreateUser,
}

/// What a screen asks of the application after handling an action.
#[derive(Debug, Clone, Copy, PartialEq, Eq, Structural)]
pub enum ScreenResult {
    /// Stay on the current screen.
    Stay,
    Quit,
    Go(ScreenId),
}

/// What the user asked for, in the terms the screens understand.
#[derive(Debug, Clone, Copy, PartialEq, Eq, Structural)]
pub enum Action {
    /// Nothing to do.
    Noop,
    Quit,
    Cancel,
    Go(ScreenId),
    FocusNext,
    FocusPrev,
    Activate,
    InputChar(char),
    Backspace,
    NavUp,
    NavDown,
    NavLeft,
    NavRight,
}

/// The key of a key press, as plain values.
#[derive(Debug, Clone, Copy, PartialEq, Eq, Structural)]
pub enum Key {
    Char(char),
    Tab,
    BackTab,
    Up,
    Down,
    Left,
    Right,
    Backspace,
    Enter,
    Esc,
    Other,
}

/// A key event: the key, whether Control was held, whether any modifier was
/// held, and whether it is a press (rather than a repeat or a release).
#[derive(Debug, Clone, Copy, PartialEq, Eq, Structural)]
pub struct KeyInput {
    pub key: Key,
    pub control: bool,
    pub any_modifier: bool,
    pub press: bool,
}

/// The action that a key event stands for.
pub open spec fn action_of(k: KeyInput) -> Action {
    if !k.press {
        Action::Noop
    } else {
        match k.key {
            Key::Char(c) => if k.control && (c == 'q' || c == 'c') {
                Action::Quit
            } else if !k.any_modifier {
                Action::InputChar(c)
            } else {
                Action::Noop
            },
            Key::Tab => Action::FocusNext,
            Key::BackTab => Action::FocusPrev,
            Key::Up => Action::NavUp,
            Key::Down => Action::NavDown,
            Key::Left => Action::NavLeft,
            Key::Right => Action::NavRight,
            Key::Backspace => Action::Backspace,
            Key::Enter => Action::Activate,
            Key::Esc => Action::Cancel,
            Key::Other => Action::Noop,
        }
    }
}

/// Maps a key event to an action: Control-Q and Control-C quit, Tab and
/// Back-Tab move the focus, arrows navigate, Enter activates, Escape
/// cancels, and an unmodified character is typed.
pub fn handle_event(k: KeyInput) -> (r: Action)
    ensures
        r == action_of(k),
{
    if !k.press {
        return Action::Noop;
    }
    match k.key {
        Key::Char(c) => {
            if k.control && (c == 'q' || c == 'c') {
                Action::Quit
            } else if !k.any_modifier {
                Action::InputChar(c)
            } else {
                Action::Noop
            }
        },
        Key::Tab => Action::FocusNext,
        Key::BackTab => Action::FocusPrev,
        Key::Up => Action::NavUp,
        Key::Down => Action::NavDown,
        Key::Left => Action::NavLeft,
        Key::Right => Action::NavRight,
        Key::Backspace => Action::Backspace,
        Key::Enter => Action::Activate,
        Key::Esc => Action::Cancel,
        Key::Other => Action::Noop,
    }
}

} // verus!
