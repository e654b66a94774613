use vstd::prelude::*;

use crate::screens::{Action, ScreenId, ScreenResult};
use crate::text::{pop_char, push_char};

verus! {

/// The focusable parts of the registration form, in tab order.
#[derive(Debug, Clone, Copy, PartialEq, Eq, Structural)]
pub enum CreateUserFocus {
    Login,
    Password,
    RepeatPassword,
    CreateButton,
    BackButton,
}

/// The part after `f` in tab order, wrapping around.
pub open spec fn next_create_focus(f: CreateUserFocus) -> CreateUserFocus {
    match f {
        CreateUserFocus::Login => CreateUserFocus::Password,
        CreateUserFocus::Password => CreateUserFocus::RepeatPassword,
        CreateUserFocus::RepeatPassword => CreateUserFocus::CreateButton,
        CreateUserFocus::CreateButton => CreateUserFocus::BackButton,
        CreateUserFocus::BackButton => CreateUserFocus::Login,
    }
}

/// The part before `f` in tab order, wrapping around.
pub open spec fn prev_create_focus(f: CreateUserFocus) -> CreateUserFocus {
    match f {
        CreateUserFocus::Login => CreateUserFocus::BackButton,
        CreateUserFocus::Password => CreateUserFocus::Login,
        CreateUserFocus::RepeatPassword => CreateUserFocus::Password,
        CreateUserFocus::CreateButton => CreateUserFocus::RepeatPassword,
        CreateUserFocus::BackButton => CreateUserFocus::CreateButton,
    }
}

/// The state of the registration form as plain values.
pub struct CreateUserView {
    pub focus: CreateUserFocus,
    pub login: Seq<char>,
    pub password: Seq<char>,
    pub repeat: Seq<char>,
}

/// The registration form: a login, a password typed twice, and two buttons.
pub struct CreateUserScreen {
    focus: CreateUserFocus,
    login_input: String,
    password_input: String,
    repeat_input: String,
}

impl View for CreateUserScreen {
    type V = CreateUserView;

    closed spec fn view(&self) -> CreateUserView {
        CreateUserView {
            focus: self.focus,
            login: self.login_input@,
            password: self.password_input@,
            repeat: self.repeat_input@,
        }
    }
}

/// The form after typing `c`: it goes to the focused text field, if any.
pub open spec fn typed(v: CreateUserView, c: char) -> CreateUserView {
    match v.focus {
        CreateUserFocus::Login => CreateUserView { login: v.login.push(c), ..v },
        CreateUserFocus::Password => CreateUserView { password: v.password.push(c), ..v },
        CreateUserFocus::RepeatPassword => CreateUserView { repeat: v.repeat.push(c), ..v },
        _ => v,
    }
}

/// A text without its last character; empty stays empty.
pub open spec fn erased(s: Seq<char>) -> Seq<char> {
    if s.len() == 0 { s } else { s.drop_last() }
}

/// The form after Backspace: the focused text field loses its last character.
pub open spec fn backspaced(v: CreateUserView) -> CreateUserView {
    match v.focus {
        CreateUserFocus::Login => CreateUserView { login: erased(v.login), ..v },
        CreateUserFocus::Password => CreateUserView { password: erased(v.password), ..v },
        CreateUserFocus::RepeatPassword => CreateUserView { repeat: erased(v.repeat), ..v },
        _ => v,
    }
}

/// What activating the focused part asks for: either button goes back to the login screen.
pub open spec fn create_activation(f: CreateUserFocus) -> ScreenResult {
    match f {
        CreateUserFocus::CreateButton => ScreenResult::Go(ScreenId::Login),
        CreateUserFocus::BackButton => ScreenResult::Go(ScreenId::Login),
        _ => ScreenResult::Stay,
    }
}

impl CreateUserScreen {
    /// An empty form with the login field focused.
    pub fn new() -> (r: CreateUserScreen)
        ensures
            r@.focus == CreateUserFocus::Login,
            r@.login.len() == 0,
            r@.password.len() == 0,
            r@.repeat.len() == 0,
    {
        CreateUserScreen {
            focus: CreateUserFocus::Login,
            login_input: String::new(),
            password_input: String::new(),
            repeat_input: String::new(),
        }
    }

    /// The focused part.
    pub fn focus(&self) -> (r: CreateUserFocus)
        ensures
            r == self@.focus,
    {
        self.focus
    }

    /// The login typed so far.
    pub fn login_input(&self) -> (r: &str)
        ensures
            r@ == self@.login,
    {
        self.login_input.as_str()
    }

    /// The number of characters of the password typed so far.
    pub fn password_len(&self) -> (r: usize)
        ensures
            r == self@.password.len(),
    {
        self.password_input.as_str().unicode_len()
    }

    /// The number of characters of the repeated password typed so far.
    pub fn repeat_len(&self) -> (r: usize)
        ensures
            r == self@.repeat.len(),
    {
        self.repeat_input.as_str().unicode_len()
    }

    /// Moves the focus to the next part, wrapping around.
    pub fn focus_next(&mut self)
        ensures
            final(self)@ == (CreateUserView { focus: next_create_focus(old(self)@.focus), ..old(self)@ }),
    {
        self.focus = match self.focus {
            CreateUserFocus::Login => CreateUserFocus::Password,
            CreateUserFocus::Password => CreateUserFocus::RepeatPassword,
            CreateUserFocus::RepeatPassword => CreateUserFocus::CreateButton,
            CreateUserFocus::CreateButton => CreateUserFocus::BackButton,
            CreateUserFocus::BackButton => CreateUserFocus::Login,
        };
    }

    /// Moves the focus to the previous part, wrapping around.
    pub fn focus_prev(&mut self)
        ensures
            final(self)@ == (CreateUserView { focus: prev_create_focus(old(self)@.focus), ..old(self)@ }),
    {
        self.focus = match self.focus {
            CreateUserFocus::Login => CreateUserFocus::BackButton,
            CreateUserFocus::Password => CreateUserFocus::Login,
            CreateUserFocus::RepeatPassword => CreateUserFocus::Password,
            CreateUserFocus::CreateButton => CreateUserFocus::RepeatPassword,
            CreateUserFocus::BackButton => CreateUserFocus::CreateButton,
        };
    }

    /// Activates the focused part.
    pub fn activate(&self) -> (r: ScreenResult)
        ensures
            r == create_activation(self@.focus),
    {
        match self.focus {
            CreateUserFocus::CreateButton => ScreenResult::Go(ScreenId::Login),
            CreateUserFocus::BackButton => ScreenResult::Go(ScreenId::Login),
            _ => ScreenResult::Stay,
        }
    }

    /// Types `ch` into the focused text field.
    pub fn input_char(&mut self, ch: char)
        ensures
            final(self)@ == typed(old(self)@, ch),
    {
        match self.focus {
            CreateUserFocus::Login => push_char(&mut self.login_input, ch),
            CreateUserFocus::Password => push_char(&mut self.password_input, ch),
            CreateUserFocus::RepeatPassword => push_char(&mut self.repeat_input, ch),
            _ => {},
        }
    }

    /// Erases the last character of the focused text field.
    pub fn backspace(&mut self)
        ensures
            final(self)@ == backspaced(old(self)@),
    {
        match self.focus {
            CreateUserFocus::Login => {
                pop_char(&mut self.login_input);
            },
            CreateUserFocus::Password => {
                pop_char(&mut self.password_input);
            },
            CreateUserFocus::RepeatPassword => {
                pop_char(&mut self.repeat_input);
            },
            _ => {},
        }
    }

    /// Moving up moves the focus back.
    pub fn nav_up(&mut self)
        ensures
            final(self)@ == (CreateUserView { focus: prev_create_focus(old(self)@.focus), ..old(self)@ }),
    {
        self.focus_prev();
    }

    /// Moving down moves the focus on.
    pub fn nav_down(&mut self)
        ensures
            final(self)@ == (CreateUserView { focus: next_create_focus(old(self)@.focus), ..old(self)@ }),
    {
        self.focus_next();
    }

    /// Handles one action: Quit quits; Tab, Right and Down move on; Back-Tab,
    /// Left and Up move back; Enter activates; characters and Backspace edit.
    pub fn handle_action(&mut self, action: Action) -> (r: ScreenResult)
        ensures
            match action {
                Action::Quit => r == ScreenResult::Quit && final(self)@ == old(self)@,
                Action::FocusNext | Action::NavRight | Action::NavDown => r == ScreenResult::Stay
                    && final(self)@ == (CreateUserView { focus: next_create_focus(old(self)@.focus), ..old(self)@ }),
                Action::FocusPrev | Action::NavLeft | Action::NavUp => r == ScreenResult::Stay
                    && final(self)@ == (CreateUserView { focus: prev_create_focus(old(self)@.focus), ..old(self)@ }),
                Action::Activate => r == create_activation(old(self)@.focus) && final(self)@ == old(self)@,
                Action::InputChar(c) => r == ScreenResult::Stay && final(self)@ == typed(old(self)@, c),
                Action::Backspace => r == ScreenResult::Stay && final(self)@ == backspaced(old(self)@),
                _ => r == ScreenResult::Stay && final(self)@ == old(self)@,
            },
    {
        match action {
            Action::Quit => ScreenResult::Quit,
            Action::FocusNext | Action::NavRight | Action::NavDown => {
                self.nav_down();
                ScreenResult::Stay
            },
            Action::FocusPrev | Action::NavLeft | Action::NavUp => {
                self.nav_up();
                ScreenResult::Stay
            },
            Action::Activate => self.activate(),
            Action::InputChar(ch) => {
                self.input_char(ch);
                ScreenResult::Stay
            },
            Action::Backspace => {
                self.backspace();
                ScreenResult::Stay
            },
            _ => ScreenResult::Stay,
        }
    }
}

} // verus!
