use vstd::prelude::*;

use crate::error::{error_text, DomainError};
use crate::models::User;
use crate::repository::UserRepository;
use crate::screens::{Action, ScreenId, ScreenResult};
use crate::text::{blank, is_blank, pop_char, push_char, text_views};

verus! {

/// The focusable parts of the login form, in tab order.
#[derive(Debug, Clone, Copy, PartialEq, Eq, Structural)]
pub enum LoginFocus {
    User,
    Password,
    LoginButton,
    CreateUserButton,
}

/// The part after `f` in tab order, wrapping around.
pub open spec fn next_login_focus(f: LoginFocus) -> LoginFocus {
    match f {
        LoginFocus::User => LoginFocus::Password,
        LoginFocus::Password => LoginFocus::LoginButton,
        LoginFocus::LoginButton => LoginFocus::CreateUserButton,
        LoginFocus::CreateUserButton => LoginFocus::User,
    }
}

/// The part before `f` in tab order, wrapping around.
pub open spec fn prev_login_focus(f: LoginFocus) -> LoginFocus {
    match f {
        LoginFocus::User => LoginFocus::CreateUserButton,
        LoginFocus::Password => LoginFocus::User,
        LoginFocus::LoginButton => LoginFocus::Password,
        LoginFocus::CreateUserButton => LoginFocus::LoginButton,
    }
}

/// The most user names the drop-down shows.
pub const DROPDOWN_ROWS: usize = 4;

/// The state of the login form as plain values.
pub struct LoginView {
    pub focus: LoginFocus,
    pub options: Seq<Seq<char>>,
    pub selected: usize,
    pub dropdown_open: bool,
    pub username: Seq<char>,
    pub password: Seq<char>,
    pub message: Option<Seq<char>>,
}

/// The login form: a user name (typed, or picked from a drop-down of the
/// registered names), a password, and buttons to log in or to register.
pub struct LoginScreen {
    focus: LoginFocus,
    user_options: Vec<String>,
    user_selected: usize,
    user_dropdown_open: bool,
    username_input: String,
    password_input: String,
    error_message: Option<String>,
}

impl View for LoginScreen {
    type V = LoginView;

    closed spec fn view(&self) -> LoginView {
        LoginView {
            focus: self.focus,
            options: text_views(self.user_options@),
            selected: self.user_selected,
            dropdown_open: self.user_dropdown_open,
            username: self.username_input@,
            password: self.password_input@,
            message: match self.error_message {
                Some(m) => Some(m@),
                None => None,
            },
        }
    }
}

/// The form after a login attempt that was turned away with `message`.
pub open spec fn with_message(v: LoginView, message: Seq<char>) -> LoginView {
    LoginView { message: Some(message), ..v }
}

/// What the repository's answer to a login attempt does: a matching user
/// goes to the dashboard and leaves the form as it is; no match or an error
/// stays with a message.
pub open spec fn login_effect(v: LoginView, answer: Result<Option<User>, DomainError>) -> (
    ScreenResult,
    LoginView,
) {
    match answer {
        Ok(Some(_)) => (ScreenResult::Go(ScreenId::Dashboard), v),
        Ok(None) => (ScreenResult::Stay, with_message(v, "Invalid credentials"@)),
        Err(e) => (ScreenResult::Stay, with_message(v, "Error: "@ + error_text(e))),
    }
}

/// What the repository's answer to a registration does to the form.
pub open spec fn creation_effect(v: LoginView, answer: Result<User, DomainError>) -> LoginView {
    match answer {
        Ok(_) => LoginView { password: Seq::empty(), ..with_message(v, "User created! Log in now."@) },
        Err(e) => with_message(v, "Error: "@ + error_text(e)),
    }
}

impl LoginScreen {
    /// An empty form with the user field focused and the drop-down closed.
    pub fn new() -> (r: LoginScreen)
        ensures
            r@.focus == LoginFocus::User,
            r@.options.len() == 0,
            r@.selected == 0,
            !r@.dropdown_open,
            r@.username.len() == 0,
            r@.password.len() == 0,
            r@.message is None,
    {
        let r = LoginScreen {
            focus: LoginFocus::User,
            user_options: Vec::new(),
            user_selected: 0,
            user_dropdown_open: false,
            username_input: String::new(),
            password_input: String::new(),
            error_message: None,
        };
        assert(r@.options =~= Seq::<Seq<char>>::empty());
        r
    }

    /// The focused part.
    pub fn focus(&self) -> (r: LoginFocus)
        ensures
            r == self@.focus,
    {
        self.focus
    }

    /// The user name typed or picked so far.
    pub fn username_input(&self) -> (r: &str)
        ensures
            r@ == self@.username,
    {
        self.username_input.as_str()
    }

    /// The number of characters of the password typed so far.
    pub fn password_len(&self) -> (r: usize)
        ensures
            r == self@.password.len(),
    {
        self.password_input.as_str().unicode_len()
    }

    /// The message to show under the form, if any.
    pub fn message(&self) -> (r: Option<&str>)
        ensures
            match r {
                Some(m) => self@.message == Some(m@),
                None => self@.message is None,
            },
    {
        match &self.error_message {
            Some(m) => Some(m.as_str()),
            None => None,
        }
    }

    /// Whether the drop-down of user names is open.
    pub fn dropdown_open(&self) -> (r: bool)
        ensures
            r == self@.dropdown_open,
    {
        self.user_dropdown_open
    }

    /// The position of the highlighted user name in the drop-down.
    pub fn selected(&self) -> (r: usize)
        ensures
            r == self@.selected,
    {
        self.user_selected
    }

    /// The user names the drop-down shows: the first few of the loaded ones.
    pub fn visible_options(&self) -> (r: Vec<String>)
        ensures
            text_views(r@) == self@.options.take(
                if self@.options.len() < DROPDOWN_ROWS { self@.options.len() as int } else { DROPDOWN_ROWS as int },
            ),
    {
        let n = if self.user_options.len() < DROPDOWN_ROWS {
            self.user_options.len()
        } else {
            DROPDOWN_ROWS
        };
        let mut r: Vec<String> = Vec::new();
        let mut i: usize = 0;
        while i < n
            invariant
                i <= n,
                n <= self.user_options@.len(),
                r@.len() == i,
                text_views(r@) == self@.options.take(i as int),
            decreases n - i,
        {
            let name = self.user_options[i].clone();
            assert(self@.options[i as int] == name@);
            let ghost before = r@;
            let ghost nv = name@;
            r.push(name);
            assert(text_views(r@)[i as int] == nv);
            assert(text_views(r@).take(i as int) =~= text_views(before));
            assert(text_views(r@) =~= self@.options.take(i + 1));
            i = i + 1;
        }
        r
    }

    /// Moves the focus to the next part, unless the drop-down is open.
    pub fn focus_next(&mut self)
        ensures
            old(self)@.dropdown_open ==> final(self)@ == old(self)@,
            !old(self)@.dropdown_open ==> final(self)@ == (LoginView { focus: next_login_focus(old(self)@.focus), ..old(self)@ }),
    {
        if self.user_dropdown_open {
            return;
        }
        self.focus = match self.focus {
            LoginFocus::User => LoginFocus::Password,
            LoginFocus::Password => LoginFocus::LoginButton,
            LoginFocus::LoginButton => LoginFocus::CreateUserButton,
            LoginFocus::CreateUserButton => LoginFocus::User,
        };
    }

    /// Moves the focus to the previous part, unless the drop-down is open.
    pub fn focus_prev(&mut self)
        ensures
            old(self)@.dropdown_open ==> final(self)@ == old(self)@,
            !old(self)@.dropdown_open ==> final(self)@ == (LoginView { focus: prev_login_focus(old(self)@.focus), ..old(self)@ }),
    {
        if self.user_dropdown_open {
            return;
        }
        self.focus = match self.focus {
            LoginFocus::User => LoginFocus::CreateUserButton,
            LoginFocus::Password => LoginFocus::User,
            LoginFocus::LoginButton => LoginFocus::Password,
            LoginFocus::CreateUserButton => LoginFocus::LoginButton,
        };
    }

    fn set_message(&mut self, text: String)
        ensures
            final(self)@ == with_message(old(self)@, text@),
    {
        self.error_message = Some(text);
    }

    /// Takes the repository's answer to a login attempt: a matching user goes
    /// to the dashboard; no match or an error stays with a message.
    pub fn finish_login(&mut self, answer: Result<Option<User>, DomainError>) -> (r: ScreenResult)
        ensures
            (r, final(self)@) == login_effect(old(self)@, answer),
    {
        match answer {
            Ok(Some(_user)) => ScreenResult::Go(ScreenId::Dashboard),
            Ok(None) => {
                self.set_message(String::from_str("Invalid credentials"));
                ScreenResult::Stay
            },
            Err(e) => {
                self.set_message(String::from_str("Error: ").concat(e.message().as_str()));
                ScreenResult::Stay
            },
        }
    }

    /// Tries to log in with the typed name and password: a blank name is
    /// turned away at once; otherwise the repository's answer decides, as
    /// `finish_login` says.
    pub fn perform_login<R: UserRepository>(&mut self, repo: &R) -> (r: ScreenResult)
        ensures
            is_blank(old(self)@.username) ==> r == ScreenResult::Stay && final(self)@ == with_message(
                old(self)@,
                "Username required"@,
            ),
            !is_blank(old(self)@.username) ==> exists|answer: Result<Option<User>, DomainError>|
                (r, final(self)@) == login_effect(old(self)@, answer),
    {
        if blank(self.username_input.as_str()) {
            self.set_message(String::from_str("Username required"));
            return ScreenResult::Stay;
        }
        let answer = repo.verify_user(self.username_input.as_str(), self.password_input.as_str());
        let ghost a = answer;
        let ghost before = self@;
        let r = self.finish_login(answer);
        assert((r, self@) == login_effect(before, a));
        r
    }

    /// Takes the repository's answer to registering the typed user: on
    /// success a confirmation and the password field cleared, else the error.
    pub fn finish_creation(&mut self, answer: Result<User, DomainError>)
        ensures
            final(self)@ == creation_effect(old(self)@, answer),
    {
        match answer {
            Ok(_) => {
                self.set_message(String::from_str("User created! Log in now."));
                self.password_input = String::new();
            },
            Err(e) => {
                self.set_message(String::from_str("Error: ").concat(e.message().as_str()));
            },
        }
    }

    /// Activates the focused part: the user field opens the drop-down (loading
    /// the registered names) or closes it; the register button registers the
    /// typed user when name and password are filled in; the password field and
    /// the login button try to log in.
    pub fn activate<R: UserRepository>(&mut self, repo: &mut R) -> (r: ScreenResult)
        ensures
            old(self)@.focus == LoginFocus::User ==> r == ScreenResult::Stay
                && final(self)@.dropdown_open == !old(self)@.dropdown_open
                && final(self)@.focus == old(self)@.focus
                && final(self)@.username == old(self)@.username
                && final(self)@.password == old(self)@.password,
            old(self)@.focus == LoginFocus::CreateUserButton ==> r == ScreenResult::Stay,
            old(self)@.focus == LoginFocus::CreateUserButton && (is_blank(old(self)@.username)
                || old(self)@.password.len() == 0) ==> final(self)@ == with_message(
                old(self)@,
                "Username and password required"@,
            ),
            old(self)@.focus == LoginFocus::CreateUserButton && !(is_blank(old(self)@.username)
                || old(self)@.password.len() == 0) ==> exists|answer: Result<User, DomainError>|
                final(self)@ == creation_effect(old(self)@, answer),
            (old(self)@.focus == LoginFocus::Password || old(self)@.focus == LoginFocus::LoginButton)
                ==> (is_blank(old(self)@.username) ==> r == ScreenResult::Stay && final(self)@
                == with_message(old(self)@, "Username required"@)) && (!is_blank(old(self)@.username)
                ==> exists|answer: Result<Option<User>, DomainError>|
                (r, final(self)@) == login_effect(old(self)@, answer)),
    {
        match self.focus {
            LoginFocus::User => {
                if self.user_dropdown_open {
                    self.user_dropdown_open = false;
                } else {
                    if let Ok(users) = repo.list_users() {
                        self.user_options = users;
                    }
                    self.user_dropdown_open = true;
                }
                ScreenResult::Stay
            },
            LoginFocus::CreateUserButton => {
                if blank(self.username_input.as_str()) || self.password_input.as_str().unicode_len() == 0 {
                    self.set_message(String::from_str("Username and password required"));
                    return ScreenResult::Stay;
                }
                let answer = repo.create_user(self.username_input.as_str(), self.password_input.as_str());
                let ghost a = answer;
                let ghost before = self@;
                self.finish_creation(answer);
                assert(self@ == creation_effect(before, a));
                ScreenResult::Stay
            },
            LoginFocus::LoginButton => self.perform_login(&*repo),
            LoginFocus::Password => self.perform_login(&*repo),
        }
    }

    /// Handles one action. While the drop-down is open, Up and Down move the
    /// highlight, Enter picks the highlighted name and Escape closes it.
    /// Typing and Backspace edit the focused field and clear the message.
    pub fn handle_action<R: UserRepository>(&mut self, action: Action, repo: &mut R) -> (r: ScreenResult)
        ensures
            r == ScreenResult::Quit <==> action == Action::Quit,
            action != Action::Activate ==> !(r is Go),
            action == Action::Quit ==> r == ScreenResult::Quit && final(self)@ == old(self)@,
            action == Action::Cancel ==> r == ScreenResult::Stay && final(self)@ == (LoginView { dropdown_open: false, ..old(self)@ }),
            action == Action::NavUp ==> r == ScreenResult::Stay && final(self)@ == (LoginView {
                selected: if old(self)@.dropdown_open && old(self)@.selected > 0 { (old(self)@.selected - 1) as usize } else { old(self)@.selected },
                ..old(self)@
            }),
            action == Action::NavDown ==> r == ScreenResult::Stay && final(self)@ == (LoginView {
                selected: if old(self)@.dropdown_open && old(self)@.selected + 1 < old(self)@.options.len() { (old(self)@.selected + 1) as usize } else { old(self)@.selected },
                ..old(self)@
            }),
            action == Action::Activate && old(self)@.dropdown_open ==> r == ScreenResult::Stay
                && !final(self)@.dropdown_open
                && final(self)@.username == (if old(self)@.selected < old(self)@.options.len() { old(self)@.options[old(self)@.selected as int] } else { old(self)@.username }),
            action matches Action::InputChar(c) ==> r == ScreenResult::Stay && final(self)@ == (LoginView {
                message: None,
                username: if old(self)@.focus == LoginFocus::User { old(self)@.username.push(c) } else { old(self)@.username },
                password: if old(self)@.focus == LoginFocus::Password { old(self)@.password.push(c) } else { old(self)@.password },
                ..old(self)@
            }),
    {
        match action {
            Action::Quit => ScreenResult::Quit,
            Action::Cancel => {
                self.user_dropdown_open = false;
                ScreenResult::Stay
            },
            Action::FocusNext => {
                self.focus_next();
                ScreenResult::Stay
            },
            Action::FocusPrev => {
                self.focus_prev();
                ScreenResult::Stay
            },
            Action::NavUp => {
                if self.user_dropdown_open && self.user_selected > 0 {
                    self.user_selected = self.user_selected - 1;
                }
                ScreenResult::Stay
            },
            Action::NavDown => {
                if self.user_dropdown_open && self.user_selected < self.user_options.len()
                    && self.user_selected + 1 < self.user_options.len() {
                    self.user_selected = self.user_selected + 1;
                }
                ScreenResult::Stay
            },
            Action::Activate => {
                if self.user_dropdown_open {
                    if self.user_selected < self.user_options.len() {
                        self.username_input = self.user_options[self.user_selected].clone();
                    }
                    self.user_dropdown_open = false;
                    ScreenResult::Stay
                } else {
                    self.activate(repo)
                }
            },
            Action::InputChar(ch) => {
                self.error_message = None;
                if self.focus == LoginFocus::User {
                    push_char(&mut self.username_input, ch);
                } else if self.focus == LoginFocus::Password {
                    push_char(&mut self.password_input, ch);
                }
                ScreenResult::Stay
            },
            Action::Backspace => {
                self.error_message = None;
                if self.focus == LoginFocus::User {
                    pop_char(&mut self.username_input);
                } else if self.focus == LoginFocus::Password {
                    pop_char(&mut self.password_input);
                }
                ScreenResult::Stay
            },
            _ => ScreenResult::Stay,
        }
    }
}

} // verus!
