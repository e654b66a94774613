use vstd::prelude::*;

use crate::create_user::CreateUserScreen;
use crate::dashboard::DashboardScreen;
use crate::login::LoginScreen;
use crate::repository::EntryRepository;
use crate::screens::{Action, ScreenId, ScreenResult};

verus! {

/// The interface state: which screen is active, and the state of each screen.
pub struct App {
    active: ScreenId,
    dashboard: DashboardScreen,
    login: LoginScreen,
    create_user: CreateUserScreen,
}

impl App {
    /// Starts on the login screen.
    pub fn new() -> (r: App)
        ensures
            r.active_screen() == ScreenId::Login,
    {
        App {
            active: ScreenId::Login,
            dashboard: DashboardScreen::new(),
            login: LoginScreen::new(),
            create_user: CreateUserScreen::new(),
        }
    }

    /// The active screen.
    pub closed spec fn active_screen(&self) -> ScreenId {
        self.active
    }

    /// The active screen.
    pub fn active(&self) -> (r: ScreenId)
        ensures
            r == self.active_screen(),
    {
        self.active
    }

    /// The dashboard's state.
    pub fn dashboard(&self) -> &DashboardScreen {
        &self.dashboard
    }

    /// The login form's state.
    pub fn login(&self) -> &LoginScreen {
        &self.login
    }

    /// The registration form's state.
    pub fn create_user(&self) -> &CreateUserScreen {
        &self.create_user
    }

    fn switch_to<R: EntryRepository>(&mut self, screen: ScreenId, repo: &mut R)
        ensures
            final(self).active_screen() == screen,
    {
        if screen == ScreenId::Dashboard {
            let _ = self.dashboard.refresh_entries(&*repo);
        }
        self.active = screen;
    }

    /// Applies one action and tells whether the application should quit. Quit
    /// quits; `Go` switches screens (loading the entries when the dashboard
    /// opens); any other action goes to the active screen, whose answer may
    /// quit or switch screens in turn.
    pub fn apply<R: EntryRepository>(&mut self, action: Action, repo: &mut R) -> (r: bool)
        ensures
            r == (action == Action::Quit),
            action matches Action::Go(s) ==> final(self).active_screen() == s,
            !(action is Go) && action != Action::Activate ==> final(self).active_screen()
                == old(self).active_screen(),
    {
        let answer = match action {
            Action::Quit => return true,
            Action::Go(screen) => ScreenResult::Go(screen),
            _ => match self.active {
                ScreenId::Dashboard => self.dashboard.handle_action(action, repo),
                ScreenId::Login => self.login.handle_action(action, repo),
                ScreenId::CreateUser => self.create_user.handle_action(action),
            },
        };
        match answer {
            ScreenResult::Quit => true,
            ScreenResult::Go(screen) => {
                self.switch_to(screen, repo);
                false
            },
            ScreenResult::Stay => false,
        }
    }
}

} // verus!
