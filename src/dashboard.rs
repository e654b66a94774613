use vstd::prelude::*;

use crate::error::DomainError;
use crate::memory::views;
use crate::models::{Entry, EntryFilter};
use crate::repository::EntryRepository;
use crate::screens::{Action, ScreenResult};

verus! {

/// The position after `i` in a list of `n` rows, wrapping to the top.
pub open spec fn next_row(selected: Option<usize>, n: int) -> Option<usize> {
    match selected {
        Some(i) => if i >= n - 1 { Some(0usize) } else { Some((i + 1) as usize) },
        None => Some(0usize),
    }
}

/// The position before `i` in a list of `n` rows, wrapping to the bottom.
pub open spec fn prev_row(selected: Option<usize>, n: int) -> Option<usize> {
    match selected {
        Some(i) => if i == 0 { Some((n - 1) as usize) } else { Some((i - 1) as usize) },
        None => Some(0usize),
    }
}

/// The list of entries, newest first, with one row highlighted.
pub struct DashboardScreen {
    entries: Vec<Entry>,
    selected: Option<usize>,
}

impl DashboardScreen {
    /// A dashboard with no entries loaded.
    pub fn new() -> (r: DashboardScreen)
        ensures
            r.entries().len() == 0,
            r.selected_row() is None,
    {
        DashboardScreen { entries: Vec::new(), selected: None }
    }

    /// The entries shown, as plain values.
    pub closed spec fn entries(&self) -> Seq<(i64, crate::models::EntryRecord)> {
        views(self.entries@)
    }

    /// The highlighted row.
    pub closed spec fn selected_row(&self) -> Option<usize> {
        self.selected
    }

    /// The entries shown.
    pub fn shown(&self) -> (r: &Vec<Entry>)
        ensures
            views(r@) == self.entries(),
    {
        &self.entries
    }

    /// The highlighted row.
    pub fn selected(&self) -> (r: Option<usize>)
        ensures
            r == self.selected_row(),
    {
        self.selected
    }

    /// Loads every entry from `repo`. With no entries nothing is highlighted;
    /// otherwise the first row is highlighted if none was. On failure the
    /// screen is left as it was.
    pub fn refresh_entries<R: EntryRepository>(&mut self, repo: &R) -> (r: Result<(), DomainError>)
        ensures
            r is Err ==> final(self).entries() == old(self).entries() && final(self).selected_row()
                == old(self).selected_row(),
            r is Ok && final(self).entries().len() == 0 ==> final(self).selected_row() is None,
            r is Ok && final(self).entries().len() > 0 ==> final(self).selected_row() == (
                match old(self).selected_row() {
                    Some(i) => Some(i),
                    None => Some(0usize),
                }),
    {
        let loaded = match repo.list(EntryFilter::default()) {
            Ok(v) => v,
            Err(e) => return Err(e),
        };
        self.entries = loaded;
        if self.entries.len() == 0 {
            self.selected = None;
        } else if self.selected.is_none() {
            self.selected = Some(0);
        }
        Ok(())
    }

    /// Highlights the next row, wrapping to the top.
    pub fn select_next(&mut self)
        ensures
            final(self).entries() == old(self).entries(),
            old(self).entries().len() == 0 ==> final(self).selected_row() == old(self).selected_row(),
            old(self).entries().len() > 0 ==> final(self).selected_row() == next_row(
                old(self).selected_row(),
                old(self).entries().len() as int,
            ),
    {
        if self.entries.len() > 0 {
            let i = match self.selected {
                Some(i) => if i >= self.entries.len() - 1 { 0 } else { i + 1 },
                None => 0,
            };
            self.selected = Some(i);
        }
    }

    /// Highlights the previous row, wrapping to the bottom.
    pub fn select_prev(&mut self)
        ensures
            final(self).entries() == old(self).entries(),
            old(self).entries().len() == 0 ==> final(self).selected_row() == old(self).selected_row(),
            old(self).entries().len() > 0 ==> final(self).selected_row() == prev_row(
                old(self).selected_row(),
                old(self).entries().len() as int,
            ),
    {
        if self.entries.len() > 0 {
            let i = match self.selected {
                Some(i) => if i == 0 { self.entries.len() - 1 } else { i - 1 },
                None => 0,
            };
            self.selected = Some(i);
        }
    }

    /// Handles one action: Quit quits, `r` reloads, Down and Tab highlight the
    /// next row, Up and Back-Tab the previous one.
    pub fn handle_action<R: EntryRepository>(&mut self, action: Action, repo: &mut R) -> (r: ScreenResult)
        ensures
            action == Action::Quit ==> r == ScreenResult::Quit,
            action != Action::Quit ==> r == ScreenResult::Stay,
            action != Action::InputChar('r') ==> final(self).entries() == old(self).entries(),
            action == Action::InputChar('r') ==> (final(self).entries() == old(self).entries()
                && final(self).selected_row() == old(self).selected_row()) || (final(self).entries().len() == 0
                && final(self).selected_row() is None) || (final(self).entries().len() > 0
                && final(self).selected_row() == (match old(self).selected_row() {
                Some(i) => Some(i),
                None => Some(0usize),
            })),
            !(action == Action::NavDown || action == Action::FocusNext || action == Action::NavUp
                || action == Action::FocusPrev || action == Action::InputChar('r')) ==> final(self).selected_row()
                == old(self).selected_row(),
            (action == Action::NavDown || action == Action::FocusNext) && old(self).entries().len() > 0
                ==> final(self).selected_row() == next_row(old(self).selected_row(), old(self).entries().len() as int),
            (action == Action::NavUp || action == Action::FocusPrev) && old(self).entries().len() > 0
                ==> final(self).selected_row() == prev_row(old(self).selected_row(), old(self).entries().len() as int),
    {
        match action {
            Action::Quit => ScreenResult::Quit,
            Action::InputChar('r') => {
                let _ = self.refresh_entries(&*repo);
                ScreenResult::Stay
            },
            Action::NavDown | Action::FocusNext => {
                self.select_next();
                ScreenResult::Stay
            },
            Action::NavUp | Action::FocusPrev => {
                self.select_prev();
                ScreenResult::Stay
            },
            _ => ScreenResult::Stay,
        }
    }
}

} // verus!
