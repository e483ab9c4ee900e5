//! The entries of the menu bar and what each asks of the window.

use crate::nav::ContextPage;
use vstd::prelude::*;

verus! {

/// An entry of the menu bar.
#[derive(Clone, Copy, Debug, PartialEq, Eq, Structural)]
pub enum Action {
    About,
    Settings,
    WindowClose,
    WindowNew,
}

/// What the window is asked to do.
#[derive(Clone, Copy, Debug, PartialEq, Eq, Structural)]
pub enum WindowCommand {
    /// Show this page in the context drawer, or hide the drawer if it shows
    /// the page already.
    ToggleContextPage(ContextPage),
    WindowClose,
    WindowNew,
}

impl Action {
    /// What the menu entry asks of the window.
    pub open spec fn asks(self) -> WindowCommand {
        match self {
            Action::About => WindowCommand::ToggleContextPage(ContextPage::About),
            Action::Settings => WindowCommand::ToggleContextPage(ContextPage::Settings),
            Action::WindowClose => WindowCommand::WindowClose,
            Action::WindowNew => WindowCommand::WindowNew,
        }
    }

    /// What the menu entry asks of the window.
    pub fn message(&self) -> (command: WindowCommand)
        ensures
            command == self.asks(),
    {
        match self {
            Action::About => WindowCommand::ToggleContextPage(ContextPage::About),
            Action::Settings => WindowCommand::ToggleContextPage(ContextPage::Settings),
            Action::WindowClose => WindowCommand::WindowClose,
            Action::WindowNew => WindowCommand::WindowNew,
        }
    }
}

/// The context drawer: the page that it holds, and whether it is open.
#[derive(Clone, Copy, Debug, PartialEq, Eq, Structural)]
pub struct ContextDrawer {
    pub page: ContextPage,
    pub shown: bool,
}

impl ContextDrawer {
    /// The drawer after a request for `page`: asked for the page that it
    /// holds, it opens or closes; asked for another, it takes that page and
    /// opens.
    pub open spec fn toggled(self, page: ContextPage) -> ContextDrawer {
        if self.page == page {
            ContextDrawer { page, shown: !self.shown }
        } else {
            ContextDrawer { page, shown: true }
        }
    }

    /// Handles a request for `page`.
    pub fn toggle_page(&mut self, page: ContextPage)
        ensures
            *final(self) == old(self).toggled(page),
    {
        if self.page == page {
            self.shown = !self.shown;
        } else {
            self.page = page;
            self.shown = true;
        }
    }

    /// Opens the drawer if it is closed, and closes it if it is open.
    pub fn toggle(&mut self)
        ensures
            *final(self) == (ContextDrawer { page: old(self).page, shown: !old(self).shown }),
    {
        self.shown = !self.shown;
    }
}

/// Asking twice for the page that the drawer holds leaves the drawer as it
/// was.
pub proof fn lemma_toggle_twice(drawer: ContextDrawer)
    ensures
        drawer.toggled(drawer.page).toggled(drawer.page) == drawer,
{
}

} // verus!
