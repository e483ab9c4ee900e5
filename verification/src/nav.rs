//! The pages of the navigation bar and the pages of the context drawer.

use vstd::prelude::*;
use vstd::string::*;

verus! {

/// A page of the navigation bar.
#[derive(Clone, Copy, Debug, PartialEq, Eq, Structural)]
pub enum NavPage {
    RunTbProfiler,
    DownloadResults,
    DeleteResults,
    Settings,
}

/// A page of the context drawer.
#[derive(Clone, Copy, Debug, PartialEq, Eq, Structural)]
pub enum ContextPage {
    About,
    Settings,
}

/// The message identifier of the title of `page`: the key under which the
/// title is kept in each language.
pub open spec fn nav_title_key(page: NavPage) -> Seq<char> {
    match page {
        NavPage::RunTbProfiler => "run-tb-profiler"@,
        NavPage::DownloadResults => "download-results"@,
        NavPage::DeleteResults => "delete-results"@,
        NavPage::Settings => "settings"@,
    }
}

/// The message identifier of the title of `page`: the key under which the
/// title is kept in each language.
pub open spec fn context_title_key(page: ContextPage) -> Seq<char> {
    match page {
        ContextPage::About => "about"@,
        ContextPage::Settings => "settings"@,
    }
}

/// The navigation pages in the order in which the bar shows them.
pub open spec fn nav_pages() -> Seq<NavPage> {
    seq![
        NavPage::RunTbProfiler,
        NavPage::DownloadResults,
        NavPage::DeleteResults,
        NavPage::Settings,
    ]
}

impl NavPage {
    /// Every page once, in the order of the navigation bar.
    pub fn all() -> (pages: &'static [NavPage])
        ensures
            pages@ == nav_pages(),
    {
        let pages: &'static [NavPage] = &[
            NavPage::RunTbProfiler,
            NavPage::DownloadResults,
            NavPage::DeleteResults,
            NavPage::Settings,
        ];
        assert(pages@ =~= nav_pages());
        pages
    }

    /// The message identifier of the page's title; the caller looks up the
    /// text in the user's language.
    pub fn title(&self) -> (key: String)
        ensures
            key@ == nav_title_key(*self),
    {
        match self {
            NavPage::RunTbProfiler => String::from_str("run-tb-profiler"),
            NavPage::DownloadResults => String::from_str("download-results"),
            NavPage::DeleteResults => String::from_str("delete-results"),
            NavPage::Settings => String::from_str("settings"),
        }
    }

    /// The position of the page in the navigation bar.
    pub fn position(&self) -> (at: usize)
        ensures
            at < nav_pages().len(),
            nav_pages()[at as int] == *self,
    {
        match self {
            NavPage::RunTbProfiler => 0,
            NavPage::DownloadResults => 1,
            NavPage::DeleteResults => 2,
            NavPage::Settings => 3,
        }
    }
}

impl ContextPage {
    /// The message identifier of the page's title; the caller looks up the
    /// text in the user's language.
    pub fn title(&self) -> (key: String)
        ensures
            key@ == context_title_key(*self),
    {
        match self {
            ContextPage::About => String::from_str("about"),
            ContextPage::Settings => String::from_str("settings"),
        }
    }
}

} // verus!
