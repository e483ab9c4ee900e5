//! The course of one remote operation as the user sees it, and the errors
//! that wait to be shown.

use crate::types::{AppError, AppErrorView, DialogPage};
use std::collections::VecDeque;
use vstd::prelude::*;

verus! {

/// What a connected session is busy with.
#[derive(Clone, Copy, Debug, PartialEq, Eq, Structural)]
pub enum Activity {
    Listing,
    Submitting,
    Transferring,
}

/// Where a remote operation stands.
#[derive(Clone, Debug, PartialEq, Eq)]
pub enum OperationState {
    Idle,
    Connecting,
    Connected,
    Running(Activity),
    Failed(AppError),
}

/// The model of an `OperationState`.
pub enum OperationStateView {
    Idle,
    Connecting,
    Connected,
    Running(Activity),
    Failed(AppErrorView),
}

impl View for OperationState {
    type V = OperationStateView;

    open spec fn view(&self) -> OperationStateView {
        match self {
            OperationState::Idle => OperationStateView::Idle,
            OperationState::Connecting => OperationStateView::Connecting,
            OperationState::Connected => OperationStateView::Connected,
            OperationState::Running(activity) => OperationStateView::Running(*activity),
            OperationState::Failed(reason) => OperationStateView::Failed(reason@),
        }
    }
}

/// What happens to a remote operation.
#[derive(Clone, Debug, PartialEq, Eq)]
pub enum Event {
    /// The user asked for the operation.
    Requested,
    /// The session is open.
    Established,
    /// The session has taken up the work.
    Started(Activity),
    /// The work is done.
    Completed,
    /// A step failed for this reason.
    Failed(AppError),
    /// The user asked to try again.
    Retry,
}

/// The model of an `Event`.
pub enum EventView {
    Requested,
    Established,
    Started(Activity),
    Completed,
    Failed(AppErrorView),
    Retry,
}

impl View for Event {
    type V = EventView;

    open spec fn view(&self) -> EventView {
        match self {
            Event::Requested => EventView::Requested,
            Event::Established => EventView::Established,
            Event::Started(activity) => EventView::Started(*activity),
            Event::Completed => EventView::Completed,
            Event::Failed(reason) => EventView::Failed(reason@),
            Event::Retry => EventView::Retry,
        }
    }
}

/// The state after `event`. An operation goes from idle to connecting, to
/// connected, to its work, and back to idle. A failure of any step leads to
/// the failed state, which only a retry leaves. An event that does not fit
/// the state changes nothing.
pub open spec fn after(state: OperationStateView, event: EventView) -> OperationStateView {
    match (state, event) {
        (OperationStateView::Failed(_), EventView::Retry) => OperationStateView::Idle,
        (OperationStateView::Failed(_), _) => state,
        (_, EventView::Failed(reason)) => OperationStateView::Failed(reason),
        (OperationStateView::Idle, EventView::Requested) => OperationStateView::Connecting,
        (OperationStateView::Connecting, EventView::Established) => OperationStateView::Connected,
        (OperationStateView::Connected, EventView::Started(activity)) => {
            OperationStateView::Running(activity)
        },
        (OperationStateView::Running(_), EventView::Completed) => OperationStateView::Idle,
        _ => state,
    }
}

impl OperationState {
    /// The state after `event`.
    pub fn on(self, event: Event) -> (next: OperationState)
        ensures
            next@ == after(self@, event@),
    {
        match self {
            OperationState::Failed(reason) => match event {
                Event::Retry => OperationState::Idle,
                _ => OperationState::Failed(reason),
            },
            OperationState::Idle => match event {
                Event::Failed(reason) => OperationState::Failed(reason),
                Event::Requested => OperationState::Connecting,
                _ => OperationState::Idle,
            },
            OperationState::Connecting => match event {
                Event::Failed(reason) => OperationState::Failed(reason),
                Event::Established => OperationState::Connected,
                _ => OperationState::Connecting,
            },
            OperationState::Connected => match event {
                Event::Failed(reason) => OperationState::Failed(reason),
                Event::Started(activity) => OperationState::Running(activity),
                _ => OperationState::Connected,
            },
            OperationState::Running(activity) => match event {
                Event::Failed(reason) => OperationState::Failed(reason),
                Event::Completed => OperationState::Idle,
                _ => OperationState::Running(activity),
            },
        }
    }
}

/// An operation that meets no failure comes back to idle.
pub proof fn lemma_operation_returns_to_idle(activity: Activity)
    ensures
        after(
            after(
                after(
                    after(OperationStateView::Idle, EventView::Requested),
                    EventView::Established,
                ),
                EventView::Started(activity),
            ),
            EventView::Completed,
        ) == OperationStateView::Idle,
{
}

/// A failure leads from every state but the failed one to the failed state,
/// with the failure as the reason. The failed state is left by a retry, which
/// leads to idle, and by nothing else.
pub proof fn lemma_failure_and_recovery(state: OperationStateView, event: EventView)
    ensures
        !(state is Failed) ==> (event matches EventView::Failed(reason) ==> after(state, event)
            == OperationStateView::Failed(reason)),
        state is Failed ==> after(state, event) == if event is Retry {
            OperationStateView::Idle
        } else {
            state
        },
        !(state is Failed) && after(state, event) is Failed ==> event is Failed,
{
}

/// The errors that wait to be shown, the oldest first. The window shows the
/// first of them.
pub struct Notices {
    pages: VecDeque<DialogPage>,
}

/// The model of a sequence of dialogs: the errors that they show.
pub open spec fn shown_errors(pages: Seq<DialogPage>) -> Seq<AppErrorView> {
    Seq::new(pages.len(), |i: int| pages[i].error())
}

/// The notices that wait once the one on view is dismissed.
pub open spec fn dismissed(notices: Seq<AppErrorView>) -> Seq<AppErrorView> {
    if notices.len() == 0 {
        notices
    } else {
        notices.drop_first()
    }
}

impl View for Notices {
    type V = Seq<AppErrorView>;

    closed spec fn view(&self) -> Seq<AppErrorView> {
        shown_errors(self.pages@)
    }
}

impl Notices {
    /// No notice.
    pub fn new() -> (notices: Notices)
        ensures
            notices@ == Seq::<AppErrorView>::empty(),
    {
        let notices = Notices { pages: VecDeque::new() };
        assert(notices@ =~= Seq::<AppErrorView>::empty());
        notices
    }

    /// How many notices wait.
    pub fn len(&self) -> (n: usize)
        ensures
            n == self@.len(),
    {
        self.pages.len()
    }

    /// The notice that the window shows, if any.
    pub fn current(&self) -> (page: Option<&DialogPage>)
        ensures
            match page {
                Some(shown) => self@.len() > 0 && shown.error() == self@[0],
                None => self@.len() == 0,
            },
    {
        if self.pages.len() > 0 {
            Some(&self.pages[0])
        } else {
            None
        }
    }

    /// Queues an error behind those that wait, to be shown in its turn.
    pub fn push(&mut self, error: AppError)
        ensures
            final(self)@ == old(self)@.push(error@),
    {
        let ghost before = self.pages@;
        self.pages.push_back(DialogPage::Info(error));
        assert(shown_errors(self.pages@) =~= shown_errors(before).push(error@));
    }

    /// Shows the latest error: the notice on view, if any, gives way, and the
    /// error is queued behind those that wait.
    pub fn report(&mut self, error: AppError)
        ensures
            final(self)@ == dismissed(old(self)@).push(error@),
    {
        self.dismiss();
        self.push(error);
    }

    /// Dismisses the notice on view, if any.
    pub fn dismiss(&mut self)
        ensures
            final(self)@ == dismissed(old(self)@),
    {
        let ghost before = self.pages@;
        let _ = self.pages.pop_front();
        assert(shown_errors(self.pages@) =~= dismissed(shown_errors(before)));
    }
}

} // verus!
