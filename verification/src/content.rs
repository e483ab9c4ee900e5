//! The list of samples on view: replaced whole by each listing, and changed
//! one sample at a time by the user.

use crate::model::sample::{Sample, SampleView, Status, TaskMessage};
use vstd::prelude::*;

verus! {

/// What can happen to the list.
#[derive(Clone, Debug, PartialEq, Eq)]
pub enum Message {
    /// The user marked the sample at this place as done, or as not done.
    Complete(usize, bool),
    /// The user selected the sample at this place for the next job, or took it
    /// out.
    Check(usize, bool),
    /// A listing brought these samples; they replace the list.
    SetItems(Vec<Sample>),
}

/// The samples on view, in the order of the listing that brought them.
#[derive(Clone, Debug, PartialEq, Eq)]
pub struct Content {
    tasks: Vec<Sample>,
}

impl View for Content {
    type V = Seq<SampleView>;

    closed spec fn view(&self) -> Seq<SampleView> {
        self.tasks.deep_view()
    }
}

/// The sample with its status set by `completed`.
pub open spec fn with_status(sample: SampleView, completed: bool) -> SampleView {
    SampleView {
        status: if completed {
            Status::Completed
        } else {
            Status::NotStarted
        },
        ..sample
    }
}

/// The list after a message. A message for a place that the list does not
/// have changes nothing.
pub open spec fn updated(list: Seq<SampleView>, message: Message) -> Seq<SampleView> {
    match message {
        Message::Complete(at, completed) => if at < list.len() {
            list.update(at as int, with_status(list[at as int], completed))
        } else {
            list
        },
        Message::Check(at, checked) => if at < list.len() {
            list.update(at as int, SampleView { checked, ..list[at as int] })
        } else {
            list
        },
        Message::SetItems(items) => items.deep_view(),
    }
}

/// What the list reports after a message: the sample that was marked, as it
/// is now, and nothing else.
pub open spec fn reported(list: Seq<SampleView>, message: Message) -> Seq<SampleView> {
    match message {
        Message::Complete(at, completed) => if at < list.len() {
            seq![with_status(list[at as int], completed)]
        } else {
            Seq::empty()
        },
        _ => Seq::empty(),
    }
}

/// The samples that a sequence of reports names as changed.
pub open spec fn changed_samples(reports: Seq<TaskMessage>) -> Seq<SampleView>
    recommends
        forall|k: int| 0 <= k < reports.len() ==> reports[k] is Update,
{
    Seq::new(reports.len(), |k: int| reports[k]->Update_0@)
}

impl Content {
    /// The empty list.
    pub fn new() -> (content: Content)
        ensures
            content@ == Seq::<SampleView>::empty(),
    {
        let content = Content { tasks: Vec::new() };
        assert(content@ =~= Seq::<SampleView>::empty());
        content
    }

    /// How many samples are on view.
    pub fn len(&self) -> (n: usize)
        ensures
            n == self@.len(),
    {
        self.tasks.len()
    }

    /// Whether no sample is on view.
    pub fn is_empty(&self) -> (empty: bool)
        ensures
            empty == (self@.len() == 0),
    {
        self.tasks.len() == 0
    }

    /// The samples on view.
    pub fn items(&self) -> (items: &Vec<Sample>)
        ensures
            items.deep_view() == self@,
    {
        &self.tasks
    }

    /// Takes a message: changes the list, and reports each sample that was
    /// marked.
    pub fn update(&mut self, message: Message) -> (reports: Vec<TaskMessage>)
        ensures
            final(self)@ == updated(old(self)@, message),
            forall|k: int| 0 <= k < reports.len() ==> (#[trigger] reports[k]) is Update,
            changed_samples(reports@) == reported(old(self)@, message),
    {
        let ghost before = self@;
        let mut reports: Vec<TaskMessage> = Vec::new();
        match message {
            Message::SetItems(items) => {
                self.tasks = items;
            },
            Message::Complete(at, completed) => {
                if at < self.tasks.len() {
                    assert(before[at as int] == self.tasks[at as int]@);
                    let mut task = self.tasks[at].duplicate();
                    let report = task.complete(completed);
                    self.tasks.set(at, task);
                    reports.push(report);
                    assert(self@ =~= before.update(
                        at as int,
                        with_status(before[at as int], completed),
                    ));
                }
            },
            Message::Check(at, checked) => {
                if at < self.tasks.len() {
                    assert(before[at as int] == self.tasks[at as int]@);
                    let mut task = self.tasks[at].duplicate();
                    task.set_checked(checked);
                    self.tasks.set(at, task);
                    assert(self@ =~= before.update(
                        at as int,
                        SampleView { checked, ..before[at as int] },
                    ));
                }
            },
        }
        assert(changed_samples(reports@) =~= reported(before, message));
        reports
    }
}

} // verus!
