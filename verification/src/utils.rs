//! The small remote checks, and the lines of the error log.

use crate::command::{
    existence_check, existence_command, listing, listing_command, output_reports_existing,
    queue_command, queue_query, reports_existing,
};
use crate::config::{ConfigField, TbguiConfig, TbguiConfigView};
use crate::protocol::{
    error_of, unexpected, unexpected_reply, Operation, Reply, ReplyView, Request, RequestView, Step,
    StepView,
};
use crate::ssh::{COMMAND_FAILED, LISTING_FAILED, PROBE_FAILED};
use crate::text::{contains, has_substring, lines, split_lines};
use crate::types::{message_of, AppError, AppErrorView};
use vstd::prelude::*;
use vstd::string::*;

verus! {

/// The name of the error log in the local results directory.
pub const ERROR_LOG: &'static str = "error.log";

/// The check of a remote directory: where it stands.
#[derive(Debug)]
pub enum DirCheck {
    /// Asked whether the directory exists.
    Probing,
    /// Asked for `error` to be logged; it is returned next.
    Reporting { error: AppError },
}

/// The model of a `DirCheck`.
pub enum DirCheckView {
    Probing,
    Reporting { error: AppErrorView },
}

impl View for DirCheck {
    type V = DirCheckView;

    open spec fn view(&self) -> DirCheckView {
        match self {
            DirCheck::Probing => DirCheckView::Probing,
            DirCheck::Reporting { error } => DirCheckView::Reporting { error: error@ },
        }
    }
}

/// What follows when the check of a directory, standing at `at`, gets
/// `reply`. The directory exists if and only if the command printed the word
/// `exists` and nothing but white space around it; any other output, the
/// empty one too, says that it does not. A failure of the command is logged
/// and then returned.
pub open spec fn dir_check_next(at: DirCheckView, reply: ReplyView) -> StepView<
    DirCheckView,
    bool,
> {
    match (at, reply) {
        (DirCheckView::Probing, ReplyView::Output(output)) => StepView::Finish(
            Ok(reports_existing(output.stdout)),
        ),
        (DirCheckView::Probing, ReplyView::Failed(fault)) => StepView::Perform(
            RequestView::Log(message_of(error_of(PROBE_FAILED@, fault))),
            DirCheckView::Reporting { error: error_of(PROBE_FAILED@, fault) },
        ),
        (DirCheckView::Reporting { error }, _) => StepView::Finish(Err(error)),
        _ => StepView::Finish(Err(unexpected_reply())),
    }
}

impl Operation for DirCheck {
    type Output = bool;

    open spec fn follows(self, reply: Reply, step: Step<DirCheck, bool>) -> bool {
        step@ == dir_check_next(self@, reply@)
    }

    fn resume(self, reply: Reply) -> (step: Step<DirCheck, bool>)
        ensures
            step@ == dir_check_next(self@, reply@),
    {
        match self {
            DirCheck::Probing => match reply {
                Reply::Output(output) => Step::Finish(
                    Ok(output_reports_existing(output.stdout.as_str())),
                ),
                Reply::Failed(fault) => {
                    let error = fault.into_error(PROBE_FAILED);
                    Step::Perform(Request::Log(error.message()), DirCheck::Reporting { error })
                },
                _ => Step::Finish(Err(unexpected())),
            },
            DirCheck::Reporting { error } => Step::Finish(Err(error)),
        }
    }
}

/// Starts the check whether `remote_dir` is a directory on the remote side.
pub fn check_if_dir_exists(remote_dir: &str) -> (step: Step<DirCheck, bool>)
    ensures
        step@ == StepView::<DirCheckView, bool>::Perform(
            RequestView::Execute(existence_command(remote_dir@)),
            DirCheckView::Probing,
        ),
{
    Step::Perform(Request::Execute(existence_check(remote_dir)), DirCheck::Probing)
}

/// The listing of a remote directory: where it stands.
#[derive(Debug)]
pub enum DirListing {
    /// Asked for the listing.
    Listing,
    /// Asked for `error` to be logged; it is returned next.
    Reporting { error: AppError },
}

/// The model of a `DirListing`.
pub enum DirListingView {
    Listing,
    Reporting { error: AppErrorView },
}

impl View for DirListing {
    type V = DirListingView;

    open spec fn view(&self) -> DirListingView {
        match self {
            DirListing::Listing => DirListingView::Listing,
            DirListing::Reporting { error } => DirListingView::Reporting { error: error@ },
        }
    }
}

/// What follows when the listing of a directory, standing at `at`, gets
/// `reply`: the lines that the command printed, each the name of an entry,
/// none left out. A failure of the command is logged and then returned.
pub open spec fn dir_listing_next(at: DirListingView, reply: ReplyView) -> StepView<
    DirListingView,
    Seq<Seq<char>>,
> {
    match (at, reply) {
        (DirListingView::Listing, ReplyView::Output(output)) => StepView::Finish(
            Ok(lines(output.stdout)),
        ),
        (DirListingView::Listing, ReplyView::Failed(fault)) => StepView::Perform(
            RequestView::Log(message_of(error_of(LISTING_FAILED@, fault))),
            DirListingView::Reporting { error: error_of(LISTING_FAILED@, fault) },
        ),
        (DirListingView::Reporting { error }, _) => StepView::Finish(Err(error)),
        _ => StepView::Finish(Err(unexpected_reply())),
    }
}

impl Operation for DirListing {
    type Output = Vec<String>;

    open spec fn follows(self, reply: Reply, step: Step<DirListing, Vec<String>>) -> bool {
        step@ == dir_listing_next(self@, reply@)
    }

    fn resume(self, reply: Reply) -> (step: Step<DirListing, Vec<String>>)
        ensures
            step@ == dir_listing_next(self@, reply@),
    {
        match self {
            DirListing::Listing => match reply {
                Reply::Output(output) => Step::Finish(Ok(split_lines(output.stdout.as_str()))),
                Reply::Failed(fault) => {
                    let error = fault.into_error(LISTING_FAILED);
                    Step::Perform(Request::Log(error.message()), DirListing::Reporting { error })
                },
                _ => Step::Finish(Err(unexpected())),
            },
            DirListing::Reporting { error } => Step::Finish(Err(error)),
        }
    }
}

/// Starts the listing of the remote directory `remote_dir`.
pub fn list_directory(remote_dir: &str) -> (step: Step<DirListing, Vec<String>>)
    ensures
        step@ == StepView::<DirListingView, Seq<Seq<char>>>::Perform(
            RequestView::Execute(listing_command(remote_dir@)),
            DirListingView::Listing,
        ),
{
    Step::Perform(Request::Execute(listing(remote_dir)), DirListing::Listing)
}

/// The look into the scheduler's queue: where it stands.
#[derive(Debug)]
pub enum QueueCheck {
    /// Asked for the jobs of `username`.
    Querying { username: String },
}

/// The model of a `QueueCheck`.
pub enum QueueCheckView {
    Querying { username: Seq<char> },
}

impl View for QueueCheck {
    type V = QueueCheckView;

    open spec fn view(&self) -> QueueCheckView {
        match self {
            QueueCheck::Querying { username } => QueueCheckView::Querying { username: username@ },
        }
    }
}

/// The first step of the look into the queue.
pub open spec fn queue_check_start(config: TbguiConfigView) -> StepView<QueueCheckView, bool> {
    match config.username {
        None => StepView::Finish(Err(AppErrorView::Configuration(ConfigField::Username))),
        Some(username) => StepView::Perform(
            RequestView::Execute(queue_command(username)),
            QueueCheckView::Querying { username },
        ),
    }
}

/// What follows when the queue has been printed: a job is running if and
/// only if the user's name occurs in what was printed.
pub open spec fn queue_check_next(at: QueueCheckView, reply: ReplyView) -> StepView<
    QueueCheckView,
    bool,
> {
    match (at, reply) {
        (QueueCheckView::Querying { username }, ReplyView::Output(output)) => StepView::Finish(
            Ok(has_substring(output.stdout, username)),
        ),
        (_, ReplyView::Failed(fault)) => StepView::Finish(Err(error_of(COMMAND_FAILED@, fault))),
        _ => StepView::Finish(Err(unexpected_reply())),
    }
}

impl Operation for QueueCheck {
    type Output = bool;

    open spec fn follows(self, reply: Reply, step: Step<QueueCheck, bool>) -> bool {
        step@ == queue_check_next(self@, reply@)
    }

    fn resume(self, reply: Reply) -> (step: Step<QueueCheck, bool>)
        ensures
            step@ == queue_check_next(self@, reply@),
    {
        match self {
            QueueCheck::Querying { username } => match reply {
                Reply::Output(output) => Step::Finish(
                    Ok(contains(output.stdout.as_str(), username.as_str())),
                ),
                Reply::Failed(fault) => Step::Finish(Err(fault.into_error(COMMAND_FAILED))),
                _ => Step::Finish(Err(unexpected())),
            },
        }
    }
}

/// Starts the look into the scheduler's queue for a job of the configured
/// user. A caller may run it before a submission; nothing requires it.
pub fn check_if_running(config: &TbguiConfig) -> (step: Step<QueueCheck, bool>)
    ensures
        step@ == queue_check_start(config@),
{
    match config.require(ConfigField::Username) {
        Ok(username) => Step::Perform(
            Request::Execute(queue_query(username.as_str())),
            QueueCheck::Querying { username: username.clone() },
        ),
        Err(error) => Step::Finish(Err(error)),
    }
}

/// The line that the error log gets for `message`, with its line feed.
pub open spec fn log_line(message: Seq<char>) -> Seq<char> {
    message + "\n"@
}

/// The line that the error log gets for `message`. Lines are appended; the
/// log is never cut.
pub fn log_error(message: &str) -> (line: String)
    ensures
        line@ == log_line(message@),
{
    String::from_str(message).concat("\n")
}

/// What failing to delete the error log is reported with.
pub const LOG_DELETE_FAILED: &'static str = "Failed to delete error log file: ";

/// What clearing the error log leads to: nothing where the log was removed or
/// was not there, else a message for the new log.
pub open spec fn log_cleared(existed: bool, removed: bool, path: Seq<char>) -> Option<Seq<char>> {
    if existed && !removed {
        Some(LOG_DELETE_FAILED@ + path)
    } else {
        None
    }
}

/// Decides what follows the attempt to delete the error log at `path`:
/// `existed` says whether the log was there, `removed` whether removing it
/// went well. The message, if any, is to be logged.
pub fn delete_log_file(existed: bool, removed: bool, path: &str) -> (message: Option<String>)
    ensures
        crate::config::text_view(message) == log_cleared(existed, removed, path@),
{
    if existed && !removed {
        Some(String::from_str(LOG_DELETE_FAILED).concat(path))
    } else {
        None
    }
}

} // verus!
