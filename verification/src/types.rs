//! The error kinds of the remote operations, and the dialog that shows one.

use crate::config::{field_name, ConfigField};
use vstd::prelude::*;
use vstd::string::*;

verus! {

/// Why a remote operation failed.
#[derive(Clone, Debug, PartialEq, Eq)]
pub enum AppError {
    /// A configuration field that the operation needs is not set.
    Configuration(ConfigField),
    /// No usable credential was found; the text says where it was looked for.
    Authentication(String),
    /// The connection, the transport, or the invocation of a remote command
    /// failed; the text is the diagnostic.
    Network(String),
    /// The remote directory of this path does not exist.
    RemoteDirectoryNotFound(String),
    /// The scheduler refused the job: its exit status and what it printed.
    JobSubmission { exit_status: u32, stdout: String, stderr: String },
    /// A job was asked for with no sample selected.
    NoItemsChecked,
    /// The local file system failed; the text is the diagnostic.
    IO(String),
}

/// The model of an `AppError`: the same variants over character sequences.
pub enum AppErrorView {
    Configuration(ConfigField),
    Authentication(Seq<char>),
    Network(Seq<char>),
    RemoteDirectoryNotFound(Seq<char>),
    JobSubmission { exit_status: u32, stdout: Seq<char>, stderr: Seq<char> },
    NoItemsChecked,
    IO(Seq<char>),
}

impl View for AppError {
    type V = AppErrorView;

    open spec fn view(&self) -> AppErrorView {
        match self {
            AppError::Configuration(field) => AppErrorView::Configuration(*field),
            AppError::Authentication(text) => AppErrorView::Authentication(text@),
            AppError::Network(text) => AppErrorView::Network(text@),
            AppError::RemoteDirectoryNotFound(path) => AppErrorView::RemoteDirectoryNotFound(
                path@,
            ),
            AppError::JobSubmission { exit_status, stdout, stderr } => AppErrorView::JobSubmission {
                exit_status: *exit_status,
                stdout: stdout@,
                stderr: stderr@,
            },
            AppError::NoItemsChecked => AppErrorView::NoItemsChecked,
            AppError::IO(text) => AppErrorView::IO(text@),
        }
    }
}

/// The line that an error shows to the user.
pub open spec fn message_of(error: AppErrorView) -> Seq<char> {
    match error {
        AppErrorView::Configuration(field) => field_name(field)
            + " is not set in the configuration"@,
        AppErrorView::Authentication(text) => text,
        AppErrorView::Network(text) => text,
        AppErrorView::RemoteDirectoryNotFound(path) => "Remote directory does not exist: "@ + path,
        AppErrorView::JobSubmission { exit_status, stdout, stderr } => "Failed to run tbprofiler"@,
        AppErrorView::NoItemsChecked => "Cannot run tbprofiler with zero items checked"@,
        AppErrorView::IO(text) => text,
    }
}

impl AppError {
    /// A message fit to be shown as it is.
    pub fn message(&self) -> (text: String)
        ensures
            text@ == message_of(self@),
    {
        match self {
            AppError::Configuration(field) => field.name().concat(
                " is not set in the configuration",
            ),
            AppError::Authentication(text) => text.clone(),
            AppError::Network(text) => text.clone(),
            AppError::RemoteDirectoryNotFound(path) => String::from_str(
                "Remote directory does not exist: ",
            ).concat(path.as_str()),
            AppError::JobSubmission { .. } => String::from_str("Failed to run tbprofiler"),
            AppError::NoItemsChecked => String::from_str(
                "Cannot run tbprofiler with zero items checked",
            ),
            AppError::IO(text) => text.clone(),
        }
    }
}

/// A dialog over the window.
#[derive(Clone, Debug, PartialEq, Eq)]
pub enum DialogPage {
    /// Shows an error until the user dismisses it.
    Info(AppError),
}

/// The heading of the dialog that shows `error`.
pub open spec fn dialog_heading(error: AppErrorView) -> Seq<char> {
    match error {
        AppErrorView::Configuration(_) => "Configuration error"@,
        AppErrorView::Authentication(_) => "Authentication error"@,
        AppErrorView::Network(_) => "Network error"@,
        AppErrorView::RemoteDirectoryNotFound(_) => "Remote directory not found"@,
        AppErrorView::JobSubmission { .. } => "Job submission failed"@,
        AppErrorView::NoItemsChecked => "Cannot run tbprofiler with zero items checked"@,
        AppErrorView::IO(_) => "IO error"@,
    }
}

impl DialogPage {
    /// The error that the dialog shows.
    pub open spec fn error(&self) -> AppErrorView {
        match self {
            DialogPage::Info(error) => error@,
        }
    }

    /// The heading of the dialog.
    pub fn heading(&self) -> (text: String)
        ensures
            text@ == dialog_heading(self.error()),
    {
        match self {
            DialogPage::Info(error) => match error {
                AppError::Configuration(_) => String::from_str("Configuration error"),
                AppError::Authentication(_) => String::from_str("Authentication error"),
                AppError::Network(_) => String::from_str("Network error"),
                AppError::RemoteDirectoryNotFound(_) => String::from_str(
                    "Remote directory not found",
                ),
                AppError::JobSubmission { .. } => String::from_str("Job submission failed"),
                AppError::NoItemsChecked => String::from_str(
                    "Cannot run tbprofiler with zero items checked",
                ),
                AppError::IO(_) => String::from_str("IO error"),
            },
        }
    }

    /// The text under the heading: the error's message.
    pub fn body(&self) -> (text: String)
        ensures
            text@ == message_of(self.error()),
    {
        match self {
            DialogPage::Info(error) => error.message(),
        }
    }
}

} // verus!
