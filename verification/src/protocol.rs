//! The exchange between a remote operation and the driver that performs its
//! requests.
//!
//! An operation never touches the network or the disk. It hands out a
//! `Request`; the driver performs it and hands back a `Reply`; the operation
//! answers with the next `Request`, or with its result.

use crate::types::{AppError, AppErrorView};
use vstd::prelude::*;
use vstd::string::*;

verus! {

/// What a remote command left behind.
#[derive(Clone, Debug, PartialEq, Eq)]
pub struct CommandOutput {
    pub exit_status: u32,
    pub stdout: String,
    pub stderr: String,
}

/// The model of a `CommandOutput`.
pub struct CommandOutputView {
    pub exit_status: u32,
    pub stdout: Seq<char>,
    pub stderr: Seq<char>,
}

impl View for CommandOutput {
    type V = CommandOutputView;

    open spec fn view(&self) -> CommandOutputView {
        CommandOutputView {
            exit_status: self.exit_status,
            stdout: self.stdout@,
            stderr: self.stderr@,
        }
    }
}

/// An entry of a directory: its name, and whether it is a regular file.
#[derive(Clone, Debug, PartialEq, Eq)]
pub struct DirEntry {
    pub file_name: String,
    pub is_file: bool,
}

/// The model of a `DirEntry`.
pub struct DirEntryView {
    pub file_name: Seq<char>,
    pub is_file: bool,
}

impl View for DirEntry {
    type V = DirEntryView;

    open spec fn view(&self) -> DirEntryView {
        DirEntryView { file_name: self.file_name@, is_file: self.is_file }
    }
}

impl DeepView for DirEntry {
    type V = DirEntryView;

    open spec fn deep_view(&self) -> DirEntryView {
        self@
    }
}

/// Why the driver could not perform a request; the text is the diagnostic.
#[derive(Clone, Debug, PartialEq, Eq)]
pub enum Fault {
    /// The connection or the remote side failed.
    Transport(String),
    /// The local file system failed.
    Local(String),
}

/// The model of a `Fault`.
pub enum FaultView {
    Transport(Seq<char>),
    Local(Seq<char>),
}

impl View for Fault {
    type V = FaultView;

    open spec fn view(&self) -> FaultView {
        match self {
            Fault::Transport(detail) => FaultView::Transport(detail@),
            Fault::Local(detail) => FaultView::Local(detail@),
        }
    }
}

/// The error that a fault becomes: a transport fault is a network error, a
/// local fault an I/O error. The message is `context` followed by the
/// fault's diagnostic.
pub open spec fn error_of(context: Seq<char>, fault: FaultView) -> AppErrorView {
    match fault {
        FaultView::Transport(detail) => AppErrorView::Network(context + detail),
        FaultView::Local(detail) => AppErrorView::IO(context + detail),
    }
}

impl Fault {
    /// The error that this fault becomes when it stops what `context` names.
    pub fn into_error(self, context: &str) -> (error: AppError)
        ensures
            error@ == error_of(context@, self@),
    {
        match self {
            Fault::Transport(detail) => AppError::Network(
                String::from_str(context).concat(detail.as_str()),
            ),
            Fault::Local(detail) => AppError::IO(String::from_str(context).concat(detail.as_str())),
        }
    }
}

/// What an operation asks its driver to do.
#[derive(Clone, Debug, PartialEq, Eq)]
pub enum Request {
    /// Look for the private key under the user's home directory. Answered by
    /// `Found` with the key's path, or by `Missing` with the path that was
    /// tried.
    LocateKey,
    /// Open the session: log in as `username` at `host` and `port` with the
    /// key at `key_path`. Answered by `Done`.
    Connect { host: String, port: u16, username: String, key_path: String },
    /// Run one command in a fresh remote execution context. Answered by
    /// `Output`.
    Execute(String),
    /// Open the file-transfer channel of the session. Answered by `Done`.
    OpenTransfer,
    /// List a remote directory over the file-transfer channel. Answered by
    /// `Entries`.
    ReadRemoteDir(String),
    /// Copy the remote file to `file_name` in the local directory. Answered
    /// by `Done`.
    Download { remote_path: String, local_dir: String, file_name: String },
    /// Copy the local file to the remote path. Answered by `Done`.
    Upload { local_path: String, remote_path: String },
    /// Create a local directory and its missing parents. Answered by `Done`.
    CreateLocalDir(String),
    /// List a local directory. Answered by `Entries`, or by `Missing` where
    /// there is no such directory.
    ReadLocalDir(String),
    /// Remove a file of a local directory. Answered by `Done`.
    RemoveLocalFile { dir: String, file_name: String },
    /// Append a line to the error log. Whatever the answer, the operation goes
    /// on.
    Log(String),
}

/// The model of a `Request`.
pub enum RequestView {
    LocateKey,
    Connect { host: Seq<char>, port: u16, username: Seq<char>, key_path: Seq<char> },
    Execute(Seq<char>),
    OpenTransfer,
    ReadRemoteDir(Seq<char>),
    Download { remote_path: Seq<char>, local_dir: Seq<char>, file_name: Seq<char> },
    Upload { local_path: Seq<char>, remote_path: Seq<char> },
    CreateLocalDir(Seq<char>),
    ReadLocalDir(Seq<char>),
    RemoveLocalFile { dir: Seq<char>, file_name: Seq<char> },
    Log(Seq<char>),
}

impl View for Request {
    type V = RequestView;

    open spec fn view(&self) -> RequestView {
        match self {
            Request::LocateKey => RequestView::LocateKey,
            Request::Connect { host, port, username, key_path } => RequestView::Connect {
                host: host@,
                port: *port,
                username: username@,
                key_path: key_path@,
            },
            Request::Execute(command) => RequestView::Execute(command@),
            Request::OpenTransfer => RequestView::OpenTransfer,
            Request::ReadRemoteDir(path) => RequestView::ReadRemoteDir(path@),
            Request::Download { remote_path, local_dir, file_name } => RequestView::Download {
                remote_path: remote_path@,
                local_dir: local_dir@,
                file_name: file_name@,
            },
            Request::Upload { local_path, remote_path } => RequestView::Upload {
                local_path: local_path@,
                remote_path: remote_path@,
            },
            Request::CreateLocalDir(path) => RequestView::CreateLocalDir(path@),
            Request::ReadLocalDir(path) => RequestView::ReadLocalDir(path@),
            Request::RemoveLocalFile { dir, file_name } => RequestView::RemoveLocalFile {
                dir: dir@,
                file_name: file_name@,
            },
            Request::Log(line) => RequestView::Log(line@),
        }
    }
}

impl RequestView {
    /// Whether performing the request reaches the remote side.
    pub open spec fn is_remote(self) -> bool {
        self is Connect || self is Execute || self is OpenTransfer || self is ReadRemoteDir
            || self is Download || self is Upload
    }
}

/// What the driver answers.
#[derive(Clone, Debug, PartialEq, Eq)]
pub enum Reply {
    /// The request was performed and has nothing to show.
    Done,
    /// The command ran; this is what it left.
    Output(CommandOutput),
    /// The directory holds these entries.
    Entries(Vec<DirEntry>),
    /// What was looked for is at this path.
    Found(String),
    /// What was looked for is not there; the text is the path that was tried.
    Missing(String),
    /// The request could not be performed.
    Failed(Fault),
}

/// The model of a `Reply`.
pub enum ReplyView {
    Done,
    Output(CommandOutputView),
    Entries(Seq<DirEntryView>),
    Found(Seq<char>),
    Missing(Seq<char>),
    Failed(FaultView),
}

impl View for Reply {
    type V = ReplyView;

    open spec fn view(&self) -> ReplyView {
        match self {
            Reply::Done => ReplyView::Done,
            Reply::Output(output) => ReplyView::Output(output@),
            Reply::Entries(entries) => ReplyView::Entries(entries.deep_view()),
            Reply::Found(path) => ReplyView::Found(path@),
            Reply::Missing(path) => ReplyView::Missing(path@),
            Reply::Failed(fault) => ReplyView::Failed(fault@),
        }
    }
}

/// Where an operation stands: it waits for the reply to a request, or it has
/// ended with its result.
#[derive(Debug)]
pub enum Step<M, T> {
    /// The driver performs the request and resumes the operation `M` with the
    /// reply.
    Perform(Request, M),
    /// The operation has ended.
    Finish(Result<T, AppError>),
}

/// A remote operation that waits for the reply to a request.
pub trait Operation: Sized {
    /// What the operation yields when it ends well.
    type Output;

    /// Whether `step` may follow when the operation gets `reply`.
    spec fn follows(self, reply: Reply, step: Step<Self, Self::Output>) -> bool;

    /// Takes the reply to the pending request and says what follows.
    fn resume(self, reply: Reply) -> (step: Step<Self, Self::Output>)
        ensures
            self.follows(reply, step),
    ;
}

/// The model of a `Step`.
pub enum StepView<M, T> {
    Perform(RequestView, M),
    Finish(Result<T, AppErrorView>),
}

impl<M: View, T: DeepView> View for Step<M, T> {
    type V = StepView<M::V, T::V>;

    open spec fn view(&self) -> StepView<M::V, T::V> {
        match self {
            Step::Perform(request, operation) => StepView::Perform(request@, operation@),
            Step::Finish(Ok(value)) => StepView::Finish(Ok(value.deep_view())),
            Step::Finish(Err(error)) => StepView::Finish(Err(error@)),
        }
    }
}

impl<M, T> StepView<M, T> {
    /// Whether the step asks for something on the remote side.
    pub open spec fn reaches_remote(self) -> bool {
        self matches StepView::Perform(request, _) && request.is_remote()
    }
}

/// The error of an operation that got a reply which does not answer its
/// request.
pub open spec fn unexpected_reply() -> AppErrorView {
    AppErrorView::Network("Unexpected reply from the session driver"@)
}

/// The error of an operation that got a reply which does not answer its
/// request.
pub fn unexpected() -> (error: AppError)
    ensures
        error@ == unexpected_reply(),
{
    AppError::Network(String::from_str("Unexpected reply from the session driver"))
}

} // verus!
