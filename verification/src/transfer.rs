//! The copy of one remote file to a local path, chunk by chunk.

use crate::protocol::{error_of, unexpected, unexpected_reply, Fault, FaultView};
use crate::types::{AppError, AppErrorView};
use vstd::prelude::*;
use vstd::string::*;

verus! {

/// How many bytes a copy asks for at a time.
pub const CHUNK_SIZE: usize = 4096;

/// What a failed copy is reported with.
pub const COPY_FAILED: &'static str = "Failed to copy file: ";

/// What a copy asks its driver to do.
#[derive(Clone, Debug, PartialEq, Eq)]
pub enum CopyRequest {
    /// Open the remote file at this path for reading. Answered by `Done`.
    OpenRemote(String),
    /// Create the missing directories above the local path. Answered by
    /// `Done`.
    CreateParentDirs(String),
    /// Create the local file at this path, or empty the one that is there.
    /// Answered by `Done`.
    CreateLocal(String),
    /// Read at most this many bytes from where the last read ended. Answered
    /// by `Chunk`, with no bytes at the end of the file.
    Read(usize),
    /// Append these bytes to the local file. Answered by `Done`.
    Write(Vec<u8>),
}

/// The model of a `CopyRequest`.
pub enum CopyRequestView {
    OpenRemote(Seq<char>),
    CreateParentDirs(Seq<char>),
    CreateLocal(Seq<char>),
    Read(usize),
    Write(Seq<u8>),
}

impl View for CopyRequest {
    type V = CopyRequestView;

    open spec fn view(&self) -> CopyRequestView {
        match self {
            CopyRequest::OpenRemote(path) => CopyRequestView::OpenRemote(path@),
            CopyRequest::CreateParentDirs(path) => CopyRequestView::CreateParentDirs(path@),
            CopyRequest::CreateLocal(path) => CopyRequestView::CreateLocal(path@),
            CopyRequest::Read(limit) => CopyRequestView::Read(*limit),
            CopyRequest::Write(bytes) => CopyRequestView::Write(bytes@),
        }
    }
}

/// What the driver of a copy answers.
#[derive(Clone, Debug, PartialEq, Eq)]
pub enum CopyReply {
    /// The request was performed and has nothing to show.
    Done,
    /// The bytes that were read; none at the end of the file.
    Chunk(Vec<u8>),
    /// The request could not be performed.
    Failed(Fault),
}

/// The model of a `CopyReply`.
pub enum CopyReplyView {
    Done,
    Chunk(Seq<u8>),
    Failed(FaultView),
}

impl View for CopyReply {
    type V = CopyReplyView;

    open spec fn view(&self) -> CopyReplyView {
        match self {
            CopyReply::Done => CopyReplyView::Done,
            CopyReply::Chunk(bytes) => CopyReplyView::Chunk(bytes@),
            CopyReply::Failed(fault) => CopyReplyView::Failed(fault@),
        }
    }
}

/// The copy of a file: where it stands.
#[derive(Debug)]
pub enum FileCopy {
    /// Asked for the remote file to be opened.
    Opening { local_path: String },
    /// Asked for the directories above the local path.
    Preparing { local_path: String },
    /// Asked for the local file to be created.
    Creating,
    /// Asked for the next chunk.
    Reading,
    /// Asked for the last chunk to be written.
    Writing,
}

/// The model of a `FileCopy`.
pub enum FileCopyView {
    Opening { local_path: Seq<char> },
    Preparing { local_path: Seq<char> },
    Creating,
    Reading,
    Writing,
}

impl View for FileCopy {
    type V = FileCopyView;

    open spec fn view(&self) -> FileCopyView {
        match self {
            FileCopy::Opening { local_path } => FileCopyView::Opening { local_path: local_path@ },
            FileCopy::Preparing { local_path } => FileCopyView::Preparing {
                local_path: local_path@,
            },
            FileCopy::Creating => FileCopyView::Creating,
            FileCopy::Reading => FileCopyView::Reading,
            FileCopy::Writing => FileCopyView::Writing,
        }
    }
}

/// Where a copy stands: it waits for the reply to a request, or it has ended.
#[derive(Debug)]
pub enum CopyStep {
    Perform(CopyRequest, FileCopy),
    Finish(Result<(), AppError>),
}

/// The model of a `CopyStep`.
pub enum CopyStepView {
    Perform(CopyRequestView, FileCopyView),
    Finish(Result<(), AppErrorView>),
}

impl View for CopyStep {
    type V = CopyStepView;

    open spec fn view(&self) -> CopyStepView {
        match self {
            CopyStep::Perform(request, copy) => CopyStepView::Perform(request@, copy@),
            CopyStep::Finish(Ok(())) => CopyStepView::Finish(Ok(())),
            CopyStep::Finish(Err(error)) => CopyStepView::Finish(Err(error@)),
        }
    }
}

/// The step that asks for the next chunk.
pub open spec fn copy_read() -> CopyStepView {
    CopyStepView::Perform(CopyRequestView::Read(CHUNK_SIZE), FileCopyView::Reading)
}

/// What follows when a copy, standing at `at`, gets `reply`. The remote file
/// is opened, the directories above the local path are made, the local file
/// is created; then chunks are read and written in turn until a read brings
/// no bytes, which ends the copy. Any failure ends it with an error.
pub open spec fn copy_next(at: FileCopyView, reply: CopyReplyView) -> CopyStepView {
    match (at, reply) {
        (_, CopyReplyView::Failed(fault)) => CopyStepView::Finish(
            Err(error_of(COPY_FAILED@, fault)),
        ),
        (FileCopyView::Opening { local_path }, CopyReplyView::Done) => CopyStepView::Perform(
            CopyRequestView::CreateParentDirs(local_path),
            FileCopyView::Preparing { local_path },
        ),
        (FileCopyView::Preparing { local_path }, CopyReplyView::Done) => CopyStepView::Perform(
            CopyRequestView::CreateLocal(local_path),
            FileCopyView::Creating,
        ),
        (FileCopyView::Creating, CopyReplyView::Done) => copy_read(),
        (FileCopyView::Reading, CopyReplyView::Chunk(bytes)) => if bytes.len() == 0 {
            CopyStepView::Finish(Ok(()))
        } else {
            CopyStepView::Perform(CopyRequestView::Write(bytes), FileCopyView::Writing)
        },
        (FileCopyView::Writing, CopyReplyView::Done) => copy_read(),
        _ => CopyStepView::Finish(Err(unexpected_reply())),
    }
}

impl FileCopy {
    /// Takes the reply to the pending request and says what follows.
    pub fn resume(self, reply: CopyReply) -> (step: CopyStep)
        ensures
            step@ == copy_next(self@, reply@),
    {
        match reply {
            CopyReply::Failed(fault) => CopyStep::Finish(Err(fault.into_error(COPY_FAILED))),
            CopyReply::Done => match self {
                FileCopy::Opening { local_path } => CopyStep::Perform(
                    CopyRequest::CreateParentDirs(local_path.clone()),
                    FileCopy::Preparing { local_path },
                ),
                FileCopy::Preparing { local_path } => CopyStep::Perform(
                    CopyRequest::CreateLocal(local_path),
                    FileCopy::Creating,
                ),
                FileCopy::Creating => CopyStep::Perform(
                    CopyRequest::Read(CHUNK_SIZE),
                    FileCopy::Reading,
                ),
                FileCopy::Writing => CopyStep::Perform(
                    CopyRequest::Read(CHUNK_SIZE),
                    FileCopy::Reading,
                ),
                FileCopy::Reading => CopyStep::Finish(Err(unexpected())),
            },
            CopyReply::Chunk(bytes) => match self {
                FileCopy::Reading => {
                    if bytes.len() == 0 {
                        CopyStep::Finish(Ok(()))
                    } else {
                        CopyStep::Perform(CopyRequest::Write(bytes), FileCopy::Writing)
                    }
                },
                _ => CopyStep::Finish(Err(unexpected())),
            },
        }
    }
}

/// Starts the copy of the remote file at `remote_file_path` to the local
/// path `local_file_path`. A file that is already there is overwritten.
pub fn download_file(remote_file_path: &str, local_file_path: &str) -> (step: CopyStep)
    ensures
        step@ == CopyStepView::Perform(
            CopyRequestView::OpenRemote(remote_file_path@),
            FileCopyView::Opening { local_path: local_file_path@ },
        ),
{
    CopyStep::Perform(
        CopyRequest::OpenRemote(String::from_str(remote_file_path)),
        FileCopy::Opening { local_path: String::from_str(local_file_path) },
    )
}

/// All the chunks in one sequence of bytes.
pub open spec fn flattened(chunks: Seq<Seq<u8>>) -> Seq<u8>
    decreases chunks.len(),
{
    if chunks.len() == 0 {
        Seq::empty()
    } else {
        chunks[0] + flattened(chunks.drop_first())
    }
}

/// What a copy has written when its reads brought `chunks` in turn and every
/// write went well: the chunks that it asked to be written, in order, each
/// appended to the file.
pub open spec fn written(chunks: Seq<Seq<u8>>) -> Seq<u8>
    decreases chunks.len(),
{
    if chunks.len() == 0 {
        Seq::empty()
    } else {
        match copy_next(FileCopyView::Reading, CopyReplyView::Chunk(chunks[0])) {
            CopyStepView::Perform(CopyRequestView::Write(bytes), FileCopyView::Writing) => {
                if copy_next(FileCopyView::Writing, CopyReplyView::Done) == copy_read() {
                    bytes + written(chunks.drop_first())
                } else {
                    bytes
                }
            },
            _ => Seq::empty(),
        }
    }
}

/// Whether a copy has ended well when its reads brought `chunks` in turn and
/// every write went well.
pub open spec fn ended_well(chunks: Seq<Seq<u8>>) -> bool
    decreases chunks.len(),
{
    if chunks.len() == 0 {
        false
    } else {
        match copy_next(FileCopyView::Reading, CopyReplyView::Chunk(chunks[0])) {
            CopyStepView::Finish(Ok(())) => chunks.len() == 1,
            CopyStepView::Perform(CopyRequestView::Write(_), FileCopyView::Writing) => copy_next(
                FileCopyView::Writing,
                CopyReplyView::Done,
            ) == copy_read() && ended_well(chunks.drop_first()),
            _ => false,
        }
    }
}

/// Whether `chunks` is what the reads of a file bring: pieces with bytes in
/// them, then one without.
pub open spec fn reads_to_end(chunks: Seq<Seq<u8>>) -> bool {
    &&& chunks.len() >= 1
    &&& chunks.last().len() == 0
    &&& forall|i: int| 0 <= i < chunks.len() - 1 ==> (#[trigger] chunks[i]).len() > 0
}

/// A copy is faithful: when the reads bring the remote file piece by piece
/// to its end and every write goes well, the copy ends well, and what it has
/// written is the remote file, byte for byte.
pub proof fn lemma_copy_is_faithful(chunks: Seq<Seq<u8>>)
    requires
        reads_to_end(chunks),
    ensures
        ended_well(chunks),
        written(chunks) == flattened(chunks),
    decreases chunks.len(),
{
    if chunks.len() == 1 {
        assert(chunks[0] == chunks.last());
        assert(flattened(chunks.drop_first()) =~= Seq::<u8>::empty());
        assert(flattened(chunks) =~= Seq::<u8>::empty());
    } else {
        let rest = chunks.drop_first();
        assert(rest.last() == chunks.last());
        assert forall|i: int| 0 <= i < rest.len() - 1 implies (#[trigger] rest[i]).len() > 0 by {
            assert(rest[i] == chunks[i + 1]);
        }
        assert(chunks[0].len() > 0);
        lemma_copy_is_faithful(rest);
    }
}

} // verus!
