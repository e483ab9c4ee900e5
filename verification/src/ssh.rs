//! The remote operations: listing the samples, submitting the job, and
//! bringing home or deleting its results.
//!
//! Each operation starts from the configuration and is resumed with the
//! driver's replies until it ends. A setting that is needed and not set ends
//! the operation before its first request.

use crate::command::{
    existence_check, existence_command, listing, listing_command, output_reports_existing,
    remote_file, remote_path, removal, removal_command, reports_existing, results_dir,
    results_directory, submission, submission_command, ARTIFACT_SUFFIX,
};
use crate::config::{ConfigField, TbguiConfig, TbguiConfigView};
use crate::model::sample::{create_sample_tasks, is_discovery, Sample, SampleView};
use crate::protocol::{
    error_of, unexpected, unexpected_reply, DirEntry, DirEntryView, Operation, Reply, ReplyView,
    Request, RequestView, Step, StepView,
};
use crate::text::{ends_with, has_suffix, lemma_empty_suffix, lines, split_lines};
use crate::types::{message_of, AppError, AppErrorView};
use vstd::prelude::*;
use vstd::string::*;

verus! {

/// What a failed existence check is reported with.
pub const PROBE_FAILED: &'static str = "Failed to check if remote directory exists: ";

/// What a failed listing is reported with.
pub const LISTING_FAILED: &'static str = "Failed to list files in remote directory: ";

/// The listing of the samples: where it stands.
#[derive(Debug)]
pub enum RawReads {
    /// Asked whether the raw-read directory `dir` exists.
    Probing { dir: String },
    /// Asked for the listing of the directory.
    Listing,
    /// Asked for `error` to be logged; it is returned next.
    Reporting { error: AppError },
}

/// The model of a `RawReads`.
pub enum RawReadsView {
    Probing { dir: Seq<char> },
    Listing,
    Reporting { error: AppErrorView },
}

impl View for RawReads {
    type V = RawReadsView;

    open spec fn view(&self) -> RawReadsView {
        match self {
            RawReads::Probing { dir } => RawReadsView::Probing { dir: dir@ },
            RawReads::Listing => RawReadsView::Listing,
            RawReads::Reporting { error } => RawReadsView::Reporting { error: error@ },
        }
    }
}

/// The first step of the listing of the samples.
pub open spec fn raw_reads_start(config: TbguiConfigView) -> StepView<
    RawReadsView,
    Seq<SampleView>,
> {
    match config.remote_raw_dir {
        None => StepView::Finish(Err(AppErrorView::Configuration(ConfigField::RemoteRawDir))),
        Some(dir) => StepView::Perform(
            RequestView::Execute(existence_command(dir)),
            RawReadsView::Probing { dir },
        ),
    }
}

/// The step that ends the listing of the samples with `error`.
pub open spec fn raw_reads_end(error: AppErrorView) -> StepView<RawReadsView, Seq<SampleView>> {
    StepView::Finish(Err(error))
}

/// The step that has `error` logged before the listing fails with it.
pub open spec fn raw_reads_report(error: AppErrorView) -> StepView<RawReadsView, Seq<SampleView>> {
    StepView::Perform(RequestView::Log(message_of(error)), RawReadsView::Reporting { error })
}

/// Whether `step` may follow when the listing of the samples, standing at
/// `at`, gets `reply`. All is fixed but the ids of the samples.
pub open spec fn raw_reads_next(
    at: RawReadsView,
    reply: ReplyView,
    step: StepView<RawReadsView, Seq<SampleView>>,
) -> bool {
    match at {
        RawReadsView::Probing { dir } => match reply {
            ReplyView::Output(output) => step == if reports_existing(output.stdout) {
                StepView::Perform(
                    RequestView::Execute(listing_command(dir)),
                    RawReadsView::Listing,
                )
            } else {
                raw_reads_report(AppErrorView::RemoteDirectoryNotFound(dir))
            },
            ReplyView::Failed(fault) => step == raw_reads_report(error_of(PROBE_FAILED@, fault)),
            _ => step == raw_reads_end(unexpected_reply()),
        },
        RawReadsView::Listing => match reply {
            ReplyView::Output(output) => {
                &&& step matches StepView::Finish(Ok(samples))
                &&& is_discovery(lines(output.stdout), samples)
            },
            ReplyView::Failed(fault) => step == raw_reads_report(
                error_of(LISTING_FAILED@, fault),
            ),
            _ => step == raw_reads_end(unexpected_reply()),
        },
        RawReadsView::Reporting { error } => step == raw_reads_end(error),
    }
}

impl RawReads {
    fn report(error: AppError) -> (step: Step<RawReads, Vec<Sample>>)
        ensures
            step@ == raw_reads_report(error@),
    {
        Step::Perform(Request::Log(error.message()), RawReads::Reporting { error })
    }
}

impl Operation for RawReads {
    type Output = Vec<Sample>;

    open spec fn follows(self, reply: Reply, step: Step<RawReads, Vec<Sample>>) -> bool {
        raw_reads_next(self@, reply@, step@)
    }

    fn resume(self, reply: Reply) -> (step: Step<RawReads, Vec<Sample>>)
        ensures
            raw_reads_next(self@, reply@, step@),
    {
        match self {
            RawReads::Probing { dir } => match reply {
                Reply::Output(output) => {
                    if output_reports_existing(output.stdout.as_str()) {
                        Step::Perform(Request::Execute(listing(dir.as_str())), RawReads::Listing)
                    } else {
                        RawReads::report(AppError::RemoteDirectoryNotFound(dir))
                    }
                },
                Reply::Failed(fault) => RawReads::report(fault.into_error(PROBE_FAILED)),
                _ => Step::Finish(Err(unexpected())),
            },
            RawReads::Listing => match reply {
                Reply::Output(output) => {
                    let reads = split_lines(output.stdout.as_str());
                    Step::Finish(Ok(create_sample_tasks(reads)))
                },
                Reply::Failed(fault) => RawReads::report(fault.into_error(LISTING_FAILED)),
                _ => Step::Finish(Err(unexpected())),
            },
            RawReads::Reporting { error } => Step::Finish(Err(error)),
        }
    }
}

impl Sample {
    /// Starts the listing of the samples: the raw-read directory is checked,
    /// then listed, and each sample name in the listing becomes a sample.
    pub fn get_raw_reads(config: &TbguiConfig) -> (step: Step<RawReads, Vec<Sample>>)
        ensures
            step@ == raw_reads_start(config@),
    {
        match config.require(ConfigField::RemoteRawDir) {
            Ok(dir) => Step::Perform(
                Request::Execute(existence_check(dir.as_str())),
                RawReads::Probing { dir: dir.clone() },
            ),
            Err(error) => Step::Finish(Err(error)),
        }
    }
}

/// What the failure of a remote command is reported with.
pub const COMMAND_FAILED: &'static str = "Remote command failed: ";

/// What separates the sample names in the argument of the job.
pub const SAMPLE_SEPARATOR: &'static str = ",";

/// The names of the selected samples, in order.
pub open spec fn checked_titles(samples: Seq<SampleView>) -> Seq<Seq<char>>
    decreases samples.len(),
{
    if samples.len() == 0 {
        Seq::empty()
    } else {
        let before = checked_titles(samples.drop_last());
        if samples.last().checked {
            before.push(samples.last().title)
        } else {
            before
        }
    }
}

/// The names in one text, with `separator` between each two.
pub open spec fn joined(names: Seq<Seq<char>>, separator: Seq<char>) -> Seq<char>
    decreases names.len(),
{
    if names.len() == 0 {
        Seq::empty()
    } else if names.len() == 1 {
        names[0]
    } else {
        joined(names.drop_last(), separator) + separator + names.last()
    }
}

/// What a job is submitted with: how many samples are selected, and their
/// names in one text. It is made anew for each submission.
#[derive(Clone, Debug, PartialEq, Eq)]
pub struct JobSubmissionRequest {
    pub checked_count: usize,
    pub samples: String,
}

impl JobSubmissionRequest {
    /// The request for the samples that are selected now.
    pub fn from_samples(samples: &Vec<Sample>) -> (request: JobSubmissionRequest)
        ensures
            request.checked_count == checked_titles(samples.deep_view()).len(),
            request.samples@ == joined(checked_titles(samples.deep_view()), SAMPLE_SEPARATOR@),
    {
        let ghost all = samples.deep_view();
        let mut count: usize = 0;
        let mut names = String::new();
        let mut n: usize = 0;
        assert(all.take(0) =~= Seq::<SampleView>::empty());
        while n < samples.len()
            invariant
                n <= samples.len(),
                all == samples.deep_view(),
                count <= n,
                count == checked_titles(all.take(n as int)).len(),
                names@ == joined(checked_titles(all.take(n as int)), SAMPLE_SEPARATOR@),
            decreases samples.len() - n,
        {
            proof {
                assert(all.take(n + 1).drop_last() =~= all.take(n as int));
                assert(all.take(n + 1).last() == samples[n as int]@);
            }
            if samples[n].checked {
                let ghost before = checked_titles(all.take(n as int));
                proof {
                    assert(before.push(samples[n as int]@.title).drop_last() =~= before);
                }
                if count > 0 {
                    names = names.concat(SAMPLE_SEPARATOR);
                }
                names = names.concat(samples[n].title.as_str());
                count += 1;
                proof {
                    if before.len() == 0 {
                        assert(names@ =~= samples[n as int]@.title);
                    }
                }
            }
            n += 1;
        }
        assert(all.take(n as int) =~= all);
        JobSubmissionRequest { checked_count: count, samples: names }
    }
}

/// The submission of the job: where it stands.
#[derive(Debug)]
pub enum Submission {
    /// Handed the job to the scheduler.
    Submitting,
}

/// The model of a `Submission`.
pub enum SubmissionView {
    Submitting,
}

impl View for Submission {
    type V = SubmissionView;

    open spec fn view(&self) -> SubmissionView {
        SubmissionView::Submitting
    }
}

/// The first step of a submission. With no sample selected it fails at once;
/// so it does, naming the setting, where the script, the raw-read directory,
/// the output directory or the user's template is not set.
pub open spec fn submission_start(
    items_checked: nat,
    samples: Seq<char>,
    config: TbguiConfigView,
) -> StepView<SubmissionView, Seq<char>> {
    if items_checked == 0 {
        StepView::Finish(Err(AppErrorView::NoItemsChecked))
    } else if config.tb_profiler_script is None {
        StepView::Finish(Err(AppErrorView::Configuration(ConfigField::TbProfilerScript)))
    } else if config.remote_raw_dir is None {
        StepView::Finish(Err(AppErrorView::Configuration(ConfigField::RemoteRawDir)))
    } else if config.remote_out_dir is None {
        StepView::Finish(Err(AppErrorView::Configuration(ConfigField::RemoteOutDir)))
    } else if config.user_template_remote is None {
        StepView::Finish(Err(AppErrorView::Configuration(ConfigField::UserTemplateRemote)))
    } else {
        StepView::Perform(
            RequestView::Execute(
                submission_command(
                    items_checked,
                    config.tb_profiler_script->0,
                    samples,
                    config.remote_raw_dir->0,
                    config.remote_out_dir->0,
                    config.user_template_remote->0,
                ),
            ),
            SubmissionView::Submitting,
        )
    }
}

/// What follows when the scheduler has answered: its output where it exited
/// with 0, else the failure of the submission with all that it printed.
pub open spec fn submission_next(reply: ReplyView) -> StepView<SubmissionView, Seq<char>> {
    match reply {
        ReplyView::Output(output) => if output.exit_status != 0 {
            StepView::Finish(
                Err(
                    AppErrorView::JobSubmission {
                        exit_status: output.exit_status,
                        stdout: output.stdout,
                        stderr: output.stderr,
                    },
                ),
            )
        } else {
            StepView::Finish(Ok(output.stdout))
        },
        ReplyView::Failed(fault) => StepView::Finish(Err(error_of(COMMAND_FAILED@, fault))),
        _ => StepView::Finish(Err(unexpected_reply())),
    }
}

impl Operation for Submission {
    type Output = String;

    open spec fn follows(self, reply: Reply, step: Step<Submission, String>) -> bool {
        step@ == submission_next(reply@)
    }

    fn resume(self, reply: Reply) -> (step: Step<Submission, String>)
        ensures
            step@ == submission_next(reply@),
    {
        match reply {
            Reply::Output(output) => {
                if output.exit_status != 0 {
                    Step::Finish(
                        Err(
                            AppError::JobSubmission {
                                exit_status: output.exit_status,
                                stdout: output.stdout,
                                stderr: output.stderr,
                            },
                        ),
                    )
                } else {
                    Step::Finish(Ok(output.stdout))
                }
            },
            Reply::Failed(fault) => Step::Finish(Err(fault.into_error(COMMAND_FAILED))),
            _ => Step::Finish(Err(unexpected())),
        }
    }
}

/// Starts the submission of an array job over `items_checked` samples, whose
/// names `samples` holds.
pub fn run_tbprofiler(items_checked: usize, samples: String, config: &TbguiConfig) -> (step: Step<
    Submission,
    String,
>)
    ensures
        step@ == submission_start(items_checked as nat, samples@, config@),
{
    if items_checked == 0 {
        return Step::Finish(Err(AppError::NoItemsChecked));
    }
    let script = match config.require(ConfigField::TbProfilerScript) {
        Ok(script) => script,
        Err(error) => {
            return Step::Finish(Err(error));
        },
    };
    let raw_dir = match config.require(ConfigField::RemoteRawDir) {
        Ok(raw_dir) => raw_dir,
        Err(error) => {
            return Step::Finish(Err(error));
        },
    };
    let out_dir = match config.require(ConfigField::RemoteOutDir) {
        Ok(out_dir) => out_dir,
        Err(error) => {
            return Step::Finish(Err(error));
        },
    };
    let template = match config.require(ConfigField::UserTemplateRemote) {
        Ok(template) => template,
        Err(error) => {
            return Step::Finish(Err(error));
        },
    };
    Step::Perform(
        Request::Execute(
            submission(
                items_checked,
                script.as_str(),
                samples.as_str(),
                raw_dir.as_str(),
                out_dir.as_str(),
                template.as_str(),
            ),
        ),
        Submission::Submitting,
    )
}

/// What a failure to open the file-transfer channel is reported with.
pub const TRANSFER_FAILED: &'static str = "Failed to open the transfer channel: ";

/// What a failure to create a local directory is reported with.
pub const LOCAL_DIR_FAILED: &'static str = "Failed to create local directory: ";

/// What a failure to list a remote directory over the file-transfer channel
/// is reported with.
pub const REMOTE_LIST_FAILED: &'static str = "Failed to list remote directory: ";

/// What a failed download is reported with.
pub const DOWNLOAD_FAILED: &'static str = "Failed to download file: ";

/// What a failed upload is reported with.
pub const UPLOAD_FAILED: &'static str = "Failed to upload file: ";

/// What a failure to list a local directory is reported with.
pub const LOCAL_LIST_FAILED: &'static str = "Failed to read local directory: ";

/// What a failure to remove a local file is reported with.
pub const LOCAL_REMOVE_FAILED: &'static str = "Failed to remove local file: ";

/// The warning that is logged when the remote removal exits with an error.
pub const REMOVAL_WARNING: &'static str =
    "Remote directory may be empty. Failed to delete files on remote: ";

/// The names of the regular files among the entries whose name ends with
/// `suffix`, in the order of the listing.
pub open spec fn entries_of_type(entries: Seq<DirEntryView>, suffix: Seq<char>) -> Seq<Seq<char>>
    decreases entries.len(),
{
    if entries.len() == 0 {
        Seq::empty()
    } else {
        let before = entries_of_type(entries.drop_last(), suffix);
        if entries.last().is_file && has_suffix(entries.last().file_name, suffix) {
            before.push(entries.last().file_name)
        } else {
            before
        }
    }
}

/// The names of the regular files among the entries: every name ends with
/// the empty text.
pub open spec fn regular_files(entries: Seq<DirEntryView>) -> Seq<Seq<char>> {
    entries_of_type(entries, Seq::empty())
}

/// Among the regular files none is left out: an entry that is a regular file
/// adds its name, whatever the name, and any other entry adds nothing.
pub proof fn lemma_regular_files(entries: Seq<DirEntryView>, entry: DirEntryView)
    ensures
        regular_files(entries.push(entry)) == if entry.is_file {
            regular_files(entries).push(entry.file_name)
        } else {
            regular_files(entries)
        },
{
    lemma_empty_suffix(entry.file_name);
    assert(entries.push(entry).drop_last() =~= entries);
}

/// The names of the reports among the entries: the regular files whose name
/// ends with the artifact suffix.
pub open spec fn artifacts(entries: Seq<DirEntryView>) -> Seq<Seq<char>> {
    entries_of_type(entries, ARTIFACT_SUFFIX@)
}

/// Picks from the entries of a directory the regular files whose name ends
/// with `suffix`, and gives their names in the order of the listing.
pub fn list_remote_entries_of_type(entries: &Vec<DirEntry>, suffix: &str) -> (names: Vec<String>)
    ensures
        names.deep_view() == entries_of_type(entries.deep_view(), suffix@),
{
    let ghost all = entries.deep_view();
    let mut names: Vec<String> = Vec::new();
    let mut n: usize = 0;
    proof {
        assert(all.take(0) =~= Seq::<DirEntryView>::empty());
        assert(names.deep_view() =~= entries_of_type(all.take(0), suffix@));
    }
    while n < entries.len()
        invariant
            n <= entries.len(),
            all == entries.deep_view(),
            names.deep_view() == entries_of_type(all.take(n as int), suffix@),
        decreases entries.len() - n,
    {
        let entry = &entries[n];
        proof {
            assert(all.take(n + 1).drop_last() =~= all.take(n as int));
            assert(all.take(n + 1).last() == entries[n as int]@);
        }
        if entry.is_file && ends_with(entry.file_name.as_str(), suffix) {
            let ghost before = names.deep_view();
            let name = entry.file_name.clone();
            names.push(name);
            assert(names.deep_view() =~= before.push(entry.file_name@));
        }
        n += 1;
    }
    assert(all.take(n as int) =~= all);
    names
}

/// The deletion of the results: where it stands.
#[derive(Debug)]
pub enum Deletion {
    /// Asked for a listing of the output directory, to see that it is there.
    Probing { out_dir: String, local_dir: String },
    /// Asked for the output directory to be removed.
    Removing { local_dir: String },
    /// Asked for the warning to be logged that the removal exited with an
    /// error.
    Warned { local_dir: String },
    /// Asked for the entries of the local results directory.
    Reading { local_dir: String },
    /// Removing the local files: the first `next` of `files` have been asked
    /// for.
    Sweeping { local_dir: String, files: Vec<String>, next: usize },
    /// Asked for `error` to be logged; it is returned next.
    Reporting { error: AppError },
}

/// The model of a `Deletion`.
pub enum DeletionView {
    Probing { out_dir: Seq<char>, local_dir: Seq<char> },
    Removing { local_dir: Seq<char> },
    Warned { local_dir: Seq<char> },
    Reading { local_dir: Seq<char> },
    Sweeping { local_dir: Seq<char>, files: Seq<Seq<char>>, next: usize },
    Reporting { error: AppErrorView },
}

impl View for Deletion {
    type V = DeletionView;

    open spec fn view(&self) -> DeletionView {
        match self {
            Deletion::Probing { out_dir, local_dir } => DeletionView::Probing {
                out_dir: out_dir@,
                local_dir: local_dir@,
            },
            Deletion::Removing { local_dir } => DeletionView::Removing { local_dir: local_dir@ },
            Deletion::Warned { local_dir } => DeletionView::Warned { local_dir: local_dir@ },
            Deletion::Reading { local_dir } => DeletionView::Reading { local_dir: local_dir@ },
            Deletion::Sweeping { local_dir, files, next } => DeletionView::Sweeping {
                local_dir: local_dir@,
                files: files.deep_view(),
                next: *next,
            },
            Deletion::Reporting { error } => DeletionView::Reporting { error: error@ },
        }
    }
}

/// The first step of the deletion of the results.
pub open spec fn deletion_start(config: TbguiConfigView, local_dir: Seq<char>) -> StepView<
    DeletionView,
    (),
> {
    match config.remote_out_dir {
        None => StepView::Finish(Err(AppErrorView::Configuration(ConfigField::RemoteOutDir))),
        Some(out_dir) => StepView::Perform(
            RequestView::Execute(listing_command(out_dir)),
            DeletionView::Probing { out_dir, local_dir },
        ),
    }
}

/// The step that removes the next local file, or ends the deletion when none
/// is left.
pub open spec fn deletion_sweep(
    local_dir: Seq<char>,
    files: Seq<Seq<char>>,
    next: usize,
) -> StepView<DeletionView, ()> {
    if next < files.len() {
        StepView::Perform(
            RequestView::RemoveLocalFile { dir: local_dir, file_name: files[next as int] },
            DeletionView::Sweeping { local_dir, files, next: (next + 1) as usize },
        )
    } else {
        StepView::Finish(Ok(()))
    }
}

/// The step that asks for the entries of the local results directory.
pub open spec fn deletion_read(local_dir: Seq<char>) -> StepView<DeletionView, ()> {
    StepView::Perform(RequestView::ReadLocalDir(local_dir), DeletionView::Reading { local_dir })
}

/// The step that has `error` logged before the deletion fails with it.
pub open spec fn deletion_report(error: AppErrorView) -> StepView<DeletionView, ()> {
    StepView::Perform(RequestView::Log(message_of(error)), DeletionView::Reporting { error })
}

/// What follows when the deletion of the results, standing at `at`, gets
/// `reply`. An output directory that cannot be listed is not found; a listing
/// that cannot be run is logged and then returned. A removal that exits with
/// an error is logged as a warning and stops nothing. Of the
/// local results directory the regular files are removed, one by one; where
/// there is no such directory, the deletion ends well.
pub open spec fn deletion_next(at: DeletionView, reply: ReplyView) -> StepView<DeletionView, ()> {
    match at {
        DeletionView::Probing { out_dir, local_dir } => match reply {
            ReplyView::Output(output) => if output.exit_status != 0 {
                StepView::Finish(Err(AppErrorView::RemoteDirectoryNotFound(out_dir)))
            } else {
                StepView::Perform(
                    RequestView::Execute(removal_command(out_dir)),
                    DeletionView::Removing { local_dir },
                )
            },
            ReplyView::Failed(fault) => deletion_report(error_of(LISTING_FAILED@, fault)),
            _ => StepView::Finish(Err(unexpected_reply())),
        },
        DeletionView::Removing { local_dir } => match reply {
            ReplyView::Output(output) => if output.exit_status != 0 {
                StepView::Perform(
                    RequestView::Log(REMOVAL_WARNING@ + output.stderr),
                    DeletionView::Warned { local_dir },
                )
            } else {
                deletion_read(local_dir)
            },
            ReplyView::Failed(fault) => StepView::Finish(Err(error_of(COMMAND_FAILED@, fault))),
            _ => StepView::Finish(Err(unexpected_reply())),
        },
        DeletionView::Warned { local_dir } => deletion_read(local_dir),
        DeletionView::Reading { local_dir } => match reply {
            ReplyView::Missing(_) => StepView::Finish(Ok(())),
            ReplyView::Entries(entries) => deletion_sweep(local_dir, regular_files(entries), 0),
            ReplyView::Failed(fault) => StepView::Finish(
                Err(error_of(LOCAL_LIST_FAILED@, fault)),
            ),
            _ => StepView::Finish(Err(unexpected_reply())),
        },
        DeletionView::Sweeping { local_dir, files, next } => match reply {
            ReplyView::Done => deletion_sweep(local_dir, files, next),
            ReplyView::Failed(fault) => StepView::Finish(
                Err(error_of(LOCAL_REMOVE_FAILED@, fault)),
            ),
            _ => StepView::Finish(Err(unexpected_reply())),
        },
        DeletionView::Reporting { error } => StepView::Finish(Err(error)),
    }
}

impl Deletion {
    fn sweep(local_dir: String, files: Vec<String>, next: usize) -> (step: Step<Deletion, ()>)
        ensures
            step@ == deletion_sweep(local_dir@, files.deep_view(), next),
    {
        if next < files.len() {
            let file_name = files[next].clone();
            assert(files.deep_view()[next as int] == files[next as int]@);
            Step::Perform(
                Request::RemoveLocalFile { dir: local_dir.clone(), file_name },
                Deletion::Sweeping { local_dir, files, next: next + 1 },
            )
        } else {
            Step::Finish(Ok(()))
        }
    }

    fn read(local_dir: String) -> (step: Step<Deletion, ()>)
        ensures
            step@ == deletion_read(local_dir@),
    {
        Step::Perform(Request::ReadLocalDir(local_dir.clone()), Deletion::Reading { local_dir })
    }
}

impl Operation for Deletion {
    type Output = ();

    open spec fn follows(self, reply: Reply, step: Step<Deletion, ()>) -> bool {
        step@ == deletion_next(self@, reply@)
    }

    fn resume(self, reply: Reply) -> (step: Step<Deletion, ()>)
        ensures
            step@ == deletion_next(self@, reply@),
    {
        match self {
            Deletion::Probing { out_dir, local_dir } => match reply {
                Reply::Output(output) => {
                    if output.exit_status != 0 {
                        Step::Finish(Err(AppError::RemoteDirectoryNotFound(out_dir)))
                    } else {
                        Step::Perform(
                            Request::Execute(removal(out_dir.as_str())),
                            Deletion::Removing { local_dir },
                        )
                    }
                },
                Reply::Failed(fault) => {
                    let error = fault.into_error(LISTING_FAILED);
                    Step::Perform(Request::Log(error.message()), Deletion::Reporting { error })
                },
                _ => Step::Finish(Err(unexpected())),
            },
            Deletion::Removing { local_dir } => match reply {
                Reply::Output(output) => {
                    if output.exit_status != 0 {
                        Step::Perform(
                            Request::Log(
                                String::from_str(REMOVAL_WARNING).concat(output.stderr.as_str()),
                            ),
                            Deletion::Warned { local_dir },
                        )
                    } else {
                        Deletion::read(local_dir)
                    }
                },
                Reply::Failed(fault) => Step::Finish(Err(fault.into_error(COMMAND_FAILED))),
                _ => Step::Finish(Err(unexpected())),
            },
            Deletion::Warned { local_dir } => Deletion::read(local_dir),
            Deletion::Reading { local_dir } => match reply {
                Reply::Missing(_) => Step::Finish(Ok(())),
                Reply::Entries(entries) => {
                    let files = list_remote_entries_of_type(&entries, "");
                    proof {
                        reveal_strlit("");
                        assert(""@ =~= Seq::<char>::empty());
                    }
                    Deletion::sweep(local_dir, files, 0)
                },
                Reply::Failed(fault) => Step::Finish(Err(fault.into_error(LOCAL_LIST_FAILED))),
                _ => Step::Finish(Err(unexpected())),
            },
            Deletion::Sweeping { local_dir, files, next } => match reply {
                Reply::Done => Deletion::sweep(local_dir, files, next),
                Reply::Failed(fault) => Step::Finish(Err(fault.into_error(LOCAL_REMOVE_FAILED))),
                _ => Step::Finish(Err(unexpected())),
            },
            Deletion::Reporting { error } => Step::Finish(Err(error)),
        }
    }
}

/// Starts the deletion of the results: the remote output directory is
/// removed with all in it, then the regular files of the local results
/// directory `local_dir`.
pub fn delete_results(config: &TbguiConfig, local_dir: String) -> (step: Step<Deletion, ()>)
    ensures
        step@ == deletion_start(config@, local_dir@),
{
    match config.require(ConfigField::RemoteOutDir) {
        Ok(out_dir) => Step::Perform(
            Request::Execute(listing(out_dir.as_str())),
            Deletion::Probing { out_dir: out_dir.clone(), local_dir },
        ),
        Err(error) => Step::Finish(Err(error)),
    }
}

/// The download of the results: where it stands.
#[derive(Debug)]
pub enum Download {
    /// Asked for the file-transfer channel.
    Opening { remote_dir: String, local_dir: String },
    /// Asked for the local directory to be created.
    Preparing { remote_dir: String, local_dir: String },
    /// Asked whether the remote results directory exists.
    Probing { remote_dir: String, local_dir: String },
    /// Asked for the entries of the remote results directory.
    Listing { remote_dir: String, local_dir: String },
    /// Bringing the reports home: the first `next` of `files` have been asked
    /// for.
    Fetching { remote_dir: String, local_dir: String, files: Vec<String>, next: usize },
    /// Asked for `error` to be logged; it is returned next.
    Reporting { error: AppError },
}

/// The model of a `Download`.
pub enum DownloadView {
    Opening { remote_dir: Seq<char>, local_dir: Seq<char> },
    Preparing { remote_dir: Seq<char>, local_dir: Seq<char> },
    Probing { remote_dir: Seq<char>, local_dir: Seq<char> },
    Listing { remote_dir: Seq<char>, local_dir: Seq<char> },
    Fetching { remote_dir: Seq<char>, local_dir: Seq<char>, files: Seq<Seq<char>>, next: usize },
    Reporting { error: AppErrorView },
}

impl View for Download {
    type V = DownloadView;

    open spec fn view(&self) -> DownloadView {
        match self {
            Download::Opening { remote_dir, local_dir } => DownloadView::Opening {
                remote_dir: remote_dir@,
                local_dir: local_dir@,
            },
            Download::Preparing { remote_dir, local_dir } => DownloadView::Preparing {
                remote_dir: remote_dir@,
                local_dir: local_dir@,
            },
            Download::Probing { remote_dir, local_dir } => DownloadView::Probing {
                remote_dir: remote_dir@,
                local_dir: local_dir@,
            },
            Download::Listing { remote_dir, local_dir } => DownloadView::Listing {
                remote_dir: remote_dir@,
                local_dir: local_dir@,
            },
            Download::Fetching { remote_dir, local_dir, files, next } => DownloadView::Fetching {
                remote_dir: remote_dir@,
                local_dir: local_dir@,
                files: files.deep_view(),
                next: *next,
            },
            Download::Reporting { error } => DownloadView::Reporting { error: error@ },
        }
    }
}

/// The first step of the download of the results into `local_dir`.
pub open spec fn download_start(config: TbguiConfigView, local_dir: Seq<char>) -> StepView<
    DownloadView,
    (),
> {
    match config.remote_out_dir {
        None => StepView::Finish(Err(AppErrorView::Configuration(ConfigField::RemoteOutDir))),
        Some(out_dir) => StepView::Perform(
            RequestView::OpenTransfer,
            DownloadView::Opening { remote_dir: results_dir(out_dir), local_dir },
        ),
    }
}

/// The step that brings the next report home, under its own name, or ends the
/// download when none is left.
pub open spec fn download_fetch(
    remote_dir: Seq<char>,
    local_dir: Seq<char>,
    files: Seq<Seq<char>>,
    next: usize,
) -> StepView<DownloadView, ()> {
    if next < files.len() {
        StepView::Perform(
            RequestView::Download {
                remote_path: remote_path(remote_dir, files[next as int]),
                local_dir,
                file_name: files[next as int],
            },
            DownloadView::Fetching { remote_dir, local_dir, files, next: (next + 1) as usize },
        )
    } else {
        StepView::Finish(Ok(()))
    }
}

/// The step that has `error` logged before the download fails with it.
pub open spec fn download_report(error: AppErrorView) -> StepView<DownloadView, ()> {
    StepView::Perform(RequestView::Log(message_of(error)), DownloadView::Reporting { error })
}

/// What follows when the download of the results, standing at `at`, gets
/// `reply`. The channel is opened, the local directory made, the remote
/// results directory checked and listed; then each report is brought home. A
/// results directory that is not there, and a check that fails, are logged
/// and then returned.
pub open spec fn download_next(at: DownloadView, reply: ReplyView) -> StepView<DownloadView, ()> {
    match at {
        DownloadView::Opening { remote_dir, local_dir } => match reply {
            ReplyView::Done => StepView::Perform(
                RequestView::CreateLocalDir(local_dir),
                DownloadView::Preparing { remote_dir, local_dir },
            ),
            ReplyView::Failed(fault) => StepView::Finish(Err(error_of(TRANSFER_FAILED@, fault))),
            _ => StepView::Finish(Err(unexpected_reply())),
        },
        DownloadView::Preparing { remote_dir, local_dir } => match reply {
            ReplyView::Done => StepView::Perform(
                RequestView::Execute(existence_command(remote_dir)),
                DownloadView::Probing { remote_dir, local_dir },
            ),
            ReplyView::Failed(fault) => StepView::Finish(Err(error_of(LOCAL_DIR_FAILED@, fault))),
            _ => StepView::Finish(Err(unexpected_reply())),
        },
        DownloadView::Probing { remote_dir, local_dir } => match reply {
            ReplyView::Output(output) => if reports_existing(output.stdout) {
                StepView::Perform(
                    RequestView::ReadRemoteDir(remote_dir),
                    DownloadView::Listing { remote_dir, local_dir },
                )
            } else {
                download_report(AppErrorView::RemoteDirectoryNotFound(remote_dir))
            },
            ReplyView::Failed(fault) => download_report(error_of(PROBE_FAILED@, fault)),
            _ => StepView::Finish(Err(unexpected_reply())),
        },
        DownloadView::Listing { remote_dir, local_dir } => match reply {
            ReplyView::Entries(entries) => download_fetch(
                remote_dir,
                local_dir,
                artifacts(entries),
                0,
            ),
            ReplyView::Failed(fault) => StepView::Finish(
                Err(error_of(REMOTE_LIST_FAILED@, fault)),
            ),
            _ => StepView::Finish(Err(unexpected_reply())),
        },
        DownloadView::Fetching { remote_dir, local_dir, files, next } => match reply {
            ReplyView::Done => download_fetch(remote_dir, local_dir, files, next),
            ReplyView::Failed(fault) => StepView::Finish(Err(error_of(DOWNLOAD_FAILED@, fault))),
            _ => StepView::Finish(Err(unexpected_reply())),
        },
        DownloadView::Reporting { error } => StepView::Finish(Err(error)),
    }
}

impl Download {
    fn fetch(remote_dir: String, local_dir: String, files: Vec<String>, next: usize) -> (step: Step<
        Download,
        (),
    >)
        ensures
            step@ == download_fetch(remote_dir@, local_dir@, files.deep_view(), next),
    {
        if next < files.len() {
            let file_name = files[next].clone();
            assert(files.deep_view()[next as int] == files[next as int]@);
            Step::Perform(
                Request::Download {
                    remote_path: remote_file(remote_dir.as_str(), file_name.as_str()),
                    local_dir: local_dir.clone(),
                    file_name,
                },
                Download::Fetching { remote_dir, local_dir, files, next: next + 1 },
            )
        } else {
            Step::Finish(Ok(()))
        }
    }

    fn report(error: AppError) -> (step: Step<Download, ()>)
        ensures
            step@ == download_report(error@),
    {
        Step::Perform(Request::Log(error.message()), Download::Reporting { error })
    }
}

impl Operation for Download {
    type Output = ();

    open spec fn follows(self, reply: Reply, step: Step<Download, ()>) -> bool {
        step@ == download_next(self@, reply@)
    }

    fn resume(self, reply: Reply) -> (step: Step<Download, ()>)
        ensures
            step@ == download_next(self@, reply@),
    {
        match self {
            Download::Opening { remote_dir, local_dir } => match reply {
                Reply::Done => Step::Perform(
                    Request::CreateLocalDir(local_dir.clone()),
                    Download::Preparing { remote_dir, local_dir },
                ),
                Reply::Failed(fault) => Step::Finish(Err(fault.into_error(TRANSFER_FAILED))),
                _ => Step::Finish(Err(unexpected())),
            },
            Download::Preparing { remote_dir, local_dir } => match reply {
                Reply::Done => Step::Perform(
                    Request::Execute(existence_check(remote_dir.as_str())),
                    Download::Probing { remote_dir, local_dir },
                ),
                Reply::Failed(fault) => Step::Finish(Err(fault.into_error(LOCAL_DIR_FAILED))),
                _ => Step::Finish(Err(unexpected())),
            },
            Download::Probing { remote_dir, local_dir } => match reply {
                Reply::Output(output) => {
                    if output_reports_existing(output.stdout.as_str()) {
                        Step::Perform(
                            Request::ReadRemoteDir(remote_dir.clone()),
                            Download::Listing { remote_dir, local_dir },
                        )
                    } else {
                        Download::report(AppError::RemoteDirectoryNotFound(remote_dir))
                    }
                },
                Reply::Failed(fault) => Download::report(fault.into_error(PROBE_FAILED)),
                _ => Step::Finish(Err(unexpected())),
            },
            Download::Listing { remote_dir, local_dir } => match reply {
                Reply::Entries(entries) => {
                    let files = list_remote_entries_of_type(&entries, ARTIFACT_SUFFIX);
                    Download::fetch(remote_dir, local_dir, files, 0)
                },
                Reply::Failed(fault) => Step::Finish(Err(fault.into_error(REMOTE_LIST_FAILED))),
                _ => Step::Finish(Err(unexpected())),
            },
            Download::Fetching { remote_dir, local_dir, files, next } => match reply {
                Reply::Done => Download::fetch(remote_dir, local_dir, files, next),
                Reply::Failed(fault) => Step::Finish(Err(fault.into_error(DOWNLOAD_FAILED))),
                _ => Step::Finish(Err(unexpected())),
            },
            Download::Reporting { error } => Step::Finish(Err(error)),
        }
    }
}

/// Starts the download of the results: every report in the `results`
/// directory under the remote output directory is copied, under its own name,
/// into the local directory `local_dir`.
pub fn download_results(config: &TbguiConfig, local_dir: String) -> (step: Step<Download, ()>)
    ensures
        step@ == download_start(config@, local_dir@),
{
    match config.require(ConfigField::RemoteOutDir) {
        Ok(out_dir) => Step::Perform(
            Request::OpenTransfer,
            Download::Opening { remote_dir: results_directory(out_dir.as_str()), local_dir },
        ),
        Err(error) => Step::Finish(Err(error)),
    }
}

/// The transfer of one template: where it stands.
#[derive(Debug)]
pub enum TemplateTransfer {
    /// Asked for the file-transfer channel; `then` is the copy to ask for.
    Opening { then: Request },
    /// Asked for the copy; `download` tells a download from an upload.
    Copying { download: bool },
}

/// The model of a `TemplateTransfer`.
pub enum TemplateTransferView {
    Opening { then: RequestView },
    Copying { download: bool },
}

impl View for TemplateTransfer {
    type V = TemplateTransferView;

    open spec fn view(&self) -> TemplateTransferView {
        match self {
            TemplateTransfer::Opening { then } => TemplateTransferView::Opening { then: then@ },
            TemplateTransfer::Copying { download } => TemplateTransferView::Copying { download: *download },
        }
    }
}

/// The first step of the download of the default template to `file_name` in
/// `local_dir`.
pub open spec fn template_download_start(
    config: TbguiConfigView,
    local_dir: Seq<char>,
    file_name: Seq<char>,
) -> StepView<TemplateTransferView, ()> {
    match config.default_template_remote {
        None => StepView::Finish(
            Err(AppErrorView::Configuration(ConfigField::DefaultTemplateRemote)),
        ),
        Some(remote_path) => StepView::Perform(
            RequestView::OpenTransfer,
            TemplateTransferView::Opening {
                then: RequestView::Download { remote_path, local_dir, file_name },
            },
        ),
    }
}

/// The first step of the upload of the file at `local_path` as the user's
/// template.
pub open spec fn template_upload_start(config: TbguiConfigView, local_path: Seq<char>) -> StepView<
    TemplateTransferView,
    (),
> {
    match config.user_template_remote {
        None => StepView::Finish(Err(AppErrorView::Configuration(ConfigField::UserTemplateRemote))),
        Some(remote_path) => StepView::Perform(
            RequestView::OpenTransfer,
            TemplateTransferView::Opening {
                then: RequestView::Upload { local_path, remote_path },
            },
        ),
    }
}

/// What follows when the transfer of a template, standing at `at`, gets
/// `reply`: with the channel open the copy is asked for, and with the copy
/// done the transfer has ended.
pub open spec fn template_next(at: TemplateTransferView, reply: ReplyView) -> StepView<
    TemplateTransferView,
    (),
> {
    match (at, reply) {
        (TemplateTransferView::Opening { then }, ReplyView::Done) => StepView::Perform(
            then,
            TemplateTransferView::Copying { download: then is Download },
        ),
        (TemplateTransferView::Opening { then }, ReplyView::Failed(fault)) => StepView::Finish(
            Err(error_of(TRANSFER_FAILED@, fault)),
        ),
        (TemplateTransferView::Copying { download }, ReplyView::Done) => StepView::Finish(Ok(())),
        (TemplateTransferView::Copying { download }, ReplyView::Failed(fault)) => StepView::Finish(
            Err(
                error_of(
                    if download {
                        DOWNLOAD_FAILED@
                    } else {
                        UPLOAD_FAILED@
                    },
                    fault,
                ),
            ),
        ),
        _ => StepView::Finish(Err(unexpected_reply())),
    }
}

impl Operation for TemplateTransfer {
    type Output = ();

    open spec fn follows(self, reply: Reply, step: Step<TemplateTransfer, ()>) -> bool {
        step@ == template_next(self@, reply@)
    }

    fn resume(self, reply: Reply) -> (step: Step<TemplateTransfer, ()>)
        ensures
            step@ == template_next(self@, reply@),
    {
        match self {
            TemplateTransfer::Opening { then } => match reply {
                Reply::Done => {
                    let download = match &then {
                        Request::Download { .. } => true,
                        _ => false,
                    };
                    Step::Perform(then, TemplateTransfer::Copying { download })
                },
                Reply::Failed(fault) => Step::Finish(Err(fault.into_error(TRANSFER_FAILED))),
                _ => Step::Finish(Err(unexpected())),
            },
            TemplateTransfer::Copying { download } => match reply {
                Reply::Done => Step::Finish(Ok(())),
                Reply::Failed(fault) => Step::Finish(
                    Err(
                        fault.into_error(
                            if download {
                                DOWNLOAD_FAILED
                            } else {
                                UPLOAD_FAILED
                            },
                        ),
                    ),
                ),
                _ => Step::Finish(Err(unexpected())),
            },
        }
    }
}

/// Starts the download of the default template to `file_name` in `local_dir`.
pub fn download_default_template(
    config: &TbguiConfig,
    local_dir: String,
    file_name: String,
) -> (step: Step<TemplateTransfer, ()>)
    ensures
        step@ == template_download_start(config@, local_dir@, file_name@),
{
    match config.require(ConfigField::DefaultTemplateRemote) {
        Ok(remote_path) => Step::Perform(
            Request::OpenTransfer,
            TemplateTransfer::Opening {
                then: Request::Download { remote_path: remote_path.clone(), local_dir, file_name },
            },
        ),
        Err(error) => Step::Finish(Err(error)),
    }
}

/// Starts the upload of the file at `local_path` as the user's template.
pub fn upload_user_template(config: &TbguiConfig, local_path: String) -> (step: Step<
    TemplateTransfer,
    (),
>)
    ensures
        step@ == template_upload_start(config@, local_path@),
{
    match config.require(ConfigField::UserTemplateRemote) {
        Ok(remote_path) => Step::Perform(
            Request::OpenTransfer,
            TemplateTransfer::Opening {
                then: Request::Upload { local_path, remote_path: remote_path.clone() },
            },
        ),
        Err(error) => Step::Finish(Err(error)),
    }
}

/// The host of the cluster.
pub const REMOTE_HOST: &'static str = "130.60.24.133";

/// The port of the cluster's SSH service.
pub const REMOTE_PORT: u16 = 22;

/// What a missing private key is reported with.
pub const KEY_MISSING: &'static str = "SSH key file not found at path: ";

/// What a failure to look for the private key is reported with.
pub const KEY_LOOKUP_FAILED: &'static str = "Failed to look for the SSH key file: ";

/// What a failure to open the session is reported with.
pub const CONNECT_FAILED: &'static str = "Failed to connect: ";

/// The opening of the session: where it stands.
#[derive(Debug)]
pub enum Connection {
    /// Asked for the private key; `username` is who will log in.
    Locating { username: Option<String> },
    /// Asked for the session to be opened.
    Connecting,
}

/// The model of a `Connection`.
pub enum ConnectionView {
    Locating { username: Option<Seq<char>> },
    Connecting,
}

impl View for Connection {
    type V = ConnectionView;

    open spec fn view(&self) -> ConnectionView {
        match self {
            Connection::Locating { username } => ConnectionView::Locating {
                username: crate::config::text_view(*username),
            },
            Connection::Connecting => ConnectionView::Connecting,
        }
    }
}

/// The first step of the opening of the session: the private key is looked
/// for.
pub open spec fn connection_start(config: TbguiConfigView) -> StepView<ConnectionView, ()> {
    StepView::Perform(
        RequestView::LocateKey,
        ConnectionView::Locating { username: config.username },
    )
}

/// What follows when the opening of the session, standing at `at`, gets
/// `reply`. Without a key it fails for want of a credential; with a key and
/// without a user name it fails and names the setting, before anything is
/// sent; a failure to connect is a network error.
pub open spec fn connection_next(at: ConnectionView, reply: ReplyView) -> StepView<
    ConnectionView,
    (),
> {
    match (at, reply) {
        (ConnectionView::Locating { username }, ReplyView::Missing(path)) => StepView::Finish(
            Err(AppErrorView::Authentication(KEY_MISSING@ + path)),
        ),
        (ConnectionView::Locating { username }, ReplyView::Found(path)) => match username {
            None => StepView::Finish(Err(AppErrorView::Configuration(ConfigField::Username))),
            Some(name) => StepView::Perform(
                RequestView::Connect {
                    host: REMOTE_HOST@,
                    port: REMOTE_PORT,
                    username: name,
                    key_path: path,
                },
                ConnectionView::Connecting,
            ),
        },
        (ConnectionView::Locating { username }, ReplyView::Failed(fault)) => StepView::Finish(
            Err(error_of(KEY_LOOKUP_FAILED@, fault)),
        ),
        (ConnectionView::Connecting, ReplyView::Done) => StepView::Finish(Ok(())),
        (ConnectionView::Connecting, ReplyView::Failed(fault)) => StepView::Finish(
            Err(error_of(CONNECT_FAILED@, fault)),
        ),
        _ => StepView::Finish(Err(unexpected_reply())),
    }
}

impl Operation for Connection {
    type Output = ();

    open spec fn follows(self, reply: Reply, step: Step<Connection, ()>) -> bool {
        step@ == connection_next(self@, reply@)
    }

    fn resume(self, reply: Reply) -> (step: Step<Connection, ()>)
        ensures
            step@ == connection_next(self@, reply@),
    {
        match self {
            Connection::Locating { username } => match reply {
                Reply::Missing(path) => Step::Finish(
                    Err(
                        AppError::Authentication(
                            String::from_str(KEY_MISSING).concat(path.as_str()),
                        ),
                    ),
                ),
                Reply::Found(path) => match username {
                    None => Step::Finish(Err(AppError::Configuration(ConfigField::Username))),
                    Some(name) => Step::Perform(
                        Request::Connect {
                            host: String::from_str(REMOTE_HOST),
                            port: REMOTE_PORT,
                            username: name,
                            key_path: path,
                        },
                        Connection::Connecting,
                    ),
                },
                Reply::Failed(fault) => Step::Finish(Err(fault.into_error(KEY_LOOKUP_FAILED))),
                _ => Step::Finish(Err(unexpected())),
            },
            Connection::Connecting => match reply {
                Reply::Done => Step::Finish(Ok(())),
                Reply::Failed(fault) => Step::Finish(Err(fault.into_error(CONNECT_FAILED))),
                _ => Step::Finish(Err(unexpected())),
            },
        }
    }
}

/// Starts the opening of the session with the cluster.
pub fn create_client(config: &TbguiConfig) -> (step: Step<Connection, ()>)
    ensures
        step@ == connection_start(config@),
{
    let username = match &config.username {
        Some(name) => Some(name.clone()),
        None => None,
    };
    Step::Perform(Request::LocateKey, Connection::Locating { username })
}

} // verus!
