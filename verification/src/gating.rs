//! What holds of every operation: what stops it before it reaches the remote
//! side, and what it has logged before it fails.

use crate::config::{ConfigField, TbguiConfigView};
use crate::model::sample::SampleView;
use crate::protocol::{FaultView, ReplyView, RequestView, StepView};
use crate::ssh::{
    connection_next, connection_start, deletion_next, deletion_start, download_next,
    download_start, raw_reads_next, raw_reads_start, submission_start, template_download_start,
    template_upload_start, ConnectionView, DeletionView, DownloadView, RawReadsView,
    SubmissionView, TemplateTransferView, LISTING_FAILED, PROBE_FAILED,
};
use crate::types::{message_of, AppErrorView};
use crate::utils::{
    dir_check_next, dir_listing_next, queue_check_start, DirCheckView, DirListingView,
    QueueCheckView,
};
use vstd::prelude::*;

verus! {

/// The step of an operation that has failed for want of the setting `field`.
pub open spec fn stopped_for<M, T>(field: ConfigField) -> StepView<M, T> {
    StepView::Finish(Err(AppErrorView::Configuration(field)))
}

/// A submission with no sample selected fails for that reason, whatever the
/// configuration holds, and has asked the remote side for nothing.
pub proof fn lemma_submission_needs_a_sample(samples: Seq<char>, config: TbguiConfigView)
    ensures
        submission_start(0, samples, config) == StepView::<SubmissionView, Seq<char>>::Finish(
            Err(AppErrorView::NoItemsChecked),
        ),
        !submission_start(0, samples, config).reaches_remote(),
{
}

/// An operation that needs a setting which is not set fails and names the
/// setting, and has asked the remote side for nothing. Where an operation
/// needs several settings, it names the first that is not set, in the order
/// script, raw-read directory, output directory, template. The session is
/// opened only after the private key was looked for on the local disk; with
/// the key found and no user name set, it fails before it connects.
pub proof fn lemma_unset_setting_stops_operation(
    config: TbguiConfigView,
    items_checked: nat,
    samples: Seq<char>,
    local_dir: Seq<char>,
    file_name: Seq<char>,
    local_path: Seq<char>,
    key_path: Seq<char>,
)
    ensures
        config.remote_raw_dir is None ==> raw_reads_start(config) == stopped_for::<
            RawReadsView,
            Seq<SampleView>,
        >(ConfigField::RemoteRawDir),
        config.username is None ==> queue_check_start(config) == stopped_for::<
            QueueCheckView,
            bool,
        >(ConfigField::Username),
        config.username is None ==> connection_next(
            ConnectionView::Locating { username: config.username },
            ReplyView::Found(key_path),
        ) == stopped_for::<ConnectionView, ()>(ConfigField::Username),
        !connection_start(config).reaches_remote(),
        config.remote_out_dir is None ==> download_start(config, local_dir) == stopped_for::<
            DownloadView,
            (),
        >(ConfigField::RemoteOutDir),
        config.remote_out_dir is None ==> deletion_start(config, local_dir) == stopped_for::<
            DeletionView,
            (),
        >(ConfigField::RemoteOutDir),
        config.default_template_remote is None ==> template_download_start(
            config,
            local_dir,
            file_name,
        ) == stopped_for::<TemplateTransferView, ()>(ConfigField::DefaultTemplateRemote),
        config.user_template_remote is None ==> template_upload_start(config, local_path)
            == stopped_for::<TemplateTransferView, ()>(ConfigField::UserTemplateRemote),
        items_checked > 0 && config.tb_profiler_script is None ==> submission_start(
            items_checked,
            samples,
            config,
        ) == stopped_for::<SubmissionView, Seq<char>>(ConfigField::TbProfilerScript),
        items_checked > 0 && config.tb_profiler_script is Some && config.remote_raw_dir is None
            ==> submission_start(items_checked, samples, config) == stopped_for::<
            SubmissionView,
            Seq<char>,
        >(ConfigField::RemoteRawDir),
        items_checked > 0 && config.tb_profiler_script is Some && config.remote_raw_dir is Some
            && config.remote_out_dir is None ==> submission_start(items_checked, samples, config)
            == stopped_for::<SubmissionView, Seq<char>>(ConfigField::RemoteOutDir),
        items_checked > 0 && config.tb_profiler_script is Some && config.remote_raw_dir is Some
            && config.remote_out_dir is Some && config.user_template_remote is None
            ==> submission_start(items_checked, samples, config) == stopped_for::<
            SubmissionView,
            Seq<char>,
        >(ConfigField::UserTemplateRemote),
{
}

/// A step that has failed for want of a setting asks the remote side for
/// nothing.
pub proof fn lemma_stopped_reaches_nothing<M, T>(field: ConfigField)
    ensures
        !stopped_for::<M, T>(field).reaches_remote(),
{
}

/// A check or a listing that the connection fails is a network error that is
/// logged before it is returned: the operation asks for the error's message
/// to be logged, and whatever the answer, returns the error next. This holds
/// of the check and the listing of a directory, of both steps of the listing
/// of the samples, of the check before a download and of the listing before
/// a deletion.
pub proof fn lemma_failed_check_is_logged(
    detail: Seq<char>,
    dir: Seq<char>,
    local_dir: Seq<char>,
    answer: ReplyView,
)
    ensures
        ({
            let failed = ReplyView::Failed(FaultView::Transport(detail));
            let probe = AppErrorView::Network(PROBE_FAILED@ + detail);
            let listing = AppErrorView::Network(LISTING_FAILED@ + detail);
            &&& dir_check_next(DirCheckView::Probing, failed) == StepView::<
                DirCheckView,
                bool,
            >::Perform(
                RequestView::Log(message_of(probe)),
                DirCheckView::Reporting { error: probe },
            )
            &&& dir_check_next(DirCheckView::Reporting { error: probe }, answer) == StepView::<
                DirCheckView,
                bool,
            >::Finish(Err(probe))
            &&& dir_listing_next(DirListingView::Listing, failed) == StepView::<
                DirListingView,
                Seq<Seq<char>>,
            >::Perform(
                RequestView::Log(message_of(listing)),
                DirListingView::Reporting { error: listing },
            )
            &&& dir_listing_next(DirListingView::Reporting { error: listing }, answer)
                == StepView::<DirListingView, Seq<Seq<char>>>::Finish(Err(listing))
            &&& raw_reads_next(
                RawReadsView::Probing { dir },
                failed,
                StepView::Perform(
                    RequestView::Log(message_of(probe)),
                    RawReadsView::Reporting { error: probe },
                ),
            )
            &&& raw_reads_next(
                RawReadsView::Listing,
                failed,
                StepView::Perform(
                    RequestView::Log(message_of(listing)),
                    RawReadsView::Reporting { error: listing },
                ),
            )
            &&& raw_reads_next(
                RawReadsView::Reporting { error: listing },
                answer,
                StepView::Finish(Err(listing)),
            )
            &&& download_next(DownloadView::Probing { remote_dir: dir, local_dir }, failed)
                == StepView::<DownloadView, ()>::Perform(
                RequestView::Log(message_of(probe)),
                DownloadView::Reporting { error: probe },
            )
            &&& download_next(DownloadView::Reporting { error: probe }, answer) == StepView::<
                DownloadView,
                (),
            >::Finish(Err(probe))
            &&& deletion_next(DeletionView::Probing { out_dir: dir, local_dir }, failed)
                == StepView::<DeletionView, ()>::Perform(
                RequestView::Log(message_of(listing)),
                DeletionView::Reporting { error: listing },
            )
            &&& deletion_next(DeletionView::Reporting { error: listing }, answer) == StepView::<
                DeletionView,
                (),
            >::Finish(Err(listing))
        }),
{
}

} // verus!
