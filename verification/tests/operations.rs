use tbgui::config::{ConfigField, TbguiConfig};
use tbgui::model::sample::Sample;
use tbgui::protocol::{CommandOutput, DirEntry, Fault, Operation, Reply, Request, Step};
use tbgui::ssh::{
    create_client, delete_results, download_default_template, download_results,
    list_remote_entries_of_type, run_tbprofiler, upload_user_template, JobSubmissionRequest,
};
use tbgui::types::AppError;
use tbgui::utils::{check_if_dir_exists, check_if_running, list_directory};

fn settings() -> TbguiConfig {
    TbguiConfig {
        username: Some("lab".to_string()),
        remote_raw_dir: Some("/raw".to_string()),
        tb_profiler_script: Some("/scripts/tb.sh".to_string()),
        remote_out_dir: Some("/out".to_string()),
        default_template_remote: Some("/templates/default.docx".to_string()),
        user_template_remote: Some("/templates/user.docx".to_string()),
        ..TbguiConfig::default()
    }
}

fn printed(exit_status: u32, stdout: &str, stderr: &str) -> Reply {
    Reply::Output(CommandOutput {
        exit_status,
        stdout: stdout.to_string(),
        stderr: stderr.to_string(),
    })
}

fn file(name: &str) -> DirEntry {
    DirEntry { file_name: name.to_string(), is_file: true }
}

fn dir(name: &str) -> DirEntry {
    DirEntry { file_name: name.to_string(), is_file: false }
}

fn lost(detail: &str) -> Reply {
    Reply::Failed(Fault::Transport(detail.to_string()))
}

fn broken(detail: &str) -> Reply {
    Reply::Failed(Fault::Local(detail.to_string()))
}

/// Plays the driver: answers each request with the next reply of the script.
/// Returns the requests that were made, and the result if the operation ended
/// before the script did.
fn play<M: Operation>(
    first: Step<M, M::Output>,
    script: Vec<Reply>,
) -> (Vec<Request>, Option<Result<M::Output, AppError>>) {
    let mut requests = Vec::new();
    let mut step = first;
    let mut replies = script.into_iter();
    loop {
        match step {
            Step::Finish(result) => return (requests, Some(result)),
            Step::Perform(request, operation) => {
                requests.push(request);
                match replies.next() {
                    Some(reply) => step = operation.resume(reply),
                    None => return (requests, None),
                }
            }
        }
    }
}

fn run_command(command: &str) -> Request {
    Request::Execute(command.to_string())
}

fn touches_remote(request: &Request) -> bool {
    !matches!(
        request,
        Request::LocateKey
            | Request::CreateLocalDir(_)
            | Request::ReadLocalDir(_)
            | Request::RemoveLocalFile { .. }
            | Request::Log(_)
    )
}

#[test]
fn listing_checks_the_directory_then_lists_it() {
    let (requests, result) = play(
        Sample::get_raw_reads(&settings()),
        vec![
            printed(0, "exists\n", ""),
            printed(0, "S1_R1.fastq\nS1_R2.fastq\nS2_R1.fastq\nnotes.txt\n", ""),
        ],
    );
    assert_eq!(
        requests,
        vec![run_command("test -d /raw && echo 'exists'"), run_command("ls /raw")]
    );
    let samples = result.unwrap().unwrap();
    let names: Vec<&str> = samples.iter().map(|sample| sample.title.as_str()).collect();
    assert_eq!(names, vec!["S1", "S2"]);
}

#[test]
fn listing_without_a_raw_directory_asks_for_nothing() {
    let config = TbguiConfig { remote_raw_dir: None, ..settings() };
    let (requests, result) = play(Sample::get_raw_reads(&config), vec![]);
    assert!(requests.is_empty());
    assert_eq!(result.unwrap().unwrap_err(), AppError::Configuration(ConfigField::RemoteRawDir));
}

#[test]
fn listing_a_missing_directory_is_logged_and_fails() {
    let (requests, result) = play(
        Sample::get_raw_reads(&settings()),
        vec![printed(1, "", ""), Reply::Done],
    );
    assert_eq!(
        requests,
        vec![
            run_command("test -d /raw && echo 'exists'"),
            Request::Log("Remote directory does not exist: /raw".to_string()),
        ]
    );
    assert_eq!(
        result.unwrap().unwrap_err(),
        AppError::RemoteDirectoryNotFound("/raw".to_string())
    );
}

#[test]
fn listing_fails_after_the_log_whatever_the_log_answers() {
    let (_, result) = play(
        Sample::get_raw_reads(&settings()),
        vec![printed(0, "does not exist", ""), broken("disk full")],
    );
    assert_eq!(
        result.unwrap().unwrap_err(),
        AppError::RemoteDirectoryNotFound("/raw".to_string())
    );
}

#[test]
fn listing_reports_a_failed_check() {
    let (requests, result) =
        play(Sample::get_raw_reads(&settings()), vec![lost("channel closed"), Reply::Done]);
    let message = "Failed to check if remote directory exists: channel closed".to_string();
    assert_eq!(requests[1], Request::Log(message.clone()));
    assert_eq!(result.unwrap().unwrap_err(), AppError::Network(message));
}

#[test]
fn listing_reports_a_failed_listing() {
    let (requests, result) = play(
        Sample::get_raw_reads(&settings()),
        vec![printed(0, "exists", ""), lost("timeout"), Reply::Done],
    );
    let message = "Failed to list files in remote directory: timeout".to_string();
    assert_eq!(requests.len(), 3);
    assert_eq!(requests[2], Request::Log(message.clone()));
    assert_eq!(result.unwrap().unwrap_err(), AppError::Network(message));
}

#[test]
fn listing_waits_for_the_log() {
    let (requests, result) = play(Sample::get_raw_reads(&settings()), vec![lost("x")]);
    assert_eq!(requests.len(), 2);
    assert!(result.is_none());
}

#[test]
fn listing_rejects_a_reply_that_answers_nothing() {
    let (_, result) = play(Sample::get_raw_reads(&settings()), vec![Reply::Done]);
    assert_eq!(
        result.unwrap().unwrap_err(),
        AppError::Network("Unexpected reply from the session driver".to_string())
    );
    let (_, result) = play(
        Sample::get_raw_reads(&settings()),
        vec![printed(0, "exists", ""), Reply::Entries(vec![])],
    );
    assert_eq!(
        result.unwrap().unwrap_err(),
        AppError::Network("Unexpected reply from the session driver".to_string())
    );
}

#[test]
fn submission_with_nothing_checked_asks_for_nothing() {
    let (requests, result) = play(run_tbprofiler(0, "S1".to_string(), &settings()), vec![]);
    assert!(requests.is_empty());
    assert_eq!(result.unwrap().unwrap_err(), AppError::NoItemsChecked);
}

#[test]
fn submission_with_nothing_checked_fails_before_the_settings_are_read() {
    let config = TbguiConfig {
        username: None,
        remote_raw_dir: None,
        tb_profiler_script: None,
        remote_out_dir: None,
        default_template_remote: None,
        user_template_remote: None,
        ..settings()
    };
    let (requests, result) = play(run_tbprofiler(0, String::new(), &config), vec![]);
    assert!(requests.is_empty());
    assert_eq!(result.unwrap().unwrap_err(), AppError::NoItemsChecked);
}

#[test]
fn submission_hands_the_job_to_the_scheduler() {
    let (requests, result) = play(
        run_tbprofiler(2, "S1,S2".to_string(), &settings()),
        vec![printed(0, "Submitted batch job 4711\n", "")],
    );
    assert_eq!(
        requests,
        vec![run_command(
            "sbatch --array 0-1 /scripts/tb.sh \"S1,S2\" /raw /out /templates/user.docx"
        )]
    );
    assert_eq!(result.unwrap().unwrap(), "Submitted batch job 4711\n");
}

#[test]
fn submission_refused_by_the_scheduler_carries_its_output() {
    let (_, result) = play(
        run_tbprofiler(1, "S1".to_string(), &settings()),
        vec![printed(1, "partial", "sbatch: error: invalid partition")],
    );
    assert_eq!(
        result.unwrap().unwrap_err(),
        AppError::JobSubmission {
            exit_status: 1,
            stdout: "partial".to_string(),
            stderr: "sbatch: error: invalid partition".to_string(),
        }
    );
}

#[test]
fn submission_over_a_lost_connection_is_a_network_error() {
    let (_, result) =
        play(run_tbprofiler(1, "S1".to_string(), &settings()), vec![lost("broken pipe")]);
    assert_eq!(
        result.unwrap().unwrap_err(),
        AppError::Network("Remote command failed: broken pipe".to_string())
    );
}

#[test]
fn submission_names_the_first_setting_that_is_missing() {
    let fields = [
        ConfigField::TbProfilerScript,
        ConfigField::RemoteRawDir,
        ConfigField::RemoteOutDir,
        ConfigField::UserTemplateRemote,
    ];
    for (at, field) in fields.iter().enumerate() {
        let mut config = settings();
        for later in &fields[at..] {
            match later {
                ConfigField::TbProfilerScript => config.tb_profiler_script = None,
                ConfigField::RemoteRawDir => config.remote_raw_dir = None,
                ConfigField::RemoteOutDir => config.remote_out_dir = None,
                _ => config.user_template_remote = None,
            }
        }
        let (requests, result) = play(run_tbprofiler(3, "a,b,c".to_string(), &config), vec![]);
        assert!(requests.is_empty());
        assert_eq!(result.unwrap().unwrap_err(), AppError::Configuration(*field));
    }
}

#[test]
fn submission_does_not_need_the_other_settings() {
    let config = TbguiConfig { username: None, default_template_remote: None, ..settings() };
    let (requests, _) = play(run_tbprofiler(1, "S1".to_string(), &config), vec![]);
    assert_eq!(requests.len(), 1);
}

#[test]
fn request_is_made_from_the_checked_samples() {
    let mut samples = vec![
        Sample::new("S1".to_string(), String::new()),
        Sample::new("S2".to_string(), String::new()),
        Sample::new("S3".to_string(), String::new()),
    ];
    let none = JobSubmissionRequest::from_samples(&samples);
    assert_eq!(none.checked_count, 0);
    assert_eq!(none.samples, "");
    samples[2].set_checked(true);
    let one = JobSubmissionRequest::from_samples(&samples);
    assert_eq!(one.checked_count, 1);
    assert_eq!(one.samples, "S3");
    samples[0].set_checked(true);
    let two = JobSubmissionRequest::from_samples(&samples);
    assert_eq!(two.checked_count, 2);
    assert_eq!(two.samples, "S1,S3");
    samples[1].set_checked(true);
    let all = JobSubmissionRequest::from_samples(&samples);
    assert_eq!(all.checked_count, 3);
    assert_eq!(all.samples, "S1,S2,S3");
    assert_eq!(JobSubmissionRequest::from_samples(&Vec::new()).checked_count, 0);
}

#[test]
fn directory_check_reads_the_word() {
    let (requests, result) = play(check_if_dir_exists("/raw"), vec![printed(0, "exists\n", "")]);
    assert_eq!(requests, vec![run_command("test -d /raw && echo 'exists'")]);
    assert_eq!(result.unwrap().unwrap(), true);
    for output in ["", "does not exist", "exist", "exists exists", "no"] {
        let (_, result) = play(check_if_dir_exists("/raw"), vec![printed(1, output, "")]);
        assert_eq!(result.unwrap().unwrap(), false, "{:?}", output);
    }
    let (_, result) = play(check_if_dir_exists("/raw"), vec![printed(0, "exists\n\n", "")]);
    assert_eq!(result.unwrap().unwrap(), true);
}

#[test]
fn directory_check_goes_by_the_output_not_the_status() {
    let (_, result) = play(check_if_dir_exists("/raw"), vec![printed(1, "exists", "")]);
    assert_eq!(result.unwrap().unwrap(), true);
    let (_, result) = play(check_if_dir_exists("/raw"), vec![printed(0, "", "")]);
    assert_eq!(result.unwrap().unwrap(), false);
}

#[test]
fn directory_check_logs_a_failure() {
    let (requests, result) = play(check_if_dir_exists("/raw"), vec![lost("eof"), Reply::Done]);
    let message = "Failed to check if remote directory exists: eof".to_string();
    assert_eq!(requests[1], Request::Log(message.clone()));
    assert_eq!(result.unwrap().unwrap_err(), AppError::Network(message));
}

#[test]
fn queue_check_looks_for_the_user() {
    let (requests, result) = play(
        check_if_running(&settings()),
        vec![printed(0, "JOBID PARTITION NAME USER\n  17 main tb lab\n", "")],
    );
    assert_eq!(requests, vec![run_command("squeue -u lab")]);
    assert_eq!(result.unwrap().unwrap(), true);
    let (_, result) =
        play(check_if_running(&settings()), vec![printed(0, "JOBID PARTITION NAME USER\n", "")]);
    assert_eq!(result.unwrap().unwrap(), false);
}

#[test]
fn queue_check_needs_the_user_name() {
    let config = TbguiConfig { username: None, ..settings() };
    let (requests, result) = play(check_if_running(&config), vec![]);
    assert!(requests.is_empty());
    assert_eq!(result.unwrap().unwrap_err(), AppError::Configuration(ConfigField::Username));
}

#[test]
fn queue_check_over_a_lost_connection() {
    let (_, result) = play(check_if_running(&settings()), vec![lost("reset")]);
    assert_eq!(
        result.unwrap().unwrap_err(),
        AppError::Network("Remote command failed: reset".to_string())
    );
}

#[test]
fn download_brings_every_report_home() {
    let (requests, result) = play(
        download_results(&settings(), "/home/lab/reports".to_string()),
        vec![
            Reply::Done,
            Reply::Done,
            printed(0, "exists\n", ""),
            Reply::Entries(vec![
                file("S1.docx"),
                file("S1.json"),
                dir("archive.docx"),
                file("S2.docx"),
                file("log.txt"),
            ]),
            Reply::Done,
            Reply::Done,
        ],
    );
    assert_eq!(
        requests,
        vec![
            Request::OpenTransfer,
            Request::CreateLocalDir("/home/lab/reports".to_string()),
            run_command("test -d /out/results && echo 'exists'"),
            Request::ReadRemoteDir("/out/results".to_string()),
            Request::Download {
                remote_path: "/out/results/S1.docx".to_string(),
                local_dir: "/home/lab/reports".to_string(),
                file_name: "S1.docx".to_string(),
            },
            Request::Download {
                remote_path: "/out/results/S2.docx".to_string(),
                local_dir: "/home/lab/reports".to_string(),
                file_name: "S2.docx".to_string(),
            },
        ]
    );
    assert_eq!(result.unwrap(), Ok(()));
}

#[test]
fn download_of_an_empty_directory_ends_well() {
    let (requests, result) = play(
        download_results(&settings(), "here".to_string()),
        vec![Reply::Done, Reply::Done, printed(0, "exists", ""), Reply::Entries(vec![])],
    );
    assert_eq!(requests.len(), 4);
    assert_eq!(result.unwrap(), Ok(()));
}

#[test]
fn download_needs_the_output_directory() {
    let config = TbguiConfig { remote_out_dir: None, ..settings() };
    let (requests, result) = play(download_results(&config, "here".to_string()), vec![]);
    assert!(requests.is_empty());
    assert_eq!(result.unwrap().unwrap_err(), AppError::Configuration(ConfigField::RemoteOutDir));
}

#[test]
fn download_without_remote_results_is_logged_and_fails() {
    let (requests, result) = play(
        download_results(&settings(), "here".to_string()),
        vec![Reply::Done, Reply::Done, printed(1, "", ""), Reply::Done],
    );
    assert_eq!(
        requests[3],
        Request::Log("Remote directory does not exist: /out/results".to_string())
    );
    assert_eq!(
        result.unwrap().unwrap_err(),
        AppError::RemoteDirectoryNotFound("/out/results".to_string())
    );
}

#[test]
fn download_reports_each_kind_of_failure() {
    let (_, result) = play(download_results(&settings(), "here".to_string()), vec![lost("a")]);
    assert_eq!(
        result.unwrap().unwrap_err(),
        AppError::Network("Failed to open the transfer channel: a".to_string())
    );
    let (_, result) =
        play(download_results(&settings(), "here".to_string()), vec![Reply::Done, broken("b")]);
    assert_eq!(
        result.unwrap().unwrap_err(),
        AppError::IO("Failed to create local directory: b".to_string())
    );
    let (_, result) = play(
        download_results(&settings(), "here".to_string()),
        vec![Reply::Done, Reply::Done, lost("c"), Reply::Done],
    );
    assert_eq!(
        result.unwrap().unwrap_err(),
        AppError::Network("Failed to check if remote directory exists: c".to_string())
    );
    let (_, result) = play(
        download_results(&settings(), "here".to_string()),
        vec![Reply::Done, Reply::Done, printed(0, "exists", ""), lost("d")],
    );
    assert_eq!(
        result.unwrap().unwrap_err(),
        AppError::Network("Failed to list remote directory: d".to_string())
    );
    let (requests, result) = play(
        download_results(&settings(), "here".to_string()),
        vec![
            Reply::Done,
            Reply::Done,
            printed(0, "exists", ""),
            Reply::Entries(vec![file("a.docx"), file("b.docx")]),
            broken("e"),
        ],
    );
    assert_eq!(requests.len(), 5);
    assert_eq!(
        result.unwrap().unwrap_err(),
        AppError::IO("Failed to download file: e".to_string())
    );
}

#[test]
fn deletion_removes_the_remote_directory_and_the_local_files() {
    let (requests, result) = play(
        delete_results(&settings(), "/home/lab/tb-profiler-results".to_string()),
        vec![
            printed(0, "results\n", ""),
            printed(0, "", ""),
            Reply::Entries(vec![file("S1.docx"), dir("old"), file("error.log")]),
            Reply::Done,
            Reply::Done,
        ],
    );
    assert_eq!(
        requests,
        vec![
            run_command("ls /out"),
            run_command("rm -rf /out"),
            Request::ReadLocalDir("/home/lab/tb-profiler-results".to_string()),
            Request::RemoveLocalFile {
                dir: "/home/lab/tb-profiler-results".to_string(),
                file_name: "S1.docx".to_string(),
            },
            Request::RemoveLocalFile {
                dir: "/home/lab/tb-profiler-results".to_string(),
                file_name: "error.log".to_string(),
            },
        ]
    );
    assert_eq!(result.unwrap(), Ok(()));
}

#[test]
fn deletion_of_an_unlistable_directory_fails() {
    let (requests, result) = play(
        delete_results(&settings(), "local".to_string()),
        vec![printed(2, "", "ls: cannot access '/out'")],
    );
    assert_eq!(requests.len(), 1);
    assert_eq!(
        result.unwrap().unwrap_err(),
        AppError::RemoteDirectoryNotFound("/out".to_string())
    );
}

#[test]
fn deletion_goes_on_after_a_failed_removal() {
    let (requests, result) = play(
        delete_results(&settings(), "local".to_string()),
        vec![
            printed(0, "", ""),
            printed(1, "", "rm: busy"),
            Reply::Done,
            Reply::Missing("local".to_string()),
        ],
    );
    assert_eq!(
        requests,
        vec![
            run_command("ls /out"),
            run_command("rm -rf /out"),
            Request::Log(
                "Remote directory may be empty. Failed to delete files on remote: rm: busy"
                    .to_string()
            ),
            Request::ReadLocalDir("local".to_string()),
        ]
    );
    assert_eq!(result.unwrap(), Ok(()));
}

#[test]
fn deletion_without_local_files_ends_well() {
    let (_, result) = play(
        delete_results(&settings(), "local".to_string()),
        vec![printed(0, "", ""), printed(0, "", ""), Reply::Entries(vec![dir("sub")])],
    );
    assert_eq!(result.unwrap(), Ok(()));
}

#[test]
fn deletion_reports_each_kind_of_failure() {
    let config = TbguiConfig { remote_out_dir: None, ..settings() };
    let (requests, result) = play(delete_results(&config, "local".to_string()), vec![]);
    assert!(requests.is_empty());
    assert_eq!(result.unwrap().unwrap_err(), AppError::Configuration(ConfigField::RemoteOutDir));
    let (requests, result) =
        play(delete_results(&settings(), "local".to_string()), vec![lost("a"), Reply::Done]);
    let message = "Failed to list files in remote directory: a".to_string();
    assert_eq!(requests[1], Request::Log(message.clone()));
    assert_eq!(result.unwrap().unwrap_err(), AppError::Network(message));
    let (_, result) = play(
        delete_results(&settings(), "local".to_string()),
        vec![printed(0, "", ""), lost("b")],
    );
    assert_eq!(
        result.unwrap().unwrap_err(),
        AppError::Network("Remote command failed: b".to_string())
    );
    let (_, result) = play(
        delete_results(&settings(), "local".to_string()),
        vec![printed(0, "", ""), printed(0, "", ""), broken("c")],
    );
    assert_eq!(
        result.unwrap().unwrap_err(),
        AppError::IO("Failed to read local directory: c".to_string())
    );
    let (_, result) = play(
        delete_results(&settings(), "local".to_string()),
        vec![
            printed(0, "", ""),
            printed(0, "", ""),
            Reply::Entries(vec![file("x"), file("y")]),
            Reply::Done,
            broken("d"),
        ],
    );
    assert_eq!(
        result.unwrap().unwrap_err(),
        AppError::IO("Failed to remove local file: d".to_string())
    );
}

#[test]
fn default_template_is_downloaded() {
    let (requests, result) = play(
        download_default_template(&settings(), "/tmp".to_string(), "t.docx".to_string()),
        vec![Reply::Done, Reply::Done],
    );
    assert_eq!(
        requests,
        vec![
            Request::OpenTransfer,
            Request::Download {
                remote_path: "/templates/default.docx".to_string(),
                local_dir: "/tmp".to_string(),
                file_name: "t.docx".to_string(),
            },
        ]
    );
    assert_eq!(result.unwrap(), Ok(()));
}

#[test]
fn user_template_is_uploaded() {
    let (requests, result) = play(
        upload_user_template(&settings(), "/home/lab/mine.docx".to_string()),
        vec![Reply::Done, Reply::Done],
    );
    assert_eq!(
        requests,
        vec![
            Request::OpenTransfer,
            Request::Upload {
                local_path: "/home/lab/mine.docx".to_string(),
                remote_path: "/templates/user.docx".to_string(),
            },
        ]
    );
    assert_eq!(result.unwrap(), Ok(()));
}

#[test]
fn template_transfers_need_their_settings() {
    let config = TbguiConfig { default_template_remote: None, ..settings() };
    let (requests, result) =
        play(download_default_template(&config, "d".to_string(), "f".to_string()), vec![]);
    assert!(requests.is_empty());
    assert_eq!(
        result.unwrap().unwrap_err(),
        AppError::Configuration(ConfigField::DefaultTemplateRemote)
    );
    let config = TbguiConfig { user_template_remote: None, ..settings() };
    let (requests, result) = play(upload_user_template(&config, "p".to_string()), vec![]);
    assert!(requests.is_empty());
    assert_eq!(
        result.unwrap().unwrap_err(),
        AppError::Configuration(ConfigField::UserTemplateRemote)
    );
}

#[test]
fn template_transfers_report_failures() {
    let (_, result) = play(
        download_default_template(&settings(), "d".to_string(), "f".to_string()),
        vec![lost("a")],
    );
    assert_eq!(
        result.unwrap().unwrap_err(),
        AppError::Network("Failed to open the transfer channel: a".to_string())
    );
    let (_, result) = play(
        download_default_template(&settings(), "d".to_string(), "f".to_string()),
        vec![Reply::Done, broken("b")],
    );
    assert_eq!(
        result.unwrap().unwrap_err(),
        AppError::IO("Failed to download file: b".to_string())
    );
    let (_, result) =
        play(upload_user_template(&settings(), "p".to_string()), vec![Reply::Done, lost("c")]);
    assert_eq!(
        result.unwrap().unwrap_err(),
        AppError::Network("Failed to upload file: c".to_string())
    );
}

#[test]
fn session_opens_with_key_and_user() {
    let (requests, result) = play(
        create_client(&settings()),
        vec![Reply::Found("/home/lab/.ssh/id_rsa".to_string()), Reply::Done],
    );
    assert_eq!(
        requests,
        vec![
            Request::LocateKey,
            Request::Connect {
                host: "130.60.24.133".to_string(),
                port: 22,
                username: "lab".to_string(),
                key_path: "/home/lab/.ssh/id_rsa".to_string(),
            },
        ]
    );
    assert_eq!(result.unwrap(), Ok(()));
}

#[test]
fn session_without_a_key_is_an_authentication_error() {
    let (requests, result) = play(
        create_client(&settings()),
        vec![Reply::Missing("/home/lab/.ssh/id_rsa".to_string())],
    );
    assert_eq!(requests, vec![Request::LocateKey]);
    assert_eq!(
        result.unwrap().unwrap_err(),
        AppError::Authentication(
            "SSH key file not found at path: /home/lab/.ssh/id_rsa".to_string()
        )
    );
}

#[test]
fn session_without_a_user_name_never_connects() {
    let config = TbguiConfig { username: None, ..settings() };
    let (requests, result) = play(create_client(&config), vec![Reply::Found("key".to_string())]);
    assert_eq!(requests, vec![Request::LocateKey]);
    assert!(requests.iter().all(|request| !touches_remote(request)));
    assert_eq!(result.unwrap().unwrap_err(), AppError::Configuration(ConfigField::Username));
}

#[test]
fn session_without_key_and_user_lacks_the_key_first() {
    let config = TbguiConfig { username: None, ..settings() };
    let (_, result) = play(create_client(&config), vec![Reply::Missing("key".to_string())]);
    assert_eq!(
        result.unwrap().unwrap_err(),
        AppError::Authentication("SSH key file not found at path: key".to_string())
    );
}

#[test]
fn session_that_cannot_connect_is_a_network_error() {
    let (_, result) = play(
        create_client(&settings()),
        vec![Reply::Found("key".to_string()), lost("handshake failed")],
    );
    assert_eq!(
        result.unwrap().unwrap_err(),
        AppError::Network("Failed to connect: handshake failed".to_string())
    );
    let (_, result) = play(create_client(&settings()), vec![broken("no home")]);
    assert_eq!(
        result.unwrap().unwrap_err(),
        AppError::IO("Failed to look for the SSH key file: no home".to_string())
    );
}

#[test]
fn every_operation_stops_before_the_remote_side_without_its_setting() {
    let mut without_raw = settings();
    without_raw.remote_raw_dir = None;
    let mut without_out = settings();
    without_out.remote_out_dir = None;
    let mut without_script = settings();
    without_script.tb_profiler_script = None;
    let mut without_user = settings();
    without_user.username = None;
    let mut without_default = settings();
    without_default.default_template_remote = None;
    let mut without_template = settings();
    without_template.user_template_remote = None;

    let (requests, result) = play(Sample::get_raw_reads(&without_raw), vec![]);
    assert!(requests.is_empty());
    assert_eq!(result.unwrap().unwrap_err().message(), "remote_raw_dir is not set in the configuration");
    let (requests, result) = play(run_tbprofiler(1, "S".to_string(), &without_raw), vec![]);
    assert!(requests.is_empty());
    assert_eq!(result.unwrap().unwrap_err(), AppError::Configuration(ConfigField::RemoteRawDir));
    let (requests, result) = play(run_tbprofiler(1, "S".to_string(), &without_script), vec![]);
    assert!(requests.is_empty());
    assert_eq!(result.unwrap().unwrap_err().message(), "tb_profiler_script is not set in the configuration");
    let (requests, result) = play(run_tbprofiler(1, "S".to_string(), &without_out), vec![]);
    assert!(requests.is_empty());
    assert_eq!(result.unwrap().unwrap_err().message(), "remote_out_dir is not set in the configuration");
    let (requests, result) = play(run_tbprofiler(1, "S".to_string(), &without_template), vec![]);
    assert!(requests.is_empty());
    assert_eq!(result.unwrap().unwrap_err().message(), "user_template_remote is not set in the configuration");
    let (requests, result) = play(check_if_running(&without_user), vec![]);
    assert!(requests.is_empty());
    assert_eq!(result.unwrap().unwrap_err().message(), "username is not set in the configuration");
    let (requests, result) =
        play(download_default_template(&without_default, "d".to_string(), "f".to_string()), vec![]);
    assert!(requests.is_empty());
    assert_eq!(
        result.unwrap().unwrap_err().message(),
        "default_template_remote is not set in the configuration"
    );
}

#[test]
fn from_connection_to_downloaded_reports() {
    let config = settings();

    let (requests, result) = play(
        create_client(&config),
        vec![Reply::Found("/home/lab/.ssh/id_rsa".to_string()), Reply::Done],
    );
    assert_eq!(requests.len(), 2);
    assert_eq!(result.unwrap(), Ok(()));

    let (_, result) = play(
        Sample::get_raw_reads(&config),
        vec![
            printed(0, "exists\n", ""),
            printed(
                0,
                "A_R1.fastq.gz\nA_R2.fastq.gz\nB_R1.fastq.gz\nB_R2.fastq.gz\nC_R1.fastq.gz\nC_R2.fastq.gz\n",
                "",
            ),
        ],
    );
    let mut samples = result.unwrap().unwrap();
    assert_eq!(samples.len(), 3);
    assert_eq!(samples[0].title, "A");
    assert_eq!(samples[1].title, "B");
    assert_eq!(samples[2].title, "C");

    samples[0].set_checked(true);
    samples[2].set_checked(true);
    let request = JobSubmissionRequest::from_samples(&samples);
    assert_eq!(request.checked_count, 2);

    let (requests, result) = play(
        run_tbprofiler(request.checked_count, request.samples, &config),
        vec![printed(0, "Submitted batch job 99\n", "")],
    );
    assert_eq!(
        requests,
        vec![run_command(
            "sbatch --array 0-1 /scripts/tb.sh \"A,C\" /raw /out /templates/user.docx"
        )]
    );
    assert_eq!(result.unwrap().unwrap(), "Submitted batch job 99\n");

    let (requests, result) = play(
        download_results(&config, "/home/lab/chosen".to_string()),
        vec![
            Reply::Done,
            Reply::Done,
            printed(0, "exists\n", ""),
            Reply::Entries(vec![file("A.docx"), file("A.results.json"), file("C.docx")]),
            Reply::Done,
            Reply::Done,
        ],
    );
    let fetched: Vec<String> = requests
        .iter()
        .filter_map(|request| match request {
            Request::Download { remote_path, local_dir, file_name } => {
                assert_eq!(local_dir, "/home/lab/chosen");
                assert_eq!(remote_path, &format!("/out/results/{}", file_name));
                Some(file_name.clone())
            }
            _ => None,
        })
        .collect();
    assert_eq!(fetched, vec!["A.docx", "C.docx"]);
    assert_eq!(result.unwrap(), Ok(()));
}

#[test]
fn directory_listing_gives_every_line() {
    let (requests, result) = play(
        list_directory("/raw"),
        vec![printed(0, "S1_R1.fastq\nnotes.txt\n\nS1_R2.fastq\n", "")],
    );
    assert_eq!(requests, vec![run_command("ls /raw")]);
    assert_eq!(result.unwrap().unwrap(), vec!["S1_R1.fastq", "notes.txt", "", "S1_R2.fastq"]);
    let (_, result) = play(list_directory("/raw"), vec![printed(0, "", "")]);
    assert!(result.unwrap().unwrap().is_empty());
}

#[test]
fn directory_listing_logs_a_failure() {
    let (requests, result) = play(list_directory("/raw"), vec![lost("gone"), Reply::Done]);
    let message = "Failed to list files in remote directory: gone".to_string();
    assert_eq!(requests[1], Request::Log(message.clone()));
    assert_eq!(result.unwrap().unwrap_err(), AppError::Network(message));
}

#[test]
fn entries_are_picked_by_kind_and_suffix() {
    let entries = vec![
        file("S1.docx"),
        dir("S2.docx"),
        file("S3.json"),
        file("S4.docx.tmp"),
        file(".docx"),
        file("docx"),
        file("S5.DOCX"),
        file("S6.docx"),
    ];
    assert_eq!(list_remote_entries_of_type(&entries, ".docx"), vec!["S1.docx", ".docx", "S6.docx"]);
    assert_eq!(list_remote_entries_of_type(&entries, ".json"), vec!["S3.json"]);
    assert_eq!(
        list_remote_entries_of_type(&entries, ""),
        vec!["S1.docx", "S3.json", "S4.docx.tmp", ".docx", "docx", "S5.DOCX", "S6.docx"]
    );
    assert!(list_remote_entries_of_type(&entries, ".pdf").is_empty());
    assert!(list_remote_entries_of_type(&Vec::new(), ".docx").is_empty());
}
