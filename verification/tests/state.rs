use tbgui::actions::{Action, ContextDrawer, WindowCommand};
use tbgui::config::{
    default_env, AppTheme, ConfigField, TbguiConfig, CONFIG_VERSION, DEFAULT_TEMPLATE_REMOTE,
    REMOTE_OUT_DIR, REMOTE_RAW_DIR, TBGUI_USERNAME, TB_PROFILER_SCRIPT, USER_TEMPLATE_REMOTE,
};
use tbgui::nav::{ContextPage, NavPage};
use tbgui::session::{Activity, Event, Notices, OperationState};
use tbgui::types::{AppError, DialogPage};
use tbgui::utils::{delete_log_file, log_error, ERROR_LOG};
use tbgui::{DEFAULT_TEMPLATE_FILENAME_LOCAL, RESULT_DIR_LOCAL};

fn network(text: &str) -> AppError {
    AppError::Network(text.to_string())
}

#[test]
fn operation_runs_from_idle_to_idle() {
    for activity in [Activity::Listing, Activity::Submitting, Activity::Transferring] {
        let state = OperationState::Idle.on(Event::Requested);
        assert_eq!(state, OperationState::Connecting);
        let state = state.on(Event::Established);
        assert_eq!(state, OperationState::Connected);
        let state = state.on(Event::Started(activity));
        assert_eq!(state, OperationState::Running(activity));
        assert_eq!(state.on(Event::Completed), OperationState::Idle);
    }
}

#[test]
fn operation_fails_from_every_step() {
    let states = [
        OperationState::Idle,
        OperationState::Connecting,
        OperationState::Connected,
        OperationState::Running(Activity::Listing),
    ];
    for state in states {
        assert_eq!(state.on(Event::Failed(network("down"))), OperationState::Failed(network("down")));
    }
}

#[test]
fn failed_operation_waits_for_a_retry() {
    let events = [
        Event::Requested,
        Event::Established,
        Event::Started(Activity::Submitting),
        Event::Completed,
        Event::Failed(network("again")),
    ];
    for event in events {
        let failed = OperationState::Failed(network("down"));
        assert_eq!(failed.on(event), OperationState::Failed(network("down")));
    }
    assert_eq!(OperationState::Failed(network("down")).on(Event::Retry), OperationState::Idle);
}

#[test]
fn events_out_of_turn_change_nothing() {
    assert_eq!(OperationState::Idle.on(Event::Established), OperationState::Idle);
    assert_eq!(OperationState::Idle.on(Event::Completed), OperationState::Idle);
    assert_eq!(OperationState::Idle.on(Event::Retry), OperationState::Idle);
    assert_eq!(OperationState::Connecting.on(Event::Requested), OperationState::Connecting);
    assert_eq!(
        OperationState::Connecting.on(Event::Started(Activity::Listing)),
        OperationState::Connecting
    );
    assert_eq!(OperationState::Connected.on(Event::Completed), OperationState::Connected);
    assert_eq!(
        OperationState::Running(Activity::Listing).on(Event::Started(Activity::Submitting)),
        OperationState::Running(Activity::Listing)
    );
}

#[test]
fn notices_show_the_latest_error() {
    let mut notices = Notices::new();
    assert_eq!(notices.len(), 0);
    assert!(notices.current().is_none());
    notices.report(network("first"));
    assert_eq!(notices.current(), Some(&DialogPage::Info(network("first"))));
    notices.report(network("second"));
    assert_eq!(notices.len(), 1);
    assert_eq!(notices.current(), Some(&DialogPage::Info(network("second"))));
    notices.dismiss();
    assert!(notices.current().is_none());
    notices.dismiss();
    assert_eq!(notices.len(), 0);
}

#[test]
fn notices_queue_in_order() {
    let mut notices = Notices::new();
    notices.push(network("a"));
    notices.push(network("b"));
    notices.push(AppError::NoItemsChecked);
    assert_eq!(notices.len(), 3);
    assert_eq!(notices.current(), Some(&DialogPage::Info(network("a"))));
    notices.report(network("c"));
    assert_eq!(notices.len(), 3);
    assert_eq!(notices.current(), Some(&DialogPage::Info(network("b"))));
    notices.dismiss();
    assert_eq!(notices.current(), Some(&DialogPage::Info(AppError::NoItemsChecked)));
    notices.dismiss();
    assert_eq!(notices.current(), Some(&DialogPage::Info(network("c"))));
}

#[test]
fn error_messages() {
    assert_eq!(
        AppError::Configuration(ConfigField::Username).message(),
        "username is not set in the configuration"
    );
    assert_eq!(AppError::Authentication("no key".to_string()).message(), "no key");
    assert_eq!(network("down").message(), "down");
    assert_eq!(
        AppError::RemoteDirectoryNotFound("/raw".to_string()).message(),
        "Remote directory does not exist: /raw"
    );
    assert_eq!(
        AppError::JobSubmission {
            exit_status: 1,
            stdout: String::new(),
            stderr: "bad".to_string()
        }
        .message(),
        "Failed to run tbprofiler"
    );
    assert_eq!(
        AppError::NoItemsChecked.message(),
        "Cannot run tbprofiler with zero items checked"
    );
    assert_eq!(AppError::IO("disk full".to_string()).message(), "disk full");
}

#[test]
fn setting_names() {
    assert_eq!(ConfigField::Username.name(), "username");
    assert_eq!(ConfigField::RemoteRawDir.name(), "remote_raw_dir");
    assert_eq!(ConfigField::TbProfilerScript.name(), "tb_profiler_script");
    assert_eq!(ConfigField::RemoteOutDir.name(), "remote_out_dir");
    assert_eq!(ConfigField::DefaultTemplateRemote.name(), "default_template_remote");
    assert_eq!(ConfigField::UserTemplateRemote.name(), "user_template_remote");
}

#[test]
fn dialog_headings_and_bodies() {
    let page = DialogPage::Info(network("down"));
    assert_eq!(page.heading(), "Network error");
    assert_eq!(page.body(), "down");
    assert_eq!(DialogPage::Info(AppError::IO("x".to_string())).heading(), "IO error");
    assert_eq!(
        DialogPage::Info(AppError::NoItemsChecked).heading(),
        "Cannot run tbprofiler with zero items checked"
    );
    assert_eq!(
        DialogPage::Info(AppError::Configuration(ConfigField::RemoteOutDir)).heading(),
        "Configuration error"
    );
    assert_eq!(
        DialogPage::Info(AppError::Authentication("k".to_string())).heading(),
        "Authentication error"
    );
    assert_eq!(
        DialogPage::Info(AppError::RemoteDirectoryNotFound("/d".to_string())).heading(),
        "Remote directory not found"
    );
    assert_eq!(
        DialogPage::Info(AppError::JobSubmission {
            exit_status: 2,
            stdout: String::new(),
            stderr: String::new()
        })
        .heading(),
        "Job submission failed"
    );
}

#[test]
fn default_settings() {
    let config = TbguiConfig::default();
    assert_eq!(config.username.as_deref(), Some("mimeul"));
    assert_eq!(config.remote_raw_dir.as_deref(), Some(REMOTE_RAW_DIR));
    assert_eq!(config.tb_profiler_script.as_deref(), Some(TB_PROFILER_SCRIPT));
    assert_eq!(config.remote_out_dir.as_deref(), Some(REMOTE_OUT_DIR));
    assert_eq!(config.default_template_remote.as_deref(), Some(DEFAULT_TEMPLATE_REMOTE));
    assert_eq!(config.user_template_remote.as_deref(), Some(USER_TEMPLATE_REMOTE));
    assert_eq!(config.default_page, NavPage::RunTbProfiler);
    assert_eq!(config.app_theme, AppTheme::Light);
    assert_eq!(TBGUI_USERNAME, "mimeul");
    assert_eq!(CONFIG_VERSION, 1);
    assert_eq!(REMOTE_RAW_DIR, "/shares/sander.imm.uzh/MM/PRJEB57919/raw");
}

#[test]
fn stored_settings_win_over_defaults() {
    let stored = TbguiConfig { username: None, app_theme: AppTheme::Dark, ..TbguiConfig::default() };
    assert_eq!(TbguiConfig::config(Some(stored.clone())), stored);
    assert_eq!(TbguiConfig::config(None), TbguiConfig::default());
}

#[test]
fn settings_are_read_by_name() {
    let config = TbguiConfig {
        username: Some("u".to_string()),
        remote_raw_dir: Some("r".to_string()),
        tb_profiler_script: Some("s".to_string()),
        remote_out_dir: None,
        default_template_remote: Some("d".to_string()),
        user_template_remote: Some("t".to_string()),
        ..TbguiConfig::default()
    };
    assert_eq!(config.get(ConfigField::Username).as_deref(), Some("u"));
    assert_eq!(config.get(ConfigField::RemoteRawDir).as_deref(), Some("r"));
    assert_eq!(config.get(ConfigField::TbProfilerScript).as_deref(), Some("s"));
    assert_eq!(config.get(ConfigField::RemoteOutDir), &None);
    assert_eq!(config.get(ConfigField::DefaultTemplateRemote).as_deref(), Some("d"));
    assert_eq!(config.get(ConfigField::UserTemplateRemote).as_deref(), Some("t"));
    assert_eq!(config.require(ConfigField::Username), Ok(&"u".to_string()));
    assert_eq!(
        config.require(ConfigField::RemoteOutDir),
        Err(AppError::Configuration(ConfigField::RemoteOutDir))
    );
}

#[test]
fn default_env_prefers_the_given_value() {
    assert_eq!(default_env(Some("given"), "fallback"), "given");
    assert_eq!(default_env(None, "fallback"), "fallback");
    assert_eq!(default_env(Some(""), "fallback"), "");
}

#[test]
fn themes_and_their_positions() {
    assert_eq!(AppTheme::from_index(0), AppTheme::System);
    assert_eq!(AppTheme::from_index(1), AppTheme::Dark);
    assert_eq!(AppTheme::from_index(2), AppTheme::Light);
    assert_eq!(AppTheme::from_index(3), AppTheme::System);
    assert_eq!(AppTheme::from_index(usize::MAX), AppTheme::System);
    for theme in [AppTheme::System, AppTheme::Dark, AppTheme::Light] {
        assert_eq!(AppTheme::from_index(theme.index()), theme);
    }
    assert_eq!(AppTheme::default(), AppTheme::System);
}

#[test]
fn navigation_pages() {
    assert_eq!(
        NavPage::all(),
        &[
            NavPage::RunTbProfiler,
            NavPage::DownloadResults,
            NavPage::DeleteResults,
            NavPage::Settings
        ]
    );
    assert_eq!(NavPage::RunTbProfiler.title(), "run-tb-profiler");
    assert_eq!(NavPage::DownloadResults.title(), "download-results");
    assert_eq!(NavPage::DeleteResults.title(), "delete-results");
    assert_eq!(NavPage::Settings.title(), "settings");
    for (at, page) in NavPage::all().iter().enumerate() {
        assert_eq!(page.position(), at);
    }
    assert_eq!(ContextPage::About.title(), "about");
    assert_eq!(ContextPage::Settings.title(), "settings");
}

#[test]
fn menu_entries() {
    assert_eq!(Action::About.message(), WindowCommand::ToggleContextPage(ContextPage::About));
    assert_eq!(
        Action::Settings.message(),
        WindowCommand::ToggleContextPage(ContextPage::Settings)
    );
    assert_eq!(Action::WindowClose.message(), WindowCommand::WindowClose);
    assert_eq!(Action::WindowNew.message(), WindowCommand::WindowNew);
}

#[test]
fn context_drawer_toggles() {
    let mut drawer = ContextDrawer { page: ContextPage::About, shown: false };
    drawer.toggle_page(ContextPage::About);
    assert_eq!(drawer, ContextDrawer { page: ContextPage::About, shown: true });
    drawer.toggle_page(ContextPage::About);
    assert_eq!(drawer, ContextDrawer { page: ContextPage::About, shown: false });
    drawer.toggle_page(ContextPage::Settings);
    assert_eq!(drawer, ContextDrawer { page: ContextPage::Settings, shown: true });
    drawer.toggle_page(ContextPage::About);
    assert_eq!(drawer, ContextDrawer { page: ContextPage::About, shown: true });
    drawer.toggle();
    assert_eq!(drawer, ContextDrawer { page: ContextPage::About, shown: false });
    drawer.toggle();
    assert!(drawer.shown);
}

#[test]
fn error_log_lines() {
    assert_eq!(ERROR_LOG, "error.log");
    assert_eq!(RESULT_DIR_LOCAL, "tb-profiler-results");
    assert_eq!(DEFAULT_TEMPLATE_FILENAME_LOCAL, "default_template.docx");
    assert_eq!(log_error("Remote directory does not exist: /raw"), "Remote directory does not exist: /raw\n");
    assert_eq!(log_error(""), "\n");
}

#[test]
fn clearing_the_error_log() {
    assert_eq!(delete_log_file(true, true, "/h/error.log"), None);
    assert_eq!(delete_log_file(false, false, "/h/error.log"), None);
    assert_eq!(delete_log_file(false, true, "/h/error.log"), None);
    assert_eq!(
        delete_log_file(true, false, "/h/error.log"),
        Some("Failed to delete error log file: /h/error.log".to_string())
    );
}
