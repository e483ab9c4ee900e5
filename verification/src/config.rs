//! The configuration of the remote side: who logs in, and where the raw
//! reads, the pipeline script, the results and the report templates lie.

use crate::nav::NavPage;
use crate::types::AppError;
use vstd::prelude::*;
use vstd::string::*;

verus! {

pub const CONFIG_VERSION: u64 = 1;

pub const TBGUI_USERNAME: &'static str = "mimeul";

pub const REMOTE_RAW_DIR: &'static str = "/shares/sander.imm.uzh/MM/PRJEB57919/raw";

pub const TB_PROFILER_SCRIPT: &'static str =
    "/shares/sander.imm.uzh/MM/PRJEB57919/scripts/tbprofiler.sh";

pub const REMOTE_OUT_DIR: &'static str = "/shares/sander.imm.uzh/MM/PRJEB57919/out";

pub const DEFAULT_TEMPLATE_REMOTE: &'static str =
    "/shares/sander.imm.uzh/MM/PRJEB57919/tb-profiler-templates/docx/default_template.docx";

pub const USER_TEMPLATE_REMOTE: &'static str =
    "/shares/sander.imm.uzh/MM/PRJEB57919/template/user_template.docx";

/// `v` where it is given, else `default`.
pub fn default_env(v: Option<&'static str>, default: &'static str) -> (chosen: &'static str)
    ensures
        chosen@ == (match v {
            Some(given) => given@,
            None => default@,
        }),
{
    match v {
        Some(given) => given,
        None => default,
    }
}

/// How the window is themed.
#[derive(Clone, Copy, Debug, PartialEq, Eq, Structural)]
pub enum AppTheme {
    Dark,
    Light,
    System,
}

impl AppTheme {
    /// The theme at a position of the theme chooser, which lists the desktop's
    /// own theme first, then dark, then light. A position past the list
    /// stands for the desktop's own theme.
    pub open spec fn at(index: int) -> AppTheme {
        if index == 1 {
            AppTheme::Dark
        } else if index == 2 {
            AppTheme::Light
        } else {
            AppTheme::System
        }
    }

    /// The theme at position `index` of the theme chooser.
    pub fn from_index(index: usize) -> (theme: AppTheme)
        ensures
            theme == AppTheme::at(index as int),
    {
        if index == 1 {
            AppTheme::Dark
        } else if index == 2 {
            AppTheme::Light
        } else {
            AppTheme::System
        }
    }

    /// The position of the theme in the theme chooser.
    pub fn index(&self) -> (index: usize)
        ensures
            index < 3,
            AppTheme::at(index as int) == *self,
    {
        match self {
            AppTheme::System => 0,
            AppTheme::Dark => 1,
            AppTheme::Light => 2,
        }
    }
}

impl Default for AppTheme {
    fn default() -> (theme: AppTheme)
        ensures
            theme == AppTheme::System,
    {
        AppTheme::System
    }
}

/// One of the six settings that a remote operation may need.
#[derive(Clone, Copy, Debug, PartialEq, Eq, Structural)]
pub enum ConfigField {
    Username,
    RemoteRawDir,
    TbProfilerScript,
    RemoteOutDir,
    DefaultTemplateRemote,
    UserTemplateRemote,
}

/// The name of a setting, as the configuration spells it.
pub open spec fn field_name(field: ConfigField) -> Seq<char> {
    match field {
        ConfigField::Username => "username"@,
        ConfigField::RemoteRawDir => "remote_raw_dir"@,
        ConfigField::TbProfilerScript => "tb_profiler_script"@,
        ConfigField::RemoteOutDir => "remote_out_dir"@,
        ConfigField::DefaultTemplateRemote => "default_template_remote"@,
        ConfigField::UserTemplateRemote => "user_template_remote"@,
    }
}

impl ConfigField {
    /// The name of the setting, as the configuration spells it.
    pub fn name(&self) -> (name: String)
        ensures
            name@ == field_name(*self),
    {
        match self {
            ConfigField::Username => String::from_str("username"),
            ConfigField::RemoteRawDir => String::from_str("remote_raw_dir"),
            ConfigField::TbProfilerScript => String::from_str("tb_profiler_script"),
            ConfigField::RemoteOutDir => String::from_str("remote_out_dir"),
            ConfigField::DefaultTemplateRemote => String::from_str("default_template_remote"),
            ConfigField::UserTemplateRemote => String::from_str("user_template_remote"),
        }
    }
}

/// The settings of the application. Each remote setting may be absent; an
/// operation that needs an absent one fails and names it.
#[derive(Clone, Debug, PartialEq, Eq)]
pub struct TbguiConfig {
    pub username: Option<String>,
    pub remote_raw_dir: Option<String>,
    pub tb_profiler_script: Option<String>,
    pub remote_out_dir: Option<String>,
    pub default_template_remote: Option<String>,
    pub user_template_remote: Option<String>,
    pub default_page: NavPage,
    pub app_theme: AppTheme,
}

/// The model of a `TbguiConfig`.
pub struct TbguiConfigView {
    pub username: Option<Seq<char>>,
    pub remote_raw_dir: Option<Seq<char>>,
    pub tb_profiler_script: Option<Seq<char>>,
    pub remote_out_dir: Option<Seq<char>>,
    pub default_template_remote: Option<Seq<char>>,
    pub user_template_remote: Option<Seq<char>>,
    pub default_page: NavPage,
    pub app_theme: AppTheme,
}

impl TbguiConfigView {
    /// The value of a setting, if it is set.
    pub open spec fn get(self, field: ConfigField) -> Option<Seq<char>> {
        match field {
            ConfigField::Username => self.username,
            ConfigField::RemoteRawDir => self.remote_raw_dir,
            ConfigField::TbProfilerScript => self.tb_profiler_script,
            ConfigField::RemoteOutDir => self.remote_out_dir,
            ConfigField::DefaultTemplateRemote => self.default_template_remote,
            ConfigField::UserTemplateRemote => self.user_template_remote,
        }
    }
}

/// The model of an optional text.
pub open spec fn text_view(text: Option<String>) -> Option<Seq<char>> {
    match text {
        Some(t) => Some(t@),
        None => None,
    }
}

impl View for TbguiConfig {
    type V = TbguiConfigView;

    open spec fn view(&self) -> TbguiConfigView {
        TbguiConfigView {
            username: text_view(self.username),
            remote_raw_dir: text_view(self.remote_raw_dir),
            tb_profiler_script: text_view(self.tb_profiler_script),
            remote_out_dir: text_view(self.remote_out_dir),
            default_template_remote: text_view(self.default_template_remote),
            user_template_remote: text_view(self.user_template_remote),
            default_page: self.default_page,
            app_theme: self.app_theme,
        }
    }
}

/// The settings of a fresh installation.
pub open spec fn default_config() -> TbguiConfigView {
    TbguiConfigView {
        username: Some(TBGUI_USERNAME@),
        remote_raw_dir: Some(REMOTE_RAW_DIR@),
        tb_profiler_script: Some(TB_PROFILER_SCRIPT@),
        remote_out_dir: Some(REMOTE_OUT_DIR@),
        default_template_remote: Some(DEFAULT_TEMPLATE_REMOTE@),
        user_template_remote: Some(USER_TEMPLATE_REMOTE@),
        default_page: NavPage::RunTbProfiler,
        app_theme: AppTheme::Light,
    }
}

impl Default for TbguiConfig {
    fn default() -> (config: TbguiConfig)
        ensures
            config@ == default_config(),
    {
        TbguiConfig {
            username: Some(String::from_str(TBGUI_USERNAME)),
            remote_raw_dir: Some(String::from_str(REMOTE_RAW_DIR)),
            tb_profiler_script: Some(String::from_str(TB_PROFILER_SCRIPT)),
            remote_out_dir: Some(String::from_str(REMOTE_OUT_DIR)),
            default_template_remote: Some(String::from_str(DEFAULT_TEMPLATE_REMOTE)),
            user_template_remote: Some(String::from_str(USER_TEMPLATE_REMOTE)),
            default_page: NavPage::RunTbProfiler,
            app_theme: AppTheme::Light,
        }
    }
}

impl TbguiConfig {
    /// The settings to run with: the stored ones where the store holds any,
    /// else those of a fresh installation.
    pub fn config(stored: Option<TbguiConfig>) -> (config: TbguiConfig)
        ensures
            config@ == (match stored {
                Some(found) => found@,
                None => default_config(),
            }),
    {
        match stored {
            Some(found) => found,
            None => TbguiConfig::default(),
        }
    }

    /// The value of a setting, if it is set.
    pub fn get(&self, field: ConfigField) -> (value: &Option<String>)
        ensures
            text_view(*value) == self@.get(field),
    {
        match field {
            ConfigField::Username => &self.username,
            ConfigField::RemoteRawDir => &self.remote_raw_dir,
            ConfigField::TbProfilerScript => &self.tb_profiler_script,
            ConfigField::RemoteOutDir => &self.remote_out_dir,
            ConfigField::DefaultTemplateRemote => &self.default_template_remote,
            ConfigField::UserTemplateRemote => &self.user_template_remote,
        }
    }

    /// The value of a setting that an operation cannot do without. An unset
    /// one is an error that names the setting; nothing stands in for it.
    pub fn require(&self, field: ConfigField) -> (value: Result<&String, AppError>)
        ensures
            match self@.get(field) {
                Some(text) => value matches Ok(found) && found@ == text,
                None => value == Err::<&String, AppError>(AppError::Configuration(field)),
            },
    {
        match self.get(field) {
            Some(found) => Ok(found),
            None => Err(AppError::Configuration(field)),
        }
    }
}

} // verus!
