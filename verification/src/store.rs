//! Where the configuration is stored, and what loading and saving it come to.
//!
//! The host reads and writes the file. It tells these functions what it
//! found, and they say what is to be returned or written.

use crate::config::{sanitize_config, AppConfig, AppConfigView};
use crate::error::{AppError, AppErrorView};
use crate::paths::{FilePath, FilePathView};
use vstd::prelude::*;

verus! {

/// Name of the environment variable that overrides the configuration
/// directory.
pub const CONFIG_DIR_VARIABLE: &'static str = "CLIP_POP_MEDROA_CONFIG_DIR";

/// Name of the application's folder below the platform's configuration
/// directory.
pub const APP_FOLDER: &'static str = "ClipPopMedroa";

/// Name of the configuration file.
pub const CONFIG_FILE: &'static str = "config.yaml";

/// The configuration directory: the override where one is given, as it is;
/// else the application's folder below the platform's directory; and an
/// error where neither is known.
pub open spec fn config_dir_of(
    override_dir: Option<Seq<char>>,
    platform_dir: Option<Seq<char>>,
) -> Result<FilePathView, AppErrorView> {
    match (override_dir, platform_dir) {
        (Some(dir), _) => Ok(FilePathView::at(dir)),
        (None, Some(base)) => Ok(FilePathView::at(base).join(APP_FOLDER@)),
        (None, None) => Err(AppErrorView::MissingConfigDir),
    }
}

/// The configuration file: `CONFIG_FILE` in the configuration directory.
pub open spec fn config_path_of(
    override_dir: Option<Seq<char>>,
    platform_dir: Option<Seq<char>>,
) -> Result<FilePathView, AppErrorView> {
    match config_dir_of(override_dir, platform_dir) {
        Ok(dir) => Ok(dir.join(CONFIG_FILE@)),
        Err(error) => Err(error),
    }
}

/// A place or the reason why there is none, as text.
pub open spec fn place_text(place: Result<FilePath, AppError>) -> Result<
    FilePathView,
    AppErrorView,
> {
    match place {
        Ok(path) => Ok(path@),
        Err(error) => Err(error@),
    }
}

/// The configuration directory, from the value of `CONFIG_DIR_VARIABLE`, if
/// it is set, and the platform's per-user configuration directory, if the
/// platform names one.
pub fn config_dir(override_dir: Option<String>, platform_dir: Option<String>) -> (dir: Result<
    FilePath,
    AppError,
>)
    ensures
        place_text(dir) == config_dir_of(override_dir.deep_view(), platform_dir.deep_view()),
{
    match override_dir {
        Some(dir) => Ok(FilePath::at(dir)),
        None => match platform_dir {
            Some(base) => Ok(FilePath::at(base).join(APP_FOLDER)),
            None => Err(AppError::MissingConfigDir),
        },
    }
}

/// The configuration file, from the same two values as `config_dir`.
pub fn config_path(override_dir: Option<String>, platform_dir: Option<String>) -> (file: Result<
    FilePath,
    AppError,
>)
    ensures
        place_text(file) == config_path_of(override_dir.deep_view(), platform_dir.deep_view()),
{
    match config_dir(override_dir, platform_dir) {
        Ok(dir) => Ok(dir.join(CONFIG_FILE)),
        Err(error) => Err(error),
    }
}

/// What the host found where the configuration is stored.
#[derive(Debug, PartialEq, Eq)]
pub enum StoredConfig {
    /// There is no configuration file.
    Absent,
    /// The file exists and could not be read. Holds the underlying message.
    Unreadable(String),
    /// The file was read and is no configuration. Holds the parser's message.
    Malformed(String),
    /// The file holds this configuration.
    Parsed(AppConfig),
}

/// What a `StoredConfig` holds, as mathematical values.
pub ghost enum StoredConfigView {
    Absent,
    Unreadable(Seq<char>),
    Malformed(Seq<char>),
    Parsed(AppConfigView),
}

impl View for StoredConfig {
    type V = StoredConfigView;

    open spec fn view(&self) -> StoredConfigView {
        match self {
            StoredConfig::Absent => StoredConfigView::Absent,
            StoredConfig::Unreadable(detail) => StoredConfigView::Unreadable(detail@),
            StoredConfig::Malformed(detail) => StoredConfigView::Malformed(detail@),
            StoredConfig::Parsed(cfg) => StoredConfigView::Parsed(cfg@),
        }
    }
}

/// What loading the configuration comes to.
#[derive(Debug, PartialEq, Eq)]
pub enum LoadStep {
    /// Nothing is stored yet: the host saves this configuration, as
    /// `write_config` says, and hands the outcome to `finish_create`.
    CreateDefault(AppConfig),
    /// This is the configuration.
    Loaded(AppConfig),
    /// Loading failed.
    Failed(AppError),
}

/// What a `LoadStep` holds, as mathematical values.
pub ghost enum LoadStepView {
    CreateDefault(AppConfigView),
    Loaded(AppConfigView),
    Failed(AppErrorView),
}

impl View for LoadStep {
    type V = LoadStepView;

    open spec fn view(&self) -> LoadStepView {
        match self {
            LoadStep::CreateDefault(cfg) => LoadStepView::CreateDefault(cfg@),
            LoadStep::Loaded(cfg) => LoadStepView::Loaded(cfg@),
            LoadStep::Failed(error) => LoadStepView::Failed(error@),
        }
    }
}

/// What loading comes to, for each thing that the host may have found: a
/// missing file is created with the initial configuration; a stored
/// configuration is returned sanitized; a file that cannot be read or is
/// malformed is an error, and no default stands in for it.
pub open spec fn load_step_of(found: StoredConfigView) -> LoadStepView {
    match found {
        StoredConfigView::Absent => LoadStepView::CreateDefault(AppConfigView::initial()),
        StoredConfigView::Unreadable(detail) => LoadStepView::Failed(AppErrorView::Io(detail)),
        StoredConfigView::Malformed(detail) => LoadStepView::Failed(
            AppErrorView::Parse("failed to parse config: "@ + detail),
        ),
        StoredConfigView::Parsed(cfg) => LoadStepView::Loaded(cfg.sanitized()),
    }
}

/// Decides what loading the configuration comes to, from what the host found
/// at the place that `config_path` names.
pub fn read_config(found: StoredConfig) -> (step: LoadStep)
    ensures
        step@ == load_step_of(found@),
{
    match found {
        StoredConfig::Absent => LoadStep::CreateDefault(AppConfig::default()),
        StoredConfig::Unreadable(detail) => LoadStep::Failed(AppError::Io(detail)),
        StoredConfig::Malformed(detail) => {
            let message = String::from_str("failed to parse config: ").concat(detail.as_str());
            LoadStep::Failed(AppError::Parse(message))
        },
        StoredConfig::Parsed(cfg) => LoadStep::Loaded(sanitize_config(cfg)),
    }
}

/// The result of a load that had to create the file: the configuration that
/// was created if saving it went well, else the error of the save.
pub fn finish_create(created: AppConfig, saved: Result<(), AppError>) -> (loaded: Result<
    AppConfig,
    AppError,
>)
    ensures
        match saved {
            Ok(_) => loaded == Ok::<AppConfig, AppError>(created),
            Err(error) => loaded == Err::<AppConfig, AppError>(error),
        },
{
    match saved {
        Ok(_) => Ok(created),
        Err(error) => Err(error),
    }
}

/// What saving a configuration comes to: make sure that `directory` exists,
/// then replace the contents of `file` by `config`.
#[derive(Debug, PartialEq, Eq)]
pub struct WritePlan {
    pub directory: FilePath,
    pub file: FilePath,
    pub config: AppConfig,
}

/// What a `WritePlan` holds, as mathematical values.
pub ghost struct WritePlanView {
    pub directory: FilePathView,
    pub file: FilePathView,
    pub config: AppConfigView,
}

impl View for WritePlan {
    type V = WritePlanView;

    open spec fn view(&self) -> WritePlanView {
        WritePlanView { directory: self.directory@, file: self.file@, config: self.config@ }
    }
}

/// What saving `cfg` comes to: the sanitized configuration goes to the
/// configuration file, in the configuration directory; without such a
/// directory nothing is written.
pub open spec fn write_plan_of(
    override_dir: Option<Seq<char>>,
    platform_dir: Option<Seq<char>>,
    cfg: AppConfigView,
) -> Result<WritePlanView, AppErrorView> {
    match config_dir_of(override_dir, platform_dir) {
        Ok(dir) => Ok(
            WritePlanView { directory: dir, file: dir.join(CONFIG_FILE@), config: cfg.sanitized() },
        ),
        Err(error) => Err(error),
    }
}

/// A plan or the reason why there is none, as mathematical values.
pub open spec fn plan_text(plan: Result<WritePlan, AppError>) -> Result<
    WritePlanView,
    AppErrorView,
> {
    match plan {
        Ok(plan) => Ok(plan@),
        Err(error) => Err(error@),
    }
}

/// Decides what is written where, to save `cfg`. The two directories are
/// those that `config_dir` takes.
pub fn write_config(
    override_dir: Option<String>,
    platform_dir: Option<String>,
    cfg: &AppConfig,
) -> (plan: Result<WritePlan, AppError>)
    ensures
        plan_text(plan) == write_plan_of(
            override_dir.deep_view(),
            platform_dir.deep_view(),
            cfg@,
        ),
{
    match config_dir(override_dir, platform_dir) {
        Ok(directory) => {
            let file = directory.clone().join(CONFIG_FILE);
            Ok(WritePlan { directory, file, config: sanitize_config(cfg.clone()) })
        },
        Err(error) => Err(error),
    }
}

/// The first load, with nothing stored, creates the initial configuration:
/// that configuration is written as it is, since it is in range, and it is
/// what the load returns once it is written.
pub proof fn lemma_first_load_creates_initial(
    override_dir: Option<Seq<char>>,
    platform_dir: Option<Seq<char>>,
)
    ensures
        load_step_of(StoredConfigView::Absent) == LoadStepView::CreateDefault(
            AppConfigView::initial(),
        ),
        AppConfigView::initial().is_sane(),
        write_plan_of(override_dir, platform_dir, AppConfigView::initial()) matches Ok(plan)
            ==> plan.config == AppConfigView::initial(),
{
}

/// Loading what was saved gives the sanitized form of what was handed to the
/// save, provided that the host reads back the configuration that it wrote.
pub proof fn lemma_load_after_save(
    override_dir: Option<Seq<char>>,
    platform_dir: Option<Seq<char>>,
    cfg: AppConfigView,
)
    ensures
        write_plan_of(override_dir, platform_dir, cfg) matches Ok(plan) ==> load_step_of(
            StoredConfigView::Parsed(plan.config),
        ) == LoadStepView::Loaded(cfg.sanitized()),
{
}

} // verus!
