//! Records exchanged by the first-run setup of the host application: the
//! state of the runtime, of the machine and of the model file.
use vstd::prelude::*;

verus! {

/// The runtime installation and its packages.
#[derive(Debug, Clone)]
pub struct PythonStatus {
    pub installed: bool,
    pub version: Option<String>,
    pub executable_path: Option<String>,
    pub pip_available: bool,
    pub packages_installed: Vec<String>,
    pub missing_packages: Vec<String>,
}

/// Whether the machine has the memory and disk space the model needs.
#[derive(Debug, Clone)]
pub struct SystemRequirements {
    pub ram_sufficient: bool,
    pub ram_total_gb: u64,
    pub disk_sufficient: bool,
    pub disk_free_gb: u64,
    pub platform: String,
    pub architecture: String,
}

/// A step of the setup wizard.
#[derive(Debug, Clone, Copy, PartialEq, Eq)]
pub enum SetupStep {
    Welcome,
    SystemCheck,
    InstallDependencies,
    DownloadModel,
    Complete,
}

/// A progress report of the setup wizard.
#[derive(Debug, Clone)]
pub struct SetupProgress {
    pub step: SetupStep,
    pub message: String,
    pub percent: u8,
    pub completed: bool,
}

/// Where the setup stands overall.
#[derive(Debug, Clone)]
pub struct SetupStatus {
    pub is_first_run: bool,
    pub completed_steps: Vec<SetupStep>,
    pub current_step: Option<SetupStep>,
    pub can_proceed: bool,
}

impl Default for SetupStatus {
    /// A first run with no step done and nothing to proceed with.
    fn default() -> (r: Self)
        ensures
            r.is_first_run,
            r.completed_steps@.len() == 0,
            r.current_step is None,
            !r.can_proceed,
    {
        SetupStatus {
            is_first_run: true,
            completed_steps: Vec::new(),
            current_step: None,
            can_proceed: false,
        }
    }
}

/// Where the model file comes from.
#[derive(Debug, Clone)]
pub enum ModelSource {
    LocalFile(String),
    HuggingFace { repo: String, file: String, requires_auth: bool },
    DirectUrl { url: String, filename: String },
}

/// What the wizard has learned so far.
#[derive(Debug, Clone, Default)]
pub struct SetupWizardState {
    pub config_dir: Option<String>,
    pub model_path: Option<String>,
    pub python_path: Option<String>,
    pub completed_steps: Vec<SetupStep>,
}

/// The setup status shown to the user.
#[derive(Debug, Clone)]
pub struct SetupStatusResponse {
    pub is_first_run: bool,
    pub can_proceed: bool,
    pub python: Option<PythonStatus>,
    pub system: Option<SystemRequirements>,
    pub model_configured: bool,
    pub model_path: Option<String>,
}

/// Whether everything the worker needs is in place.
#[derive(Debug, Clone)]
pub struct DependencyStatus {
    pub python_ok: bool,
    pub packages_ok: bool,
    pub model_ok: bool,
    pub missing_packages: Vec<String>,
    pub can_start: bool,
}

/// The ways to obtain the model file.
#[derive(Debug, Clone)]
pub struct ModelDownloadInstructions {
    pub methods: Vec<ModelDownloadMethod>,
    pub filename: String,
    pub expected_size: String,
}

/// One way to obtain the model file.
#[derive(Debug, Clone)]
pub struct ModelDownloadMethod {
    pub name: String,
    pub description: String,
    pub url: String,
    pub requires_auth: bool,
    pub instructions: String,
}

} // verus!
