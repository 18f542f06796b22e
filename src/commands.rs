//! Records that the host application's features exchange with its user
//! interface.
use vstd::prelude::*;

verus! {

/// A message of the chat, from the user or the assistant.
#[derive(Debug, Clone)]
pub struct ChatMessage {
    pub role: String,
    pub content: String,
    pub timestamp: i64,
}

/// A command typed by the user, with its arguments.
#[derive(Debug, Clone)]
pub struct CommandRequest {
    pub command: String,
    pub args: Vec<String>,
}

/// What is known of a processed script.
#[derive(Debug, Clone)]
pub struct ScriptMetadata {
    pub title: Option<String>,
    pub total_shots: usize,
    pub vfx_categories: Vec<String>,
}

/// File locations the application uses.
#[derive(Debug, Clone)]
pub struct PathSettings {
    pub python_path: String,
    pub scripts_dir: String,
    pub templates_dir: String,
    pub output_dir: String,
}

/// Preferences of the user interface.
#[derive(Debug, Clone)]
pub struct UiSettings {
    pub theme: String,
    pub auto_save: bool,
    pub show_console: bool,
}

} // verus!
