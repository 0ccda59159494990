//! The editor's debugging records, as the library reads and builds them.
use vstd::prelude::*;

verus! {

/// The kind of a debug session's start request.
#[derive(Clone, Copy, Debug, PartialEq, Eq, Structural)]
pub enum RequestKind {
    Launch,
    Attach,
}

/// A task that the editor can run: a command line with its environment.
pub struct TaskTemplate {
    pub label: String,
    pub command: String,
    pub args: Vec<String>,
    pub env: Vec<(String, String)>,
    pub cwd: Option<String>,
}

pub struct LaunchRequest {
    pub program: String,
    pub cwd: Option<String>,
    pub args: Vec<String>,
    pub envs: Vec<(String, String)>,
}

pub struct AttachRequest {
    pub process_id: Option<u32>,
}

pub enum DebugRequest {
    Launch(LaunchRequest),
    Attach(AttachRequest),
}

/// A debug session as the user describes it, independent of any adapter's
/// configuration format.
pub struct DebugConfig {
    pub label: String,
    pub adapter: String,
    pub request: DebugRequest,
    pub stop_on_entry: Option<bool>,
}

pub struct BuildTaskDefinitionTemplatePayload {
    pub locator_name: Option<String>,
    pub template: TaskTemplate,
}

pub enum BuildTaskDefinition {
    ByName(String),
    Template(BuildTaskDefinitionTemplatePayload),
}

/// How to start a debug session: an optional build step and the adapter's
/// JSON configuration.
pub struct DebugScenario {
    pub label: String,
    pub adapter: String,
    pub build: Option<BuildTaskDefinition>,
    pub config: String,
}

/// A debug session handed to an adapter: its JSON configuration text.
pub struct DebugTaskDefinition {
    pub label: String,
    pub adapter: String,
    pub config: String,
}

pub struct StartDebuggingRequestArguments {
    pub configuration: String,
    pub request: RequestKind,
}

/// How to start the debug adapter process and the session in it.
pub struct DebugAdapterBinary {
    pub command: Option<String>,
    pub arguments: Vec<String>,
    pub envs: Vec<(String, String)>,
    pub cwd: Option<String>,
    pub request_args: StartDebuggingRequestArguments,
}

/// What a finished search process reported.
pub struct SearchOutput {
    pub status: Option<i32>,
    pub stdout: String,
    pub stderr: String,
}

/// A process to run, and its arguments.
pub struct ProcessCommand {
    pub command: String,
    pub args: Vec<String>,
}

} // verus!
