//! The failure taxonomy, and the stable code and message each failure is
//! reported under.

use crate::text::{decimal, decimal_chars, from_chars, is_blank, to_chars, trim_chars};
use vstd::prelude::*;
use vstd::std_specs::convert::FromSpecImpl;
use vstd::string::StringExecFns;

verus! {

/// Why a folder could not be recognised as a project.
#[derive(Debug)]
pub enum DiscoveryError {
    MissingPath,
    NotDirectory,
    GitUnavailable,
    NotGitWorkTree,
    RepoRootUnavailable,
    /// Any other failure of the operating system, with its description.
    Io(String),
}

/// Why a command of the tool or of a package manager did not succeed.
#[derive(Debug)]
pub enum OpenSpecCommandError {
    CliUnavailable,
    UnsupportedPackageManager,
    PackageManagerUnavailable,
    MissingToolsSelection,
    ToolsParseFailed,
    CommandFailed { command: String, status: i32, stderr: String },
    /// Any other failure of the operating system, with its description.
    Io(String),
}

/// What a caller is told about a failed discovery.
#[derive(Debug)]
pub struct ProjectDiscoveryErrorPayload {
    pub code: String,
    pub message: String,
}

/// What a caller is told about a failed command.
#[derive(Debug)]
pub struct OpenSpecCommandErrorPayload {
    pub code: String,
    pub message: String,
}

/// The stable code of a discovery failure.
pub open spec fn discovery_code(error: DiscoveryError) -> Seq<char> {
    match error {
        DiscoveryError::MissingPath => "path_not_found"@,
        DiscoveryError::NotDirectory => "path_not_directory"@,
        DiscoveryError::GitUnavailable => "git_unavailable"@,
        DiscoveryError::NotGitWorkTree => "not_git_work_tree"@,
        DiscoveryError::RepoRootUnavailable => "repo_root_unavailable"@,
        DiscoveryError::Io(_) => "io_error"@,
    }
}

/// The message shown for a discovery failure.
pub open spec fn discovery_message(error: DiscoveryError) -> Seq<char> {
    match error {
        DiscoveryError::MissingPath => "Path does not exist"@,
        DiscoveryError::NotDirectory => "Path is not a directory"@,
        DiscoveryError::GitUnavailable => "Git is not available"@,
        DiscoveryError::NotGitWorkTree => "Path is not a git work tree"@,
        DiscoveryError::RepoRootUnavailable => "Could not resolve repository root"@,
        DiscoveryError::Io(_) => "File system error"@,
    }
}

/// The stable code of a command failure.
pub open spec fn command_code(error: OpenSpecCommandError) -> Seq<char> {
    match error {
        OpenSpecCommandError::CliUnavailable => "openspec_unavailable"@,
        OpenSpecCommandError::UnsupportedPackageManager => "package_manager_unsupported"@,
        OpenSpecCommandError::PackageManagerUnavailable => "package_manager_unavailable"@,
        OpenSpecCommandError::MissingToolsSelection => "tools_missing"@,
        OpenSpecCommandError::ToolsParseFailed => "tools_parse_failed"@,
        OpenSpecCommandError::CommandFailed { .. } => "command_failed"@,
        OpenSpecCommandError::Io(_) => "io_error"@,
    }
}

/// The message for a command that ended with a failing status: the command, its
/// status in decimal and, unless it is blank, what it wrote to standard error.
pub open spec fn failure_message(command: Seq<char>, status: int, stderr: Seq<char>) -> Seq<char> {
    let head = command + " exited with status "@ + decimal(status);
    if is_blank(stderr) {
        head
    } else {
        head + ": "@ + stderr
    }
}

/// The message shown for a command failure.
pub open spec fn command_message(error: OpenSpecCommandError) -> Seq<char> {
    match error {
        OpenSpecCommandError::CliUnavailable => "OpenSpec CLI is not available"@,
        OpenSpecCommandError::UnsupportedPackageManager => "Package manager is not supported"@,
        OpenSpecCommandError::PackageManagerUnavailable => "Package manager is not available"@,
        OpenSpecCommandError::MissingToolsSelection => "Select at least one tool"@,
        OpenSpecCommandError::ToolsParseFailed => "Unable to parse the OpenSpec tools list"@,
        OpenSpecCommandError::CommandFailed { command, status, stderr } => failure_message(
            command@,
            status as int,
            stderr@,
        ),
        OpenSpecCommandError::Io(_) => "Command failed to run"@,
    }
}

/// Builds the message for a command that ended with a failing status.
pub fn render_failure_message(command: &str, status: i32, stderr: &str) -> (message: String)
    ensures
        message@ == failure_message(command@, status as int, stderr@),
{
    let mut message = String::from_str(command);
    message.append(" exited with status ");
    let digits = from_chars(&decimal_chars(status));
    message.append(digits.as_str());
    let trimmed = trim_chars(&to_chars(stderr));
    if trimmed.len() > 0 {
        message.append(": ");
        message.append(stderr);
    }
    message
}

impl FromSpecImpl<DiscoveryError> for ProjectDiscoveryErrorPayload {
    open spec fn obeys_from_spec() -> bool {
        false
    }

    open spec fn from_spec(error: DiscoveryError) -> Self {
        arbitrary()
    }
}

impl From<DiscoveryError> for ProjectDiscoveryErrorPayload {
    /// Reports a discovery failure under its stable code and message.
    fn from(error: DiscoveryError) -> (payload: Self)
        ensures
            payload.code@ == discovery_code(error),
            payload.message@ == discovery_message(error),
    {
        let (code, message) = match error {
            DiscoveryError::MissingPath => ("path_not_found", "Path does not exist"),
            DiscoveryError::NotDirectory => ("path_not_directory", "Path is not a directory"),
            DiscoveryError::GitUnavailable => ("git_unavailable", "Git is not available"),
            DiscoveryError::NotGitWorkTree => ("not_git_work_tree", "Path is not a git work tree"),
            DiscoveryError::RepoRootUnavailable => (
                "repo_root_unavailable",
                "Could not resolve repository root",
            ),
            DiscoveryError::Io(_) => ("io_error", "File system error"),
        };
        ProjectDiscoveryErrorPayload {
            code: String::from_str(code),
            message: String::from_str(message),
        }
    }
}

impl FromSpecImpl<OpenSpecCommandError> for OpenSpecCommandErrorPayload {
    open spec fn obeys_from_spec() -> bool {
        false
    }

    open spec fn from_spec(error: OpenSpecCommandError) -> Self {
        arbitrary()
    }
}

impl From<OpenSpecCommandError> for OpenSpecCommandErrorPayload {
    /// Reports a command failure under its stable code and message.
    fn from(error: OpenSpecCommandError) -> (payload: Self)
        ensures
            payload.code@ == command_code(error),
            payload.message@ == command_message(error),
    {
        match error {
            OpenSpecCommandError::CliUnavailable => OpenSpecCommandErrorPayload {
                code: String::from_str("openspec_unavailable"),
                message: String::from_str("OpenSpec CLI is not available"),
            },
            OpenSpecCommandError::UnsupportedPackageManager => OpenSpecCommandErrorPayload {
                code: String::from_str("package_manager_unsupported"),
                message: String::from_str("Package manager is not supported"),
            },
            OpenSpecCommandError::PackageManagerUnavailable => OpenSpecCommandErrorPayload {
                code: String::from_str("package_manager_unavailable"),
                message: String::from_str("Package manager is not available"),
            },
            OpenSpecCommandError::MissingToolsSelection => OpenSpecCommandErrorPayload {
                code: String::from_str("tools_missing"),
                message: String::from_str("Select at least one tool"),
            },
            OpenSpecCommandError::ToolsParseFailed => OpenSpecCommandErrorPayload {
                code: String::from_str("tools_parse_failed"),
                message: String::from_str("Unable to parse the OpenSpec tools list"),
            },
            OpenSpecCommandError::CommandFailed { command, status, stderr } => {
                let message = render_failure_message(command.as_str(), status, stderr.as_str());
                OpenSpecCommandErrorPayload { code: String::from_str("command_failed"), message }
            },
            OpenSpecCommandError::Io(_) => OpenSpecCommandErrorPayload {
                code: String::from_str("io_error"),
                message: String::from_str("Command failed to run"),
            },
        }
    }
}

} // verus!
