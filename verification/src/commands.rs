//! The commands behind the three actions that run the tool or a package
//! manager: what to start, under which label, and what to report instead where
//! nothing can be started.

use crate::errors::{command_code, OpenSpecCommandError, OpenSpecCommandErrorPayload};
use crate::probe::{command_version, probed_version};
use crate::process::{
    decode_lossy, lossy_text, CommandOutput, Invocation, ProbeState, SpawnFailure,
};
use crate::text::{same_text, texts};
use crate::tools::{
    build_tools_arg, listed_tools, parse_openspec_tools, tools_arg, OpenSpecToolsMode,
};
use vstd::prelude::*;
use vstd::string::StringExecFns;

verus! {

/// A command together with the label under which its output is reported.
#[derive(Debug)]
pub struct PlannedRun {
    pub operation: String,
    pub invocation: Invocation,
}

/// What a caller asks for when a project is to be set up.
#[derive(Debug)]
pub struct OpenSpecInitRequest {
    pub path: String,
    pub tools_mode: OpenSpecToolsMode,
    pub tools: Vec<String>,
}

/// What to do next on the way to installing the tool.
#[derive(Debug)]
pub enum InstallStep {
    /// Probe the package manager with this command, and ask again.
    Probe(Invocation),
    /// Run the installation.
    Run(PlannedRun),
}

/// Whether `invocation` starts `program` with exactly `args`, in no
/// particular directory.
pub open spec fn invokes(invocation: Invocation, program: Seq<char>, args: Seq<Seq<char>>) -> bool {
    &&& invocation.program@ == program
    &&& texts(invocation.args@) == args
    &&& invocation.working_dir is None
}

/// The package that holds the tool.
pub open spec fn tool_package() -> Seq<char> {
    "@fission-ai/openspec@latest"@
}

/// The arguments with which a package manager installs the tool for all
/// users; none for a package manager that is not supported.
pub open spec fn install_args(package_manager: Seq<char>) -> Option<Seq<Seq<char>>> {
    if package_manager == "npm"@ {
        Some(seq!["install"@, "-g"@, tool_package()])
    } else if package_manager == "bun"@ {
        Some(seq!["add"@, "-g"@, tool_package()])
    } else if package_manager == "yarn"@ {
        Some(seq!["global"@, "add"@, tool_package()])
    } else if package_manager == "pnpm"@ {
        Some(seq!["add"@, "-g"@, tool_package()])
    } else {
        None
    }
}

/// The text in which the tools are looked for: standard output, a line feed,
/// standard error.
pub open spec fn help_text(stdout: Seq<char>, stderr: Seq<char>) -> Seq<char> {
    stdout + seq!['\n'] + stderr
}

/// The command that asks `program` for its version.
pub fn version_probe(program: &str) -> (invocation: Invocation)
    ensures
        invokes(invocation, program@, seq!["--version"@]),
{
    let mut args: Vec<String> = Vec::new();
    args.push(String::from_str("--version"));
    assert(texts(args@) =~= seq!["--version"@]);
    Invocation { program: String::from_str(program), args, working_dir: None }
}

/// A command with three arguments, in no particular directory.
fn three_argument_call(program: &str, first: &str, second: &str, third: &str) -> (invocation:
    Invocation)
    ensures
        invokes(invocation, program@, seq![first@, second@, third@]),
{
    let mut args: Vec<String> = Vec::new();
    args.push(String::from_str(first));
    args.push(String::from_str(second));
    args.push(String::from_str(third));
    assert(texts(args@) =~= seq![first@, second@, third@]);
    Invocation { program: String::from_str(program), args, working_dir: None }
}

/// The command that installs the tool with the given package manager, where
/// that package manager is supported.
pub fn install_invocation(package_manager: &str) -> (invocation: Option<Invocation>)
    ensures
        match invocation {
            Some(call) => install_args(package_manager@) matches Some(args) && invokes(
                call,
                package_manager@,
                args,
            ),
            None => install_args(package_manager@) is None,
        },
{
    let package = "@fission-ai/openspec@latest";
    if same_text(package_manager, "npm") {
        Some(three_argument_call(package_manager, "install", "-g", package))
    } else if same_text(package_manager, "bun") {
        Some(three_argument_call(package_manager, "add", "-g", package))
    } else if same_text(package_manager, "yarn") {
        Some(three_argument_call(package_manager, "global", "add", package))
    } else if same_text(package_manager, "pnpm") {
        Some(three_argument_call(package_manager, "add", "-g", package))
    } else {
        None
    }
}

/// Decides the next step of an installation.
///
/// A package manager that is not supported is refused before anything is
/// started. A supported one is probed first; where the probe shows that it is
/// not installed, it is reported as unavailable; else the installation runs
/// under the label `install`.
pub fn install_openspec_cli(package_manager: &str, probe: &ProbeState) -> (result: Result<
    InstallStep,
    OpenSpecCommandError,
>)
    ensures
        match install_args(package_manager@) {
            None => result matches Err(error) && error is UnsupportedPackageManager,
            Some(args) => match *probe {
                ProbeState::Pending => result matches Ok(InstallStep::Probe(call)) && invokes(
                    call,
                    package_manager@,
                    seq!["--version"@],
                ),
                ProbeState::Finished(outcome) => if probed_version(outcome) is Some {
                    &&& result matches Ok(InstallStep::Run(plan))
                    &&& plan.operation@ == "install"@
                    &&& invokes(plan.invocation, package_manager@, args)
                } else {
                    result matches Err(error) && error is PackageManagerUnavailable
                },
            },
        },
{
    let invocation = match install_invocation(package_manager) {
        Some(call) => call,
        None => {
            return Err(OpenSpecCommandError::UnsupportedPackageManager);
        },
    };
    match probe {
        ProbeState::Pending => Ok(InstallStep::Probe(version_probe(package_manager))),
        ProbeState::Finished(outcome) => {
            if command_version(outcome.as_ref()).is_some() {
                Ok(InstallStep::Run(PlannedRun { operation: String::from_str("install"), invocation }))
            } else {
                Err(OpenSpecCommandError::PackageManagerUnavailable)
            }
        },
    }
}

/// Plans the command that sets a project up: `openspec init <path> --tools
/// <selection>`, under the label `init`. A custom selection without a tool is
/// reported as `tools_missing`, and nothing is planned.
pub fn openspec_init(request: &OpenSpecInitRequest) -> (result: Result<
    PlannedRun,
    OpenSpecCommandErrorPayload,
>)
    ensures
        match tools_arg(request.tools_mode, texts(request.tools@)) {
            Some(selection) => {
                &&& result matches Ok(plan)
                &&& plan.operation@ == "init"@
                &&& invokes(
                    plan.invocation,
                    "openspec"@,
                    seq!["init"@, request.path@, "--tools"@, selection],
                )
            },
            None => result matches Err(payload) && payload.code@ == "tools_missing"@,
        },
{
    let selection = match build_tools_arg(&request.tools_mode, request.tools.as_slice()) {
        Ok(selection) => selection,
        Err(error) => {
            return Err(OpenSpecCommandErrorPayload::from(error));
        },
    };
    let mut args: Vec<String> = Vec::new();
    args.push(String::from_str("init"));
    args.push(request.path.clone());
    args.push(String::from_str("--tools"));
    let ghost chosen = selection@;
    args.push(selection);
    assert(texts(args@) =~= seq!["init"@, request.path@, "--tools"@, chosen]);
    Ok(
        PlannedRun {
            operation: String::from_str("init"),
            invocation: Invocation { program: String::from_str("openspec"), args, working_dir: None },
        },
    )
}

/// The command whose help text lists the supported tools.
pub fn tools_help_invocation() -> (invocation: Invocation)
    ensures
        invokes(invocation, "openspec"@, seq!["init"@, "--help"@]),
{
    let mut args: Vec<String> = Vec::new();
    args.push(String::from_str("init"));
    args.push(String::from_str("--help"));
    assert(texts(args@) =~= seq!["init"@, "--help"@]);
    Invocation { program: String::from_str("openspec"), args, working_dir: None }
}

/// Reads the supported tools out of what the help command wrote, given as
/// decoded text.
pub fn tools_from_help(stdout: &str, stderr: &str) -> (result: Result<
    Vec<String>,
    OpenSpecCommandError,
>)
    ensures
        match result {
            Ok(tools) => tools@.len() > 0 && texts(tools@) == listed_tools(
                help_text(stdout@, stderr@),
            ),
            Err(error) => error is ToolsParseFailed && listed_tools(
                help_text(stdout@, stderr@),
            ).len() == 0,
        },
{
    let mut combined = String::from_str(stdout);
    combined.push('\n');
    combined.append(stderr);
    assert(combined@ =~= help_text(stdout@, stderr@));
    parse_openspec_tools(combined.as_str())
}

/// What the listing of the supported tools comes to, as a failure or as the
/// text to read the tools from.
pub open spec fn tools_source(outcome: Result<CommandOutput, SpawnFailure>) -> Result<
    Seq<char>,
    OpenSpecCommandError,
> {
    match outcome {
        Err(SpawnFailure::NotFound) => Err(OpenSpecCommandError::CliUnavailable),
        Err(SpawnFailure::Other(detail)) => Err(OpenSpecCommandError::Io(detail)),
        Ok(output) => if output.success {
            Ok(help_text(lossy_text(output.stdout@), lossy_text(output.stderr@)))
        } else {
            Err(OpenSpecCommandError::CliUnavailable)
        },
    }
}

/// Lists the supported tools, given how the help command went.
///
/// A tool that cannot be found, or whose help command fails, is reported as
/// `openspec_unavailable`; any other refusal to start it as `io_error`; a help
/// text without a list of tools as `tools_parse_failed`.
pub fn openspec_tools(outcome: Result<CommandOutput, SpawnFailure>) -> (result: Result<
    Vec<String>,
    OpenSpecCommandErrorPayload,
>)
    ensures
        match tools_source(outcome) {
            Err(error) => result matches Err(payload) && payload.code@ == command_code(error),
            Ok(help) => match result {
                Ok(tools) => tools@.len() > 0 && texts(tools@) == listed_tools(help),
                Err(payload) => payload.code@ == "tools_parse_failed"@ && listed_tools(
                    help,
                ).len() == 0,
            },
        },
{
    let output = match outcome {
        Ok(output) => output,
        Err(SpawnFailure::NotFound) => {
            return Err(OpenSpecCommandErrorPayload::from(OpenSpecCommandError::CliUnavailable));
        },
        Err(SpawnFailure::Other(detail)) => {
            return Err(OpenSpecCommandErrorPayload::from(OpenSpecCommandError::Io(detail)));
        },
    };
    if !output.success {
        return Err(OpenSpecCommandErrorPayload::from(OpenSpecCommandError::CliUnavailable));
    }
    let stdout = decode_lossy(output.stdout.as_slice());
    let stderr = decode_lossy(output.stderr.as_slice());
    match tools_from_help(stdout.as_str(), stderr.as_str()) {
        Ok(tools) => Ok(tools),
        Err(error) => Err(OpenSpecCommandErrorPayload::from(error)),
    }
}

} // verus!
