use openspec_backend::commands::{
    install_invocation, install_openspec_cli, openspec_init, openspec_tools, tools_from_help,
    tools_help_invocation, version_probe, InstallStep, OpenSpecInitRequest,
};
use openspec_backend::errors::OpenSpecCommandError;
use openspec_backend::process::{CommandOutput, ProbeState, SpawnFailure};
use openspec_backend::tools::OpenSpecToolsMode;

fn output(success: bool, stdout: &str, stderr: &str) -> CommandOutput {
    CommandOutput { success, stdout: stdout.as_bytes().to_vec(), stderr: stderr.as_bytes().to_vec() }
}

#[test]
fn each_supported_manager_has_its_install_command() {
    let expected = [
        ("npm", ["install", "-g", "@fission-ai/openspec@latest"]),
        ("bun", ["add", "-g", "@fission-ai/openspec@latest"]),
        ("yarn", ["global", "add", "@fission-ai/openspec@latest"]),
        ("pnpm", ["add", "-g", "@fission-ai/openspec@latest"]),
    ];
    for (manager, args) in expected {
        let call = install_invocation(manager).expect("supported");
        assert_eq!(call.program, manager);
        assert_eq!(call.args, args);
        assert_eq!(call.working_dir, None);
    }
}

#[test]
fn unsupported_manager_is_refused_before_anything_runs() {
    for manager in ["pip", "", "NPM", "npm ", "cargo"] {
        assert!(install_invocation(manager).is_none());
        for probe in [
            ProbeState::Pending,
            ProbeState::Finished(None),
            ProbeState::Finished(Some(output(true, "1.0\n", ""))),
        ] {
            let result = install_openspec_cli(manager, &probe);
            assert!(matches!(result, Err(OpenSpecCommandError::UnsupportedPackageManager)));
        }
    }
}

#[test]
fn supported_manager_is_probed_first() {
    match install_openspec_cli("pnpm", &ProbeState::Pending).expect("a step") {
        InstallStep::Probe(call) => {
            assert_eq!(call.program, "pnpm");
            assert_eq!(call.args, vec!["--version"]);
            assert_eq!(call.working_dir, None);
        }
        other => panic!("unexpected step {other:?}"),
    }
    let probe = version_probe("openspec");
    assert_eq!(probe.program, "openspec");
    assert_eq!(probe.args, vec!["--version"]);
}

#[test]
fn manager_that_is_not_installed_is_unavailable() {
    for probe in [ProbeState::Finished(None), ProbeState::Finished(Some(output(false, "", "not found")))] {
        let result = install_openspec_cli("yarn", &probe);
        assert!(matches!(result, Err(OpenSpecCommandError::PackageManagerUnavailable)));
    }
}

#[test]
fn installed_manager_runs_the_installation() {
    let probe = ProbeState::Finished(Some(output(true, "1.1.38\n", "")));
    match install_openspec_cli("bun", &probe).expect("a step") {
        InstallStep::Run(plan) => {
            assert_eq!(plan.operation, "install");
            assert_eq!(plan.invocation.program, "bun");
            assert_eq!(plan.invocation.args, vec!["add", "-g", "@fission-ai/openspec@latest"]);
            assert_eq!(plan.invocation.working_dir, None);
        }
        other => panic!("unexpected step {other:?}"),
    }
}

#[test]
fn init_passes_path_and_selection() {
    let request = OpenSpecInitRequest {
        path: "/home/me/my project".to_string(),
        tools_mode: OpenSpecToolsMode::Custom,
        tools: vec![" cursor".to_string(), "".to_string(), "cline ".to_string()],
    };
    let plan = openspec_init(&request).expect("a plan");
    assert_eq!(plan.operation, "init");
    assert_eq!(plan.invocation.program, "openspec");
    assert_eq!(plan.invocation.args, vec!["init", "/home/me/my project", "--tools", "cursor,cline"]);
    assert_eq!(plan.invocation.working_dir, None);

    let all = OpenSpecInitRequest { path: ".".to_string(), tools_mode: OpenSpecToolsMode::All, tools: vec![] };
    assert_eq!(openspec_init(&all).expect("a plan").invocation.args, vec!["init", ".", "--tools", "all"]);
    let none = OpenSpecInitRequest { path: ".".to_string(), tools_mode: OpenSpecToolsMode::NoTools, tools: vec![] };
    assert_eq!(openspec_init(&none).expect("a plan").invocation.args, vec!["init", ".", "--tools", "none"]);
}

#[test]
fn init_without_tools_is_refused() {
    let request = OpenSpecInitRequest {
        path: "/tmp/p".to_string(),
        tools_mode: OpenSpecToolsMode::Custom,
        tools: vec!["  ".to_string()],
    };
    let payload = openspec_init(&request).expect_err("refused");
    assert_eq!(payload.code, "tools_missing");
    assert_eq!(payload.message, "Select at least one tool");
}

#[test]
fn help_command_is_init_help() {
    let call = tools_help_invocation();
    assert_eq!(call.program, "openspec");
    assert_eq!(call.args, vec!["init", "--help"]);
    assert_eq!(call.working_dir, None);
}

#[test]
fn tools_are_read_from_both_streams() {
    let from_stdout = openspec_tools(Ok(output(true, "Use a list of: auggie, cline\n", ""))).expect("tools");
    assert_eq!(from_stdout, vec!["auggie", "cline"]);
    let from_stderr = openspec_tools(Ok(output(true, "Usage: x\n", "Use a list of: cursor.\n"))).expect("tools");
    assert_eq!(from_stderr, vec!["cursor"]);
    let across = tools_from_help("a list of: one,", "two\n-h").expect("tools");
    assert_eq!(across, vec!["one", "two"]);
}

#[test]
fn listing_failures_are_reported_by_code() {
    let missing = openspec_tools(Err(SpawnFailure::NotFound)).expect_err("failure");
    assert_eq!(missing.code, "openspec_unavailable");
    let refused = openspec_tools(Err(SpawnFailure::Other("EACCES".to_string()))).expect_err("failure");
    assert_eq!(refused.code, "io_error");
    assert_eq!(refused.message, "Command failed to run");
    let failed = openspec_tools(Ok(output(false, "a list of: x", ""))).expect_err("failure");
    assert_eq!(failed.code, "openspec_unavailable");
    let unreadable = openspec_tools(Ok(output(true, "nothing here", "nor here"))).expect_err("failure");
    assert_eq!(unreadable.code, "tools_parse_failed");
    assert_eq!(unreadable.message, "Unable to parse the OpenSpec tools list");
}
