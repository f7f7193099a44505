use openspec_backend::discovery::{
    discover_project, discover_project_info, repo_name_from, toplevel_query, DiscoveryFacts,
    DiscoveryStep,
};
use openspec_backend::errors::DiscoveryError;
use openspec_backend::process::{CommandOutput, ProbeState};

fn answered(success: bool, stdout: &str) -> ProbeState {
    ProbeState::Finished(Some(CommandOutput {
        success,
        stdout: stdout.as_bytes().to_vec(),
        stderr: Vec::new(),
    }))
}

fn directory(git: ProbeState, marker: Option<bool>) -> DiscoveryFacts {
    DiscoveryFacts { path_exists: true, path_is_dir: true, git, marker }
}

#[test]
fn rejects_non_git_directory() {
    let facts = DiscoveryFacts {
        path_exists: true,
        path_is_dir: true,
        git: ProbeState::Finished(Some(CommandOutput {
            success: false,
            stdout: Vec::new(),
            stderr: b"fatal: not a git repository (or any of the parent directories): .git\n".to_vec(),
        })),
        marker: None,
    };
    let error = discover_project_info("/tmp/plain", &facts).expect_err("expected error");
    assert!(matches!(error, DiscoveryError::NotGitWorkTree));
}

#[test]
fn detects_repo_without_openspec() {
    let facts = directory(answered(true, "/tmp/work/repo\n"), Some(false));
    let result = match discover_project_info("/tmp/work/repo", &facts).expect("discovery succeeds") {
        DiscoveryStep::Done(found) => found,
        other => panic!("unexpected step {other:?}"),
    };
    assert!(!result.openspec_present);
    assert_eq!(result.repo_path, "/tmp/work/repo".to_string());
}

#[test]
fn detects_openspec_and_repo_root_from_subdir() {
    let facts = directory(answered(true, "/tmp/work/repo\n"), Some(true));
    let result = match discover_project_info("/tmp/work/repo/nested", &facts).expect("discovery succeeds") {
        DiscoveryStep::Done(found) => found,
        other => panic!("unexpected step {other:?}"),
    };
    assert!(result.openspec_present);
    assert_eq!(result.repo_path, "/tmp/work/repo".to_string());
    assert_eq!(result.repo_name, "repo");
}

#[test]
fn missing_path_is_reported_whatever_else_is_known() {
    for is_dir in [false, true] {
        for marker in [None, Some(true)] {
            let facts = DiscoveryFacts {
                path_exists: false,
                path_is_dir: is_dir,
                git: answered(true, "/somewhere\n"),
                marker,
            };
            let error = discover_project_info("/nowhere", &facts).expect_err("expected error");
            assert!(matches!(error, DiscoveryError::MissingPath));
            let payload = discover_project("/nowhere", &facts).expect_err("expected error");
            assert_eq!(payload.code, "path_not_found");
            assert_eq!(payload.message, "Path does not exist");
        }
    }
}

#[test]
fn file_is_reported_as_no_directory() {
    let facts = DiscoveryFacts {
        path_exists: true,
        path_is_dir: false,
        git: ProbeState::Pending,
        marker: None,
    };
    let error = discover_project_info("/etc/hosts", &facts).expect_err("expected error");
    assert!(matches!(error, DiscoveryError::NotDirectory));
    let payload = discover_project("/etc/hosts", &facts).expect_err("expected error");
    assert_eq!(payload.code, "path_not_directory");
}

#[test]
fn directory_outside_a_work_tree_is_reported_by_code() {
    let facts = directory(answered(false, ""), None);
    let payload = discover_project("/tmp/plain", &facts).expect_err("expected error");
    assert_eq!(payload.code, "not_git_work_tree");
    assert_eq!(payload.message, "Path is not a git work tree");
}

#[test]
fn directory_is_queried_first() {
    let facts = directory(ProbeState::Pending, None);
    match discover_project_info("/tmp/my repo", &facts).expect("a step") {
        DiscoveryStep::QueryGit(call) => {
            assert_eq!(call.program, "git");
            assert_eq!(call.args, vec!["-C", "/tmp/my repo", "rev-parse", "--show-toplevel"]);
            assert_eq!(call.working_dir, None);
        }
        other => panic!("unexpected step {other:?}"),
    }
    let query = toplevel_query("x");
    assert_eq!(query.args, vec!["-C", "x", "rev-parse", "--show-toplevel"]);
}

#[test]
fn unavailable_tool_is_reported() {
    let facts = directory(ProbeState::Finished(None), None);
    let error = discover_project_info("/tmp/repo", &facts).expect_err("expected error");
    assert!(matches!(error, DiscoveryError::GitUnavailable));
    assert_eq!(discover_project("/tmp/repo", &facts).expect_err("expected error").code, "git_unavailable");
}

#[test]
fn empty_answer_is_reported() {
    for stdout in ["", "\n", "  \r\n\t"] {
        let facts = directory(answered(true, stdout), Some(true));
        let error = discover_project_info("/tmp/repo", &facts).expect_err("expected error");
        assert!(matches!(error, DiscoveryError::RepoRootUnavailable));
        assert_eq!(
            discover_project("/tmp/repo", &facts).expect_err("expected error").code,
            "repo_root_unavailable"
        );
    }
}

#[test]
fn marker_is_looked_up_under_the_trimmed_root() {
    let facts = directory(answered(true, "  /home/me/project \r\n"), None);
    match discover_project_info("/home/me/project/src", &facts).expect("a step") {
        DiscoveryStep::CheckMarker { root, marker } => {
            assert_eq!(root, "/home/me/project");
            assert_eq!(marker, "openspec");
        }
        other => panic!("unexpected step {other:?}"),
    }
}

#[test]
fn root_without_a_last_component_is_its_own_name() {
    let facts = directory(answered(true, "/\n"), Some(false));
    match discover_project_info("/", &facts).expect("discovery succeeds") {
        DiscoveryStep::Done(found) => {
            assert_eq!(found.repo_path, "/");
            assert_eq!(found.repo_name, "/");
            assert!(!found.openspec_present);
        }
        other => panic!("unexpected step {other:?}"),
    }
}

#[test]
fn repo_name_prefers_the_component() {
    assert_eq!(repo_name_from(Some("repo".to_string()), "/tmp/repo"), "repo");
    assert_eq!(repo_name_from(None, "/tmp/.."), "/tmp/..");
}

#[test]
fn malformed_answer_is_decoded_with_replacements() {
    let facts = DiscoveryFacts {
        path_exists: true,
        path_is_dir: true,
        git: ProbeState::Finished(Some(CommandOutput {
            success: true,
            stdout: b"/tmp/caf\xE9\n".to_vec(),
            stderr: Vec::new(),
        })),
        marker: Some(false),
    };
    match discover_project_info("/tmp", &facts).expect("discovery succeeds") {
        DiscoveryStep::Done(found) => {
            assert_eq!(found.repo_path, "/tmp/caf\u{FFFD}");
            assert_eq!(found.repo_name, "caf\u{FFFD}");
        }
        other => panic!("unexpected step {other:?}"),
    }
}
