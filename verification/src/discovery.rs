//! Recognising a folder as a project under version control: which question to
//! put next, and what the answers add up to.

use crate::commands::invokes;
use crate::errors::{discovery_code, DiscoveryError, ProjectDiscoveryErrorPayload};
use crate::process::{decode_lossy, lossy_text, CommandOutput, Invocation, ProbeState};
use crate::text::{from_chars, matches_at, texts, to_chars, trim, trim_chars};
use vstd::prelude::*;
use vstd::string::StringExecFns;

verus! {

/// What is reported of a folder that was recognised as a project.
#[derive(Debug)]
pub struct ProjectDiscovery {
    /// The top-level directory of the repository.
    pub repo_path: String,
    /// The name of that directory.
    pub repo_name: String,
    /// Whether the repository holds the marker directory.
    pub openspec_present: bool,
}

/// What has been found out about a folder so far.
#[derive(Debug)]
pub struct DiscoveryFacts {
    /// Whether anything exists at the path.
    pub path_exists: bool,
    /// Whether a directory exists at the path.
    pub path_is_dir: bool,
    /// How the query for the top-level directory went.
    pub git: ProbeState,
    /// Whether the marker directory stands directly under the top-level
    /// directory, once that has been looked up.
    pub marker: Option<bool>,
}

/// What to do next on the way to recognising a project.
#[derive(Debug)]
pub enum DiscoveryStep {
    /// Run this query for the top-level directory, and ask again.
    QueryGit(Invocation),
    /// Look up whether `root` holds a directory named `marker`, and ask again.
    CheckMarker { root: String, marker: String },
    /// The folder is a project.
    Done(ProjectDiscovery),
}

/// The top-level directory that a successful query names.
pub open spec fn repo_root(output: CommandOutput) -> Seq<char> {
    trim(lossy_text(output.stdout@))
}

/// The failure that the facts amount to, if any: the first that applies of a
/// missing path, a path that is no directory, a version control tool that
/// cannot be started, a folder outside any work tree, and an empty answer.
pub open spec fn discovery_failure(facts: DiscoveryFacts) -> Option<DiscoveryError> {
    if !facts.path_exists {
        Some(DiscoveryError::MissingPath)
    } else if !facts.path_is_dir {
        Some(DiscoveryError::NotDirectory)
    } else {
        match facts.git {
            ProbeState::Pending => None,
            ProbeState::Finished(None) => Some(DiscoveryError::GitUnavailable),
            ProbeState::Finished(Some(output)) => if !output.success {
                Some(DiscoveryError::NotGitWorkTree)
            } else if repo_root(output).len() == 0 {
                Some(DiscoveryError::RepoRootUnavailable)
            } else {
                None
            },
        }
    }
}

/// Whether `piece` stands somewhere in `whole`.
pub open spec fn occurs_in(whole: Seq<char>, piece: Seq<char>) -> bool {
    exists|i: int| matches_at(whole, piece, i)
}

/// The name reported for a repository: the last component of its path, or
/// the whole path where it has none.
pub open spec fn name_or_path(component: Option<Seq<char>>, root: Seq<char>) -> Seq<char> {
    match component {
        Some(name) => name,
        None => root,
    }
}

/// Whether `step` is what the facts call for, given that they amount to no
/// failure.
pub open spec fn step_follows(path: Seq<char>, facts: DiscoveryFacts, step: DiscoveryStep) -> bool {
    match facts.git {
        ProbeState::Pending => step matches DiscoveryStep::QueryGit(call) && invokes(
            call,
            "git"@,
            seq!["-C"@, path, "rev-parse"@, "--show-toplevel"@],
        ),
        ProbeState::Finished(Some(output)) => match facts.marker {
            None => {
                &&& step matches DiscoveryStep::CheckMarker { root, marker }
                &&& root@ == repo_root(output)
                &&& marker@ == "openspec"@
            },
            Some(present) => {
                &&& step matches DiscoveryStep::Done(found)
                &&& found.repo_path@ == repo_root(output)
                &&& found.openspec_present == present
                &&& occurs_in(repo_root(output), found.repo_name@)
            },
        },
        ProbeState::Finished(None) => false,
    }
}

/// Calls `Path::file_name` on the path that `root` spells, and hands back the
/// name where it is valid Unicode. Which part of the path counts as its last
/// component is up to the platform; all that is stated is that the name is a
/// stretch of the path.
#[verifier::external_body]
fn last_component(root: &str) -> (name: Option<String>)
    ensures
        name matches Some(text) ==> occurs_in(root@, text@),
{
    std::path::Path::new(root).file_name().and_then(|name| name.to_str()).map(String::from)
}

/// The name reported for the repository at `root`, given the last component
/// of that path, if it has one.
pub fn repo_name_from(component: Option<String>, root: &str) -> (name: String)
    ensures
        name@ == name_or_path(
            match component {
                Some(text) => Some(text@),
                None => None,
            },
            root@,
        ),
{
    match component {
        Some(text) => text,
        None => String::from_str(root),
    }
}

/// The query that names the top-level directory of the repository around
/// `path`.
pub fn toplevel_query(path: &str) -> (invocation: Invocation)
    ensures
        invokes(invocation, "git"@, seq!["-C"@, path@, "rev-parse"@, "--show-toplevel"@]),
{
    let mut args: Vec<String> = Vec::new();
    args.push(String::from_str("-C"));
    args.push(String::from_str(path));
    args.push(String::from_str("rev-parse"));
    args.push(String::from_str("--show-toplevel"));
    assert(texts(args@) =~= seq!["-C"@, path@, "rev-parse"@, "--show-toplevel"@]);
    Invocation { program: String::from_str("git"), args, working_dir: None }
}

/// Decides what the facts about the folder at `path` amount to: a failure,
/// the next thing to find out, or the recognised project.
///
/// The path is judged first, then the answer of the version control tool.
/// The top-level directory is the tool's answer without surrounding white
/// space.
pub fn discover_project_info(path: &str, facts: &DiscoveryFacts) -> (result: Result<
    DiscoveryStep,
    DiscoveryError,
>)
    ensures
        match discovery_failure(*facts) {
            Some(failure) => result matches Err(error) && error == failure,
            None => result matches Ok(step) && step_follows(path@, *facts, step),
        },
{
    if !facts.path_exists {
        return Err(DiscoveryError::MissingPath);
    }
    if !facts.path_is_dir {
        return Err(DiscoveryError::NotDirectory);
    }
    let output = match &facts.git {
        ProbeState::Pending => {
            return Ok(DiscoveryStep::QueryGit(toplevel_query(path)));
        },
        ProbeState::Finished(None) => {
            return Err(DiscoveryError::GitUnavailable);
        },
        ProbeState::Finished(Some(output)) => output,
    };
    if !output.success {
        return Err(DiscoveryError::NotGitWorkTree);
    }
    let answer = decode_lossy(output.stdout.as_slice());
    let root_chars = trim_chars(&to_chars(answer.as_str()));
    if root_chars.len() == 0 {
        return Err(DiscoveryError::RepoRootUnavailable);
    }
    let root = from_chars(&root_chars);
    match facts.marker {
        None => Ok(DiscoveryStep::CheckMarker { root, marker: String::from_str("openspec") }),
        Some(present) => {
            let component = last_component(root.as_str());
            let repo_name = repo_name_from(component, root.as_str());
            proof {
                if component is None {
                    assert(matches_at(root@, root@, 0)) by {
                        assert(root@.subrange(0, root@.len() as int) =~= root@);
                    }
                }
            }
            Ok(
                DiscoveryStep::Done(
                    ProjectDiscovery { repo_path: root, repo_name, openspec_present: present },
                ),
            )
        },
    }
}

/// As `discover_project_info`, with a failure reported as the payload that
/// the caller is shown.
pub fn discover_project(path: &str, facts: &DiscoveryFacts) -> (result: Result<
    DiscoveryStep,
    ProjectDiscoveryErrorPayload,
>)
    ensures
        match discovery_failure(*facts) {
            Some(failure) => result matches Err(payload) && payload.code@ == discovery_code(
                failure,
            ),
            None => result matches Ok(step) && step_follows(path@, *facts, step),
        },
{
    match discover_project_info(path, facts) {
        Ok(step) => Ok(step),
        Err(error) => Err(ProjectDiscoveryErrorPayload::from(error)),
    }
}

} // verus!
