//! Whether the tool and the package managers are installed, judged from a run
//! with `--version`.

use crate::process::{decode_lossy, lossy_text, CommandOutput};
use crate::text::{from_chars, to_chars, trim, trim_chars};
use vstd::prelude::*;
use vstd::string::StringExecFns;

verus! {

/// What is reported of one package manager.
#[derive(Debug)]
pub struct PackageManagerStatus {
    pub name: String,
    pub installed: bool,
    pub version: Option<String>,
}

/// What is reported of the tool itself.
#[derive(Debug)]
pub struct OpenSpecCliStatus {
    pub available: bool,
    pub version: Option<String>,
}

/// The version text of a successful run: the trimmed standard output unless it
/// is empty, else the trimmed standard error, which may be empty too.
pub open spec fn version_text(stdout: Seq<char>, stderr: Seq<char>) -> Seq<char> {
    if trim(stdout).len() > 0 {
        trim(stdout)
    } else {
        trim(stderr)
    }
}

/// The version that a probe reports: none where the command could not be
/// started or did not succeed.
pub open spec fn probed_version(outcome: Option<CommandOutput>) -> Option<Seq<char>> {
    match outcome {
        Some(output) => if output.success {
            Some(version_text(lossy_text(output.stdout@), lossy_text(output.stderr@)))
        } else {
            None
        },
        None => None,
    }
}

/// The outcome that a borrowed outcome stands for.
pub open spec fn owned(outcome: Option<&CommandOutput>) -> Option<CommandOutput> {
    match outcome {
        Some(output) => Some(*output),
        None => None,
    }
}

/// Whether `version` is the text of `expected`, or both are absent.
pub open spec fn version_is(version: Option<String>, expected: Option<Seq<char>>) -> bool {
    match version {
        Some(text) => expected == Some(text@),
        None => expected is None,
    }
}

/// The names of the package managers that can install the tool, in the order
/// in which they are reported.
pub open spec fn package_manager_names() -> Seq<Seq<char>> {
    seq!["npm"@, "bun"@, "yarn"@, "pnpm"@]
}

/// Picks the version text out of what a successful run wrote.
pub fn preferred_version(stdout: &str, stderr: &str) -> (version: String)
    ensures
        version@ == version_text(stdout@, stderr@),
{
    let out = trim_chars(&to_chars(stdout));
    if out.len() > 0 {
        from_chars(&out)
    } else {
        from_chars(&trim_chars(&to_chars(stderr)))
    }
}

/// The version that a run with `--version` reports. `None` stands for a
/// command that could not be started; that, like a run without success, means
/// "not installed" and is no error.
pub fn command_version(outcome: Option<&CommandOutput>) -> (version: Option<String>)
    ensures
        version_is(version, probed_version(owned(outcome))),
{
    match outcome {
        Some(output) => {
            if !output.success {
                return None;
            }
            let stdout = decode_lossy(output.stdout.as_slice());
            let stderr = decode_lossy(output.stderr.as_slice());
            Some(preferred_version(stdout.as_str(), stderr.as_str()))
        },
        None => None,
    }
}

/// The status of the package manager `name`, given how its probe went.
pub fn package_manager_status(name: &str, outcome: Option<&CommandOutput>) -> (status:
    PackageManagerStatus)
    ensures
        status.name@ == name@,
        status.installed == probed_version(owned(outcome)).is_some(),
        version_is(status.version, probed_version(owned(outcome))),
{
    let version = command_version(outcome);
    PackageManagerStatus { name: String::from_str(name), installed: version.is_some(), version }
}

/// The status of the tool, given how its probe went.
pub fn openspec_cli_status(outcome: Option<&CommandOutput>) -> (status: OpenSpecCliStatus)
    ensures
        status.available == probed_version(owned(outcome)).is_some(),
        version_is(status.version, probed_version(owned(outcome))),
{
    let version = command_version(outcome);
    OpenSpecCliStatus { available: version.is_some(), version }
}

/// The names of the known package managers.
pub fn known_package_managers() -> (names: [&'static str; 4])
    ensures
        names@.len() == 4,
        forall|i: int| 0 <= i < 4 ==> (#[trigger] names@[i])@ == package_manager_names()[i],
{
    ["npm", "bun", "yarn", "pnpm"]
}

/// The statuses of all known package managers, given the outcome of each
/// one's probe in the order of `known_package_managers`.
pub fn package_manager_statuses(outcomes: &[Option<CommandOutput>; 4]) -> (statuses: Vec<
    PackageManagerStatus,
>)
    ensures
        statuses@.len() == 4,
        forall|i: int|
            0 <= i < 4 ==> {
                &&& (#[trigger] statuses@[i]).name@ == package_manager_names()[i]
                &&& statuses@[i].installed == probed_version(outcomes@[i]).is_some()
                &&& version_is(statuses@[i].version, probed_version(outcomes@[i]))
            },
{
    let names = known_package_managers();
    let mut statuses: Vec<PackageManagerStatus> = Vec::new();
    let mut i: usize = 0;
    while i < 4
        invariant
            i <= 4,
            statuses@.len() == i,
            names@.len() == 4,
            forall|j: int| 0 <= j < 4 ==> (#[trigger] names@[j])@ == package_manager_names()[j],
            forall|j: int|
                0 <= j < i ==> {
                    &&& (#[trigger] statuses@[j]).name@ == package_manager_names()[j]
                    &&& statuses@[j].installed == probed_version(outcomes@[j]).is_some()
                    &&& version_is(statuses@[j].version, probed_version(outcomes@[j]))
                },
        decreases 4 - i,
    {
        let status = package_manager_status(names[i], outcomes[i].as_ref());
        statuses.push(status);
        i += 1;
    }
    statuses
}

} // verus!
