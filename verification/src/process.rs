//! What is known of an external command once it has been tried, as plain values.

use vstd::prelude::*;
use vstd::utf8::{decode_utf8, valid_utf8};

verus! {

/// What a command that ran to its end left behind.
#[derive(Debug)]
pub struct CommandOutput {
    /// Whether the command reported success.
    pub success: bool,
    /// The bytes it wrote to standard output.
    pub stdout: Vec<u8>,
    /// The bytes it wrote to standard error.
    pub stderr: Vec<u8>,
}

/// A command to start: the executable, its arguments in order, and the
/// directory to start it in, if any.
#[derive(Debug)]
pub struct Invocation {
    pub program: String,
    pub args: Vec<String>,
    pub working_dir: Option<String>,
}

/// What is known of a command that is run only to learn something from it.
#[derive(Debug)]
pub enum ProbeState {
    /// The command has not been tried yet.
    Pending,
    /// The command has been tried; `None` stands for one that could not be
    /// started.
    Finished(Option<CommandOutput>),
}

/// Why a command could not be started.
#[derive(Debug)]
pub enum SpawnFailure {
    /// No executable of that name was found.
    NotFound,
    /// Any other refusal of the operating system, with its description.
    Other(String),
}

/// How a started command ended.
#[derive(Debug)]
pub enum ExitReport {
    /// The command ended with this exit code.
    Exited(i32),
    /// The operating system reported no exit code, only whether the command
    /// counts as successful.
    NoCode { success: bool },
}

/// The text that lossy decoding makes of a byte sequence: well-formed UTF-8 is
/// decoded, and each malformed stretch is replaced by U+FFFD.
pub uninterp spec fn lossy_text(bytes: Seq<u8>) -> Seq<char>;

/// Calls `String::from_utf8_lossy`. The result is named `lossy_text` of the
/// bytes; for bytes that are well-formed UTF-8 it is their decoding, as the
/// standard library documents. How malformed stretches are replaced is not
/// stated here.
#[verifier::external_body]
pub(crate) fn decode_lossy(bytes: &[u8]) -> (text: String)
    ensures
        text@ == lossy_text(bytes@),
        valid_utf8(bytes@) ==> text@ == decode_utf8(bytes@),
{
    String::from_utf8_lossy(bytes).into_owned()
}

} // verus!
