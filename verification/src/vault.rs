//! What passes between the operator and the vault's command-line client.
//!
//! The library never starts the client. It says which command to run, as a
//! list of arguments, and is told how the run ended, as a [`CommandResult`].

use vstd::prelude::*;
use vstd::string::StringExecFns;

verus! {

/// The name of the vault's command-line client.
pub const PROGRAM: &'static str = "bw";

/// What a finished run of the client left behind.
#[derive(Debug, Clone, PartialEq, Eq)]
pub struct CommandOutput {
    /// Whether the client exited with status zero.
    pub success: bool,
    /// What the client wrote to its standard output.
    pub stdout: String,
    /// What the client wrote to its standard error.
    pub stderr: String,
}

/// How an attempt to run the client ended.
#[derive(Debug, Clone, PartialEq, Eq)]
pub enum CommandResult {
    /// The client ran to its end.
    Finished(CommandOutput),
    /// The client could not be started; the system's reason is kept.
    NotStarted { reason: String },
}

/// What is reported of a run that exited with a status other than zero:
/// `<label> failed: stdout: <stdout>`, a line break, `stderr: <stderr>`.
pub open spec fn failure_report(label: Seq<char>, stdout: Seq<char>, stderr: Seq<char>) -> Seq<char> {
    label + " failed: stdout: "@ + stdout + "\nstderr: "@ + stderr
}

/// The report of a failed run, see [`failure_report`].
pub fn report_failure(label: &str, stdout: &str, stderr: &str) -> (report: String)
    ensures
        report@ == failure_report(label@, stdout@, stderr@),
{
    let mut report = String::from_str(label);
    report.append(" failed: stdout: ");
    report.append(stdout);
    report.append("\nstderr: ");
    report.append(stderr);
    report
}

/// The views of a list of arguments.
pub open spec fn arguments(args: Seq<String>) -> Seq<Seq<char>> {
    Seq::new(args.len(), |i: int| args[i]@)
}

} // verus!
