//! The texts the dispatcher reports: the fatal messages it can die with, the
//! informational line printed before a command runs, and the exit codes it
//! reserves for itself. Formatting and colouring are the logger's concern;
//! these functions only fix the wording.

use vstd::prelude::*;

verus! {

/// The exit code of every internal fatal condition, distinct from forwarded
/// child exit codes only by convention.
pub const FATAL_EXIT_CODE: i32 = 255;

/// The exit code of a silent no-op, when the version gate refuses the run.
pub const NOOP_EXIT_CODE: i32 = 0;

/// A fatal report that carries its underlying cause on a second line.
pub fn bail(message: &str, cause: &str) -> (r: String)
    ensures
        r@ == message@ + "\n            due to: "@ + cause@,
{
    let mut out = String::from_str(message);
    out.append("\n            due to: ");
    out.append(cause);
    out
}

/// The fatal message when no subcommand was supplied at all.
pub fn missing_subcommand_message() -> (r: String)
    ensures
        r@ == "a subcommand is required."@,
{
    String::from_str("a subcommand is required.")
}

/// The fatal message when the child was killed by a signal instead of
/// exiting normally.
pub fn signal_termination_message() -> (r: String)
    ensures
        r@ == "command terminated by signal."@,
{
    String::from_str("command terminated by signal.")
}

/// The fatal message when a command could not be started at all.
pub fn spawn_failure_message(command_line: &str) -> (r: String)
    ensures
        r@ == "failed to run `"@ + command_line@ + "`."@,
{
    let mut out = String::from_str("failed to run `");
    out.append(command_line);
    out.append("`.");
    out
}

/// The informational line logged before the resolved command is spawned.
pub fn running_message(command_line: &str) -> (r: String)
    ensures
        r@ == "running `"@ + command_line@ + "`."@,
{
    let mut out = String::from_str("running `");
    out.append(command_line);
    out.append("`.");
    out
}

} // verus!
