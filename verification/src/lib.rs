//! A version-gated command dispatcher: decides, from the active toolchain
//! identity and an `only`/`skip` filter, whether a subcommand should run at
//! all; classifies the subcommand as a package-manager subcommand or an
//! external program; assembles the command line to spawn; and determines the
//! parent's own exit status from the child's outcome.

pub mod classify;
pub mod dispatch;
pub mod gate;
pub mod plan;
pub mod report;
pub mod resolve;
