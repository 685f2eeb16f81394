//! The dispatcher's decision machine. Every decision of one invocation —
//! whether to resolve the toolchain identity, whether the version gate lets the
//! command run, what to spawn, and what exit status the parent takes — is a
//! pure function of the invocation and of the last outside event. The
//! process layer only performs the returned action and hands back what
//! happened; it decides nothing itself.

use vstd::prelude::*;

use crate::classify::{is_cargo_subcommand, subcommand_listed};
use crate::dispatch::{build_command, CommandSpec, ExitOutcome};
use crate::gate::{gate_allows, needs_identity, should_run, spec_needs_identity, VersionFilter};
use crate::report::{missing_subcommand_message, signal_termination_message};
use crate::resolve::{override_identity, resolve_from_overrides, Resolution};

verus! {

/// Everything the CLI layer hands the dispatcher for one invocation.
#[derive(Clone)]
pub struct Invocation {
    /// The subcommand named on the command line, if any.
    pub subcommand: Option<String>,
    /// The arguments after the subcommand, forwarded verbatim.
    pub trailing: Vec<String>,
    /// The version gate configured by the `only`/`skip` flags.
    pub filter: VersionFilter,
    /// The CI-provided toolchain override, read from the environment.
    pub ci_override: Option<String>,
    /// The override set by an active toolchain shim, read from the
    /// environment.
    pub shim_override: Option<String>,
    /// The binary name of the wrapped package manager.
    pub manager: String,
}

/// What the process layer must do next. Every action but the two queries
/// and `Spawn` ends the invocation.
pub enum Action {
    /// Run the toolchain manager's "show active toolchain" query and hand
    /// back its decoded stdout as [`Event::IdentityKnown`].
    QueryIdentity,
    /// Run the package manager's "list subcommands" query and hand back its
    /// decoded stdout as [`Event::ListingKnown`].
    QueryListing,
    /// Spawn this command with inherited stdout and stderr and hand back
    /// how it ended as [`Event::Finished`].
    Spawn(CommandSpec),
    /// The version gate refused the run: exit successfully, doing nothing.
    ExitSilently,
    /// Exit with the child's own exit code, unchanged.
    PropagateExit(i32),
    /// Report the message as fatal and exit with the fatal exit code.
    Fail(String),
}

/// What the outside world reported back to the decision machine.
pub enum Event {
    /// The invocation begins.
    Start,
    /// The toolchain identity, from an override or from the toolchain
    /// manager's stdout (taken verbatim, trailing newline included).
    IdentityKnown(String),
    /// The package manager's subcommand listing, decoded from its stdout.
    ListingKnown(String),
    /// The spawned child ended.
    Finished(ExitOutcome),
}

/// One decision step.
///
/// From `Start`, a missing subcommand is immediately fatal and nothing is
/// ever spawned; an unrestricted gate asks for the subcommand listing
/// without ever resolving the toolchain identity; a filtered gate is
/// decided from the overrides when one is set, and otherwise asks for the
/// identity. A refused gate ends the run silently. Once the listing is
/// known, the resolved command is spawned: through the package manager with
/// the subcommand re-inserted as first argument when the listing reports
/// the subcommand, directly and with the trailing arguments unchanged when
/// not. A child that exits normally has its exit code propagated exactly;
/// one killed by a signal is reported as fatal.
pub fn plan_step(inv: Invocation, event: Event) -> (r: Action)
    ensures
        event is Start && inv.subcommand is None ==> (r matches Action::Fail(m) && m@
            == "a subcommand is required."@),
        event is Start && inv.subcommand is Some && !spec_needs_identity(inv.filter) ==> r
            is QueryListing,
        event is Start && inv.subcommand is Some && spec_needs_identity(inv.filter) ==> (
        override_identity(inv.ci_override, inv.shim_override) matches Some(id) ==> r == (if
        gate_allows(inv.filter, id) {
            Action::QueryListing
        } else {
            Action::ExitSilently
        })),
        event is Start && inv.subcommand is Some && spec_needs_identity(inv.filter)
            && override_identity(inv.ci_override, inv.shim_override) is None ==> r
            is QueryIdentity,
        event is Start ==> !(r is Spawn) && !(r is PropagateExit),
        event matches Event::IdentityKnown(id) ==> r == (if gate_allows(inv.filter, id@) {
            Action::QueryListing
        } else {
            Action::ExitSilently
        }),
        event matches Event::ListingKnown(listing) ==> (inv.subcommand matches Some(name) ==> (r
            matches Action::Spawn(c) && (if subcommand_listed(listing@, name@) {
            c.program@ == inv.manager@ && c.arguments.deep_view() == seq![name@]
                + inv.trailing.deep_view()
        } else {
            c.program@ == name@ && c.arguments.deep_view() == inv.trailing.deep_view()
        }))),
        event matches Event::ListingKnown(listing) && inv.subcommand is None ==> (r
            matches Action::Fail(m) && m@ == "a subcommand is required."@),
        event matches Event::Finished(o) ==> (o matches ExitOutcome::Code(code) ==> r
            == Action::PropagateExit(code)),
        event matches Event::Finished(o) && o is Signal ==> (r matches Action::Fail(m) && m@
            == "command terminated by signal."@),
{
    match event {
        Event::Start => {
            if matches!(inv.subcommand, None) {
                return Action::Fail(missing_subcommand_message());
            }
            if !needs_identity(&inv.filter) {
                return Action::QueryListing;
            }
            match resolve_from_overrides(inv.ci_override, inv.shim_override) {
                Resolution::CiOverride(identity) => {
                    if should_run(&inv.filter, identity.as_str()) {
                        Action::QueryListing
                    } else {
                        Action::ExitSilently
                    }
                },
                Resolution::ShimOverride(identity) => {
                    if should_run(&inv.filter, identity.as_str()) {
                        Action::QueryListing
                    } else {
                        Action::ExitSilently
                    }
                },
                Resolution::NeedsQuery => Action::QueryIdentity,
            }
        },
        Event::IdentityKnown(identity) => {
            if should_run(&inv.filter, identity.as_str()) {
                Action::QueryListing
            } else {
                Action::ExitSilently
            }
        },
        Event::ListingKnown(listing) => {
            match inv.subcommand {
                None => Action::Fail(missing_subcommand_message()),
                Some(name) => {
                    let managed = is_cargo_subcommand(name.as_str(), listing.as_str());
                    Action::Spawn(
                        build_command(inv.manager.as_str(), name, inv.trailing, managed),
                    )
                },
            }
        },
        Event::Finished(outcome) => {
            match outcome {
                ExitOutcome::Code(code) => Action::PropagateExit(code),
                ExitOutcome::Signal => Action::Fail(signal_termination_message()),
            }
        },
    }
}

} // verus!
