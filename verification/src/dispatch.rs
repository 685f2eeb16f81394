//! Command assembly: from the classifier's verdict, the raw subcommand and
//! the trailing arguments to the exact program and argument vector to spawn,
//! plus the human-readable rendering of that command line.

use vstd::prelude::*;

verus! {

/// The resolved command to execute: a program name and its argument vector,
/// immutable once built.
pub struct CommandSpec {
    pub program: String,
    pub arguments: Vec<String>,
}

/// How the spawned child ended: with a normal exit code, or killed by a
/// signal so that no exit code is available.
pub enum ExitOutcome {
    Code(i32),
    Signal,
}

/// Assemble the command to execute. A subcommand the package manager itself
/// knows runs through the manager, with the subcommand name re-inserted as
/// the first argument; anything else runs directly, with the trailing
/// arguments unchanged.
pub fn build_command(manager: &str, subcommand: String, trailing: Vec<String>, managed: bool) -> (r:
    CommandSpec)
    ensures
        managed ==> r.program@ == manager@ && r.arguments.deep_view() == seq![subcommand@]
            + trailing.deep_view(),
        !managed ==> r.program@ == subcommand@ && r.arguments.deep_view() == trailing.deep_view(),
{
    if managed {
        let ghost before = trailing.deep_view();
        let ghost sub_view = subcommand@;
        let mut arguments = trailing;
        arguments.insert(0, subcommand);
        proof {
            assert(arguments.deep_view() =~= seq![sub_view] + before) by {
                assert forall|k: int| 0 <= k < arguments@.len() implies #[trigger] arguments.deep_view()[k]
                    == (seq![sub_view] + before)[k] by {
                    assert(arguments.deep_view()[k] == arguments@[k]@);
                }
            }
        }
        CommandSpec { program: String::from_str(manager), arguments }
    } else {
        CommandSpec { program: subcommand, arguments: trailing }
    }
}

/// The space-joined rendering of a command line: the program name followed
/// by each argument, separated by single spaces. Display-only.
pub open spec fn rendered(program: Seq<char>, arguments: Seq<Seq<char>>) -> Seq<char>
    decreases arguments.len(),
{
    if arguments.len() == 0 {
        program
    } else {
        rendered(program + seq![' '] + arguments[0], arguments.drop_first())
    }
}

/// Render the command line for the informational log message emitted before
/// execution. Not used for execution itself.
#[verifier::loop_isolation(false)]
pub fn render_command(command: &CommandSpec) -> (r: String)
    ensures
        r@ == rendered(command.program@, command.arguments.deep_view()),
{
    let ghost dv = command.arguments.deep_view();
    let mut out = String::from_str(command.program.as_str());
    let n = command.arguments.len();
    proof {
        assert(dv.skip(0) =~= dv);
    }
    let mut i: usize = 0;
    while i < n
        invariant
            0 <= i <= n,
            n == command.arguments@.len(),
            n == dv.len(),
            rendered(out@, dv.skip(i as int)) == rendered(command.program@, dv),
        decreases n - i,
    {
        let ghost prev = out@;
        out.append(" ");
        out.append(command.arguments[i].as_str());
        proof {
            reveal_strlit(" ");
            assert(" "@ =~= seq![' ']);
            assert(dv[i as int] == command.arguments@[i as int]@);
            assert(out@ == prev + seq![' '] + dv[i as int]);
            assert(dv.skip(i as int)[0] == dv[i as int]);
            assert(dv.skip(i as int).drop_first() =~= dv.skip(i as int + 1));
            assert(rendered(prev, dv.skip(i as int)) == rendered(
                prev + seq![' '] + dv[i as int],
                dv.skip(i as int).drop_first(),
            ));
        }
        i += 1;
    }
    proof {
        assert(dv.skip(n as int) =~= Seq::<Seq<char>>::empty());
        assert(rendered(out@, Seq::<Seq<char>>::empty()) == out@);
    }
    out
}

} // verus!
