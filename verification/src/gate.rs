//! The version gate: given an `only`/`skip` filter and the identity string of
//! the active toolchain, decide whether the gated command should run.

use vstd::prelude::*;

verus! {

/// The gating rule applied before dispatch.
///
/// `Only(pattern)` runs the command only under a toolchain whose identity
/// starts with `pattern`; `Skip(patterns)` runs it unless the identity starts
/// with one of `patterns`; `Unrestricted` always runs it. The two filtered
/// variants are mutually exclusive by construction of this type.
#[derive(Clone)]
pub enum VersionFilter {
    Unrestricted,
    Only(String),
    Skip(Vec<String>),
}

/// True iff no pattern in the list is a prefix of the identity.
pub open spec fn no_pattern_matches(patterns: Seq<Seq<char>>, identity: Seq<char>) -> bool {
    forall|i: int| 0 <= i < patterns.len() ==> !(#[trigger] patterns[i]).is_prefix_of(identity)
}

/// What the version gate decides for a given filter and toolchain identity:
/// `Only` demands a prefix match, `Skip` forbids every listed prefix,
/// and `Unrestricted` always allows the run.
pub open spec fn gate_allows(filter: VersionFilter, identity: Seq<char>) -> bool {
    match filter {
        VersionFilter::Unrestricted => true,
        VersionFilter::Only(pattern) => pattern@.is_prefix_of(identity),
        VersionFilter::Skip(patterns) => no_pattern_matches(patterns.deep_view(), identity),
    }
}

/// Whether evaluating the filter needs the toolchain identity at all.
/// Only `Unrestricted` can be decided without it.
pub open spec fn spec_needs_identity(filter: VersionFilter) -> bool {
    !(filter is Unrestricted)
}

/// Exec counterpart of [`spec_needs_identity`]: callers use it to avoid
/// resolving the toolchain identity when no filter is configured.
pub fn needs_identity(filter: &VersionFilter) -> (r: bool)
    ensures
        r == spec_needs_identity(*filter),
{
    !(matches!(filter, VersionFilter::Unrestricted))
}

/// True iff `pattern` is a (case-sensitive) character prefix of `text`.
pub fn starts_with(text: &str, pattern: &str) -> (r: bool)
    ensures
        r == pattern@.is_prefix_of(text@),
{
    let tn = text.unicode_len();
    let pn = pattern.unicode_len();
    if pn > tn {
        return false;
    }
    let mut i: usize = 0;
    while i < pn
        invariant
            0 <= i <= pn,
            pn == pattern@.len(),
            tn == text@.len(),
            pn <= tn,
            forall|k: int| 0 <= k < i ==> text@[k] == pattern@[k],
        decreases pn - i,
    {
        if text.get_char(i) != pattern.get_char(i) {
            proof {
                assert(!pattern@.is_prefix_of(text@)) by {
                    if pattern@.is_prefix_of(text@) {
                        assert(pattern@[i as int] == text@.subrange(0, pn as int)[i as int]);
                    }
                }
            }
            return false;
        }
        i += 1;
    }
    proof {
        assert(pattern@ =~= text@.subrange(0, pn as int));
    }
    true
}

/// The version gate itself, as a pure function of the filter and the
/// already-resolved toolchain identity.
#[verifier::loop_isolation(false)]
pub fn should_run(filter: &VersionFilter, identity: &str) -> (r: bool)
    ensures
        r == gate_allows(*filter, identity@),
{
    match filter {
        VersionFilter::Unrestricted => true,
        VersionFilter::Only(pattern) => starts_with(identity, pattern.as_str()),
        VersionFilter::Skip(patterns) => {
            let n = patterns.len();
            let mut i: usize = 0;
            while i < n
                invariant
                    0 <= i <= n,
                    n == patterns@.len(),
                    forall|k: int|
                        0 <= k < i ==> !(#[trigger] patterns.deep_view()[k]).is_prefix_of(
                            identity@,
                        ),
                decreases n - i,
            {
                if starts_with(identity, patterns[i].as_str()) {
                    proof {
                        assert(patterns.deep_view()[i as int].is_prefix_of(identity@));
                        assert(!no_pattern_matches(patterns.deep_view(), identity@));
                        assert(!gate_allows(*filter, identity@));
                    }
                    return false;
                }
                proof {
                    assert(patterns.deep_view()[i as int] == patterns@[i as int]@);
                }
                i += 1;
            }
            proof {
                assert(no_pattern_matches(patterns.deep_view(), identity@));
            }
            true
        },
    }
}

/// An `Only` filter permits the run exactly when the toolchain identity
/// starts with the pattern.
pub proof fn lemma_only_filter(pattern: String, identity: Seq<char>)
    ensures
        gate_allows(VersionFilter::Only(pattern), identity) == pattern@.is_prefix_of(identity),
{
}

/// A `Skip` filter refuses the run exactly when the toolchain identity starts
/// with at least one listed pattern; in particular an empty list always
/// permits the run.
pub proof fn lemma_skip_filter(patterns: Vec<String>, identity: Seq<char>)
    ensures
        !gate_allows(VersionFilter::Skip(patterns), identity) <==> exists|i: int|
            0 <= i < patterns.deep_view().len() && (#[trigger] patterns.deep_view()[i]).is_prefix_of(
                identity,
            ),
        patterns.deep_view().len() == 0 ==> gate_allows(VersionFilter::Skip(patterns), identity),
{
    let ps = patterns.deep_view();
    if exists|i: int| 0 <= i < ps.len() && (#[trigger] ps[i]).is_prefix_of(identity) {
        let i = choose|i: int| 0 <= i < ps.len() && (#[trigger] ps[i]).is_prefix_of(identity);
        assert(!no_pattern_matches(ps, identity));
    } else {
        assert forall|i: int| 0 <= i < ps.len() implies !(#[trigger] ps[i]).is_prefix_of(
            identity,
        ) by {}
        assert(no_pattern_matches(ps, identity));
    }
}

/// An unrestricted gate permits the run whatever the toolchain identity is,
/// so no identity resolution is ever needed for it.
pub proof fn lemma_unrestricted_filter(identity: Seq<char>)
    ensures
        gate_allows(VersionFilter::Unrestricted, identity),
        !spec_needs_identity(VersionFilter::Unrestricted),
{
}

} // verus!
