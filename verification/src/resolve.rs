//! Toolchain identity resolution: a fixed priority chain over two
//! environment-supplied overrides, falling back to a query of the external
//! toolchain manager when neither override is set.

use vstd::prelude::*;

verus! {

/// Which source supplies the active toolchain identity: a CI-provided
/// override, an override set by an active toolchain shim, or — when neither
/// is set to a non-empty value — a query of the toolchain manager that the
/// process layer still has to run.
pub enum Resolution {
    CiOverride(String),
    ShimOverride(String),
    NeedsQuery,
}

/// True iff the optional override is set to a non-empty value.
pub open spec fn override_set(value: Option<String>) -> bool {
    value matches Some(v) && v@.len() > 0
}

/// The identity the override chain yields, if any: the CI override wins,
/// then the shim override; an unset or empty override is passed over.
pub open spec fn override_identity(ci: Option<String>, shim: Option<String>) -> Option<Seq<char>> {
    match ci {
        Some(v) => if v@.len() > 0 {
            Some(v@)
        } else {
            shim_identity(shim)
        },
        None => shim_identity(shim),
    }
}

/// The identity the shim override alone yields, if it is set and non-empty.
pub open spec fn shim_identity(shim: Option<String>) -> Option<Seq<char>> {
    match shim {
        Some(w) => if w@.len() > 0 {
            Some(w@)
        } else {
            None
        },
        None => None,
    }
}

/// First step of `resolve()`: consult the two overrides in priority order.
/// Only when both are unset or empty must the toolchain manager be queried.
pub fn resolve_from_overrides(ci: Option<String>, shim: Option<String>) -> (r: Resolution)
    ensures
        override_set(ci) ==> (ci matches Some(v) && r == Resolution::CiOverride(v)),
        !override_set(ci) && override_set(shim) ==> (shim matches Some(w) && r
            == Resolution::ShimOverride(w)),
        !override_set(ci) && !override_set(shim) ==> r is NeedsQuery,
        r matches Resolution::CiOverride(v) ==> override_identity(ci, shim) == Some(v@),
        r matches Resolution::ShimOverride(w) ==> override_identity(ci, shim) == Some(w@),
        r is NeedsQuery <==> override_identity(ci, shim) is None,
{
    if let Some(v) = ci {
        if v.as_str().unicode_len() > 0 {
            return Resolution::CiOverride(v);
        }
    }
    if let Some(w) = shim {
        if w.as_str().unicode_len() > 0 {
            return Resolution::ShimOverride(w);
        }
    }
    Resolution::NeedsQuery
}

} // verus!
