//! The subcommand classifier: given the package manager's self-reported
//! subcommand listing (its stdout, one subcommand per line below a header
//! line), decide whether a name is one of the manager's own subcommands.

use vstd::prelude::*;

verus! {

/// The whitespace characters that delimit tokens, as Unicode defines the
/// White_Space property.
pub open spec fn spec_whitespace(c: char) -> bool {
    ||| c == ' '
    ||| c == '\t'
    ||| c == '\n'
    ||| c == '\r'
    ||| c == '\u{000B}'
    ||| c == '\u{000C}'
    ||| c == '\u{0085}'
    ||| c == '\u{00A0}'
    ||| c == '\u{1680}'
    ||| c == '\u{2000}'
    ||| c == '\u{2001}'
    ||| c == '\u{2002}'
    ||| c == '\u{2003}'
    ||| c == '\u{2004}'
    ||| c == '\u{2005}'
    ||| c == '\u{2006}'
    ||| c == '\u{2007}'
    ||| c == '\u{2008}'
    ||| c == '\u{2009}'
    ||| c == '\u{200A}'
    ||| c == '\u{2028}'
    ||| c == '\u{2029}'
    ||| c == '\u{202F}'
    ||| c == '\u{205F}'
    ||| c == '\u{3000}'
}

/// Exec counterpart of [`spec_whitespace`].
pub fn is_whitespace_char(c: char) -> (r: bool)
    ensures
        r == spec_whitespace(c),
{
    c == ' ' || c == '\t' || c == '\n' || c == '\r' || c == '\u{000B}' || c == '\u{000C}' || c
        == '\u{0085}' || c == '\u{00A0}' || c == '\u{1680}' || c == '\u{2000}' || c == '\u{2001}'
        || c == '\u{2002}' || c == '\u{2003}' || c == '\u{2004}' || c == '\u{2005}' || c
        == '\u{2006}' || c == '\u{2007}' || c == '\u{2008}' || c == '\u{2009}' || c == '\u{200A}'
        || c == '\u{2028}' || c == '\u{2029}' || c == '\u{202F}' || c == '\u{205F}' || c
        == '\u{3000}'
}

/// The position just past the line that begins at `i`: the index of the
/// first newline at or after `i`, or the end of the text.
pub open spec fn line_end(s: Seq<char>, i: int) -> int
    decreases s.len() - i when 0 <= i <= s.len()
{
    if i >= s.len() {
        s.len() as int
    } else if s[i] == '\n' {
        i
    } else {
        line_end(s, i + 1)
    }
}

/// The index of the first non-whitespace character in `[i, e)`, or `e` when
/// there is none.
pub open spec fn token_start(s: Seq<char>, i: int, e: int) -> int
    decreases e - i when i <= e
{
    if i >= e {
        e
    } else if spec_whitespace(s[i]) {
        token_start(s, i + 1, e)
    } else {
        i
    }
}

/// The index of the first whitespace character in `[i, e)`, or `e` when
/// there is none.
pub open spec fn token_end(s: Seq<char>, i: int, e: int) -> int
    decreases e - i when i <= e
{
    if i >= e {
        e
    } else if spec_whitespace(s[i]) {
        i
    } else {
        token_end(s, i + 1, e)
    }
}

/// The first whitespace-delimited token of the line that begins at `i`, or
/// nothing when the line holds only whitespace.
pub open spec fn line_first_token(s: Seq<char>, i: int) -> Option<Seq<char>> {
    let e = line_end(s, i);
    let j = token_start(s, i, e);
    if j >= e {
        None
    } else {
        Some(s.subrange(j, token_end(s, j, e)))
    }
}

/// `name` is reported as a subcommand: some line after the first (header)
/// line of the listing has `name` as its first whitespace-delimited token.
pub open spec fn subcommand_listed(listing: Seq<char>, name: Seq<char>) -> bool {
    exists|i: int|
        1 <= i <= listing.len() && listing[i - 1] == '\n' && #[trigger] line_first_token(listing, i)
            == Some(name)
}

/// Find the end of the line that begins at `from`.
#[verifier::loop_isolation(false)]
fn find_line_end(s: &str, from: usize) -> (e: usize)
    requires
        from <= s@.len(),
    ensures
        e == line_end(s@, from as int),
        from <= e <= s@.len(),
{
    let n = s.unicode_len();
    let mut i = from;
    while i < n && s.get_char(i) != '\n'
        invariant
            from <= i <= n,
            line_end(s@, from as int) == line_end(s@, i as int),
        decreases n - i,
    {
        i += 1;
    }
    proof {
        assert(line_end(s@, i as int) == i);
    }
    i
}

/// Find the first non-whitespace character in `[from, e)`, or `e`.
#[verifier::loop_isolation(false)]
fn find_token_start(s: &str, from: usize, e: usize) -> (j: usize)
    requires
        from <= e <= s@.len(),
    ensures
        j == token_start(s@, from as int, e as int),
        from <= j <= e,
{
    let mut i = from;
    while i < e && is_whitespace_char(s.get_char(i))
        invariant
            from <= i <= e,
            token_start(s@, from as int, e as int) == token_start(s@, i as int, e as int),
        decreases e - i,
    {
        i += 1;
    }
    proof {
        assert(token_start(s@, i as int, e as int) == i);
    }
    i
}

/// Find the first whitespace character in `[from, e)`, or `e`.
#[verifier::loop_isolation(false)]
fn find_token_end(s: &str, from: usize, e: usize) -> (k: usize)
    requires
        from <= e <= s@.len(),
    ensures
        k == token_end(s@, from as int, e as int),
        from <= k <= e,
{
    let mut i = from;
    while i < e && !is_whitespace_char(s.get_char(i))
        invariant
            from <= i <= e,
            token_end(s@, from as int, e as int) == token_end(s@, i as int, e as int),
        decreases e - i,
    {
        i += 1;
    }
    proof {
        assert(token_end(s@, i as int, e as int) == i);
    }
    i
}

/// Whether the characters of `s` in `[j, k)` are exactly the characters of
/// `name`.
#[verifier::loop_isolation(false)]
fn segment_equals(s: &str, j: usize, k: usize, name: &str) -> (r: bool)
    requires
        j <= k <= s@.len(),
    ensures
        r == (s@.subrange(j as int, k as int) == name@),
{
    let len = k - j;
    if len != name.unicode_len() {
        proof {
            assert(s@.subrange(j as int, k as int).len() == k - j);
        }
        return false;
    }
    let mut t: usize = 0;
    while t < len
        invariant
            0 <= t <= len,
            len == k - j,
            len == name@.len(),
            forall|x: int| 0 <= x < t ==> s@[j + x] == name@[x],
        decreases len - t,
    {
        if s.get_char(j + t) != name.get_char(t) {
            proof {
                assert(!(s@.subrange(j as int, k as int) == name@)) by {
                    if s@.subrange(j as int, k as int) == name@ {
                        assert(s@.subrange(j as int, k as int)[t as int] == name@[t as int]);
                    }
                }
            }
            return false;
        }
        t += 1;
    }
    proof {
        assert(s@.subrange(j as int, k as int) =~= name@);
    }
    true
}

/// Whether the line that begins at `start` has `name` as its first
/// whitespace-delimited token.
fn line_has_token(s: &str, start: usize, name: &str) -> (r: bool)
    requires
        start <= s@.len(),
    ensures
        r == (line_first_token(s@, start as int) == Some(name@)),
{
    let e = find_line_end(s, start);
    let j = find_token_start(s, start, e);
    if j == e {
        return false;
    }
    let k = find_token_end(s, j, e);
    segment_equals(s, j, k, name)
}

/// The classifier: `name` is a subcommand of the wrapped package manager iff
/// some line of `listing` below the header line reports it as the line's
/// first whitespace-delimited token. `listing` is the manager's own decoded
/// stdout from its "list subcommands" query.
#[verifier::loop_isolation(false)]
pub fn is_cargo_subcommand(subcommand: &str, listing: &str) -> (r: bool)
    ensures
        r == subcommand_listed(listing@, subcommand@),
{
    let n = listing.unicode_len();
    let mut i: usize = 0;
    while i < n
        invariant
            0 <= i <= n,
            forall|k: int|
                1 <= k <= i && listing@[k - 1] == '\n' ==> #[trigger] line_first_token(listing@, k)
                    != Some(subcommand@),
        decreases n - i,
    {
        if listing.get_char(i) == '\n' {
            if line_has_token(listing, i + 1, subcommand) {
                proof {
                    assert(listing@[(i + 1) - 1] == '\n');
                    assert(subcommand_listed(listing@, subcommand@));
                }
                return true;
            }
        }
        i += 1;
    }
    proof {
        assert(!subcommand_listed(listing@, subcommand@)) by {
            if subcommand_listed(listing@, subcommand@) {
                let w = choose|k: int|
                    1 <= k <= listing@.len() && listing@[k - 1] == '\n'
                        && #[trigger] line_first_token(listing@, k) == Some(subcommand@);
                assert(line_first_token(listing@, w) != Some(subcommand@));
            }
        }
    }
    false
}

} // verus!
