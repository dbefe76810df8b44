//! Whitespace and trimming of text, as the version marker is compared.

use vstd::prelude::*;

verus! {

/// Whether `c` is whitespace: one of the code points that carry the Unicode
/// property `White_Space`.
pub open spec fn is_white_space(c: char) -> bool {
    ||| '\u{0009}' <= c <= '\u{000D}'
    ||| c == '\u{0020}'
    ||| c == '\u{0085}'
    ||| c == '\u{00A0}'
    ||| c == '\u{1680}'
    ||| '\u{2000}' <= c <= '\u{200A}'
    ||| c == '\u{2028}'
    ||| c == '\u{2029}'
    ||| c == '\u{202F}'
    ||| c == '\u{205F}'
    ||| c == '\u{3000}'
}

/// `s` without its leading whitespace.
pub open spec fn trimmed_start(s: Seq<char>) -> Seq<char>
    decreases s.len(),
{
    if s.len() > 0 && is_white_space(s.first()) {
        trimmed_start(s.drop_first())
    } else {
        s
    }
}

/// `s` without its trailing whitespace.
pub open spec fn trimmed_end(s: Seq<char>) -> Seq<char>
    decreases s.len(),
{
    if s.len() > 0 && is_white_space(s.last()) {
        trimmed_end(s.drop_last())
    } else {
        s
    }
}

/// `s` without its leading and trailing whitespace.
pub open spec fn trimmed(s: Seq<char>) -> Seq<char> {
    trimmed_end(trimmed_start(s))
}

/// Calls `str::trim` of the standard library, which is documented to return
/// the text with leading and trailing whitespace removed, whitespace being
/// what carries the Unicode property `White_Space`. The contract says so over
/// `trimmed`; it is taken on trust, not proved.
#[verifier::external_body]
pub(crate) fn trim(s: &str) -> (r: &str)
    ensures
        r@ == trimmed(s@),
{
    s.trim()
}

/// Whether `version` can name a build: it is not empty and has no whitespace
/// around it.
pub open spec fn well_formed_version(version: Seq<char>) -> bool {
    version.len() > 0 && trimmed(version) == version
}

/// Whether the marker text `stored` names the build version `current`: without
/// the whitespace around it, it is not empty and equals `current` character by
/// character.
pub open spec fn is_current_spec(stored: Seq<char>, current: Seq<char>) -> bool {
    trimmed(stored).len() > 0 && trimmed(stored) == current
}

/// Whether the marker text `stored` names the build version `current`. The
/// comparison is exact: no case folding, no reading of version numbers.
pub fn is_current(stored: &str, current: &str) -> (b: bool)
    ensures
        b == is_current_spec(stored@, current@),
{
    let t = trim(stored);
    !t.is_empty() && t.to_owned() == current.to_owned()
}

} // verus!
