//! Random identifiers under which uploaded files are stored.

use vstd::prelude::*;
use vstd::string::*;

verus! {

/// Number of characters in a stored file's identifier.
pub const ID_LENGTH: usize = 20;

/// The URL-safe alphabet: ASCII letters, digits, `_` and `-`.
pub open spec fn is_safe_char(c: char) -> bool {
    ||| ('a' <= c && c <= 'z')
    ||| ('A' <= c && c <= 'Z')
    ||| ('0' <= c && c <= '9')
    ||| c == '_'
    ||| c == '-'
}

/// Every character of `s` is in the URL-safe alphabet.
pub open spec fn all_safe(s: Seq<char>) -> bool {
    forall|i: int| 0 <= i < s.len() ==> is_safe_char(#[trigger] s[i])
}

/// A well-formed identifier: exactly `ID_LENGTH` URL-safe characters.
pub open spec fn is_identifier(s: Seq<char>) -> bool {
    s.len() == ID_LENGTH && all_safe(s)
}

/// Calls `nanoid::format` with that crate's default random source and its
/// `SAFE` alphabet. Trusted: the result has exactly `size` characters, each
/// taken from that alphabet (ASCII letters, digits, `_`, `-`). Which
/// characters come out is random and nothing is claimed about it. A zero
/// `size` is excluded because the generator would never return, and one
/// whose eightfold does not fit the machine word because the generator
/// computes it. The random source panics when the operating system gives it
/// no entropy; no argument decides that, so nothing here can exclude it.
#[verifier::external_body]
fn random_safe_string(size: usize) -> (id: String)
    requires
        1 <= size,
        8 * size <= usize::MAX,
    ensures
        id@.len() == size,
        all_safe(id@),
{
    nanoid::format(nanoid::rngs::default, &nanoid::alphabet::SAFE, size)
}

/// Draws a fresh identifier.
pub fn new_identifier() -> (id: String)
    ensures
        is_identifier(id@),
{
    random_safe_string(ID_LENGTH)
}

/// Exec counterpart of [`is_safe_char`].
pub fn safe_char(c: char) -> (b: bool)
    ensures
        b == is_safe_char(c),
{
    (c >= 'a' && c <= 'z') || (c >= 'A' && c <= 'Z') || (c >= '0' && c <= '9') || c == '_' || c
        == '-'
}

/// Decides whether `s` is a well-formed identifier.
pub fn is_identifier_str(s: &str) -> (b: bool)
    ensures
        b == is_identifier(s@),
{
    let n: usize = s.unicode_len();
    if n != ID_LENGTH {
        return false;
    }
    let mut i: usize = 0;
    while i < n
        invariant
            n == s@.len(),
            i <= n,
            forall|j: int| 0 <= j < i ==> is_safe_char(#[trigger] s@[j]),
        decreases n - i,
    {
        if !safe_char(s.get_char(i)) {
            return false;
        }
        i += 1;
    }
    true
}

} // verus!
