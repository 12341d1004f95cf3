//! The cheap per-iteration classification: a string is accepted exactly when
//! every one of its characters is alphanumeric.
//!
//! The classification exists so that each fetched string is observably used:
//! it keeps the fetch from being dead code and adds the same small amount of
//! work to both sharing strategies.
use vstd::prelude::*;
use vstd::string::StrSliceExecFns;

verus! {

/// Whether a character counts as alphanumeric. Unicode decides; the
/// definition lives in `char::is_alphanumeric` and is only named here.
pub uninterp spec fn is_alphanum(c: char) -> bool;

/// Relies on `char::is_alphanumeric`: the result depends on the character
/// alone.
#[verifier::external_body]
fn char_is_alphanumeric(c: char) -> (b: bool)
    ensures
        b == is_alphanum(c),
{
    c.is_alphanumeric()
}

/// Every character of the string is alphanumeric. True of the empty string.
pub open spec fn all_alphanumeric(s: Seq<char>) -> bool {
    forall|i: int| 0 <= i < s.len() ==> is_alphanum(s[i])
}

/// Accept the string if every character is alphanumeric; reject it,
/// producing no result, otherwise.
pub fn string_calculation<'a>(s: &'a str) -> (r: Option<&'a str>)
    ensures
        all_alphanumeric(s@) ==> r == Some(s),
        !all_alphanumeric(s@) ==> r is None,
        r matches Some(t) ==> t@ == s@,
{
    let n: usize = s.unicode_len();
    let mut i: usize = 0;
    while i < n
        invariant
            i <= n,
            n == s@.len(),
            forall|j: int| 0 <= j < i ==> is_alphanum(s@[j]),
        decreases n - i,
    {
        if !char_is_alphanumeric(s.get_char(i)) {
            return None;
        }
        i = i + 1;
    }
    Some(s)
}

} // verus!
