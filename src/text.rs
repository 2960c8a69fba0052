use vstd::prelude::*;

verus! {

/// The lower-case form of a string, as std's Unicode tables give it.
pub uninterp spec fn lower_of(s: Seq<char>) -> Seq<char>;

/// A string with its leading and trailing white space removed, as std's
/// Unicode tables give it.
pub uninterp spec fn trim_of(s: Seq<char>) -> Seq<char>;

/// `pattern` occurs in `s` as a contiguous run of characters.
pub open spec fn is_substring(pattern: Seq<char>, s: Seq<char>) -> bool {
    exists|i: int| 0 <= i <= s.len() - pattern.len() && #[trigger] s.subrange(i, i + pattern.len()) == pattern
}

/// Relies on str::to_lowercase: the result depends on the characters alone.
#[verifier::external_body]
pub(crate) fn to_lowercase(s: &str) -> (r: String)
    ensures
        r@ == lower_of(s@),
{
    s.to_lowercase()
}

/// Relies on str::contains with a string pattern: true exactly when the
/// pattern occurs in the string.
#[verifier::external_body]
pub(crate) fn contains(s: &str, pattern: &str) -> (r: bool)
    ensures
        r == is_substring(pattern@, s@),
{
    s.contains(pattern)
}

/// Relies on str::trim: the result depends on the characters alone.
#[verifier::external_body]
pub(crate) fn trim(s: &str) -> (r: String)
    ensures
        r@ == trim_of(s@),
{
    s.trim().to_owned()
}

/// Relies on String::push_str: the string grows by the appended characters.
pub assume_specification[ String::push_str ](s: &mut String, string: &str)
    ensures
        final(s)@ == old(s)@ + string@,
;

/// The concatenation of two strings.
pub fn concat(a: &str, b: &str) -> (r: String)
    ensures
        r@ == a@ + b@,
{
    let mut r = a.to_owned();
    r.push_str(b);
    r
}

} // verus!
