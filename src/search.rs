use vstd::prelude::*;

verus! {

/// The lower-case form of a string, as `str::to_lowercase` computes it.
pub uninterp spec fn lower_of(s: Seq<char>) -> Seq<char>;

/// Relies on `str::to_lowercase`: its result depends on the characters of `s` alone.
#[verifier::external_body]
pub(crate) fn lowercase(s: &str) -> (r: String)
    ensures
        r@ == lower_of(s@),
        s@.len() == 0 ==> r@.len() == 0,
{
    s.to_lowercase()
}

/// `needle` occurs in `hay` as a contiguous run of characters.
pub open spec fn is_substring(needle: Seq<char>, hay: Seq<char>) -> bool {
    exists|i: int|
        0 <= i && i + needle.len() <= hay.len() && #[trigger] hay.subrange(i, i + needle.len())
            == needle
}

/// Relies on `str::contains` with a `&str` pattern: true exactly when `needle`
/// occurs in `hay`. Both are valid UTF-8, so a match of bytes is a match of characters.
#[verifier::external_body]
pub(crate) fn contains_text(hay: &str, needle: &str) -> (r: bool)
    ensures
        r == is_substring(needle@, hay@),
{
    hay.contains(needle)
}

/// The views of an optional string.
pub open spec fn opt_view(s: Option<&str>) -> Option<Seq<char>> {
    match s {
        Some(t) => Some(t@),
        None => None,
    }
}

/// Whether an already lower-cased query occurs in an already lower-cased name, or
/// in an already lower-cased message where there is one.
pub open spec fn matches_folded(query: Seq<char>, name: Seq<char>, message: Option<Seq<char>>) -> bool {
    is_substring(query, name) || (message is Some && is_substring(query, message->0))
}

/// Decides a match on strings that have already been brought to lower case.
pub fn matches_lowered(query: &str, name: &str, message: Option<&str>) -> (r: bool)
    ensures
        r == matches_folded(query@, name@, opt_view(message)),
{
    if contains_text(name, query) {
        return true;
    }
    match message {
        Some(m) => contains_text(m, query),
        None => false,
    }
}

} // verus!
