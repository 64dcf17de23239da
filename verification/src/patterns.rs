//! Regular expressions, through the `regex` crate.
use vstd::prelude::*;

verus! {

/// What compiling `pattern` with `regex::Regex::new` and testing `text` with
/// `is_match` gives: `None` when the pattern does not compile, else whether
/// the pattern matches somewhere in `text`.
pub uninterp spec fn regex_match_result(pattern: Seq<char>, text: Seq<char>) -> Option<bool>;

/// Calls `regex::Regex::new(pattern)` and, when it compiles, `Regex::is_match(text)`.
/// The contract only names the outcome: what a pattern matches is not stated here.
#[verifier::external_body]
pub(crate) fn regex_is_match(pattern: &str, text: &str) -> (res: Option<bool>)
    ensures
        res == regex_match_result(pattern@, text@),
{
    match regex::Regex::new(pattern) {
        Ok(re) => Some(re.is_match(text)),
        Err(_) => None,
    }
}

/// The parts of `s` between occurrences of `sep`, in order: one more part than
/// there are separators, empty parts included (`""` gives one empty part).
pub open spec fn split_at_char(s: Seq<char>, sep: char) -> Seq<Seq<char>>
    decreases s.len(),
{
    if s.len() == 0 {
        seq![Seq::<char>::empty()]
    } else {
        let rest = split_at_char(s.drop_first(), sep);
        if s[0] == sep {
            seq![Seq::<char>::empty()] + rest
        } else {
            rest.update(0, seq![s[0]] + rest[0])
        }
    }
}

/// The views of a vector of strings.
pub open spec fn strings_view(v: Seq<String>) -> Seq<Seq<char>> {
    Seq::new(v.len(), |i: int| v[i]@)
}

/// Calls `regex::Regex::new(r"\[")` and `Regex::split(text)`. The `regex`
/// documentation gives the parts of the haystack between the matches, with
/// empty parts next to adjacent or leading and trailing separators and one
/// empty part for an empty haystack; for this one-character pattern that is
/// the split of `text` at each `[`. The pattern compiles; the empty vector
/// returned where it did not is never produced.
#[verifier::external_body]
pub(crate) fn split_at_open_brackets(text: &str) -> (res: Vec<String>)
    ensures
        strings_view(res@) == split_at_char(text@, '['),
{
    match regex::Regex::new(r"\[") {
        Ok(re) => re.split(text).map(|part| part.to_string()).collect(),
        Err(_) => Vec::new(),
    }
}

proof fn lemma_split_nonempty(s: Seq<char>, sep: char)
    ensures
        split_at_char(s, sep).len() >= 1,
    decreases s.len(),
{
    if s.len() > 0 {
        lemma_split_nonempty(s.drop_first(), sep);
    }
}

/// Splitting never yields an empty list of parts.
pub broadcast proof fn split_has_a_part(s: Seq<char>, sep: char)
    ensures
        #[trigger] split_at_char(s, sep).len() >= 1,
{
    lemma_split_nonempty(s, sep);
}

} // verus!
