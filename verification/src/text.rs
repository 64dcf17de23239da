//! Conversions between text and character vectors, and comparison of a word
//! with a fixed piece of text.
use vstd::prelude::*;
use vstd::string::*;

verus! {

/// The characters of `s`, in order.
pub fn chars_of(s: &str) -> (res: Vec<char>)
    ensures
        res@ == s@,
{
    let n = s.unicode_len();
    let mut out: Vec<char> = Vec::new();
    let mut i: usize = 0;
    while i < n
        invariant
            n == s@.len(),
            i <= n,
            out@ == s@.subrange(0, i as int),
        decreases n - i,
    {
        out.push(s.get_char(i));
        i = i + 1;
        assert(out@ =~= s@.subrange(0, i as int));
    }
    assert(s@.subrange(0, n as int) =~= s@);
    out
}

/// Collects characters into a `String` (`FromIterator<char>` for `String`):
/// the string holds exactly these characters, in order.
#[verifier::external_body]
pub(crate) fn string_from_chars(v: &Vec<char>) -> (res: String)
    ensures
        res@ == v@,
{
    v.iter().collect::<String>()
}

/// Whether the characters of `w` are exactly those of `lit`.
pub fn chars_equal_str(w: &Vec<char>, lit: &str) -> (res: bool)
    ensures
        res == (w@ == lit@),
{
    let n = lit.unicode_len();
    if w.len() != n {
        return false;
    }
    let mut i: usize = 0;
    while i < n
        invariant
            n == lit@.len(),
            w@.len() == n,
            i <= n,
            forall|j: int| 0 <= j < i ==> w@[j] == lit@[j],
        decreases n - i,
    {
        if w[i] != lit.get_char(i) {
            return false;
        }
        i = i + 1;
    }
    assert(w@ =~= lit@);
    true
}

/// Whether `lit` is a prefix of the characters of `w`.
pub fn starts_with_str(w: &Vec<char>, lit: &str) -> (res: bool)
    ensures
        res == (lit@.len() <= w@.len() && w@.subrange(0, lit@.len() as int) == lit@),
{
    let n = lit.unicode_len();
    if w.len() < n {
        return false;
    }
    let mut i: usize = 0;
    while i < n
        invariant
            n == lit@.len(),
            n <= w@.len(),
            i <= n,
            forall|j: int| 0 <= j < i ==> w@[j] == lit@[j],
        decreases n - i,
    {
        if w[i] != lit.get_char(i) {
            assert(w@.subrange(0, n as int)[i as int] != lit@[i as int]);
            return false;
        }
        i = i + 1;
    }
    assert(w@.subrange(0, n as int) =~= lit@);
    true
}

/// The characters of `v` from index `from` on.
pub fn chars_from(v: &Vec<char>, from: usize) -> (res: Vec<char>)
    requires
        from <= v@.len(),
    ensures
        res@ == v@.subrange(from as int, v@.len() as int),
{
    let mut out: Vec<char> = Vec::new();
    let mut i: usize = from;
    while i < v.len()
        invariant
            from <= i <= v@.len(),
            out@ == v@.subrange(from as int, i as int),
        decreases v@.len() - i,
    {
        out.push(v[i]);
        i = i + 1;
        assert(out@ =~= v@.subrange(from as int, i as int));
    }
    out
}

} // verus!
