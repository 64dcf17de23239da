//! Finding the `#include` directives of a source without lexing it.
use vstd::prelude::*;
use crate::chars::{CharClass, in_class, is_quote, is_whitespace, whitespace};
use crate::lexer::Lexer;
use crate::model::{scan, lemma_scan};
use crate::patterns::strings_view;
use crate::text::{chars_of, string_from_chars};

verus! {

/// The characters of `#include`.
pub open spec fn include_word() -> Seq<char> {
    seq!['#', 'i', 'n', 'c', 'l', 'u', 'd', 'e']
}

/// From `i`, the index just past the next line feed (or the end).
pub open spec fn skip_line(src: Seq<char>, i: nat) -> nat
    decreases src.len() - i,
{
    if i >= src.len() {
        i
    } else if src[i as int] == '\n' {
        i + 1
    } else {
        skip_line(src, i + 1)
    }
}

/// From `i`, the index of the `/` of the next `*/` (or the end).
pub open spec fn skip_block(src: Seq<char>, i: nat) -> nat
    decreases src.len() - i,
{
    if i >= src.len() {
        i
    } else if src[i as int] == '*' && i + 1 < src.len() && src[i + 1int] == '/' {
        i + 1
    } else {
        skip_block(src, i + 1)
    }
}

/// After a `/` that ends at `j`: the index past a following line comment, or up
/// to the `/` closing a following block comment.
pub open spec fn after_slash(src: Seq<char>, j: nat) -> nat {
    if j < src.len() && src[j as int] == '/' {
        skip_line(src, j)
    } else if j < src.len() && src[j as int] == '*' {
        skip_block(src, j)
    } else {
        j
    }
}

/// From `i`, the characters up to the next quote and the index past that
/// quote; no path when the source ends first.
pub open spec fn read_path(src: Seq<char>, i: nat) -> (nat, Option<Seq<char>>)
    decreases src.len() - i,
{
    if i >= src.len() {
        (i, None)
    } else if is_quote(src[i as int]) {
        (i + 1, Some(Seq::empty()))
    } else {
        let (j, r) = read_path(src, i + 1);
        (
            j,
            match r {
                Some(p) => Some(seq![src[i as int]] + p),
                None => None,
            },
        )
    }
}

pub proof fn lemma_skips(src: Seq<char>, i: nat)
    requires
        i <= src.len(),
    ensures
        i <= skip_line(src, i) <= src.len(),
        i <= skip_block(src, i) <= src.len(),
        i < read_path(src, i).0 <= src.len() || (i == src.len() && read_path(src, i).0 == i),
    decreases src.len() - i,
{
    if i < src.len() {
        lemma_skips(src, i + 1);
    }
}

/// The import paths found from index `i` on, when the first `k` characters of
/// `#include` have just been read. Characters are read one by one and matched
/// against `#include`; a mismatch starts the match over with the next
/// character. A `/` that starts a comment also skips the comment. Once
/// `#include` has been read, the next character is passed over, then white
/// space; a quote there opens a path that runs to the next quote.
pub open spec fn imports_from(src: Seq<char>, i: nat, k: nat) -> Seq<Seq<char>>
    decreases src.len() - i,
{
    if i >= src.len() {
        Seq::empty()
    } else {
        let nc = src[i as int];
        let j = if nc == '/' {
            after_slash(src, i + 1)
        } else {
            i + 1
        };
        proof {
            lemma_skips(src, i + 1);
        }
        if k >= 8 {
            let j2 = scan(src, j, CharClass::Space);
            proof {
                lemma_scan(src, j, CharClass::Space);
            }
            if j2 < src.len() && is_quote(src[j2 as int]) {
                let (j3, r) = read_path(src, j2 + 1);
                proof {
                    lemma_skips(src, j2 + 1);
                }
                match r {
                    Some(p) => seq![p] + imports_from(src, j3, 0),
                    None => imports_from(src, j3, 0),
                }
            } else {
                imports_from(src, j2, 0)
            }
        } else if nc == include_word()[k as int] {
            imports_from(src, j, k + 1)
        } else {
            imports_from(src, j, 0)
        }
    }
}

fn include_char(k: usize) -> (res: char)
    requires
        k < 8,
    ensures
        res == include_word()[k as int],
{
    match k {
        0 => '#',
        1 => 'i',
        2 => 'n',
        3 => 'c',
        4 => 'l',
        5 => 'u',
        6 => 'd',
        _ => 'e',
    }
}

fn exec_skip_line(src: &Vec<char>, i: usize) -> (res: usize)
    requires
        i <= src@.len(),
    ensures
        res == skip_line(src@, i as nat),
{
    let mut j = i;
    while j < src.len()
        invariant
            i <= j <= src@.len(),
            skip_line(src@, j as nat) == skip_line(src@, i as nat),
        decreases src@.len() - j,
    {
        if src[j] == '\n' {
            return j + 1;
        }
        j = j + 1;
    }
    j
}

fn exec_skip_block(src: &Vec<char>, i: usize) -> (res: usize)
    requires
        i <= src@.len(),
    ensures
        res == skip_block(src@, i as nat),
{
    let mut j = i;
    while j < src.len()
        invariant
            i <= j <= src@.len(),
            skip_block(src@, j as nat) == skip_block(src@, i as nat),
        decreases src@.len() - j,
    {
        if src[j] == '*' && j + 1 < src.len() && src[j + 1] == '/' {
            return j + 1;
        }
        j = j + 1;
    }
    j
}

fn exec_read_path(src: &Vec<char>, i: usize) -> (res: (usize, Option<Vec<char>>))
    requires
        i <= src@.len(),
    ensures
        res.0 == read_path(src@, i as nat).0,
        match read_path(src@, i as nat).1 {
            Some(p) => res.1 matches Some(v) && v@ == p,
            None => res.1 is None,
        },
{
    let mut j = i;
    let mut path: Vec<char> = Vec::new();
    while j < src.len()
        invariant
            i <= j <= src@.len(),
            path@ == src@.subrange(i as int, j as int),
            forall|m: int| i <= m < j ==> !is_quote(#[trigger] src@[m]),
        decreases src@.len() - j,
    {
        if src[j] == '"' || src[j] == '\'' {
            proof {
                lemma_read_path_run(src@, i as nat, j as nat);
            }
            return (j + 1, Some(path));
        }
        path.push(src[j]);
        j = j + 1;
        assert(path@ =~= src@.subrange(i as int, j as int));
    }
    proof {
        lemma_read_path_run(src@, i as nat, j as nat);
    }
    (j, None)
}

proof fn lemma_read_path_run(src: Seq<char>, i: nat, j: nat)
    requires
        i <= j <= src.len(),
        forall|m: int| i <= m < j ==> !is_quote(#[trigger] src[m]),
    ensures
        read_path(src, i).0 == read_path(src, j).0,
        read_path(src, i).1 == match read_path(src, j).1 {
            Some(p) => Some(src.subrange(i as int, j as int) + p),
            None => None,
        },
    decreases j - i,
{
    if i < j {
        lemma_read_path_run(src, i + 1, j);
        assert(seq![src[i as int]] + src.subrange(i + 1int, j as int) =~= src.subrange(i as int, j as int));
        match read_path(src, j).1 {
            Some(p) => {
                assert(seq![src[i as int]] + (src.subrange(i + 1int, j as int) + p) =~= src.subrange(
                    i as int,
                    j as int,
                ) + p);
            },
            None => {},
        }
    } else {
        assert(src.subrange(i as int, j as int) =~= Seq::<char>::empty());
        match read_path(src, j).1 {
            Some(p) => {
                assert(Seq::<char>::empty() + p =~= p);
            },
            None => {},
        }
    }
}

fn exec_skip_space(src: &Vec<char>, i: usize) -> (res: usize)
    requires
        i <= src@.len(),
    ensures
        res == scan(src@, i as nat, CharClass::Space),
{
    let mut j = i;
    while j < src.len() && is_whitespace(src[j])
        invariant
            i <= j <= src@.len(),
            scan(src@, j as nat, CharClass::Space) == scan(src@, i as nat, CharClass::Space),
        decreases src@.len() - j,
    {
        j = j + 1;
    }
    j
}

impl Lexer {
    /// Lex all imports
    /// Example import: `// #include "./Utils.huff"`
    pub fn lex_imports(source: &str) -> (res: Vec<String>)
        ensures
            strings_view(res@) == imports_from(source@, 0, 0),
    {
        let src = chars_of(source);
        let mut imports: Vec<String> = Vec::new();
        let mut i: usize = 0;
        let mut k: usize = 0;
        while i < src.len()
            invariant
                src@ == source@,
                i <= src@.len(),
                k <= 8,
                strings_view(imports@) + imports_from(src@, i as nat, k as nat) == imports_from(
                    src@,
                    0,
                    0,
                ),
            decreases src@.len() - i,
        {
            let ghost before = strings_view(imports@);
            let ghost rest = imports_from(src@, i as nat, k as nat);
            let nc = src[i];
            let mut j = i + 1;
            proof {
                lemma_skips(src@, j as nat);
            }
            if nc == '/' {
                if j < src.len() && src[j] == '/' {
                    j = exec_skip_line(&src, j);
                } else if j < src.len() && src[j] == '*' {
                    j = exec_skip_block(&src, j);
                }
            }
            if k >= 8 {
                k = 0;
                let j2 = exec_skip_space(&src, j);
                proof {
                    lemma_scan(src@, j as nat, CharClass::Space);
                }
                if j2 < src.len() && (src[j2] == '"' || src[j2] == '\'') {
                    let (j3, path) = exec_read_path(&src, j2 + 1);
                    proof {
                        lemma_skips(src@, (j2 + 1) as nat);
                    }
                    match path {
                        Some(p) => {
                            imports.push(string_from_chars(&p));
                            assert(strings_view(imports@) =~= before.push(p@));
                            assert(before.push(p@) + imports_from(src@, j3 as nat, 0) =~= before + (
                            seq![p@] + imports_from(src@, j3 as nat, 0)));
                        },
                        None => {},
                    }
                    i = j3;
                } else {
                    i = j2;
                }
            } else {
                if nc == include_char(k) {
                    k = k + 1;
                } else {
                    k = 0;
                }
                i = j;
            }
        }
        assert(imports_from(src@, i as nat, k as nat) =~= Seq::<Seq<char>>::empty());
        assert(strings_view(imports@) + Seq::<Seq<char>>::empty() =~= strings_view(imports@));
        imports
    }
}

} // verus!
