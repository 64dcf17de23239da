//! Properties of the lexer that hold for every source and every state.
use vstd::prelude::*;
use crate::chars::{CharClass, is_quote};
use crate::imports::{imports_from, read_path, lemma_skips, after_slash, include_word, skip_line, skip_block};
use crate::model::{
    LexState, Lexed, AbiRead, eat, scan, lemma_scan, block_comment_end, lex_step, lex_after,
    lex_slash, lex_pound, lex_hex, lex_digits, lex_whitespace, lex_string, lex_open_paren,
    lex_close_paren, lex_open_brace, lex_close_brace, single, lex_word, keyword_rules,
    word_keyword, word_free_storage_pointer, word_label_bool, word_abi,
};
use crate::token::{Context, SpecErrorKind, SpecToken, SpecTokenKind};
use crate::model::{count_char, lex_error, token};
use crate::values::bytes32_of_hex;
use crate::chars::alphabetic;
use crate::values::{lower_hex, even_padded};

verus! {

/// Reading a run of characters keeps the source, the lookback, the end flag
/// and the context, and moves the cursor forward within the source.
pub broadcast proof fn lemma_eat_state(s: LexState, init: Option<char>, k: CharClass)
    requires
        s.cursor <= s.src.len(),
    ensures
        ({
            let s2 = #[trigger] eat(s, init, k).0;
            &&& s2.src == s.src
            &&& s.cursor <= s2.cursor <= s.src.len()
            &&& s2.lookback == s.lookback
            &&& s2.eof == s.eof
            &&& s2.context == s.context
        }),
{
    lemma_scan(s.src, s.cursor, k);
}

/// A block comment ends within the source, after its start.
pub broadcast proof fn lemma_block_comment_end(src: Seq<char>, i: nat, depth: nat)
    requires
        i <= src.len(),
    ensures
        i <= #[trigger] block_comment_end(src, i, depth) <= src.len(),
    decreases src.len() - i,
{
    if i < src.len() {
        if src[i as int] == '/' && i + 1 < src.len() && src[i + 1int] == '*' {
            lemma_block_comment_end(src, i + 2, depth + 1);
        } else if src[i as int] == '*' && i + 1 < src.len() && src[i + 1int] == '/' {
            if depth > 1 {
                lemma_block_comment_end(src, i + 2, (depth - 1) as nat);
            }
        } else {
            lemma_block_comment_end(src, i + 1, depth);
        }
    }
}

/// `s2` is `s` moved forward within the same source, with the same lookback
/// and end flag.
pub open spec fn moved_on(s: LexState, s2: LexState) -> bool {
    &&& s2.src == s.src
    &&& s.cursor <= s2.cursor <= s.src.len()
    &&& s2.lookback == s.lookback
    &&& s2.eof == s.eof
}

pub open spec fn frames(s: LexState, o: Lexed) -> bool {
    o matches Lexed::Done(s2, _) ==> moved_on(s, s2)
}

proof fn lemma_frame_simple(s: LexState)
    requires
        s.cursor <= s.src.len(),
    ensures
        frames(s, lex_slash(s)),
        frames(s, lex_pound(s)),
        frames(s, lex_whitespace(s)),
        frames(s, lex_string(s)),
        frames(s, lex_open_paren(s)),
        frames(s, lex_close_paren(s)),
        frames(s, lex_open_brace(s)),
        frames(s, lex_close_brace(s)),
        forall|ch: char| frames(s, #[trigger] lex_hex(s, ch)),
        forall|ch: char| frames(s, #[trigger] lex_digits(s, ch)),
        forall|k: SpecTokenKind| frames(s, #[trigger] single(s, k)),
{
    broadcast use lemma_eat_state, lemma_block_comment_end;

    assert(frames(s, lex_slash(s)));
    assert(frames(s, lex_pound(s)));
    assert(frames(s, lex_string(s)));
}

proof fn lemma_frame_word(s: LexState, ch: char)
    requires
        s.cursor <= s.src.len(),
    ensures
        frames(s, lex_word(s, ch)),
{
    broadcast use lemma_eat_state;

    let (s1, word, start, end) = eat(s, Some(ch), CharClass::WordChar);
    assert(moved_on(s, s1));
    let (s2, found2) = word_keyword(s1, word);
    assert(moved_on(s1, s2)) by {
        let found0 = if s1.context != crate::token::Context::MacroBody {
            crate::words::keyword_kind(word)
        } else {
            None
        };
        assert(moved_on(s1, keyword_rules(s1, found0).0));
    }
    let (s3, end3, found3) = word_free_storage_pointer(s2, word, end, found2);
    assert(moved_on(s2, s3));
    let (s4, found4) = word_label_bool(s3, word, found3);
    assert(moved_on(s3, s4));
    let found5 = crate::model::word_opcode(s4.context, word, found4);
    match word_abi(s4, ch, word, end3, found5) {
        AbiRead::Panics => {},
        AbiRead::Read(s6, end6, found6) => {
            assert(moved_on(s4, s6));
        },
    }
}

/// What the character just read begins keeps the source, the lookback and the
/// end flag, and leaves the cursor within the source, not behind.
pub proof fn lemma_after_frame(s: LexState, ch: char)
    requires
        s.cursor <= s.src.len(),
    ensures
        frames(s, lex_after(s, ch)),
{
    lemma_frame_simple(s);
    lemma_frame_word(s, ch);
    assert(frames(s, lex_hex(s, ch)));
    assert(frames(s, lex_digits(s, ch)));
}

/// Lexing never changes the source, and every step moves forward: it reads at
/// least one character, or, at the end of the source, gives `Eof` and sets the
/// end flag without moving. So lexing a source of `n` characters reaches the
/// end after at most `n + 1` steps.
pub proof fn law_step_moves_forward(s: LexState)
    requires
        s.cursor <= s.src.len(),
    ensures
        lex_step(s) matches Lexed::Done(s2, r) ==> {
            &&& s2.src == s.src
            &&& s2.cursor <= s.src.len()
            &&& if s.cursor < s.src.len() {
                s.cursor < s2.cursor && s2.eof == s.eof
            } else {
                s2.cursor == s.cursor && s2.eof && (r matches Ok(t) && t.kind == SpecTokenKind::Eof)
            }
        },
{
    if s.cursor < s.src.len() {
        lemma_after_frame(s.advance(), s.src[s.cursor as int]);
    }
}

proof fn lemma_after_no_eof(s: LexState, ch: char)
    requires
        s.cursor <= s.src.len(),
    ensures
        gives_no_eof(lex_after(s, ch)),
{
    lemma_word_no_comment(s, ch);
    assert(gives_no_eof(lex_slash(s)));
    assert(gives_no_eof(lex_pound(s)));
    assert(gives_no_eof(lex_hex(s, ch)));
    assert(gives_no_eof(lex_digits(s, ch)));
    assert(gives_no_eof(lex_whitespace(s)));
    assert(gives_no_eof(lex_string(s)));
    assert(gives_no_eof(lex_open_paren(s)));
    assert(gives_no_eof(lex_close_paren(s)));
    assert(gives_no_eof(lex_open_brace(s)));
    assert(gives_no_eof(lex_close_brace(s)));
}

/// `Eof` comes exactly at the end of the source: a step before the end never
/// gives `Eof` and leaves the end flag as it was; the step at the end gives
/// `Eof` and sets the flag.
pub proof fn law_eof_only_at_end(s: LexState)
    requires
        s.cursor <= s.src.len(),
    ensures
        lex_step(s) matches Lexed::Done(s2, r) ==> {
            &&& (r matches Ok(t) && t.kind == SpecTokenKind::Eof) <==> s.cursor == s.src.len()
            &&& s2.eof == (s.eof || s.cursor == s.src.len())
        },
{
    law_step_moves_forward(s);
    if s.cursor < s.src.len() {
        lemma_after_no_eof(s.advance(), s.src[s.cursor as int]);
        lemma_after_frame(s.advance(), s.src[s.cursor as int]);
    }
}

/// A token that is neither white space nor `Eof` becomes the lookback; white
/// space, `Eof` and errors leave the lookback as it was.
pub proof fn law_lookback_is_last_token(s: LexState)
    requires
        s.cursor <= s.src.len(),
    ensures
        lex_step(s) matches Lexed::Done(s2, r) ==> match r {
            Ok(t) => if t.kind == SpecTokenKind::Whitespace || t.kind == SpecTokenKind::Eof {
                s2.lookback == s.lookback
            } else {
                s2.lookback == Some(t)
            },
            Err(_) => s2.lookback == s.lookback,
        },
{
    if s.cursor < s.src.len() {
        lemma_after_frame(s.advance(), s.src[s.cursor as int]);
        lemma_after_no_eof(s.advance(), s.src[s.cursor as int]);
    }
}

/// The lookback is never a white space token: if it is not one before a step,
/// it is not one after.
pub proof fn law_lookback_never_whitespace(s: LexState)
    requires
        s.cursor <= s.src.len(),
        s.lookback matches Some(t) ==> t.kind != SpecTokenKind::Whitespace,
    ensures
        lex_step(s) matches Lexed::Done(s2, _) ==> (s2.lookback matches Some(t) ==> t.kind
            != SpecTokenKind::Whitespace),
{
    law_lookback_is_last_token(s);
}

pub open spec fn is_comment(k: SpecTokenKind) -> bool {
    k matches SpecTokenKind::Comment(_)
}

pub open spec fn is_bytes(k: SpecTokenKind) -> bool {
    k matches SpecTokenKind::Bytes(_)
}

pub open spec fn gives_no_bytes(o: Lexed) -> bool {
    o matches Lexed::Done(_, Ok(t)) ==> !is_bytes(t.kind)
}

pub open spec fn gives_no_comment(o: Lexed) -> bool {
    o matches Lexed::Done(_, Ok(t)) ==> !is_comment(t.kind)
}

pub open spec fn no_comment(k: Option<SpecTokenKind>) -> bool {
    k matches Some(x) ==> !is_comment(x) && !is_bytes(x) && x != SpecTokenKind::Eof
}

pub open spec fn gives_no_eof(o: Lexed) -> bool {
    o matches Lexed::Done(_, Ok(t)) ==> t.kind != SpecTokenKind::Eof
}

proof fn lemma_word_no_comment(s: LexState, ch: char)
    requires
        s.cursor <= s.src.len(),
    ensures
        gives_no_comment(lex_word(s, ch)),
        gives_no_bytes(lex_word(s, ch)),
        gives_no_eof(lex_word(s, ch)),
{
    let (s1, word, start, end) = eat(s, Some(ch), CharClass::WordChar);
    let (s2, found2) = word_keyword(s1, word);
    assert(no_comment(crate::words::keyword_kind(word)));
    assert(no_comment(found2));
    let (s3, end3, found3) = word_free_storage_pointer(s2, word, end, found2);
    assert(no_comment(found3));
    let (s4, found4) = word_label_bool(s3, word, found3);
    assert(no_comment(found4));
    let found5 = crate::model::word_opcode(s4.context, word, found4);
    assert(no_comment(found5));
    match word_abi(s4, ch, word, end3, found5) {
        AbiRead::Panics => {},
        AbiRead::Read(s6, end6, found6) => {
            if s4.context == crate::token::Context::AbiArgs {
                if let Some(cur) = s4.peek() {
                    if cur != '(' && cur != ')' {
                        let (s5, partial, _st, abi_end) = eat(s4, Some(ch), CharClass::AbiType);
                        let raw = word + partial.drop_first();
                        assert(crate::model::abi_raw_type(raw, word, found5) matches Some(f) ==> no_comment(f));
                    }
                }
            }
            assert(no_comment(found6));
        },
    }
}

proof fn lemma_after_no_comment(s: LexState, ch: char)
    requires
        s.cursor <= s.src.len(),
        ch != '/',
    ensures
        gives_no_comment(lex_after(s, ch)),
{
    lemma_word_no_comment(s, ch);
    assert(gives_no_comment(lex_pound(s)));
    assert(gives_no_comment(lex_hex(s, ch)));
    assert(gives_no_comment(lex_digits(s, ch)));
    assert(gives_no_comment(lex_whitespace(s)));
    assert(gives_no_comment(lex_string(s)));
    assert(gives_no_comment(lex_open_paren(s)));
    assert(gives_no_comment(lex_close_paren(s)));
    assert(gives_no_comment(lex_open_brace(s)));
    assert(gives_no_comment(lex_close_brace(s)));
}

pub open spec fn comment_is_source(src: Seq<char>, o: Lexed) -> bool {
    o matches Lexed::Done(_, Ok(t)) ==> (t.kind matches SpecTokenKind::Comment(text)
        ==> t.span.start <= t.span.end && text == src.subrange(t.span.start as int, t.span.end + 1))
}

proof fn lemma_slash_comment(s: LexState)
    requires
        0 < s.cursor <= s.src.len(),
        s.src[s.cursor - 1] == '/',
        s.src.len() + 3 <= usize::MAX,
    ensures
        comment_is_source(s.src, lex_slash(s)),
{
    broadcast use lemma_block_comment_end;

    lemma_scan(s.src, s.cursor, CharClass::NotNewline);
    match s.peek() {
        Some('/') => {
            let (s2, w, st, en) = eat(s, Some('/'), CharClass::NotNewline);
            assert(w =~= s.src.subrange(st as int, en + 1int));
        },
        Some('*') => {
            let s2 = s.advance();
            let e = block_comment_end(s.src, s2.cursor, 1);
            assert(s2.cursor <= e);
        },
        _ => {},
    }
}

/// A comment token carries exactly the source text that its span covers,
/// from its first to its last character.
pub proof fn law_comment_text_is_source(s: LexState)
    requires
        s.cursor <= s.src.len(),
        s.src.len() + 3 <= usize::MAX,
    ensures
        comment_is_source(s.src, lex_step(s)),
{
    if s.cursor < s.src.len() {
        let ch = s.src[s.cursor as int];
        let s1 = s.advance();
        if ch == '/' {
            lemma_slash_comment(s1);
            assert(lex_after(s1, ch) == lex_slash(s1));
        } else {
            lemma_after_no_comment(s1, ch);
        }
    }
}

proof fn lemma_read_path_no_quote(src: Seq<char>, i: nat)
    requires
        i <= src.len(),
    ensures
        read_path(src, i).1 matches Some(p) ==> forall|m: int| 0 <= m < p.len() ==> !is_quote(
            #[trigger] p[m],
        ),
    decreases src.len() - i,
{
    if i < src.len() && !is_quote(src[i as int]) {
        lemma_read_path_no_quote(src, i + 1);
        if let Some(p) = read_path(src, i + 1).1 {
            let q = seq![src[i as int]] + p;
            assert forall|m: int| 0 <= m < q.len() implies !is_quote(#[trigger] q[m]) by {
                if m > 0 {
                    assert(q[m] == p[m - 1]);
                }
            }
        }
    }
}

pub open spec fn quote_free(paths: Seq<Seq<char>>) -> bool {
    forall|n: int, m: int| 0 <= n < paths.len() && 0 <= m < paths[n].len() ==> !is_quote(
        #[trigger] paths[n][m],
    )
}

proof fn lemma_imports_quote_free(src: Seq<char>, i: nat, k: nat)
    requires
        i <= src.len(),
    ensures
        quote_free(imports_from(src, i, k)),
    decreases src.len() - i,
{
    if i < src.len() {
        let nc = src[i as int];
        let j = if nc == '/' {
            after_slash(src, i + 1)
        } else {
            i + 1
        };
        lemma_skips(src, i + 1);
        if k >= 8 {
            let j2 = scan(src, j, CharClass::Space);
            lemma_scan(src, j, CharClass::Space);
            if j2 < src.len() && is_quote(src[j2 as int]) {
                let (j3, r) = read_path(src, j2 + 1);
                lemma_skips(src, j2 + 1);
                lemma_read_path_no_quote(src, j2 + 1);
                lemma_imports_quote_free(src, j3, 0);
                if let Some(p) = r {
                    let rest = imports_from(src, j3, 0);
                    let all = seq![p] + rest;
                    assert forall|n: int, m: int| 0 <= n < all.len() && 0 <= m < all[n].len()
                        implies !is_quote(#[trigger] all[n][m]) by {
                        if n > 0 {
                            assert(all[n] == rest[n - 1]);
                        }
                    }
                }
            } else {
                lemma_imports_quote_free(src, j2, 0);
            }
        } else if nc == include_word()[k as int] {
            lemma_imports_quote_free(src, j, k + 1);
        } else {
            lemma_imports_quote_free(src, j, 0);
        }
    }
}

/// No import path that `lex_imports` finds contains a quote character.
pub proof fn law_import_paths_have_no_quotes(src: Seq<char>)
    ensures
        quote_free(imports_from(src, 0, 0)),
{
    lemma_imports_quote_free(src, 0, 0);
}

/// `#include` occurs in `src` at index `m`.
pub open spec fn include_at(src: Seq<char>, m: int) -> bool {
    0 <= m && m + 8 <= src.len() && src.subrange(m, m + 8) == include_word()
}

proof fn lemma_imports_need_include(src: Seq<char>, i: nat, k: nat)
    requires
        i <= src.len(),
        k <= 8,
        k <= i,
        src.subrange(i - k, i as int) == include_word().take(k as int),
        imports_from(src, i, k).len() > 0,
    ensures
        exists|m: int| include_at(src, m),
    decreases src.len() - i,
{
    if i < src.len() {
        let nc = src[i as int];
        let j = if nc == '/' {
            after_slash(src, i + 1)
        } else {
            i + 1
        };
        lemma_skips(src, i + 1);
        if k >= 8 {
            assert(include_word().take(8) =~= include_word());
            assert(include_at(src, i - 8));
        } else if nc == include_word()[k as int] {
            assert(nc != '/');
            assert(src.subrange(i + 1 - (k + 1), i + 1int) =~= include_word().take(k + 1int));
            lemma_imports_need_include(src, j, k + 1);
        } else {
            assert(src.subrange(j as int, j as int) =~= include_word().take(0));
            lemma_imports_need_include(src, j, 0);
        }
    }
}

/// `lex_imports` finds a path only in a source in which `#include` occurs.
pub proof fn law_imports_need_include(src: Seq<char>)
    requires
        imports_from(src, 0, 0).len() > 0,
    ensures
        exists|m: int| include_at(src, m),
{
    assert(src.subrange(0, 0) =~= include_word().take(0));
    lemma_imports_need_include(src, 0, 0);
}


proof fn lemma_after_no_bytes(s: LexState, ch: char)
    requires
        s.cursor <= s.src.len(),
        !(ch == '0' && s.peek() == Some('x')),
    ensures
        gives_no_bytes(lex_after(s, ch)),
{
    lemma_word_no_comment(s, ch);
    assert(gives_no_bytes(lex_slash(s)));
    assert(gives_no_bytes(lex_pound(s)));
    assert(gives_no_bytes(lex_digits(s, ch)));
    assert(gives_no_bytes(lex_whitespace(s)));
    assert(gives_no_bytes(lex_string(s)));
    assert(gives_no_bytes(lex_open_paren(s)));
    assert(gives_no_bytes(lex_close_paren(s)));
    assert(gives_no_bytes(lex_open_brace(s)));
    assert(gives_no_bytes(lex_close_brace(s)));
}

pub open spec fn constant_bytes_fit(ctx: crate::token::Context, o: Lexed) -> bool {
    o matches Lexed::Done(_, Ok(t)) ==> (t.kind matches SpecTokenKind::Bytes(h) ==> (ctx
        == crate::token::Context::Constant ==> h.len() <= 64))
}

/// In a constant, raw hex bytes are at most 32 bytes long (64 hex digits).
pub proof fn law_constant_bytes_at_most_32(s: LexState)
    requires
        s.cursor <= s.src.len(),
    ensures
        constant_bytes_fit(s.context, lex_step(s)),
{
    if s.cursor < s.src.len() {
        let ch = s.src[s.cursor as int];
        let s1 = s.advance();
        if ch == '0' && s1.peek() == Some('x') {
            if !(alphabetic(ch) || ch == '_') {
                lemma_scan(s1.src, s1.cursor, CharClass::HexOrX);
                let (s2, w, st, en) = eat(s1, Some(ch), CharClass::HexOrX);
                assert(w.len() >= 2);
                assert(lex_after(s1, ch) == lex_hex(s1, ch));
                let h = w.skip(2);
                if s2.context == crate::token::Context::Constant && w.len() <= 66 {
                    assert(lower_hex(h).len() == h.len());
                    assert(h.len() <= 64);
                    assert(even_padded(lower_hex(h)).len() <= 64);
                }
            } else {
                lemma_word_no_comment(s1, ch);
            }
        } else {
            lemma_after_no_bytes(s1, ch);
        }
    }
}


/// An ABI type token: a primitive type, an array type or a data location.
pub open spec fn is_abi_type(k: SpecTokenKind) -> bool {
    ||| k matches SpecTokenKind::PrimitiveType(_)
    ||| k matches SpecTokenKind::ArrayType(_, _)
    ||| k == SpecTokenKind::Calldata
    ||| k == SpecTokenKind::Memory
    ||| k == SpecTokenKind::Storage
}

pub open spec fn is_opcode(k: SpecTokenKind) -> bool {
    k matches SpecTokenKind::Opcode(_)
}

/// Opcodes are read only in a macro body and ABI types only in ABI arguments.
pub open spec fn kind_fits_context(ctx: crate::token::Context, k: SpecTokenKind) -> bool {
    &&& is_opcode(k) ==> ctx == crate::token::Context::MacroBody
    &&& is_abi_type(k) ==> ctx == crate::token::Context::AbiArgs
}

pub open spec fn opt_fits(ctx: crate::token::Context, k: Option<SpecTokenKind>) -> bool {
    k matches Some(x) ==> kind_fits_context(ctx, x)
}

pub open spec fn gives_fitting(ctx: crate::token::Context, o: Lexed) -> bool {
    o matches Lexed::Done(_, Ok(t)) ==> kind_fits_context(ctx, t.kind)
}

proof fn lemma_word_fits(s: LexState, ch: char)
    requires
        s.cursor <= s.src.len(),
    ensures
        gives_fitting(s.context, lex_word(s, ch)),
{
    broadcast use lemma_eat_state;

    let ctx = s.context;
    let (s1, word, start, end) = eat(s, Some(ch), CharClass::WordChar);
    assert(s1.context == ctx);
    let found0 = if s1.context != crate::token::Context::MacroBody {
        crate::words::keyword_kind(word)
    } else {
        None
    };
    assert(keyword_rules(s1, found0).0.context == ctx);
    let (s2, found2) = word_keyword(s1, word);
    assert(s2.context == ctx || found2 is Some);
    assert(found2 is Some ==> !is_opcode(found2->0) && !is_abi_type(found2->0));
    assert(s2.context == crate::token::Context::MacroBody ==> ctx
        == crate::token::Context::MacroBody);
    assert(s2.context == crate::token::Context::AbiArgs ==> ctx == crate::token::Context::AbiArgs);
    let (s3, end3, found3) = word_free_storage_pointer(s2, word, end, found2);
    assert(s3.context == s2.context);
    assert(opt_fits(ctx, found3));
    let (s4, found4) = word_label_bool(s3, word, found3);
    assert(s4.context == s2.context);
    assert(opt_fits(ctx, found4));
    let found5 = crate::model::word_opcode(s4.context, word, found4);
    assert(opt_fits(ctx, found5));
    match word_abi(s4, ch, word, end3, found5) {
        AbiRead::Panics => {},
        AbiRead::Read(s6, end6, found6) => {
            assert(opt_fits(ctx, found6));
            assert(s6.context == s4.context);
            let k = crate::model::word_final_kind(s6.context, word, found6);
            assert(kind_fits_context(ctx, k));
        },
    }
}

proof fn lemma_after_fits(s: LexState, ch: char)
    requires
        s.cursor <= s.src.len(),
    ensures
        gives_fitting(s.context, lex_after(s, ch)),
{
    lemma_word_fits(s, ch);
    assert(gives_fitting(s.context, lex_slash(s)));
    assert(gives_fitting(s.context, lex_pound(s)));
    assert(gives_fitting(s.context, lex_hex(s, ch)));
    assert(gives_fitting(s.context, lex_digits(s, ch)));
    assert(gives_fitting(s.context, lex_whitespace(s)));
    assert(gives_fitting(s.context, lex_string(s)));
    assert(gives_fitting(s.context, lex_open_paren(s)));
    assert(gives_fitting(s.context, lex_close_paren(s)));
    assert(gives_fitting(s.context, lex_open_brace(s)));
    assert(gives_fitting(s.context, lex_close_brace(s)));
}

/// The context decides how a word is read: an opcode token comes only out of
/// a macro body, and an ABI type token (primitive, array, data location) only
/// out of ABI arguments.
pub proof fn law_context_decides_word_kinds(s: LexState)
    requires
        s.cursor <= s.src.len(),
    ensures
        gives_fitting(s.context, lex_step(s)),
{
    if s.cursor < s.src.len() {
        lemma_after_fits(s.advance(), s.src[s.cursor as int]);
    }
}


/// The context after a token of kind `k`, read in context `ctx` with lookback
/// `lookback`: the definition keywords open their context, braces open and
/// close bodies, parentheses open and close argument lists; every other kind
/// keeps the context.
pub open spec fn context_after_token(
    ctx: crate::token::Context,
    lookback: Option<SpecToken>,
    k: SpecTokenKind,
) -> crate::token::Context {
    match k {
        SpecTokenKind::Macro | SpecTokenKind::Fn | SpecTokenKind::Test => Context::MacroDefinition,
        SpecTokenKind::Function | SpecTokenKind::Event | SpecTokenKind::Error => Context::Abi,
        SpecTokenKind::Constant => Context::Constant,
        SpecTokenKind::CodeTable => Context::CodeTableBody,
        SpecTokenKind::OpenBrace => if ctx == Context::MacroDefinition {
            Context::MacroBody
        } else {
            ctx
        },
        SpecTokenKind::CloseBrace => if ctx == Context::MacroBody || ctx == Context::CodeTableBody {
            Context::Global
        } else {
            ctx
        },
        SpecTokenKind::OpenParen => match ctx {
            Context::Abi => Context::AbiArgs,
            Context::MacroBody => match lookback {
                Some(t) => if t.kind is BuiltinFunction {
                    Context::BuiltinFunction
                } else {
                    Context::MacroArgs
                },
                None => ctx,
            },
            _ => ctx,
        },
        SpecTokenKind::CloseParen => match ctx {
            Context::AbiArgs => Context::Abi,
            Context::MacroArgs | Context::BuiltinFunction => Context::MacroBody,
            _ => ctx,
        },
        _ => ctx,
    }
}

pub open spec fn is_context_keyword(k: SpecTokenKind) -> bool {
    ||| k == SpecTokenKind::Macro
    ||| k == SpecTokenKind::Fn
    ||| k == SpecTokenKind::Test
    ||| k == SpecTokenKind::Function
    ||| k == SpecTokenKind::Event
    ||| k == SpecTokenKind::Error
    ||| k == SpecTokenKind::Constant
    ||| k == SpecTokenKind::CodeTable
}

pub open spec fn context_follows(s: LexState, o: Lexed) -> bool {
    o matches Lexed::Done(s2, r) ==> match r {
        Ok(t) => match t.kind {
            SpecTokenKind::Label(w) => s2.context == s.context || (crate::words::keyword_kind(w)
                matches Some(k) && is_context_keyword(k) && s2.context == context_after_token(
                s.context,
                s.lookback,
                k,
            )),
            _ => s2.context == context_after_token(s.context, s.lookback, t.kind),
        },
        Err(_) => s2.context == s.context,
    }
}

#[verifier::rlimit(80)]
proof fn lemma_word_context(s: LexState, ch: char)
    requires
        s.cursor <= s.src.len(),
    ensures
        context_follows(s, lex_word(s, ch)),
{
    broadcast use lemma_eat_state;

    reveal_strlit("macro");
    reveal_strlit("fn");
    reveal_strlit("test");
    reveal_strlit("function");
    reveal_strlit("constant");
    reveal_strlit("error");
    reveal_strlit("event");
    reveal_strlit("table");
    reveal_strlit("FREE_STORAGE_POINTER");
    reveal_strlit("true");
    reveal_strlit("false");
    let ctx = s.context;
    let (s1, word, start, end) = eat(s, Some(ch), CharClass::WordChar);
    let found0 = if s1.context != crate::token::Context::MacroBody {
        crate::words::keyword_kind(word)
    } else {
        None
    };
    assert(keyword_rules(s1, found0).0.context == ctx);
    let (s2, found2) = word_keyword(s1, word);
    let ck = found2 matches Some(k) && is_context_keyword(k);
    assert(ck ==> found2 == found0 && found0 == crate::words::keyword_kind(word));
    assert(ck ==> word != "FREE_STORAGE_POINTER"@ && word != "true"@ && word != "false"@);
    assert(ck ==> s2.context == context_after_token(ctx, s.lookback, found2->0));
    assert(ck ==> s2.context != crate::token::Context::MacroBody && s2.context
        != crate::token::Context::AbiArgs);
    assert(!ck ==> s2.context == ctx);
    let (s3, end3, found3) = word_free_storage_pointer(s2, word, end, found2);
    assert(s3.context == s2.context);
    assert(ck ==> found3 == found2);
    assert(!ck ==> !(found3 matches Some(k) && is_context_keyword(k)));
    let (s4, found4) = word_label_bool(s3, word, found3);
    assert(s4.context == s2.context);
    assert(ck ==> found4 == found2 || found4 == Some(SpecTokenKind::Label(word)));
    assert(found4 matches Some(SpecTokenKind::Label(w)) ==> w == word);
    assert(!ck ==> !(found4 matches Some(k) && is_context_keyword(k)));
    let found5 = crate::model::word_opcode(s4.context, word, found4);
    assert(found5 == found4 || !(found5 matches Some(k) && is_context_keyword(k)));
    assert(ck ==> found5 == found4);
    match word_abi(s4, ch, word, end3, found5) {
        AbiRead::Panics => {},
        AbiRead::Read(s6, end6, found6) => {
            assert(s6.context == s4.context);
            assert(ck ==> found6 == found5);
            if s4.context == crate::token::Context::AbiArgs {
                if let Some(cur) = s4.peek() {
                    if cur != '(' && cur != ')' {
                        let (s5, partial, _st, abi_end) = eat(s4, Some(ch), CharClass::AbiType);
                        let raw = word + partial.drop_first();
                        assert(crate::model::abi_raw_type(raw, word, found5) matches Some(f) ==> (f
                            == found5 || !(f matches Some(k) && is_context_keyword(k))));
                    }
                }
            }
            assert(!ck ==> !(found6 matches Some(k) && is_context_keyword(k)));
            let k = crate::model::word_final_kind(s6.context, word, found6);
            assert(found6 matches Some(SpecTokenKind::Label(w)) ==> w == word);
            assert(!(k is Label) ==> s6.context == context_after_token(ctx, s.lookback, k));
            assert(k matches SpecTokenKind::Label(w) ==> w == word);
        },
    }
}

proof fn lemma_simple_context(s: LexState, ch: char)
    requires
        s.cursor <= s.src.len(),
    ensures
        context_follows(s, lex_slash(s)),
        context_follows(s, lex_pound(s)),
        context_follows(s, lex_hex(s, ch)),
        context_follows(s, lex_digits(s, ch)),
        context_follows(s, lex_whitespace(s)),
        context_follows(s, lex_string(s)),
        context_follows(s, lex_open_paren(s)),
        context_follows(s, lex_close_paren(s)),
        context_follows(s, lex_open_brace(s)),
        context_follows(s, lex_close_brace(s)),
        forall|k: SpecTokenKind| #![auto] context_follows(s, single(s, k)) <== context_after_token(s.context, s.lookback, k) == s.context,
{
    broadcast use lemma_eat_state;

    assert(context_follows(s, lex_slash(s)));
    assert(context_follows(s, lex_pound(s)));
    assert(context_follows(s, lex_hex(s, ch)));
}

#[verifier::rlimit(40)]
proof fn lemma_after_context(s: LexState, ch: char)
    requires
        s.cursor <= s.src.len(),
    ensures
        context_follows(s, lex_after(s, ch)),
{
    lemma_word_context(s, ch);
    lemma_simple_context(s, ch);
}

/// How each token moves the context: `macro`, `fn` and `test` open a macro
/// definition, `function`, `event` and `error` an ABI signature, `constant` a
/// constant and `table` a code table; `{` opens a macro body, `}` closes a
/// macro body or code table; `(` opens ABI arguments, or in a macro body the
/// arguments of a builtin (after a builtin name) or of a macro call; `)`
/// closes them. Any other token, and any error, keeps the context. A label
/// keeps the context too, except that a definition keyword directly followed
/// by `:` (a label spelled like the keyword) still moves the context as the
/// keyword does.
pub proof fn law_context_transitions(s: LexState)
    requires
        s.cursor <= s.src.len(),
    ensures
        context_follows(s, lex_step(s)),
{
    if s.cursor < s.src.len() {
        let s1 = s.advance();
        lemma_after_context(s1, s.src[s.cursor as int]);
        lemma_after_frame(s1, s.src[s.cursor as int]);
    }
}


/// What a hex literal reads as. After a `0` followed by `x`, the lexer reads
/// `h`: the `0` and the run of ASCII hex digits and `x` after it, all of it in
/// every case. Then `h` is an invalid hex literal unless it holds exactly one
/// `x`; outside a code table it is too long beyond 66 characters (32 bytes);
/// else it is raw lower-case bytes of even length in a code table or a
/// constant, and a 32-byte literal elsewhere, spanning the digits after `0x`.
pub proof fn law_hex_literal(s: LexState)
    requires
        s.cursor + 1 < s.src.len(),
        s.src[s.cursor as int] == '0',
        s.src[s.cursor + 1int] == 'x',
        s.src.len() + 3 <= usize::MAX,
    ensures
        ({
            let c = s.cursor;
            let j = scan(s.src, c + 1, CharClass::HexOrX);
            let h = s.src.subrange(c as int, j as int);
            lex_step(s) matches Lexed::Done(s2, r) && s2.cursor == j && s2.context == s.context
                && r == if count_char(h, 'x') != 1 {
                Err(lex_error(SpecErrorKind::InvalidHexLiteral(h), c, (j - 1) as nat))
            } else if h.len() > 66 && s.context != Context::CodeTableBody {
                Err(lex_error(SpecErrorKind::HexLiteralTooLong(h), c, (j - 1) as nat))
            } else if s.context == Context::CodeTableBody || s.context == Context::Constant {
                Ok(token(SpecTokenKind::Bytes(even_padded(lower_hex(h.skip(2)))), c + 2, (j - 1) as nat))
            } else {
                Ok(token(SpecTokenKind::Literal(bytes32_of_hex(h.skip(2))), c + 2, (j - 1) as nat))
            }
        }),
{
    let c = s.cursor;
    let s1 = s.advance();
    lemma_scan(s.src, c + 1, CharClass::HexOrX);
    assert(!alphabetic('0'));
    assert(lex_after(s1, '0') == lex_hex(s1, '0'));
    let (s2, w, st, en) = eat(s1, Some('0'), CharClass::HexOrX);
    assert(w =~= s.src.subrange(c as int, scan(s.src, c + 1, CharClass::HexOrX) as int));
}


proof fn lemma_read_path_found(src: Seq<char>, i: nat)
    requires
        i <= src.len(),
    ensures
        read_path(src, i).1 matches Some(p) ==> {
            &&& i + p.len() < src.len()
            &&& src.subrange(i as int, i + p.len() as int) == p
            &&& is_quote(src[i + p.len() as int])
            &&& read_path(src, i).0 == i + p.len() + 1
        },
    decreases src.len() - i,
{
    if i < src.len() && !is_quote(src[i as int]) {
        lemma_read_path_found(src, i + 1);
        if let Some(p) = read_path(src, i + 1).1 {
            assert(src.subrange(i as int, i + 1 + p.len() as int) =~= seq![src[i as int]] + p);
        }
    } else if i < src.len() {
        assert(src.subrange(i as int, i as int) =~= Seq::<char>::empty());
    }
}

/// `p` stands in `src` directly between two quote characters.
pub open spec fn quoted_in(src: Seq<char>, p: Seq<char>) -> bool {
    exists|m: int|
        1 <= m && m + p.len() < src.len() && is_quote(src[m - 1]) && #[trigger] src.subrange(
            m,
            m + p.len(),
        ) == p && is_quote(src[m + p.len()])
}

pub open spec fn all_quoted_in(src: Seq<char>, paths: Seq<Seq<char>>) -> bool {
    forall|n: int| 0 <= n < paths.len() ==> quoted_in(src, #[trigger] paths[n])
}

proof fn lemma_imports_quoted(src: Seq<char>, i: nat, k: nat)
    requires
        i <= src.len(),
    ensures
        all_quoted_in(src, imports_from(src, i, k)),
    decreases src.len() - i,
{
    if i < src.len() {
        let nc = src[i as int];
        let j = if nc == '/' {
            after_slash(src, i + 1)
        } else {
            i + 1
        };
        lemma_skips(src, i + 1);
        if k >= 8 {
            let j2 = scan(src, j, CharClass::Space);
            lemma_scan(src, j, CharClass::Space);
            if j2 < src.len() && is_quote(src[j2 as int]) {
                let (j3, r) = read_path(src, j2 + 1);
                lemma_skips(src, j2 + 1);
                lemma_read_path_found(src, j2 + 1);
                lemma_imports_quoted(src, j3, 0);
                if let Some(p) = r {
                    let m = (j2 + 1) as int;
                    assert(src.subrange(m, m + p.len()) == p);
                    assert(quoted_in(src, p));
                    let rest = imports_from(src, j3, 0);
                    let all = seq![p] + rest;
                    assert forall|n: int| 0 <= n < all.len() implies quoted_in(src, #[trigger] all[n]) by {
                        if n > 0 {
                            assert(all[n] == rest[n - 1]);
                        }
                    }
                }
            } else {
                lemma_imports_quoted(src, j2, 0);
            }
        } else if nc == include_word()[k as int] {
            lemma_imports_quoted(src, j, k + 1);
        } else {
            lemma_imports_quoted(src, j, 0);
        }
    }
}

/// Every import path found stands in the source directly between two quote
/// characters.
pub proof fn law_import_paths_are_quoted_text(src: Seq<char>)
    ensures
        all_quoted_in(src, imports_from(src, 0, 0)),
{
    lemma_imports_quoted(src, 0, 0);
}

/// The number of occurrences of `#include` in `src` at index `a` or later.
pub open spec fn include_count_from(src: Seq<char>, a: int) -> nat
    decreases src.len() - a,
{
    if a >= src.len() || a < 0 {
        0
    } else {
        (if include_at(src, a) {
            1nat
        } else {
            0nat
        }) + include_count_from(src, a + 1)
    }
}

proof fn lemma_include_count_monotone(src: Seq<char>, a: int, b: int)
    requires
        0 <= a <= b,
    ensures
        include_count_from(src, b) <= include_count_from(src, a),
    decreases b - a,
{
    if a < b {
        lemma_include_count_monotone(src, a + 1, b);
    }
}

proof fn lemma_imports_counted(src: Seq<char>, i: nat, k: nat)
    requires
        i <= src.len(),
        k <= 8,
        k <= i,
        src.subrange(i - k, i as int) == include_word().take(k as int),
    ensures
        imports_from(src, i, k).len() <= include_count_from(src, i - k),
    decreases src.len() - i,
{
    if i < src.len() {
        let nc = src[i as int];
        let j = if nc == '/' {
            after_slash(src, i + 1)
        } else {
            i + 1
        };
        lemma_skips(src, i + 1);
        if k >= 8 {
            assert(include_word().take(8) =~= include_word());
            assert(include_at(src, i - 8));
            let j2 = scan(src, j, CharClass::Space);
            lemma_scan(src, j, CharClass::Space);
            let a = i - 8;
            assert(include_count_from(src, a) == 1 + include_count_from(src, a + 1));
            if j2 < src.len() && is_quote(src[j2 as int]) {
                let (j3, r) = read_path(src, j2 + 1);
                lemma_skips(src, j2 + 1);
                assert(src.subrange(j3 as int, j3 as int) =~= include_word().take(0));
                lemma_imports_counted(src, j3, 0);
                lemma_include_count_monotone(src, a + 1, j3 as int);
            } else {
                assert(src.subrange(j2 as int, j2 as int) =~= include_word().take(0));
                lemma_imports_counted(src, j2, 0);
                lemma_include_count_monotone(src, a + 1, j2 as int);
            }
        } else if nc == include_word()[k as int] {
            assert(nc != '/');
            assert(src.subrange(i + 1 - (k + 1), i + 1int) =~= include_word().take(k + 1int));
            lemma_imports_counted(src, j, k + 1);
        } else {
            assert(src.subrange(j as int, j as int) =~= include_word().take(0));
            lemma_imports_counted(src, j, 0);
            lemma_include_count_monotone(src, i - k, j as int);
        }
    }
}

/// `lex_imports` finds at most as many paths as there are occurrences of
/// `#include` in the source.
pub proof fn law_imports_at_most_includes(src: Seq<char>)
    ensures
        imports_from(src, 0, 0).len() <= include_count_from(src, 0),
{
    assert(src.subrange(0, 0) =~= include_word().take(0));
    lemma_imports_counted(src, 0, 0);
}


/// The items that calling `next` again and again yields from state `s`, up
/// to the first `None`; `None` when a step on the way panics.
pub open spec fn lex_items(s: LexState) -> Option<Seq<Result<SpecToken, crate::token::SpecLexError>>>
    decreases s.src.len() - s.cursor, if s.eof {
        0int
    } else {
        1int
    },
    when s.cursor <= s.src.len()
{
    if s.eof {
        Some(Seq::empty())
    } else {
        match lex_step(s) {
            Lexed::Panics => None,
            Lexed::Done(s2, r) => {
                proof {
                    law_step_moves_forward(s);
                }
                match lex_items(s2) {
                    Some(rest) => Some(seq![r] + rest),
                    None => None,
                }
            },
        }
    }
}

pub open spec fn is_eof_item(r: Result<SpecToken, crate::token::SpecLexError>) -> bool {
    r matches Ok(t) && t.kind == SpecTokenKind::Eof
}

/// Lexing ends: from a state not yet at its end, the items that `next` yields
/// before its first `None` are at most one more than the characters left;
/// exactly one of them is `Eof`, and it is the last.
pub proof fn law_lexing_ends(s: LexState)
    requires
        s.cursor <= s.src.len(),
        !s.eof,
    ensures
        lex_items(s) matches Some(items) ==> {
            &&& 1 <= items.len() <= s.src.len() - s.cursor + 1
            &&& is_eof_item(items.last())
            &&& forall|i: int| 0 <= i < items.len() - 1 ==> !is_eof_item(#[trigger] items[i])
        },
    decreases s.src.len() - s.cursor,
{
    law_step_moves_forward(s);
    law_eof_only_at_end(s);
    if let Lexed::Done(s2, r) = lex_step(s) {
        if s.cursor < s.src.len() {
            law_lexing_ends(s2);
            if let Some(rest) = lex_items(s2) {
                let items = seq![r] + rest;
                assert forall|i: int| 0 <= i < items.len() - 1 implies !is_eof_item(
                    #[trigger] items[i],
                ) by {
                    if i > 0 {
                        assert(items[i] == rest[i - 1]);
                    }
                }
            }
        } else {
            assert(lex_items(s2) == Some(Seq::<Result<SpecToken, crate::token::SpecLexError>>::empty()));
        }
    }
}

} // verus!
