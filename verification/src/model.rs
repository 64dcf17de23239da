//! The mathematical model of the lexer: its state and what one step of
//! lexing does to it.
use vstd::prelude::*;
use crate::chars::{CharClass, in_class, alphabetic, is_ascii_digit, is_ascii_ws, is_quote};
use crate::patterns::{regex_match_result, split_at_char};
use crate::token::{Context, Span, SpecErrorKind, SpecLexError, SpecToken, SpecTokenKind, PrimitiveEVMType};
use crate::values::{bytes32_of_hex, even_padded, lower_hex, parse_usize, primitive_read};
use crate::words::{is_builtin_name, keyword_kind, opcode_of};

verus! {

/// The pattern of an array type in an ABI signature, such as `uint256[]` or `bytes32[4]`.
pub const EVM_TYPE_ARRAY_PATTERN: &'static str = "((u|)int[0-9]*|address|bool|bytes|string|bytes[0-9]*)\\[[0-9]*\\]";

/// The state of a lexer: the source, the index of the next character to read,
/// the last token that was not white space, whether the end was reached, and
/// the context.
pub struct LexState {
    pub src: Seq<char>,
    pub cursor: nat,
    pub lookback: Option<SpecToken>,
    pub eof: bool,
    pub context: Context,
}

/// What one step of lexing gives: the source makes the lexer panic at this
/// point, or the new state and the token or error read.
pub enum Lexed {
    Panics,
    Done(LexState, Result<SpecToken, SpecLexError>),
}

impl LexState {
    /// The index of the last character read (0 before any is read).
    pub open spec fn position(self) -> nat {
        if self.cursor == 0 {
            0
        } else {
            (self.cursor - 1) as nat
        }
    }

    /// The next character, if any.
    pub open spec fn peek(self) -> Option<char> {
        if self.cursor < self.src.len() {
            Some(self.src[self.cursor as int])
        } else {
            None
        }
    }

    /// The state after reading one character, if there is one.
    pub open spec fn advance(self) -> LexState {
        if self.cursor < self.src.len() {
            LexState { cursor: self.cursor + 1, ..self }
        } else {
            self
        }
    }

    pub open spec fn at(self, cursor: nat) -> LexState {
        LexState { cursor, ..self }
    }

    pub open spec fn in_context(self, context: Context) -> LexState {
        LexState { context, ..self }
    }

    /// Whether the last token that was not white space has kind `k`.
    pub open spec fn lookback_is(self, k: SpecTokenKind) -> bool {
        match self.lookback {
            Some(t) => t.kind == k,
            None => false,
        }
    }
}

/// The span from `start` to `end`.
pub open spec fn span(start: nat, end: nat) -> Span {
    Span { start: start as usize, end: end as usize }
}

pub open spec fn token(kind: SpecTokenKind, start: nat, end: nat) -> SpecToken {
    SpecToken { kind, span: span(start, end) }
}

pub open spec fn lex_error(kind: SpecErrorKind, start: nat, end: nat) -> SpecLexError {
    SpecLexError { kind, span: span(start, end) }
}

/// The end of the run of characters of class `k` that starts at `i`.
pub open spec fn scan(src: Seq<char>, i: nat, k: CharClass) -> nat
    decreases src.len() - i,
{
    if i < src.len() && in_class(k, src[i as int]) {
        scan(src, i + 1, k)
    } else {
        i
    }
}

pub open spec fn init_seq(init: Option<char>) -> Seq<char> {
    match init {
        Some(c) => seq![c],
        None => Seq::empty(),
    }
}

/// Reading the run of characters of class `k` that follows: the new state,
/// the word (`init` followed by the run), and the positions before and after.
pub open spec fn eat(s: LexState, init: Option<char>, k: CharClass) -> (LexState, Seq<char>, nat, nat) {
    let j = scan(s.src, s.cursor, k);
    let s2 = s.at(j);
    (s2, init_seq(init) + s.src.subrange(s.cursor as int, j as int), s.position(), s2.position())
}

/// The index just past a block comment whose body starts at `i`, with
/// `depth` comments open: nested `/*` open one more, `*/` closes one; an
/// unclosed comment runs to the end of the source.
pub open spec fn block_comment_end(src: Seq<char>, i: nat, depth: nat) -> nat
    decreases src.len() - i,
{
    if i >= src.len() {
        i
    } else if src[i as int] == '/' && i + 1 < src.len() && src[i + 1int] == '*' {
        block_comment_end(src, i + 2, depth + 1)
    } else if src[i as int] == '*' && i + 1 < src.len() && src[i + 1int] == '/' {
        if depth <= 1 {
            i + 2
        } else {
            block_comment_end(src, i + 2, (depth - 1) as nat)
        }
    } else {
        block_comment_end(src, i + 1, depth)
    }
}

/// A one-character token at the current position.
pub open spec fn single(s: LexState, kind: SpecTokenKind) -> Lexed {
    Lexed::Done(s, Ok(token(kind, s.position(), s.position())))
}

/// After a `/`: a line comment, a block comment, or a division sign.
pub open spec fn lex_slash(s: LexState) -> Lexed {
    let start = s.position();
    match s.peek() {
        Some('/') => {
            let (s2, w, st, en) = eat(s, Some('/'), CharClass::NotNewline);
            Lexed::Done(s2, Ok(token(SpecTokenKind::Comment(w), st, en)))
        },
        Some('*') => {
            let s2 = s.advance();
            let s3 = s2.at(block_comment_end(s.src, s2.cursor, 1));
            Lexed::Done(
                s3,
                Ok(
                    token(
                        SpecTokenKind::Comment(s.src.subrange(start as int, s3.cursor as int)),
                        start,
                        s3.position(),
                    ),
                ),
            )
        },
        _ => single(s, SpecTokenKind::Div),
    }
}

/// After a `#`: `#define`, `#include`, a `#` before `[` in the global context,
/// or an invalid character.
pub open spec fn lex_pound(s: LexState) -> Lexed {
    let (s2, w, st, en) = eat(s, Some('#'), CharClass::AsciiAlpha);
    let p = s2.position();
    if w == "#define"@ {
        Lexed::Done(s2, Ok(token(SpecTokenKind::Define, st, en)))
    } else if w == "#include"@ {
        Lexed::Done(s2, Ok(token(SpecTokenKind::Include, st, en)))
    } else if s2.context == Context::Global {
        match s2.peek() {
            None => Lexed::Panics,
            Some(c) => if c == '[' {
                Lexed::Done(s2, Ok(token(SpecTokenKind::Pound, p, p)))
            } else {
                Lexed::Done(s2, Err(lex_error(SpecErrorKind::InvalidCharacter('#'), p, p)))
            },
        }
    } else {
        Lexed::Done(s2, Err(lex_error(SpecErrorKind::InvalidCharacter('#'), p, p)))
    }
}

/// The number of occurrences of `c` in `s`.
pub open spec fn count_char(s: Seq<char>, c: char) -> nat
    decreases s.len(),
{
    if s.len() == 0 {
        0
    } else {
        count_char(s.drop_last(), c) + if s.last() == c {
            1nat
        } else {
            0nat
        }
    }
}

/// After a `0` followed by `x`: a hex literal. In a code table or a constant it
/// is raw bytes (at most 32 in a constant); elsewhere a 32-byte literal.
pub open spec fn lex_hex(s: LexState, ch: char) -> Lexed {
    let (s2, w, st, en) = eat(s, Some(ch), CharClass::HexOrX);
    if count_char(w, 'x') != 1 {
        Lexed::Done(s2, Err(lex_error(SpecErrorKind::InvalidHexLiteral(w), st, en)))
    } else if s2.context == Context::CodeTableBody || s2.context == Context::Constant {
        if s2.context == Context::Constant && w.len() > 66 {
            Lexed::Done(s2, Err(lex_error(SpecErrorKind::HexLiteralTooLong(w), st, en)))
        } else {
            Lexed::Done(
                s2,
                Ok(token(SpecTokenKind::Bytes(even_padded(lower_hex(w.skip(2)))), st + 2, en)),
            )
        }
    } else if w.len() > 66 {
        Lexed::Done(s2, Err(lex_error(SpecErrorKind::HexLiteralTooLong(w), st, en)))
    } else {
        Lexed::Done(s2, Ok(token(SpecTokenKind::Literal(bytes32_of_hex(w.skip(2))), st + 2, en)))
    }
}

/// A decimal number; the lexer panics when it does not fit in `usize`.
pub open spec fn lex_digits(s: LexState, ch: char) -> Lexed {
    let (s2, w, st, en) = eat(s, Some(ch), CharClass::Digit);
    match parse_usize(w) {
        Some(n) => Lexed::Done(s2, Ok(token(SpecTokenKind::Num(n), st, en))),
        None => Lexed::Panics,
    }
}

/// A run of white space.
pub open spec fn lex_whitespace(s: LexState) -> Lexed {
    let (s2, w, st, en) = eat(s, None, CharClass::Space);
    Lexed::Done(s2, Ok(token(SpecTokenKind::Whitespace, st, en)))
}

/// A string literal: the characters up to the next quote, then the closing
/// quote (if there is one) is skipped.
pub open spec fn lex_string(s: LexState) -> Lexed {
    let (s2, w, st, en) = eat(s, None, CharClass::NotQuote);
    Lexed::Done(s2.advance(), Ok(token(SpecTokenKind::Str(w), st, en + 1)))
}

/// After `(`: `(` opens ABI arguments after `function`/`event`/`error`, and in
/// a macro body opens the arguments of a builtin function or of a macro call.
pub open spec fn lex_open_paren(s: LexState) -> Lexed {
    match s.context {
        Context::Abi => single(s.in_context(Context::AbiArgs), SpecTokenKind::OpenParen),
        Context::MacroBody => match s.lookback {
            None => Lexed::Panics,
            Some(t) => match t.kind {
                SpecTokenKind::BuiltinFunction(_) => single(
                    s.in_context(Context::BuiltinFunction),
                    SpecTokenKind::OpenParen,
                ),
                _ => single(s.in_context(Context::MacroArgs), SpecTokenKind::OpenParen),
            },
        },
        _ => single(s, SpecTokenKind::OpenParen),
    }
}

/// After `)`: closes ABI arguments, macro arguments or builtin arguments.
pub open spec fn lex_close_paren(s: LexState) -> Lexed {
    match s.context {
        Context::AbiArgs => single(s.in_context(Context::Abi), SpecTokenKind::CloseParen),
        Context::MacroArgs => single(s.in_context(Context::MacroBody), SpecTokenKind::CloseParen),
        Context::BuiltinFunction => single(
            s.in_context(Context::MacroBody),
            SpecTokenKind::CloseParen,
        ),
        _ => single(s, SpecTokenKind::CloseParen),
    }
}

/// After `{`: opens the body of a macro definition.
pub open spec fn lex_open_brace(s: LexState) -> Lexed {
    if s.context == Context::MacroDefinition {
        single(s.in_context(Context::MacroBody), SpecTokenKind::OpenBrace)
    } else {
        single(s, SpecTokenKind::OpenBrace)
    }
}

/// After `}`: closes a macro body or a code table.
pub open spec fn lex_close_brace(s: LexState) -> Lexed {
    if s.context == Context::MacroBody || s.context == Context::CodeTableBody {
        single(s.in_context(Context::Global), SpecTokenKind::CloseBrace)
    } else {
        single(s, SpecTokenKind::CloseBrace)
    }
}

/// The keyword rules: whether a keyword found in the source stands as a
/// keyword or is an identifier, and the state after checking (a `returns`
/// skips the white space after it).
///
/// - `macro`, `fn`, `test`, `function`, `constant`, `error`, `event`,
///   `jumptable`, `jumptable__packed` and `table` must follow `#define`;
/// - `nonpayable`, `payable`, `view` and `pure` must follow one of these or `)`;
/// - `takes` must follow `=`;
/// - `returns` must be followed by `(` (the end of the source counts as `)`)
///   and must not follow `function`.
pub open spec fn keyword_rules(s: LexState, found: Option<SpecTokenKind>) -> (LexState, bool) {
    match found {
        Some(SpecTokenKind::Macro) | Some(SpecTokenKind::Fn) | Some(SpecTokenKind::Test) | Some(
            SpecTokenKind::Function,
        ) | Some(SpecTokenKind::Constant) | Some(SpecTokenKind::Error) | Some(SpecTokenKind::Event)
        | Some(SpecTokenKind::JumpTable) | Some(SpecTokenKind::JumpTablePacked) | Some(
            SpecTokenKind::CodeTable,
        ) => (s, s.lookback_is(SpecTokenKind::Define)),
        Some(SpecTokenKind::NonPayable) | Some(SpecTokenKind::Payable) | Some(SpecTokenKind::View)
        | Some(SpecTokenKind::Pure) => (
            s,
            s.lookback_is(SpecTokenKind::NonPayable) || s.lookback_is(SpecTokenKind::Payable)
                || s.lookback_is(SpecTokenKind::View) || s.lookback_is(SpecTokenKind::Pure)
                || s.lookback_is(SpecTokenKind::CloseParen),
        ),
        Some(SpecTokenKind::Takes) => (s, s.lookback_is(SpecTokenKind::Assign)),
        Some(SpecTokenKind::Returns) => {
            let s2 = eat(s, None, CharClass::Space).0;
            let next = match s2.peek() {
                Some(c) => c,
                None => ')',
            };
            (s2, next == '(' && !s2.lookback_is(SpecTokenKind::Function))
        },
        _ => (s, true),
    }
}

/// The context that a definition keyword opens.
pub open spec fn context_after(ctx: Context, found: Option<SpecTokenKind>) -> Context {
    match found {
        Some(SpecTokenKind::Macro) | Some(SpecTokenKind::Fn) | Some(SpecTokenKind::Test) => Context::MacroDefinition,
        Some(SpecTokenKind::Function) | Some(SpecTokenKind::Event) | Some(SpecTokenKind::Error) => Context::Abi,
        Some(SpecTokenKind::Constant) => Context::Constant,
        Some(SpecTokenKind::CodeTable) => Context::CodeTableBody,
        _ => ctx,
    }
}

/// Keyword lookup (outside a macro body) and the keyword rules; a keyword that
/// stands sets the context.
pub open spec fn word_keyword(s: LexState, word: Seq<char>) -> (LexState, Option<SpecTokenKind>) {
    let found0 = if s.context != Context::MacroBody {
        keyword_kind(word)
    } else {
        None
    };
    let (s2, ok) = keyword_rules(s, found0);
    let found = if ok {
        found0
    } else {
        None
    };
    (s2.in_context(context_after(s2.context, found)), found)
}

/// `FREE_STORAGE_POINTER`, with a following `(` and `)` skipped; the span is
/// extended by two in any case.
pub open spec fn word_free_storage_pointer(
    s: LexState,
    word: Seq<char>,
    end: nat,
    found: Option<SpecTokenKind>,
) -> (LexState, nat, Option<SpecTokenKind>) {
    if word == "FREE_STORAGE_POINTER"@ {
        let s2 = if s.peek() == Some('(') {
            s.advance()
        } else {
            s
        };
        let s3 = if s2.peek() == Some(')') {
            s2.advance()
        } else {
            s2
        };
        (s3, end + 2, Some(SpecTokenKind::FreeStoragePointer))
    } else {
        (s, end, found)
    }
}

/// A word followed by `:` is a label; `true` and `false` are the literals 1 and 0.
pub open spec fn word_label_bool(s: LexState, word: Seq<char>, found: Option<SpecTokenKind>) -> (
    LexState,
    Option<SpecTokenKind>,
) {
    let found1 = if s.peek() == Some(':') {
        Some(SpecTokenKind::Label(word))
    } else {
        found
    };
    if word == "true"@ {
        (eat(s, None, CharClass::Alnum).0, Some(SpecTokenKind::Literal(bytes32_of_hex("1"@))))
    } else if word == "false"@ {
        (eat(s, None, CharClass::Alnum).0, Some(SpecTokenKind::Literal(bytes32_of_hex("0"@))))
    } else {
        (s, found1)
    }
}

/// In a macro body a word that is nothing else may be an opcode.
pub open spec fn word_opcode(ctx: Context, word: Seq<char>, found: Option<SpecTokenKind>) -> Option<
    SpecTokenKind,
> {
    if ctx == Context::MacroBody && found is None {
        match opcode_of(word) {
            Some(o) => Some(SpecTokenKind::Opcode(o)),
            None => None,
        }
    } else {
        found
    }
}

/// `s` without the character `c`.
pub open spec fn without_char(s: Seq<char>, c: char) -> Seq<char>
    decreases s.len(),
{
    if s.len() == 0 {
        s
    } else if s.last() == c {
        without_char(s.drop_last(), c)
    } else {
        without_char(s.drop_last(), c).push(s.last())
    }
}

/// The size of one array dimension: empty is 0, else a decimal number.
pub open spec fn dimension(p: Seq<char>) -> Option<usize> {
    if p.len() == 0 {
        Some(0)
    } else {
        parse_usize(p)
    }
}

/// The parts of an array type `T[a][b]...`: `T`, `a`, `b`, ... with `]` removed.
pub open spec fn array_parts(raw: Seq<char>) -> Seq<Seq<char>> {
    let parts = split_at_char(raw, '[');
    Seq::new(parts.len(), |i: int| without_char(parts[i], ']'))
}

/// All dimensions of an array type are readable.
pub open spec fn dimensions_readable(parts: Seq<Seq<char>>) -> bool {
    forall|i: int| 1 <= i < parts.len() ==> #[trigger] dimension(parts[i]) is Some
}

/// The dimensions of an array type.
pub open spec fn dimensions(parts: Seq<Seq<char>>) -> Seq<usize> {
    Seq::new((parts.len() - 1) as nat, |i: int| dimension(parts[i + 1])->0)
}

/// What the ABI argument reading gives.
pub enum AbiRead {
    Panics,
    Read(LexState, nat, Option<SpecTokenKind>),
}

/// The kind of a word that is a primitive type, if it is one; `None` where
/// reading the type panics.
pub open spec fn primitive_kind(word: Seq<char>, found: Option<SpecTokenKind>) -> Option<
    Option<SpecTokenKind>,
> {
    match primitive_read(word) {
        None => None,
        Some(Some(p)) => Some(Some(SpecTokenKind::PrimitiveType(p))),
        Some(None) => Some(found),
    }
}

/// An array type such as `uint256[2][]`: the parts before and between the
/// brackets give the element type and the dimensions. `None` where reading
/// panics (an unreadable dimension or element type); the kind found so far
/// stays when the element is not a primitive type.
pub open spec fn array_type_of(raw: Seq<char>, found: Option<SpecTokenKind>) -> Option<
    Option<SpecTokenKind>,
> {
    let parts = array_parts(raw);
    if !dimensions_readable(parts) {
        None
    } else {
        match primitive_read(parts[0]) {
            None => None,
            Some(Some(p)) => Some(Some(SpecTokenKind::ArrayType(p, dimensions(parts)))),
            Some(None) => Some(found),
        }
    }
}

/// The type of an ABI argument that runs on past the word (as in `uint256[2]`),
/// given whether the text `raw` matches the array-type pattern (`None` when
/// the pattern does not compile): a data location, an array type or a
/// primitive type; the outer `None` where reading panics.
pub open spec fn abi_type_given_match(
    raw: Seq<char>,
    word: Seq<char>,
    found: Option<SpecTokenKind>,
    matched: Option<bool>,
) -> Option<Option<SpecTokenKind>> {
    if raw == "calldata"@ {
        Some(Some(SpecTokenKind::Calldata))
    } else if raw == "memory"@ {
        Some(Some(SpecTokenKind::Memory))
    } else if raw == "storage"@ {
        Some(Some(SpecTokenKind::Storage))
    } else {
        match matched {
            None => None,
            Some(true) => array_type_of(raw, found),
            Some(false) => primitive_kind(word, found),
        }
    }
}

/// The type of an ABI argument that runs on past the word, with the match
/// against the array-type pattern made by the `regex` crate.
pub open spec fn abi_raw_type(raw: Seq<char>, word: Seq<char>, found: Option<SpecTokenKind>) -> Option<
    Option<SpecTokenKind>,
> {
    abi_type_given_match(raw, word, found, regex_match_result(EVM_TYPE_ARRAY_PATTERN@, raw))
}

/// In the ABI arguments context, a word is read as a type. When the word is
/// not followed by a parenthesis, the characters of a type (alphanumeric, `[`,
/// `]`) that follow it are read too; the lexer panics when the word's first
/// character is not ASCII, or the source ends after the word.
pub open spec fn word_abi(
    s: LexState,
    ch: char,
    word: Seq<char>,
    end: nat,
    found: Option<SpecTokenKind>,
) -> AbiRead {
    if s.context != Context::AbiArgs {
        AbiRead::Read(s, end, found)
    } else {
        match s.peek() {
            None => AbiRead::Panics,
            Some(cur) => if cur != '(' && cur != ')' {
                let (s2, partial, _st, abi_end) = eat(s, Some(ch), CharClass::AbiType);
                if (ch as u32) >= 0x80 {
                    AbiRead::Panics
                } else {
                    match abi_raw_type(word + partial.drop_first(), word, found) {
                        None => AbiRead::Panics,
                        Some(f) => AbiRead::Read(s2, abi_end, f),
                    }
                }
            } else {
                match primitive_kind(word, found) {
                    None => AbiRead::Panics,
                    Some(f) => AbiRead::Read(s, end, f),
                }
            },
        }
    }
}

/// The kind of a word that is nothing more specific: a builtin function in
/// the contexts where those are called, else an identifier.
pub open spec fn word_final_kind(ctx: Context, word: Seq<char>, found: Option<SpecTokenKind>) -> SpecTokenKind {
    match found {
        Some(k) => k,
        None => if (ctx == Context::MacroBody || ctx == Context::BuiltinFunction || ctx
            == Context::CodeTableBody || ctx == Context::Constant) && is_builtin_name(word) {
            SpecTokenKind::BuiltinFunction(word)
        } else {
            SpecTokenKind::Ident(word)
        },
    }
}

/// A word that starts with a letter or `_`.
pub open spec fn lex_word(s: LexState, ch: char) -> Lexed {
    let (s1, word, start, end) = eat(s, Some(ch), CharClass::WordChar);
    let (s2, found2) = word_keyword(s1, word);
    let (s3, end3, found3) = word_free_storage_pointer(s2, word, end, found2);
    let (s4, found4) = word_label_bool(s3, word, found3);
    let found5 = word_opcode(s4.context, word, found4);
    match word_abi(s4, ch, word, end3, found5) {
        AbiRead::Panics => Lexed::Panics,
        AbiRead::Read(s6, end6, found6) => Lexed::Done(
            s6,
            Ok(token(word_final_kind(s6.context, word, found6), start, end6)),
        ),
    }
}

/// What the character `ch` that was just read begins.
pub open spec fn lex_after(s: LexState, ch: char) -> Lexed {
    if ch == '/' {
        lex_slash(s)
    } else if ch == '#' {
        lex_pound(s)
    } else if alphabetic(ch) || ch == '_' {
        lex_word(s, ch)
    } else if ch == '0' && s.peek() is None {
        Lexed::Panics
    } else if ch == '0' && s.peek() == Some('x') {
        lex_hex(s, ch)
    } else if ch == '=' {
        single(s, SpecTokenKind::Assign)
    } else if ch == '(' {
        lex_open_paren(s)
    } else if ch == ')' {
        lex_close_paren(s)
    } else if ch == '[' {
        single(s, SpecTokenKind::OpenBracket)
    } else if ch == ']' {
        single(s, SpecTokenKind::CloseBracket)
    } else if ch == '{' {
        lex_open_brace(s)
    } else if ch == '}' {
        lex_close_brace(s)
    } else if ch == '+' {
        single(s, SpecTokenKind::Add)
    } else if ch == '-' {
        single(s, SpecTokenKind::Sub)
    } else if ch == '*' {
        single(s, SpecTokenKind::Mul)
    } else if ch == '<' {
        single(s, SpecTokenKind::LeftAngle)
    } else if ch == '>' {
        single(s, SpecTokenKind::RightAngle)
    } else if ch == ':' {
        single(s, SpecTokenKind::Colon)
    } else if ch == ',' {
        single(s, SpecTokenKind::Comma)
    } else if is_ascii_digit(ch) {
        lex_digits(s, ch)
    } else if is_ascii_ws(ch) {
        lex_whitespace(s)
    } else if is_quote(ch) {
        lex_string(s)
    } else {
        Lexed::Done(
            s,
            Err(lex_error(SpecErrorKind::InvalidCharacter(ch), s.position(), s.position())),
        )
    }
}

/// One step of lexing: read the next character and what it begins; a token
/// that is not white space becomes the lookback. At the end of the source the
/// step gives `Eof` and sets `eof`.
pub open spec fn lex_step(s: LexState) -> Lexed {
    match s.peek() {
        Some(ch) => match lex_after(s.advance(), ch) {
            Lexed::Panics => Lexed::Panics,
            Lexed::Done(s2, Ok(t)) => if t.kind == SpecTokenKind::Whitespace {
                Lexed::Done(s2, Ok(t))
            } else {
                Lexed::Done(LexState { lookback: Some(t), ..s2 }, Ok(t))
            },
            Lexed::Done(s2, Err(e)) => Lexed::Done(s2, Err(e)),
        },
        None => Lexed::Done(
            LexState { eof: true, ..s },
            Ok(token(SpecTokenKind::Eof, s.position(), s.position())),
        ),
    }
}

/// What `scan` gives: the run starts at `i`, lies within the source, holds
/// only characters of class `k`, and stops before one that is not.
pub proof fn lemma_scan(src: Seq<char>, i: nat, k: CharClass)
    requires
        i <= src.len(),
    ensures
        i <= scan(src, i, k) <= src.len(),
        forall|m: int| i <= m < scan(src, i, k) ==> in_class(k, #[trigger] src[m]),
        scan(src, i, k) < src.len() ==> !in_class(k, src[scan(src, i, k) as int]),
    decreases src.len() - i,
{
    if i < src.len() && in_class(k, src[i as int]) {
        lemma_scan(src, i + 1, k);
    }
}

proof fn lemma_count_one(s: Seq<char>, c: char, i: int)
    requires
        0 <= i < s.len(),
        s[i] == c,
    ensures
        count_char(s, c) >= 1,
    decreases s.len(),
{
    if i < s.len() - 1 {
        lemma_count_one(s.drop_last(), c, i);
    }
}

/// Two occurrences of `c` count at least twice.
pub proof fn lemma_count_two(s: Seq<char>, c: char, i: int, j: int)
    requires
        0 <= i < j < s.len(),
        s[i] == c,
        s[j] == c,
    ensures
        count_char(s, c) >= 2,
    decreases s.len(),
{
    if j == s.len() - 1 {
        lemma_count_one(s.drop_last(), c, i);
    } else {
        lemma_count_two(s.drop_last(), c, i, j);
    }
}

} // verus!
