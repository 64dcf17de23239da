//! The lexer.
use vstd::prelude::*;
use crate::chars::{CharClass, class_holds, in_class, is_alphabetic, ascii_digit, ascii_ws};
use crate::model::{
    LexState, Lexed, AbiRead, scan, init_seq, eat, block_comment_end, single, span, token,
    lex_error, lex_slash, lex_pound, count_char, lex_hex, lex_digits, lex_whitespace, lex_string,
    lex_open_paren, lex_close_paren, lex_open_brace, lex_close_brace, lex_after, lex_step,
    lemma_scan, lemma_count_two, keyword_rules, context_after, word_keyword,
    word_free_storage_pointer, word_label_bool, word_opcode, word_abi, abi_raw_type, primitive_kind,
    array_type_of, abi_type_given_match,
    without_char, dimension, array_parts, dimensions_readable, dimensions, word_final_kind,
    lex_word, EVM_TYPE_ARRAY_PATTERN,
};
use crate::text::{chars_of, chars_equal_str, chars_from, string_from_chars};
use crate::token::{
    Context, LexicalError, LexicalErrorKind, Span, SpecErrorKind, SpecLexError, SpecToken,
    SpecTokenKind, Token, TokenKind, TokenResult, result_view,
};
use crate::values::{all_hex, parse_decimal, hex_to_bytes32, even_lower_hex, lookup_primitive, primitive_read, bytes32_of_hex};
use crate::words::{opt_kind_view, lookup_keyword, lookup_opcode, builtin_name, keyword_kind, opcode_of, is_builtin_name};
use crate::patterns::{regex_is_match, split_at_open_brackets, split_at_char, split_has_a_part, strings_view};

verus! {

/// ## Lexer
///
/// The lexer encapsulated in a struct.
pub struct Lexer {
    /// The source code as characters.
    /// WARN: SHOULD NEVER BE MODIFIED!
    pub chars: Vec<char>,
    /// The index of the next character to read; the last character read is
    /// at `cursor - 1` (the position, 0 before any is read).
    pub cursor: usize,
    /// The previous lexed Token.
    /// NOTE: Cannot be a whitespace.
    pub lookback: Option<Token>,
    /// Bool indicating if we have reached EOF
    pub eof: bool,
    /// Current context.
    pub context: Context,
}

/// The mathematical value of an optional token.
pub open spec fn opt_token_view(t: Option<Token>) -> Option<SpecToken> {
    match t {
        Some(t) => Some(t@),
        None => None,
    }
}

/// `res` is what the outcome `o` of a lexing step says: nothing when the
/// step panics, else the token or error, with the lexer in state `after`.
pub open spec fn realizes(o: Lexed, after: LexState, res: Option<TokenResult>) -> bool {
    match o {
        Lexed::Panics => res is None,
        Lexed::Done(s, r) => match res {
            Some(x) => after == s && result_view(x) == r,
            None => false,
        },
    }
}

impl vstd::view::View for Lexer {
    type V = LexState;

    open spec fn view(&self) -> LexState {
        LexState {
            src: self.chars@,
            cursor: self.cursor as nat,
            lookback: opt_token_view(self.lookback),
            eof: self.eof,
            context: self.context,
        }
    }
}

impl Lexer {
    /// The lexer's own bookkeeping holds: the cursor is within the source, and
    /// positions a few past the end still fit in `usize`.
    pub open spec fn wf(&self) -> bool {
        &&& self.cursor <= self.chars.len()
        &&& self.chars.len() + 3 <= usize::MAX
    }

    /// A lexer at the start of `source`, in the global context.
    pub fn new(source: &str) -> (res: Lexer)
        requires
            source@.len() + 3 <= usize::MAX,
        ensures
            res.wf(),
            res@ == (LexState {
                src: source@,
                cursor: 0,
                lookback: None,
                eof: false,
                context: Context::Global,
            }),
    {
        Lexer {
            chars: chars_of(source),
            cursor: 0,
            lookback: None,
            eof: false,
            context: Context::Global,
        }
    }

    fn pos(&self) -> (res: usize)
        requires
            self.wf(),
        ensures
            res == self@.position(),
    {
        if self.cursor == 0 {
            0
        } else {
            self.cursor - 1
        }
    }

    fn peek_char(&self) -> (res: Option<char>)
        requires
            self.wf(),
        ensures
            res == self@.peek(),
    {
        if self.cursor < self.chars.len() {
            Some(self.chars[self.cursor])
        } else {
            None
        }
    }

    /// Consumes the next character
    pub fn consume(&mut self) -> (res: Option<char>)
        requires
            old(self).wf(),
        ensures
            final(self).wf(),
            final(self).chars@ == old(self).chars@,
            res == old(self)@.peek(),
            final(self)@ == old(self)@.advance(),
    {
        if self.cursor < self.chars.len() {
            let c = self.chars[self.cursor];
            self.cursor = self.cursor + 1;
            Some(c)
        } else {
            None
        }
    }

    /// Try to peek at the next character from the source
    pub fn peek(&mut self) -> (res: Option<char>)
        requires
            old(self).wf(),
        ensures
            final(self).wf(),
            final(self).chars@ == old(self).chars@,
            res == old(self)@.peek(),
            final(self)@ == old(self)@,
    {
        self.peek_char()
    }

    /// Keeps consuming characters as long as they are of class `k`.
    fn eat_while(&mut self, init: Option<char>, k: CharClass) -> (res: (Vec<char>, usize, usize))
        requires
            old(self).wf(),
        ensures
            final(self).wf(),
            final(self).chars@ == old(self).chars@,
            final(self)@ == eat(old(self)@, init, k).0,
            res.0@ == eat(old(self)@, init, k).1,
            res.1 == eat(old(self)@, init, k).2,
            res.2 == eat(old(self)@, init, k).3,
    {
        let ghost s0 = self@;
        let start = self.pos();
        let mut word: Vec<char> = Vec::new();
        match init {
            Some(c) => word.push(c),
            None => {},
        }
        let ghost c0 = self.cursor as nat;
        while self.cursor < self.chars.len() && class_holds(k, self.chars[self.cursor])
            invariant
                self.wf(),
                c0 <= self.cursor,
                self@ == s0.at(self.cursor as nat),
                scan(s0.src, self.cursor as nat, k) == scan(s0.src, c0, k),
                word@ == init_seq(init) + s0.src.subrange(c0 as int, self.cursor as int),
            decreases self.chars.len() - self.cursor,
        {
            let c = self.chars[self.cursor];
            word.push(c);
            self.cursor = self.cursor + 1;
            assert(word@ =~= init_seq(init) + s0.src.subrange(c0 as int, self.cursor as int));
        }
        let end = self.pos();
        (word, start, end)
    }

    fn single_char_token(&self, kind: TokenKind) -> (res: Token)
        requires
            self.wf(),
        ensures
            res@ == token(kind@, self@.position(), self@.position()),
    {
        let p = self.pos();
        kind.into_token_with_span(Span { start: p, end: p })
    }

    fn single(&self, kind: TokenKind) -> (res: Option<TokenResult>)
        requires
            self.wf(),
        ensures
            realizes(single(self@, kind@), self@, res),
    {
        Some(Ok(self.single_char_token(kind)))
    }

    fn lex_slash(&mut self) -> (res: Option<TokenResult>)
        requires
            old(self).wf(),
            old(self)@.cursor > 0,
            old(self)@.src[old(self)@.cursor - 1] == '/',
        ensures
            final(self).wf(),
            final(self).chars@ == old(self).chars@,
            realizes(lex_slash(old(self)@), final(self)@, res),
    {
        let ghost s = self@;
        let start = self.pos();
        match self.peek_char() {
            Some('/') => {
                let (w, st, en) = self.eat_while(Some('/'), CharClass::NotNewline);
                let k = TokenKind::Comment(string_from_chars(&w));
                Some(Ok(k.into_token_with_span(Span { start: st, end: en })))
            },
            Some('*') => {
                self.consume();
                let mut depth: usize = 1;
                let ghost c2 = self.cursor as nat;
                let mut text: Vec<char> = Vec::new();
                text.push('/');
                text.push('*');
                assert(text@ =~= s.src.subrange(start as int, self.cursor as int));
                loop
                    invariant_except_break
                        self.wf(),
                        1 <= depth,
                        depth <= self.cursor,
                        self@ == s.at(self.cursor as nat),
                        start < self.cursor,
                        block_comment_end(s.src, self.cursor as nat, depth as nat) == block_comment_end(s.src, c2, 1),
                        text@ == s.src.subrange(start as int, self.cursor as int),
                    ensures
                        self.wf(),
                        self@ == s.at(block_comment_end(s.src, c2, 1)),
                        start < self.cursor,
                        text@ == s.src.subrange(start as int, self.cursor as int),
                    decreases self.chars.len() - self.cursor,
                {
                    match self.consume() {
                        None => break,
                        Some(c) => {
                            text.push(c);
                            let nxt = self.peek_char();
                            if c == '/' && nxt == Some('*') {
                                self.consume();
                                text.push('*');
                                depth = depth + 1;
                            } else if c == '*' && nxt == Some('/') {
                                self.consume();
                                text.push('/');
                                if depth == 1 {
                                    assert(text@ =~= s.src.subrange(start as int, self.cursor as int));
                                    break;
                                }
                                depth = depth - 1;
                            }
                            assert(text@ =~= s.src.subrange(start as int, self.cursor as int));
                        },
                    }
                }
                let end = self.pos();
                let k = TokenKind::Comment(string_from_chars(&text));
                Some(Ok(k.into_token_with_span(Span { start, end })))
            },
            _ => self.single(TokenKind::Div),
        }
    }
    fn lex_pound(&mut self) -> (res: Option<TokenResult>)
        requires
            old(self).wf(),
        ensures
            final(self).wf(),
            final(self).chars@ == old(self).chars@,
            realizes(lex_pound(old(self)@), final(self)@, res),
    {
        let (w, st, en) = self.eat_while(Some('#'), CharClass::AsciiAlpha);
        let p = self.pos();
        if chars_equal_str(&w, "#define") {
            Some(Ok(TokenKind::Define.into_token_with_span(Span { start: st, end: en })))
        } else if chars_equal_str(&w, "#include") {
            Some(Ok(TokenKind::Include.into_token_with_span(Span { start: st, end: en })))
        } else if self.context == Context::Global {
            match self.peek_char() {
                None => None,
                Some(c) => if c == '[' {
                    Some(Ok(TokenKind::Pound.into_token_with_span(Span { start: p, end: p })))
                } else {
                    Some(
                        Err(
                            LexicalError::new(
                                LexicalErrorKind::InvalidCharacter('#'),
                                Span { start: p, end: p },
                            ),
                        ),
                    )
                },
            }
        } else {
            Some(
                Err(
                    LexicalError::new(
                        LexicalErrorKind::InvalidCharacter('#'),
                        Span { start: p, end: p },
                    ),
                ),
            )
        }
    }

    fn count_x(w: &Vec<char>) -> (res: usize)
        ensures
            res == count_char(w@, 'x'),
    {
        let mut n: usize = 0;
        let mut i: usize = 0;
        while i < w.len()
            invariant
                i <= w@.len(),
                n == count_char(w@.subrange(0, i as int), 'x'),
                n <= i,
            decreases w@.len() - i,
        {
            assert(w@.subrange(0, i + 1).drop_last() =~= w@.subrange(0, i as int));
            if w[i] == 'x' {
                n = n + 1;
            }
            i = i + 1;
        }
        assert(w@.subrange(0, w@.len() as int) =~= w@);
        n
    }

    fn lex_hex(&mut self, ch: char) -> (res: Option<TokenResult>)
        requires
            old(self).wf(),
            old(self)@.peek() == Some('x'),
            ch == '0',
        ensures
            final(self).wf(),
            final(self).chars@ == old(self).chars@,
            realizes(lex_hex(old(self)@, ch), final(self)@, res),
    {
        let ghost s = self@;
        proof {
            lemma_scan(s.src, s.cursor, CharClass::HexOrX);
        }
        let (w, st, en) = self.eat_while(Some(ch), CharClass::HexOrX);
        let cnt = Self::count_x(&w);
        if cnt != 1 {
            return Some(
                Err(
                    LexicalError::new(
                        LexicalErrorKind::InvalidHexLiteral(string_from_chars(&w)),
                        Span { start: st, end: en },
                    ),
                ),
            );
        }
        assert(w@[1] == 'x');
        let digits = chars_from(&w, 2);
        assert(all_hex(digits@)) by {
            assert forall|m: int| 0 <= m < digits@.len() implies crate::chars::is_ascii_hex(
                #[trigger] digits@[m],
            ) by {
                assert(digits@[m] == w@[m + 2]);
                assert(w@[m + 2] == s.src[s.cursor + m + 1]);
                assert(in_class(CharClass::HexOrX, s.src[s.cursor + m + 1]));
                if digits@[m] == 'x' {
                    lemma_count_two(w@, 'x', 1, m + 2);
                }
            }
        }
        if self.context == Context::CodeTableBody || self.context == Context::Constant {
            if self.context == Context::Constant && w.len() > 66 {
                return Some(
                    Err(
                        LexicalError::new(
                            LexicalErrorKind::HexLiteralTooLong(string_from_chars(&w)),
                            Span { start: st, end: en },
                        ),
                    ),
                );
            }
            let hex = string_from_chars(&even_lower_hex(&digits));
            Some(Ok(TokenKind::Bytes(hex).into_token_with_span(Span { start: st + 2, end: en })))
        } else {
            if w.len() > 66 {
                return Some(
                    Err(
                        LexicalError::new(
                            LexicalErrorKind::HexLiteralTooLong(string_from_chars(&w)),
                            Span { start: st, end: en },
                        ),
                    ),
                );
            }
            let bytes = hex_to_bytes32(&digits);
            Some(Ok(TokenKind::Literal(bytes).into_token_with_span(Span { start: st + 2, end: en })))
        }
    }

    fn lex_digits(&mut self, ch: char) -> (res: Option<TokenResult>)
        requires
            old(self).wf(),
        ensures
            final(self).wf(),
            final(self).chars@ == old(self).chars@,
            realizes(lex_digits(old(self)@, ch), final(self)@, res),
    {
        let (w, st, en) = self.eat_while(Some(ch), CharClass::Digit);
        match parse_decimal(&w) {
            Some(n) => Some(Ok(Token { kind: TokenKind::Num(n), span: Span { start: st, end: en } })),
            None => None,
        }
    }

    fn lex_whitespace(&mut self) -> (res: Option<TokenResult>)
        requires
            old(self).wf(),
        ensures
            final(self).wf(),
            final(self).chars@ == old(self).chars@,
            realizes(lex_whitespace(old(self)@), final(self)@, res),
    {
        let (_w, st, en) = self.eat_whitespace();
        Some(Ok(TokenKind::Whitespace.into_token_with_span(Span { start: st, end: en })))
    }

    /// Skips white space. They are not significant in the source language
    fn eat_whitespace(&mut self) -> (res: (Vec<char>, usize, usize))
        requires
            old(self).wf(),
        ensures
            final(self).wf(),
            final(self).chars@ == old(self).chars@,
            final(self)@ == eat(old(self)@, None, CharClass::Space).0,
            res.0@ == eat(old(self)@, None, CharClass::Space).1,
            res.1 == eat(old(self)@, None, CharClass::Space).2,
            res.2 == eat(old(self)@, None, CharClass::Space).3,
    {
        self.eat_while(None, CharClass::Space)
    }

    fn lex_string(&mut self) -> (res: Option<TokenResult>)
        requires
            old(self).wf(),
        ensures
            final(self).wf(),
            final(self).chars@ == old(self).chars@,
            realizes(lex_string(old(self)@), final(self)@, res),
    {
        let ghost s = self@;
        proof {
            lemma_scan(s.src, s.cursor, CharClass::NotQuote);
        }
        let (w, st, en) = self.eat_while(None, CharClass::NotQuote);
        let k = TokenKind::Str(string_from_chars(&w));
        self.consume();
        Some(Ok(k.into_token_with_span(Span { start: st, end: en + 1 })))
    }

    fn lex_open_paren(&mut self) -> (res: Option<TokenResult>)
        requires
            old(self).wf(),
        ensures
            final(self).wf(),
            final(self).chars@ == old(self).chars@,
            realizes(lex_open_paren(old(self)@), final(self)@, res),
    {
        match self.context {
            Context::Abi => {
                self.context = Context::AbiArgs;
            },
            Context::MacroBody => match &self.lookback {
                None => {
                    return None;
                },
                Some(t) => match t.kind {
                    TokenKind::BuiltinFunction(_) => {
                        self.context = Context::BuiltinFunction;
                    },
                    _ => {
                        self.context = Context::MacroArgs;
                    },
                },
            },
            _ => {},
        }
        self.single(TokenKind::OpenParen)
    }

    fn lex_close_paren(&mut self) -> (res: Option<TokenResult>)
        requires
            old(self).wf(),
        ensures
            final(self).wf(),
            final(self).chars@ == old(self).chars@,
            realizes(lex_close_paren(old(self)@), final(self)@, res),
    {
        match self.context {
            Context::AbiArgs => {
                self.context = Context::Abi;
            },
            Context::MacroArgs => {
                self.context = Context::MacroBody;
            },
            Context::BuiltinFunction => {
                self.context = Context::MacroBody;
            },
            _ => {},
        }
        self.single(TokenKind::CloseParen)
    }

    fn lex_open_brace(&mut self) -> (res: Option<TokenResult>)
        requires
            old(self).wf(),
        ensures
            final(self).wf(),
            final(self).chars@ == old(self).chars@,
            realizes(lex_open_brace(old(self)@), final(self)@, res),
    {
        if self.context == Context::MacroDefinition {
            self.context = Context::MacroBody;
        }
        self.single(TokenKind::OpenBrace)
    }

    fn lex_close_brace(&mut self) -> (res: Option<TokenResult>)
        requires
            old(self).wf(),
        ensures
            final(self).wf(),
            final(self).chars@ == old(self).chars@,
            realizes(lex_close_brace(old(self)@), final(self)@, res),
    {
        if self.context == Context::MacroBody || self.context == Context::CodeTableBody {
            self.context = Context::Global;
        }
        self.single(TokenKind::CloseBrace)
    }
}

impl Lexer {
    /// Checks the previous token kind against the input.
    pub fn checked_lookback(&self, kind: TokenKind) -> (res: bool)
        ensures
            res == self@.lookback_is(kind@),
    {
        match &self.lookback {
            Some(t) => t.kind.same_as(&kind),
            None => false,
        }
    }

    /// Check if a given keyword follows the keyword rules in the `source`. If not, it is a
    /// `TokenKind::Ident`.
    ///
    /// Rules:
    /// - The `macro`, `fn`, `test`, `function`, `constant`, `event`, `jumptable`,
    ///   `jumptable__packed`, and `table` keywords must be preceded by a `#define` keyword.
    /// - The `takes` keyword must be preceded by an assignment operator: `=`.
    /// - The `nonpayable`, `payable`, `view`, and `pure` keywords must be preceeded by one of these
    ///   keywords or a close paren.
    /// - The `returns` keyword must be succeeded by an open parenthesis and must *not* be succeeded
    ///   by a colon or preceded by the keyword `function`
    pub fn check_keyword_rules(&mut self, found_kind: &Option<TokenKind>) -> (res: bool)
        requires
            old(self).wf(),
        ensures
            final(self).wf(),
            final(self).chars@ == old(self).chars@,
            final(self)@ == keyword_rules(old(self)@, opt_kind_view(*found_kind)).0,
            res == keyword_rules(old(self)@, opt_kind_view(*found_kind)).1,
    {
        match found_kind {
            Some(TokenKind::Macro) | Some(TokenKind::Fn) | Some(TokenKind::Test) | Some(
                TokenKind::Function,
            ) | Some(TokenKind::Constant) | Some(TokenKind::Error) | Some(TokenKind::Event) | Some(
                TokenKind::JumpTable,
            ) | Some(TokenKind::JumpTablePacked) | Some(TokenKind::CodeTable) => self.checked_lookback(
                TokenKind::Define,
            ),
            Some(TokenKind::NonPayable) | Some(TokenKind::Payable) | Some(TokenKind::View) | Some(
                TokenKind::Pure,
            ) => {
                self.checked_lookback(TokenKind::NonPayable) || self.checked_lookback(
                    TokenKind::Payable,
                ) || self.checked_lookback(TokenKind::View) || self.checked_lookback(
                    TokenKind::Pure,
                ) || self.checked_lookback(TokenKind::CloseParen)
            },
            Some(TokenKind::Takes) => self.checked_lookback(TokenKind::Assign),
            Some(TokenKind::Returns) => {
                self.eat_whitespace();
                // Allow for loose and tight syntax (e.g. `returns   (0)`, `returns(0)`, ...)
                let next = match self.peek_char() {
                    Some(c) => c,
                    None => ')',
                };
                next == '(' && !self.checked_lookback(TokenKind::Function)
            },
            _ => true,
        }
    }

    fn word_keyword(&mut self, word: &Vec<char>) -> (res: Option<TokenKind>)
        requires
            old(self).wf(),
        ensures
            final(self).wf(),
            final(self).chars@ == old(self).chars@,
            final(self)@ == word_keyword(old(self)@, word@).0,
            opt_kind_view(res) == word_keyword(old(self)@, word@).1,
    {
        let found0 = if self.context != Context::MacroBody {
            lookup_keyword(word)
        } else {
            None
        };
        let ok = self.check_keyword_rules(&found0);
        let found = if ok {
            found0
        } else {
            None
        };
        match &found {
            Some(TokenKind::Macro) | Some(TokenKind::Fn) | Some(TokenKind::Test) => {
                self.context = Context::MacroDefinition;
            },
            Some(TokenKind::Function) | Some(TokenKind::Event) | Some(TokenKind::Error) => {
                self.context = Context::Abi;
            },
            Some(TokenKind::Constant) => {
                self.context = Context::Constant;
            },
            Some(TokenKind::CodeTable) => {
                self.context = Context::CodeTableBody;
            },
            _ => {},
        }
        found
    }

    fn word_free_storage_pointer(&mut self, word: &Vec<char>, end: usize, found: Option<TokenKind>) -> (res: (usize, Option<TokenKind>))
        requires
            old(self).wf(),
            end <= old(self)@.src.len(),
        ensures
            final(self).wf(),
            final(self).chars@ == old(self).chars@,
            final(self)@ == word_free_storage_pointer(old(self)@, word@, end as nat, opt_kind_view(found)).0,
            res.0 == word_free_storage_pointer(old(self)@, word@, end as nat, opt_kind_view(found)).1,
            opt_kind_view(res.1) == word_free_storage_pointer(old(self)@, word@, end as nat, opt_kind_view(found)).2,
    {
        if chars_equal_str(word, "FREE_STORAGE_POINTER") {
            if self.peek_char() == Some('(') {
                self.consume();
            }
            if self.peek_char() == Some(')') {
                self.consume();
            }
            (end + 2, Some(TokenKind::FreeStoragePointer))
        } else {
            (end, found)
        }
    }

    fn word_label_bool(&mut self, word: &Vec<char>, found: Option<TokenKind>) -> (res: Option<TokenKind>)
        requires
            old(self).wf(),
        ensures
            final(self).wf(),
            final(self).chars@ == old(self).chars@,
            final(self)@ == word_label_bool(old(self)@, word@, opt_kind_view(found)).0,
            opt_kind_view(res) == word_label_bool(old(self)@, word@, opt_kind_view(found)).1,
    {
        let mut found = found;
        if self.peek_char() == Some(':') {
            found = Some(TokenKind::Label(string_from_chars(word)));
        }
        // Syntax sugar: true evaluates to 0x01, false evaluates to 0x00
        let is_true = chars_equal_str(word, "true");
        if is_true || chars_equal_str(word, "false") {
            let mut digit: Vec<char> = Vec::new();
            digit.push(if is_true { '1' } else { '0' });
            proof {
                reveal_strlit("1");
                reveal_strlit("0");
                assert(digit@ == (if is_true { "1"@ } else { "0"@ }));
            }
            found = Some(TokenKind::Literal(hex_to_bytes32(&digit)));
            self.eat_while(None, CharClass::Alnum);
        }
        found
    }

    fn word_opcode(&self, word: &Vec<char>, found: Option<TokenKind>) -> (res: Option<TokenKind>)
        ensures
            opt_kind_view(res) == word_opcode(self@.context, word@, opt_kind_view(found)),
    {
        if self.context == Context::MacroBody && found.is_none() {
            match lookup_opcode(word) {
                Some(o) => Some(TokenKind::Opcode(o)),
                None => None,
            }
        } else {
            found
        }
    }

    fn primitive_kind(word: &Vec<char>, found: Option<TokenKind>) -> (res: Option<Option<TokenKind>>)
        ensures
            match primitive_kind(word@, opt_kind_view(found)) {
                None => res is None,
                Some(f) => res matches Some(r) && opt_kind_view(r) == f,
            },
    {
        match lookup_primitive(word) {
            None => None,
            Some(Some(p)) => Some(Some(TokenKind::PrimitiveType(p))),
            Some(None) => Some(found),
        }
    }

    fn strip_close_brackets(p: &Vec<char>) -> (res: Vec<char>)
        ensures
            res@ == without_char(p@, ']'),
    {
        let mut out: Vec<char> = Vec::new();
        let mut i: usize = 0;
        while i < p.len()
            invariant
                i <= p@.len(),
                out@ == without_char(p@.subrange(0, i as int), ']'),
            decreases p@.len() - i,
        {
            assert(p@.subrange(0, i + 1).drop_last() =~= p@.subrange(0, i as int));
            if p[i] != ']' {
                out.push(p[i]);
            }
            i = i + 1;
        }
        assert(p@.subrange(0, p@.len() as int) =~= p@);
        out
    }

    /// Reads the type of an ABI argument that runs on past the word `word` as
    /// the text `raw`, given whether `raw` matches the array-type pattern
    /// (`matched`; `None` when the pattern does not compile): a data location,
    /// an array type or a primitive type, else the kind `found` so far. `None`
    /// where reading panics.
    pub fn abi_type_after_match(
        raw: &Vec<char>,
        word: &Vec<char>,
        found: Option<TokenKind>,
        matched: Option<bool>,
    ) -> (res: Option<Option<TokenKind>>)
        ensures
            match abi_type_given_match(raw@, word@, opt_kind_view(found), matched) {
                None => res is None,
                Some(f) => res matches Some(r) && opt_kind_view(r) == f,
            },
    {
        if chars_equal_str(raw, "calldata") {
            return Some(Some(TokenKind::Calldata));
        }
        if chars_equal_str(raw, "memory") {
            return Some(Some(TokenKind::Memory));
        }
        if chars_equal_str(raw, "storage") {
            return Some(Some(TokenKind::Storage));
        }
        match matched {
            None => None,
            Some(false) => Self::primitive_kind(word, found),
            Some(true) => Self::read_array_type(raw, found),
        }
    }

    fn abi_raw_type(raw: &Vec<char>, word: &Vec<char>, found: Option<TokenKind>) -> (res: Option<Option<TokenKind>>)
        ensures
            match abi_raw_type(raw@, word@, opt_kind_view(found)) {
                None => res is None,
                Some(f) => res matches Some(r) && opt_kind_view(r) == f,
            },
    {
        if chars_equal_str(raw, "calldata") || chars_equal_str(raw, "memory") || chars_equal_str(
            raw,
            "storage",
        ) {
            return Self::abi_type_after_match(raw, word, found, Some(false));
        }
        let raw_text = string_from_chars(raw);
        let matched = regex_is_match(EVM_TYPE_ARRAY_PATTERN, raw_text.as_str());
        Self::abi_type_after_match(raw, word, found, matched)
    }

    /// Reads an array type such as `uint256[2][]` (the ABI argument text
    /// `raw`, which matches the array-type pattern): the element type and the
    /// size of each dimension. `None` where reading panics.
    pub fn read_array_type(raw: &Vec<char>, found: Option<TokenKind>) -> (res: Option<Option<TokenKind>>)
        ensures
            match array_type_of(raw@, opt_kind_view(found)) {
                None => res is None,
                Some(f) => res matches Some(r) && opt_kind_view(r) == f,
            },
    {
        let raw_text = string_from_chars(raw);
        // split to get array size and type
        let pieces = split_at_open_brackets(raw_text.as_str());
        let ghost split = split_at_char(raw@, '[');
        let ghost parts = array_parts(raw@);
        proof {
            split_has_a_part(raw@, '[');
            assert(strings_view(pieces@) == split);
        }
        let n = pieces.len();
        let mut words: Vec<Vec<char>> = Vec::new();
        let mut i: usize = 0;
        while i < n
            invariant
                n == pieces@.len(),
                strings_view(pieces@) == split,
                parts == array_parts(raw@),
                split == split_at_char(raw@, '['),
                i <= n,
                words@.len() == i,
                forall|j: int| 0 <= j < i ==> (#[trigger] words@[j])@ == parts[j],
            decreases n - i,
        {
            let part_chars = chars_of(pieces[i].as_str());
            assert(part_chars@ == split[i as int]);
            words.push(Self::strip_close_brackets(&part_chars));
            i = i + 1;
        }
        let mut sizes: Vec<usize> = Vec::new();
        let mut i: usize = 1;
        let ghost outcome = array_type_of(raw@, opt_kind_view(found));
        assert(!dimensions_readable(parts) ==> outcome is None);
        while i < n
            invariant
                outcome == array_type_of(raw@, opt_kind_view(found)),
                !dimensions_readable(parts) ==> outcome is None,
                n == parts.len(),
                n >= 1,
                words@.len() == n,
                forall|j: int| 0 <= j < n ==> (#[trigger] words@[j])@ == parts[j],
                1 <= i <= n,
                sizes@.len() == i - 1,
                forall|j: int| 1 <= j < i ==> #[trigger] dimension(parts[j]) is Some,
                forall|j: int| 0 <= j < i - 1 ==> sizes@[j] == dimension(parts[j + 1])->0,
            decreases n - i,
        {
            let w = &words[i];
            assert(w@ == parts[i as int]);
            if w.len() == 0 {
                sizes.push(0);
            } else {
                match parse_decimal(w) {
                    Some(v) => sizes.push(v),
                    None => {
                        assert(dimension(parts[i as int]) is None);
                        assert(!dimensions_readable(parts));
                        return None;
                    },
                }
            }
            i = i + 1;
        }
        assert(dimensions_readable(parts));
        assert(sizes@ =~= dimensions(parts));
        assert(words@[0]@ == parts[0]);
        match lookup_primitive(&words[0]) {
            None => None,
            Some(Some(p)) => Some(Some(TokenKind::ArrayType(p, sizes))),
            Some(None) => Some(found),
        }
    }

    fn word_abi(&mut self, ch: char, word: &Vec<char>, end: usize, found: Option<TokenKind>) -> (res: Option<(usize, Option<TokenKind>)>)
        requires
            old(self).wf(),
        ensures
            final(self).wf(),
            final(self).chars@ == old(self).chars@,
            match word_abi(old(self)@, ch, word@, end as nat, opt_kind_view(found)) {
                AbiRead::Panics => res is None,
                AbiRead::Read(s2, e2, f2) => res matches Some(r) && final(self)@ == s2 && r.0 == e2
                    && opt_kind_view(r.1) == f2,
            },
    {
        if self.context != Context::AbiArgs {
            return Some((end, found));
        }
        match self.peek_char() {
            None => None,
            Some(cur) => if cur != '(' && cur != ')' {
                let (partial, _st, abi_end) = self.eat_while(Some(ch), CharClass::AbiType);
                if (ch as u32) >= 0x80 {
                    return None;
                }
                let mut raw = chars_from(word, 0);
                let mut i: usize = 1;
                assert(word@.subrange(0, word@.len() as int) =~= word@);
                while i < partial.len()
                    invariant
                        1 <= i <= partial@.len(),
                        raw@ == word@ + partial@.subrange(1, i as int),
                    decreases partial@.len() - i,
                {
                    raw.push(partial[i]);
                    i = i + 1;
                    assert(raw@ =~= word@ + partial@.subrange(1, i as int));
                }
                assert(partial@.subrange(1, partial@.len() as int) =~= partial@.drop_first());
                match Self::abi_raw_type(&raw, word, found) {
                    None => None,
                    Some(f) => Some((abi_end, f)),
                }
            } else {
                match Self::primitive_kind(word, found) {
                    None => None,
                    Some(f) => Some((end, f)),
                }
            },
        }
    }

    fn word_final_kind(&self, word: &Vec<char>, found: Option<TokenKind>) -> (res: TokenKind)
        ensures
            res@ == word_final_kind(self@.context, word@, opt_kind_view(found)),
    {
        match found {
            Some(k) => k,
            None => if (self.context == Context::MacroBody || self.context
                == Context::BuiltinFunction || self.context == Context::CodeTableBody
                || self.context == Context::Constant) && builtin_name(word) {
                TokenKind::BuiltinFunction(string_from_chars(word))
            } else {
                TokenKind::Ident(string_from_chars(word))
            },
        }
    }

    fn lex_word(&mut self, ch: char) -> (res: Option<TokenResult>)
        requires
            old(self).wf(),
        ensures
            final(self).wf(),
            final(self).chars@ == old(self).chars@,
            realizes(lex_word(old(self)@, ch), final(self)@, res),
    {
        let ghost s = self@;
        proof {
            lemma_scan(s.src, s.cursor, CharClass::WordChar);
        }
        let (word, start, end) = self.eat_while(Some(ch), CharClass::WordChar);
        let found = self.word_keyword(&word);
        let (end, found) = self.word_free_storage_pointer(&word, end, found);
        let found = self.word_label_bool(&word, found);
        let found = self.word_opcode(&word, found);
        match self.word_abi(ch, &word, end, found) {
            None => None,
            Some((end, found)) => {
                let kind = self.word_final_kind(&word, found);
                Some(Ok(kind.into_token_with_span(Span { start, end })))
            },
        }
    }
}

impl Lexer {
    fn lex_after(&mut self, ch: char) -> (res: Option<TokenResult>)
        requires
            old(self).wf(),
            old(self)@.cursor > 0,
            old(self)@.src[old(self)@.cursor - 1] == ch,
        ensures
            final(self).wf(),
            final(self).chars@ == old(self).chars@,
            realizes(lex_after(old(self)@, ch), final(self)@, res),
    {
        if ch == '/' {
            self.lex_slash()
        } else if ch == '#' {
            self.lex_pound()
        } else if is_alphabetic(ch) || ch == '_' {
            self.lex_word(ch)
        } else if ch == '0' && self.peek_char().is_none() {
            None
        } else if ch == '0' && self.peek_char() == Some('x') {
            // If it's the start of a hex literal
            self.lex_hex(ch)
        } else if ch == '=' {
            self.single(TokenKind::Assign)
        } else if ch == '(' {
            self.lex_open_paren()
        } else if ch == ')' {
            self.lex_close_paren()
        } else if ch == '[' {
            self.single(TokenKind::OpenBracket)
        } else if ch == ']' {
            self.single(TokenKind::CloseBracket)
        } else if ch == '{' {
            self.lex_open_brace()
        } else if ch == '}' {
            self.lex_close_brace()
        } else if ch == '+' {
            self.single(TokenKind::Add)
        } else if ch == '-' {
            self.single(TokenKind::Sub)
        } else if ch == '*' {
            self.single(TokenKind::Mul)
        } else if ch == '<' {
            self.single(TokenKind::LeftAngle)
        } else if ch == '>' {
            self.single(TokenKind::RightAngle)
        } else if ch == ':' {
            self.single(TokenKind::Colon)
        } else if ch == ',' {
            self.single(TokenKind::Comma)
        } else if ascii_digit(ch) {
            self.lex_digits(ch)
        } else if ascii_ws(ch) {
            // Lexes Spaces and Newlines as Whitespace
            self.lex_whitespace()
        } else if ch == '"' || ch == '\'' {
            // String literals. String literals can also be wrapped by single quotes
            self.lex_string()
        } else {
            let p = self.pos();
            Some(
                Err(
                    LexicalError::new(
                        LexicalErrorKind::InvalidCharacter(ch),
                        Span { start: p, end: p },
                    ),
                ),
            )
        }
    }

    /// One step of lexing; `None` exactly where the step makes the lexer panic.
    fn step(&mut self) -> (res: Option<TokenResult>)
        requires
            old(self).wf(),
        ensures
            final(self).wf(),
            final(self).chars@ == old(self).chars@,
            realizes(lex_step(old(self)@), final(self)@, res),
    {
        match self.consume() {
            Some(ch) => match self.lex_after(ch) {
                None => None,
                Some(Ok(t)) => {
                    match t.kind {
                        TokenKind::Whitespace => {},
                        _ => {
                            self.lookback = Some(t.duplicate());
                        },
                    }
                    Some(Ok(t))
                },
                Some(Err(e)) => Some(Err(e)),
            },
            None => {
                self.eof = true;
                let p = self.pos();
                Some(Ok(Token { kind: TokenKind::Eof, span: Span { start: p, end: p } }))
            },
        }
    }

    /// Runs one step; where the step would panic, the lexer is put back as it
    /// was and `None` is returned.
    fn try_step(&mut self) -> (res: Option<TokenResult>)
        requires
            old(self).wf(),
        ensures
            final(self).wf(),
            res is None ==> lex_step(old(self)@) is Panics && final(self)@ == old(self)@,
            res is Some ==> realizes(lex_step(old(self)@), final(self)@, res),
    {
        let cursor = self.cursor;
        let context = self.context;
        let eof = self.eof;
        let lookback = match &self.lookback {
            Some(t) => Some(t.duplicate()),
            None => None,
        };
        let r = self.step();
        if r.is_none() {
            self.cursor = cursor;
            self.context = context;
            self.eof = eof;
            self.lookback = lookback;
            assert(self@ == old(self)@);
        }
        r
    }

    /// Whether lexing the next token would make this lexer panic: a `0` or a
    /// `#word` at the very end of the source (outside `#define`/`#include`, in
    /// the global context), a `(` in a macro body before any token, a decimal
    /// number beyond `usize`, an ABI argument word at the end of the source or
    /// starting with a non-ASCII letter and not followed by a parenthesis, a
    /// `bytesN` ABI type whose `N` is not a number, an unreadable array
    /// dimension, or an array-type pattern that does not compile. The lexer is
    /// left as it was.
    pub fn next_token_panics(&mut self) -> (res: bool)
        requires
            old(self).wf(),
        ensures
            final(self).wf(),
            final(self)@ == old(self)@,
            res == (lex_step(old(self)@) is Panics),
    {
        let cursor = self.cursor;
        let context = self.context;
        let eof = self.eof;
        let lookback = match &self.lookback {
            Some(t) => Some(t.duplicate()),
            None => None,
        };
        let r = self.step();
        self.cursor = cursor;
        self.context = context;
        self.eof = eof;
        self.lookback = lookback;
        assert(self@ == old(self)@);
        r.is_none()
    }

    fn next_token(&mut self) -> (res: TokenResult)
        requires
            old(self).wf(),
            !(lex_step(old(self)@) is Panics),
        ensures
            final(self).wf(),
            final(self).chars@ == old(self).chars@,
            realizes(lex_step(old(self)@), final(self)@, Some(res)),
    {
        match self.step() {
            Some(r) => r,
            None => {
                proof {
                    assert(false);
                }
                Ok(Token { kind: TokenKind::Eof, span: Span { start: 0, end: 0 } })
            },
        }
    }

    /// The next token, or `None` once the end of the source has been lexed.
    pub fn next(&mut self) -> (res: Option<TokenResult>)
        requires
            old(self).wf(),
            !old(self)@.eof ==> !(lex_step(old(self)@) is Panics),
        ensures
            final(self).wf(),
            final(self).chars@ == old(self).chars@,
            old(self)@.eof ==> res is None && final(self)@ == old(self)@,
            !old(self)@.eof ==> realizes(lex_step(old(self)@), final(self)@, res),
    {
        if self.eof {
            None
        } else {
            Some(self.next_token())
        }
    }

    /// `next`, for any state: `None` where the step would make the lexer panic
    /// (the lexer is then left as it was), else `Some` of what `next` gives.
    pub fn next_checked(&mut self) -> (res: Option<Option<TokenResult>>)
        requires
            old(self).wf(),
        ensures
            final(self).wf(),
            res is None <==> (!old(self)@.eof && lex_step(old(self)@) is Panics),
            res is None ==> final(self)@ == old(self)@,
            old(self)@.eof ==> res == Some(None::<TokenResult>) && final(self)@ == old(self)@,
            !old(self)@.eof && res is Some ==> realizes(lex_step(old(self)@), final(self)@, res->0),
    {
        if self.eof {
            return Some(None);
        }
        match self.try_step() {
            None => None,
            Some(r) => Some(Some(r)),
        }
    }
}

} // verus!
