use huff_neo_lexer::lexer::Lexer;
use huff_neo_lexer::Context;
use huff_neo_lexer::token::{LexicalError, LexicalErrorKind, Span, Token, TokenKind};

fn lex_all(source: &str) -> Vec<Result<Token, LexicalError>> {
    let mut lexer = Lexer::new(source);
    let mut out = Vec::new();
    while let Some(r) = lexer.next() {
        out.push(r);
    }
    out
}

#[test]
fn lexing_ends_within_one_step_per_character() {
    let src = "#define macro M() = takes(0) returns(0) { 0x01 add // c\n }";
    let n = src.chars().count();
    let toks = lex_all(src);
    assert!(toks.len() <= n + 1);
    assert_eq!(toks.last().unwrap().as_ref().unwrap().kind, TokenKind::Eof);
}

#[test]
fn comment_text_is_the_source_it_spans() {
    let src = "x /* a /* b */ */ // tail";
    let chars: Vec<char> = src.chars().collect();
    for r in lex_all(src) {
        let t = r.unwrap();
        if let TokenKind::Comment(text) = &t.kind {
            let slice: String = chars[t.span.start..=t.span.end].iter().collect();
            assert_eq!(*text, slice);
        }
    }
}

#[test]
fn lookback_is_the_last_token_that_is_not_whitespace() {
    let mut lexer = Lexer::new("a  b");
    lexer.next();
    assert_eq!(lexer.lookback.as_ref().unwrap().kind, TokenKind::Ident("a".to_string()));
    lexer.next();
    assert_eq!(lexer.lookback.as_ref().unwrap().kind, TokenKind::Ident("a".to_string()));
    lexer.next();
    assert_eq!(lexer.lookback.as_ref().unwrap().kind, TokenKind::Ident("b".to_string()));
    lexer.next();
    assert_eq!(lexer.lookback.as_ref().unwrap().kind, TokenKind::Ident("b".to_string()));
}

#[test]
fn errors_leave_the_lookback() {
    let mut lexer = Lexer::new("a@");
    lexer.next();
    let r = lexer.next().unwrap();
    assert_eq!(r, Err(LexicalError { kind: LexicalErrorKind::InvalidCharacter('@'), span: Span { start: 1, end: 1 } }));
    assert_eq!(lexer.lookback.as_ref().unwrap().kind, TokenKind::Ident("a".to_string()));
}

#[test]
fn constant_hex_longer_than_32_bytes_is_refused() {
    let hex = "1".repeat(65);
    let src = format!("#define constant C = 0x{}", hex);
    let toks = lex_all(&src);
    assert_eq!(
        toks[toks.len() - 2],
        Err(LexicalError {
            kind: LexicalErrorKind::HexLiteralTooLong(format!("0x{}", hex)),
            span: Span { start: 21, end: 87 },
        })
    );
    let src = format!("#define constant C = 0x{}", "1".repeat(63));
    let toks = lex_all(&src);
    match &toks[toks.len() - 2].as_ref().unwrap().kind {
        TokenKind::Bytes(b) => assert_eq!(b.len(), 64),
        other => panic!("unexpected {other:?}"),
    }
}

#[test]
fn import_paths_have_no_quotes() {
    let paths = Lexer::lex_imports("#include 'a\"b' #include \"c'd\"");
    assert_eq!(paths, vec!["a".to_string(), "c".to_string()]);
    for p in paths {
        assert!(!p.contains('"') && !p.contains('\''));
    }
}

#[test]
fn unicode_letters_start_identifiers() {
    let toks = lex_all("été");
    assert_eq!(toks[0], Ok(Token { kind: TokenKind::Ident("été".to_string()), span: Span { start: 0, end: 2 } }));
}

#[test]
fn unicode_whitespace_joins_a_whitespace_run() {
    let toks = lex_all(" \u{2003}x");
    assert_eq!(toks[0], Ok(Token { kind: TokenKind::Whitespace, span: Span { start: 0, end: 1 } }));
    assert_eq!(toks[1], Ok(Token { kind: TokenKind::Ident("x".to_string()), span: Span { start: 2, end: 2 } }));
}

#[test]
fn non_ascii_abi_argument_word_panics() {
    let mut lexer = Lexer::new("#define function f(éa b)");
    for _ in 0..6 {
        assert!(!lexer.next_token_panics());
        lexer.next();
    }
    assert!(lexer.next_token_panics());
}

#[test]
fn abi_word_at_end_of_source_panics() {
    let mut lexer = Lexer::new("#define function f(a");
    for _ in 0..6 {
        lexer.next();
    }
    assert!(lexer.next_token_panics());
}

#[test]
fn pound_word_at_end_of_source_panics() {
    assert!(Lexer::new("#foo").next_token_panics());
    assert!(!Lexer::new("#define").next_token_panics());
}

#[test]
fn type_names_outside_abi_arguments_are_identifiers() {
    let toks = lex_all("uint256 calldata");
    assert_eq!(toks[0], Ok(Token { kind: TokenKind::Ident("uint256".to_string()), span: Span { start: 0, end: 6 } }));
    assert_eq!(toks[2], Ok(Token { kind: TokenKind::Ident("calldata".to_string()), span: Span { start: 8, end: 15 } }));
}

#[test]
fn bytes_type_with_unreadable_size_panics() {
    let mut lexer = Lexer::new("#define function f(bytesx)");
    for _ in 0..6 {
        assert!(!lexer.next_token_panics());
        lexer.next();
    }
    assert!(lexer.next_token_panics());
    assert_eq!(lexer.next_checked(), None);
    // the lexer is left as it was
    assert!(lexer.next_token_panics());
    let mut lexer = Lexer::new("#define function f(uintx)");
    for _ in 0..6 {
        lexer.next();
    }
    assert_eq!(
        lexer.next_checked(),
        Some(Some(Ok(Token { kind: TokenKind::Ident("uintx".to_string()), span: Span { start: 19, end: 23 } })))
    );
}

#[test]
fn next_checked_follows_next() {
    let mut a = Lexer::new("= x");
    let mut b = Lexer::new("= x");
    for _ in 0..4 {
        assert_eq!(a.next_checked(), Some(b.next()));
    }
    assert_eq!(a.next_checked(), Some(None));
    assert_eq!(Lexer::new("0").next_checked(), None);
}

#[test]
fn read_array_type_reads_dimensions() {
    let raw: Vec<char> = "uint256[2][]".chars().collect();
    assert_eq!(
        Lexer::read_array_type(&raw, None),
        Some(Some(TokenKind::ArrayType(huff_neo_lexer::token::PrimitiveEVMType::Uint(256), vec![2, 0])))
    );
    let raw: Vec<char> = "foo[3]".chars().collect();
    assert_eq!(Lexer::read_array_type(&raw, Some(TokenKind::Indexed)), Some(Some(TokenKind::Indexed)));
    let raw: Vec<char> = "bool[x]".chars().collect();
    assert_eq!(Lexer::read_array_type(&raw, None), None);
    let raw: Vec<char> = "bytesq[1]".chars().collect();
    assert_eq!(Lexer::read_array_type(&raw, None), None);
}

#[test]
fn context_moves_with_tokens() {
    let src = "#define function f(uint8) view returns () #define constant C = 0x01 #define table T { 0x00 } #define macro M() = takes(0) returns(0) { __FUNC_SIG(f) x(0) }";
    let mut lexer = Lexer::new(src);
    let mut trace = Vec::new();
    while let Some(r) = lexer.next() {
        let k = r.unwrap().kind;
        if k != TokenKind::Whitespace {
            trace.push((k, lexer.context));
        }
    }
    let (global, abi, abi_args, constant, table, def, body, builtin, args) = (
        Context::Global,
        Context::Abi,
        Context::AbiArgs,
        Context::Constant,
        Context::CodeTableBody,
        Context::MacroDefinition,
        Context::MacroBody,
        Context::BuiltinFunction,
        Context::MacroArgs,
    );
    let ctx: Vec<_> = trace.iter().map(|(_, c)| *c).collect();
    assert_eq!(
        ctx,
        vec![
            global, abi, abi, abi_args, abi_args, abi, abi, abi, abi_args, abi,
            abi, constant, constant, constant, constant,
            constant, table, table, table, table, global,
            global, def, def, def, def,
            def, def, def, def, def,
            def, def, def, def, body,
            body, builtin, builtin, body, body, args,
            args, body, global, global,
        ]
    );
}

#[test]
fn import_paths_sit_between_quotes_and_are_bounded_by_includes() {
    let src = "#include \"a.huff\" #include 'b.huff' #include x";
    let paths = Lexer::lex_imports(src);
    assert_eq!(paths, vec!["a.huff".to_string(), "b.huff".to_string()]);
    assert!(paths.len() <= src.matches("#include").count());
    for p in &paths {
        assert!(src.contains(&format!("\"{p}\"")) || src.contains(&format!("'{p}'")));
    }
}

#[test]
fn eof_comes_once_and_last() {
    let src = "#define macro M() = takes(0) returns(0) { 0x1 }";
    let mut lexer = Lexer::new(src);
    let mut items = Vec::new();
    while let Some(r) = lexer.next() {
        assert!(!lexer.eof || r.as_ref().unwrap().kind == TokenKind::Eof);
        items.push(r);
    }
    assert!(items.len() <= src.chars().count() + 1);
    let eofs = items.iter().filter(|r| r.as_ref().map(|t| t.kind == TokenKind::Eof).unwrap_or(false)).count();
    assert_eq!(eofs, 1);
    assert_eq!(items.last().unwrap().as_ref().unwrap().kind, TokenKind::Eof);
    assert_eq!(lexer.next(), None);
}

#[test]
fn hex_literal_in_code_table_is_not_limited() {
    let hex = "1".repeat(70);
    let src = format!("#define table T {{ 0x{} }}", hex);
    let toks = lex_all(&src);
    assert!(toks.contains(&Ok(Token { kind: TokenKind::Bytes(hex.clone()), span: Span { start: 20, end: 89 } })));
}

#[test]
fn abi_type_after_match_on_given_outcomes() {
    let chars = |s: &str| s.chars().collect::<Vec<char>>();
    // not an array: the word's primitive type
    assert_eq!(
        Lexer::abi_type_after_match(&chars("uint8x"), &chars("uint8"), None, Some(false)),
        Some(Some(TokenKind::PrimitiveType(huff_neo_lexer::token::PrimitiveEVMType::Uint(8))))
    );
    // not a type at all: the kind found so far stays
    assert_eq!(
        Lexer::abi_type_after_match(&chars("foo"), &chars("foo"), Some(TokenKind::Indexed), Some(false)),
        Some(Some(TokenKind::Indexed))
    );
    // data locations win whatever the match says
    assert_eq!(
        Lexer::abi_type_after_match(&chars("memory"), &chars("memory"), None, None),
        Some(Some(TokenKind::Memory))
    );
    // a pattern that does not compile, and an unreadable `bytesN`, panic
    assert_eq!(Lexer::abi_type_after_match(&chars("x[1]"), &chars("x"), None, None), None);
    assert_eq!(Lexer::abi_type_after_match(&chars("bytesz"), &chars("bytesz"), None, Some(false)), None);
    // an array
    assert_eq!(
        Lexer::abi_type_after_match(&chars("address[3]"), &chars("address"), None, Some(true)),
        Some(Some(TokenKind::ArrayType(huff_neo_lexer::token::PrimitiveEVMType::Address, vec![3])))
    );
}

#[test]
fn labels_keep_the_context() {
    let mut lexer = Lexer::new("#define macro M() = takes(0) returns(0) { start: stop }");
    let mut seen = Vec::new();
    while let Some(r) = lexer.next() {
        if let TokenKind::Label(l) = r.unwrap().kind {
            seen.push((l, lexer.context));
        }
    }
    assert_eq!(seen, vec![("start".to_string(), Context::MacroBody)]);
    // a definition keyword right before `:` is a label that still opens its context
    let mut lexer = Lexer::new("#define macro: x");
    lexer.next();
    lexer.next();
    let t = lexer.next().unwrap().unwrap();
    assert_eq!(t.kind, TokenKind::Label("macro".to_string()));
    assert_eq!(lexer.context, Context::MacroDefinition);
}
