use huff_neo_lexer::lexer::Lexer;
use huff_neo_lexer::token::{
    Context, LexicalError, LexicalErrorKind, PrimitiveEVMType, Span, Token, TokenKind,
    TokenResult,
};

fn lex_all(source: &str) -> Vec<TokenResult> {
    let mut lexer = Lexer::new(source);
    let mut out = Vec::new();
    while let Some(r) = lexer.next() {
        out.push(r);
    }
    out
}

fn tok(kind: TokenKind, start: usize, end: usize) -> TokenResult {
    Ok(Token { kind, span: Span { start, end } })
}

fn err(kind: LexicalErrorKind, start: usize, end: usize) -> TokenResult {
    Err(LexicalError { kind, span: Span { start, end } })
}

fn word32(last: u8) -> [u8; 32] {
    let mut b = [0u8; 32];
    b[31] = last;
    b
}

fn ident(s: &str) -> TokenKind {
    TokenKind::Ident(s.to_string())
}

#[test]
fn empty_source_gives_eof_then_ends() {
    let mut lexer = Lexer::new("");
    assert_eq!(lexer.next(), Some(tok(TokenKind::Eof, 0, 0)));
    assert!(lexer.eof);
    assert_eq!(lexer.next(), None);
}

#[test]
fn lexes_line_comment() {
    let toks = lex_all("// comment");
    assert_eq!(
        toks,
        vec![tok(TokenKind::Comment("// comment".to_string()), 0, 9), tok(TokenKind::Eof, 9, 9)]
    );
}

#[test]
fn line_comment_stops_at_newline() {
    let toks = lex_all("//a\nb");
    assert_eq!(toks[0], tok(TokenKind::Comment("//a".to_string()), 0, 2));
    assert_eq!(toks[1], tok(TokenKind::Whitespace, 3, 3));
    assert_eq!(toks[2], tok(ident("b"), 4, 4));
}

#[test]
fn block_comment_closes_at_first_matching_end() {
    let toks = lex_all("/* */ */");
    assert_eq!(
        toks,
        vec![
            tok(TokenKind::Comment("/* */".to_string()), 0, 4),
            tok(TokenKind::Whitespace, 5, 5),
            tok(TokenKind::Mul, 6, 6),
            tok(TokenKind::Div, 7, 7),
            tok(TokenKind::Eof, 7, 7),
        ]
    );
}

#[test]
fn nested_block_comments_are_one_comment() {
    let toks = lex_all("/* a /* b */ c */x");
    assert_eq!(toks[0], tok(TokenKind::Comment("/* a /* b */ c */".to_string()), 0, 16));
    assert_eq!(toks[1], tok(ident("x"), 17, 17));
}

#[test]
fn unclosed_block_comment_runs_to_the_end() {
    let toks = lex_all("/* open");
    assert_eq!(
        toks,
        vec![tok(TokenKind::Comment("/* open".to_string()), 0, 6), tok(TokenKind::Eof, 6, 6)]
    );
}

#[test]
fn lexes_macro_definition() {
    let src = "#define macro MAIN() = takes(0) returns(0) {}";
    let toks = lex_all(src);
    let expected = vec![
        tok(TokenKind::Define, 0, 6),
        tok(TokenKind::Whitespace, 7, 7),
        tok(TokenKind::Macro, 8, 12),
        tok(TokenKind::Whitespace, 13, 13),
        tok(ident("MAIN"), 14, 17),
        tok(TokenKind::OpenParen, 18, 18),
        tok(TokenKind::CloseParen, 19, 19),
        tok(TokenKind::Whitespace, 20, 20),
        tok(TokenKind::Assign, 21, 21),
        tok(TokenKind::Whitespace, 22, 22),
        tok(TokenKind::Takes, 23, 27),
        tok(TokenKind::OpenParen, 28, 28),
        tok(TokenKind::Num(0), 29, 29),
        tok(TokenKind::CloseParen, 30, 30),
        tok(TokenKind::Whitespace, 31, 31),
        tok(TokenKind::Returns, 32, 38),
        tok(TokenKind::OpenParen, 39, 39),
        tok(TokenKind::Num(0), 40, 40),
        tok(TokenKind::CloseParen, 41, 41),
        tok(TokenKind::Whitespace, 42, 42),
        tok(TokenKind::OpenBrace, 43, 43),
        tok(TokenKind::CloseBrace, 44, 44),
        tok(TokenKind::Eof, 44, 44),
    ];
    assert_eq!(toks, expected);
}

#[test]
fn context_follows_macro_definition() {
    let mut lexer = Lexer::new("#define macro M() = takes(0) returns(0) { }");
    let mut seen = Vec::new();
    while let Some(r) = lexer.next() {
        let kind = r.unwrap().kind;
        if kind == TokenKind::OpenBrace {
            seen.push(lexer.context);
        }
        if kind == TokenKind::CloseBrace {
            seen.push(lexer.context);
        }
        if kind == TokenKind::Macro {
            seen.push(lexer.context);
        }
    }
    assert_eq!(seen, vec![Context::MacroDefinition, Context::MacroBody, Context::Global]);
}

#[test]
fn keyword_without_define_is_an_identifier() {
    let toks = lex_all("macro");
    assert_eq!(toks[0], tok(ident("macro"), 0, 4));
}

#[test]
fn takes_needs_an_assignment_before_it() {
    let toks = lex_all("takes");
    assert_eq!(toks[0], tok(ident("takes"), 0, 4));
    let toks = lex_all("=takes");
    assert_eq!(toks[1], tok(TokenKind::Takes, 1, 5));
}

#[test]
fn returns_needs_an_open_paren_after_it() {
    let toks = lex_all("returns x");
    // the white space after `returns` is read by the keyword check
    assert_eq!(toks[0], tok(ident("returns"), 0, 6));
    assert_eq!(toks[1], tok(ident("x"), 8, 8));
    let toks = lex_all("returns   (");
    assert_eq!(toks[0], tok(TokenKind::Returns, 0, 6));
    assert_eq!(toks[1], tok(TokenKind::OpenParen, 10, 10));
}

#[test]
fn opcodes_and_labels_in_macro_body() {
    let src = "#define macro M() = takes(0) returns(0) { loop: add jump }";
    let kinds: Vec<TokenKind> = lex_all(src)
        .into_iter()
        .map(|r| r.unwrap().kind)
        .filter(|k| *k != TokenKind::Whitespace)
        .collect();
    let body: Vec<TokenKind> = kinds[kinds.iter().position(|k| *k == TokenKind::OpenBrace).unwrap() + 1..].to_vec();
    assert_eq!(
        body,
        vec![
            TokenKind::Label("loop".to_string()),
            TokenKind::Colon,
            TokenKind::Opcode(0x01),
            TokenKind::Opcode(0x56),
            TokenKind::CloseBrace,
            TokenKind::Eof,
        ]
    );
}

#[test]
fn opcode_names_outside_macro_body_are_identifiers() {
    let toks = lex_all("add");
    assert_eq!(toks[0], tok(ident("add"), 0, 2));
}

#[test]
fn builtin_function_in_macro_body() {
    let src = "#define macro M() = takes(0) returns(0) { __FUNC_SIG(x) }";
    let kinds: Vec<TokenKind> = lex_all(src)
        .into_iter()
        .map(|r| r.unwrap().kind)
        .filter(|k| *k != TokenKind::Whitespace)
        .collect();
    assert!(kinds.contains(&TokenKind::BuiltinFunction("__FUNC_SIG".to_string())));
    assert!(kinds.contains(&ident("x")));
}

#[test]
fn free_storage_pointer_takes_its_parens() {
    let src = "#define constant X = FREE_STORAGE_POINTER()";
    let toks = lex_all(src);
    assert_eq!(toks[toks.len() - 2], tok(TokenKind::FreeStoragePointer, 21, 42));
    assert_eq!(toks[toks.len() - 1], tok(TokenKind::Eof, 42, 42));
}

#[test]
fn true_and_false_are_literals() {
    let toks = lex_all("true false");
    assert_eq!(toks[0], tok(TokenKind::Literal(word32(1)), 0, 3));
    assert_eq!(toks[2], tok(TokenKind::Literal(word32(0)), 5, 9));
}

#[test]
fn hex_literal_is_32_bytes_big_endian() {
    let toks = lex_all("0x01");
    assert_eq!(toks[0], tok(TokenKind::Literal(word32(1)), 2, 3));
    let toks = lex_all("0xABC");
    let mut b = [0u8; 32];
    b[30] = 0x0a;
    b[31] = 0xbc;
    assert_eq!(toks[0], tok(TokenKind::Literal(b), 2, 4));
}

#[test]
fn hex_in_constant_is_bytes() {
    let src = "#define constant C = 0xABC";
    let toks = lex_all(src);
    assert_eq!(toks[toks.len() - 2], tok(TokenKind::Bytes("0abc".to_string()), 23, 25));
}

#[test]
fn hex_literal_longer_than_32_bytes_is_refused() {
    let long = format!("0x{}", "1".repeat(65));
    let toks = lex_all(&long);
    assert_eq!(toks[0], err(LexicalErrorKind::HexLiteralTooLong(long.clone()), 0, 66));
    let exact = format!("0x{}", "f".repeat(64));
    let toks = lex_all(&exact);
    assert_eq!(toks[0], tok(TokenKind::Literal([0xffu8; 32]), 2, 65));
}

#[test]
fn hex_literal_with_two_x_is_invalid() {
    let toks = lex_all("0x1x");
    assert_eq!(toks[0], err(LexicalErrorKind::InvalidHexLiteral("0x1x".to_string()), 0, 3));
}

#[test]
fn hex_in_code_table_may_be_long() {
    let body = "ab".repeat(40);
    let src = format!("#define table T {{ 0x{} }}", body);
    let toks: Vec<TokenKind> = lex_all(&src).into_iter().map(|r| r.unwrap().kind).collect();
    assert!(toks.contains(&TokenKind::Bytes(body)));
}

#[test]
fn decimal_numbers() {
    let toks = lex_all("0 42");
    assert_eq!(toks[0], tok(TokenKind::Num(0), 0, 0));
    assert_eq!(toks[2], tok(TokenKind::Num(42), 2, 3));
}

#[test]
fn string_literals_with_either_quote() {
    let toks = lex_all("\"hello\" 'a b'");
    assert_eq!(toks[0], tok(TokenKind::Str("hello".to_string()), 0, 6));
    assert_eq!(toks[2], tok(TokenKind::Str("a b".to_string()), 8, 12));
}

#[test]
fn invalid_character_is_an_error() {
    let toks = lex_all("@");
    assert_eq!(toks[0], err(LexicalErrorKind::InvalidCharacter('@'), 0, 0));
}

#[test]
fn pound_before_bracket_and_invalid_pound() {
    let toks = lex_all("#[x]");
    assert_eq!(toks[0], tok(TokenKind::Pound, 0, 0));
    let toks = lex_all("#foo bar");
    assert_eq!(toks[0], err(LexicalErrorKind::InvalidCharacter('#'), 3, 3));
    let toks = lex_all("#include");
    assert_eq!(toks[0], tok(TokenKind::Include, 0, 7));
}

#[test]
fn abi_arguments_are_types() {
    let src = "#define function transfer(address,uint256) nonpayable returns (bool)";
    let kinds: Vec<TokenKind> = lex_all(src)
        .into_iter()
        .map(|r| r.unwrap().kind)
        .filter(|k| *k != TokenKind::Whitespace)
        .collect();
    assert_eq!(
        kinds,
        vec![
            TokenKind::Define,
            TokenKind::Function,
            ident("transfer"),
            TokenKind::OpenParen,
            TokenKind::PrimitiveType(PrimitiveEVMType::Address),
            TokenKind::Comma,
            TokenKind::PrimitiveType(PrimitiveEVMType::Uint(256)),
            TokenKind::CloseParen,
            TokenKind::NonPayable,
            TokenKind::Returns,
            TokenKind::OpenParen,
            TokenKind::PrimitiveType(PrimitiveEVMType::Bool),
            TokenKind::CloseParen,
            TokenKind::Eof,
        ]
    );
}

#[test]
fn abi_array_types_and_locations() {
    let src = "#define function f(uint256[] memory arr, bytes32[2][] calldata b) view returns ()";
    let toks = lex_all(src);
    let kinds: Vec<TokenKind> = toks
        .iter()
        .map(|r| r.clone().unwrap().kind)
        .filter(|k| *k != TokenKind::Whitespace)
        .collect();
    assert_eq!(
        kinds[4..13].to_vec(),
        vec![
            TokenKind::ArrayType(PrimitiveEVMType::Uint(256), vec![0]),
            TokenKind::Memory,
            ident("arr"),
            TokenKind::Comma,
            TokenKind::ArrayType(PrimitiveEVMType::Bytes(32), vec![2, 0]),
            TokenKind::Calldata,
            ident("b"),
            TokenKind::CloseParen,
            TokenKind::View,
        ]
    );
    // `uint256[]` starts at 19 and its span runs to the closing bracket at 27
    assert_eq!(toks[6], tok(TokenKind::ArrayType(PrimitiveEVMType::Uint(256), vec![0]), 19, 27));
}

#[test]
fn abi_sized_integer_types() {
    let src = "#define event E(uint8 indexed, int, bytes)";
    let kinds: Vec<TokenKind> = lex_all(src)
        .into_iter()
        .map(|r| r.unwrap().kind)
        .filter(|k| *k != TokenKind::Whitespace)
        .collect();
    assert_eq!(
        kinds[4..10].to_vec(),
        vec![
            TokenKind::PrimitiveType(PrimitiveEVMType::Uint(8)),
            TokenKind::Indexed,
            TokenKind::Comma,
            TokenKind::PrimitiveType(PrimitiveEVMType::Int(256)),
            TokenKind::Comma,
            TokenKind::PrimitiveType(PrimitiveEVMType::DynBytes),
        ]
    );
}

#[test]
fn lookback_skips_whitespace() {
    let mut lexer = Lexer::new("= \n");
    lexer.next();
    lexer.next();
    assert!(lexer.checked_lookback(TokenKind::Assign));
    assert!(!lexer.checked_lookback(TokenKind::Whitespace));
}

#[test]
fn consume_and_peek() {
    let mut lexer = Lexer::new("ab");
    assert_eq!(lexer.peek(), Some('a'));
    assert_eq!(lexer.consume(), Some('a'));
    assert_eq!(lexer.peek(), Some('b'));
    assert_eq!(lexer.consume(), Some('b'));
    assert_eq!(lexer.peek(), None);
    assert_eq!(lexer.consume(), None);
}

#[test]
fn check_keyword_rules_for_view() {
    let mut lexer = Lexer::new(") view");
    lexer.next();
    assert!(lexer.check_keyword_rules(&Some(TokenKind::View)));
    assert!(!lexer.check_keyword_rules(&Some(TokenKind::Takes)));
    assert!(lexer.check_keyword_rules(&None));
}

#[test]
fn panics_are_reported_before_the_step() {
    let mut lexer = Lexer::new("0");
    assert!(lexer.next_token_panics());
    let mut lexer = Lexer::new("#define macro M() = takes(0) returns(0) { (");
    assert!(!lexer.next_token_panics());
    let mut lexer = Lexer::new("99999999999999999999999999");
    assert!(lexer.next_token_panics());
    let mut lexer = Lexer::new("x");
    assert!(!lexer.next_token_panics());
}

#[test]
fn abi_string_and_dynamic_bytes() {
    let src = "#define event E(string,bytes4)";
    let kinds: Vec<TokenKind> = lex_all(src)
        .into_iter()
        .map(|r| r.unwrap().kind)
        .filter(|k| *k != TokenKind::Whitespace)
        .collect();
    assert_eq!(
        kinds[4..7].to_vec(),
        vec![
            TokenKind::PrimitiveType(PrimitiveEVMType::String),
            TokenKind::Comma,
            TokenKind::PrimitiveType(PrimitiveEVMType::Bytes(4)),
        ]
    );
}
