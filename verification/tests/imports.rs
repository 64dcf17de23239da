use huff_neo_lexer::lexer::Lexer;

#[test]
fn finds_imports_with_either_quote() {
    let src = "#include \"./Utils.huff\"\n#include './Other.huff'\n#define macro M() = takes(0) returns(0) {}";
    assert_eq!(Lexer::lex_imports(src), vec!["./Utils.huff".to_string(), "./Other.huff".to_string()]);
}

#[test]
fn imports_in_line_comments_are_skipped() {
    assert!(Lexer::lex_imports("// #include \"./Utils.huff\"").is_empty());
}

#[test]
fn imports_in_block_comments_are_skipped() {
    let src = "/* #include \"x.huff\" */ #include \"y.huff\"";
    assert_eq!(Lexer::lex_imports(src), vec!["y.huff".to_string()]);
}

#[test]
fn unterminated_import_path_is_dropped() {
    assert!(Lexer::lex_imports("#include \"x.huff").is_empty());
}

#[test]
fn no_imports_in_plain_source() {
    assert!(Lexer::lex_imports("#define macro M() = takes(0) returns(0) {}").is_empty());
    assert!(Lexer::lex_imports("").is_empty());
}
