//! Tokens, spans and lexical errors, with their mathematical views.
use vstd::prelude::*;

verus! {

/// Defines a context in which the lexing happens.
/// Allows to differentiate between EVM types and opcodes that can either
/// be identical or the latter being a substring of the former (example : bytes32 and byte)
#[derive(Clone, Copy, Debug, PartialEq, Eq, Structural)]
pub enum Context {
    /// global context
    Global,
    /// Macro definition context
    MacroDefinition,
    /// Macro's body context
    MacroBody,
    /// Macro's argument context (definition or being called)
    MacroArgs,
    /// ABI context
    Abi,
    /// Lexing args of functions inputs/outputs and events
    AbiArgs,
    /// constant context
    Constant,
    /// Code table context
    CodeTableBody,
    /// Built-in function context
    BuiltinFunction,
}

/// A range of character positions in the source: `start` and `end` are the
/// indices of the first and the last character that a token covers.
#[derive(Clone, Copy, Debug, PartialEq, Eq, Structural)]
pub struct Span {
    pub start: usize,
    pub end: usize,
}

/// The primitive types of the EVM ABI.
#[derive(Clone, Copy, Debug, PartialEq, Eq, Structural)]
pub enum PrimitiveEVMType {
    /// `uintN`; `uint` alone is `uint256`.
    Uint(usize),
    /// `string`
    String,
    /// `bytesN`
    Bytes(usize),
    /// `bool`
    Bool,
    /// `address`
    Address,
    /// `intN`; `int` alone is `int256`.
    Int(usize),
    /// `bytes`
    DynBytes,
}

/// The kinds of token the lexer produces.
#[derive(Clone, Debug, PartialEq, Eq)]
pub enum TokenKind {
    /// End of file
    Eof,
    /// A line or block comment, with its delimiters
    Comment(String),
    /// `#define`
    Define,
    /// `#include`
    Include,
    /// `#`, as in `#[...]` decorators
    Pound,
    /// `macro`
    Macro,
    /// `fn`
    Fn,
    /// `test`
    Test,
    /// `function`
    Function,
    /// `event`
    Event,
    /// `constant`
    Constant,
    /// `error`
    Error,
    /// `takes`
    Takes,
    /// `returns`
    Returns,
    /// `view`
    View,
    /// `pure`
    Pure,
    /// `payable`
    Payable,
    /// `nonpayable`
    NonPayable,
    /// `indexed`
    Indexed,
    /// `FREE_STORAGE_POINTER()`
    FreeStoragePointer,
    /// An identifier
    Ident(String),
    /// A label definition `name:`
    Label(String),
    /// A 32-byte big-endian literal
    Literal([u8; 32]),
    /// An EVM opcode, given by its instruction byte
    Opcode(u8),
    /// A decimal number
    Num(usize),
    /// A string literal, without its quotes
    Str(String),
    /// Raw hex bytes in a code table or a constant, lower case and of even length
    Bytes(String),
    /// `=`
    Assign,
    /// `(`
    OpenParen,
    /// `)`
    CloseParen,
    /// `[`
    OpenBracket,
    /// `]`
    CloseBracket,
    /// `{`
    OpenBrace,
    /// `}`
    CloseBrace,
    /// `<`
    LeftAngle,
    /// `>`
    RightAngle,
    /// `+`
    Add,
    /// `-`
    Sub,
    /// `*`
    Mul,
    /// `/`
    Div,
    /// `,`
    Comma,
    /// `:`
    Colon,
    /// White space
    Whitespace,
    /// A primitive ABI type
    PrimitiveType(PrimitiveEVMType),
    /// An array ABI type with the size of each dimension (0 for `[]`)
    ArrayType(PrimitiveEVMType, Vec<usize>),
    /// `calldata`
    Calldata,
    /// `memory`
    Memory,
    /// `storage`
    Storage,
    /// `jumptable`
    JumpTable,
    /// `jumptable__packed`
    JumpTablePacked,
    /// `table`
    CodeTable,
    /// A builtin function such as `__FUNC_SIG`
    BuiltinFunction(String),
}

/// The mathematical value of a [`TokenKind`]: strings as character sequences.
pub enum SpecTokenKind {
    Eof,
    Comment(Seq<char>),
    Define,
    Include,
    Pound,
    Macro,
    Fn,
    Test,
    Function,
    Event,
    Constant,
    Error,
    Takes,
    Returns,
    View,
    Pure,
    Payable,
    NonPayable,
    Indexed,
    FreeStoragePointer,
    Ident(Seq<char>),
    Label(Seq<char>),
    Literal(Seq<u8>),
    Opcode(u8),
    Num(usize),
    Str(Seq<char>),
    Bytes(Seq<char>),
    Assign,
    OpenParen,
    CloseParen,
    OpenBracket,
    CloseBracket,
    OpenBrace,
    CloseBrace,
    LeftAngle,
    RightAngle,
    Add,
    Sub,
    Mul,
    Div,
    Comma,
    Colon,
    Whitespace,
    PrimitiveType(PrimitiveEVMType),
    ArrayType(PrimitiveEVMType, Seq<usize>),
    Calldata,
    Memory,
    Storage,
    JumpTable,
    JumpTablePacked,
    CodeTable,
    BuiltinFunction(Seq<char>),
}

impl vstd::view::View for TokenKind {
    type V = SpecTokenKind;

    open spec fn view(&self) -> SpecTokenKind {
        match self {
            TokenKind::Eof => SpecTokenKind::Eof,
            TokenKind::Comment(s) => SpecTokenKind::Comment(s@),
            TokenKind::Define => SpecTokenKind::Define,
            TokenKind::Include => SpecTokenKind::Include,
            TokenKind::Pound => SpecTokenKind::Pound,
            TokenKind::Macro => SpecTokenKind::Macro,
            TokenKind::Fn => SpecTokenKind::Fn,
            TokenKind::Test => SpecTokenKind::Test,
            TokenKind::Function => SpecTokenKind::Function,
            TokenKind::Event => SpecTokenKind::Event,
            TokenKind::Constant => SpecTokenKind::Constant,
            TokenKind::Error => SpecTokenKind::Error,
            TokenKind::Takes => SpecTokenKind::Takes,
            TokenKind::Returns => SpecTokenKind::Returns,
            TokenKind::View => SpecTokenKind::View,
            TokenKind::Pure => SpecTokenKind::Pure,
            TokenKind::Payable => SpecTokenKind::Payable,
            TokenKind::NonPayable => SpecTokenKind::NonPayable,
            TokenKind::Indexed => SpecTokenKind::Indexed,
            TokenKind::FreeStoragePointer => SpecTokenKind::FreeStoragePointer,
            TokenKind::Ident(s) => SpecTokenKind::Ident(s@),
            TokenKind::Label(s) => SpecTokenKind::Label(s@),
            TokenKind::Literal(b) => SpecTokenKind::Literal(b@),
            TokenKind::Opcode(o) => SpecTokenKind::Opcode(*o),
            TokenKind::Num(n) => SpecTokenKind::Num(*n),
            TokenKind::Str(s) => SpecTokenKind::Str(s@),
            TokenKind::Bytes(s) => SpecTokenKind::Bytes(s@),
            TokenKind::Assign => SpecTokenKind::Assign,
            TokenKind::OpenParen => SpecTokenKind::OpenParen,
            TokenKind::CloseParen => SpecTokenKind::CloseParen,
            TokenKind::OpenBracket => SpecTokenKind::OpenBracket,
            TokenKind::CloseBracket => SpecTokenKind::CloseBracket,
            TokenKind::OpenBrace => SpecTokenKind::OpenBrace,
            TokenKind::CloseBrace => SpecTokenKind::CloseBrace,
            TokenKind::LeftAngle => SpecTokenKind::LeftAngle,
            TokenKind::RightAngle => SpecTokenKind::RightAngle,
            TokenKind::Add => SpecTokenKind::Add,
            TokenKind::Sub => SpecTokenKind::Sub,
            TokenKind::Mul => SpecTokenKind::Mul,
            TokenKind::Div => SpecTokenKind::Div,
            TokenKind::Comma => SpecTokenKind::Comma,
            TokenKind::Colon => SpecTokenKind::Colon,
            TokenKind::Whitespace => SpecTokenKind::Whitespace,
            TokenKind::PrimitiveType(p) => SpecTokenKind::PrimitiveType(*p),
            TokenKind::ArrayType(p, v) => SpecTokenKind::ArrayType(*p, v@),
            TokenKind::Calldata => SpecTokenKind::Calldata,
            TokenKind::Memory => SpecTokenKind::Memory,
            TokenKind::Storage => SpecTokenKind::Storage,
            TokenKind::JumpTable => SpecTokenKind::JumpTable,
            TokenKind::JumpTablePacked => SpecTokenKind::JumpTablePacked,
            TokenKind::CodeTable => SpecTokenKind::CodeTable,
            TokenKind::BuiltinFunction(s) => SpecTokenKind::BuiltinFunction(s@),
        }
    }
}

fn usize_seqs_equal(a: &Vec<usize>, b: &Vec<usize>) -> (res: bool)
    ensures
        res == (a@ == b@),
{
    if a.len() != b.len() {
        return false;
    }
    let mut i: usize = 0;
    while i < a.len()
        invariant
            a@.len() == b@.len(),
            i <= a@.len(),
            forall|j: int| 0 <= j < i ==> a@[j] == b@[j],
        decreases a@.len() - i,
    {
        if a[i] != b[i] {
            return false;
        }
        i = i + 1;
    }
    assert(a@ =~= b@);
    true
}

fn bytes32_equal(a: &[u8; 32], b: &[u8; 32]) -> (res: bool)
    ensures
        res == (a@ == b@),
{
    let mut i: usize = 0;
    while i < 32
        invariant
            a@.len() == 32,
            b@.len() == 32,
            i <= 32,
            forall|j: int| 0 <= j < i ==> a@[j] == b@[j],
        decreases 32 - i,
    {
        if a[i] != b[i] {
            return false;
        }
        i = i + 1;
    }
    assert(a@ =~= b@);
    true
}

fn copy_usizes(a: &Vec<usize>) -> (res: Vec<usize>)
    ensures
        res@ == a@,
{
    let mut out: Vec<usize> = Vec::new();
    let mut i: usize = 0;
    while i < a.len()
        invariant
            i <= a@.len(),
            out@ == a@.subrange(0, i as int),
        decreases a@.len() - i,
    {
        out.push(a[i]);
        i = i + 1;
        assert(out@ =~= a@.subrange(0, i as int));
    }
    assert(a@.subrange(0, a@.len() as int) =~= a@);
    out
}

impl TokenKind {
    /// Whether two kinds are the same kind with the same payload.
    pub fn same_as(&self, other: &TokenKind) -> (res: bool)
        ensures
            res == (self@ == other@),
    {
        match (self, other) {
            (TokenKind::Eof, TokenKind::Eof) => true,
            (TokenKind::Comment(a), TokenKind::Comment(b)) => *a == *b,
            (TokenKind::Define, TokenKind::Define) => true,
            (TokenKind::Include, TokenKind::Include) => true,
            (TokenKind::Pound, TokenKind::Pound) => true,
            (TokenKind::Macro, TokenKind::Macro) => true,
            (TokenKind::Fn, TokenKind::Fn) => true,
            (TokenKind::Test, TokenKind::Test) => true,
            (TokenKind::Function, TokenKind::Function) => true,
            (TokenKind::Event, TokenKind::Event) => true,
            (TokenKind::Constant, TokenKind::Constant) => true,
            (TokenKind::Error, TokenKind::Error) => true,
            (TokenKind::Takes, TokenKind::Takes) => true,
            (TokenKind::Returns, TokenKind::Returns) => true,
            (TokenKind::View, TokenKind::View) => true,
            (TokenKind::Pure, TokenKind::Pure) => true,
            (TokenKind::Payable, TokenKind::Payable) => true,
            (TokenKind::NonPayable, TokenKind::NonPayable) => true,
            (TokenKind::Indexed, TokenKind::Indexed) => true,
            (TokenKind::FreeStoragePointer, TokenKind::FreeStoragePointer) => true,
            (TokenKind::Ident(a), TokenKind::Ident(b)) => *a == *b,
            (TokenKind::Label(a), TokenKind::Label(b)) => *a == *b,
            (TokenKind::Literal(a), TokenKind::Literal(b)) => bytes32_equal(a, b),
            (TokenKind::Opcode(a), TokenKind::Opcode(b)) => *a == *b,
            (TokenKind::Num(a), TokenKind::Num(b)) => *a == *b,
            (TokenKind::Str(a), TokenKind::Str(b)) => *a == *b,
            (TokenKind::Bytes(a), TokenKind::Bytes(b)) => *a == *b,
            (TokenKind::Assign, TokenKind::Assign) => true,
            (TokenKind::OpenParen, TokenKind::OpenParen) => true,
            (TokenKind::CloseParen, TokenKind::CloseParen) => true,
            (TokenKind::OpenBracket, TokenKind::OpenBracket) => true,
            (TokenKind::CloseBracket, TokenKind::CloseBracket) => true,
            (TokenKind::OpenBrace, TokenKind::OpenBrace) => true,
            (TokenKind::CloseBrace, TokenKind::CloseBrace) => true,
            (TokenKind::LeftAngle, TokenKind::LeftAngle) => true,
            (TokenKind::RightAngle, TokenKind::RightAngle) => true,
            (TokenKind::Add, TokenKind::Add) => true,
            (TokenKind::Sub, TokenKind::Sub) => true,
            (TokenKind::Mul, TokenKind::Mul) => true,
            (TokenKind::Div, TokenKind::Div) => true,
            (TokenKind::Comma, TokenKind::Comma) => true,
            (TokenKind::Colon, TokenKind::Colon) => true,
            (TokenKind::Whitespace, TokenKind::Whitespace) => true,
            (TokenKind::PrimitiveType(a), TokenKind::PrimitiveType(b)) => *a == *b,
            (TokenKind::ArrayType(a, x), TokenKind::ArrayType(b, y)) => *a == *b
                && usize_seqs_equal(x, y),
            (TokenKind::Calldata, TokenKind::Calldata) => true,
            (TokenKind::Memory, TokenKind::Memory) => true,
            (TokenKind::Storage, TokenKind::Storage) => true,
            (TokenKind::JumpTable, TokenKind::JumpTable) => true,
            (TokenKind::JumpTablePacked, TokenKind::JumpTablePacked) => true,
            (TokenKind::CodeTable, TokenKind::CodeTable) => true,
            (TokenKind::BuiltinFunction(a), TokenKind::BuiltinFunction(b)) => *a == *b,
            _ => false,
        }
    }

    /// A copy of this kind.
    pub fn duplicate(&self) -> (res: TokenKind)
        ensures
            res@ == self@,
    {
        match self {
            TokenKind::Comment(s) => TokenKind::Comment(s.clone()),
            TokenKind::Ident(s) => TokenKind::Ident(s.clone()),
            TokenKind::Label(s) => TokenKind::Label(s.clone()),
            TokenKind::Literal(b) => TokenKind::Literal(*b),
            TokenKind::Opcode(o) => TokenKind::Opcode(*o),
            TokenKind::Num(n) => TokenKind::Num(*n),
            TokenKind::Str(s) => TokenKind::Str(s.clone()),
            TokenKind::Bytes(s) => TokenKind::Bytes(s.clone()),
            TokenKind::PrimitiveType(p) => TokenKind::PrimitiveType(*p),
            TokenKind::ArrayType(p, v) => TokenKind::ArrayType(*p, copy_usizes(v)),
            TokenKind::BuiltinFunction(s) => TokenKind::BuiltinFunction(s.clone()),
            TokenKind::Eof => TokenKind::Eof,
            TokenKind::Define => TokenKind::Define,
            TokenKind::Include => TokenKind::Include,
            TokenKind::Pound => TokenKind::Pound,
            TokenKind::Macro => TokenKind::Macro,
            TokenKind::Fn => TokenKind::Fn,
            TokenKind::Test => TokenKind::Test,
            TokenKind::Function => TokenKind::Function,
            TokenKind::Event => TokenKind::Event,
            TokenKind::Constant => TokenKind::Constant,
            TokenKind::Error => TokenKind::Error,
            TokenKind::Takes => TokenKind::Takes,
            TokenKind::Returns => TokenKind::Returns,
            TokenKind::View => TokenKind::View,
            TokenKind::Pure => TokenKind::Pure,
            TokenKind::Payable => TokenKind::Payable,
            TokenKind::NonPayable => TokenKind::NonPayable,
            TokenKind::Indexed => TokenKind::Indexed,
            TokenKind::FreeStoragePointer => TokenKind::FreeStoragePointer,
            TokenKind::Assign => TokenKind::Assign,
            TokenKind::OpenParen => TokenKind::OpenParen,
            TokenKind::CloseParen => TokenKind::CloseParen,
            TokenKind::OpenBracket => TokenKind::OpenBracket,
            TokenKind::CloseBracket => TokenKind::CloseBracket,
            TokenKind::OpenBrace => TokenKind::OpenBrace,
            TokenKind::CloseBrace => TokenKind::CloseBrace,
            TokenKind::LeftAngle => TokenKind::LeftAngle,
            TokenKind::RightAngle => TokenKind::RightAngle,
            TokenKind::Add => TokenKind::Add,
            TokenKind::Sub => TokenKind::Sub,
            TokenKind::Mul => TokenKind::Mul,
            TokenKind::Div => TokenKind::Div,
            TokenKind::Comma => TokenKind::Comma,
            TokenKind::Colon => TokenKind::Colon,
            TokenKind::Whitespace => TokenKind::Whitespace,
            TokenKind::Calldata => TokenKind::Calldata,
            TokenKind::Memory => TokenKind::Memory,
            TokenKind::Storage => TokenKind::Storage,
            TokenKind::JumpTable => TokenKind::JumpTable,
            TokenKind::JumpTablePacked => TokenKind::JumpTablePacked,
            TokenKind::CodeTable => TokenKind::CodeTable,
        }
    }

    /// Pairs this kind with a span.
    pub fn into_token_with_span(self, span: Span) -> (res: Token)
        ensures
            res@ == (SpecToken { kind: self@, span }),
    {
        Token { kind: self, span }
    }
}

/// A token: its kind and the span of source it covers.
#[derive(Clone, Debug, PartialEq, Eq)]
pub struct Token {
    pub kind: TokenKind,
    pub span: Span,
}

/// The mathematical value of a [`Token`].
pub struct SpecToken {
    pub kind: SpecTokenKind,
    pub span: Span,
}

impl vstd::view::View for Token {
    type V = SpecToken;

    open spec fn view(&self) -> SpecToken {
        SpecToken { kind: self.kind@, span: self.span }
    }
}

impl Token {
    /// A copy of this token.
    pub fn duplicate(&self) -> (res: Token)
        ensures
            res@ == self@,
    {
        Token { kind: self.kind.duplicate(), span: self.span }
    }
}

/// What went wrong while lexing.
#[derive(Clone, Debug, PartialEq, Eq)]
pub enum LexicalErrorKind {
    /// A character that starts no token
    InvalidCharacter(char),
    /// An array size that is not a number
    InvalidArraySize(String),
    /// An unknown primitive type
    InvalidPrimitiveType(String),
    /// A hex literal with other than one `x`
    InvalidHexLiteral(String),
    /// A hex literal longer than 32 bytes
    HexLiteralTooLong(String),
}

/// The mathematical value of a [`LexicalErrorKind`].
pub enum SpecErrorKind {
    InvalidCharacter(char),
    InvalidArraySize(Seq<char>),
    InvalidPrimitiveType(Seq<char>),
    InvalidHexLiteral(Seq<char>),
    HexLiteralTooLong(Seq<char>),
}

impl vstd::view::View for LexicalErrorKind {
    type V = SpecErrorKind;

    open spec fn view(&self) -> SpecErrorKind {
        match self {
            LexicalErrorKind::InvalidCharacter(c) => SpecErrorKind::InvalidCharacter(*c),
            LexicalErrorKind::InvalidArraySize(s) => SpecErrorKind::InvalidArraySize(s@),
            LexicalErrorKind::InvalidPrimitiveType(s) => SpecErrorKind::InvalidPrimitiveType(s@),
            LexicalErrorKind::InvalidHexLiteral(s) => SpecErrorKind::InvalidHexLiteral(s@),
            LexicalErrorKind::HexLiteralTooLong(s) => SpecErrorKind::HexLiteralTooLong(s@),
        }
    }
}

/// A lexical error: what went wrong and where.
#[derive(Clone, Debug, PartialEq, Eq)]
pub struct LexicalError {
    pub kind: LexicalErrorKind,
    pub span: Span,
}

/// The mathematical value of a [`LexicalError`].
pub struct SpecLexError {
    pub kind: SpecErrorKind,
    pub span: Span,
}

impl vstd::view::View for LexicalError {
    type V = SpecLexError;

    open spec fn view(&self) -> SpecLexError {
        SpecLexError { kind: self.kind@, span: self.span }
    }
}

impl LexicalError {
    pub fn new(kind: LexicalErrorKind, span: Span) -> (res: LexicalError)
        ensures
            res@ == (SpecLexError { kind: kind@, span }),
    {
        LexicalError { kind, span }
    }
}

/// The result of lexing one token.
pub type TokenResult = Result<Token, LexicalError>;

/// The mathematical value of a [`TokenResult`].
pub open spec fn result_view(r: TokenResult) -> Result<SpecToken, SpecLexError> {
    match r {
        Ok(t) => Ok(t@),
        Err(e) => Err(e@),
    }
}

} // verus!
