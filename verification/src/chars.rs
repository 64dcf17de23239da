//! Character classes read by the lexer.
//!
//! The ASCII classes are stated here directly. The Unicode classes (alphabetic,
//! alphanumeric, white space) follow the Unicode tables that `char` carries;
//! their results are named and obtained from the standard library.
use vstd::prelude::*;

verus! {

/// `char::is_ascii_alphabetic`: `A..=Z` or `a..=z`.
pub open spec fn is_ascii_alpha(c: char) -> bool {
    ('A' <= c && c <= 'Z') || ('a' <= c && c <= 'z')
}

/// `char::is_ascii_digit`: `0..=9`.
pub open spec fn is_ascii_digit(c: char) -> bool {
    '0' <= c && c <= '9'
}

/// `char::is_ascii_hexdigit`: a decimal digit or `a..=f` / `A..=F`.
pub open spec fn is_ascii_hex(c: char) -> bool {
    is_ascii_digit(c) || ('a' <= c && c <= 'f') || ('A' <= c && c <= 'F')
}

/// `char::is_ascii_whitespace`: space, tab, line feed, form feed or carriage return.
pub open spec fn is_ascii_ws(c: char) -> bool {
    c == ' ' || c == '\t' || c == '\n' || c == '\x0C' || c == '\r'
}

/// The quote characters that open and close string literals and import paths.
pub open spec fn is_quote(c: char) -> bool {
    c == '"' || c == '\''
}

/// Whether a non-ASCII `c` has the Unicode `Alphabetic` property.
pub uninterp spec fn unicode_alphabetic(c: char) -> bool;

/// Whether a non-ASCII `c` is alphabetic or numeric in the Unicode sense.
pub uninterp spec fn unicode_alphanumeric(c: char) -> bool;

/// Whether a non-ASCII `c` has the Unicode `White_Space` property.
pub uninterp spec fn unicode_whitespace(c: char) -> bool;

pub open spec fn is_ascii_char(c: char) -> bool {
    (c as u32) < 0x80
}

/// `char::is_alphabetic`: among ASCII characters exactly the letters; beyond
/// ASCII, the Unicode `Alphabetic` property.
pub open spec fn alphabetic(c: char) -> bool {
    if is_ascii_char(c) {
        is_ascii_alpha(c)
    } else {
        unicode_alphabetic(c)
    }
}

/// `char::is_alphanumeric`: among ASCII characters exactly the letters and
/// digits; beyond ASCII, alphabetic or numeric in the Unicode sense.
pub open spec fn alphanumeric(c: char) -> bool {
    if is_ascii_char(c) {
        is_ascii_alpha(c) || is_ascii_digit(c)
    } else {
        unicode_alphanumeric(c)
    }
}

/// `char::is_whitespace`: among ASCII characters the space and `\t`, `\n`,
/// vertical tab, form feed and `\r`; beyond ASCII, the Unicode `White_Space`
/// property.
pub open spec fn whitespace(c: char) -> bool {
    if is_ascii_char(c) {
        c == ' ' || ('\x09' <= c && c <= '\x0d')
    } else {
        unicode_whitespace(c)
    }
}

/// Calls `char::is_alphabetic`. Its source answers ASCII characters by the
/// ranges `a..=z` and `A..=Z` and looks the others up in the Unicode table,
/// whose result is named here.
#[verifier::external_body]
pub(crate) fn is_alphabetic(c: char) -> (res: bool)
    ensures
        res == (if is_ascii_char(c) {
            is_ascii_alpha(c)
        } else {
            unicode_alphabetic(c)
        }),
{
    c.is_alphabetic()
}

/// Calls `char::is_alphanumeric`. Its source answers ASCII characters with
/// `is_ascii_alphanumeric` and looks the others up in the Unicode tables,
/// whose result is named here.
#[verifier::external_body]
pub(crate) fn is_alphanumeric(c: char) -> (res: bool)
    ensures
        res == (if is_ascii_char(c) {
            is_ascii_alpha(c) || is_ascii_digit(c)
        } else {
            unicode_alphanumeric(c)
        }),
{
    c.is_alphanumeric()
}

/// Calls `char::is_whitespace`. Its source answers ASCII characters by the
/// space and `\x09..=\x0d` and looks the others up in the Unicode table,
/// whose result is named here.
#[verifier::external_body]
pub(crate) fn is_whitespace(c: char) -> (res: bool)
    ensures
        res == (if is_ascii_char(c) {
            c == ' ' || ('\x09' <= c && c <= '\x0d')
        } else {
            unicode_whitespace(c)
        }),
{
    c.is_whitespace()
}

pub fn ascii_alpha(c: char) -> (res: bool)
    ensures
        res == is_ascii_alpha(c),
{
    ('A' <= c && c <= 'Z') || ('a' <= c && c <= 'z')
}

pub fn ascii_digit(c: char) -> (res: bool)
    ensures
        res == is_ascii_digit(c),
{
    '0' <= c && c <= '9'
}

pub fn ascii_hex(c: char) -> (res: bool)
    ensures
        res == is_ascii_hex(c),
{
    ('0' <= c && c <= '9') || ('a' <= c && c <= 'f') || ('A' <= c && c <= 'F')
}

pub fn ascii_ws(c: char) -> (res: bool)
    ensures
        res == is_ascii_ws(c),
{
    c == ' ' || c == '\t' || c == '\n' || c == '\x0C' || c == '\r'
}

/// The runs of characters that the lexer reads in one go.
#[derive(Clone, Copy, Debug, PartialEq, Eq, Structural)]
pub enum CharClass {
    /// Anything but a line feed: the rest of a line comment.
    NotNewline,
    /// ASCII letters: the word after `#`.
    AsciiAlpha,
    /// Alphanumeric or `_`: identifiers and keywords.
    WordChar,
    /// Alphanumeric characters.
    Alnum,
    /// Alphanumeric, `[` or `]`: ABI argument types such as `uint256[2]`.
    AbiType,
    /// ASCII digits: decimal numbers.
    Digit,
    /// ASCII hex digits or `x`: hex literals.
    HexOrX,
    /// Unicode white space.
    Space,
    /// Anything but a quote: the body of a string literal.
    NotQuote,
}

pub open spec fn in_class(k: CharClass, c: char) -> bool {
    match k {
        CharClass::NotNewline => c != '\n',
        CharClass::AsciiAlpha => is_ascii_alpha(c),
        CharClass::WordChar => alphanumeric(c) || c == '_',
        CharClass::Alnum => alphanumeric(c),
        CharClass::AbiType => alphanumeric(c) || c == '[' || c == ']',
        CharClass::Digit => is_ascii_digit(c),
        CharClass::HexOrX => is_ascii_hex(c) || c == 'x',
        CharClass::Space => whitespace(c),
        CharClass::NotQuote => c != '"' && c != '\'',
    }
}

pub fn class_holds(k: CharClass, c: char) -> (res: bool)
    ensures
        res == in_class(k, c),
{
    match k {
        CharClass::NotNewline => c != '\n',
        CharClass::AsciiAlpha => ascii_alpha(c),
        CharClass::WordChar => is_alphanumeric(c) || c == '_',
        CharClass::Alnum => is_alphanumeric(c),
        CharClass::AbiType => is_alphanumeric(c) || c == '[' || c == ']',
        CharClass::Digit => ascii_digit(c),
        CharClass::HexOrX => ascii_hex(c) || c == 'x',
        CharClass::Space => is_whitespace(c),
        CharClass::NotQuote => c != '"' && c != '\'',
    }
}

} // verus!
