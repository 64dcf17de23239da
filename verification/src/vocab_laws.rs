//! Laws of the vocabulary and of import scanning: keyword and opcode lookups
//! agree with the spellings of the kinds and instructions, type names and
//! hex literals read as the numbers they spell, and comments hide only what
//! they cover.
use vstd::prelude::*;
use crate::imports::{imports_from, skip_line, skip_block, after_slash, include_word};
use crate::token::SpecTokenKind;
use crate::words::{keyword_kind, opcode_of};
use crate::model::primitive_kind;
use crate::token::PrimitiveEVMType;
use crate::values::{primitive_read, parse_usize, digits_value, all_digits, bytes32_of_hex, hex_bytes, even_padded, hex_value};

verus! {

proof fn lemma_skip_line_to(src: Seq<char>, i: nat, m: nat)
    requires
        i <= m < src.len(),
        src[m as int] == '\n',
        forall|x: int| i <= x < m ==> src[x] != '\n',
    ensures
        skip_line(src, i) == m + 1,
    decreases m - i,
{
    if i < m {
        lemma_skip_line_to(src, i + 1, m);
    }
}

/// A line comment hides only the rest of its own line: where `//` starts at
/// `i` and the next line feed is at `m`, scanning for imports from `i` finds
/// exactly what it finds from the line after the comment.
pub proof fn law_line_comment_hides_its_line(src: Seq<char>, i: nat, k: nat, m: nat)
    requires
        i + 2 <= m < src.len(),
        src[i as int] == '/',
        src[i + 1int] == '/',
        src[m as int] == '\n',
        forall|x: int| i + 2 <= x < m ==> src[x] != '\n',
        k < 8,
    ensures
        imports_from(src, i, k) == imports_from(src, m + 1, 0),
{
    lemma_skip_line_to(src, i + 1, m);
    assert(after_slash(src, i + 1) == m + 1);
    assert(include_word()[k as int] != '/');
}

proof fn lemma_skip_block_to(src: Seq<char>, i: nat, m: nat)
    requires
        i <= m,
        m + 1 < src.len(),
        src[m as int] == '*',
        src[m + 1int] == '/',
        forall|x: int| i <= x < m ==> !(src[x] == '*' && #[trigger] src[x + 1] == '/'),
    ensures
        skip_block(src, i) == m + 1,
    decreases m - i,
{
    if i < m {
        assert(!(src[i as int] == '*' && src[i + 1int] == '/'));
        lemma_skip_block_to(src, i + 1, m);
    }
}

/// A block comment hides only what it encloses: where `/*` starts at `i` and
/// the first `*/` after it has its `*` at `m`, scanning for imports from `i`
/// finds exactly what it finds from the closing `/` on, so an `#include`
/// inside the comment is not found and one after it is.
pub proof fn law_block_comment_hides_its_text(src: Seq<char>, i: nat, k: nat, m: nat)
    requires
        i + 1 <= m,
        m + 1 < src.len(),
        src[i as int] == '/',
        src[i + 1int] == '*',
        src[m as int] == '*',
        src[m + 1int] == '/',
        forall|x: int| i + 1 <= x < m ==> !(src[x] == '*' && #[trigger] src[x + 1] == '/'),
        k < 8,
    ensures
        imports_from(src, i, k) == imports_from(src, m + 1, 0),
{
    lemma_skip_block_to(src, i + 1, m);
    assert(after_slash(src, i + 1) == m + 1);
    assert(include_word()[k as int] != '/');
}

/// The text of each keyword kind: how it is spelled in a source.
pub open spec fn keyword_text(k: SpecTokenKind) -> Option<Seq<char>> {
    match k {
        SpecTokenKind::Macro => Some(seq!['m', 'a', 'c', 'r', 'o']),
        SpecTokenKind::Fn => Some(seq!['f', 'n']),
        SpecTokenKind::Test => Some(seq!['t', 'e', 's', 't']),
        SpecTokenKind::Function => Some(seq!['f', 'u', 'n', 'c', 't', 'i', 'o', 'n']),
        SpecTokenKind::Constant => Some(seq!['c', 'o', 'n', 's', 't', 'a', 'n', 't']),
        SpecTokenKind::Error => Some(seq!['e', 'r', 'r', 'o', 'r']),
        SpecTokenKind::Takes => Some(seq!['t', 'a', 'k', 'e', 's']),
        SpecTokenKind::Returns => Some(seq!['r', 'e', 't', 'u', 'r', 'n', 's']),
        SpecTokenKind::Event => Some(seq!['e', 'v', 'e', 'n', 't']),
        SpecTokenKind::NonPayable => Some(seq!['n', 'o', 'n', 'p', 'a', 'y', 'a', 'b', 'l', 'e']),
        SpecTokenKind::Payable => Some(seq!['p', 'a', 'y', 'a', 'b', 'l', 'e']),
        SpecTokenKind::Indexed => Some(seq!['i', 'n', 'd', 'e', 'x', 'e', 'd']),
        SpecTokenKind::View => Some(seq!['v', 'i', 'e', 'w']),
        SpecTokenKind::Pure => Some(seq!['p', 'u', 'r', 'e']),
        SpecTokenKind::JumpTablePacked => Some(
            seq!['j', 'u', 'm', 'p', 't', 'a', 'b', 'l', 'e', '_', '_', 'p', 'a', 'c', 'k', 'e', 'd'],
        ),
        SpecTokenKind::JumpTable => Some(seq!['j', 'u', 'm', 'p', 't', 'a', 'b', 'l', 'e']),
        SpecTokenKind::CodeTable => Some(seq!['t', 'a', 'b', 'l', 'e']),
        _ => None,
    }
}

/// Keyword lookup is the inverse of spelling: a word is read as keyword kind
/// `k` exactly when it is the text of `k`. So each keyword maps to its own
/// kind and two different words never map to the same kind.
pub proof fn law_keyword_lookup_inverts_spelling(w: Seq<char>, k: SpecTokenKind)
    ensures
        keyword_kind(w) == Some(k) <==> keyword_text(k) == Some(w),
{
    reveal_strlit("macro");
    reveal_strlit("fn");
    reveal_strlit("test");
    reveal_strlit("function");
    reveal_strlit("constant");
    reveal_strlit("error");
    reveal_strlit("takes");
    reveal_strlit("returns");
    reveal_strlit("event");
    reveal_strlit("nonpayable");
    reveal_strlit("payable");
    reveal_strlit("indexed");
    reveal_strlit("view");
    reveal_strlit("pure");
    reveal_strlit("jumptable__packed");
    reveal_strlit("jumptable");
    reveal_strlit("table");
    if keyword_text(k) == Some(w) {
        match k {
            SpecTokenKind::Macro => {
                assert(w =~= "macro"@);
            },
            SpecTokenKind::Fn => {
                assert(w =~= "fn"@);
            },
            SpecTokenKind::Test => {
                assert(w =~= "test"@);
            },
            SpecTokenKind::Function => {
                assert(w =~= "function"@);
            },
            SpecTokenKind::Constant => {
                assert(w =~= "constant"@);
            },
            SpecTokenKind::Error => {
                assert(w =~= "error"@);
            },
            SpecTokenKind::Takes => {
                assert(w =~= "takes"@);
            },
            SpecTokenKind::Returns => {
                assert(w =~= "returns"@);
            },
            SpecTokenKind::Event => {
                assert(w =~= "event"@);
            },
            SpecTokenKind::NonPayable => {
                assert(w =~= "nonpayable"@);
            },
            SpecTokenKind::Payable => {
                assert(w =~= "payable"@);
            },
            SpecTokenKind::Indexed => {
                assert(w =~= "indexed"@);
            },
            SpecTokenKind::View => {
                assert(w =~= "view"@);
            },
            SpecTokenKind::Pure => {
                assert(w =~= "pure"@);
            },
            SpecTokenKind::JumpTablePacked => {
                assert(w =~= "jumptable__packed"@);
            },
            SpecTokenKind::JumpTable => {
                assert(w =~= "jumptable"@);
            },
            SpecTokenKind::CodeTable => {
                assert(w =~= "table"@);
            },
            _ => {},
        }
        assert(keyword_kind(w) == Some(k));
    }
    if keyword_kind(w) == Some(k) {
        assert(keyword_text(k) == Some(w));
    }
}

/// The decimal digit for `d < 10`.
pub open spec fn digit_char(d: nat) -> char {
    seq!['0', '1', '2', '3', '4', '5', '6', '7', '8', '9'][d as int]
}

/// The decimal spelling of `n`, without leading zeros.
pub open spec fn decimal(n: nat) -> Seq<char>
    decreases n,
{
    if n < 10 {
        seq![digit_char(n)]
    } else {
        decimal(n / 10).push(digit_char(n % 10))
    }
}

proof fn lemma_digit_char(d: nat)
    requires
        d < 10,
    ensures
        crate::chars::is_ascii_digit(digit_char(d)),
        (digit_char(d) as nat) - ('0' as nat) == d,
{
    if d == 0 {} else if d == 1 {} else if d == 2 {} else if d == 3 {} else if d == 4 {
    } else if d == 5 {} else if d == 6 {} else if d == 7 {} else if d == 8 {} else {}
}

proof fn lemma_decimal(n: nat)
    ensures
        decimal(n).len() >= 1,
        all_digits(decimal(n)),
        digits_value(decimal(n)) == n,
    decreases n,
{
    if n < 10 {
        lemma_digit_char(n);
        assert(decimal(n).drop_last() =~= Seq::<char>::empty());
        assert(digits_value(Seq::<char>::empty()) == 0);
        assert(decimal(n).last() == digit_char(n));
    } else {
        lemma_decimal(n / 10);
        lemma_digit_char(n % 10);
        let d = decimal(n);
        assert(d.drop_last() =~= decimal(n / 10));
        assert(d.last() == digit_char(n % 10));
        assert(n == (n / 10) * 10 + n % 10);
        assert(digits_value(d) == digits_value(decimal(n / 10)) * 10 + n % 10);
        assert forall|i: int| 0 <= i < d.len() implies crate::chars::is_ascii_digit(#[trigger] d[i]) by {
            if i < d.len() - 1 {
                assert(d[i] == decimal(n / 10)[i]);
            }
        }
    }
}

/// Reading the decimal spelling of a number that fits in `usize` gives the number.
pub proof fn law_decimal_reads_back(n: usize)
    ensures
        parse_usize(decimal(n as nat)) == Some(n),
{
    lemma_decimal(n as nat);
    lemma_digit_char(0);
    let d = decimal(n as nat);
    assert(crate::chars::is_ascii_digit(d[0]));
}

/// ABI type names read as the types they spell: `intN` is the signed type of
/// `N` bits and `uintN` the unsigned one, for every decimal `N` that fits in
/// `usize`; `bytesN` is the fixed `N`-byte type; `int` and `uint` alone are
/// 256 bits.
pub proof fn law_sized_type_names(n: usize)
    ensures
        primitive_read(seq!['i', 'n', 't'] + decimal(n as nat)) == Some(Some(PrimitiveEVMType::Int(n))),
        primitive_read(seq!['u', 'i', 'n', 't'] + decimal(n as nat)) == Some(Some(PrimitiveEVMType::Uint(n))),
        primitive_read(seq!['b', 'y', 't', 'e', 's'] + decimal(n as nat)) == Some(Some(PrimitiveEVMType::Bytes(n))),
        primitive_read(seq!['i', 'n', 't']) == Some(Some(PrimitiveEVMType::Int(256))),
        primitive_read(seq!['u', 'i', 'n', 't']) == Some(Some(PrimitiveEVMType::Uint(256))),
{
    reveal_strlit("string");
    reveal_strlit("bytes");
    reveal_strlit("bool");
    reveal_strlit("address");
    reveal_strlit("uint");
    reveal_strlit("int");
    law_decimal_reads_back(n);
    lemma_decimal(n as nat);
    let d = decimal(n as nat);
    let wi = seq!['i', 'n', 't'] + d;
    let wu = seq!['u', 'i', 'n', 't'] + d;
    let wb = seq!['b', 'y', 't', 'e', 's'] + d;
    assert(wi[0] == 'i' && wu[0] == 'u' && wb[0] == 'b');
    assert(wi.subrange(0, 3) =~= "int"@);
    assert(wi.subrange(3, wi.len() as int) =~= d);
    assert(wu.subrange(0, 4) =~= "uint"@);
    assert(wu.subrange(4, wu.len() as int) =~= d);
    assert(wb.subrange(0, 5) =~= "bytes"@);
    assert(wb.subrange(5, wb.len() as int) =~= d);
    assert(wi != "string"@ && wi != "bytes"@ && wi != "bool"@ && wi != "address"@) by {
        assert("string"@[0] == 's');
        assert("bytes"@[0] == 'b');
        assert("bool"@[0] == 'b');
        assert("address"@[0] == 'a');
    }
    assert(wi.subrange(0, 4) != "uint"@) by {
        assert(wi.subrange(0, 4)[0] == 'i');
    }
    assert(wu != "string"@ && wu != "bytes"@ && wu != "bool"@ && wu != "address"@) by {
        assert("string"@[0] == 's');
        assert("bytes"@[0] == 'b');
        assert("bool"@[0] == 'b');
        assert("address"@[0] == 'a');
    }
    assert(wb != "string"@ && wb != "bool"@ && wb != "address"@) by {
        assert("string"@[0] == 's');
        assert("bool"@[1] == 'o');
        assert("address"@[0] == 'a');
    }
    assert(wb != "bytes"@) by {
        assert(wb.len() > 5);
    }
    assert(wb.subrange(0, 4) != "uint"@) by {
        assert(wb.subrange(0, 4)[0] == 'b');
    }
    assert(wb.subrange(0, 3) != "int"@) by {
        assert(wb.subrange(0, 3)[0] == 'b');
    }
    let bi = seq!['i', 'n', 't'];
    let bu = seq!['u', 'i', 'n', 't'];
    assert(bi =~= "int"@);
    assert(bu =~= "uint"@);
    assert(bi.subrange(0, 3) =~= "int"@);
    assert(bu.subrange(0, 4) =~= "uint"@);
    assert(bi != "string"@ && bi != "bytes"@ && bi != "bool"@ && bi != "address"@) by {
        assert("string"@[0] == 's');
        assert("bytes"@[0] == 'b');
        assert("bool"@[0] == 'b');
        assert("address"@[0] == 'a');
    }
    assert(bu != "string"@ && bu != "bytes"@ && bu != "bool"@ && bu != "address"@) by {
        assert("string"@[0] == 's');
        assert("bytes"@[0] == 'b');
        assert("bool"@[0] == 'b');
        assert("address"@[0] == 'a');
    }
}

/// The ABI type names without a size read as the types they name: `string`,
/// `bytes` (the dynamic byte string), `bool` and `address`.
pub proof fn law_named_type_names()
    ensures
        primitive_read(seq!['s', 't', 'r', 'i', 'n', 'g']) == Some(Some(PrimitiveEVMType::String)),
        primitive_read(seq!['b', 'y', 't', 'e', 's']) == Some(Some(PrimitiveEVMType::DynBytes)),
        primitive_read(seq!['b', 'o', 'o', 'l']) == Some(Some(PrimitiveEVMType::Bool)),
        primitive_read(seq!['a', 'd', 'd', 'r', 'e', 's', 's']) == Some(Some(PrimitiveEVMType::Address)),
{
    reveal_strlit("string");
    reveal_strlit("bytes");
    reveal_strlit("bool");
    reveal_strlit("address");
    assert("string"@ =~= seq!['s', 't', 'r', 'i', 'n', 'g']);
    assert("bytes"@ =~= seq!['b', 'y', 't', 'e', 's']);
    assert("bool"@ =~= seq!['b', 'o', 'o', 'l']);
    assert("address"@ =~= seq!['a', 'd', 'd', 'r', 'e', 's', 's']);
}

/// An ABI argument written `intN` is read as the signed type of `N` bits and
/// one written `uintN` as the unsigned type, for every decimal `N` that fits
/// in `usize`, whatever the word was read as before: so
/// `#define function f(int128)` has an argument token of type `int128`.
pub proof fn law_abi_argument_sized_types(n: usize, found: Option<SpecTokenKind>)
    ensures
        primitive_kind(seq!['i', 'n', 't'] + decimal(n as nat), found) == Some(
            Some(SpecTokenKind::PrimitiveType(PrimitiveEVMType::Int(n))),
        ),
        primitive_kind(seq!['u', 'i', 'n', 't'] + decimal(n as nat), found) == Some(
            Some(SpecTokenKind::PrimitiveType(PrimitiveEVMType::Uint(n))),
        ),
{
    law_sized_type_names(n);
}

/// The hex digits in lower case, by value.
pub open spec fn lower_hex_digits() -> Seq<char> {
    seq!['0', '1', '2', '3', '4', '5', '6', '7', '8', '9', 'a', 'b', 'c', 'd', 'e', 'f']
}

/// The hex digits in upper case, by value.
pub open spec fn upper_hex_digits() -> Seq<char> {
    seq!['0', '1', '2', '3', '4', '5', '6', '7', '8', '9', 'A', 'B', 'C', 'D', 'E', 'F']
}

/// `h` spells the digit values `ds`, each digit in either case.
pub open spec fn spells_digits(h: Seq<char>, ds: Seq<nat>) -> bool {
    &&& h.len() == ds.len()
    &&& forall|i: int|
        0 <= i < ds.len() ==> #[trigger] ds[i] < 16 && (h[i] == lower_hex_digits()[ds[i] as int]
            || h[i] == upper_hex_digits()[ds[i] as int])
}

/// The number that the base-16 digits `ds` stand for, most significant first.
pub open spec fn base16(ds: Seq<nat>) -> nat
    decreases ds.len(),
{
    if ds.len() == 0 {
        0
    } else {
        base16(ds.drop_last()) * 16 + ds.last()
    }
}

/// The number that the bytes `b` stand for, most significant first.
pub open spec fn big_endian(b: Seq<u8>) -> nat
    decreases b.len(),
{
    if b.len() == 0 {
        0
    } else {
        big_endian(b.drop_last()) * 256 + (b.last() as nat)
    }
}

proof fn lemma_hex_digit(c: char, d: nat)
    requires
        d < 16,
        c == lower_hex_digits()[d as int] || c == upper_hex_digits()[d as int],
    ensures
        hex_value(c) == d,
{
    if d == 0 {} else if d == 1 {} else if d == 2 {} else if d == 3 {} else if d == 4 {
    } else if d == 5 {} else if d == 6 {} else if d == 7 {} else if d == 8 {} else if d == 9 {
    } else if d == 10 {} else if d == 11 {} else if d == 12 {} else if d == 13 {
    } else if d == 14 {} else {}
}

proof fn lemma_base16_leading_zero(ds: Seq<nat>)
    ensures
        base16(seq![0nat] + ds) == base16(ds),
    decreases ds.len(),
{
    if ds.len() > 0 {
        lemma_base16_leading_zero(ds.drop_last());
        assert((seq![0nat] + ds).drop_last() =~= seq![0nat] + ds.drop_last());
        assert((seq![0nat] + ds).last() == ds.last());
    } else {
        assert((seq![0nat] + ds).drop_last() =~= Seq::<nat>::empty());
        assert(seq![0nat] + ds =~= seq![0nat]);
        assert(base16(Seq::<nat>::empty()) == 0);
    }
}

proof fn lemma_big_endian_leading_zeros(k: nat, b: Seq<u8>)
    ensures
        big_endian(Seq::new(k, |i: int| 0u8) + b) == big_endian(b),
    decreases b.len(), k,
{
    let z = Seq::new(k, |i: int| 0u8);
    if b.len() > 0 {
        lemma_big_endian_leading_zeros(k, b.drop_last());
        assert((z + b).drop_last() =~= z + b.drop_last());
    } else if k > 0 {
        lemma_big_endian_leading_zeros((k - 1) as nat, b);
        assert((z + b).drop_last() =~= Seq::new((k - 1) as nat, |i: int| 0u8) + b);
    } else {
        assert(z + b =~= Seq::<u8>::empty());
    }
}

/// The characters `p` are hex digits with the values `dp`.
pub open spec fn digit_values(p: Seq<char>, dp: Seq<nat>) -> bool {
    &&& p.len() == dp.len()
    &&& forall|i: int| 0 <= i < p.len() ==> hex_value(#[trigger] p[i]) == dp[i] && dp[i] < 16
}

proof fn lemma_pairs(p: Seq<char>, dp: Seq<nat>, m: nat)
    requires
        digit_values(p, dp),
        p.len() % 2 == 0,
        2 * m <= p.len(),
    ensures
        big_endian(hex_bytes(p).subrange(0, m as int)) == base16(dp.subrange(0, (2 * m) as int)),
    decreases m,
{
    if m > 0 {
        lemma_pairs(p, dp, (m - 1) as nat);
        let b = hex_bytes(p).subrange(0, m as int);
        assert(b.drop_last() =~= hex_bytes(p).subrange(0, m - 1));
        let e = dp.subrange(0, (2 * m) as int);
        assert(e.drop_last().drop_last() =~= dp.subrange(0, 2 * m - 2));
        assert(e.drop_last().last() == dp[2 * m - 2]);
        assert(e.last() == dp[2 * m - 1]);
        let hi = hex_value(p[2 * m - 2]);
        let lo = hex_value(p[2 * m - 1]);
        assert(hi == dp[2 * m - 2] && hi < 16);
        assert(lo == dp[2 * m - 1] && lo < 16);
        assert(b.last() == hex_bytes(p)[m - 1]);
        assert(hex_bytes(p)[m - 1] == (hi * 16 + lo) as u8);
        assert(hi * 16 + lo < 256) by (nonlinear_arith)
            requires
                hi < 16,
                lo < 16,
        ;
        assert(base16(e) == base16(e.drop_last()) * 16 + e.last());
        assert(base16(e.drop_last()) == base16(e.drop_last().drop_last()) * 16 + e.drop_last().last());
        assert(big_endian(b) == big_endian(b.drop_last()) * 256 + (b.last() as nat));
    } else {
        assert(hex_bytes(p).subrange(0, 0) =~= Seq::<u8>::empty());
        assert(dp.subrange(0, 0) =~= Seq::<nat>::empty());
    }
}

/// A hex literal reads as the number its digits spell: for hex digits `h` (at
/// most 64, in either case) with digit values `ds`, the 32 bytes read from `h`
/// are, as a big-endian number, the base-16 number `ds`.
pub proof fn law_hex_literal_value(h: Seq<char>, ds: Seq<nat>)
    requires
        spells_digits(h, ds),
        h.len() <= 64,
    ensures
        bytes32_of_hex(h).len() == 32,
        big_endian(bytes32_of_hex(h)) == base16(ds),
{
    let p = even_padded(h);
    let dp = if h.len() % 2 == 1 {
        seq![0nat] + ds
    } else {
        ds
    };
    assert forall|i: int| 0 <= i < p.len() implies hex_value(#[trigger] p[i]) == dp[i] && dp[i]
        < 16 by {
        if h.len() % 2 == 1 {
            if i == 0 {
                lemma_hex_digit(p[i], 0);
            } else {
                assert(p[i] == h[i - 1] && dp[i] == ds[i - 1]);
                lemma_hex_digit(p[i], dp[i]);
            }
        } else {
            lemma_hex_digit(p[i], dp[i]);
        }
    }
    let m = p.len() / 2;
    lemma_pairs(p, dp, m);
    assert(hex_bytes(p).subrange(0, m as int) =~= hex_bytes(p));
    assert(dp.subrange(0, (2 * m) as int) =~= dp);
    if h.len() % 2 == 1 {
        lemma_base16_leading_zero(ds);
    }
    let b = hex_bytes(p);
    lemma_big_endian_leading_zeros((32 - b.len()) as nat, b);
}

/// The mnemonic of each EVM instruction byte that Huff names.
pub open spec fn opcode_name(b: u8) -> Option<Seq<char>> {
    if b == 0x00u8 {
        Some(seq!['s', 't', 'o', 'p'])
    } else if b == 0x01u8 {
        Some(seq!['a', 'd', 'd'])
    } else if b == 0x02u8 {
        Some(seq!['m', 'u', 'l'])
    } else if b == 0x03u8 {
        Some(seq!['s', 'u', 'b'])
    } else if b == 0x04u8 {
        Some(seq!['d', 'i', 'v'])
    } else if b == 0x05u8 {
        Some(seq!['s', 'd', 'i', 'v'])
    } else if b == 0x06u8 {
        Some(seq!['m', 'o', 'd'])
    } else if b == 0x07u8 {
        Some(seq!['s', 'm', 'o', 'd'])
    } else if b == 0x08u8 {
        Some(seq!['a', 'd', 'd', 'm', 'o', 'd'])
    } else if b == 0x09u8 {
        Some(seq!['m', 'u', 'l', 'm', 'o', 'd'])
    } else if b == 0x0au8 {
        Some(seq!['e', 'x', 'p'])
    } else if b == 0x0bu8 {
        Some(seq!['s', 'i', 'g', 'n', 'e', 'x', 't', 'e', 'n', 'd'])
    } else if b == 0x10u8 {
        Some(seq!['l', 't'])
    } else if b == 0x11u8 {
        Some(seq!['g', 't'])
    } else if b == 0x12u8 {
        Some(seq!['s', 'l', 't'])
    } else if b == 0x13u8 {
        Some(seq!['s', 'g', 't'])
    } else if b == 0x14u8 {
        Some(seq!['e', 'q'])
    } else if b == 0x15u8 {
        Some(seq!['i', 's', 'z', 'e', 'r', 'o'])
    } else if b == 0x16u8 {
        Some(seq!['a', 'n', 'd'])
    } else if b == 0x17u8 {
        Some(seq!['o', 'r'])
    } else if b == 0x18u8 {
        Some(seq!['x', 'o', 'r'])
    } else if b == 0x19u8 {
        Some(seq!['n', 'o', 't'])
    } else if b == 0x1au8 {
        Some(seq!['b', 'y', 't', 'e'])
    } else if b == 0x1bu8 {
        Some(seq!['s', 'h', 'l'])
    } else if b == 0x1cu8 {
        Some(seq!['s', 'h', 'r'])
    } else if b == 0x1du8 {
        Some(seq!['s', 'a', 'r'])
    } else if b == 0x20u8 {
        Some(seq!['k', 'e', 'c', 'c', 'a', 'k', '2', '5', '6'])
    } else if b == 0x30u8 {
        Some(seq!['a', 'd', 'd', 'r', 'e', 's', 's'])
    } else if b == 0x31u8 {
        Some(seq!['b', 'a', 'l', 'a', 'n', 'c', 'e'])
    } else if b == 0x32u8 {
        Some(seq!['o', 'r', 'i', 'g', 'i', 'n'])
    } else if b == 0x33u8 {
        Some(seq!['c', 'a', 'l', 'l', 'e', 'r'])
    } else if b == 0x34u8 {
        Some(seq!['c', 'a', 'l', 'l', 'v', 'a', 'l', 'u', 'e'])
    } else if b == 0x35u8 {
        Some(seq!['c', 'a', 'l', 'l', 'd', 'a', 't', 'a', 'l', 'o', 'a', 'd'])
    } else if b == 0x36u8 {
        Some(seq!['c', 'a', 'l', 'l', 'd', 'a', 't', 'a', 's', 'i', 'z', 'e'])
    } else if b == 0x37u8 {
        Some(seq!['c', 'a', 'l', 'l', 'd', 'a', 't', 'a', 'c', 'o', 'p', 'y'])
    } else if b == 0x38u8 {
        Some(seq!['c', 'o', 'd', 'e', 's', 'i', 'z', 'e'])
    } else if b == 0x39u8 {
        Some(seq!['c', 'o', 'd', 'e', 'c', 'o', 'p', 'y'])
    } else if b == 0x3au8 {
        Some(seq!['g', 'a', 's', 'p', 'r', 'i', 'c', 'e'])
    } else if b == 0x3bu8 {
        Some(seq!['e', 'x', 't', 'c', 'o', 'd', 'e', 's', 'i', 'z', 'e'])
    } else if b == 0x3cu8 {
        Some(seq!['e', 'x', 't', 'c', 'o', 'd', 'e', 'c', 'o', 'p', 'y'])
    } else if b == 0x3du8 {
        Some(seq!['r', 'e', 't', 'u', 'r', 'n', 'd', 'a', 't', 'a', 's', 'i', 'z', 'e'])
    } else if b == 0x3eu8 {
        Some(seq!['r', 'e', 't', 'u', 'r', 'n', 'd', 'a', 't', 'a', 'c', 'o', 'p', 'y'])
    } else if b == 0x3fu8 {
        Some(seq!['e', 'x', 't', 'c', 'o', 'd', 'e', 'h', 'a', 's', 'h'])
    } else if b == 0x40u8 {
        Some(seq!['b', 'l', 'o', 'c', 'k', 'h', 'a', 's', 'h'])
    } else if b == 0x41u8 {
        Some(seq!['c', 'o', 'i', 'n', 'b', 'a', 's', 'e'])
    } else if b == 0x42u8 {
        Some(seq!['t', 'i', 'm', 'e', 's', 't', 'a', 'm', 'p'])
    } else if b == 0x43u8 {
        Some(seq!['n', 'u', 'm', 'b', 'e', 'r'])
    } else if b == 0x44u8 {
        Some(seq!['d', 'i', 'f', 'f', 'i', 'c', 'u', 'l', 't', 'y'])
    } else if b == 0x45u8 {
        Some(seq!['g', 'a', 's', 'l', 'i', 'm', 'i', 't'])
    } else if b == 0x46u8 {
        Some(seq!['c', 'h', 'a', 'i', 'n', 'i', 'd'])
    } else if b == 0x47u8 {
        Some(seq!['s', 'e', 'l', 'f', 'b', 'a', 'l', 'a', 'n', 'c', 'e'])
    } else if b == 0x48u8 {
        Some(seq!['b', 'a', 's', 'e', 'f', 'e', 'e'])
    } else if b == 0x49u8 {
        Some(seq!['b', 'l', 'o', 'b', 'h', 'a', 's', 'h'])
    } else if b == 0x4au8 {
        Some(seq!['b', 'l', 'o', 'b', 'b', 'a', 's', 'e', 'f', 'e', 'e'])
    } else if b == 0x50u8 {
        Some(seq!['p', 'o', 'p'])
    } else if b == 0x51u8 {
        Some(seq!['m', 'l', 'o', 'a', 'd'])
    } else if b == 0x52u8 {
        Some(seq!['m', 's', 't', 'o', 'r', 'e'])
    } else if b == 0x53u8 {
        Some(seq!['m', 's', 't', 'o', 'r', 'e', '8'])
    } else if b == 0x54u8 {
        Some(seq!['s', 'l', 'o', 'a', 'd'])
    } else if b == 0x55u8 {
        Some(seq!['s', 's', 't', 'o', 'r', 'e'])
    } else if b == 0x56u8 {
        Some(seq!['j', 'u', 'm', 'p'])
    } else if b == 0x57u8 {
        Some(seq!['j', 'u', 'm', 'p', 'i'])
    } else if b == 0x58u8 {
        Some(seq!['p', 'c'])
    } else if b == 0x59u8 {
        Some(seq!['m', 's', 'i', 'z', 'e'])
    } else if b == 0x5au8 {
        Some(seq!['g', 'a', 's'])
    } else if b == 0x5bu8 {
        Some(seq!['j', 'u', 'm', 'p', 'd', 'e', 's', 't'])
    } else if b == 0x5cu8 {
        Some(seq!['t', 'l', 'o', 'a', 'd'])
    } else if b == 0x5du8 {
        Some(seq!['t', 's', 't', 'o', 'r', 'e'])
    } else if b == 0x5eu8 {
        Some(seq!['m', 'c', 'o', 'p', 'y'])
    } else if b == 0x5fu8 {
        Some(seq!['p', 'u', 's', 'h', '0'])
    } else if b == 0x60u8 {
        Some(seq!['p', 'u', 's', 'h', '1'])
    } else if b == 0x61u8 {
        Some(seq!['p', 'u', 's', 'h', '2'])
    } else if b == 0x62u8 {
        Some(seq!['p', 'u', 's', 'h', '3'])
    } else if b == 0x63u8 {
        Some(seq!['p', 'u', 's', 'h', '4'])
    } else if b == 0x64u8 {
        Some(seq!['p', 'u', 's', 'h', '5'])
    } else if b == 0x65u8 {
        Some(seq!['p', 'u', 's', 'h', '6'])
    } else if b == 0x66u8 {
        Some(seq!['p', 'u', 's', 'h', '7'])
    } else if b == 0x67u8 {
        Some(seq!['p', 'u', 's', 'h', '8'])
    } else if b == 0x68u8 {
        Some(seq!['p', 'u', 's', 'h', '9'])
    } else if b == 0x69u8 {
        Some(seq!['p', 'u', 's', 'h', '1', '0'])
    } else if b == 0x6au8 {
        Some(seq!['p', 'u', 's', 'h', '1', '1'])
    } else if b == 0x6bu8 {
        Some(seq!['p', 'u', 's', 'h', '1', '2'])
    } else if b == 0x6cu8 {
        Some(seq!['p', 'u', 's', 'h', '1', '3'])
    } else if b == 0x6du8 {
        Some(seq!['p', 'u', 's', 'h', '1', '4'])
    } else if b == 0x6eu8 {
        Some(seq!['p', 'u', 's', 'h', '1', '5'])
    } else if b == 0x6fu8 {
        Some(seq!['p', 'u', 's', 'h', '1', '6'])
    } else if b == 0x70u8 {
        Some(seq!['p', 'u', 's', 'h', '1', '7'])
    } else if b == 0x71u8 {
        Some(seq!['p', 'u', 's', 'h', '1', '8'])
    } else if b == 0x72u8 {
        Some(seq!['p', 'u', 's', 'h', '1', '9'])
    } else if b == 0x73u8 {
        Some(seq!['p', 'u', 's', 'h', '2', '0'])
    } else if b == 0x74u8 {
        Some(seq!['p', 'u', 's', 'h', '2', '1'])
    } else if b == 0x75u8 {
        Some(seq!['p', 'u', 's', 'h', '2', '2'])
    } else if b == 0x76u8 {
        Some(seq!['p', 'u', 's', 'h', '2', '3'])
    } else if b == 0x77u8 {
        Some(seq!['p', 'u', 's', 'h', '2', '4'])
    } else if b == 0x78u8 {
        Some(seq!['p', 'u', 's', 'h', '2', '5'])
    } else if b == 0x79u8 {
        Some(seq!['p', 'u', 's', 'h', '2', '6'])
    } else if b == 0x7au8 {
        Some(seq!['p', 'u', 's', 'h', '2', '7'])
    } else if b == 0x7bu8 {
        Some(seq!['p', 'u', 's', 'h', '2', '8'])
    } else if b == 0x7cu8 {
        Some(seq!['p', 'u', 's', 'h', '2', '9'])
    } else if b == 0x7du8 {
        Some(seq!['p', 'u', 's', 'h', '3', '0'])
    } else if b == 0x7eu8 {
        Some(seq!['p', 'u', 's', 'h', '3', '1'])
    } else if b == 0x7fu8 {
        Some(seq!['p', 'u', 's', 'h', '3', '2'])
    } else if b == 0x80u8 {
        Some(seq!['d', 'u', 'p', '1'])
    } else if b == 0x81u8 {
        Some(seq!['d', 'u', 'p', '2'])
    } else if b == 0x82u8 {
        Some(seq!['d', 'u', 'p', '3'])
    } else if b == 0x83u8 {
        Some(seq!['d', 'u', 'p', '4'])
    } else if b == 0x84u8 {
        Some(seq!['d', 'u', 'p', '5'])
    } else if b == 0x85u8 {
        Some(seq!['d', 'u', 'p', '6'])
    } else if b == 0x86u8 {
        Some(seq!['d', 'u', 'p', '7'])
    } else if b == 0x87u8 {
        Some(seq!['d', 'u', 'p', '8'])
    } else if b == 0x88u8 {
        Some(seq!['d', 'u', 'p', '9'])
    } else if b == 0x89u8 {
        Some(seq!['d', 'u', 'p', '1', '0'])
    } else if b == 0x8au8 {
        Some(seq!['d', 'u', 'p', '1', '1'])
    } else if b == 0x8bu8 {
        Some(seq!['d', 'u', 'p', '1', '2'])
    } else if b == 0x8cu8 {
        Some(seq!['d', 'u', 'p', '1', '3'])
    } else if b == 0x8du8 {
        Some(seq!['d', 'u', 'p', '1', '4'])
    } else if b == 0x8eu8 {
        Some(seq!['d', 'u', 'p', '1', '5'])
    } else if b == 0x8fu8 {
        Some(seq!['d', 'u', 'p', '1', '6'])
    } else if b == 0x90u8 {
        Some(seq!['s', 'w', 'a', 'p', '1'])
    } else if b == 0x91u8 {
        Some(seq!['s', 'w', 'a', 'p', '2'])
    } else if b == 0x92u8 {
        Some(seq!['s', 'w', 'a', 'p', '3'])
    } else if b == 0x93u8 {
        Some(seq!['s', 'w', 'a', 'p', '4'])
    } else if b == 0x94u8 {
        Some(seq!['s', 'w', 'a', 'p', '5'])
    } else if b == 0x95u8 {
        Some(seq!['s', 'w', 'a', 'p', '6'])
    } else if b == 0x96u8 {
        Some(seq!['s', 'w', 'a', 'p', '7'])
    } else if b == 0x97u8 {
        Some(seq!['s', 'w', 'a', 'p', '8'])
    } else if b == 0x98u8 {
        Some(seq!['s', 'w', 'a', 'p', '9'])
    } else if b == 0x99u8 {
        Some(seq!['s', 'w', 'a', 'p', '1', '0'])
    } else if b == 0x9au8 {
        Some(seq!['s', 'w', 'a', 'p', '1', '1'])
    } else if b == 0x9bu8 {
        Some(seq!['s', 'w', 'a', 'p', '1', '2'])
    } else if b == 0x9cu8 {
        Some(seq!['s', 'w', 'a', 'p', '1', '3'])
    } else if b == 0x9du8 {
        Some(seq!['s', 'w', 'a', 'p', '1', '4'])
    } else if b == 0x9eu8 {
        Some(seq!['s', 'w', 'a', 'p', '1', '5'])
    } else if b == 0x9fu8 {
        Some(seq!['s', 'w', 'a', 'p', '1', '6'])
    } else if b == 0xa0u8 {
        Some(seq!['l', 'o', 'g', '0'])
    } else if b == 0xa1u8 {
        Some(seq!['l', 'o', 'g', '1'])
    } else if b == 0xa2u8 {
        Some(seq!['l', 'o', 'g', '2'])
    } else if b == 0xa3u8 {
        Some(seq!['l', 'o', 'g', '3'])
    } else if b == 0xa4u8 {
        Some(seq!['l', 'o', 'g', '4'])
    } else if b == 0xf0u8 {
        Some(seq!['c', 'r', 'e', 'a', 't', 'e'])
    } else if b == 0xf1u8 {
        Some(seq!['c', 'a', 'l', 'l'])
    } else if b == 0xf2u8 {
        Some(seq!['c', 'a', 'l', 'l', 'c', 'o', 'd', 'e'])
    } else if b == 0xf3u8 {
        Some(seq!['r', 'e', 't', 'u', 'r', 'n'])
    } else if b == 0xf4u8 {
        Some(seq!['d', 'e', 'l', 'e', 'g', 'a', 't', 'e', 'c', 'a', 'l', 'l'])
    } else if b == 0xf5u8 {
        Some(seq!['c', 'r', 'e', 'a', 't', 'e', '2'])
    } else if b == 0xfau8 {
        Some(seq!['s', 't', 'a', 't', 'i', 'c', 'c', 'a', 'l', 'l'])
    } else if b == 0xfdu8 {
        Some(seq!['r', 'e', 'v', 'e', 'r', 't'])
    } else if b == 0xfeu8 {
        Some(seq!['i', 'n', 'v', 'a', 'l', 'i', 'd'])
    } else if b == 0xffu8 {
        Some(seq!['s', 'e', 'l', 'f', 'd', 'e', 's', 't', 'r', 'u', 'c', 't'])
    } else {
        None
    }
}

/// The second mnemonic that Huff accepts for an instruction byte: `sha3` for
/// `keccak256` and `prevrandao` for `difficulty`.
pub open spec fn opcode_alias(b: u8) -> Option<Seq<char>> {
    if b == 0x20u8 {
        Some(seq!['s', 'h', 'a', '3'])
    } else if b == 0x44u8 {
        Some(seq!['p', 'r', 'e', 'v', 'r', 'a', 'n', 'd', 'a', 'o'])
    } else {
        None
    }
}

#[verifier::spinoff_prover]
#[verifier::rlimit(50)]
proof fn lemma_opcode_is_named_instruction(w: Seq<char>)
    ensures
        opcode_of(w) matches Some(b) ==> opcode_name(b) == Some(w) || opcode_alias(b) == Some(w),
{
    if w == "add"@ {
        reveal_strlit("add");
        assert(w =~= seq!['a', 'd', 'd']);
    } else if w == "addmod"@ {
        reveal_strlit("addmod");
        assert(w =~= seq!['a', 'd', 'd', 'm', 'o', 'd']);
    } else if w == "and"@ {
        reveal_strlit("and");
        assert(w =~= seq!['a', 'n', 'd']);
    } else if w == "address"@ {
        reveal_strlit("address");
        assert(w =~= seq!['a', 'd', 'd', 'r', 'e', 's', 's']);
    } else if w == "byte"@ {
        reveal_strlit("byte");
        assert(w =~= seq!['b', 'y', 't', 'e']);
    } else if w == "balance"@ {
        reveal_strlit("balance");
        assert(w =~= seq!['b', 'a', 'l', 'a', 'n', 'c', 'e']);
    } else if w == "blockhash"@ {
        reveal_strlit("blockhash");
        assert(w =~= seq!['b', 'l', 'o', 'c', 'k', 'h', 'a', 's', 'h']);
    } else if w == "basefee"@ {
        reveal_strlit("basefee");
        assert(w =~= seq!['b', 'a', 's', 'e', 'f', 'e', 'e']);
    } else if w == "blobhash"@ {
        reveal_strlit("blobhash");
        assert(w =~= seq!['b', 'l', 'o', 'b', 'h', 'a', 's', 'h']);
    } else if w == "blobbasefee"@ {
        reveal_strlit("blobbasefee");
        assert(w =~= seq!['b', 'l', 'o', 'b', 'b', 'a', 's', 'e', 'f', 'e', 'e']);
    } else if w == "caller"@ {
        reveal_strlit("caller");
        assert(w =~= seq!['c', 'a', 'l', 'l', 'e', 'r']);
    } else if w == "callvalue"@ {
        reveal_strlit("callvalue");
        assert(w =~= seq!['c', 'a', 'l', 'l', 'v', 'a', 'l', 'u', 'e']);
    } else if w == "calldataload"@ {
        reveal_strlit("calldataload");
        assert(w =~= seq!['c', 'a', 'l', 'l', 'd', 'a', 't', 'a', 'l', 'o', 'a', 'd']);
    } else if w == "calldatasize"@ {
        reveal_strlit("calldatasize");
        assert(w =~= seq!['c', 'a', 'l', 'l', 'd', 'a', 't', 'a', 's', 'i', 'z', 'e']);
    } else if w == "calldatacopy"@ {
        reveal_strlit("calldatacopy");
        assert(w =~= seq!['c', 'a', 'l', 'l', 'd', 'a', 't', 'a', 'c', 'o', 'p', 'y']);
    } else if w == "codesize"@ {
        reveal_strlit("codesize");
        assert(w =~= seq!['c', 'o', 'd', 'e', 's', 'i', 'z', 'e']);
    } else if w == "codecopy"@ {
        reveal_strlit("codecopy");
        assert(w =~= seq!['c', 'o', 'd', 'e', 'c', 'o', 'p', 'y']);
    } else if w == "coinbase"@ {
        reveal_strlit("coinbase");
        assert(w =~= seq!['c', 'o', 'i', 'n', 'b', 'a', 's', 'e']);
    } else if w == "chainid"@ {
        reveal_strlit("chainid");
        assert(w =~= seq!['c', 'h', 'a', 'i', 'n', 'i', 'd']);
    } else if w == "create"@ {
        reveal_strlit("create");
        assert(w =~= seq!['c', 'r', 'e', 'a', 't', 'e']);
    } else if w == "call"@ {
        reveal_strlit("call");
        assert(w =~= seq!['c', 'a', 'l', 'l']);
    } else if w == "callcode"@ {
        reveal_strlit("callcode");
        assert(w =~= seq!['c', 'a', 'l', 'l', 'c', 'o', 'd', 'e']);
    } else if w == "create2"@ {
        reveal_strlit("create2");
        assert(w =~= seq!['c', 'r', 'e', 'a', 't', 'e', '2']);
    } else if w == "div"@ {
        reveal_strlit("div");
        assert(w =~= seq!['d', 'i', 'v']);
    } else if w == "difficulty"@ {
        reveal_strlit("difficulty");
        assert(w =~= seq!['d', 'i', 'f', 'f', 'i', 'c', 'u', 'l', 't', 'y']);
    } else if w == "dup1"@ {
        reveal_strlit("dup1");
        assert(w =~= seq!['d', 'u', 'p', '1']);
    } else if w == "dup2"@ {
        reveal_strlit("dup2");
        assert(w =~= seq!['d', 'u', 'p', '2']);
    } else if w == "dup3"@ {
        reveal_strlit("dup3");
        assert(w =~= seq!['d', 'u', 'p', '3']);
    } else if w == "dup4"@ {
        reveal_strlit("dup4");
        assert(w =~= seq!['d', 'u', 'p', '4']);
    } else if w == "dup5"@ {
        reveal_strlit("dup5");
        assert(w =~= seq!['d', 'u', 'p', '5']);
    } else if w == "dup6"@ {
        reveal_strlit("dup6");
        assert(w =~= seq!['d', 'u', 'p', '6']);
    } else if w == "dup7"@ {
        reveal_strlit("dup7");
        assert(w =~= seq!['d', 'u', 'p', '7']);
    } else if w == "dup8"@ {
        reveal_strlit("dup8");
        assert(w =~= seq!['d', 'u', 'p', '8']);
    } else if w == "dup9"@ {
        reveal_strlit("dup9");
        assert(w =~= seq!['d', 'u', 'p', '9']);
    } else if w == "dup10"@ {
        reveal_strlit("dup10");
        assert(w =~= seq!['d', 'u', 'p', '1', '0']);
    } else if w == "dup11"@ {
        reveal_strlit("dup11");
        assert(w =~= seq!['d', 'u', 'p', '1', '1']);
    } else if w == "dup12"@ {
        reveal_strlit("dup12");
        assert(w =~= seq!['d', 'u', 'p', '1', '2']);
    } else if w == "dup13"@ {
        reveal_strlit("dup13");
        assert(w =~= seq!['d', 'u', 'p', '1', '3']);
    } else if w == "dup14"@ {
        reveal_strlit("dup14");
        assert(w =~= seq!['d', 'u', 'p', '1', '4']);
    } else if w == "dup15"@ {
        reveal_strlit("dup15");
        assert(w =~= seq!['d', 'u', 'p', '1', '5']);
    } else if w == "dup16"@ {
        reveal_strlit("dup16");
        assert(w =~= seq!['d', 'u', 'p', '1', '6']);
    } else if w == "delegatecall"@ {
        reveal_strlit("delegatecall");
        assert(w =~= seq!['d', 'e', 'l', 'e', 'g', 'a', 't', 'e', 'c', 'a', 'l', 'l']);
    } else if w == "exp"@ {
        reveal_strlit("exp");
        assert(w =~= seq!['e', 'x', 'p']);
    } else if w == "eq"@ {
        reveal_strlit("eq");
        assert(w =~= seq!['e', 'q']);
    } else if w == "extcodesize"@ {
        reveal_strlit("extcodesize");
        assert(w =~= seq!['e', 'x', 't', 'c', 'o', 'd', 'e', 's', 'i', 'z', 'e']);
    } else if w == "extcodecopy"@ {
        reveal_strlit("extcodecopy");
        assert(w =~= seq!['e', 'x', 't', 'c', 'o', 'd', 'e', 'c', 'o', 'p', 'y']);
    } else if w == "extcodehash"@ {
        reveal_strlit("extcodehash");
        assert(w =~= seq!['e', 'x', 't', 'c', 'o', 'd', 'e', 'h', 'a', 's', 'h']);
    } else if w == "gt"@ {
        reveal_strlit("gt");
        assert(w =~= seq!['g', 't']);
    } else if w == "gasprice"@ {
        reveal_strlit("gasprice");
        assert(w =~= seq!['g', 'a', 's', 'p', 'r', 'i', 'c', 'e']);
    } else if w == "gaslimit"@ {
        reveal_strlit("gaslimit");
        assert(w =~= seq!['g', 'a', 's', 'l', 'i', 'm', 'i', 't']);
    } else if w == "gas"@ {
        reveal_strlit("gas");
        assert(w =~= seq!['g', 'a', 's']);
    } else if w == "iszero"@ {
        reveal_strlit("iszero");
        assert(w =~= seq!['i', 's', 'z', 'e', 'r', 'o']);
    } else if w == "invalid"@ {
        reveal_strlit("invalid");
        assert(w =~= seq!['i', 'n', 'v', 'a', 'l', 'i', 'd']);
    } else if w == "jump"@ {
        reveal_strlit("jump");
        assert(w =~= seq!['j', 'u', 'm', 'p']);
    } else if w == "jumpi"@ {
        reveal_strlit("jumpi");
        assert(w =~= seq!['j', 'u', 'm', 'p', 'i']);
    } else if w == "jumpdest"@ {
        reveal_strlit("jumpdest");
        assert(w =~= seq!['j', 'u', 'm', 'p', 'd', 'e', 's', 't']);
    } else if w == "keccak256"@ {
        reveal_strlit("keccak256");
        assert(w =~= seq!['k', 'e', 'c', 'c', 'a', 'k', '2', '5', '6']);
    } else if w == "lt"@ {
        reveal_strlit("lt");
        assert(w =~= seq!['l', 't']);
    } else if w == "log0"@ {
        reveal_strlit("log0");
        assert(w =~= seq!['l', 'o', 'g', '0']);
    } else if w == "log1"@ {
        reveal_strlit("log1");
        assert(w =~= seq!['l', 'o', 'g', '1']);
    } else if w == "log2"@ {
        reveal_strlit("log2");
        assert(w =~= seq!['l', 'o', 'g', '2']);
    } else if w == "log3"@ {
        reveal_strlit("log3");
        assert(w =~= seq!['l', 'o', 'g', '3']);
    } else if w == "log4"@ {
        reveal_strlit("log4");
        assert(w =~= seq!['l', 'o', 'g', '4']);
    } else if w == "mul"@ {
        reveal_strlit("mul");
        assert(w =~= seq!['m', 'u', 'l']);
    } else if w == "mod"@ {
        reveal_strlit("mod");
        assert(w =~= seq!['m', 'o', 'd']);
    } else if w == "mulmod"@ {
        reveal_strlit("mulmod");
        assert(w =~= seq!['m', 'u', 'l', 'm', 'o', 'd']);
    } else if w == "mload"@ {
        reveal_strlit("mload");
        assert(w =~= seq!['m', 'l', 'o', 'a', 'd']);
    } else if w == "mstore"@ {
        reveal_strlit("mstore");
        assert(w =~= seq!['m', 's', 't', 'o', 'r', 'e']);
    } else if w == "mstore8"@ {
        reveal_strlit("mstore8");
        assert(w =~= seq!['m', 's', 't', 'o', 'r', 'e', '8']);
    } else if w == "msize"@ {
        reveal_strlit("msize");
        assert(w =~= seq!['m', 's', 'i', 'z', 'e']);
    } else if w == "mcopy"@ {
        reveal_strlit("mcopy");
        assert(w =~= seq!['m', 'c', 'o', 'p', 'y']);
    } else if w == "not"@ {
        reveal_strlit("not");
        assert(w =~= seq!['n', 'o', 't']);
    } else if w == "number"@ {
        reveal_strlit("number");
        assert(w =~= seq!['n', 'u', 'm', 'b', 'e', 'r']);
    } else if w == "or"@ {
        reveal_strlit("or");
        assert(w =~= seq!['o', 'r']);
    } else if w == "origin"@ {
        reveal_strlit("origin");
        assert(w =~= seq!['o', 'r', 'i', 'g', 'i', 'n']);
    } else if w == "prevrandao"@ {
        reveal_strlit("prevrandao");
        assert(w =~= seq!['p', 'r', 'e', 'v', 'r', 'a', 'n', 'd', 'a', 'o']);
    } else if w == "pop"@ {
        reveal_strlit("pop");
        assert(w =~= seq!['p', 'o', 'p']);
    } else if w == "pc"@ {
        reveal_strlit("pc");
        assert(w =~= seq!['p', 'c']);
    } else if w == "push0"@ {
        reveal_strlit("push0");
        assert(w =~= seq!['p', 'u', 's', 'h', '0']);
    } else if w == "push1"@ {
        reveal_strlit("push1");
        assert(w =~= seq!['p', 'u', 's', 'h', '1']);
    } else if w == "push2"@ {
        reveal_strlit("push2");
        assert(w =~= seq!['p', 'u', 's', 'h', '2']);
    } else if w == "push3"@ {
        reveal_strlit("push3");
        assert(w =~= seq!['p', 'u', 's', 'h', '3']);
    } else if w == "push4"@ {
        reveal_strlit("push4");
        assert(w =~= seq!['p', 'u', 's', 'h', '4']);
    } else if w == "push5"@ {
        reveal_strlit("push5");
        assert(w =~= seq!['p', 'u', 's', 'h', '5']);
    } else if w == "push6"@ {
        reveal_strlit("push6");
        assert(w =~= seq!['p', 'u', 's', 'h', '6']);
    } else if w == "push7"@ {
        reveal_strlit("push7");
        assert(w =~= seq!['p', 'u', 's', 'h', '7']);
    } else if w == "push8"@ {
        reveal_strlit("push8");
        assert(w =~= seq!['p', 'u', 's', 'h', '8']);
    } else if w == "push9"@ {
        reveal_strlit("push9");
        assert(w =~= seq!['p', 'u', 's', 'h', '9']);
    } else if w == "push10"@ {
        reveal_strlit("push10");
        assert(w =~= seq!['p', 'u', 's', 'h', '1', '0']);
    } else if w == "push11"@ {
        reveal_strlit("push11");
        assert(w =~= seq!['p', 'u', 's', 'h', '1', '1']);
    } else if w == "push12"@ {
        reveal_strlit("push12");
        assert(w =~= seq!['p', 'u', 's', 'h', '1', '2']);
    } else if w == "push13"@ {
        reveal_strlit("push13");
        assert(w =~= seq!['p', 'u', 's', 'h', '1', '3']);
    } else if w == "push14"@ {
        reveal_strlit("push14");
        assert(w =~= seq!['p', 'u', 's', 'h', '1', '4']);
    } else if w == "push15"@ {
        reveal_strlit("push15");
        assert(w =~= seq!['p', 'u', 's', 'h', '1', '5']);
    } else if w == "push16"@ {
        reveal_strlit("push16");
        assert(w =~= seq!['p', 'u', 's', 'h', '1', '6']);
    } else if w == "push17"@ {
        reveal_strlit("push17");
        assert(w =~= seq!['p', 'u', 's', 'h', '1', '7']);
    } else if w == "push18"@ {
        reveal_strlit("push18");
        assert(w =~= seq!['p', 'u', 's', 'h', '1', '8']);
    } else if w == "push19"@ {
        reveal_strlit("push19");
        assert(w =~= seq!['p', 'u', 's', 'h', '1', '9']);
    } else if w == "push20"@ {
        reveal_strlit("push20");
        assert(w =~= seq!['p', 'u', 's', 'h', '2', '0']);
    } else if w == "push21"@ {
        reveal_strlit("push21");
        assert(w =~= seq!['p', 'u', 's', 'h', '2', '1']);
    } else if w == "push22"@ {
        reveal_strlit("push22");
        assert(w =~= seq!['p', 'u', 's', 'h', '2', '2']);
    } else if w == "push23"@ {
        reveal_strlit("push23");
        assert(w =~= seq!['p', 'u', 's', 'h', '2', '3']);
    } else if w == "push24"@ {
        reveal_strlit("push24");
        assert(w =~= seq!['p', 'u', 's', 'h', '2', '4']);
    } else if w == "push25"@ {
        reveal_strlit("push25");
        assert(w =~= seq!['p', 'u', 's', 'h', '2', '5']);
    } else if w == "push26"@ {
        reveal_strlit("push26");
        assert(w =~= seq!['p', 'u', 's', 'h', '2', '6']);
    } else if w == "push27"@ {
        reveal_strlit("push27");
        assert(w =~= seq!['p', 'u', 's', 'h', '2', '7']);
    } else if w == "push28"@ {
        reveal_strlit("push28");
        assert(w =~= seq!['p', 'u', 's', 'h', '2', '8']);
    } else if w == "push29"@ {
        reveal_strlit("push29");
        assert(w =~= seq!['p', 'u', 's', 'h', '2', '9']);
    } else if w == "push30"@ {
        reveal_strlit("push30");
        assert(w =~= seq!['p', 'u', 's', 'h', '3', '0']);
    } else if w == "push31"@ {
        reveal_strlit("push31");
        assert(w =~= seq!['p', 'u', 's', 'h', '3', '1']);
    } else if w == "push32"@ {
        reveal_strlit("push32");
        assert(w =~= seq!['p', 'u', 's', 'h', '3', '2']);
    } else if w == "returndatasize"@ {
        reveal_strlit("returndatasize");
        assert(w =~= seq!['r', 'e', 't', 'u', 'r', 'n', 'd', 'a', 't', 'a', 's', 'i', 'z', 'e']);
    } else if w == "returndatacopy"@ {
        reveal_strlit("returndatacopy");
        assert(w =~= seq!['r', 'e', 't', 'u', 'r', 'n', 'd', 'a', 't', 'a', 'c', 'o', 'p', 'y']);
    } else if w == "return"@ {
        reveal_strlit("return");
        assert(w =~= seq!['r', 'e', 't', 'u', 'r', 'n']);
    } else if w == "revert"@ {
        reveal_strlit("revert");
        assert(w =~= seq!['r', 'e', 'v', 'e', 'r', 't']);
    } else if w == "stop"@ {
        reveal_strlit("stop");
        assert(w =~= seq!['s', 't', 'o', 'p']);
    } else if w == "sub"@ {
        reveal_strlit("sub");
        assert(w =~= seq!['s', 'u', 'b']);
    } else if w == "sdiv"@ {
        reveal_strlit("sdiv");
        assert(w =~= seq!['s', 'd', 'i', 'v']);
    } else if w == "smod"@ {
        reveal_strlit("smod");
        assert(w =~= seq!['s', 'm', 'o', 'd']);
    } else if w == "signextend"@ {
        reveal_strlit("signextend");
        assert(w =~= seq!['s', 'i', 'g', 'n', 'e', 'x', 't', 'e', 'n', 'd']);
    } else if w == "slt"@ {
        reveal_strlit("slt");
        assert(w =~= seq!['s', 'l', 't']);
    } else if w == "sgt"@ {
        reveal_strlit("sgt");
        assert(w =~= seq!['s', 'g', 't']);
    } else if w == "shl"@ {
        reveal_strlit("shl");
        assert(w =~= seq!['s', 'h', 'l']);
    } else if w == "shr"@ {
        reveal_strlit("shr");
        assert(w =~= seq!['s', 'h', 'r']);
    } else if w == "sar"@ {
        reveal_strlit("sar");
        assert(w =~= seq!['s', 'a', 'r']);
    } else if w == "sha3"@ {
        reveal_strlit("sha3");
        assert(w =~= seq!['s', 'h', 'a', '3']);
    } else if w == "selfbalance"@ {
        reveal_strlit("selfbalance");
        assert(w =~= seq!['s', 'e', 'l', 'f', 'b', 'a', 'l', 'a', 'n', 'c', 'e']);
    } else if w == "sload"@ {
        reveal_strlit("sload");
        assert(w =~= seq!['s', 'l', 'o', 'a', 'd']);
    } else if w == "sstore"@ {
        reveal_strlit("sstore");
        assert(w =~= seq!['s', 's', 't', 'o', 'r', 'e']);
    } else if w == "swap1"@ {
        reveal_strlit("swap1");
        assert(w =~= seq!['s', 'w', 'a', 'p', '1']);
    } else if w == "swap2"@ {
        reveal_strlit("swap2");
        assert(w =~= seq!['s', 'w', 'a', 'p', '2']);
    } else if w == "swap3"@ {
        reveal_strlit("swap3");
        assert(w =~= seq!['s', 'w', 'a', 'p', '3']);
    } else if w == "swap4"@ {
        reveal_strlit("swap4");
        assert(w =~= seq!['s', 'w', 'a', 'p', '4']);
    } else if w == "swap5"@ {
        reveal_strlit("swap5");
        assert(w =~= seq!['s', 'w', 'a', 'p', '5']);
    } else if w == "swap6"@ {
        reveal_strlit("swap6");
        assert(w =~= seq!['s', 'w', 'a', 'p', '6']);
    } else if w == "swap7"@ {
        reveal_strlit("swap7");
        assert(w =~= seq!['s', 'w', 'a', 'p', '7']);
    } else if w == "swap8"@ {
        reveal_strlit("swap8");
        assert(w =~= seq!['s', 'w', 'a', 'p', '8']);
    } else if w == "swap9"@ {
        reveal_strlit("swap9");
        assert(w =~= seq!['s', 'w', 'a', 'p', '9']);
    } else if w == "swap10"@ {
        reveal_strlit("swap10");
        assert(w =~= seq!['s', 'w', 'a', 'p', '1', '0']);
    } else if w == "swap11"@ {
        reveal_strlit("swap11");
        assert(w =~= seq!['s', 'w', 'a', 'p', '1', '1']);
    } else if w == "swap12"@ {
        reveal_strlit("swap12");
        assert(w =~= seq!['s', 'w', 'a', 'p', '1', '2']);
    } else if w == "swap13"@ {
        reveal_strlit("swap13");
        assert(w =~= seq!['s', 'w', 'a', 'p', '1', '3']);
    } else if w == "swap14"@ {
        reveal_strlit("swap14");
        assert(w =~= seq!['s', 'w', 'a', 'p', '1', '4']);
    } else if w == "swap15"@ {
        reveal_strlit("swap15");
        assert(w =~= seq!['s', 'w', 'a', 'p', '1', '5']);
    } else if w == "swap16"@ {
        reveal_strlit("swap16");
        assert(w =~= seq!['s', 'w', 'a', 'p', '1', '6']);
    } else if w == "staticcall"@ {
        reveal_strlit("staticcall");
        assert(w =~= seq!['s', 't', 'a', 't', 'i', 'c', 'c', 'a', 'l', 'l']);
    } else if w == "selfdestruct"@ {
        reveal_strlit("selfdestruct");
        assert(w =~= seq!['s', 'e', 'l', 'f', 'd', 'e', 's', 't', 'r', 'u', 'c', 't']);
    } else if w == "timestamp"@ {
        reveal_strlit("timestamp");
        assert(w =~= seq!['t', 'i', 'm', 'e', 's', 't', 'a', 'm', 'p']);
    } else if w == "tload"@ {
        reveal_strlit("tload");
        assert(w =~= seq!['t', 'l', 'o', 'a', 'd']);
    } else if w == "tstore"@ {
        reveal_strlit("tstore");
        assert(w =~= seq!['t', 's', 't', 'o', 'r', 'e']);
    } else if w == "xor"@ {
        reveal_strlit("xor");
        assert(w =~= seq!['x', 'o', 'r']);
    }
}

proof fn lemma_mnemonic_chars_0()
    ensures
        "add"@.len() == 3,
        "add"@[0] == 'a' && "add"@[1] == 'd' && "add"@[2] == 'd',
        "addmod"@.len() == 6,
        "addmod"@[0] == 'a' && "addmod"@[1] == 'd' && "addmod"@[2] == 'd' && "addmod"@[3] == 'm' && "addmod"@[4] == 'o' && "addmod"@[5] == 'd',
        "and"@.len() == 3,
        "and"@[0] == 'a' && "and"@[1] == 'n' && "and"@[2] == 'd',
        "address"@.len() == 7,
        "address"@[0] == 'a' && "address"@[1] == 'd' && "address"@[2] == 'd' && "address"@[3] == 'r' && "address"@[4] == 'e' && "address"@[5] == 's' && "address"@[6] == 's',
        "byte"@.len() == 4,
        "byte"@[0] == 'b' && "byte"@[1] == 'y' && "byte"@[2] == 't' && "byte"@[3] == 'e',
        "balance"@.len() == 7,
        "balance"@[0] == 'b' && "balance"@[1] == 'a' && "balance"@[2] == 'l' && "balance"@[3] == 'a' && "balance"@[4] == 'n' && "balance"@[5] == 'c' && "balance"@[6] == 'e',
{
    reveal_strlit("add");
    reveal_strlit("addmod");
    reveal_strlit("and");
    reveal_strlit("address");
    reveal_strlit("byte");
    reveal_strlit("balance");
}

proof fn lemma_mnemonic_chars_1()
    ensures
        "blockhash"@.len() == 9,
        "blockhash"@[0] == 'b' && "blockhash"@[1] == 'l' && "blockhash"@[2] == 'o' && "blockhash"@[3] == 'c' && "blockhash"@[4] == 'k' && "blockhash"@[5] == 'h' && "blockhash"@[6] == 'a' && "blockhash"@[7] == 's' && "blockhash"@[8] == 'h',
        "basefee"@.len() == 7,
        "basefee"@[0] == 'b' && "basefee"@[1] == 'a' && "basefee"@[2] == 's' && "basefee"@[3] == 'e' && "basefee"@[4] == 'f' && "basefee"@[5] == 'e' && "basefee"@[6] == 'e',
        "blobhash"@.len() == 8,
        "blobhash"@[0] == 'b' && "blobhash"@[1] == 'l' && "blobhash"@[2] == 'o' && "blobhash"@[3] == 'b' && "blobhash"@[4] == 'h' && "blobhash"@[5] == 'a' && "blobhash"@[6] == 's' && "blobhash"@[7] == 'h',
        "blobbasefee"@.len() == 11,
        "blobbasefee"@[0] == 'b' && "blobbasefee"@[1] == 'l' && "blobbasefee"@[2] == 'o' && "blobbasefee"@[3] == 'b' && "blobbasefee"@[4] == 'b' && "blobbasefee"@[5] == 'a' && "blobbasefee"@[6] == 's' && "blobbasefee"@[7] == 'e' && "blobbasefee"@[8] == 'f' && "blobbasefee"@[9] == 'e' && "blobbasefee"@[10] == 'e',
        "caller"@.len() == 6,
        "caller"@[0] == 'c' && "caller"@[1] == 'a' && "caller"@[2] == 'l' && "caller"@[3] == 'l' && "caller"@[4] == 'e' && "caller"@[5] == 'r',
        "callvalue"@.len() == 9,
        "callvalue"@[0] == 'c' && "callvalue"@[1] == 'a' && "callvalue"@[2] == 'l' && "callvalue"@[3] == 'l' && "callvalue"@[4] == 'v' && "callvalue"@[5] == 'a' && "callvalue"@[6] == 'l' && "callvalue"@[7] == 'u' && "callvalue"@[8] == 'e',
{
    reveal_strlit("blockhash");
    reveal_strlit("basefee");
    reveal_strlit("blobhash");
    reveal_strlit("blobbasefee");
    reveal_strlit("caller");
    reveal_strlit("callvalue");
}

proof fn lemma_mnemonic_chars_2()
    ensures
        "calldataload"@.len() == 12,
        "calldataload"@[0] == 'c' && "calldataload"@[1] == 'a' && "calldataload"@[2] == 'l' && "calldataload"@[3] == 'l' && "calldataload"@[4] == 'd' && "calldataload"@[5] == 'a' && "calldataload"@[6] == 't' && "calldataload"@[7] == 'a' && "calldataload"@[8] == 'l' && "calldataload"@[9] == 'o' && "calldataload"@[10] == 'a' && "calldataload"@[11] == 'd',
        "calldatasize"@.len() == 12,
        "calldatasize"@[0] == 'c' && "calldatasize"@[1] == 'a' && "calldatasize"@[2] == 'l' && "calldatasize"@[3] == 'l' && "calldatasize"@[4] == 'd' && "calldatasize"@[5] == 'a' && "calldatasize"@[6] == 't' && "calldatasize"@[7] == 'a' && "calldatasize"@[8] == 's' && "calldatasize"@[9] == 'i' && "calldatasize"@[10] == 'z' && "calldatasize"@[11] == 'e',
        "calldatacopy"@.len() == 12,
        "calldatacopy"@[0] == 'c' && "calldatacopy"@[1] == 'a' && "calldatacopy"@[2] == 'l' && "calldatacopy"@[3] == 'l' && "calldatacopy"@[4] == 'd' && "calldatacopy"@[5] == 'a' && "calldatacopy"@[6] == 't' && "calldatacopy"@[7] == 'a' && "calldatacopy"@[8] == 'c' && "calldatacopy"@[9] == 'o' && "calldatacopy"@[10] == 'p' && "calldatacopy"@[11] == 'y',
        "codesize"@.len() == 8,
        "codesize"@[0] == 'c' && "codesize"@[1] == 'o' && "codesize"@[2] == 'd' && "codesize"@[3] == 'e' && "codesize"@[4] == 's' && "codesize"@[5] == 'i' && "codesize"@[6] == 'z' && "codesize"@[7] == 'e',
        "codecopy"@.len() == 8,
        "codecopy"@[0] == 'c' && "codecopy"@[1] == 'o' && "codecopy"@[2] == 'd' && "codecopy"@[3] == 'e' && "codecopy"@[4] == 'c' && "codecopy"@[5] == 'o' && "codecopy"@[6] == 'p' && "codecopy"@[7] == 'y',
        "coinbase"@.len() == 8,
        "coinbase"@[0] == 'c' && "coinbase"@[1] == 'o' && "coinbase"@[2] == 'i' && "coinbase"@[3] == 'n' && "coinbase"@[4] == 'b' && "coinbase"@[5] == 'a' && "coinbase"@[6] == 's' && "coinbase"@[7] == 'e',
{
    reveal_strlit("calldataload");
    reveal_strlit("calldatasize");
    reveal_strlit("calldatacopy");
    reveal_strlit("codesize");
    reveal_strlit("codecopy");
    reveal_strlit("coinbase");
}

proof fn lemma_mnemonic_chars_3()
    ensures
        "chainid"@.len() == 7,
        "chainid"@[0] == 'c' && "chainid"@[1] == 'h' && "chainid"@[2] == 'a' && "chainid"@[3] == 'i' && "chainid"@[4] == 'n' && "chainid"@[5] == 'i' && "chainid"@[6] == 'd',
        "create"@.len() == 6,
        "create"@[0] == 'c' && "create"@[1] == 'r' && "create"@[2] == 'e' && "create"@[3] == 'a' && "create"@[4] == 't' && "create"@[5] == 'e',
        "call"@.len() == 4,
        "call"@[0] == 'c' && "call"@[1] == 'a' && "call"@[2] == 'l' && "call"@[3] == 'l',
        "callcode"@.len() == 8,
        "callcode"@[0] == 'c' && "callcode"@[1] == 'a' && "callcode"@[2] == 'l' && "callcode"@[3] == 'l' && "callcode"@[4] == 'c' && "callcode"@[5] == 'o' && "callcode"@[6] == 'd' && "callcode"@[7] == 'e',
        "create2"@.len() == 7,
        "create2"@[0] == 'c' && "create2"@[1] == 'r' && "create2"@[2] == 'e' && "create2"@[3] == 'a' && "create2"@[4] == 't' && "create2"@[5] == 'e' && "create2"@[6] == '2',
        "div"@.len() == 3,
        "div"@[0] == 'd' && "div"@[1] == 'i' && "div"@[2] == 'v',
{
    reveal_strlit("chainid");
    reveal_strlit("create");
    reveal_strlit("call");
    reveal_strlit("callcode");
    reveal_strlit("create2");
    reveal_strlit("div");
}

proof fn lemma_mnemonic_chars_4()
    ensures
        "difficulty"@.len() == 10,
        "difficulty"@[0] == 'd' && "difficulty"@[1] == 'i' && "difficulty"@[2] == 'f' && "difficulty"@[3] == 'f' && "difficulty"@[4] == 'i' && "difficulty"@[5] == 'c' && "difficulty"@[6] == 'u' && "difficulty"@[7] == 'l' && "difficulty"@[8] == 't' && "difficulty"@[9] == 'y',
        "dup1"@.len() == 4,
        "dup1"@[0] == 'd' && "dup1"@[1] == 'u' && "dup1"@[2] == 'p' && "dup1"@[3] == '1',
        "dup2"@.len() == 4,
        "dup2"@[0] == 'd' && "dup2"@[1] == 'u' && "dup2"@[2] == 'p' && "dup2"@[3] == '2',
        "dup3"@.len() == 4,
        "dup3"@[0] == 'd' && "dup3"@[1] == 'u' && "dup3"@[2] == 'p' && "dup3"@[3] == '3',
        "dup4"@.len() == 4,
        "dup4"@[0] == 'd' && "dup4"@[1] == 'u' && "dup4"@[2] == 'p' && "dup4"@[3] == '4',
        "dup5"@.len() == 4,
        "dup5"@[0] == 'd' && "dup5"@[1] == 'u' && "dup5"@[2] == 'p' && "dup5"@[3] == '5',
{
    reveal_strlit("difficulty");
    reveal_strlit("dup1");
    reveal_strlit("dup2");
    reveal_strlit("dup3");
    reveal_strlit("dup4");
    reveal_strlit("dup5");
}

proof fn lemma_mnemonic_chars_5()
    ensures
        "dup6"@.len() == 4,
        "dup6"@[0] == 'd' && "dup6"@[1] == 'u' && "dup6"@[2] == 'p' && "dup6"@[3] == '6',
        "dup7"@.len() == 4,
        "dup7"@[0] == 'd' && "dup7"@[1] == 'u' && "dup7"@[2] == 'p' && "dup7"@[3] == '7',
        "dup8"@.len() == 4,
        "dup8"@[0] == 'd' && "dup8"@[1] == 'u' && "dup8"@[2] == 'p' && "dup8"@[3] == '8',
        "dup9"@.len() == 4,
        "dup9"@[0] == 'd' && "dup9"@[1] == 'u' && "dup9"@[2] == 'p' && "dup9"@[3] == '9',
        "dup10"@.len() == 5,
        "dup10"@[0] == 'd' && "dup10"@[1] == 'u' && "dup10"@[2] == 'p' && "dup10"@[3] == '1' && "dup10"@[4] == '0',
        "dup11"@.len() == 5,
        "dup11"@[0] == 'd' && "dup11"@[1] == 'u' && "dup11"@[2] == 'p' && "dup11"@[3] == '1' && "dup11"@[4] == '1',
{
    reveal_strlit("dup6");
    reveal_strlit("dup7");
    reveal_strlit("dup8");
    reveal_strlit("dup9");
    reveal_strlit("dup10");
    reveal_strlit("dup11");
}

proof fn lemma_mnemonic_chars_6()
    ensures
        "dup12"@.len() == 5,
        "dup12"@[0] == 'd' && "dup12"@[1] == 'u' && "dup12"@[2] == 'p' && "dup12"@[3] == '1' && "dup12"@[4] == '2',
        "dup13"@.len() == 5,
        "dup13"@[0] == 'd' && "dup13"@[1] == 'u' && "dup13"@[2] == 'p' && "dup13"@[3] == '1' && "dup13"@[4] == '3',
        "dup14"@.len() == 5,
        "dup14"@[0] == 'd' && "dup14"@[1] == 'u' && "dup14"@[2] == 'p' && "dup14"@[3] == '1' && "dup14"@[4] == '4',
        "dup15"@.len() == 5,
        "dup15"@[0] == 'd' && "dup15"@[1] == 'u' && "dup15"@[2] == 'p' && "dup15"@[3] == '1' && "dup15"@[4] == '5',
        "dup16"@.len() == 5,
        "dup16"@[0] == 'd' && "dup16"@[1] == 'u' && "dup16"@[2] == 'p' && "dup16"@[3] == '1' && "dup16"@[4] == '6',
        "delegatecall"@.len() == 12,
        "delegatecall"@[0] == 'd' && "delegatecall"@[1] == 'e' && "delegatecall"@[2] == 'l' && "delegatecall"@[3] == 'e' && "delegatecall"@[4] == 'g' && "delegatecall"@[5] == 'a' && "delegatecall"@[6] == 't' && "delegatecall"@[7] == 'e' && "delegatecall"@[8] == 'c' && "delegatecall"@[9] == 'a' && "delegatecall"@[10] == 'l' && "delegatecall"@[11] == 'l',
{
    reveal_strlit("dup12");
    reveal_strlit("dup13");
    reveal_strlit("dup14");
    reveal_strlit("dup15");
    reveal_strlit("dup16");
    reveal_strlit("delegatecall");
}

proof fn lemma_mnemonic_chars_7()
    ensures
        "exp"@.len() == 3,
        "exp"@[0] == 'e' && "exp"@[1] == 'x' && "exp"@[2] == 'p',
        "eq"@.len() == 2,
        "eq"@[0] == 'e' && "eq"@[1] == 'q',
        "extcodesize"@.len() == 11,
        "extcodesize"@[0] == 'e' && "extcodesize"@[1] == 'x' && "extcodesize"@[2] == 't' && "extcodesize"@[3] == 'c' && "extcodesize"@[4] == 'o' && "extcodesize"@[5] == 'd' && "extcodesize"@[6] == 'e' && "extcodesize"@[7] == 's' && "extcodesize"@[8] == 'i' && "extcodesize"@[9] == 'z' && "extcodesize"@[10] == 'e',
        "extcodecopy"@.len() == 11,
        "extcodecopy"@[0] == 'e' && "extcodecopy"@[1] == 'x' && "extcodecopy"@[2] == 't' && "extcodecopy"@[3] == 'c' && "extcodecopy"@[4] == 'o' && "extcodecopy"@[5] == 'd' && "extcodecopy"@[6] == 'e' && "extcodecopy"@[7] == 'c' && "extcodecopy"@[8] == 'o' && "extcodecopy"@[9] == 'p' && "extcodecopy"@[10] == 'y',
        "extcodehash"@.len() == 11,
        "extcodehash"@[0] == 'e' && "extcodehash"@[1] == 'x' && "extcodehash"@[2] == 't' && "extcodehash"@[3] == 'c' && "extcodehash"@[4] == 'o' && "extcodehash"@[5] == 'd' && "extcodehash"@[6] == 'e' && "extcodehash"@[7] == 'h' && "extcodehash"@[8] == 'a' && "extcodehash"@[9] == 's' && "extcodehash"@[10] == 'h',
        "gt"@.len() == 2,
        "gt"@[0] == 'g' && "gt"@[1] == 't',
{
    reveal_strlit("exp");
    reveal_strlit("eq");
    reveal_strlit("extcodesize");
    reveal_strlit("extcodecopy");
    reveal_strlit("extcodehash");
    reveal_strlit("gt");
}

proof fn lemma_mnemonic_chars_8()
    ensures
        "gasprice"@.len() == 8,
        "gasprice"@[0] == 'g' && "gasprice"@[1] == 'a' && "gasprice"@[2] == 's' && "gasprice"@[3] == 'p' && "gasprice"@[4] == 'r' && "gasprice"@[5] == 'i' && "gasprice"@[6] == 'c' && "gasprice"@[7] == 'e',
        "gaslimit"@.len() == 8,
        "gaslimit"@[0] == 'g' && "gaslimit"@[1] == 'a' && "gaslimit"@[2] == 's' && "gaslimit"@[3] == 'l' && "gaslimit"@[4] == 'i' && "gaslimit"@[5] == 'm' && "gaslimit"@[6] == 'i' && "gaslimit"@[7] == 't',
        "gas"@.len() == 3,
        "gas"@[0] == 'g' && "gas"@[1] == 'a' && "gas"@[2] == 's',
        "iszero"@.len() == 6,
        "iszero"@[0] == 'i' && "iszero"@[1] == 's' && "iszero"@[2] == 'z' && "iszero"@[3] == 'e' && "iszero"@[4] == 'r' && "iszero"@[5] == 'o',
        "invalid"@.len() == 7,
        "invalid"@[0] == 'i' && "invalid"@[1] == 'n' && "invalid"@[2] == 'v' && "invalid"@[3] == 'a' && "invalid"@[4] == 'l' && "invalid"@[5] == 'i' && "invalid"@[6] == 'd',
        "jump"@.len() == 4,
        "jump"@[0] == 'j' && "jump"@[1] == 'u' && "jump"@[2] == 'm' && "jump"@[3] == 'p',
{
    reveal_strlit("gasprice");
    reveal_strlit("gaslimit");
    reveal_strlit("gas");
    reveal_strlit("iszero");
    reveal_strlit("invalid");
    reveal_strlit("jump");
}

proof fn lemma_mnemonic_chars_9()
    ensures
        "jumpi"@.len() == 5,
        "jumpi"@[0] == 'j' && "jumpi"@[1] == 'u' && "jumpi"@[2] == 'm' && "jumpi"@[3] == 'p' && "jumpi"@[4] == 'i',
        "jumpdest"@.len() == 8,
        "jumpdest"@[0] == 'j' && "jumpdest"@[1] == 'u' && "jumpdest"@[2] == 'm' && "jumpdest"@[3] == 'p' && "jumpdest"@[4] == 'd' && "jumpdest"@[5] == 'e' && "jumpdest"@[6] == 's' && "jumpdest"@[7] == 't',
        "keccak256"@.len() == 9,
        "keccak256"@[0] == 'k' && "keccak256"@[1] == 'e' && "keccak256"@[2] == 'c' && "keccak256"@[3] == 'c' && "keccak256"@[4] == 'a' && "keccak256"@[5] == 'k' && "keccak256"@[6] == '2' && "keccak256"@[7] == '5' && "keccak256"@[8] == '6',
        "lt"@.len() == 2,
        "lt"@[0] == 'l' && "lt"@[1] == 't',
        "log0"@.len() == 4,
        "log0"@[0] == 'l' && "log0"@[1] == 'o' && "log0"@[2] == 'g' && "log0"@[3] == '0',
        "log1"@.len() == 4,
        "log1"@[0] == 'l' && "log1"@[1] == 'o' && "log1"@[2] == 'g' && "log1"@[3] == '1',
{
    reveal_strlit("jumpi");
    reveal_strlit("jumpdest");
    reveal_strlit("keccak256");
    reveal_strlit("lt");
    reveal_strlit("log0");
    reveal_strlit("log1");
}

proof fn lemma_mnemonic_chars_10()
    ensures
        "log2"@.len() == 4,
        "log2"@[0] == 'l' && "log2"@[1] == 'o' && "log2"@[2] == 'g' && "log2"@[3] == '2',
        "log3"@.len() == 4,
        "log3"@[0] == 'l' && "log3"@[1] == 'o' && "log3"@[2] == 'g' && "log3"@[3] == '3',
        "log4"@.len() == 4,
        "log4"@[0] == 'l' && "log4"@[1] == 'o' && "log4"@[2] == 'g' && "log4"@[3] == '4',
        "mul"@.len() == 3,
        "mul"@[0] == 'm' && "mul"@[1] == 'u' && "mul"@[2] == 'l',
        "mod"@.len() == 3,
        "mod"@[0] == 'm' && "mod"@[1] == 'o' && "mod"@[2] == 'd',
        "mulmod"@.len() == 6,
        "mulmod"@[0] == 'm' && "mulmod"@[1] == 'u' && "mulmod"@[2] == 'l' && "mulmod"@[3] == 'm' && "mulmod"@[4] == 'o' && "mulmod"@[5] == 'd',
{
    reveal_strlit("log2");
    reveal_strlit("log3");
    reveal_strlit("log4");
    reveal_strlit("mul");
    reveal_strlit("mod");
    reveal_strlit("mulmod");
}

proof fn lemma_mnemonic_chars_11()
    ensures
        "mload"@.len() == 5,
        "mload"@[0] == 'm' && "mload"@[1] == 'l' && "mload"@[2] == 'o' && "mload"@[3] == 'a' && "mload"@[4] == 'd',
        "mstore"@.len() == 6,
        "mstore"@[0] == 'm' && "mstore"@[1] == 's' && "mstore"@[2] == 't' && "mstore"@[3] == 'o' && "mstore"@[4] == 'r' && "mstore"@[5] == 'e',
        "mstore8"@.len() == 7,
        "mstore8"@[0] == 'm' && "mstore8"@[1] == 's' && "mstore8"@[2] == 't' && "mstore8"@[3] == 'o' && "mstore8"@[4] == 'r' && "mstore8"@[5] == 'e' && "mstore8"@[6] == '8',
        "msize"@.len() == 5,
        "msize"@[0] == 'm' && "msize"@[1] == 's' && "msize"@[2] == 'i' && "msize"@[3] == 'z' && "msize"@[4] == 'e',
        "mcopy"@.len() == 5,
        "mcopy"@[0] == 'm' && "mcopy"@[1] == 'c' && "mcopy"@[2] == 'o' && "mcopy"@[3] == 'p' && "mcopy"@[4] == 'y',
        "not"@.len() == 3,
        "not"@[0] == 'n' && "not"@[1] == 'o' && "not"@[2] == 't',
{
    reveal_strlit("mload");
    reveal_strlit("mstore");
    reveal_strlit("mstore8");
    reveal_strlit("msize");
    reveal_strlit("mcopy");
    reveal_strlit("not");
}

proof fn lemma_mnemonic_chars_12()
    ensures
        "number"@.len() == 6,
        "number"@[0] == 'n' && "number"@[1] == 'u' && "number"@[2] == 'm' && "number"@[3] == 'b' && "number"@[4] == 'e' && "number"@[5] == 'r',
        "or"@.len() == 2,
        "or"@[0] == 'o' && "or"@[1] == 'r',
        "origin"@.len() == 6,
        "origin"@[0] == 'o' && "origin"@[1] == 'r' && "origin"@[2] == 'i' && "origin"@[3] == 'g' && "origin"@[4] == 'i' && "origin"@[5] == 'n',
        "prevrandao"@.len() == 10,
        "prevrandao"@[0] == 'p' && "prevrandao"@[1] == 'r' && "prevrandao"@[2] == 'e' && "prevrandao"@[3] == 'v' && "prevrandao"@[4] == 'r' && "prevrandao"@[5] == 'a' && "prevrandao"@[6] == 'n' && "prevrandao"@[7] == 'd' && "prevrandao"@[8] == 'a' && "prevrandao"@[9] == 'o',
        "pop"@.len() == 3,
        "pop"@[0] == 'p' && "pop"@[1] == 'o' && "pop"@[2] == 'p',
        "pc"@.len() == 2,
        "pc"@[0] == 'p' && "pc"@[1] == 'c',
{
    reveal_strlit("number");
    reveal_strlit("or");
    reveal_strlit("origin");
    reveal_strlit("prevrandao");
    reveal_strlit("pop");
    reveal_strlit("pc");
}

proof fn lemma_mnemonic_chars_13()
    ensures
        "push0"@.len() == 5,
        "push0"@[0] == 'p' && "push0"@[1] == 'u' && "push0"@[2] == 's' && "push0"@[3] == 'h' && "push0"@[4] == '0',
        "push1"@.len() == 5,
        "push1"@[0] == 'p' && "push1"@[1] == 'u' && "push1"@[2] == 's' && "push1"@[3] == 'h' && "push1"@[4] == '1',
        "push2"@.len() == 5,
        "push2"@[0] == 'p' && "push2"@[1] == 'u' && "push2"@[2] == 's' && "push2"@[3] == 'h' && "push2"@[4] == '2',
        "push3"@.len() == 5,
        "push3"@[0] == 'p' && "push3"@[1] == 'u' && "push3"@[2] == 's' && "push3"@[3] == 'h' && "push3"@[4] == '3',
        "push4"@.len() == 5,
        "push4"@[0] == 'p' && "push4"@[1] == 'u' && "push4"@[2] == 's' && "push4"@[3] == 'h' && "push4"@[4] == '4',
        "push5"@.len() == 5,
        "push5"@[0] == 'p' && "push5"@[1] == 'u' && "push5"@[2] == 's' && "push5"@[3] == 'h' && "push5"@[4] == '5',
{
    reveal_strlit("push0");
    reveal_strlit("push1");
    reveal_strlit("push2");
    reveal_strlit("push3");
    reveal_strlit("push4");
    reveal_strlit("push5");
}

proof fn lemma_mnemonic_chars_14()
    ensures
        "push6"@.len() == 5,
        "push6"@[0] == 'p' && "push6"@[1] == 'u' && "push6"@[2] == 's' && "push6"@[3] == 'h' && "push6"@[4] == '6',
        "push7"@.len() == 5,
        "push7"@[0] == 'p' && "push7"@[1] == 'u' && "push7"@[2] == 's' && "push7"@[3] == 'h' && "push7"@[4] == '7',
        "push8"@.len() == 5,
        "push8"@[0] == 'p' && "push8"@[1] == 'u' && "push8"@[2] == 's' && "push8"@[3] == 'h' && "push8"@[4] == '8',
        "push9"@.len() == 5,
        "push9"@[0] == 'p' && "push9"@[1] == 'u' && "push9"@[2] == 's' && "push9"@[3] == 'h' && "push9"@[4] == '9',
        "push10"@.len() == 6,
        "push10"@[0] == 'p' && "push10"@[1] == 'u' && "push10"@[2] == 's' && "push10"@[3] == 'h' && "push10"@[4] == '1' && "push10"@[5] == '0',
        "push11"@.len() == 6,
        "push11"@[0] == 'p' && "push11"@[1] == 'u' && "push11"@[2] == 's' && "push11"@[3] == 'h' && "push11"@[4] == '1' && "push11"@[5] == '1',
{
    reveal_strlit("push6");
    reveal_strlit("push7");
    reveal_strlit("push8");
    reveal_strlit("push9");
    reveal_strlit("push10");
    reveal_strlit("push11");
}

proof fn lemma_mnemonic_chars_15()
    ensures
        "push12"@.len() == 6,
        "push12"@[0] == 'p' && "push12"@[1] == 'u' && "push12"@[2] == 's' && "push12"@[3] == 'h' && "push12"@[4] == '1' && "push12"@[5] == '2',
        "push13"@.len() == 6,
        "push13"@[0] == 'p' && "push13"@[1] == 'u' && "push13"@[2] == 's' && "push13"@[3] == 'h' && "push13"@[4] == '1' && "push13"@[5] == '3',
        "push14"@.len() == 6,
        "push14"@[0] == 'p' && "push14"@[1] == 'u' && "push14"@[2] == 's' && "push14"@[3] == 'h' && "push14"@[4] == '1' && "push14"@[5] == '4',
        "push15"@.len() == 6,
        "push15"@[0] == 'p' && "push15"@[1] == 'u' && "push15"@[2] == 's' && "push15"@[3] == 'h' && "push15"@[4] == '1' && "push15"@[5] == '5',
        "push16"@.len() == 6,
        "push16"@[0] == 'p' && "push16"@[1] == 'u' && "push16"@[2] == 's' && "push16"@[3] == 'h' && "push16"@[4] == '1' && "push16"@[5] == '6',
        "push17"@.len() == 6,
        "push17"@[0] == 'p' && "push17"@[1] == 'u' && "push17"@[2] == 's' && "push17"@[3] == 'h' && "push17"@[4] == '1' && "push17"@[5] == '7',
{
    reveal_strlit("push12");
    reveal_strlit("push13");
    reveal_strlit("push14");
    reveal_strlit("push15");
    reveal_strlit("push16");
    reveal_strlit("push17");
}

proof fn lemma_mnemonic_chars_16()
    ensures
        "push18"@.len() == 6,
        "push18"@[0] == 'p' && "push18"@[1] == 'u' && "push18"@[2] == 's' && "push18"@[3] == 'h' && "push18"@[4] == '1' && "push18"@[5] == '8',
        "push19"@.len() == 6,
        "push19"@[0] == 'p' && "push19"@[1] == 'u' && "push19"@[2] == 's' && "push19"@[3] == 'h' && "push19"@[4] == '1' && "push19"@[5] == '9',
        "push20"@.len() == 6,
        "push20"@[0] == 'p' && "push20"@[1] == 'u' && "push20"@[2] == 's' && "push20"@[3] == 'h' && "push20"@[4] == '2' && "push20"@[5] == '0',
        "push21"@.len() == 6,
        "push21"@[0] == 'p' && "push21"@[1] == 'u' && "push21"@[2] == 's' && "push21"@[3] == 'h' && "push21"@[4] == '2' && "push21"@[5] == '1',
        "push22"@.len() == 6,
        "push22"@[0] == 'p' && "push22"@[1] == 'u' && "push22"@[2] == 's' && "push22"@[3] == 'h' && "push22"@[4] == '2' && "push22"@[5] == '2',
        "push23"@.len() == 6,
        "push23"@[0] == 'p' && "push23"@[1] == 'u' && "push23"@[2] == 's' && "push23"@[3] == 'h' && "push23"@[4] == '2' && "push23"@[5] == '3',
{
    reveal_strlit("push18");
    reveal_strlit("push19");
    reveal_strlit("push20");
    reveal_strlit("push21");
    reveal_strlit("push22");
    reveal_strlit("push23");
}

proof fn lemma_mnemonic_chars_17()
    ensures
        "push24"@.len() == 6,
        "push24"@[0] == 'p' && "push24"@[1] == 'u' && "push24"@[2] == 's' && "push24"@[3] == 'h' && "push24"@[4] == '2' && "push24"@[5] == '4',
        "push25"@.len() == 6,
        "push25"@[0] == 'p' && "push25"@[1] == 'u' && "push25"@[2] == 's' && "push25"@[3] == 'h' && "push25"@[4] == '2' && "push25"@[5] == '5',
        "push26"@.len() == 6,
        "push26"@[0] == 'p' && "push26"@[1] == 'u' && "push26"@[2] == 's' && "push26"@[3] == 'h' && "push26"@[4] == '2' && "push26"@[5] == '6',
        "push27"@.len() == 6,
        "push27"@[0] == 'p' && "push27"@[1] == 'u' && "push27"@[2] == 's' && "push27"@[3] == 'h' && "push27"@[4] == '2' && "push27"@[5] == '7',
        "push28"@.len() == 6,
        "push28"@[0] == 'p' && "push28"@[1] == 'u' && "push28"@[2] == 's' && "push28"@[3] == 'h' && "push28"@[4] == '2' && "push28"@[5] == '8',
        "push29"@.len() == 6,
        "push29"@[0] == 'p' && "push29"@[1] == 'u' && "push29"@[2] == 's' && "push29"@[3] == 'h' && "push29"@[4] == '2' && "push29"@[5] == '9',
{
    reveal_strlit("push24");
    reveal_strlit("push25");
    reveal_strlit("push26");
    reveal_strlit("push27");
    reveal_strlit("push28");
    reveal_strlit("push29");
}

proof fn lemma_mnemonic_chars_18()
    ensures
        "push30"@.len() == 6,
        "push30"@[0] == 'p' && "push30"@[1] == 'u' && "push30"@[2] == 's' && "push30"@[3] == 'h' && "push30"@[4] == '3' && "push30"@[5] == '0',
        "push31"@.len() == 6,
        "push31"@[0] == 'p' && "push31"@[1] == 'u' && "push31"@[2] == 's' && "push31"@[3] == 'h' && "push31"@[4] == '3' && "push31"@[5] == '1',
        "push32"@.len() == 6,
        "push32"@[0] == 'p' && "push32"@[1] == 'u' && "push32"@[2] == 's' && "push32"@[3] == 'h' && "push32"@[4] == '3' && "push32"@[5] == '2',
        "returndatasize"@.len() == 14,
        "returndatasize"@[0] == 'r' && "returndatasize"@[1] == 'e' && "returndatasize"@[2] == 't' && "returndatasize"@[3] == 'u' && "returndatasize"@[4] == 'r' && "returndatasize"@[5] == 'n' && "returndatasize"@[6] == 'd' && "returndatasize"@[7] == 'a' && "returndatasize"@[8] == 't' && "returndatasize"@[9] == 'a' && "returndatasize"@[10] == 's' && "returndatasize"@[11] == 'i' && "returndatasize"@[12] == 'z' && "returndatasize"@[13] == 'e',
        "returndatacopy"@.len() == 14,
        "returndatacopy"@[0] == 'r' && "returndatacopy"@[1] == 'e' && "returndatacopy"@[2] == 't' && "returndatacopy"@[3] == 'u' && "returndatacopy"@[4] == 'r' && "returndatacopy"@[5] == 'n' && "returndatacopy"@[6] == 'd' && "returndatacopy"@[7] == 'a' && "returndatacopy"@[8] == 't' && "returndatacopy"@[9] == 'a' && "returndatacopy"@[10] == 'c' && "returndatacopy"@[11] == 'o' && "returndatacopy"@[12] == 'p' && "returndatacopy"@[13] == 'y',
        "return"@.len() == 6,
        "return"@[0] == 'r' && "return"@[1] == 'e' && "return"@[2] == 't' && "return"@[3] == 'u' && "return"@[4] == 'r' && "return"@[5] == 'n',
{
    reveal_strlit("push30");
    reveal_strlit("push31");
    reveal_strlit("push32");
    reveal_strlit("returndatasize");
    reveal_strlit("returndatacopy");
    reveal_strlit("return");
}

proof fn lemma_mnemonic_chars_19()
    ensures
        "revert"@.len() == 6,
        "revert"@[0] == 'r' && "revert"@[1] == 'e' && "revert"@[2] == 'v' && "revert"@[3] == 'e' && "revert"@[4] == 'r' && "revert"@[5] == 't',
        "stop"@.len() == 4,
        "stop"@[0] == 's' && "stop"@[1] == 't' && "stop"@[2] == 'o' && "stop"@[3] == 'p',
        "sub"@.len() == 3,
        "sub"@[0] == 's' && "sub"@[1] == 'u' && "sub"@[2] == 'b',
        "sdiv"@.len() == 4,
        "sdiv"@[0] == 's' && "sdiv"@[1] == 'd' && "sdiv"@[2] == 'i' && "sdiv"@[3] == 'v',
        "smod"@.len() == 4,
        "smod"@[0] == 's' && "smod"@[1] == 'm' && "smod"@[2] == 'o' && "smod"@[3] == 'd',
        "signextend"@.len() == 10,
        "signextend"@[0] == 's' && "signextend"@[1] == 'i' && "signextend"@[2] == 'g' && "signextend"@[3] == 'n' && "signextend"@[4] == 'e' && "signextend"@[5] == 'x' && "signextend"@[6] == 't' && "signextend"@[7] == 'e' && "signextend"@[8] == 'n' && "signextend"@[9] == 'd',
{
    reveal_strlit("revert");
    reveal_strlit("stop");
    reveal_strlit("sub");
    reveal_strlit("sdiv");
    reveal_strlit("smod");
    reveal_strlit("signextend");
}

proof fn lemma_mnemonic_chars_20()
    ensures
        "slt"@.len() == 3,
        "slt"@[0] == 's' && "slt"@[1] == 'l' && "slt"@[2] == 't',
        "sgt"@.len() == 3,
        "sgt"@[0] == 's' && "sgt"@[1] == 'g' && "sgt"@[2] == 't',
        "shl"@.len() == 3,
        "shl"@[0] == 's' && "shl"@[1] == 'h' && "shl"@[2] == 'l',
        "shr"@.len() == 3,
        "shr"@[0] == 's' && "shr"@[1] == 'h' && "shr"@[2] == 'r',
        "sar"@.len() == 3,
        "sar"@[0] == 's' && "sar"@[1] == 'a' && "sar"@[2] == 'r',
        "sha3"@.len() == 4,
        "sha3"@[0] == 's' && "sha3"@[1] == 'h' && "sha3"@[2] == 'a' && "sha3"@[3] == '3',
{
    reveal_strlit("slt");
    reveal_strlit("sgt");
    reveal_strlit("shl");
    reveal_strlit("shr");
    reveal_strlit("sar");
    reveal_strlit("sha3");
}

proof fn lemma_mnemonic_chars_21()
    ensures
        "selfbalance"@.len() == 11,
        "selfbalance"@[0] == 's' && "selfbalance"@[1] == 'e' && "selfbalance"@[2] == 'l' && "selfbalance"@[3] == 'f' && "selfbalance"@[4] == 'b' && "selfbalance"@[5] == 'a' && "selfbalance"@[6] == 'l' && "selfbalance"@[7] == 'a' && "selfbalance"@[8] == 'n' && "selfbalance"@[9] == 'c' && "selfbalance"@[10] == 'e',
        "sload"@.len() == 5,
        "sload"@[0] == 's' && "sload"@[1] == 'l' && "sload"@[2] == 'o' && "sload"@[3] == 'a' && "sload"@[4] == 'd',
        "sstore"@.len() == 6,
        "sstore"@[0] == 's' && "sstore"@[1] == 's' && "sstore"@[2] == 't' && "sstore"@[3] == 'o' && "sstore"@[4] == 'r' && "sstore"@[5] == 'e',
        "swap1"@.len() == 5,
        "swap1"@[0] == 's' && "swap1"@[1] == 'w' && "swap1"@[2] == 'a' && "swap1"@[3] == 'p' && "swap1"@[4] == '1',
        "swap2"@.len() == 5,
        "swap2"@[0] == 's' && "swap2"@[1] == 'w' && "swap2"@[2] == 'a' && "swap2"@[3] == 'p' && "swap2"@[4] == '2',
        "swap3"@.len() == 5,
        "swap3"@[0] == 's' && "swap3"@[1] == 'w' && "swap3"@[2] == 'a' && "swap3"@[3] == 'p' && "swap3"@[4] == '3',
{
    reveal_strlit("selfbalance");
    reveal_strlit("sload");
    reveal_strlit("sstore");
    reveal_strlit("swap1");
    reveal_strlit("swap2");
    reveal_strlit("swap3");
}

proof fn lemma_mnemonic_chars_22()
    ensures
        "swap4"@.len() == 5,
        "swap4"@[0] == 's' && "swap4"@[1] == 'w' && "swap4"@[2] == 'a' && "swap4"@[3] == 'p' && "swap4"@[4] == '4',
        "swap5"@.len() == 5,
        "swap5"@[0] == 's' && "swap5"@[1] == 'w' && "swap5"@[2] == 'a' && "swap5"@[3] == 'p' && "swap5"@[4] == '5',
        "swap6"@.len() == 5,
        "swap6"@[0] == 's' && "swap6"@[1] == 'w' && "swap6"@[2] == 'a' && "swap6"@[3] == 'p' && "swap6"@[4] == '6',
        "swap7"@.len() == 5,
        "swap7"@[0] == 's' && "swap7"@[1] == 'w' && "swap7"@[2] == 'a' && "swap7"@[3] == 'p' && "swap7"@[4] == '7',
        "swap8"@.len() == 5,
        "swap8"@[0] == 's' && "swap8"@[1] == 'w' && "swap8"@[2] == 'a' && "swap8"@[3] == 'p' && "swap8"@[4] == '8',
        "swap9"@.len() == 5,
        "swap9"@[0] == 's' && "swap9"@[1] == 'w' && "swap9"@[2] == 'a' && "swap9"@[3] == 'p' && "swap9"@[4] == '9',
{
    reveal_strlit("swap4");
    reveal_strlit("swap5");
    reveal_strlit("swap6");
    reveal_strlit("swap7");
    reveal_strlit("swap8");
    reveal_strlit("swap9");
}

proof fn lemma_mnemonic_chars_23()
    ensures
        "swap10"@.len() == 6,
        "swap10"@[0] == 's' && "swap10"@[1] == 'w' && "swap10"@[2] == 'a' && "swap10"@[3] == 'p' && "swap10"@[4] == '1' && "swap10"@[5] == '0',
        "swap11"@.len() == 6,
        "swap11"@[0] == 's' && "swap11"@[1] == 'w' && "swap11"@[2] == 'a' && "swap11"@[3] == 'p' && "swap11"@[4] == '1' && "swap11"@[5] == '1',
        "swap12"@.len() == 6,
        "swap12"@[0] == 's' && "swap12"@[1] == 'w' && "swap12"@[2] == 'a' && "swap12"@[3] == 'p' && "swap12"@[4] == '1' && "swap12"@[5] == '2',
        "swap13"@.len() == 6,
        "swap13"@[0] == 's' && "swap13"@[1] == 'w' && "swap13"@[2] == 'a' && "swap13"@[3] == 'p' && "swap13"@[4] == '1' && "swap13"@[5] == '3',
        "swap14"@.len() == 6,
        "swap14"@[0] == 's' && "swap14"@[1] == 'w' && "swap14"@[2] == 'a' && "swap14"@[3] == 'p' && "swap14"@[4] == '1' && "swap14"@[5] == '4',
        "swap15"@.len() == 6,
        "swap15"@[0] == 's' && "swap15"@[1] == 'w' && "swap15"@[2] == 'a' && "swap15"@[3] == 'p' && "swap15"@[4] == '1' && "swap15"@[5] == '5',
{
    reveal_strlit("swap10");
    reveal_strlit("swap11");
    reveal_strlit("swap12");
    reveal_strlit("swap13");
    reveal_strlit("swap14");
    reveal_strlit("swap15");
}

proof fn lemma_mnemonic_chars_24()
    ensures
        "swap16"@.len() == 6,
        "swap16"@[0] == 's' && "swap16"@[1] == 'w' && "swap16"@[2] == 'a' && "swap16"@[3] == 'p' && "swap16"@[4] == '1' && "swap16"@[5] == '6',
        "staticcall"@.len() == 10,
        "staticcall"@[0] == 's' && "staticcall"@[1] == 't' && "staticcall"@[2] == 'a' && "staticcall"@[3] == 't' && "staticcall"@[4] == 'i' && "staticcall"@[5] == 'c' && "staticcall"@[6] == 'c' && "staticcall"@[7] == 'a' && "staticcall"@[8] == 'l' && "staticcall"@[9] == 'l',
        "selfdestruct"@.len() == 12,
        "selfdestruct"@[0] == 's' && "selfdestruct"@[1] == 'e' && "selfdestruct"@[2] == 'l' && "selfdestruct"@[3] == 'f' && "selfdestruct"@[4] == 'd' && "selfdestruct"@[5] == 'e' && "selfdestruct"@[6] == 's' && "selfdestruct"@[7] == 't' && "selfdestruct"@[8] == 'r' && "selfdestruct"@[9] == 'u' && "selfdestruct"@[10] == 'c' && "selfdestruct"@[11] == 't',
        "timestamp"@.len() == 9,
        "timestamp"@[0] == 't' && "timestamp"@[1] == 'i' && "timestamp"@[2] == 'm' && "timestamp"@[3] == 'e' && "timestamp"@[4] == 's' && "timestamp"@[5] == 't' && "timestamp"@[6] == 'a' && "timestamp"@[7] == 'm' && "timestamp"@[8] == 'p',
        "tload"@.len() == 5,
        "tload"@[0] == 't' && "tload"@[1] == 'l' && "tload"@[2] == 'o' && "tload"@[3] == 'a' && "tload"@[4] == 'd',
        "tstore"@.len() == 6,
        "tstore"@[0] == 't' && "tstore"@[1] == 's' && "tstore"@[2] == 't' && "tstore"@[3] == 'o' && "tstore"@[4] == 'r' && "tstore"@[5] == 'e',
{
    reveal_strlit("swap16");
    reveal_strlit("staticcall");
    reveal_strlit("selfdestruct");
    reveal_strlit("timestamp");
    reveal_strlit("tload");
    reveal_strlit("tstore");
}

proof fn lemma_mnemonic_chars_25()
    ensures
        "xor"@.len() == 3,
        "xor"@[0] == 'x' && "xor"@[1] == 'o' && "xor"@[2] == 'r',
{
    reveal_strlit("xor");
}

#[verifier::spinoff_prover]
#[verifier::rlimit(50)]
proof fn lemma_opcode_names_read_back(b: u8, w: Seq<char>)
    requires
        opcode_name(b) == Some(w) || opcode_alias(b) == Some(w),
    ensures
        opcode_of(w) == Some(b),
{
    lemma_mnemonic_chars_0();
    lemma_mnemonic_chars_1();
    lemma_mnemonic_chars_2();
    lemma_mnemonic_chars_3();
    lemma_mnemonic_chars_4();
    lemma_mnemonic_chars_5();
    lemma_mnemonic_chars_6();
    lemma_mnemonic_chars_7();
    lemma_mnemonic_chars_8();
    lemma_mnemonic_chars_9();
    lemma_mnemonic_chars_10();
    lemma_mnemonic_chars_11();
    lemma_mnemonic_chars_12();
    lemma_mnemonic_chars_13();
    lemma_mnemonic_chars_14();
    lemma_mnemonic_chars_15();
    lemma_mnemonic_chars_16();
    lemma_mnemonic_chars_17();
    lemma_mnemonic_chars_18();
    lemma_mnemonic_chars_19();
    lemma_mnemonic_chars_20();
    lemma_mnemonic_chars_21();
    lemma_mnemonic_chars_22();
    lemma_mnemonic_chars_23();
    lemma_mnemonic_chars_24();
    lemma_mnemonic_chars_25();
    if b == 0x00u8 {
        assert("stop"@ =~= seq!['s', 't', 'o', 'p']);
    } else if b == 0x01u8 {
        assert("add"@ =~= seq!['a', 'd', 'd']);
    } else if b == 0x02u8 {
        assert("mul"@ =~= seq!['m', 'u', 'l']);
    } else if b == 0x03u8 {
        assert("sub"@ =~= seq!['s', 'u', 'b']);
    } else if b == 0x04u8 {
        assert("div"@ =~= seq!['d', 'i', 'v']);
    } else if b == 0x05u8 {
        assert("sdiv"@ =~= seq!['s', 'd', 'i', 'v']);
    } else if b == 0x06u8 {
        assert("mod"@ =~= seq!['m', 'o', 'd']);
    } else if b == 0x07u8 {
        assert("smod"@ =~= seq!['s', 'm', 'o', 'd']);
    } else if b == 0x08u8 {
        assert("addmod"@ =~= seq!['a', 'd', 'd', 'm', 'o', 'd']);
    } else if b == 0x09u8 {
        assert("mulmod"@ =~= seq!['m', 'u', 'l', 'm', 'o', 'd']);
    } else if b == 0x0au8 {
        assert("exp"@ =~= seq!['e', 'x', 'p']);
    } else if b == 0x0bu8 {
        assert("signextend"@ =~= seq!['s', 'i', 'g', 'n', 'e', 'x', 't', 'e', 'n', 'd']);
    } else if b == 0x10u8 {
        assert("lt"@ =~= seq!['l', 't']);
    } else if b == 0x11u8 {
        assert("gt"@ =~= seq!['g', 't']);
    } else if b == 0x12u8 {
        assert("slt"@ =~= seq!['s', 'l', 't']);
    } else if b == 0x13u8 {
        assert("sgt"@ =~= seq!['s', 'g', 't']);
    } else if b == 0x14u8 {
        assert("eq"@ =~= seq!['e', 'q']);
    } else if b == 0x15u8 {
        assert("iszero"@ =~= seq!['i', 's', 'z', 'e', 'r', 'o']);
    } else if b == 0x16u8 {
        assert("and"@ =~= seq!['a', 'n', 'd']);
    } else if b == 0x17u8 {
        assert("or"@ =~= seq!['o', 'r']);
    } else if b == 0x18u8 {
        assert("xor"@ =~= seq!['x', 'o', 'r']);
    } else if b == 0x19u8 {
        assert("not"@ =~= seq!['n', 'o', 't']);
    } else if b == 0x1au8 {
        assert("byte"@ =~= seq!['b', 'y', 't', 'e']);
    } else if b == 0x1bu8 {
        assert("shl"@ =~= seq!['s', 'h', 'l']);
    } else if b == 0x1cu8 {
        assert("shr"@ =~= seq!['s', 'h', 'r']);
    } else if b == 0x1du8 {
        assert("sar"@ =~= seq!['s', 'a', 'r']);
    } else if b == 0x20u8 {
        assert("keccak256"@ =~= seq!['k', 'e', 'c', 'c', 'a', 'k', '2', '5', '6']);
        assert("sha3"@ =~= seq!['s', 'h', 'a', '3']);
    } else if b == 0x30u8 {
        assert("address"@ =~= seq!['a', 'd', 'd', 'r', 'e', 's', 's']);
    } else if b == 0x31u8 {
        assert("balance"@ =~= seq!['b', 'a', 'l', 'a', 'n', 'c', 'e']);
    } else if b == 0x32u8 {
        assert("origin"@ =~= seq!['o', 'r', 'i', 'g', 'i', 'n']);
    } else if b == 0x33u8 {
        assert("caller"@ =~= seq!['c', 'a', 'l', 'l', 'e', 'r']);
    } else if b == 0x34u8 {
        assert("callvalue"@ =~= seq!['c', 'a', 'l', 'l', 'v', 'a', 'l', 'u', 'e']);
    } else if b == 0x35u8 {
        assert("calldataload"@ =~= seq!['c', 'a', 'l', 'l', 'd', 'a', 't', 'a', 'l', 'o', 'a', 'd']);
    } else if b == 0x36u8 {
        assert("calldatasize"@ =~= seq!['c', 'a', 'l', 'l', 'd', 'a', 't', 'a', 's', 'i', 'z', 'e']);
    } else if b == 0x37u8 {
        assert("calldatacopy"@ =~= seq!['c', 'a', 'l', 'l', 'd', 'a', 't', 'a', 'c', 'o', 'p', 'y']);
    } else if b == 0x38u8 {
        assert("codesize"@ =~= seq!['c', 'o', 'd', 'e', 's', 'i', 'z', 'e']);
    } else if b == 0x39u8 {
        assert("codecopy"@ =~= seq!['c', 'o', 'd', 'e', 'c', 'o', 'p', 'y']);
    } else if b == 0x3au8 {
        assert("gasprice"@ =~= seq!['g', 'a', 's', 'p', 'r', 'i', 'c', 'e']);
    } else if b == 0x3bu8 {
        assert("extcodesize"@ =~= seq!['e', 'x', 't', 'c', 'o', 'd', 'e', 's', 'i', 'z', 'e']);
    } else if b == 0x3cu8 {
        assert("extcodecopy"@ =~= seq!['e', 'x', 't', 'c', 'o', 'd', 'e', 'c', 'o', 'p', 'y']);
    } else if b == 0x3du8 {
        assert("returndatasize"@ =~= seq!['r', 'e', 't', 'u', 'r', 'n', 'd', 'a', 't', 'a', 's', 'i', 'z', 'e']);
    } else if b == 0x3eu8 {
        assert("returndatacopy"@ =~= seq!['r', 'e', 't', 'u', 'r', 'n', 'd', 'a', 't', 'a', 'c', 'o', 'p', 'y']);
    } else if b == 0x3fu8 {
        assert("extcodehash"@ =~= seq!['e', 'x', 't', 'c', 'o', 'd', 'e', 'h', 'a', 's', 'h']);
    } else if b == 0x40u8 {
        assert("blockhash"@ =~= seq!['b', 'l', 'o', 'c', 'k', 'h', 'a', 's', 'h']);
    } else if b == 0x41u8 {
        assert("coinbase"@ =~= seq!['c', 'o', 'i', 'n', 'b', 'a', 's', 'e']);
    } else if b == 0x42u8 {
        assert("timestamp"@ =~= seq!['t', 'i', 'm', 'e', 's', 't', 'a', 'm', 'p']);
    } else if b == 0x43u8 {
        assert("number"@ =~= seq!['n', 'u', 'm', 'b', 'e', 'r']);
    } else if b == 0x44u8 {
        assert("difficulty"@ =~= seq!['d', 'i', 'f', 'f', 'i', 'c', 'u', 'l', 't', 'y']);
        assert("prevrandao"@ =~= seq!['p', 'r', 'e', 'v', 'r', 'a', 'n', 'd', 'a', 'o']);
    } else if b == 0x45u8 {
        assert("gaslimit"@ =~= seq!['g', 'a', 's', 'l', 'i', 'm', 'i', 't']);
    } else if b == 0x46u8 {
        assert("chainid"@ =~= seq!['c', 'h', 'a', 'i', 'n', 'i', 'd']);
    } else if b == 0x47u8 {
        assert("selfbalance"@ =~= seq!['s', 'e', 'l', 'f', 'b', 'a', 'l', 'a', 'n', 'c', 'e']);
    } else if b == 0x48u8 {
        assert("basefee"@ =~= seq!['b', 'a', 's', 'e', 'f', 'e', 'e']);
    } else if b == 0x49u8 {
        assert("blobhash"@ =~= seq!['b', 'l', 'o', 'b', 'h', 'a', 's', 'h']);
    } else if b == 0x4au8 {
        assert("blobbasefee"@ =~= seq!['b', 'l', 'o', 'b', 'b', 'a', 's', 'e', 'f', 'e', 'e']);
    } else if b == 0x50u8 {
        assert("pop"@ =~= seq!['p', 'o', 'p']);
    } else if b == 0x51u8 {
        assert("mload"@ =~= seq!['m', 'l', 'o', 'a', 'd']);
    } else if b == 0x52u8 {
        assert("mstore"@ =~= seq!['m', 's', 't', 'o', 'r', 'e']);
    } else if b == 0x53u8 {
        assert("mstore8"@ =~= seq!['m', 's', 't', 'o', 'r', 'e', '8']);
    } else if b == 0x54u8 {
        assert("sload"@ =~= seq!['s', 'l', 'o', 'a', 'd']);
    } else if b == 0x55u8 {
        assert("sstore"@ =~= seq!['s', 's', 't', 'o', 'r', 'e']);
    } else if b == 0x56u8 {
        assert("jump"@ =~= seq!['j', 'u', 'm', 'p']);
    } else if b == 0x57u8 {
        assert("jumpi"@ =~= seq!['j', 'u', 'm', 'p', 'i']);
    } else if b == 0x58u8 {
        assert("pc"@ =~= seq!['p', 'c']);
    } else if b == 0x59u8 {
        assert("msize"@ =~= seq!['m', 's', 'i', 'z', 'e']);
    } else if b == 0x5au8 {
        assert("gas"@ =~= seq!['g', 'a', 's']);
    } else if b == 0x5bu8 {
        assert("jumpdest"@ =~= seq!['j', 'u', 'm', 'p', 'd', 'e', 's', 't']);
    } else if b == 0x5cu8 {
        assert("tload"@ =~= seq!['t', 'l', 'o', 'a', 'd']);
    } else if b == 0x5du8 {
        assert("tstore"@ =~= seq!['t', 's', 't', 'o', 'r', 'e']);
    } else if b == 0x5eu8 {
        assert("mcopy"@ =~= seq!['m', 'c', 'o', 'p', 'y']);
    } else if b == 0x5fu8 {
        assert("push0"@ =~= seq!['p', 'u', 's', 'h', '0']);
    } else if b == 0x60u8 {
        assert("push1"@ =~= seq!['p', 'u', 's', 'h', '1']);
    } else if b == 0x61u8 {
        assert("push2"@ =~= seq!['p', 'u', 's', 'h', '2']);
    } else if b == 0x62u8 {
        assert("push3"@ =~= seq!['p', 'u', 's', 'h', '3']);
    } else if b == 0x63u8 {
        assert("push4"@ =~= seq!['p', 'u', 's', 'h', '4']);
    } else if b == 0x64u8 {
        assert("push5"@ =~= seq!['p', 'u', 's', 'h', '5']);
    } else if b == 0x65u8 {
        assert("push6"@ =~= seq!['p', 'u', 's', 'h', '6']);
    } else if b == 0x66u8 {
        assert("push7"@ =~= seq!['p', 'u', 's', 'h', '7']);
    } else if b == 0x67u8 {
        assert("push8"@ =~= seq!['p', 'u', 's', 'h', '8']);
    } else if b == 0x68u8 {
        assert("push9"@ =~= seq!['p', 'u', 's', 'h', '9']);
    } else if b == 0x69u8 {
        assert("push10"@ =~= seq!['p', 'u', 's', 'h', '1', '0']);
    } else if b == 0x6au8 {
        assert("push11"@ =~= seq!['p', 'u', 's', 'h', '1', '1']);
    } else if b == 0x6bu8 {
        assert("push12"@ =~= seq!['p', 'u', 's', 'h', '1', '2']);
    } else if b == 0x6cu8 {
        assert("push13"@ =~= seq!['p', 'u', 's', 'h', '1', '3']);
    } else if b == 0x6du8 {
        assert("push14"@ =~= seq!['p', 'u', 's', 'h', '1', '4']);
    } else if b == 0x6eu8 {
        assert("push15"@ =~= seq!['p', 'u', 's', 'h', '1', '5']);
    } else if b == 0x6fu8 {
        assert("push16"@ =~= seq!['p', 'u', 's', 'h', '1', '6']);
    } else if b == 0x70u8 {
        assert("push17"@ =~= seq!['p', 'u', 's', 'h', '1', '7']);
    } else if b == 0x71u8 {
        assert("push18"@ =~= seq!['p', 'u', 's', 'h', '1', '8']);
    } else if b == 0x72u8 {
        assert("push19"@ =~= seq!['p', 'u', 's', 'h', '1', '9']);
    } else if b == 0x73u8 {
        assert("push20"@ =~= seq!['p', 'u', 's', 'h', '2', '0']);
    } else if b == 0x74u8 {
        assert("push21"@ =~= seq!['p', 'u', 's', 'h', '2', '1']);
    } else if b == 0x75u8 {
        assert("push22"@ =~= seq!['p', 'u', 's', 'h', '2', '2']);
    } else if b == 0x76u8 {
        assert("push23"@ =~= seq!['p', 'u', 's', 'h', '2', '3']);
    } else if b == 0x77u8 {
        assert("push24"@ =~= seq!['p', 'u', 's', 'h', '2', '4']);
    } else if b == 0x78u8 {
        assert("push25"@ =~= seq!['p', 'u', 's', 'h', '2', '5']);
    } else if b == 0x79u8 {
        assert("push26"@ =~= seq!['p', 'u', 's', 'h', '2', '6']);
    } else if b == 0x7au8 {
        assert("push27"@ =~= seq!['p', 'u', 's', 'h', '2', '7']);
    } else if b == 0x7bu8 {
        assert("push28"@ =~= seq!['p', 'u', 's', 'h', '2', '8']);
    } else if b == 0x7cu8 {
        assert("push29"@ =~= seq!['p', 'u', 's', 'h', '2', '9']);
    } else if b == 0x7du8 {
        assert("push30"@ =~= seq!['p', 'u', 's', 'h', '3', '0']);
    } else if b == 0x7eu8 {
        assert("push31"@ =~= seq!['p', 'u', 's', 'h', '3', '1']);
    } else if b == 0x7fu8 {
        assert("push32"@ =~= seq!['p', 'u', 's', 'h', '3', '2']);
    } else if b == 0x80u8 {
        assert("dup1"@ =~= seq!['d', 'u', 'p', '1']);
    } else if b == 0x81u8 {
        assert("dup2"@ =~= seq!['d', 'u', 'p', '2']);
    } else if b == 0x82u8 {
        assert("dup3"@ =~= seq!['d', 'u', 'p', '3']);
    } else if b == 0x83u8 {
        assert("dup4"@ =~= seq!['d', 'u', 'p', '4']);
    } else if b == 0x84u8 {
        assert("dup5"@ =~= seq!['d', 'u', 'p', '5']);
    } else if b == 0x85u8 {
        assert("dup6"@ =~= seq!['d', 'u', 'p', '6']);
    } else if b == 0x86u8 {
        assert("dup7"@ =~= seq!['d', 'u', 'p', '7']);
    } else if b == 0x87u8 {
        assert("dup8"@ =~= seq!['d', 'u', 'p', '8']);
    } else if b == 0x88u8 {
        assert("dup9"@ =~= seq!['d', 'u', 'p', '9']);
    } else if b == 0x89u8 {
        assert("dup10"@ =~= seq!['d', 'u', 'p', '1', '0']);
    } else if b == 0x8au8 {
        assert("dup11"@ =~= seq!['d', 'u', 'p', '1', '1']);
    } else if b == 0x8bu8 {
        assert("dup12"@ =~= seq!['d', 'u', 'p', '1', '2']);
    } else if b == 0x8cu8 {
        assert("dup13"@ =~= seq!['d', 'u', 'p', '1', '3']);
    } else if b == 0x8du8 {
        assert("dup14"@ =~= seq!['d', 'u', 'p', '1', '4']);
    } else if b == 0x8eu8 {
        assert("dup15"@ =~= seq!['d', 'u', 'p', '1', '5']);
    } else if b == 0x8fu8 {
        assert("dup16"@ =~= seq!['d', 'u', 'p', '1', '6']);
    } else if b == 0x90u8 {
        assert("swap1"@ =~= seq!['s', 'w', 'a', 'p', '1']);
    } else if b == 0x91u8 {
        assert("swap2"@ =~= seq!['s', 'w', 'a', 'p', '2']);
    } else if b == 0x92u8 {
        assert("swap3"@ =~= seq!['s', 'w', 'a', 'p', '3']);
    } else if b == 0x93u8 {
        assert("swap4"@ =~= seq!['s', 'w', 'a', 'p', '4']);
    } else if b == 0x94u8 {
        assert("swap5"@ =~= seq!['s', 'w', 'a', 'p', '5']);
    } else if b == 0x95u8 {
        assert("swap6"@ =~= seq!['s', 'w', 'a', 'p', '6']);
    } else if b == 0x96u8 {
        assert("swap7"@ =~= seq!['s', 'w', 'a', 'p', '7']);
    } else if b == 0x97u8 {
        assert("swap8"@ =~= seq!['s', 'w', 'a', 'p', '8']);
    } else if b == 0x98u8 {
        assert("swap9"@ =~= seq!['s', 'w', 'a', 'p', '9']);
    } else if b == 0x99u8 {
        assert("swap10"@ =~= seq!['s', 'w', 'a', 'p', '1', '0']);
    } else if b == 0x9au8 {
        assert("swap11"@ =~= seq!['s', 'w', 'a', 'p', '1', '1']);
    } else if b == 0x9bu8 {
        assert("swap12"@ =~= seq!['s', 'w', 'a', 'p', '1', '2']);
    } else if b == 0x9cu8 {
        assert("swap13"@ =~= seq!['s', 'w', 'a', 'p', '1', '3']);
    } else if b == 0x9du8 {
        assert("swap14"@ =~= seq!['s', 'w', 'a', 'p', '1', '4']);
    } else if b == 0x9eu8 {
        assert("swap15"@ =~= seq!['s', 'w', 'a', 'p', '1', '5']);
    } else if b == 0x9fu8 {
        assert("swap16"@ =~= seq!['s', 'w', 'a', 'p', '1', '6']);
    } else if b == 0xa0u8 {
        assert("log0"@ =~= seq!['l', 'o', 'g', '0']);
    } else if b == 0xa1u8 {
        assert("log1"@ =~= seq!['l', 'o', 'g', '1']);
    } else if b == 0xa2u8 {
        assert("log2"@ =~= seq!['l', 'o', 'g', '2']);
    } else if b == 0xa3u8 {
        assert("log3"@ =~= seq!['l', 'o', 'g', '3']);
    } else if b == 0xa4u8 {
        assert("log4"@ =~= seq!['l', 'o', 'g', '4']);
    } else if b == 0xf0u8 {
        assert("create"@ =~= seq!['c', 'r', 'e', 'a', 't', 'e']);
    } else if b == 0xf1u8 {
        assert("call"@ =~= seq!['c', 'a', 'l', 'l']);
    } else if b == 0xf2u8 {
        assert("callcode"@ =~= seq!['c', 'a', 'l', 'l', 'c', 'o', 'd', 'e']);
    } else if b == 0xf3u8 {
        assert("return"@ =~= seq!['r', 'e', 't', 'u', 'r', 'n']);
    } else if b == 0xf4u8 {
        assert("delegatecall"@ =~= seq!['d', 'e', 'l', 'e', 'g', 'a', 't', 'e', 'c', 'a', 'l', 'l']);
    } else if b == 0xf5u8 {
        assert("create2"@ =~= seq!['c', 'r', 'e', 'a', 't', 'e', '2']);
    } else if b == 0xfau8 {
        assert("staticcall"@ =~= seq!['s', 't', 'a', 't', 'i', 'c', 'c', 'a', 'l', 'l']);
    } else if b == 0xfdu8 {
        assert("revert"@ =~= seq!['r', 'e', 'v', 'e', 'r', 't']);
    } else if b == 0xfeu8 {
        assert("invalid"@ =~= seq!['i', 'n', 'v', 'a', 'l', 'i', 'd']);
    } else if b == 0xffu8 {
        assert("selfdestruct"@ =~= seq!['s', 'e', 'l', 'f', 'd', 'e', 's', 't', 'r', 'u', 'c', 't']);
    }
}

/// Opcode lookup reads each mnemonic as its own instruction byte and nothing
/// else: a word is read as instruction byte `b` exactly when it is the
/// mnemonic of `b`, or its second mnemonic. So every mnemonic is recognised
/// (`sload` as 0x54, `sstore` as 0x55, `mload` as 0x51, ...), no mnemonic
/// reads as another instruction's byte, and two words read as the same byte
/// only for the pairs `keccak256`/`sha3` and `difficulty`/`prevrandao`.
pub proof fn law_opcode_lookup_inverts_naming(w: Seq<char>, b: u8)
    ensures
        opcode_of(w) == Some(b) <==> (opcode_name(b) == Some(w) || opcode_alias(b) == Some(w)),
{
    if opcode_name(b) == Some(w) || opcode_alias(b) == Some(w) {
        lemma_opcode_names_read_back(b, w);
    }
    if opcode_of(w) == Some(b) {
        lemma_opcode_is_named_instruction(w);
    }
}

} // verus!
