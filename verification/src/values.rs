//! Values read from words: decimal numbers, primitive ABI types and hex literals.
use vstd::prelude::*;
use crate::chars::{is_ascii_digit, is_ascii_hex, ascii_digit};
use crate::text::{chars_equal_str, starts_with_str, chars_from};
use crate::token::PrimitiveEVMType;

verus! {

/// All characters of `s` are ASCII digits.
pub open spec fn all_digits(s: Seq<char>) -> bool {
    forall|i: int| 0 <= i < s.len() ==> is_ascii_digit(#[trigger] s[i])
}

/// The number that the decimal digits `s` spell (most significant first).
pub open spec fn digits_value(s: Seq<char>) -> nat
    decreases s.len(),
{
    if s.len() == 0 {
        0
    } else {
        digits_value(s.drop_last()) * 10 + ((s.last() as nat) - ('0' as nat)) as nat
    }
}

/// `usize::from_str`: an optional leading `+`, then at least one ASCII digit,
/// and a value that fits in `usize`.
pub open spec fn parse_usize(s: Seq<char>) -> Option<usize> {
    let d = if s.len() > 0 && s[0] == '+' {
        s.drop_first()
    } else {
        s
    };
    if d.len() > 0 && all_digits(d) && digits_value(d) <= usize::MAX {
        Some(digits_value(d) as usize)
    } else {
        None
    }
}

proof fn lemma_digits_value_prefix_grows(s: Seq<char>, k: int)
    requires
        all_digits(s),
        0 <= k <= s.len(),
    ensures
        digits_value(s.subrange(0, k)) <= digits_value(s),
    decreases s.len() - k,
{
    if k < s.len() {
        lemma_digits_value_prefix_grows(s, k + 1);
        assert(s.subrange(0, k + 1).drop_last() =~= s.subrange(0, k));
    } else {
        assert(s.subrange(0, k) =~= s);
    }
}

/// Reads a decimal number as `usize::from_str` does.
pub fn parse_decimal(s: &Vec<char>) -> (res: Option<usize>)
    ensures
        res == parse_usize(s@),
{
    let start: usize = if s.len() > 0 && s[0] == '+' {
        1
    } else {
        0
    };
    let ghost d = if s@.len() > 0 && s@[0] == '+' {
        s@.drop_first()
    } else {
        s@
    };
    assert(d =~= s@.subrange(start as int, s@.len() as int));
    if start >= s.len() {
        return None;
    }
    let mut i: usize = start;
    while i < s.len()
        invariant
            start <= i <= s@.len(),
            d == s@.subrange(start as int, s@.len() as int),
            d == (if s@.len() > 0 && s@[0] == '+' {
                s@.drop_first()
            } else {
                s@
            }),
            forall|j: int| start <= j < i ==> is_ascii_digit(#[trigger] s@[j]),
        decreases s@.len() - i,
    {
        if !ascii_digit(s[i]) {
            assert(d[i - start] == s@[i as int]);
            assert(!is_ascii_digit(d[i - start]));
            assert(!all_digits(d));
            return None;
        }
        i = i + 1;
    }
    assert(all_digits(d)) by {
        assert forall|j: int| 0 <= j < d.len() implies is_ascii_digit(#[trigger] d[j]) by {
            assert(d[j] == s@[j + start]);
        }
    }
    let mut v: usize = 0;
    let mut i: usize = start;
    while i < s.len()
        invariant
            start <= i <= s@.len(),
            d == s@.subrange(start as int, s@.len() as int),
            d == (if s@.len() > 0 && s@[0] == '+' {
                s@.drop_first()
            } else {
                s@
            }),
            all_digits(d),
            v as nat == digits_value(d.subrange(0, i - start)),
        decreases s@.len() - i,
    {
        let c = s[i];
        assert(c == d[i - start]);
        assert(is_ascii_digit(d[i - start]));
        let digit = (c as u32 - '0' as u32) as usize;
        let ghost pre = d.subrange(0, i - start + 1);
        assert(pre.drop_last() =~= d.subrange(0, i - start));
        assert(digits_value(pre) == v * 10 + digit);
        match v.checked_mul(10) {
            Some(t) => match t.checked_add(digit) {
                Some(u) => {
                    v = u;
                },
                None => {
                    proof {
                        lemma_digits_value_prefix_grows(d, i - start + 1);
                        assert(digits_value(d) > usize::MAX);
                    }
                    return None;
                },
            },
            None => {
                proof {
                    lemma_digits_value_prefix_grows(d, i - start + 1);
                    assert(v * 10 > usize::MAX);
                    assert(digits_value(d) > usize::MAX);
                }
                return None;
            },
        }
        i = i + 1;
    }
    assert(d.subrange(0, d.len() as int) =~= d);
    Some(v)
}

/// `PrimitiveEVMType` read from a type name: `string`, `bytes`, `bool`,
/// `address`, `uintN` / `intN` (256 when `N` is absent; no type when `N` is
/// not a number) and `bytesN`. The outer `None` is where reading panics: a
/// `bytesN` whose `N` is not a number that fits in `usize`.
pub open spec fn primitive_read(w: Seq<char>) -> Option<Option<PrimitiveEVMType>> {
    if w == "string"@ {
        Some(Some(PrimitiveEVMType::String))
    } else if w == "bytes"@ {
        Some(Some(PrimitiveEVMType::DynBytes))
    } else if w == "bool"@ {
        Some(Some(PrimitiveEVMType::Bool))
    } else if w == "address"@ {
        Some(Some(PrimitiveEVMType::Address))
    } else if 4 <= w.len() && w.subrange(0, 4) == "uint"@ {
        if w.len() == 4 {
            Some(Some(PrimitiveEVMType::Uint(256)))
        } else {
            match parse_usize(w.subrange(4, w.len() as int)) {
                Some(n) => Some(Some(PrimitiveEVMType::Uint(n))),
                None => Some(None),
            }
        }
    } else if 3 <= w.len() && w.subrange(0, 3) == "int"@ {
        if w.len() == 3 {
            Some(Some(PrimitiveEVMType::Int(256)))
        } else {
            match parse_usize(w.subrange(3, w.len() as int)) {
                Some(n) => Some(Some(PrimitiveEVMType::Int(n))),
                None => Some(None),
            }
        }
    } else if 5 < w.len() && w.subrange(0, 5) == "bytes"@ {
        match parse_usize(w.subrange(5, w.len() as int)) {
            Some(n) => Some(Some(PrimitiveEVMType::Bytes(n))),
            None => None,
        }
    } else {
        Some(None)
    }
}

fn sized_type(w: &Vec<char>, prefix_len: usize) -> (res: Option<usize>)
    requires
        prefix_len <= w@.len(),
    ensures
        res == (if w@.len() == prefix_len {
            Some(256usize)
        } else {
            parse_usize(w@.subrange(prefix_len as int, w@.len() as int))
        }),
{
    if w.len() == prefix_len {
        Some(256)
    } else {
        parse_decimal(&chars_from(w, prefix_len))
    }
}

/// Reads a primitive ABI type name; `None` where reading panics.
pub fn lookup_primitive(w: &Vec<char>) -> (res: Option<Option<PrimitiveEVMType>>)
    ensures
        res == primitive_read(w@),
{
    proof {
        reveal_strlit("uint");
        reveal_strlit("int");
        reveal_strlit("bytes");
    }
    if chars_equal_str(w, "string") {
        Some(Some(PrimitiveEVMType::String))
    } else if chars_equal_str(w, "bytes") {
        Some(Some(PrimitiveEVMType::DynBytes))
    } else if chars_equal_str(w, "bool") {
        Some(Some(PrimitiveEVMType::Bool))
    } else if chars_equal_str(w, "address") {
        Some(Some(PrimitiveEVMType::Address))
    } else if starts_with_str(w, "uint") {
        match sized_type(w, 4) {
            Some(n) => Some(Some(PrimitiveEVMType::Uint(n))),
            None => Some(None),
        }
    } else if starts_with_str(w, "int") {
        match sized_type(w, 3) {
            Some(n) => Some(Some(PrimitiveEVMType::Int(n))),
            None => Some(None),
        }
    } else if starts_with_str(w, "bytes") && w.len() != 5 {
        match parse_decimal(&chars_from(w, 5)) {
            Some(n) => Some(Some(PrimitiveEVMType::Bytes(n))),
            None => None,
        }
    } else {
        Some(None)
    }
}

/// All characters of `s` are ASCII hex digits.
pub open spec fn all_hex(s: Seq<char>) -> bool {
    forall|i: int| 0 <= i < s.len() ==> is_ascii_hex(#[trigger] s[i])
}

/// The value of one hex digit.
pub open spec fn hex_value(c: char) -> nat {
    if '0' <= c && c <= '9' {
        ((c as nat) - ('0' as nat)) as nat
    } else if 'a' <= c && c <= 'f' {
        ((c as nat) - ('a' as nat) + 10) as nat
    } else {
        ((c as nat) - ('A' as nat) + 10) as nat
    }
}

/// A hex string of odd length gets a leading `0` (`format_even_bytes`).
pub open spec fn even_padded(h: Seq<char>) -> Seq<char> {
    if h.len() % 2 == 1 {
        seq!['0'] + h
    } else {
        h
    }
}

/// The bytes that a hex string of even length spells, two digits per byte.
pub open spec fn hex_bytes(h: Seq<char>) -> Seq<u8> {
    Seq::new(h.len() / 2, |i: int| (hex_value(h[2 * i]) * 16 + hex_value(h[2 * i + 1])) as u8)
}

/// `str_to_bytes32`: the hex digits `h` as a 32-byte big-endian value, padded
/// with zero bytes on the left.
pub open spec fn bytes32_of_hex(h: Seq<char>) -> Seq<u8> {
    let b = hex_bytes(even_padded(h));
    Seq::new((32 - b.len()) as nat, |i: int| 0u8) + b
}

/// Maps the ASCII upper case letters to lower case and keeps every other character.
pub open spec fn ascii_lower(c: char) -> char {
    if 'A' <= c && c <= 'Z' {
        ((c as u32) + 32) as char
    } else {
        c
    }
}

/// The hex digits `h` in lower case.
pub open spec fn lower_hex(h: Seq<char>) -> Seq<char> {
    Seq::new(h.len(), |i: int| ascii_lower(h[i]))
}

fn hex_digit_value(c: char) -> (res: u8)
    requires
        is_ascii_hex(c),
    ensures
        res as nat == hex_value(c),
        res < 16,
{
    if '0' <= c && c <= '9' {
        (c as u32 - '0' as u32) as u8
    } else if 'a' <= c && c <= 'f' {
        (c as u32 - 'a' as u32 + 10) as u8
    } else {
        (c as u32 - 'A' as u32 + 10) as u8
    }
}

/// `h` with a leading `0` when its length is odd.
pub fn pad_even(h: Vec<char>) -> (res: Vec<char>)
    ensures
        res@ == even_padded(h@),
{
    if h.len() % 2 == 1 {
        let mut out: Vec<char> = Vec::new();
        out.push('0');
        let mut i: usize = 0;
        while i < h.len()
            invariant
                i <= h@.len(),
                out@ == seq!['0'] + h@.subrange(0, i as int),
            decreases h@.len() - i,
        {
            out.push(h[i]);
            i = i + 1;
            assert(out@ =~= seq!['0'] + h@.subrange(0, i as int));
        }
        assert(h@.subrange(0, h@.len() as int) =~= h@);
        out
    } else {
        h
    }
}

/// The 32-byte big-endian value of at most 64 hex digits.
pub fn hex_to_bytes32(h: &Vec<char>) -> (res: [u8; 32])
    requires
        all_hex(h@),
        h@.len() <= 64,
    ensures
        res@ == bytes32_of_hex(h@),
{
    let p = pad_even(chars_from(h, 0));
    assert(h@.subrange(0, h@.len() as int) =~= h@);
    let ghost ps = p@;
    assert(all_hex(ps)) by {
        assert forall|j: int| 0 <= j < ps.len() implies is_ascii_hex(#[trigger] ps[j]) by {
            if h@.len() % 2 == 1 {
                if j > 0 {
                    assert(ps[j] == h@[j - 1]);
                }
            } else {
                assert(ps[j] == h@[j]);
            }
        }
    }
    let n: usize = p.len() / 2;
    assert(n <= 32);
    let mut out: [u8; 32] = [0u8; 32];
    let ghost b = hex_bytes(ps);
    let mut i: usize = 0;
    while i < n
        invariant
            ps == p@,
            all_hex(ps),
            n == ps.len() / 2,
            n <= 32,
            b == hex_bytes(ps),
            i <= n,
            out@.len() == 32,
            forall|j: int| 0 <= j < 32 - n ==> out@[j] == 0u8,
            forall|j: int| 0 <= j < i ==> out@[32 - n + j] == b[j],
        decreases n - i,
    {
        let hi = hex_digit_value(p[2 * i]);
        let lo = hex_digit_value(p[2 * i + 1]);
        out[32 - n + i] = hi * 16 + lo;
        i = i + 1;
    }
    assert(out@ =~= bytes32_of_hex(h@));
    out
}

/// `format_even_bytes` of the lower case form of the hex digits `h`.
pub fn even_lower_hex(h: &Vec<char>) -> (res: Vec<char>)
    requires
        all_hex(h@),
    ensures
        res@ == even_padded(lower_hex(h@)),
{
    let mut out: Vec<char> = Vec::new();
    let mut i: usize = 0;
    while i < h.len()
        invariant
            i <= h@.len(),
            all_hex(h@),
            out@ == lower_hex(h@).subrange(0, i as int),
        decreases h@.len() - i,
    {
        let c = h[i];
        let l = if 'A' <= c && c <= 'Z' {
            ((c as u32) + 32) as u8 as char
        } else {
            c
        };
        assert(l == ascii_lower(c)) by {
            if 'A' <= c && c <= 'Z' {
                assert(((c as u32) + 32) as u8 as char == ((c as u32) + 32) as char);
            }
        }
        out.push(l);
        i = i + 1;
        assert(out@ =~= lower_hex(h@).subrange(0, i as int));
    }
    assert(lower_hex(h@).subrange(0, h@.len() as int) =~= lower_hex(h@));
    pad_even(out)
}

} // verus!
