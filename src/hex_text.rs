use vstd::prelude::*;
use crate::error::SignError;

verus! {

/// Whether `c` is an ASCII hexadecimal digit (either case).
pub open spec fn is_hex_digit(c: char) -> bool {
    ('0' <= c && c <= '9') || ('a' <= c && c <= 'f') || ('A' <= c && c <= 'F')
}

/// The value of a hexadecimal digit.
pub open spec fn hex_digit_value(c: char) -> int {
    if '0' <= c && c <= '9' {
        c as int - '0' as int
    } else if 'a' <= c && c <= 'f' {
        c as int - 'a' as int + 10
    } else {
        c as int - 'A' as int + 10
    }
}

/// The text with one leading `0x` removed, if it has one.
pub open spec fn strip_0x(s: Seq<char>) -> Seq<char> {
    if s.len() >= 2 && s[0] == '0' && s[1] == 'x' {
        s.subrange(2, s.len() as int)
    } else {
        s
    }
}

/// Whether `d` is an even number of hexadecimal digits.
pub open spec fn is_hex_digits(d: Seq<char>) -> bool {
    d.len() % 2 == 0 && forall|i: int| 0 <= i < d.len() ==> #[trigger] is_hex_digit(d[i])
}

/// The bytes that pairs of hexadecimal digits denote, high digit first.
pub open spec fn hex_digits_bytes(d: Seq<char>) -> Seq<u8> {
    Seq::new(
        d.len() / 2,
        |i: int| (hex_digit_value(d[2 * i]) * 16 + hex_digit_value(d[2 * i + 1])) as u8,
    )
}

/// Whether `s` is valid hex text: an optional `0x`, then an even number of hex digits.
pub open spec fn is_hex_text(s: Seq<char>) -> bool {
    is_hex_digits(strip_0x(s))
}

/// The bytes that valid hex text denotes.
pub open spec fn hex_text_bytes(s: Seq<char>) -> Seq<u8> {
    hex_digits_bytes(strip_0x(s))
}

/// The lowercase hexadecimal digit for a value below 16.
pub open spec fn lower_hex_digit(v: int) -> char {
    if v < 10 {
        ((v + '0' as int) as u32) as char
    } else {
        ((v - 10 + 'a' as int) as u32) as char
    }
}

/// Two lowercase digits per byte, high digit first.
pub open spec fn lower_hex_of(b: Seq<u8>) -> Seq<char> {
    Seq::new(
        2 * b.len(),
        |i: int|
            if i % 2 == 0 {
                lower_hex_digit(b[i / 2] as int / 16)
            } else {
                lower_hex_digit(b[i / 2] as int % 16)
            },
    )
}

fn digit_value(c: char) -> (r: Option<u8>)
    ensures
        r.is_some() == is_hex_digit(c),
        r.is_some() ==> r.unwrap() as int == hex_digit_value(c),
        r.is_some() ==> r.unwrap() < 16,
{
    if '0' <= c && c <= '9' {
        Some((c as u32 - '0' as u32) as u8)
    } else if 'a' <= c && c <= 'f' {
        Some((c as u32 - 'a' as u32 + 10) as u8)
    } else if 'A' <= c && c <= 'F' {
        Some((c as u32 - 'A' as u32 + 10) as u8)
    } else {
        None
    }
}

/// Decodes hex text, with or without a leading `0x`, into bytes.
pub fn decode_hex(s: &str) -> (r: Result<Vec<u8>, SignError>)
    ensures
        r.is_ok() == is_hex_text(s@),
        r.is_ok() ==> r.unwrap()@ == hex_text_bytes(s@),
        r.is_err() ==> r == Err::<Vec<u8>, SignError>(SignError::DecodeError),
{
    let n = s.unicode_len();
    let mut start: usize = 0;
    if n >= 2 && s.get_char(0) == '0' && s.get_char(1) == 'x' {
        start = 2;
    }
    let ghost d = strip_0x(s@);
    assert(d =~= s@.subrange(start as int, n as int));
    if (n - start) % 2 != 0 {
        return Err(SignError::DecodeError);
    }
    let mut out: Vec<u8> = Vec::new();
    let mut k: usize = 0;
    while start + 2 * k < n
        invariant
            d == strip_0x(s@),
            d == s@.subrange(start as int, n as int),
            n == s@.len(),
            start <= n,
            (n - start) % 2 == 0,
            start + 2 * k <= n,
            out@.len() == k,
            forall|j: int| 0 <= j < 2 * k ==> #[trigger] is_hex_digit(d[j]),
            forall|j: int| 0 <= j < k ==> out@[j] == hex_digits_bytes(d)[j],
        decreases n - start - 2 * k,
    {
        let hi = digit_value(s.get_char(start + 2 * k));
        let lo = digit_value(s.get_char(start + 2 * k + 1));
        match (hi, lo) {
            (Some(h), Some(l)) => {
                out.push(h * 16 + l);
            },
            _ => {
                assert(!is_hex_digit(d[2 * k as int]) || !is_hex_digit(d[2 * k + 1]));
                assert(!is_hex_digits(d));
                return Err(SignError::DecodeError);
            },
        }
        k = k + 1;
    }
    assert(out@ =~= hex_digits_bytes(d));
    Ok(out)
}

fn lower_digit(v: u8) -> (c: char)
    requires
        v < 16,
    ensures
        c == lower_hex_digit(v as int),
{
    if v < 10 {
        ((v as u32 + '0' as u32) as u8) as char
    } else {
        ((v as u32 - 10 + 'a' as u32) as u8) as char
    }
}

/// Relies on `String::push`: appends one character at the end.
#[verifier::external_body]
fn push_char(s: &mut String, c: char)
    ensures
        final(s)@ == old(s)@.push(c),
{
    s.push(c);
}

/// Renders bytes as `0x` followed by two lowercase hex digits per byte.
pub fn encode_hex(b: &[u8]) -> (r: String)
    ensures
        r@ == seq!['0', 'x'] + lower_hex_of(b@),
{
    let mut out = String::new();
    push_char(&mut out, '0');
    push_char(&mut out, 'x');
    let mut i: usize = 0;
    while i < b.len()
        invariant
            i <= b@.len(),
            out@ == seq!['0', 'x'] + lower_hex_of(b@).subrange(0, 2 * i as int),
        decreases b@.len() - i,
    {
        let byte = b[i];
        push_char(&mut out, lower_digit(byte / 16));
        push_char(&mut out, lower_digit(byte % 16));
        assert(lower_hex_of(b@).subrange(0, 2 * i + 2) =~= lower_hex_of(b@).subrange(0, 2 * i as int)
            + seq![lower_hex_digit(byte as int / 16), lower_hex_digit(byte as int % 16)]);
        i = i + 1;
    }
    assert(lower_hex_of(b@).subrange(0, 2 * i as int) =~= lower_hex_of(b@));
    out
}

} // verus!
