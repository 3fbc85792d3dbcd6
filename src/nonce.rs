use vstd::prelude::*;
use crate::error::SignError;

verus! {

/// Whether `c` is an ASCII decimal digit.
pub open spec fn is_decimal_digit(c: char) -> bool {
    '0' <= c && c <= '9'
}

/// Whether every character of `s` is a decimal digit.
pub open spec fn all_decimal_digits(s: Seq<char>) -> bool {
    forall|i: int| 0 <= i < s.len() ==> #[trigger] is_decimal_digit(s[i])
}

/// The value of a string of decimal digits, most significant first.
pub open spec fn decimal_value(s: Seq<char>) -> nat
    decreases s.len(),
{
    if s.len() == 0 {
        0
    } else {
        decimal_value(s.drop_last()) * 10 + (s.last() as int - '0' as int) as nat
    }
}

/// Whether `s` is a nonce: one or more decimal digits whose value fits in 32 bits.
pub open spec fn is_nonce_text(s: Seq<char>) -> bool {
    s.len() > 0 && all_decimal_digits(s) && decimal_value(s) <= u32::MAX
}

/// Parses a nonce written in decimal.
pub fn parse_nonce(s: &str) -> (r: Result<u32, SignError>)
    ensures
        r.is_ok() == is_nonce_text(s@),
        r.is_ok() ==> r.unwrap() as nat == decimal_value(s@),
        r.is_err() ==> r == Err::<u32, SignError>(SignError::ParseError),
{
    let n = s.unicode_len();
    if n == 0 {
        return Err(SignError::ParseError);
    }
    let mut acc: u64 = 0;
    let mut overflow = false;
    let mut i: usize = 0;
    while i < n
        invariant
            n == s@.len(),
            i <= n,
            all_decimal_digits(s@.subrange(0, i as int)),
            overflow ==> decimal_value(s@.subrange(0, i as int)) > u32::MAX,
            !overflow ==> acc as nat == decimal_value(s@.subrange(0, i as int)),
            !overflow ==> acc <= u32::MAX,
        decreases n - i,
    {
        let c = s.get_char(i);
        let ghost prefix = s@.subrange(0, i as int);
        let ghost next = s@.subrange(0, i + 1);
        assert(next.drop_last() =~= prefix);
        if !('0' <= c && c <= '9') {
            assert(!all_decimal_digits(s@)) by {
                assert(!is_decimal_digit(s@[i as int]));
            }
            return Err(SignError::ParseError);
        }
        let d = (c as u32 - '0' as u32) as u64;
        if !overflow {
            acc = acc * 10 + d;
            if acc > u32::MAX as u64 {
                overflow = true;
            }
        }
        assert(all_decimal_digits(next)) by {
            assert forall|j: int| 0 <= j < next.len() implies #[trigger] is_decimal_digit(next[j]) by {
                if j < i {
                    assert(next[j] == prefix[j]);
                }
            }
        }
        i = i + 1;
    }
    assert(s@.subrange(0, n as int) =~= s@);
    if overflow {
        Err(SignError::ParseError)
    } else {
        Ok(acc as u32)
    }
}

} // verus!
