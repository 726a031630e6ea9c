use vstd::prelude::*;
use vstd::string::*;

verus! {

/// Why a decimal string is not an unsigned 64-bit integer.
#[derive(Debug, Clone, Copy, PartialEq, Eq, Structural)]
pub enum ParseError {
    /// The string is empty.
    Empty,
    /// A character that is not a decimal digit (or a lone sign).
    InvalidDigit,
    /// The digits denote a value above `u64::MAX`.
    PosOverflow,
}

pub open spec fn is_digit(c: char) -> bool {
    '0' <= c && c <= '9'
}

pub open spec fn digit_value(c: char) -> int {
    c as int - '0' as int
}

/// Reads the digits of `s` from left to right; the first character that is
/// not a digit, or the first digit that takes the value past `u64::MAX`,
/// decides the error.
pub open spec fn scan_digits(s: Seq<char>) -> Result<int, ParseError>
    decreases s.len(),
{
    if s.len() == 0 {
        Ok(0)
    } else {
        match scan_digits(s.drop_last()) {
            Err(e) => Err(e),
            Ok(v) => {
                let c = s.last();
                if !is_digit(c) {
                    Err(ParseError::InvalidDigit)
                } else if v * 10 + digit_value(c) > u64::MAX {
                    Err(ParseError::PosOverflow)
                } else {
                    Ok(v * 10 + digit_value(c))
                }
            },
        }
    }
}

/// Decimal notation of an unsigned 64-bit integer: an optional leading `+`
/// followed by at least one digit, no other character.
pub open spec fn parse_u64_spec(s: Seq<char>) -> Result<int, ParseError> {
    if s.len() == 0 {
        Err(ParseError::Empty)
    } else if s[0] == '+' {
        if s.len() == 1 {
            Err(ParseError::InvalidDigit)
        } else {
            scan_digits(s.skip(1))
        }
    } else {
        scan_digits(s)
    }
}

proof fn lemma_scan_bounded(s: Seq<char>)
    ensures
        scan_digits(s) matches Ok(v) ==> 0 <= v <= u64::MAX,
    decreases s.len(),
{
    if s.len() > 0 {
        lemma_scan_bounded(s.drop_last());
    }
}

proof fn lemma_scan_error_sticks(s: Seq<char>, i: int)
    requires
        0 <= i <= s.len(),
        scan_digits(s.take(i)) is Err,
    ensures
        scan_digits(s) == scan_digits(s.take(i)),
    decreases s.len() - i,
{
    if i < s.len() {
        assert(s.take(i + 1).drop_last() =~= s.take(i));
        lemma_scan_error_sticks(s, i + 1);
    } else {
        assert(s.take(i) =~= s);
    }
}

/// Parses an unsigned 64-bit integer written in decimal.
pub fn parse_u64(s: &str) -> (r: Result<u64, ParseError>)
    ensures
        match parse_u64_spec(s@) {
            Ok(v) => r == Ok::<u64, ParseError>(v as u64),
            Err(e) => r == Err::<u64, ParseError>(e),
        },
        parse_u64_spec(s@) matches Ok(v) ==> 0 <= v <= u64::MAX,
{
    let n = s.unicode_len();
    if n == 0 {
        return Err(ParseError::Empty);
    }
    let start: usize = if s.get_char(0) == '+' {
        if n == 1 {
            return Err(ParseError::InvalidDigit);
        }
        1
    } else {
        0
    };
    let ghost body = if start == 1 { s@.skip(1) } else { s@ };
    let mut acc: u64 = 0;
    let mut i: usize = start;
    proof {
        assert(body.take(0) =~= Seq::<char>::empty());
    }
    while i < n
        invariant
            n == s@.len(),
            start <= i <= n,
            start == 0 || start == 1,
            body == s@.skip(start as int),
            parse_u64_spec(s@) == scan_digits(body),
            scan_digits(body.take(i - start)) == Ok::<int, ParseError>(acc as int),
        decreases n - i,
    {
        let c = s.get_char(i);
        let k = i - start;
        proof {
            assert(body.take(k + 1).drop_last() =~= body.take(k as int));
            assert(body.take(k + 1).last() == c);
        }
        if !('0' <= c && c <= '9') {
            proof {
                lemma_scan_error_sticks(body, k + 1);
            }
            return Err(ParseError::InvalidDigit);
        }
        let d = (c as u32 - '0' as u32) as u64;
        if acc > (u64::MAX - d) / 10 {
            proof {
                lemma_scan_error_sticks(body, k + 1);
            }
            return Err(ParseError::PosOverflow);
        }
        acc = acc * 10 + d;
        i = i + 1;
    }
    proof {
        assert(body.take(n - start) =~= body);
        lemma_scan_bounded(body);
    }
    Ok(acc)
}

} // verus!
