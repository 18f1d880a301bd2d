//! Reading the status line that an application publishes: a status code, a
//! space, and a reason phrase.

use vstd::prelude::*;
use vstd::slice::slice_subrange;
use crate::error::ValidationError;

verus! {

/// The error of `http::StatusCode::from_u16`; it says nothing beyond that
/// the number was refused.
#[verifier::external_type_specification]
#[verifier::external_body]
pub struct ExInvalidStatusCode(http::status::InvalidStatusCode);

/// The byte that ends the leading token of a status line.
pub const SPACE: u8 = 32;

/// The plus sign that may stand before the digits of a number.
pub const PLUS: u8 = 43;

/// The number of bytes from `start` up to the first space at or after it, or
/// up to the end of the line where no space follows.
pub open spec fn token_len_from(line: Seq<u8>, start: int) -> int
    decreases line.len() - start,
{
    if start < 0 || start >= line.len() || line[start] == SPACE {
        0
    } else {
        1 + token_len_from(line, start + 1)
    }
}

/// The length of the leading token: everything before the first space.
pub open spec fn token_len(line: Seq<u8>) -> int {
    token_len_from(line, 0)
}

/// The leading token of a status line.
pub open spec fn leading_token(line: Seq<u8>) -> Seq<u8> {
    line.subrange(0, token_len(line))
}

/// The reason phrase: what follows the first space; empty where there is none.
pub open spec fn reason_of(line: Seq<u8>) -> Seq<u8> {
    if token_len(line) < line.len() {
        line.subrange(token_len(line) + 1, line.len() as int)
    } else {
        Seq::empty()
    }
}

/// Whether a byte is a decimal digit.
pub open spec fn is_digit(b: u8) -> bool {
    48 <= b <= 57
}

/// The digits of a token: the token without a leading plus sign.
pub open spec fn digits_of(token: Seq<u8>) -> Seq<u8> {
    if token.len() > 0 && token[0] == PLUS {
        token.drop_first()
    } else {
        token
    }
}

/// A token is a number when it is an optional plus sign followed by at least
/// one decimal digit and nothing else.
pub open spec fn is_number(token: Seq<u8>) -> bool {
    let digits = digits_of(token);
    &&& digits.len() > 0
    &&& forall|i: int| 0 <= i < digits.len() ==> is_digit(#[trigger] digits[i])
}

/// The value of a sequence of decimal digits, most significant first.
pub open spec fn decimal_value(digits: Seq<u8>) -> int
    decreases digits.len(),
{
    if digits.len() == 0 {
        0
    } else {
        10 * decimal_value(digits.drop_last()) + (digits.last() - 48)
    }
}

/// The number a token denotes, where it is a number that fits in 16 bits.
pub open spec fn number_of(token: Seq<u8>) -> Option<u16> {
    if is_number(token) && decimal_value(digits_of(token)) <= u16::MAX {
        Some(decimal_value(digits_of(token)) as u16)
    } else {
        None
    }
}

/// Whether a number is a status code: three decimal digits, the first not zero.
pub open spec fn is_status_code(code: u16) -> bool {
    100 <= code <= 999
}

/// The status code of a status line: the number that its leading token
/// denotes, where that is a status code.
pub open spec fn status_code_of(line: Seq<u8>) -> Option<u16> {
    match number_of(leading_token(line)) {
        Some(code) => if is_status_code(code) {
            Some(code)
        } else {
            None
        },
        None => None,
    }
}

/// A status line taken apart.
#[derive(Debug, Clone, PartialEq, Eq)]
pub struct StatusLine {
    pub code: u16,
    pub reason: Vec<u8>,
}

/// Calls `http::StatusCode::from_u16` and hands out the number of the status
/// code it built. The call succeeds exactly on the numbers from 100 to 999,
/// and the status code holds the number given.
#[verifier::external_body]
fn status_code_from_u16(code: u16) -> (r: Result<u16, http::status::InvalidStatusCode>)
    ensures
        r.is_ok() == is_status_code(code),
        r matches Ok(c) ==> c == code,
{
    match http::StatusCode::from_u16(code) {
        Ok(status) => Ok(status.as_u16()),
        Err(e) => Err(e),
    }
}

proof fn lemma_decimal_prefix(digits: Seq<u8>, i: int)
    requires
        0 <= i <= digits.len(),
        forall|j: int| 0 <= j < digits.len() ==> is_digit(#[trigger] digits[j]),
    ensures
        0 <= decimal_value(digits.subrange(0, i)) <= decimal_value(digits),
    decreases digits.len() - i,
{
    if i < digits.len() {
        lemma_decimal_prefix(digits, i + 1);
        assert(digits.subrange(0, i + 1).drop_last() =~= digits.subrange(0, i));
        lemma_decimal_nonnegative(digits.subrange(0, i));
    } else {
        assert(digits.subrange(0, i) =~= digits);
        lemma_decimal_nonnegative(digits);
    }
}

proof fn lemma_decimal_nonnegative(digits: Seq<u8>)
    requires
        forall|j: int| 0 <= j < digits.len() ==> is_digit(#[trigger] digits[j]),
    ensures
        0 <= decimal_value(digits),
    decreases digits.len(),
{
    if digits.len() > 0 {
        lemma_decimal_nonnegative(digits.drop_last());
    }
}

/// Reads a token as an unsigned decimal number of at most 16 bits: an
/// optional plus sign, then digits only.
pub fn parse_u16(token: &[u8]) -> (r: Option<u16>)
    ensures
        r == number_of(token@),
{
    let n: usize = token.len();
    let start: usize = if n > 0 && token[0] == PLUS {
        1
    } else {
        0
    };
    let ghost digits = digits_of(token@);
    assert(digits =~= token@.subrange(start as int, n as int));
    if start == n {
        return None;
    }
    let mut acc: u32 = 0;
    let mut i: usize = start;
    while i < n
        invariant
            start <= i <= n,
            n == token.len(),
            digits == token@.subrange(start as int, n as int),
            digits == digits_of(token@),
            forall|j: int| 0 <= j < i - start ==> is_digit(#[trigger] digits[j]),
            acc == decimal_value(digits.subrange(0, i - start)),
            acc <= u16::MAX,
        decreases n - i,
    {
        let b: u8 = token[i];
        assert(digits[i - start] == b);
        if b < 48 || b > 57 {
            return None;
        }
        let next: u32 = acc * 10 + (b - 48) as u32;
        assert(digits.subrange(0, i + 1 - start).drop_last() =~= digits.subrange(
            0,
            i - start,
        ));
        assert(next == decimal_value(digits.subrange(0, i + 1 - start)));
        if next > 65535 {
            proof {
                if is_number(token@) {
                    lemma_decimal_prefix(digits, i + 1 - start);
                }
            }
            return None;
        }
        acc = next;
        i += 1;
    }
    assert(digits.subrange(0, n - start) =~= digits);
    Some(acc as u16)
}

/// Finds the end of the leading token: the position of the first space, or
/// the length of the line.
pub fn find_token_end(line: &[u8]) -> (k: usize)
    ensures
        k == token_len(line@),
        k <= line.len(),
{
    let mut k: usize = 0;
    while k < line.len() && line[k] != SPACE
        invariant
            k <= line.len(),
            token_len(line@) == k + token_len_from(line@, k as int),
        decreases line.len() - k,
    {
        k += 1;
    }
    k
}

/// Takes a status line apart. The line is accepted exactly when its leading
/// token denotes a status code; the reason phrase is handed on as it stands.
pub fn parse_status_line(line: &[u8]) -> (r: Result<StatusLine, ValidationError>)
    ensures
        match r {
            Ok(status) => status_code_of(line@) == Some(status.code) && status.reason@
                == reason_of(line@),
            Err(e) => e == ValidationError::StatusLine && status_code_of(line@).is_none(),
        },
{
    let n: usize = line.len();
    let k: usize = find_token_end(line);
    let number = match parse_u16(slice_subrange(line, 0, k)) {
        Some(number) => number,
        None => {
            return Err(ValidationError::StatusLine);
        },
    };
    let code = match status_code_from_u16(number) {
        Ok(code) => code,
        Err(_) => {
            return Err(ValidationError::StatusLine);
        },
    };
    let mut reason: Vec<u8> = Vec::new();
    if k < n {
        let mut i: usize = k + 1;
        while i < n
            invariant
                k < i <= n,
                n == line.len(),
                reason@ == line@.subrange(k + 1, i as int),
            decreases n - i,
        {
            reason.push(line[i]);
            assert(line@.subrange(k + 1, i as int).push(line@[i as int]) =~= line@.subrange(
                k + 1,
                i + 1,
            ));
            i += 1;
        }
    } else {
        assert(reason@ =~= Seq::empty());
    }
    Ok(StatusLine { code, reason })
}

} // verus!
