//! The textual encodings that files use: URL-safe base64 without padding
//! for binary identifiers (from the `base64` crate) and decimal text for
//! amounts (from std, whose decimal form is stated here).
use vstd::prelude::*;
use base64::engine::general_purpose::URL_SAFE_NO_PAD;
use base64::{DecodeError, Engine};
use core::num::ParseIntError;

verus! {

#[verifier::external_type_specification]
#[verifier::external_body]
pub struct ExDecodeError(DecodeError);

#[verifier::external_type_specification]
#[verifier::external_body]
pub struct ExParseIntError(ParseIntError);

/// The URL-safe, unpadded base64 text of some bytes.
pub uninterp spec fn base64_url_text(bytes: Seq<u8>) -> Seq<char>;

/// The bytes that a text stands for in URL-safe, unpadded base64, if the
/// text is valid there.
pub uninterp spec fn base64_url_bytes(text: Seq<char>) -> Option<Seq<u8>>;

/// A character is a decimal digit.
pub open spec fn is_digit(c: char) -> bool {
    '0' <= c && c <= '9'
}

/// The value of a decimal digit.
pub open spec fn digit_value(c: char) -> int {
    (c as int) - ('0' as int)
}

/// The digit that writes `d`, for `d` in `0..10`.
pub open spec fn digit_char(d: int) -> char {
    (d + ('0' as int)) as char
}

/// The digits of `n` in decimal, most significant first, without leading
/// zeros ("0" for zero).
pub open spec fn decimal_digits(n: nat) -> Seq<char>
    decreases n,
{
    if n < 10 {
        seq![digit_char(n as int)]
    } else {
        decimal_digits(n / 10).push(digit_char((n % 10) as int))
    }
}

/// The number that a sequence of digits writes, most significant first.
pub open spec fn digits_value(s: Seq<char>) -> int
    decreases s.len(),
{
    if s.len() == 0 {
        0
    } else {
        digits_value(s.drop_last()) * 10 + digit_value(s.last())
    }
}

/// The decimal text of a number.
pub open spec fn decimal_text(n: u128) -> Seq<char> {
    decimal_digits(n as nat)
}

/// The number that a text stands for as a decimal `u128`, if any: an
/// optional `+`, then one or more digits (leading zeros allowed), whose
/// value fits in a `u128`.
pub open spec fn decimal_value(text: Seq<char>) -> Option<u128> {
    let digits = if text.len() > 0 && text[0] == '+' { text.drop_first() } else { text };
    if digits.len() > 0 && (forall|i: int| 0 <= i < digits.len() ==> #[trigger] is_digit(digits[i]))
        && digits_value(digits) <= u128::MAX {
        Some(digits_value(digits) as u128)
    } else {
        None
    }
}

/// The digits of a number are digits, do not start with `+`, and write
/// that number.
pub proof fn lemma_decimal_digits(n: nat)
    ensures
        decimal_digits(n).len() > 0,
        decimal_digits(n)[0] != '+',
        forall|i: int| 0 <= i < decimal_digits(n).len() ==> #[trigger] is_digit(decimal_digits(n)[i]),
        digits_value(decimal_digits(n)) == n,
    decreases n,
{
    if n < 10 {
        assert(decimal_digits(n).drop_last() =~= Seq::<char>::empty());
        assert(digit_value(digit_char(n as int)) == n);
        assert(decimal_digits(n).last() == digit_char(n as int));
        assert(digits_value(Seq::<char>::empty()) == 0);
        assert(digits_value(decimal_digits(n)) == digits_value(decimal_digits(n).drop_last()) * 10 + digit_value(
            decimal_digits(n).last(),
        ));
    } else {
        let d = (n % 10) as int;
        assert(digit_value(digit_char(d)) == d);
        assert(decimal_digits(n).last() == digit_char(d));
        lemma_decimal_digits(n / 10);
        let s = decimal_digits(n);
        assert(s.drop_last() =~= decimal_digits(n / 10));
        assert(s[0] == decimal_digits(n / 10)[0]);
        assert forall|i: int| 0 <= i < s.len() implies #[trigger] is_digit(s[i]) by {
            if i < s.len() - 1 {
                assert(s[i] == decimal_digits(n / 10)[i]);
            }
        }
        assert(n == (n / 10) * 10 + n % 10) by (nonlinear_arith);
        assert(digits_value(s) == digits_value(s.drop_last()) * 10 + digit_value(s.last()));
        assert(digits_value(s.drop_last()) == n / 10);
        assert(digits_value(s) == (n / 10) * 10 + d);
    }
}

/// Reading the decimal text of a number gives back the number.
pub proof fn lemma_decimal_round_trip(n: u128)
    ensures
        decimal_value(decimal_text(n)) == Some(n),
{
    lemma_decimal_digits(n as nat);
}

/// `Engine::encode` with `URL_SAFE_NO_PAD`: the base64 text of `bytes`,
/// which the same engine decodes back to `bytes`.
#[verifier::external_body]
pub(crate) fn encode_base64_url(bytes: &[u8]) -> (r: String)
    ensures
        r@ == base64_url_text(bytes@),
        base64_url_bytes(r@) == Some(bytes@),
{
    URL_SAFE_NO_PAD.encode(bytes)
}

/// `Engine::decode` with `URL_SAFE_NO_PAD`: the bytes of `text`, or the
/// decoder's error where `text` is not valid base64 of that kind.
#[verifier::external_body]
pub(crate) fn decode_base64_url(text: &str) -> (r: Result<Vec<u8>, DecodeError>)
    ensures
        match r {
            Ok(v) => base64_url_bytes(text@) == Some(v@),
            Err(_) => base64_url_bytes(text@) is None,
        },
{
    URL_SAFE_NO_PAD.decode(text)
}

/// `u128::to_string`: the decimal text of `n`.
#[verifier::external_body]
pub(crate) fn u128_to_decimal(n: u128) -> (r: String)
    ensures
        r@ == decimal_text(n),
{
    n.to_string()
}

/// `str::parse::<u128>`: the number that `text` writes in decimal, or the
/// parser's error.
#[verifier::external_body]
pub(crate) fn u128_from_decimal(text: &str) -> (r: Result<u128, ParseIntError>)
    ensures
        match r {
            Ok(n) => decimal_value(text@) == Some(n),
            Err(_) => decimal_value(text@) is None,
        },
{
    text.parse::<u128>()
}

} // verus!
