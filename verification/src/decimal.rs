//! Unsigned decimal numbers as ASCII text.
//!
//! Two texts of the downloader are plain decimal numbers: the value of a
//! `Retry-After` header and the content of the progress file. A number is
//! read from one or more ASCII digits, which a single `+` may precede, and is
//! written without sign or leading zeros.

use vstd::prelude::*;
use vstd::string::{StrSliceExecFns, StringExecFns};

verus! {

/// The byte `+`.
pub const PLUS: u8 = 0x2b;

/// The byte `0`; the digits follow it in order.
pub const ZERO: u8 = 0x30;

/// Whether `b` is one of the bytes `0` to `9`.
pub open spec fn is_digit(b: u8) -> bool {
    ZERO <= b <= ZERO + 9
}

/// Whether every byte of `s` is a digit.
pub open spec fn all_digits(s: Seq<u8>) -> bool {
    forall|i: int| 0 <= i < s.len() ==> is_digit(#[trigger] s[i])
}

/// The number that the digits `s` spell in base ten, most significant first.
pub open spec fn digits_value(s: Seq<u8>) -> nat
    decreases s.len(),
{
    if s.len() == 0 {
        0
    } else {
        digits_value(s.drop_last()) * 10 + (s.last() - ZERO) as nat
    }
}

/// `s` without the `+` that may lead it.
pub open spec fn without_plus(s: Seq<u8>) -> Seq<u8> {
    if s.len() > 0 && s[0] == PLUS {
        s.skip(1)
    } else {
        s
    }
}

/// The number that the text `s` stands for: `s` is an optional `+` and then at
/// least one digit, nothing else, and the digits spell a value that a `u64`
/// holds. Any other text stands for no number.
pub open spec fn decimal_u64(s: Seq<u8>) -> Option<u64> {
    let digits = without_plus(s);
    if digits.len() > 0 && all_digits(digits) && digits_value(digits) <= u64::MAX {
        Some(digits_value(digits) as u64)
    } else {
        None
    }
}

/// The text of `n`: its base-ten digits, most significant first, with no
/// leading zero unless `n` is zero.
pub open spec fn decimal_digits(n: nat) -> Seq<u8>
    decreases n,
{
    if n < 10 {
        seq![(ZERO + n) as u8]
    } else {
        decimal_digits(n / 10).push((ZERO + n % 10) as u8)
    }
}

/// Appending a digit multiplies the value by ten and adds the digit.
proof fn lemma_value_push(s: Seq<u8>, b: u8)
    requires
        is_digit(b),
    ensures
        digits_value(s.push(b)) == digits_value(s) * 10 + (b - ZERO),
{
    assert(s.push(b).drop_last() =~= s);
}

/// A prefix of a digit string spells a value no larger than the whole string.
proof fn lemma_value_prefix(s: Seq<u8>, k: int)
    requires
        0 <= k <= s.len(),
        all_digits(s),
    ensures
        digits_value(s.take(k)) <= digits_value(s),
    decreases s.len() - k,
{
    if k == s.len() {
        assert(s.take(k) =~= s);
    } else {
        lemma_value_prefix(s, k + 1);
        assert(s.take(k + 1) =~= s.take(k).push(s[k]));
        lemma_value_push(s.take(k), s[k]);
    }
}

/// Reads an unsigned decimal number.
///
/// Returns the number for a text made of an optional `+` and one or more
/// digits whose value fits a `u64`; `None` for an empty text, a lone `+`, any
/// other byte anywhere, or a value beyond `u64::MAX`.
pub fn parse_u64(bytes: &[u8]) -> (number: Option<u64>)
    ensures
        number == decimal_u64(bytes@),
{
    let n = bytes.len();
    let start: usize = if n > 0 && bytes[0] == PLUS {
        1
    } else {
        0
    };
    let ghost digits = without_plus(bytes@);
    assert(digits =~= bytes@.skip(start as int));
    if start == n {
        return None;
    }
    let mut acc: u64 = 0;
    let mut i: usize = start;
    assert(digits.take(0) =~= Seq::<u8>::empty());
    while i < n
        invariant
            start <= i <= n,
            n == bytes@.len(),
            digits == bytes@.skip(start as int),
            digits == without_plus(bytes@),
            all_digits(digits.take(i - start)),
            acc == digits_value(digits.take(i - start)),
        decreases n - i,
    {
        let b = bytes[i];
        let ghost k = i - start;
        assert(digits[k] == b);
        if b < ZERO || b > ZERO + 9 {
            return None;
        }
        proof {
            assert(digits.take(k + 1) =~= digits.take(k).push(b));
            lemma_value_push(digits.take(k), b);
            if all_digits(digits) {
                lemma_value_prefix(digits, k + 1);
            }
        }
        let shifted = match acc.checked_mul(10) {
            Some(v) => v,
            None => {
                return None;
            },
        };
        acc = match shifted.checked_add((b - ZERO) as u64) {
            Some(v) => v,
            None => {
                return None;
            },
        };
        i += 1;
    }
    assert(digits.take(n - start) =~= digits);
    Some(acc)
}

/// Appends the text of `n` to `out`.
fn push_decimal(n: u64, out: &mut Vec<u8>)
    ensures
        final(out)@ == old(out)@ + decimal_digits(n as nat),
    decreases n,
{
    if n >= 10 {
        push_decimal(n / 10, out);
    }
    out.push(ZERO + (n % 10) as u8);
    assert(final(out)@ =~= old(out)@ + decimal_digits(n as nat));
}

/// Writes `n` as decimal text.
pub fn format_u64(n: u64) -> (text: Vec<u8>)
    ensures
        text@ == decimal_digits(n as nat),
{
    let mut text: Vec<u8> = Vec::new();
    push_decimal(n, &mut text);
    assert(text@ =~= decimal_digits(n as nat));
    text
}

/// The text of `n` as characters.
pub open spec fn decimal_text(n: nat) -> Seq<char> {
    decimal_digits(n).map_values(|digit: u8| digit as char)
}

/// Appends the text of `n` to `out`.
fn push_decimal_text(n: u64, out: &mut String)
    ensures
        final(out)@ == old(out)@ + decimal_text(n as nat),
    decreases n,
{
    if n >= 10 {
        push_decimal_text(n / 10, out);
    }
    let digits = "0123456789";
    proof {
        reveal_strlit("0123456789");
    }
    let last = (n % 10) as usize;
    let digit = digits.substring_ascii(last, last + 1);
    assert(digit@ =~= seq![((ZERO + n % 10) as u8) as char]);
    out.append(digit);
    assert(final(out)@ =~= old(out)@ + decimal_text(n as nat));
}

/// Writes `n` as a decimal string.
pub fn format_text(n: u64) -> (text: String)
    ensures
        text@ == decimal_text(n as nat),
{
    let mut text = String::new();
    push_decimal_text(n, &mut text);
    assert(text@ =~= decimal_text(n as nat));
    text
}

/// The text of a number is not empty, holds digits only, and spells that
/// number.
pub proof fn lemma_decimal_digits(n: nat)
    ensures
        decimal_digits(n).len() >= 1,
        all_digits(decimal_digits(n)),
        digits_value(decimal_digits(n)) == n,
    decreases n,
{
    if n < 10 {
        let s = decimal_digits(n);
        assert(s.drop_last() =~= Seq::<u8>::empty());
        assert(digits_value(s.drop_last()) == 0);
    } else {
        lemma_decimal_digits(n / 10);
        lemma_value_push(decimal_digits(n / 10), (ZERO + n % 10) as u8);
    }
}

/// What `format_u64` writes, `parse_u64` reads back as the same number.
pub proof fn lemma_format_then_parse(n: u64)
    ensures
        decimal_u64(decimal_digits(n as nat)) == Some(n),
{
    lemma_decimal_digits(n as nat);
}

} // verus!
