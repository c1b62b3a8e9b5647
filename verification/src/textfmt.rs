//! Plain-text formatting used throughout the layout engine: decimal digit
//! strings, fixed-point money amounts, zero-padded dates and string
//! truncation with an ellipsis.
use vstd::prelude::*;
use crate::types::{DateTime, Money};

verus! {

/// The character for one decimal digit value.
pub open spec fn digit_char(d: int) -> char {
    if d == 0 {
        '0'
    } else if d == 1 {
        '1'
    } else if d == 2 {
        '2'
    } else if d == 3 {
        '3'
    } else if d == 4 {
        '4'
    } else if d == 5 {
        '5'
    } else if d == 6 {
        '6'
    } else if d == 7 {
        '7'
    } else if d == 8 {
        '8'
    } else {
        '9'
    }
}

/// Decimal digit characters of a non-negative integer, most significant
/// digit first, without leading zeros.
pub open spec fn spec_digits(n: int) -> Seq<char>
    decreases n,
{
    if n < 10 {
        seq![digit_char(n)]
    } else {
        spec_digits(n / 10).push(digit_char(n % 10))
    }
}

/// A possibly negative integer as decimal text with a leading minus sign.
pub open spec fn spec_signed_digits(n: int) -> Seq<char> {
    if n < 0 {
        seq!['-'] + spec_digits(-n)
    } else {
        spec_digits(n)
    }
}

/// A value in two-digit form, zero padded on the left; values that do not
/// fit two digits keep all their digits.
pub open spec fn spec_pad2(n: int) -> Seq<char> {
    if n < 100 {
        seq![digit_char(n / 10), digit_char(n % 10)]
    } else {
        spec_digits(n)
    }
}

/// A value in four-digit form, zero padded on the left; values that do not
/// fit four digits keep all their digits.
pub open spec fn spec_pad4(n: int) -> Seq<char> {
    if n < 10000 {
        seq![
            digit_char(n / 1000),
            digit_char(n / 100 % 10),
            digit_char(n / 10 % 10),
            digit_char(n % 10),
        ]
    } else {
        spec_digits(n)
    }
}

/// Relies on `String::push` of std: appends the given character to the end
/// of the string.
#[verifier::external_body]
pub(crate) fn push_char(s: &mut String, c: char)
    ensures
        final(s)@ == old(s)@.push(c),
{
    s.push(c);
}

fn digit_char_of(d: u8) -> (c: char)
    requires
        d < 10,
    ensures
        c == digit_char(d as int),
{
    if d == 0 {
        '0'
    } else if d == 1 {
        '1'
    } else if d == 2 {
        '2'
    } else if d == 3 {
        '3'
    } else if d == 4 {
        '4'
    } else if d == 5 {
        '5'
    } else if d == 6 {
        '6'
    } else if d == 7 {
        '7'
    } else if d == 8 {
        '8'
    } else {
        '9'
    }
}

pub(crate) fn push_digits(n: u128, out: &mut String)
    ensures
        final(out)@ == old(out)@ + spec_digits(n as int),
    decreases n,
{
    if n < 10 {
        push_char(out, digit_char_of(n as u8));
        assert(final(out)@ =~= old(out)@ + spec_digits(n as int));
    } else {
        push_digits(n / 10, out);
        push_char(out, digit_char_of((n % 10) as u8));
        assert(final(out)@ =~= old(out)@ + spec_digits(n as int));
    }
}

/// A non-negative integer rendered as a decimal string.
pub fn unsigned_string(n: u128) -> (s: String)
    ensures
        s@ == spec_digits(n as int),
{
    let mut out = String::new();
    push_digits(n, &mut out);
    proof {
        assert(out@ =~= spec_digits(n as int));
    }
    out
}

/// A signed integer rendered as a decimal string with a leading minus sign
/// when negative.
pub fn signed_string(n: i128) -> (s: String)
    requires
        n != i128::MIN,
    ensures
        s@ == spec_signed_digits(n as int),
{
    let mut out = String::new();
    if n < 0 {
        push_char(&mut out, '-');
        push_digits((-n) as u128, &mut out);
        proof {
            assert(out@ =~= spec_signed_digits(n as int));
        }
    } else {
        push_digits(n as u128, &mut out);
        proof {
            assert(out@ =~= spec_signed_digits(n as int));
        }
    }
    out
}

pub(crate) fn push_pad2(n: u8, out: &mut String)
    ensures
        final(out)@ == old(out)@ + spec_pad2(n as int),
{
    if n < 100 {
        push_char(out, digit_char_of(n / 10));
        push_char(out, digit_char_of(n % 10));
        assert(final(out)@ =~= old(out)@ + spec_pad2(n as int));
    } else {
        push_digits(n as u128, out);
    }
}

pub(crate) fn push_pad4(n: u16, out: &mut String)
    ensures
        final(out)@ == old(out)@ + spec_pad4(n as int),
{
    if n < 10000 {
        push_char(out, digit_char_of((n / 1000) as u8));
        push_char(out, digit_char_of((n / 100 % 10) as u8));
        push_char(out, digit_char_of((n / 10 % 10) as u8));
        push_char(out, digit_char_of((n % 10) as u8));
        assert(final(out)@ =~= old(out)@ + spec_pad4(n as int));
    } else {
        push_digits(n as u128, out);
    }
}

/// A money amount as displayed: the currency text, one space, and the
/// amount with exactly two fraction digits and a minus sign when negative.
pub open spec fn spec_money_string(c: int, currency: Seq<char>) -> Seq<char> {
    let a = vstd::math::abs(c) as int;
    currency + seq![' '] + (if c < 0 {
        seq!['-']
    } else {
        Seq::<char>::empty()
    }) + spec_digits(a / 100) + seq!['.'] + seq![digit_char(a % 100 / 10), digit_char(a % 10)]
}

/// Formats a money amount for display in a numeric table column:
/// `currency` then the amount with two fraction digits.
pub fn format_decimal(amount: Money, currency: &str) -> (r: String)
    ensures
        r@ == spec_money_string(amount.cents as int, currency@),
{
    let mut out = currency.to_owned();
    push_char(&mut out, ' ');
    let wide: i128 = amount.cents as i128;
    let a: i128 = if wide < 0 {
        push_char(&mut out, '-');
        -wide
    } else {
        wide
    };
    push_digits((a / 100) as u128, &mut out);
    push_char(&mut out, '.');
    let frac: u8 = (a % 100) as u8;
    push_char(&mut out, digit_char_of(frac / 10));
    push_char(&mut out, digit_char_of(frac % 10));
    proof {
        assert(out@ =~= spec_money_string(amount.cents as int, currency@));
    }
    out
}

/// A date as displayed in document headers: four-digit year, two-digit
/// month and two-digit day, separated by dashes.
pub open spec fn spec_date_string(d: DateTime) -> Seq<char> {
    spec_pad4(d.year as int) + seq!['-'] + spec_pad2(d.month as int) + seq!['-'] + spec_pad2(
        d.day as int,
    )
}

/// Formats the date part of a timestamp as year-month-day with zero
/// padding.
pub fn format_date(d: DateTime) -> (r: String)
    ensures
        r@ == spec_date_string(d),
{
    let mut out = String::new();
    push_pad4(d.year, &mut out);
    push_char(&mut out, '-');
    push_pad2(d.month, &mut out);
    push_char(&mut out, '-');
    push_pad2(d.day, &mut out);
    proof {
        assert(out@ =~= spec_date_string(d));
    }
    out
}

/// What `truncate_string` returns: the string itself when it fits the
/// character budget, else its first `max_len - 3` characters followed by
/// three dots.
pub open spec fn spec_truncate(s: Seq<char>, max_len: int) -> Seq<char> {
    if s.len() <= max_len {
        s
    } else {
        s.take(max_len - 3) + seq!['.', '.', '.']
    }
}

/// The truncated form never exceeds the budget, so truncating twice is the
/// same as truncating once.
pub proof fn lemma_truncate_idempotent(s: Seq<char>, max_len: int)
    requires
        3 <= max_len,
    ensures
        spec_truncate(s, max_len).len() <= max_len,
        spec_truncate(spec_truncate(s, max_len), max_len) == spec_truncate(s, max_len),
{
}

/// Shortens a string to at most `max_len` characters, marking a cut with a
/// trailing ellipsis.  The budget is counted in characters, so the cut
/// never splits a multi-byte character.  A string within the budget is
/// returned unchanged whatever the budget; only a cut needs room for the
/// three dots.
pub fn truncate_string(s: &str, max_len: usize) -> (r: String)
    requires
        3 <= max_len || s@.len() <= max_len,
    ensures
        r@ == spec_truncate(s@, max_len as int),
{
    let n = s.unicode_len();
    if n <= max_len {
        s.to_owned()
    } else {
        let keep = max_len - 3;
        let mut out = String::new();
        let mut i: usize = 0;
        while i < keep
            invariant
                i <= keep,
                keep < n,
                n == s@.len(),
                out@ == s@.take(i as int),
            decreases keep - i,
        {
            let c = s.get_char(i);
            push_char(&mut out, c);
            proof {
                assert(out@ =~= s@.take(i as int + 1));
            }
            i = i + 1;
        }
        out.append("...");
        proof {
            reveal_strlit("...");
            assert(out@ =~= spec_truncate(s@, max_len as int));
        }
        out
    }
}

} // verus!
