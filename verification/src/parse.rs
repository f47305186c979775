//! Parsing the text of a numeric input field.
//!
//! An input event hands the page raw text. Only a plain decimal number
//! — one or more ASCII digits whose value fits the cell — produces a
//! write; anything else is rejected and the cell keeps its prior value.

use vstd::prelude::*;

verus! {

/// An ASCII decimal digit.
pub open spec fn is_ascii_digit(c: char) -> bool {
    '0' <= c && c <= '9'
}

/// Numeric value of one digit character.
pub open spec fn digit_value(c: char) -> int {
    c as u32 - '0' as u32
}

/// Every character of the text is a decimal digit.
pub open spec fn is_digit_seq(s: Seq<char>) -> bool {
    forall|i: int| 0 <= i < s.len() ==> is_ascii_digit(#[trigger] s[i])
}

/// The texts that produce a write: one or more ASCII digits whose
/// decimal value fits in a cell.
pub open spec fn parses(s: Seq<char>) -> bool {
    s.len() > 0 && is_digit_seq(s) && dec_value(s) <= u64::MAX
}

/// Value of a digit string read left to right in base ten.
pub open spec fn dec_value(s: Seq<char>) -> int
    decreases s.len(),
{
    if s.len() == 0 {
        0
    } else {
        dec_value(s.drop_last()) * 10 + digit_value(s.last())
    }
}

/// A digit string's value is non-negative.
pub proof fn lemma_dec_value_nonneg(s: Seq<char>)
    requires
        is_digit_seq(s),
    ensures
        dec_value(s) >= 0,
    decreases s.len(),
{
    if s.len() > 0 {
        assert(is_digit_seq(s.drop_last()));
        lemma_dec_value_nonneg(s.drop_last());
    }
}

/// Reading further digits never shrinks the value: a prefix's value is
/// at most the whole string's.
pub proof fn lemma_dec_value_prefix_mono(s: Seq<char>, i: int)
    requires
        is_digit_seq(s),
        0 <= i <= s.len(),
    ensures
        dec_value(s.take(i)) <= dec_value(s),
    decreases s.len() - i,
{
    if i < s.len() {
        let t = s.take(i + 1);
        assert(t.drop_last() =~= s.take(i));
        assert(is_digit_seq(s.take(i)));
        lemma_dec_value_nonneg(s.take(i));
        assert(dec_value(t) == dec_value(s.take(i)) * 10 + digit_value(s[i]));
        assert(dec_value(s.take(i)) * 10 >= dec_value(s.take(i)));
        lemma_dec_value_prefix_mono(s, i + 1);
    } else {
        assert(s.take(i) =~= s);
    }
}

/// Parse the text of a numeric input field.
///
/// Returns the parsed number exactly when the text is one or more
/// ASCII digits and its decimal value fits in the cell; on any other
/// text no value — and so no write — is produced.
pub fn parse_u64(s: &str) -> (r: Option<u64>)
    ensures
        r is Some <==> parses(s@),
        r is Some ==> r->Some_0 == dec_value(s@),
{
    let n = s.unicode_len();
    if n == 0 {
        return Option::None;
    }
    let mut acc: u64 = 0;
    let mut i: usize = 0;
    while i < n
        invariant
            0 <= i <= n,
            n == s@.len(),
            is_digit_seq(s@.take(i as int)),
            acc == dec_value(s@.take(i as int)),
        decreases n - i,
    {
        let c = s.get_char(i);
        let cv = c as u32;
        if cv < 48 || cv > 57 {
            // A non-digit anywhere rejects the whole text.
            assert(!is_ascii_digit(s@[i as int]));
            return Option::None;
        }
        let digit: u64 = (cv - 48) as u64;
        proof {
            assert(is_ascii_digit(s@[i as int]));
            assert(digit == digit_value(s@[i as int]));
            assert(s@.take(i + 1int).drop_last() =~= s@.take(i as int));
            assert(s@.take(i + 1int).last() == s@[i as int]);
        }
        let scaled = match acc.checked_mul(10) {
            Option::Some(v) => v,
            Option::None => {
                proof {
                    lemma_overflow_rejects(s@, i as int, acc * 10 + digit);
                }
                return Option::None;
            },
        };
        acc = match scaled.checked_add(digit) {
            Option::Some(v) => v,
            Option::None => {
                proof {
                    lemma_overflow_rejects(s@, i as int, acc * 10 + digit);
                }
                return Option::None;
            },
        };
        i = i + 1;
    }
    proof {
        assert(s@.take(n as int) =~= s@);
    }
    Option::Some(acc)
}

/// Once some prefix's value has outgrown the cell, no continuation of
/// the text can be accepted.
proof fn lemma_overflow_rejects(s: Seq<char>, i: int, next: int)
    requires
        0 <= i < s.len(),
        is_digit_seq(s.take(i)),
        is_ascii_digit(s[i]),
        next == dec_value(s.take(i)) * 10 + digit_value(s[i]),
        next > u64::MAX,
    ensures
        !(s.len() > 0 && is_digit_seq(s) && dec_value(s) <= u64::MAX),
{
    if is_digit_seq(s) {
        assert(s.take(i + 1).drop_last() =~= s.take(i));
        assert(s.take(i + 1).last() == s[i]);
        assert(dec_value(s.take(i + 1)) == next);
        lemma_dec_value_prefix_mono(s, i + 1);
    }
}

} // verus!
