//! Millisecond timestamps: reading one from decimal text, taking one from
//! the clock, and the window during which a transfer takes effect.

use vstd::prelude::*;
use vstd::string::StrSliceExecFns;
use chrono::{Timelike, Utc};

verus! {

/// Length in milliseconds of the interval, starting strictly after a
/// transfer's own timestamp, during which the transfer takes effect.
pub const TRANSFER_WINDOW_MS: i64 = 2_160_000;

/// Whether `now` lies strictly inside the window opened by `tx_time`: later
/// than `tx_time` and earlier than `tx_time + TRANSFER_WINDOW_MS`.
pub open spec fn in_window(tx_time: int, now: int) -> bool {
    tx_time < now < tx_time + TRANSFER_WINDOW_MS
}

/// Decides whether a transfer stamped `tx_time` takes effect at `now`.
pub fn within_window(tx_time: i64, now: i64) -> (inside: bool)
    ensures
        inside == in_window(tx_time as int, now as int),
{
    if now <= tx_time {
        return false;
    }
    match tx_time.checked_add(TRANSFER_WINDOW_MS) {
        Some(end) => now < end,
        None => true,
    }
}

/// Whether `c` is one of the ten decimal digits.
pub open spec fn is_digit(c: char) -> bool {
    '0' <= c <= '9'
}

/// The number that a decimal digit stands for.
pub open spec fn digit_value(c: char) -> int {
    c as int - '0' as int
}

/// Whether `s` holds decimal digits only.
pub open spec fn all_digits(s: Seq<char>) -> bool {
    forall|i: int| 0 <= i < s.len() ==> is_digit(#[trigger] s[i])
}

/// The number written by the digits `s`, most significant first.
pub open spec fn digits_value(s: Seq<char>) -> int
    decreases s.len(),
{
    if s.len() == 0 {
        0
    } else {
        10 * digits_value(s.drop_last()) + digit_value(s.last())
    }
}

/// Whether `s` starts with a sign.
pub open spec fn has_sign(s: Seq<char>) -> bool {
    s.len() > 0 && (s[0] == '-' || s[0] == '+')
}

/// The digits of `s`: all of it but a leading sign.
pub open spec fn decimal_body(s: Seq<char>) -> Seq<char> {
    if has_sign(s) {
        s.skip(1)
    } else {
        s
    }
}

/// The signed 64-bit integer written in `s`, if `s` is an optional sign
/// followed by at least one digit and nothing else, and the number fits.
pub open spec fn decimal_i64(s: Seq<char>) -> Option<int> {
    let body = decimal_body(s);
    let value = if has_sign(s) && s[0] == '-' {
        -digits_value(body)
    } else {
        digits_value(body)
    };
    if body.len() > 0 && all_digits(body) && i64::MIN <= value <= i64::MAX {
        Some(value)
    } else {
        None
    }
}

/// Digits never write a negative number, and a prefix of them never writes a
/// larger one than the whole.
pub proof fn lemma_digits_value_grows(s: Seq<char>, k: int)
    requires
        all_digits(s),
        0 <= k <= s.len(),
    ensures
        0 <= digits_value(s.take(k)) <= digits_value(s),
    decreases s.len(),
{
    if k == s.len() {
        assert(s.take(k) =~= s);
        if s.len() > 0 {
            assert(all_digits(s.drop_last()));
            lemma_digits_value_grows(s.drop_last(), k - 1);
            assert(s.drop_last().take(k - 1) =~= s.drop_last());
            assert(is_digit(s.last()));
        }
    } else {
        assert(all_digits(s.drop_last()));
        lemma_digits_value_grows(s.drop_last(), k);
        assert(s.drop_last().take(k) =~= s.take(k));
        assert(is_digit(s.last()));
    }
}

/// Reads a timestamp written as a decimal integer: an optional `+` or `-`,
/// then one or more digits. Anything else, and a number outside the signed
/// 64-bit range, gives `None`.
pub fn parse_timestamp(text: &str) -> (value: Option<i64>)
    ensures
        value is Some <==> decimal_i64(text@) is Some,
        value matches Some(v) ==> decimal_i64(text@) == Some(v as int),
{
    let ghost body = decimal_body(text@);
    if !text.is_ascii() {
        proof {
            let i = choose|i: int| 0 <= i < text@.len() && !('\0' <= #[trigger] text@[i] <= '\u{7f}');
            if has_sign(text@) {
                assert(i > 0);
                assert(body[i - 1] == text@[i]);
                assert(!is_digit(body[i - 1]));
            } else {
                assert(!is_digit(body[i]));
            }
        }
        return None;
    }
    let n = text.unicode_len();
    if n == 0 {
        return None;
    }
    let first = text.get_ascii(0);
    let negative = first == 45;
    let start: usize = if first == 45 || first == 43 { 1 } else { 0 };
    assert(has_sign(text@) <==> start == 1);
    assert(negative <==> has_sign(text@) && text@[0] == '-');
    assert(body.len() == n - start);
    if start == n {
        return None;
    }
    // `below` is the negated value of the digits read so far, so that the
    // most negative number can be reached.
    let mut below: i64 = 0;
    let mut i: usize = start;
    while i < n
        invariant
            start <= i <= n,
            n == text@.len(),
            text.is_ascii(),
            body == decimal_body(text@),
            body.len() == n - start,
            forall|j: int| 0 <= j < body.len() ==> body[j] == text@[j + start],
            all_digits(body.take(i - start)),
            below == -digits_value(body.take(i - start)),
            below <= 0,
        decreases n - i,
    {
        let byte = text.get_ascii(i);
        let ghost c = text@[i as int];
        assert(body[i - start] == c);
        assert('\0' <= c <= '\u{7f}');
        if byte < 48 || byte > 57 {
            assert(!is_digit(body[i - start]));
            return None;
        }
        assert(is_digit(c));
        let digit: i64 = (byte - 48) as i64;
        assert(digit == digit_value(c));
        let ghost read = body.take(i - start + 1);
        proof {
            assert(read.drop_last() =~= body.take(i - start));
            assert(read.last() == c);
            assert(all_digits(read)) by {
                assert forall|j: int| 0 <= j < read.len() implies is_digit(#[trigger] read[j]) by {
                    if j < i - start {
                        assert(body.take(i - start)[j] == read[j]);
                    }
                }
            }
            assert(digits_value(read) == -10 * below + digit);
            lemma_digits_value_grows(read, 0);
            if all_digits(body) {
                lemma_digits_value_grows(body, i - start + 1);
            }
        }
        let next = match below.checked_mul(10) {
            Some(tenfold) => tenfold.checked_sub(digit),
            None => None,
        };
        match next {
            Some(v) => {
                below = v;
            },
            None => {
                assert(digits_value(read) > -i64::MIN);
                return None;
            },
        }
        i = i + 1;
    }
    assert(body.take(i - start) =~= body);
    if negative {
        Some(below)
    } else if below == i64::MIN {
        None
    } else {
        Some(-below)
    }
}

/// Milliseconds since the Unix epoch for a time given as whole seconds since
/// then and nanoseconds into the current second.
pub open spec fn millis_of(seconds: int, nanoseconds: int) -> int {
    seconds * 1000 + nanoseconds / 1_000_000
}

/// Turns seconds and nanoseconds into milliseconds, dropping what is finer.
pub fn millis_from_parts(seconds: i64, nanoseconds: u32) -> (millis: i64)
    requires
        -9_000_000_000_000_000 <= seconds <= 9_000_000_000_000_000,
    ensures
        millis == millis_of(seconds as int, nanoseconds as int),
{
    let nanos: i64 = nanoseconds as i64;
    (seconds * 1000) + (nanos / 1000 / 1000)
}

/// Whole seconds that the clock can report, before or after the Unix epoch.
pub const CLOCK_SECONDS_LIMIT: i64 = 200_000_000_000_000;

/// Reads the clock through `chrono::Utc::now` and takes the time apart with
/// `DateTime::timestamp` and `Timelike::nanosecond`: whole seconds since the
/// Unix epoch and nanoseconds into the current second.
///
/// Not verified. The contract claims two ranges and nothing about which
/// moment is reported. `timestamp` multiplies a day count held in an `i32`
/// by 86 400 and adds a second count held in a `u32`, which stays within
/// `CLOCK_SECONDS_LIMIT`. `nanosecond` is documented to stay below two
/// billion, the second billion standing for a leap second. `Utc::now`
/// panics if the system clock is set before the Unix epoch.
#[verifier::external_body]
pub(crate) fn utc_now() -> (parts: (i64, u32))
    ensures
        -CLOCK_SECONDS_LIMIT <= parts.0 <= CLOCK_SECONDS_LIMIT,
        parts.1 < 2_000_000_000,
{
    let now = Utc::now();
    (now.timestamp(), now.nanosecond())
}

} // verus!
