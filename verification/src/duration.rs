//! The grammar of sampling intervals: a number, optionally followed by one of
//! the units `ms`, `s`, `m`, `h`, in either case, with blanks around it
//! allowed. A number without a unit counts milliseconds.

use crate::text::{
    chars_of, ends_with, has_ascii_letter, is_ascii_letter, lower, matches_at, to_ascii_lower,
};
use std::time::Duration;
use vstd::prelude::*;
use vstd::slice::slice_subrange;

verus! {

/// Whether `c` is whitespace: the answer of `char::is_whitespace`, which
/// goes by the Unicode property `White_Space`. Nothing is proved of it; it is
/// known only as far as [`char_is_whitespace`] tells it.
pub uninterp spec fn is_whitespace(c: char) -> bool;

/// The length of `d` in nanoseconds: what a `Duration` holds. Nothing is
/// proved of it; it is known only as far as the specifications of
/// `Duration::from_millis` and `Duration::from_secs` below tell it.
pub uninterp spec fn duration_nanos(d: Duration) -> nat;

/// Calls `char::is_whitespace`. Taken on trust: the answer depends on the
/// character alone.
#[verifier::external_body]
fn char_is_whitespace(c: char) -> (b: bool)
    ensures
        b == is_whitespace(c),
{
    c.is_whitespace()
}

/// Calls `String::push`. Taken on trust: the string afterwards is the string
/// before with `c` added at its end.
#[verifier::external_body]
fn string_push(s: &mut String, c: char)
    ensures
        final(s)@ == old(s)@.push(c),
{
    s.push(c)
}

/// Taken on trust of `Duration::from_millis`: the duration that it returns is
/// `millis` milliseconds long.
pub assume_specification[ Duration::from_millis ](millis: u64) -> (d: Duration)
    ensures
        duration_nanos(d) == millis as nat * 1_000_000,
;

/// Taken on trust of `Duration::from_secs`: the duration that it returns is
/// `secs` seconds long.
pub assume_specification[ Duration::from_secs ](secs: u64) -> (d: Duration)
    ensures
        duration_nanos(d) == secs as nat * 1_000_000_000,
;

/// Errors returned by [`parse_duration`] when the input is malformed.
#[derive(Debug, Clone, PartialEq, Eq)]
pub enum ParseDurationError {
    /// The string was empty or whitespace.
    Empty,
    /// The numeric portion could not be parsed, or the duration it gives does
    /// not fit.
    InvalidNumber,
    /// The unit was not recognized (e.g., `1x`). Holds the input without the
    /// blanks around it, in lower case.
    UnsupportedUnit(String),
}

/// What a [`ParseDurationError`] stands for.
pub enum ParseDurationErrorView {
    Empty,
    InvalidNumber,
    UnsupportedUnit(Seq<char>),
}

impl View for ParseDurationError {
    type V = ParseDurationErrorView;

    open spec fn view(&self) -> ParseDurationErrorView {
        match self {
            ParseDurationError::Empty => ParseDurationErrorView::Empty,
            ParseDurationError::InvalidNumber => ParseDurationErrorView::InvalidNumber,
            ParseDurationError::UnsupportedUnit(unit) => ParseDurationErrorView::UnsupportedUnit(
                unit@,
            ),
        }
    }
}

impl ParseDurationError {
    /// The text of [`ParseDurationError::message`].
    pub open spec fn message_text(&self) -> Seq<char> {
        match self {
            ParseDurationError::Empty => "Duration string is empty"@,
            ParseDurationError::InvalidNumber => "Invalid number in duration"@,
            ParseDurationError::UnsupportedUnit(unit) => "Unsupported duration unit: "@ + unit@,
        }
    }

    /// A sentence that names the error.
    pub fn message(&self) -> (text: String)
        ensures
            text@ == self.message_text(),
    {
        match self {
            ParseDurationError::Empty => "Duration string is empty".to_owned(),
            ParseDurationError::InvalidNumber => "Invalid number in duration".to_owned(),
            ParseDurationError::UnsupportedUnit(unit) => "Unsupported duration unit: ".to_owned().concat(
                unit.as_str(),
            ),
        }
    }
}

/// `s` without the whitespace at its start.
pub open spec fn trim_start(s: Seq<char>) -> Seq<char>
    decreases s.len(),
{
    if s.len() > 0 && is_whitespace(s.first()) {
        trim_start(s.drop_first())
    } else {
        s
    }
}

/// `s` without the whitespace at its end.
pub open spec fn trim_end(s: Seq<char>) -> Seq<char>
    decreases s.len(),
{
    if s.len() > 0 && is_whitespace(s.last()) {
        trim_end(s.drop_last())
    } else {
        s
    }
}

/// `s` without the whitespace at its start and at its end.
pub open spec fn trimmed(s: Seq<char>) -> Seq<char> {
    trim_end(trim_start(s))
}

/// Whether `c` is one of `0..=9`.
pub open spec fn is_digit(c: char) -> bool {
    '0' <= c && c <= '9'
}

/// The value of the digit `c`; zero for any other character.
pub open spec fn digit_value(c: char) -> nat {
    if is_digit(c) {
        (c as u32 - 48) as nat
    } else {
        0
    }
}

/// Whether `s` holds digits only.
pub open spec fn all_digits(s: Seq<char>) -> bool {
    forall|i: int| 0 <= i < s.len() ==> is_digit(#[trigger] s[i])
}

/// The number that the digits of `s` write in base ten.
pub open spec fn digits_value(s: Seq<char>) -> nat
    decreases s.len(),
{
    if s.len() == 0 {
        0
    } else {
        10 * digits_value(s.drop_last()) + digit_value(s.last())
    }
}

/// `s` without one `+` at its start.
pub open spec fn unsigned_part(s: Seq<char>) -> Seq<char> {
    if s.len() > 0 && s.first() == '+' {
        s.drop_first()
    } else {
        s
    }
}

/// The number that `s` writes: an optional `+`, then one digit or more, and
/// nothing else; none where `s` is not of that form or the number is above
/// `u64::MAX`.
pub open spec fn number_of(s: Seq<char>) -> Option<u64> {
    let digits = unsigned_part(s);
    if digits.len() > 0 && all_digits(digits) && digits_value(digits) <= u64::MAX {
        Some(digits_value(digits) as u64)
    } else {
        None
    }
}

/// The length in nanoseconds of `factor` times the number that `s` writes,
/// in units of `unit_nanos` nanoseconds.
pub open spec fn amount_of(s: Seq<char>, factor: nat, unit_nanos: nat) -> Result<
    nat,
    ParseDurationErrorView,
> {
    match number_of(s) {
        Some(n) => if n * factor <= u64::MAX {
            Ok((n * factor * unit_nanos) as nat)
        } else {
            Err(ParseDurationErrorView::InvalidNumber)
        },
        None => Err(ParseDurationErrorView::InvalidNumber),
    }
}

/// The length in nanoseconds that `text` writes, or why it writes none.
/// `text` is read in lower case, and as it stands: blanks around the number
/// are not skipped here.
pub open spec fn duration_of_text(text: Seq<char>) -> Result<nat, ParseDurationErrorView> {
    let n = lower(text);
    if n.len() == 0 {
        Err(ParseDurationErrorView::Empty)
    } else if ends_with(n, seq!['m', 's']) {
        amount_of(n.take(n.len() - 2), 1, 1_000_000)
    } else if n.last() == 's' {
        amount_of(n.drop_last(), 1, 1_000_000_000)
    } else if n.last() == 'm' {
        amount_of(n.drop_last(), 60, 1_000_000_000)
    } else if n.last() == 'h' {
        amount_of(n.drop_last(), 3600, 1_000_000_000)
    } else if has_ascii_letter(n) {
        Err(ParseDurationErrorView::UnsupportedUnit(n))
    } else {
        amount_of(n, 1, 1_000_000)
    }
}

/// The length in nanoseconds that `s` writes, or why it writes none: what
/// `s` without the whitespace around it writes.
pub open spec fn duration_of(s: Seq<char>) -> Result<nat, ParseDurationErrorView> {
    duration_of_text(trimmed(s))
}

/// The value of a prefix is at most the value of the whole.
proof fn lemma_digits_value_grows(s: Seq<char>, k: int)
    requires
        0 <= k <= s.len(),
    ensures
        digits_value(s.take(k)) <= digits_value(s),
    decreases s.len(),
{
    if k == s.len() {
        assert(s.take(k) =~= s);
    } else {
        assert(s.drop_last().take(k) =~= s.take(k));
        lemma_digits_value_grows(s.drop_last(), k);
    }
}

/// The bounds of `chars` without the whitespace at its two ends.
fn trim_bounds(chars: &[char]) -> (bounds: (usize, usize))
    ensures
        bounds.0 <= bounds.1 <= chars@.len(),
        chars@.subrange(bounds.0 as int, bounds.1 as int) == trimmed(chars@),
{
    let n: usize = chars.len();
    let mut start: usize = 0;
    assert(chars@.skip(0) =~= chars@);
    while start < n && char_is_whitespace(chars[start])
        invariant
            n == chars@.len(),
            start <= n,
            trim_start(chars@) == trim_start(chars@.skip(start as int)),
        decreases n - start,
    {
        assert(chars@.skip(start as int).drop_first() =~= chars@.skip(start + 1));
        start += 1;
    }
    let mut end: usize = n;
    while end > start && char_is_whitespace(chars[end - 1])
        invariant
            n == chars@.len(),
            start <= end <= n,
            trimmed(chars@) == trim_end(chars@.subrange(start as int, end as int)),
        decreases end - start,
    {
        assert(chars@.subrange(start as int, end as int).drop_last() =~= chars@.subrange(
            start as int,
            end - 1,
        ));
        end -= 1;
    }
    (start, end)
}

/// Reads the number that `chars` writes.
fn parse_number(chars: &[char]) -> (number: Option<u64>)
    ensures
        number == number_of(chars@),
{
    let n: usize = chars.len();
    let first: usize = if n > 0 && chars[0] == '+' {
        1
    } else {
        0
    };
    let ghost digits = unsigned_part(chars@);
    if first == n {
        return None;
    }
    let mut acc: u64 = 0;
    let mut i: usize = first;
    while i < n
        invariant
            n == chars@.len(),
            first <= i <= n,
            digits == chars@.skip(first as int),
            digits == unsigned_part(chars@),
            all_digits(digits.take(i - first)),
            acc == digits_value(digits.take(i - first)),
        decreases n - i,
    {
        let c: char = chars[i];
        proof {
            let next = digits.take(i - first + 1);
            assert(next.drop_last() =~= digits.take(i - first));
            lemma_digits_value_grows(digits, i - first + 1);
        }
        if !('0' <= c && c <= '9') {
            return None;
        }
        let d: u64 = (c as u32 - 48) as u64;
        let scaled: u64 = match acc.checked_mul(10) {
            Some(v) => v,
            None => {
                return None;
            },
        };
        acc = match scaled.checked_add(d) {
            Some(v) => v,
            None => {
                return None;
            },
        };
        i += 1;
    }
    assert(digits.take(n - first) =~= digits);
    Some(acc)
}

/// The string that `chars` spell.
fn string_of(chars: &[char]) -> (s: String)
    ensures
        s@ == chars@,
{
    let mut s = String::new();
    let mut i: usize = 0;
    while i < chars.len()
        invariant
            i <= chars@.len(),
            s@ == chars@.take(i as int),
        decreases chars@.len() - i,
    {
        string_push(&mut s, chars[i]);
        i += 1;
    }
    s
}

/// Tests whether some character of `chars` is an ASCII letter.
fn any_ascii_letter(chars: &[char]) -> (b: bool)
    ensures
        b == has_ascii_letter(chars@),
{
    let mut i: usize = 0;
    while i < chars.len()
        invariant
            i <= chars@.len(),
            forall|k: int| 0 <= k < i ==> !is_ascii_letter(#[trigger] chars@[k]),
        decreases chars@.len() - i,
    {
        let c: char = chars[i];
        if ('a' <= c && c <= 'z') || ('A' <= c && c <= 'Z') {
            return true;
        }
        i += 1;
    }
    false
}

/// Reads `factor` times the number that `chars` writes, as a count of
/// milliseconds (`in_millis`) or of seconds.
fn parse_amount(chars: &[char], factor: u64, in_millis: bool) -> (result: Result<
    Duration,
    ParseDurationError,
>)
    ensures
        match amount_of(
            chars@,
            factor as nat,
            if in_millis {
                1_000_000
            } else {
                1_000_000_000
            },
        ) {
            Ok(nanos) => result is Ok && duration_nanos(result->Ok_0) == nanos,
            Err(e) => result is Err && result->Err_0@ == e,
        },
{
    let number: u64 = match parse_number(chars) {
        Some(n) => n,
        None => {
            return Err(ParseDurationError::InvalidNumber);
        },
    };
    let count: u64 = match number.checked_mul(factor) {
        Some(c) => c,
        None => {
            return Err(ParseDurationError::InvalidNumber);
        },
    };
    if in_millis {
        Ok(Duration::from_millis(count))
    } else {
        Ok(Duration::from_secs(count))
    }
}

/// Parses a duration that has no blanks around it: `text` as a whole is a
/// number, optionally followed by a unit in either case.
pub fn parse_trimmed(text: &[char]) -> (result: Result<Duration, ParseDurationError>)
    ensures
        match duration_of_text(text@) {
            Ok(nanos) => result is Ok && duration_nanos(result->Ok_0) == nanos,
            Err(e) => result is Err && result->Err_0@ == e,
        },
{
    let n: usize = text.len();
    if n == 0 {
        return Err(ParseDurationError::Empty);
    }
    let mut folded: Vec<char> = Vec::new();
    let mut i: usize = 0;
    while i < n
        invariant
            n == text@.len(),
            i <= n,
            folded@ == lower(text@.take(i as int)),
        decreases n - i,
    {
        folded.push(to_ascii_lower(text[i]));
        i += 1;
    }
    assert(text@.take(n as int) =~= text@);
    let ms: [char; 2] = ['m', 's'];
    if n >= 2 && matches_at(folded.as_slice(), ms.as_slice(), n - 2) {
        let number = slice_subrange(folded.as_slice(), 0, n - 2);
        parse_amount(number, 1, true)
    } else {
        let last: char = folded[n - 1];
        let number = slice_subrange(folded.as_slice(), 0, n - 1);
        if last == 's' {
            parse_amount(number, 1, false)
        } else if last == 'm' {
            parse_amount(number, 60, false)
        } else if last == 'h' {
            parse_amount(number, 3600, false)
        } else if any_ascii_letter(folded.as_slice()) {
            Err(ParseDurationError::UnsupportedUnit(string_of(folded.as_slice())))
        } else {
            parse_amount(folded.as_slice(), 1, true)
        }
    }
}

/// Parses strings like "100", "100ms", "1s", "1m", "1h" into a `Duration`.
/// Accepts upper- or lower-case units and trims surrounding whitespace.
///
/// A number is an optional `+` and digits. It fails as `InvalidNumber` where
/// it is not of that form, and where the count of milliseconds or seconds
/// that it gives is above `u64::MAX`.
pub fn parse_duration(s: &str) -> (result: Result<Duration, ParseDurationError>)
    ensures
        match duration_of(s@) {
            Ok(nanos) => result is Ok && duration_nanos(result->Ok_0) == nanos,
            Err(e) => result is Err && result->Err_0@ == e,
        },
{
    let chars = chars_of(s);
    let (start, end) = trim_bounds(chars.as_slice());
    parse_trimmed(slice_subrange(chars.as_slice(), start, end))
}

} // verus!
