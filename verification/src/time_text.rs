//! Reading a time of day written as text: an hour and a minute, each an
//! unsigned decimal number, separated by one colon.
//!
//! A number is an optional `+` followed by one or more of the digits `0` to
//! `9`, and its value has to fit in 32 bits. Nothing is trimmed: a blank, a
//! minus sign or any other character makes the text unreadable.

use vstd::prelude::*;

verus! {

/// `c` is one of the ten decimal digits.
pub open spec fn is_decimal_digit(c: char) -> bool {
    '0' <= c && c <= '9'
}

/// The number that the digit `c` stands for.
pub open spec fn digit_value(c: char) -> nat {
    (c as u32 - '0' as u32) as nat
}

/// Every character of `s` is a decimal digit.
pub open spec fn all_decimal_digits(s: Seq<char>) -> bool {
    forall|i: int| 0 <= i < s.len() ==> is_decimal_digit(#[trigger] s[i])
}

/// The number written by the digits `s`, most significant digit first.
/// The empty sequence stands for 0.
pub open spec fn decimal_value(s: Seq<char>) -> nat
    decreases s.len(),
{
    if s.len() == 0 {
        0
    } else {
        decimal_value(s.drop_last()) * 10 + digit_value(s.last())
    }
}

/// `s` without its leading `+`, if it has one.
pub open spec fn without_plus_sign(s: Seq<char>) -> Seq<char> {
    if s.len() > 0 && s[0] == '+' {
        s.subrange(1, s.len() as int)
    } else {
        s
    }
}

/// The number that `s` reads as, if it reads as one.
pub open spec fn number_of(s: Seq<char>) -> Option<u32> {
    let digits = without_plus_sign(s);
    if digits.len() > 0 && all_decimal_digits(digits) && decimal_value(digits) <= u32::MAX {
        Some(decimal_value(digits) as u32)
    } else {
        None
    }
}

/// `s` holds exactly one colon, and it stands at index `i`.
pub open spec fn sole_colon_at(s: Seq<char>, i: int) -> bool {
    &&& 0 <= i < s.len()
    &&& forall|j: int| 0 <= j < s.len() ==> (#[trigger] s[j] == ':' <==> j == i)
}

/// The hour and minute that `s` reads as, if it reads as a time of day:
/// exactly one colon, with a number on either side of it.
pub open spec fn time_of(s: Seq<char>) -> Option<(u32, u32)> {
    if exists|i: int| sole_colon_at(s, i) {
        let i = choose|i: int| sole_colon_at(s, i);
        match (number_of(s.subrange(0, i)), number_of(s.subrange(i + 1, s.len() as int))) {
            (Some(hour), Some(minute)) => Some((hour, minute)),
            _ => None,
        }
    } else {
        None
    }
}

/// A sequence of digits is worth at least as much as any of its prefixes.
pub proof fn lemma_decimal_value_of_prefix(s: Seq<char>, k: int)
    requires
        0 <= k <= s.len(),
    ensures
        decimal_value(s.subrange(0, k)) <= decimal_value(s),
    decreases s.len(),
{
    if k == s.len() {
        assert(s.subrange(0, k) =~= s);
    } else {
        lemma_decimal_value_of_prefix(s.drop_last(), k);
        assert(s.drop_last().subrange(0, k) =~= s.subrange(0, k));
    }
}

/// A text made of two parts with one colon between them, neither part
/// holding a colon of its own, reads as a time exactly when both parts read
/// as numbers.
pub proof fn lemma_time_of_parts(hour_text: Seq<char>, minute_text: Seq<char>)
    requires
        !hour_text.contains(':'),
        !minute_text.contains(':'),
    ensures
        time_of(hour_text + seq![':'] + minute_text) == (match (
            number_of(hour_text),
            number_of(minute_text),
        ) {
            (Some(hour), Some(minute)) => Some((hour, minute)),
            _ => None,
        }),
{
    let s = hour_text + seq![':'] + minute_text;
    let i = hour_text.len() as int;
    assert forall|j: int| 0 <= j < s.len() implies (#[trigger] s[j] == ':' <==> j == i) by {
        if j < i {
            assert(s[j] == hour_text[j]);
            assert(hour_text.contains(hour_text[j]));
        } else if j > i {
            assert(s[j] == minute_text[j - i - 1]);
            assert(minute_text.contains(minute_text[j - i - 1]));
        }
    }
    assert(sole_colon_at(s, i));
    let k = choose|k: int| sole_colon_at(s, k);
    assert(k == i) by {
        assert(s[i] == ':');
    }
    assert(s.subrange(0, i) =~= hour_text);
    assert(s.subrange(i + 1, s.len() as int) =~= minute_text);
}

/// The characters of `text`, in order.
fn chars_of(text: &str) -> (chars: Vec<char>)
    ensures
        chars@ == text@,
{
    let mut chars: Vec<char> = Vec::new();
    for c in it: text.chars()
        invariant
            chars@ == it.seq().take(it.index()),
            it.seq() == text@,
    {
        chars.push(c);
    }
    chars
}

/// Reads the characters of `chars` from `start` up to `end` as a number.
fn parse_number(chars: &Vec<char>, start: usize, end: usize) -> (number: Option<u32>)
    requires
        start <= end <= chars.len(),
    ensures
        number == number_of(chars@.subrange(start as int, end as int)),
{
    let ghost whole = chars@.subrange(start as int, end as int);
    let mut i: usize = start;
    if i < end && chars[i] == '+' {
        i = i + 1;
    }
    let first: usize = i;
    let ghost digits = chars@.subrange(first as int, end as int);
    assert(digits =~= without_plus_sign(whole));
    if i == end {
        return None;
    }
    let mut value: u32 = 0;
    while i < end
        invariant
            first <= i <= end <= chars.len(),
            whole == chars@.subrange(start as int, end as int),
            digits == chars@.subrange(first as int, end as int),
            digits == without_plus_sign(whole),
            digits.len() > 0,
            all_decimal_digits(digits.subrange(0, i - first)),
            value == decimal_value(digits.subrange(0, i - first)),
        decreases end - i,
    {
        let c: char = chars[i];
        let ghost seen = digits.subrange(0, i - first);
        let ghost next = digits.subrange(0, i + 1 - first);
        assert(next.drop_last() =~= seen);
        assert(next.last() == c);
        if !(c >= '0' && c <= '9') {
            assert(!is_decimal_digit(digits[i - first]));
            return None;
        }
        let d: u32 = c as u32 - '0' as u32;
        if value > (u32::MAX - d) / 10 {
            proof {
                assert(decimal_value(next) > u32::MAX);
                lemma_decimal_value_of_prefix(digits, i + 1 - first);
            }
            return None;
        }
        value = value * 10 + d;
        i = i + 1;
    }
    assert(digits.subrange(0, i - first) =~= digits);
    Some(value)
}

/// Reads `text` as a time of day.
///
/// Returns the hour and the minute where `text` is two numbers separated by
/// one colon, and `None` for every other text. Neither number is held to a
/// range here: "7:5" reads as (7, 5), "24:60" as (24, 60).
pub fn parse_time(text: &str) -> (time: Option<(u32, u32)>)
    ensures
        time == time_of(text@),
{
    let chars = chars_of(text);
    let n: usize = chars.len();
    let mut i: usize = 0;
    while i < n && chars[i] != ':'
        invariant
            i <= n == chars.len(),
            forall|j: int| 0 <= j < i ==> chars@[j] != ':',
        decreases n - i,
    {
        i = i + 1;
    }
    if i == n {
        assert forall|k: int| !sole_colon_at(chars@, k) by {
            if sole_colon_at(chars@, k) {
                assert(chars@[k] == ':');
            }
        }
        return None;
    }
    let mut j: usize = i + 1;
    while j < n
        invariant
            i < j <= n == chars.len(),
            chars@ == text@,
            chars@[i as int] == ':',
            forall|k: int| i < k < j ==> chars@[k] != ':',
        decreases n - j,
    {
        if chars[j] == ':' {
            assert forall|k: int| !sole_colon_at(chars@, k) by {
                if sole_colon_at(chars@, k) {
                    assert(chars@[i as int] == ':');
                    assert(chars@[j as int] == ':');
                }
            }
            return None;
        }
        j = j + 1;
    }
    assert(sole_colon_at(chars@, i as int));
    assert forall|k: int| sole_colon_at(chars@, k) implies k == i by {
        assert(chars@[i as int] == ':');
    }
    let hour = parse_number(&chars, 0, i);
    let minute = parse_number(&chars, i + 1, n);
    match (hour, minute) {
        (Some(h), Some(m)) => Some((h, m)),
        _ => None,
    }
}

} // verus!
