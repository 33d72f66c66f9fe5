//! The text labels that a trigger carries: the time as `HH:MM` and the
//! calendar date as `YYYY-MM-DD`, both in decimal digits padded with zeros.

use vstd::prelude::*;
use vstd::string::StringExecFns;
use crate::time_text::{
    all_decimal_digits, decimal_value, is_decimal_digit, lemma_time_of_parts, number_of, time_of,
};

verus! {

/// The character that writes the digit `d`.
pub open spec fn digit_char(d: nat) -> char {
    ('0' as u32 + d) as char
}

/// `n` in decimal digits, most significant first, without leading zeros
/// (0 is written "0").
pub open spec fn decimal_digits(n: nat) -> Seq<char>
    decreases n,
{
    if n < 10 {
        seq![digit_char(n)]
    } else {
        decimal_digits(n / 10).push(digit_char(n % 10))
    }
}

/// `count` zeros.
pub open spec fn zeros(count: nat) -> Seq<char> {
    Seq::new(count, |i: int| '0')
}

/// `n` in decimal digits, with zeros in front until it is `width` long.
/// A number that needs more than `width` digits keeps all of them.
pub open spec fn zero_padded(n: nat, width: nat) -> Seq<char> {
    let digits = decimal_digits(n);
    if digits.len() >= width {
        digits
    } else {
        zeros((width - digits.len()) as nat) + digits
    }
}

/// The label of a time of day: hour and minute, two digits each.
pub open spec fn time_label_of(hour: nat, minute: nat) -> Seq<char> {
    zero_padded(hour, 2) + seq![':'] + zero_padded(minute, 2)
}

/// The year of a date label: four digits for the years 0 to 9999; outside of
/// them a sign, then the year's distance from 0 in at least four digits.
pub open spec fn year_label_of(year: int) -> Seq<char> {
    if 0 <= year <= 9999 {
        zero_padded(year as nat, 4)
    } else if year < 0 {
        seq!['-'] + zero_padded((-year) as nat, 4)
    } else {
        seq!['+'] + zero_padded(year as nat, 4)
    }
}

/// The label of a calendar date: year, month and day, separated by hyphens.
pub open spec fn date_label_of(year: int, month: nat, day: nat) -> Seq<char> {
    year_label_of(year) + seq!['-'] + zero_padded(month, 2) + seq!['-'] + zero_padded(day, 2)
}

/// The digits of a number are decimal digits, and read back as the number.
pub proof fn lemma_decimal_digits_read_back(n: nat)
    ensures
        decimal_digits(n).len() > 0,
        all_decimal_digits(decimal_digits(n)),
        decimal_value(decimal_digits(n)) == n,
    decreases n,
{
    let digits = decimal_digits(n);
    if n < 10 {
        assert(digits.drop_last() =~= Seq::<char>::empty());
        assert(decimal_value(digits) == n) by {
            reveal_with_fuel(decimal_value, 2);
        }
    } else {
        lemma_decimal_digits_read_back(n / 10);
        assert(digits.drop_last() =~= decimal_digits(n / 10));
        assert forall|i: int| 0 <= i < digits.len() implies is_decimal_digit(#[trigger] digits[i]) by {
            if i < digits.len() - 1 {
                assert(digits[i] == decimal_digits(n / 10)[i]);
            }
        }
    }
}

/// Zeros in front of digits change neither what they are nor what they are
/// worth.
pub proof fn lemma_leading_zeros_are_worth_nothing(count: nat, digits: Seq<char>)
    ensures
        decimal_value(zeros(count) + digits) == decimal_value(digits),
        all_decimal_digits(digits) ==> all_decimal_digits(zeros(count) + digits),
    decreases digits.len(), count,
{
    let padded = zeros(count) + digits;
    if digits.len() > 0 {
        lemma_leading_zeros_are_worth_nothing(count, digits.drop_last());
        assert(padded.drop_last() =~= zeros(count) + digits.drop_last());
    } else if count > 0 {
        lemma_leading_zeros_are_worth_nothing((count - 1) as nat, digits);
        assert(padded.drop_last() =~= zeros((count - 1) as nat) + digits);
    } else {
        assert(padded =~= digits);
    }
    if all_decimal_digits(digits) {
        assert forall|i: int| 0 <= i < padded.len() implies is_decimal_digit(#[trigger] padded[i]) by {
            if i >= count {
                assert(padded[i] == digits[i - count]);
            }
        }
    }
}

/// A number padded with zeros reads back as the number.
pub proof fn lemma_zero_padded_reads_back(n: u32, width: nat)
    ensures
        all_decimal_digits(zero_padded(n as nat, width)),
        number_of(zero_padded(n as nat, width)) == Some(n),
{
    let digits = decimal_digits(n as nat);
    let padded = zero_padded(n as nat, width);
    lemma_decimal_digits_read_back(n as nat);
    if digits.len() < width {
        lemma_leading_zeros_are_worth_nothing((width - digits.len()) as nat, digits);
    }
    assert(is_decimal_digit(padded[0]));
}

/// The label of a time reads back as that time: the reader of times and the
/// writer of labels agree.
pub proof fn lemma_time_label_reads_back(hour: u32, minute: u32)
    ensures
        time_of(time_label_of(hour as nat, minute as nat)) == Some((hour, minute)),
{
    let hour_text = zero_padded(hour as nat, 2);
    let minute_text = zero_padded(minute as nat, 2);
    lemma_zero_padded_reads_back(hour, 2);
    lemma_zero_padded_reads_back(minute, 2);
    assert(!hour_text.contains(':')) by {
        if hour_text.contains(':') {
            let i = choose|i: int| 0 <= i < hour_text.len() && hour_text[i] == ':';
            assert(is_decimal_digit(hour_text[i]));
        }
    }
    assert(!minute_text.contains(':')) by {
        if minute_text.contains(':') {
            let i = choose|i: int| 0 <= i < minute_text.len() && minute_text[i] == ':';
            assert(is_decimal_digit(minute_text[i]));
        }
    }
    lemma_time_of_parts(hour_text, minute_text);
}

/// The text of one decimal digit.
fn digit_text(d: u32) -> (text: &'static str)
    requires
        d < 10,
    ensures
        text@ == seq![digit_char(d as nat)],
{
    proof {
        reveal_strlit("0");
        reveal_strlit("1");
        reveal_strlit("2");
        reveal_strlit("3");
        reveal_strlit("4");
        reveal_strlit("5");
        reveal_strlit("6");
        reveal_strlit("7");
        reveal_strlit("8");
        reveal_strlit("9");
    }
    let text = match d {
        0 => "0",
        1 => "1",
        2 => "2",
        3 => "3",
        4 => "4",
        5 => "5",
        6 => "6",
        7 => "7",
        8 => "8",
        _ => "9",
    };
    assert(text@ =~= seq![digit_char(d as nat)]);
    text
}

/// How many digits `n` takes.
fn decimal_len(n: u32) -> (len: usize)
    ensures
        len == decimal_digits(n as nat).len(),
        len == 1 || len <= n,
    decreases n,
{
    if n < 10 {
        1
    } else {
        decimal_len(n / 10) + 1
    }
}

/// Writes `n` in decimal digits to the end of `out`.
fn append_decimal(out: &mut String, n: u32)
    ensures
        final(out)@ == old(out)@ + decimal_digits(n as nat),
    decreases n,
{
    if n >= 10 {
        append_decimal(out, n / 10);
    }
    out.append(digit_text(n % 10));
}

/// Writes `n` to the end of `out`, padded with zeros to `width` digits.
fn append_zero_padded(out: &mut String, n: u32, width: usize)
    ensures
        final(out)@ == old(out)@ + zero_padded(n as nat, width as nat),
{
    let mut written: usize = decimal_len(n);
    let ghost len = written;
    while written < width
        invariant
            len <= written,
            written <= width || written == len,
            out@ == old(out)@ + zeros((written - len) as nat),
        decreases width - written,
    {
        proof {
            reveal_strlit("0");
        }
        out.append("0");
        written = written + 1;
    }
    append_decimal(out, n);
}

/// The label of the time `hour`:`minute`, as `HH:MM`.
pub fn time_label(hour: u32, minute: u32) -> (label: String)
    ensures
        label@ == time_label_of(hour as nat, minute as nat),
{
    let mut label = String::new();
    append_zero_padded(&mut label, hour, 2);
    proof {
        reveal_strlit(":");
    }
    label.append(":");
    append_zero_padded(&mut label, minute, 2);
    label
}

/// The label of the calendar date `year`, `month`, `day`, as `YYYY-MM-DD`.
pub fn date_label(year: i32, month: u32, day: u32) -> (label: String)
    ensures
        label@ == date_label_of(year as int, month as nat, day as nat),
{
    let mut label = String::new();
    proof {
        reveal_strlit("-");
        reveal_strlit("+");
    }
    if year < 0 {
        label.append("-");
        append_zero_padded(&mut label, (-(year as i64)) as u32, 4);
    } else if year > 9999 {
        label.append("+");
        append_zero_padded(&mut label, year as u32, 4);
    } else {
        append_zero_padded(&mut label, year as u32, 4);
    }
    label.append("-");
    append_zero_padded(&mut label, month, 2);
    label.append("-");
    append_zero_padded(&mut label, day, 2);
    label
}

} // verus!
