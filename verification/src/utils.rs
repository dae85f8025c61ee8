//! Small helpers: whole-number division with remainder, decimal text, and
//! durations in words.

use std::time::Duration;
use vstd::prelude::*;
use vstd::string::*;

verus! {

/// The character of one decimal digit.
pub open spec fn digit_char(d: nat) -> char {
    if d == 0 {
        '0'
    } else if d == 1 {
        '1'
    } else if d == 2 {
        '2'
    } else if d == 3 {
        '3'
    } else if d == 4 {
        '4'
    } else if d == 5 {
        '5'
    } else if d == 6 {
        '6'
    } else if d == 7 {
        '7'
    } else if d == 8 {
        '8'
    } else {
        '9'
    }
}

/// The decimal digits of `n`, most significant first, without leading zeros.
pub open spec fn decimal_digits(n: nat) -> Seq<char>
    decreases n,
{
    if n < 10 {
        seq![digit_char(n)]
    } else {
        decimal_digits(n / 10).push(digit_char(n % 10))
    }
}

/// `text`, followed by `value` in decimal and by `unit`, where `value` is
/// not 0; else `text` as it is.
pub open spec fn with_part(text: Seq<char>, value: nat, unit: Seq<char>) -> Seq<char> {
    if value == 0 {
        text
    } else {
        text + decimal_digits(value) + unit
    }
}

/// A number of seconds in words: the days, hours, minutes and seconds that
/// are not 0, in that order.
pub open spec fn humanize_text(seconds: nat) -> Seq<char> {
    let days = seconds / 60 / 60 / 24;
    let hours = (seconds / 60 / 60) % 24;
    let minutes = (seconds / 60) % 60;
    let secs = seconds % 60;
    with_part(
        with_part(
            with_part(with_part(Seq::empty(), days, " days, "@), hours, " hours, "@),
            minutes,
            " minutes, "@,
        ),
        secs,
        " seconds"@,
    )
}

/// The whole seconds a `Duration` holds.
pub uninterp spec fn duration_seconds(time: Duration) -> u64;

/// `Duration::as_secs`: the number of whole seconds the duration holds,
/// which depends on the duration alone.
#[verifier::external_body]
fn whole_seconds(time: &Duration) -> (secs: u64)
    ensures
        secs == duration_seconds(*time),
{
    time.as_secs()
}

fn digit_text(d: u64) -> (text: &'static str)
    requires
        d < 10,
    ensures
        text@ == seq![digit_char(d as nat)],
{
    proof {
        reveal_strlit("0");
        reveal_strlit("1");
        reveal_strlit("2");
        reveal_strlit("3");
        reveal_strlit("4");
        reveal_strlit("5");
        reveal_strlit("6");
        reveal_strlit("7");
        reveal_strlit("8");
        reveal_strlit("9");
    }
    let text = if d == 0 {
        "0"
    } else if d == 1 {
        "1"
    } else if d == 2 {
        "2"
    } else if d == 3 {
        "3"
    } else if d == 4 {
        "4"
    } else if d == 5 {
        "5"
    } else if d == 6 {
        "6"
    } else if d == 7 {
        "7"
    } else if d == 8 {
        "8"
    } else {
        "9"
    };
    assert(text@ =~= seq![digit_char(d as nat)]);
    text
}

/// `n` in decimal.
pub fn decimal(n: u64) -> (text: String)
    ensures
        text@ == decimal_digits(n as nat),
    decreases n,
{
    if n < 10 {
        String::from_str(digit_text(n))
    } else {
        let mut text = decimal(n / 10);
        text.append(digit_text(n % 10));
        assert(text@ =~= decimal_digits((n / 10) as nat).push(digit_char((n % 10) as nat)));
        text
    }
}

fn push_part(text: &mut String, value: u64, unit: &str)
    ensures
        final(text)@ == with_part(old(text)@, value as nat, unit@),
{
    if value != 0 {
        let digits = decimal(value);
        text.append(digits.as_str());
        text.append(unit);
    }
}

/// Quotient and remainder of a whole-number division.
pub fn div_mod(main: u64, divider: u64) -> (res: (u64, u64))
    requires
        divider != 0,
    ensures
        res.0 == main / divider,
        res.1 == main % divider,
{
    let whole: u64 = main / divider;
    let rem: u64 = main % divider;
    (whole, rem)
}

/// A number of seconds in words, as in "2 hours, 46 minutes, 40 seconds".
pub fn humanize_seconds(seconds: u64) -> (human: String)
    ensures
        human@ == humanize_text(seconds as nat),
{
    let (minutes, seconds) = div_mod(seconds, 60);
    let (hours, minutes) = div_mod(minutes, 60);
    let (days, hours) = div_mod(hours, 24);
    let mut human = String::new();
    push_part(&mut human, days, " days, ");
    push_part(&mut human, hours, " hours, ");
    push_part(&mut human, minutes, " minutes, ");
    push_part(&mut human, seconds, " seconds");
    human
}

/// A duration in words, by its whole seconds.
pub fn humanize(time: Duration) -> (human: String)
    ensures
        human@ == humanize_text(duration_seconds(time) as nat),
{
    humanize_seconds(whole_seconds(&time))
}

} // verus!
