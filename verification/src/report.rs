//! How a duration is written out: a sign, then hours, minutes and seconds.

use crate::timestamp::Duration;
use vstd::prelude::*;
use vstd::string::StringExecFns;

verus! {

/// The character of a decimal digit.
pub open spec fn digit(d: nat) -> char {
    if d == 0 {
        '0'
    } else if d == 1 {
        '1'
    } else if d == 2 {
        '2'
    } else if d == 3 {
        '3'
    } else if d == 4 {
        '4'
    } else if d == 5 {
        '5'
    } else if d == 6 {
        '6'
    } else if d == 7 {
        '7'
    } else if d == 8 {
        '8'
    } else {
        '9'
    }
}

/// A number in decimal, without leading zeros.
pub open spec fn decimal(n: nat) -> Seq<char>
    decreases n,
{
    if n < 10 {
        seq![digit(n)]
    } else {
        decimal(n / 10) + seq![digit(n % 10)]
    }
}

/// A number in decimal with at least two digits.
pub open spec fn two_digits(n: nat) -> Seq<char> {
    if n < 10 {
        seq!['0'] + decimal(n)
    } else {
        decimal(n)
    }
}

/// A second count without its sign.
pub open spec fn magnitude(seconds: int) -> nat {
    if seconds < 0 {
        (-seconds) as nat
    } else {
        seconds as nat
    }
}

/// The sign of a second count: the minus sign U+2212 below zero, `+` from
/// zero on.
pub open spec fn sign(seconds: int) -> Seq<char> {
    if seconds < 0 {
        seq!['\u{2212}']
    } else {
        seq!['+']
    }
}

/// A second count as sign, hours, minutes and seconds. The hours are not
/// wrapped at 24; each part has at least two digits.
pub open spec fn duration_text(seconds: int) -> Seq<char> {
    let total = magnitude(seconds);
    sign(seconds) + two_digits(total / 3600) + seq![':'] + two_digits((total / 60) % 60) + seq![
        ':',
    ] + two_digits(total % 60)
}

/// The report of a measurement: the duration alone, or the two patterns in
/// quotes in front of it.
pub open spec fn report_text(from: Seq<char>, to: Seq<char>, seconds: int, short: bool) -> Seq<
    char,
> {
    if short {
        duration_text(seconds)
    } else {
        "\""@ + from + "\" => \""@ + to + "\": "@ + duration_text(seconds) + " (hh:mm:ss)"@
    }
}

fn digit_str(d: u64) -> (s: &'static str)
    requires
        d < 10,
    ensures
        s@ == seq![digit(d as nat)],
{
    proof {
        reveal_strlit("0");
        reveal_strlit("1");
        reveal_strlit("2");
        reveal_strlit("3");
        reveal_strlit("4");
        reveal_strlit("5");
        reveal_strlit("6");
        reveal_strlit("7");
        reveal_strlit("8");
        reveal_strlit("9");
    }
    let s = match d {
        0 => "0",
        1 => "1",
        2 => "2",
        3 => "3",
        4 => "4",
        5 => "5",
        6 => "6",
        7 => "7",
        8 => "8",
        _ => "9",
    };
    assert(s@ =~= seq![digit(d as nat)]);
    s
}

fn push_decimal(out: &mut String, n: u64)
    ensures
        final(out)@ == old(out)@ + decimal(n as nat),
    decreases n,
{
    if n >= 10 {
        push_decimal(out, n / 10);
    }
    out.append(digit_str(n % 10));
    assert(final(out)@ =~= old(out)@ + decimal(n as nat));
}

fn push_two_digits(out: &mut String, n: u64)
    ensures
        final(out)@ == old(out)@ + two_digits(n as nat),
{
    if n < 10 {
        proof {
            reveal_strlit("0");
        }
        out.append("0");
    }
    push_decimal(out, n);
    assert(final(out)@ =~= old(out)@ + two_digits(n as nat));
}

/// The seconds of `d` without their sign.
fn seconds_magnitude(d: &Duration) -> (total: u64)
    ensures
        total == magnitude(d.seconds as int),
{
    if d.seconds >= 0 {
        d.seconds as u64
    } else if d.seconds == i64::MIN {
        9223372036854775808u64
    } else {
        (-d.seconds) as u64
    }
}

/// Writes a duration as `+HH:MM:SS`, with the minus sign in place of `+` for
/// a negative one.
pub fn format_duration(d: &Duration) -> (text: String)
    ensures
        text@ == duration_text(d.seconds as int),
{
    let total = seconds_magnitude(d);
    proof {
        reveal_strlit("\u{2212}");
        reveal_strlit("+");
        reveal_strlit(":");
    }
    let mut text = if d.seconds < 0 {
        String::from_str("\u{2212}")
    } else {
        String::from_str("+")
    };
    assert(text@ =~= sign(d.seconds as int));
    push_two_digits(&mut text, total / 60 / 60);
    text.append(":");
    push_two_digits(&mut text, (total / 60) % 60);
    text.append(":");
    push_two_digits(&mut text, total % 60);
    assert((total / 60) / 60 == total / 3600) by (nonlinear_arith);
    assert(text@ =~= duration_text(d.seconds as int));
    text
}

/// Writes the line that reports a measurement: the duration alone where
/// `short` is set, else the two patterns in quotes and the duration.
pub fn render_report(from: &str, to: &str, d: &Duration, short: bool) -> (text: String)
    ensures
        text@ == report_text(from@, to@, d.seconds as int, short),
{
    let span = format_duration(d);
    if short {
        span
    } else {
        let mut text = String::from_str("\"");
        text.append(from);
        text.append("\" => \"");
        text.append(to);
        text.append("\": ");
        text.append(span.as_str());
        text.append(" (hh:mm:ss)");
        text
    }
}

} // verus!
