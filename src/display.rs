//! What the timer shows: the `MM:SS` text and the colour of the digits.

use vstd::prelude::*;

verus! {

/// The character of a decimal digit.
pub open spec fn digit_char(d: nat) -> char {
    seq!['0', '1', '2', '3', '4', '5', '6', '7', '8', '9'][d as int]
}

/// The decimal digits of `n`, most significant first, without leading zeros.
pub open spec fn decimal(n: nat) -> Seq<char>
    decreases n,
{
    if n < 10 {
        seq![digit_char(n)]
    } else {
        decimal(n / 10).push(digit_char(n % 10))
    }
}

/// `n` in decimal, padded with a leading zero to at least two digits.
pub open spec fn two_digits(n: nat) -> Seq<char> {
    if n < 10 {
        seq!['0'] + decimal(n)
    } else {
        decimal(n)
    }
}

/// The text shown for a remaining time of `secs` whole seconds: minutes and
/// seconds, each at least two digits wide; minutes are not capped.
pub open spec fn clock_text(secs: nat) -> Seq<char> {
    two_digits(secs / 60) + seq![':'] + two_digits(secs % 60)
}

/// Whether the digits are drawn in the alert colour: inside the alert window
/// (more than zero and at most `threshold` seconds left) on even seconds.
pub open spec fn alert_active(remaining_secs: nat, threshold: nat) -> bool {
    0 < remaining_secs <= threshold && remaining_secs % 2 == 0
}

/// The colour in which the timer digits are drawn.
#[derive(Clone, Copy, Debug, PartialEq, Eq, Structural)]
pub enum TimerColor {
    /// Blink phase inside the alert window.
    Alert,
    /// Every other case.
    Neutral,
}

fn digit_str(d: u64) -> (s: &'static str)
    requires
        d < 10,
    ensures
        s@ == seq![digit_char(d as nat)],
{
    proof {
        reveal_strlit("0");
        reveal_strlit("1");
        reveal_strlit("2");
        reveal_strlit("3");
        reveal_strlit("4");
        reveal_strlit("5");
        reveal_strlit("6");
        reveal_strlit("7");
        reveal_strlit("8");
        reveal_strlit("9");
    }
    let s = if d == 0 {
        "0"
    } else if d == 1 {
        "1"
    } else if d == 2 {
        "2"
    } else if d == 3 {
        "3"
    } else if d == 4 {
        "4"
    } else if d == 5 {
        "5"
    } else if d == 6 {
        "6"
    } else if d == 7 {
        "7"
    } else if d == 8 {
        "8"
    } else {
        "9"
    };
    assert(s@ =~= seq![digit_char(d as nat)]);
    s
}

fn push_decimal(out: &mut String, n: u64)
    ensures
        final(out)@ == old(out)@ + decimal(n as nat),
    decreases n,
{
    if n >= 10 {
        push_decimal(out, n / 10);
    }
    out.append(digit_str(n % 10));
    assert(final(out)@ =~= old(out)@ + decimal(n as nat));
}

fn push_two_digits(out: &mut String, n: u64)
    ensures
        final(out)@ == old(out)@ + two_digits(n as nat),
{
    if n < 10 {
        out.append(digit_str(0));
    }
    push_decimal(out, n);
    assert(final(out)@ =~= old(out)@ + two_digits(n as nat));
}

/// The `MM:SS` text of a remaining time of `remaining_secs` whole seconds.
pub fn format_timer(remaining_secs: u64) -> (r: String)
    ensures
        r@ == clock_text(remaining_secs as nat),
{
    let mut out = String::new();
    push_two_digits(&mut out, remaining_secs / 60);
    proof {
        reveal_strlit(":");
    }
    out.append(":");
    push_two_digits(&mut out, remaining_secs % 60);
    assert(out@ =~= clock_text(remaining_secs as nat));
    out
}

/// The colour of the digits for `remaining_secs` left and an alert window of
/// `threshold` seconds. The blink follows the parity of the seconds field.
pub fn timer_color(remaining_secs: u64, threshold: u64) -> (r: TimerColor)
    ensures
        r == TimerColor::Alert <==> alert_active(remaining_secs as nat, threshold as nat),
{
    let seconds = remaining_secs % 60;
    if remaining_secs <= threshold && remaining_secs > 0 {
        if seconds % 2 == 0 {
            TimerColor::Alert
        } else {
            TimerColor::Neutral
        }
    } else {
        TimerColor::Neutral
    }
}

} // verus!
