//! Rendering of elapsed time.

use vstd::prelude::*;

verus! {

/// The character of a decimal digit.
pub open spec fn digit_char(d: nat) -> char {
    if d == 0 {
        '0'
    } else if d == 1 {
        '1'
    } else if d == 2 {
        '2'
    } else if d == 3 {
        '3'
    } else if d == 4 {
        '4'
    } else if d == 5 {
        '5'
    } else if d == 6 {
        '6'
    } else if d == 7 {
        '7'
    } else if d == 8 {
        '8'
    } else {
        '9'
    }
}

/// The decimal numeral of `n`, without leading zeros.
pub open spec fn decimal(n: nat) -> Seq<char>
    decreases n,
{
    if n < 10 {
        seq![digit_char(n)]
    } else {
        decimal(n / 10).push(digit_char(n % 10))
    }
}

/// The text for a number of elapsed seconds: the count in the largest unit
/// that is at least one, rounded down.
pub open spec fn duration_text(seconds: u64) -> Seq<char> {
    if seconds < 60 {
        decimal(seconds as nat) + " seconds ago"@
    } else if seconds < 3600 {
        decimal((seconds / 60) as nat) + " minutes ago"@
    } else if seconds < 86400 {
        decimal((seconds / 3600) as nat) + " hours ago"@
    } else {
        decimal((seconds / 86400) as nat) + " days ago"@
    }
}

fn digit_str(d: u64) -> (s: &'static str)
    requires
        d < 10,
    ensures
        s@ == seq![digit_char(d as nat)],
{
    proof {
        reveal_strlit("0");
        reveal_strlit("1");
        reveal_strlit("2");
        reveal_strlit("3");
        reveal_strlit("4");
        reveal_strlit("5");
        reveal_strlit("6");
        reveal_strlit("7");
        reveal_strlit("8");
        reveal_strlit("9");
    }
    let s = if d == 0 {
        "0"
    } else if d == 1 {
        "1"
    } else if d == 2 {
        "2"
    } else if d == 3 {
        "3"
    } else if d == 4 {
        "4"
    } else if d == 5 {
        "5"
    } else if d == 6 {
        "6"
    } else if d == 7 {
        "7"
    } else if d == 8 {
        "8"
    } else {
        "9"
    };
    assert(s@ =~= seq![digit_char(d as nat)]);
    s
}

/// Appends the decimal numeral of `n` to `out`.
pub fn push_decimal(out: &mut String, n: u64)
    ensures
        final(out)@ == old(out)@ + decimal(n as nat),
    decreases n,
{
    if n >= 10 {
        push_decimal(out, n / 10);
    }
    out.append(digit_str(n % 10));
    assert(final(out)@ =~= old(out)@ + decimal(n as nat));
}

/// Says how long ago something happened, given the seconds since.
pub fn format_duration(seconds: u64) -> (s: String)
    ensures
        s@ == duration_text(seconds),
{
    let mut s = String::new();
    if seconds < 60 {
        push_decimal(&mut s, seconds);
        s.append(" seconds ago");
    } else if seconds < 3600 {
        push_decimal(&mut s, seconds / 60);
        s.append(" minutes ago");
    } else if seconds < 86400 {
        push_decimal(&mut s, seconds / 3600);
        s.append(" hours ago");
    } else {
        push_decimal(&mut s, seconds / 86400);
        s.append(" days ago");
    }
    assert(s@ =~= duration_text(seconds));
    s
}

/// The seconds elapsed between `then` and `now`, zero where the clock went back.
pub fn seconds_since(now: u64, then: u64) -> (d: u64)
    ensures
        d == if now >= then { now - then } else { 0 },
{
    if now >= then {
        now - then
    } else {
        0
    }
}

} // verus!
