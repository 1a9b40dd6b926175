//! Short human-readable durations ("5 minutes ago", "in ~2 months").

use crate::text::push_char;
use vstd::prelude::*;

verus! {

/// Seconds in a month, as the bot counts them.
pub const S_IN_MNTH: u64 = 2628003;

/// The character of a decimal digit.
pub open spec fn digit_char(d: int) -> char {
    if d == 0 {
        '0'
    } else if d == 1 {
        '1'
    } else if d == 2 {
        '2'
    } else if d == 3 {
        '3'
    } else if d == 4 {
        '4'
    } else if d == 5 {
        '5'
    } else if d == 6 {
        '6'
    } else if d == 7 {
        '7'
    } else if d == 8 {
        '8'
    } else {
        '9'
    }
}

/// The decimal notation of `n`, without leading zeros.
pub open spec fn decimal(n: nat) -> Seq<char>
    decreases n,
{
    if n < 10 {
        seq![digit_char(n as int)]
    } else {
        decimal(n / 10).push(digit_char((n % 10) as int))
    }
}

fn digit(d: u64) -> (c: char)
    requires
        d < 10,
    ensures
        c == digit_char(d as int),
{
    match d {
        0 => '0',
        1 => '1',
        2 => '2',
        3 => '3',
        4 => '4',
        5 => '5',
        6 => '6',
        7 => '7',
        8 => '8',
        _ => '9',
    }
}

/// Appends the decimal notation of `n` to `s`.
pub(crate) fn push_decimal(s: &mut String, n: u64)
    ensures
        final(s)@ == old(s)@ + decimal(n as nat),
    decreases n,
{
    if n >= 10 {
        push_decimal(s, n / 10);
    }
    push_char(s, digit(n % 10));
    proof {
        if n < 10 {
            assert(old(s)@ + decimal(n as nat) =~= old(s)@.push(digit_char(n as int)));
        } else {
            assert(old(s)@ + decimal(n as nat) =~= (old(s)@ + decimal((n / 10) as nat)).push(
                digit_char((n % 10) as int),
            ));
        }
    }
}

/// The decimal notation of `n` as a string.
pub fn decimal_string(n: u64) -> (r: String)
    ensures
        r@ == decimal(n as nat),
{
    let mut s = String::new();
    push_decimal(&mut s, n);
    assert(s@ =~= decimal(n as nat));
    s
}

/// The short wording of a (positive) number of seconds.
pub open spec fn secs_short(x: nat) -> Seq<char> {
    if x == 0 {
        "0 seconds"@
    } else if x == 1 {
        "1 second"@
    } else if x < 60 {
        decimal(x) + " seconds"@
    } else if x < 120 {
        "1 minute"@
    } else if x < 60 * 60 {
        decimal(x / 60) + " minutes"@
    } else if x < 60 * 60 * 2 {
        "1 hour"@
    } else if x < 60 * 60 * 24 {
        decimal(x / 60 / 60) + " hours"@
    } else if x < 60 * 60 * 24 * 2 {
        "1 day"@
    } else if x < S_IN_MNTH {
        decimal(x / 60 / 60 / 24) + " days"@
    } else if x < 2 * S_IN_MNTH {
        "~1 month"@
    } else if x < 12 * S_IN_MNTH {
        "~"@ + decimal(x / (S_IN_MNTH as nat)) + " months"@
    } else if x < 12 * 2 * S_IN_MNTH {
        "~1 year"@
    } else {
        "~"@ + decimal(x / 12 / (S_IN_MNTH as nat)) + " years"@
    }
}

/// `n` in decimal followed by `suffix`, optionally preceded by `~`.
fn number_with(approx: bool, n: u64, suffix: &str) -> (r: String)
    ensures
        r@ == (if approx {
            "~"@
        } else {
            Seq::<char>::empty()
        }) + decimal(n as nat) + suffix@,
{
    let mut s = if approx {
        String::from_str("~")
    } else {
        String::new()
    };
    let ghost start = s@;
    push_decimal(&mut s, n);
    s.append(suffix);
    proof {
        if approx {
            assert(start == "~"@);
        } else {
            assert(start =~= Seq::<char>::empty());
        }
    }
    s
}

/// Words a number of seconds: "1 second", "5 minutes", "~3 months", ...
pub fn format_secs_short(secs: u64) -> (r: String)
    ensures
        r@ == secs_short(secs as nat),
{
    let x = secs;
    if x == 0 {
        String::from_str("0 seconds")
    } else if x == 1 {
        String::from_str("1 second")
    } else if x < 60 {
        let r = number_with(false, x, " seconds");
        assert(r@ =~= decimal(x as nat) + " seconds"@);
        r
    } else if x < 120 {
        String::from_str("1 minute")
    } else if x < 60 * 60 {
        let r = number_with(false, x / 60, " minutes");
        assert(r@ =~= decimal((x / 60) as nat) + " minutes"@);
        r
    } else if x < 60 * 60 * 2 {
        String::from_str("1 hour")
    } else if x < 60 * 60 * 24 {
        let r = number_with(false, x / 60 / 60, " hours");
        assert(r@ =~= decimal((x / 60 / 60) as nat) + " hours"@);
        r
    } else if x < 60 * 60 * 24 * 2 {
        String::from_str("1 day")
    } else if x < S_IN_MNTH {
        let r = number_with(false, x / 60 / 60 / 24, " days");
        assert(r@ =~= decimal((x / 60 / 60 / 24) as nat) + " days"@);
        r
    } else if x < 2 * S_IN_MNTH {
        String::from_str("~1 month")
    } else if x < 12 * S_IN_MNTH {
        number_with(true, x / S_IN_MNTH, " months")
    } else if x < 12 * 2 * S_IN_MNTH {
        String::from_str("~1 year")
    } else {
        number_with(true, x / 12 / S_IN_MNTH, " years")
    }
}

/// The wording of a signed duration in whole seconds: "5 minutes ago" for
/// the past, "in 5 minutes" for the future, "now" for zero.
pub open spec fn human_duration(secs: int) -> Seq<char> {
    if secs > 0 {
        secs_short(secs as nat) + " ago"@
    } else if secs < 0 {
        "in "@ + secs_short((-secs) as nat)
    } else {
        "now"@
    }
}

/// Words the whole seconds of a duration relative to now.
pub fn human_format_duration(secs: i64) -> (r: String)
    requires
        secs > i64::MIN,
    ensures
        r@ == human_duration(secs as int),
{
    if secs > 0 {
        let mut s = format_secs_short(secs as u64);
        s.append(" ago");
        s
    } else if secs < 0 {
        let actual_secs = (-secs) as u64;
        let mut s = String::from_str("in ");
        let tail = format_secs_short(actual_secs);
        s.append(tail.as_str());
        s
    } else {
        String::from_str("now")
    }
}

/// A past and a future duration of the same length are worded with the same
/// magnitude: `secs` seconds ago is "X ago" exactly when `secs` seconds from
/// now is "in X".
pub proof fn law_human_duration_sign_symmetry(secs: int)
    requires
        secs > 0,
    ensures
        human_duration(secs) == secs_short(secs as nat) + " ago"@,
        human_duration(-secs) == "in "@ + secs_short(secs as nat),
{
}

} // verus!
