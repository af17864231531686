//! Rendering of an outage duration, given in whole seconds, as
//! hours:minutes:seconds with each part zero-padded to two digits.

use vstd::prelude::*;
use vstd::string::*;

verus! {

/// The decimal digit character for `d` (meaningful for `d < 10`).
pub open spec fn digit_char(d: nat) -> char {
    if d == 0 {
        '0'
    } else if d == 1 {
        '1'
    } else if d == 2 {
        '2'
    } else if d == 3 {
        '3'
    } else if d == 4 {
        '4'
    } else if d == 5 {
        '5'
    } else if d == 6 {
        '6'
    } else if d == 7 {
        '7'
    } else if d == 8 {
        '8'
    } else {
        '9'
    }
}

/// The decimal rendering of `n`, without leading zeros.
pub open spec fn dec_str(n: nat) -> Seq<char>
    decreases n,
{
    if n < 10 {
        seq![digit_char(n)]
    } else {
        dec_str(n / 10).push(digit_char(n % 10))
    }
}

/// The decimal rendering of `n`, left-padded with a zero to at least two
/// digits (larger values keep all their digits).
pub open spec fn two_digit_str(n: nat) -> Seq<char> {
    if n < 10 {
        seq!['0'].push(digit_char(n))
    } else {
        dec_str(n)
    }
}

/// `total` seconds rendered as hours, minutes and seconds, separated by
/// colons, each part zero-padded to at least two digits.
pub open spec fn hms_str(total: nat) -> Seq<char> {
    two_digit_str(total / 3600) + seq![':'] + two_digit_str((total / 60) % 60) + seq![':']
        + two_digit_str(total % 60)
}

fn digit_str(d: u64) -> (r: &'static str)
    requires
        d < 10,
    ensures
        r@ =~= seq![digit_char(d as nat)],
{
    proof {
        reveal_strlit("0");
        reveal_strlit("1");
        reveal_strlit("2");
        reveal_strlit("3");
        reveal_strlit("4");
        reveal_strlit("5");
        reveal_strlit("6");
        reveal_strlit("7");
        reveal_strlit("8");
        reveal_strlit("9");
    }
    match d {
        0 => "0",
        1 => "1",
        2 => "2",
        3 => "3",
        4 => "4",
        5 => "5",
        6 => "6",
        7 => "7",
        8 => "8",
        _ => "9",
    }
}

fn push_decimal(out: &mut String, n: u64)
    ensures
        final(out)@ == old(out)@ + dec_str(n as nat),
    decreases n,
{
    if n >= 10 {
        push_decimal(out, n / 10);
        out.append(digit_str(n % 10));
        proof {
            assert(out@ =~= old(out)@ + dec_str(n as nat));
        }
    } else {
        out.append(digit_str(n));
        proof {
            assert(out@ =~= old(out)@ + dec_str(n as nat));
        }
    }
}

fn push_two_digit(out: &mut String, n: u64)
    ensures
        final(out)@ == old(out)@ + two_digit_str(n as nat),
{
    if n < 10 {
        proof {
            reveal_strlit("0");
        }
        out.append("0");
    }
    push_decimal(out, n);
    proof {
        assert(out@ =~= old(out)@ + two_digit_str(n as nat));
    }
}

/// Render `total_secs` as zero-padded hours:minutes:seconds, exactly as
/// `hms_str` describes it.
pub fn format_hms(total_secs: u64) -> (r: String)
    ensures
        r@ == hms_str(total_secs as nat),
{
    proof {
        reveal_strlit(":");
    }
    let mut out = String::new();
    push_two_digit(&mut out, total_secs / 3600);
    out.append(":");
    push_two_digit(&mut out, (total_secs / 60) % 60);
    out.append(":");
    push_two_digit(&mut out, total_secs % 60);
    proof {
        assert(out@ =~= hms_str(total_secs as nat));
    }
    out
}

} // verus!
