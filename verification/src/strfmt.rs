//! Verified rendering of unsigned numbers as decimal text.
//!
//! The engine's narrative strings embed counts, port numbers and fixed-point
//! scores. `spec_dec` is the mathematical decimal form of a number; the
//! executable builders below are proved to produce exactly that text.

use vstd::prelude::*;

verus! {

/// The decimal digit character for `d` (meaningful for `0 <= d <= 9`).
pub open spec fn digit_char(d: int) -> char {
    if d == 0 {
        '0'
    } else if d == 1 {
        '1'
    } else if d == 2 {
        '2'
    } else if d == 3 {
        '3'
    } else if d == 4 {
        '4'
    } else if d == 5 {
        '5'
    } else if d == 6 {
        '6'
    } else if d == 7 {
        '7'
    } else if d == 8 {
        '8'
    } else {
        '9'
    }
}

/// The usual decimal rendering of `n`, most significant digit first and
/// without leading zeroes (except for `n == 0` itself).
pub open spec fn spec_dec(n: nat) -> Seq<char>
    decreases n,
{
    if n < 10 {
        seq![digit_char(n as int)]
    } else {
        spec_dec(n / 10).push(digit_char((n % 10) as int))
    }
}

/// Fixed-point rendering of `n` hundredths as `"<units>.<dd>"`,
/// e.g. `150` renders as `"1.50"`.
pub open spec fn spec_hundredths(n: nat) -> Seq<char> {
    spec_dec(n / 100).push('.').push(digit_char(((n / 10) % 10) as int)).push(
        digit_char((n % 10) as int),
    )
}

/// Rendering of the whole percentage `n` with one (always zero) decimal
/// place, e.g. `90` renders as `"90.0"`.
pub open spec fn spec_percent(n: nat) -> Seq<char> {
    spec_dec(n).push('.').push('0')
}

/// The single-character string for decimal digit `d`.
fn digit_str(d: u64) -> (res: &'static str)
    requires
        d < 10,
    ensures
        res@ == seq![digit_char(d as int)],
{
    proof {
        reveal_strlit("0");
        reveal_strlit("1");
        reveal_strlit("2");
        reveal_strlit("3");
        reveal_strlit("4");
        reveal_strlit("5");
        reveal_strlit("6");
        reveal_strlit("7");
        reveal_strlit("8");
        reveal_strlit("9");
    }
    let res: &'static str = if d == 0 {
        "0"
    } else if d == 1 {
        "1"
    } else if d == 2 {
        "2"
    } else if d == 3 {
        "3"
    } else if d == 4 {
        "4"
    } else if d == 5 {
        "5"
    } else if d == 6 {
        "6"
    } else if d == 7 {
        "7"
    } else if d == 8 {
        "8"
    } else {
        "9"
    };
    proof {
        assert(res@ =~= seq![digit_char(d as int)]);
    }
    res
}

/// Appends the decimal rendering of `n` to `out`.
pub fn push_dec(out: &mut String, n: u64)
    ensures
        final(out)@ == old(out)@ + spec_dec(n as nat),
    decreases n,
{
    if n >= 10 {
        push_dec(out, n / 10);
    }
    let ghost mid = out@;
    out.append(digit_str(n % 10));
    proof {
        if n < 10 {
            assert(out@ =~= old(out)@ + spec_dec(n as nat));
        } else {
            assert(mid == old(out)@ + spec_dec((n / 10) as nat));
            assert(out@ =~= old(out)@ + spec_dec(n as nat));
        }
    }
}

/// The decimal rendering of `n` as a fresh string.
pub fn u64_to_string(n: u64) -> (res: String)
    ensures
        res@ == spec_dec(n as nat),
{
    let mut s = String::new();
    push_dec(&mut s, n);
    proof {
        assert(s@ =~= spec_dec(n as nat));
    }
    s
}

/// Renders `n` hundredths as `"<units>.<dd>"`, e.g. `150` as `"1.50"`.
pub fn fmt_hundredths(n: u64) -> (res: String)
    ensures
        res@ == spec_hundredths(n as nat),
{
    let mut s = u64_to_string(n / 100);
    s.append(".");
    s.append(digit_str((n / 10) % 10));
    s.append(digit_str(n % 10));
    proof {
        reveal_strlit(".");
        assert(s@ =~= spec_hundredths(n as nat));
    }
    s
}

/// Renders the whole percentage `n` with one decimal place, e.g. `90` as
/// `"90.0"`.
pub fn fmt_percent(n: u64) -> (res: String)
    ensures
        res@ == spec_percent(n as nat),
{
    let mut s = u64_to_string(n);
    s.append(".0");
    proof {
        reveal_strlit(".0");
        assert(s@ =~= spec_percent(n as nat));
    }
    s
}

} // verus!
