use vstd::prelude::*;
use vstd::string::StringExecFns;

verus! {

/// The decimal digit character for a value below ten.
pub open spec fn digit_char(d: int) -> char {
    if d == 0 {
        '0'
    } else if d == 1 {
        '1'
    } else if d == 2 {
        '2'
    } else if d == 3 {
        '3'
    } else if d == 4 {
        '4'
    } else if d == 5 {
        '5'
    } else if d == 6 {
        '6'
    } else if d == 7 {
        '7'
    } else if d == 8 {
        '8'
    } else {
        '9'
    }
}

/// The plain decimal rendering of a non-negative integer: most significant
/// digit first, no sign, no leading zeros (a lone zero for 0).
pub open spec fn dec_seq(n: int) -> Seq<char>
    decreases n,
{
    if n < 10 {
        seq![digit_char(n)]
    } else {
        dec_seq(n / 10).push(digit_char(n % 10))
    }
}

/// The two-decimal-place rendering of a value held in hundredths: the integer
/// part in decimal, a point, then exactly two fractional digits.
pub open spec fn fixed2_seq(h: int) -> Seq<char> {
    dec_seq(h / 100) + seq!['.', digit_char((h % 100) / 10), digit_char(h % 10)]
}

/// The one-character string for a decimal digit.
fn digit_str(d: u64) -> (s: &'static str)
    requires
        d < 10,
    ensures
        s@ == seq![digit_char(d as int)],
{
    let s: &'static str = if d == 0 {
        "0"
    } else if d == 1 {
        "1"
    } else if d == 2 {
        "2"
    } else if d == 3 {
        "3"
    } else if d == 4 {
        "4"
    } else if d == 5 {
        "5"
    } else if d == 6 {
        "6"
    } else if d == 7 {
        "7"
    } else if d == 8 {
        "8"
    } else {
        "9"
    };
    proof {
        reveal_strlit("0");
        reveal_strlit("1");
        reveal_strlit("2");
        reveal_strlit("3");
        reveal_strlit("4");
        reveal_strlit("5");
        reveal_strlit("6");
        reveal_strlit("7");
        reveal_strlit("8");
        reveal_strlit("9");
        assert(s@ =~= seq![digit_char(d as int)]);
    }
    s
}

/// Append the decimal rendering of `n` to `out`.
fn push_dec(n: u64, out: &mut String)
    ensures
        final(out)@ == old(out)@ + dec_seq(n as int),
    decreases n,
{
    if n >= 10 {
        push_dec(n / 10, out);
    }
    let d = digit_str(n % 10);
    out.append(d);
    proof {
        assert(final(out)@ =~= old(out)@ + dec_seq(n as int));
    }
}

/// Render a non-negative integer as a plain decimal string.
pub fn dec_string(n: u64) -> (s: String)
    ensures
        s@ == dec_seq(n as int),
{
    let mut s = String::new();
    push_dec(n, &mut s);
    proof {
        assert(s@ =~= dec_seq(n as int));
    }
    s
}

/// Render a value held in hundredths with exactly two decimal places.
pub fn fixed2_string(h: u64) -> (s: String)
    ensures
        s@ == fixed2_seq(h as int),
{
    let mut s = String::new();
    push_dec(h / 100, &mut s);
    s.append(".");
    let d1 = digit_str((h % 100) / 10);
    s.append(d1);
    let d0 = digit_str(h % 10);
    s.append(d0);
    proof {
        reveal_strlit(".");
        assert(s@ =~= fixed2_seq(h as int));
    }
    s
}

} // verus!
