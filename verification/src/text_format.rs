//! Decimal text for window dimensions.
//!
//! Dimensions are carried as whole tenths of a pixel, so the displayed value
//! with one decimal place is exact. The specification [`dims_text`] pins the
//! full character sequence "W.w x H.h" that the label must show.

use vstd::prelude::*;

verus! {

/// The character for a single decimal digit.
pub open spec fn digit_char(d: nat) -> char
    recommends
        d < 10,
{
    if d == 0 {
        '0'
    } else if d == 1 {
        '1'
    } else if d == 2 {
        '2'
    } else if d == 3 {
        '3'
    } else if d == 4 {
        '4'
    } else if d == 5 {
        '5'
    } else if d == 6 {
        '6'
    } else if d == 7 {
        '7'
    } else if d == 8 {
        '8'
    } else {
        '9'
    }
}

/// Decimal representation of a natural number, most significant digit first,
/// no leading zeros (a lone zero for 0).
pub open spec fn dec_rep(n: nat) -> Seq<char>
    decreases n,
{
    if n < 10 {
        seq![digit_char(n)]
    } else {
        dec_rep(n / 10) + seq![digit_char(n % 10)]
    }
}

/// A value of `t` tenths printed with exactly one decimal place:
/// the whole part, a dot, the remaining digit.
pub open spec fn tenths_text(t: nat) -> Seq<char> {
    dec_rep(t / 10) + seq!['.'] + seq![digit_char(t % 10)]
}

/// The label text for a width and a height given in tenths of a pixel:
/// both values with one decimal place, joined by " x ".
pub open spec fn dims_text(w: nat, h: nat) -> Seq<char> {
    tenths_text(w) + seq![' ', 'x', ' '] + tenths_text(h)
}

fn digit_str(d: u32) -> (s: &'static str)
    requires
        d < 10,
    ensures
        s@ == seq![digit_char(d as nat)],
{
    let s: &'static str = if d == 0 {
        "0"
    } else if d == 1 {
        "1"
    } else if d == 2 {
        "2"
    } else if d == 3 {
        "3"
    } else if d == 4 {
        "4"
    } else if d == 5 {
        "5"
    } else if d == 6 {
        "6"
    } else if d == 7 {
        "7"
    } else if d == 8 {
        "8"
    } else {
        "9"
    };
    proof {
        reveal_strlit("0");
        reveal_strlit("1");
        reveal_strlit("2");
        reveal_strlit("3");
        reveal_strlit("4");
        reveal_strlit("5");
        reveal_strlit("6");
        reveal_strlit("7");
        reveal_strlit("8");
        reveal_strlit("9");
        assert(s@ =~= seq![digit_char(d as nat)]);
    }
    s
}

/// The decimal form of `n`, matching [`dec_rep`] exactly.
pub fn u32_to_decimal(n: u32) -> (s: String)
    ensures
        s@ == dec_rep(n as nat),
    decreases n,
{
    if n < 10 {
        String::from_str(digit_str(n))
    } else {
        let mut s = u32_to_decimal(n / 10);
        s.append(digit_str(n % 10));
        s
    }
}

/// The label text for a width and a height in tenths of a pixel,
/// matching [`dims_text`] exactly.
pub fn format_dims(width_tenths: u32, height_tenths: u32) -> (s: String)
    ensures
        s@ == dims_text(width_tenths as nat, height_tenths as nat),
{
    let mut s = u32_to_decimal(width_tenths / 10);
    s.append(".");
    s.append(digit_str(width_tenths % 10));
    s.append(" x ");
    let h_whole = u32_to_decimal(height_tenths / 10);
    s.append(h_whole.as_str());
    s.append(".");
    s.append(digit_str(height_tenths % 10));
    proof {
        reveal_strlit(".");
        reveal_strlit(" x ");
        assert(s@ =~= dims_text(width_tenths as nat, height_tenths as nat));
    }
    s
}

} // verus!
