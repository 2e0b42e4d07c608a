//! Decimal text rendering for the dashboard: unsigned and signed numbers and
//! the right-aligned columns the gauge rows use.

use vstd::prelude::*;

verus! {

/// The decimal digit character for `d` (`d < 10`).
pub open spec fn digit_char(d: nat) -> char {
    if d == 0 {
        '0'
    } else if d == 1 {
        '1'
    } else if d == 2 {
        '2'
    } else if d == 3 {
        '3'
    } else if d == 4 {
        '4'
    } else if d == 5 {
        '5'
    } else if d == 6 {
        '6'
    } else if d == 7 {
        '7'
    } else if d == 8 {
        '8'
    } else {
        '9'
    }
}

/// The decimal digits of `n`, most significant first, no sign and no leading
/// zeros (a single `'0'` for zero).
pub open spec fn spec_decimal(n: nat) -> Seq<char>
    decreases n,
{
    if n < 10 {
        seq![digit_char(n)]
    } else {
        spec_decimal(n / 10) + seq![digit_char(n % 10)]
    }
}

/// The decimal digits of `i` with a leading `'-'` when `i` is negative.
pub open spec fn spec_signed_decimal(i: int) -> Seq<char> {
    if i < 0 {
        seq!['-'] + spec_decimal((-i) as nat)
    } else {
        spec_decimal(i as nat)
    }
}

/// `s` left-padded with blanks to width `w` (unchanged when already wide
/// enough).
pub open spec fn spec_pad_left(s: Seq<char>, w: int) -> Seq<char> {
    if s.len() >= w {
        s
    } else {
        Seq::new((w - s.len()) as nat, |i: int| ' ') + s
    }
}

/// How many digits a number has: one below ten, two below a hundred, at
/// least three from a hundred up.
pub proof fn lemma_decimal_len(n: nat)
    ensures
        n < 10 ==> spec_decimal(n).len() == 1,
        10 <= n < 100 ==> spec_decimal(n).len() == 2,
        100 <= n ==> spec_decimal(n).len() >= 3,
    decreases n,
{
    if n >= 10 {
        lemma_decimal_len(n / 10);
    }
}

/// The one-character string for a single decimal digit.
fn digit_str(d: u64) -> (r: &'static str)
    requires
        d < 10,
    ensures
        r@ == seq![digit_char(d as nat)],
{
    proof {
        reveal_strlit("0");
        reveal_strlit("1");
        reveal_strlit("2");
        reveal_strlit("3");
        reveal_strlit("4");
        reveal_strlit("5");
        reveal_strlit("6");
        reveal_strlit("7");
        reveal_strlit("8");
        reveal_strlit("9");
    }
    let r: &'static str = if d == 0 {
        "0"
    } else if d == 1 {
        "1"
    } else if d == 2 {
        "2"
    } else if d == 3 {
        "3"
    } else if d == 4 {
        "4"
    } else if d == 5 {
        "5"
    } else if d == 6 {
        "6"
    } else if d == 7 {
        "7"
    } else if d == 8 {
        "8"
    } else {
        "9"
    };
    proof {
        assert(r@ =~= seq![digit_char(d as nat)]);
    }
    r
}

/// Renders `n` in decimal.
pub fn u64_to_string(n: u64) -> (r: String)
    ensures
        r@ == spec_decimal(n as nat),
    decreases n,
{
    if n < 10 {
        let r = digit_str(n).to_owned();
        proof {
            assert(r@ =~= spec_decimal(n as nat));
        }
        r
    } else {
        let mut s = u64_to_string(n / 10);
        s.append(digit_str(n % 10));
        s
    }
}

/// Renders `i` in decimal with its sign.
pub fn i64_to_string(i: i64) -> (r: String)
    requires
        i != i64::MIN,
    ensures
        r@ == spec_signed_decimal(i as int),
{
    if i < 0 {
        let mut s = ("-").to_owned();
        let m: u64 = (-i) as u64;
        let digits = u64_to_string(m);
        s.append(digits.as_str());
        proof {
            reveal_strlit("-");
            assert(s@ =~= spec_signed_decimal(i as int));
        }
        s
    } else {
        u64_to_string(i as u64)
    }
}

/// Renders `n` right-aligned in a column of width three, as the gauge value
/// column shows it.
pub fn u64_to_string_pad3(n: u64) -> (r: String)
    ensures
        r@ == spec_pad_left(spec_decimal(n as nat), 3),
{
    proof {
        lemma_decimal_len(n as nat);
        reveal_strlit("  ");
        reveal_strlit(" ");
    }
    let digits = u64_to_string(n);
    let mut s: String;
    if n < 10 {
        s = ("  ").to_owned();
        s.append(digits.as_str());
    } else if n < 100 {
        s = (" ").to_owned();
        s.append(digits.as_str());
    } else {
        s = digits;
    }
    proof {
        assert(s@ =~= spec_pad_left(spec_decimal(n as nat), 3));
    }
    s
}

/// Renders `i` right-aligned in a column of width two, as the temperature
/// column shows it.
pub fn i64_to_string_pad2(i: i64) -> (r: String)
    requires
        i != i64::MIN,
    ensures
        r@ == spec_pad_left(spec_signed_decimal(i as int), 2),
{
    proof {
        if i >= 0 {
            lemma_decimal_len(i as nat);
        } else {
            lemma_decimal_len((-i) as nat);
        }
        reveal_strlit(" ");
    }
    let digits = i64_to_string(i);
    let mut s: String;
    if 0 <= i && i < 10 {
        s = (" ").to_owned();
        s.append(digits.as_str());
    } else {
        s = digits;
    }
    proof {
        assert(s@ =~= spec_pad_left(spec_signed_decimal(i as int), 2));
    }
    s
}

} // verus!
