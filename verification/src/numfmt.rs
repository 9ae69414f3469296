//! Decimal formatting of integer quantities.
//!
//! Fractional values are carried as integer hundredths ("centi" values), so a
//! number shown with two decimal places is formatted exactly, with no
//! floating point. Rounding of divisions is round-half-up, stated by
//! [`round_div`].

use vstd::prelude::*;
use vstd::string::StrSliceExecFns;
use vstd::string::StringExecFns;

verus! {

/// The decimal digit character for `d` (meaningful for `d < 10`).
pub open spec fn digit_char(d: nat) -> char {
    if d == 0 {
        '0'
    } else if d == 1 {
        '1'
    } else if d == 2 {
        '2'
    } else if d == 3 {
        '3'
    } else if d == 4 {
        '4'
    } else if d == 5 {
        '5'
    } else if d == 6 {
        '6'
    } else if d == 7 {
        '7'
    } else if d == 8 {
        '8'
    } else {
        '9'
    }
}

/// The decimal representation of `n`, most significant digit first, with no
/// leading zeros (a single `'0'` for zero).
pub open spec fn dec_rep(n: nat) -> Seq<char>
    decreases n,
{
    if n < 10 {
        seq![digit_char(n)]
    } else {
        dec_rep(n / 10).push(digit_char(n % 10))
    }
}

/// `n` as exactly two digits, zero-padded (meaningful for `n < 100`).
pub open spec fn pad2(n: nat) -> Seq<char> {
    seq![digit_char(n / 10), digit_char(n % 10)]
}

/// `n` in decimal, zero-padded on the left to a width of at least two.
pub open spec fn pad_min2(n: nat) -> Seq<char> {
    if n < 10 {
        seq!['0', digit_char(n)]
    } else {
        dec_rep(n)
    }
}

/// A count of hundredths shown with two decimal places: `234` is `"2.34"`.
pub open spec fn two_dec(c: nat) -> Seq<char> {
    dec_rep(c / 100) + seq!['.'] + pad2(c % 100)
}

/// `num / den`, rounded half up (meaningful for `den > 0`).
pub open spec fn round_div(num: nat, den: nat) -> nat {
    (2 * num + den) / (2 * den)
}

/// `n` seconds as `HH:MM:SS`; the hour field is zero-padded to at least two
/// digits but not clamped.
pub open spec fn clock_rep(n: nat) -> Seq<char> {
    pad_min2(n / 3600) + seq![':'] + pad2((n % 3600) / 60) + seq![':'] + pad2(n % 60)
}

/// `s` padded on the left with spaces to width `w` (unchanged if already as
/// wide).
pub open spec fn right_align(s: Seq<char>, w: nat) -> Seq<char> {
    if s.len() >= w {
        s
    } else {
        spaces((w - s.len()) as nat) + s
    }
}

/// `n` space characters.
pub open spec fn spaces(n: nat) -> Seq<char>
    decreases n,
{
    if n == 0 {
        Seq::empty()
    } else {
        spaces((n - 1) as nat).push(' ')
    }
}

/// True for the ten decimal digit characters.
pub open spec fn is_dec_digit(c: char) -> bool {
    '0' <= c && c <= '9'
}

/// Every character of a decimal representation is a digit, and there is at
/// least one.
pub proof fn lemma_dec_rep_digits(n: nat)
    ensures
        dec_rep(n).len() >= 1,
        forall|i: int| 0 <= i < dec_rep(n).len() ==> is_dec_digit(#[trigger] dec_rep(n)[i]),
    decreases n,
{
    if n >= 10 {
        lemma_dec_rep_digits(n / 10);
    }
}

/// A two-decimal rendering always parses as a fixed-point number: one or more
/// digits, then a single dot, then exactly two digits. The dot stands three
/// characters from the end and nowhere else.
pub proof fn lemma_two_dec_shape(c: nat)
    ensures
        two_dec(c).len() >= 4,
        two_dec(c)[two_dec(c).len() - 3] == '.',
        forall|i: int|
            0 <= i < two_dec(c).len() && i != two_dec(c).len() - 3 ==> is_dec_digit(
                #[trigger] two_dec(c)[i],
            ),
        forall|i: int|
            0 <= i < two_dec(c).len() && i != two_dec(c).len() - 3 ==> #[trigger] two_dec(c)[i]
                != '.',
{
    lemma_dec_rep_digits(c / 100);
}

/// The one-character string for the digit `d`.
fn digit_str(d: u64) -> (s: &'static str)
    requires
        d < 10,
    ensures
        s@ == seq![digit_char(d as nat)],
{
    if d == 0 {
        proof {
            reveal_strlit("0");
            assert(("0")@ =~= seq![digit_char(d as nat)]);
        }
        "0"
    } else if d == 1 {
        proof {
            reveal_strlit("1");
            assert(("1")@ =~= seq![digit_char(d as nat)]);
        }
        "1"
    } else if d == 2 {
        proof {
            reveal_strlit("2");
            assert(("2")@ =~= seq![digit_char(d as nat)]);
        }
        "2"
    } else if d == 3 {
        proof {
            reveal_strlit("3");
            assert(("3")@ =~= seq![digit_char(d as nat)]);
        }
        "3"
    } else if d == 4 {
        proof {
            reveal_strlit("4");
            assert(("4")@ =~= seq![digit_char(d as nat)]);
        }
        "4"
    } else if d == 5 {
        proof {
            reveal_strlit("5");
            assert(("5")@ =~= seq![digit_char(d as nat)]);
        }
        "5"
    } else if d == 6 {
        proof {
            reveal_strlit("6");
            assert(("6")@ =~= seq![digit_char(d as nat)]);
        }
        "6"
    } else if d == 7 {
        proof {
            reveal_strlit("7");
            assert(("7")@ =~= seq![digit_char(d as nat)]);
        }
        "7"
    } else if d == 8 {
        proof {
            reveal_strlit("8");
            assert(("8")@ =~= seq![digit_char(d as nat)]);
        }
        "8"
    } else {
        proof {
            reveal_strlit("9");
            assert(("9")@ =~= seq![digit_char(d as nat)]);
        }
        "9"
    }
}

/// `n` in decimal, no leading zeros.
pub fn u64_dec(n: u64) -> (s: String)
    ensures
        s@ == dec_rep(n as nat),
    decreases n,
{
    if n < 10 {
        String::from_str(digit_str(n))
    } else {
        let mut s = u64_dec(n / 10);
        s.append(digit_str(n % 10));
        proof {
            assert(s@ =~= dec_rep(n as nat));
        }
        s
    }
}

/// `n` as exactly two digits, zero-padded.
pub fn u64_pad2(n: u64) -> (s: String)
    requires
        n < 100,
    ensures
        s@ == pad2(n as nat),
{
    let mut s = String::from_str(digit_str(n / 10));
    s.append(digit_str(n % 10));
    proof {
        assert(s@ =~= pad2(n as nat));
    }
    s
}

/// `n` in decimal, zero-padded on the left to a width of at least two.
pub fn u64_pad_min2(n: u64) -> (s: String)
    ensures
        s@ == pad_min2(n as nat),
{
    if n < 10 {
        let mut s = String::from_str("0");
        s.append(digit_str(n));
        proof {
            reveal_strlit("0");
            assert(s@ =~= pad_min2(n as nat));
        }
        s
    } else {
        u64_dec(n)
    }
}

/// `c` hundredths shown with two decimal places: `234` becomes `"2.34"`.
pub fn format_centi(c: u64) -> (s: String)
    ensures
        s@ == two_dec(c as nat),
{
    let mut s = u64_dec(c / 100);
    s.append(".");
    let frac = u64_pad2(c % 100);
    s.append(frac.as_str());
    proof {
        reveal_strlit(".");
        assert(s@ =~= two_dec(c as nat));
    }
    s
}

/// `n` seconds as `HH:MM:SS` with an unclamped hour field.
pub fn format_clock(n: u64) -> (s: String)
    ensures
        s@ == clock_rep(n as nat),
{
    let mut s = u64_pad_min2(n / 3600);
    s.append(":");
    let minutes = u64_pad2((n % 3600) / 60);
    s.append(minutes.as_str());
    s.append(":");
    let seconds = u64_pad2(n % 60);
    s.append(seconds.as_str());
    proof {
        reveal_strlit(":");
        assert(s@ =~= clock_rep(n as nat));
    }
    s
}

/// `s` padded on the left with spaces to width `w`.
pub fn pad_left(s: &str, w: usize) -> (r: String)
    ensures
        r@ == right_align(s@, w as nat),
{
    let n = s.unicode_len();
    if n >= w {
        String::from_str(s)
    } else {
        let mut r = String::new();
        let mut i: usize = 0;
        while i < w - n
            invariant
                n == s@.len(),
                n < w,
                i <= w - n,
                r@ == spaces(i as nat),
            decreases w - n - i,
        {
            r.append(" ");
            i = i + 1;
            proof {
                reveal_strlit(" ");
                assert(r@ =~= spaces(i as nat));
            }
        }
        r.append(s);
        r
    }
}

} // verus!
