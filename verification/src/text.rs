//! Building blocks for rendered text: decimal digit strings, two-decimal
//! fixed-point displays, character repetition and left-aligned padding.

use vstd::prelude::*;
use vstd::string::*;

verus! {

/// The decimal digit character for a value in 0..=9.
pub open spec fn spec_digit(d: nat) -> char {
    if d == 0 {
        '0'
    } else if d == 1 {
        '1'
    } else if d == 2 {
        '2'
    } else if d == 3 {
        '3'
    } else if d == 4 {
        '4'
    } else if d == 5 {
        '5'
    } else if d == 6 {
        '6'
    } else if d == 7 {
        '7'
    } else if d == 8 {
        '8'
    } else {
        '9'
    }
}

/// The usual decimal rendering of a natural number, most significant digit
/// first, with no leading zeros (except for the number 0 itself).
pub open spec fn spec_dec(n: nat) -> Seq<char>
    decreases n,
{
    if n < 10 {
        seq![spec_digit(n)]
    } else {
        spec_dec(n / 10).push(spec_digit(n % 10))
    }
}

/// A value of hundredths rendered with exactly two digits after the point,
/// e.g. 49 hundredths renders as "0.49".
pub open spec fn spec_two_dec(h: nat) -> Seq<char> {
    spec_dec(h / 100) + seq!['.', spec_digit((h % 100) / 10), spec_digit(h % 10)]
}

/// `n` copies of the character `c`.
pub open spec fn spec_repeat(c: char, n: nat) -> Seq<char> {
    Seq::new(n, |i: int| c)
}

/// `s` left-aligned in a field of `width` characters: shorter strings get
/// trailing spaces, longer strings are kept whole.
pub open spec fn spec_pad(s: Seq<char>, width: nat) -> Seq<char> {
    if s.len() >= width {
        s
    } else {
        s + spec_repeat(' ', (width - s.len()) as nat)
    }
}

/// The one-character string for a decimal digit.
fn digit_str(d: u128) -> (r: &'static str)
    requires
        d < 10,
    ensures
        r@ =~= seq![spec_digit(d as nat)],
{
    proof {
        reveal_strlit("0");
        reveal_strlit("1");
        reveal_strlit("2");
        reveal_strlit("3");
        reveal_strlit("4");
        reveal_strlit("5");
        reveal_strlit("6");
        reveal_strlit("7");
        reveal_strlit("8");
        reveal_strlit("9");
    }
    if d == 0 {
        "0"
    } else if d == 1 {
        "1"
    } else if d == 2 {
        "2"
    } else if d == 3 {
        "3"
    } else if d == 4 {
        "4"
    } else if d == 5 {
        "5"
    } else if d == 6 {
        "6"
    } else if d == 7 {
        "7"
    } else if d == 8 {
        "8"
    } else {
        "9"
    }
}

/// Renders `n` in decimal.
pub fn dec_u128(n: u128) -> (s: String)
    ensures
        s@ == spec_dec(n as nat),
    decreases n,
{
    if n < 10 {
        String::from_str(digit_str(n))
    } else {
        let mut s = dec_u128(n / 10);
        s.append(digit_str(n % 10));
        proof {
            assert(s@ =~= spec_dec(n as nat));
        }
        s
    }
}

/// Renders a count of hundredths with two digits after the decimal point.
pub fn two_dec_u128(h: u128) -> (s: String)
    ensures
        s@ == spec_two_dec(h as nat),
{
    let mut s = dec_u128(h / 100);
    s.append(".");
    proof {
        reveal_strlit(".");
    }
    s.append(digit_str((h % 100) / 10));
    s.append(digit_str(h % 10));
    proof {
        assert((h % 100) % 10 == h % 10) by (nonlinear_arith);
        assert(s@ =~= spec_two_dec(h as nat));
    }
    s
}

/// A string of `n` copies of the single character in `unit`.
pub fn repeat_str(unit: &str, n: usize) -> (s: String)
    requires
        unit@.len() == 1,
    ensures
        s@ == spec_repeat(unit@[0], n as nat),
{
    let mut s = String::new();
    let mut i: usize = 0;
    while i < n
        invariant
            i <= n,
            unit@.len() == 1,
            s@ =~= spec_repeat(unit@[0], i as nat),
        decreases n - i,
    {
        s.append(unit);
        i = i + 1;
        proof {
            assert(s@ =~= spec_repeat(unit@[0], i as nat));
        }
    }
    s
}

/// Left-aligns `s` in a field of `width` characters, padding with spaces.
pub fn pad_to(s: String, width: usize) -> (r: String)
    ensures
        r@ == spec_pad(s@, width as nat),
{
    let len = s.as_str().unicode_len();
    if len >= width {
        s
    } else {
        proof {
            reveal_strlit(" ");
        }
        let mut r = s;
        let pad = repeat_str(" ", width - len);
        r.append(pad.as_str());
        r
    }
}

/// Whether the characters of `s` between `from` and `to` are exactly the
/// characters of `lit`.
pub fn str_range_eq(s: &str, from: usize, to: usize, lit: &str) -> (r: bool)
    requires
        from <= to,
        to as int <= s@.len(),
    ensures
        r <==> s@.subrange(from as int, to as int) == lit@,
{
    let n = lit.unicode_len();
    if to - from != n {
        proof {
            assert(s@.subrange(from as int, to as int).len() != lit@.len());
        }
        return false;
    }
    let mut i: usize = 0;
    while i < n
        invariant
            i <= n,
            n as int == lit@.len(),
            from + n <= to <= s@.len(),
            to - from == n,
            forall|j: int| 0 <= j < i ==> s@.subrange(from as int, to as int)[j] == lit@[j],
        decreases n - i,
    {
        if s.get_char(from + i) != lit.get_char(i) {
            proof {
                assert(s@.subrange(from as int, to as int)[i as int] != lit@[i as int]);
            }
            return false;
        }
        i = i + 1;
    }
    proof {
        assert(s@.subrange(from as int, to as int) =~= lit@);
    }
    true
}

} // verus!
