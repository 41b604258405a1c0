//! Decimal rendering of integers and amounts.

use vstd::prelude::*;

verus! {

/// The decimal digit character for `d` (taken modulo ten).
pub open spec fn digit_char(d: nat) -> char {
    if d % 10 == 0 {
        '0'
    } else if d % 10 == 1 {
        '1'
    } else if d % 10 == 2 {
        '2'
    } else if d % 10 == 3 {
        '3'
    } else if d % 10 == 4 {
        '4'
    } else if d % 10 == 5 {
        '5'
    } else if d % 10 == 6 {
        '6'
    } else if d % 10 == 7 {
        '7'
    } else if d % 10 == 8 {
        '8'
    } else {
        '9'
    }
}

/// The shortest decimal notation of `n`, most significant digit first.
pub open spec fn dec(n: nat) -> Seq<char>
    decreases n,
{
    if n < 10 {
        seq![digit_char(n)]
    } else {
        dec(n / 10) + seq![digit_char(n % 10)]
    }
}

/// `s` with zeros put in front until it is at least `width` long.
pub open spec fn zero_pad(s: Seq<char>, width: nat) -> Seq<char> {
    if s.len() >= width {
        s
    } else {
        Seq::new((width - s.len()) as nat, |i: int| '0') + s
    }
}

/// Decimal notation of a signed integer: a minus sign before negative values.
pub open spec fn signed_dec(v: int) -> Seq<char> {
    if v < 0 {
        seq!['-'] + dec((-v) as nat)
    } else {
        dec(v as nat)
    }
}

/// An amount of cents written as units, a point and two fraction digits.
pub open spec fn amount_spec(cents: int) -> Seq<char> {
    let a: nat = if cents < 0 { (-cents) as nat } else { cents as nat };
    let sign = if cents < 0 { seq!['-'] } else { Seq::<char>::empty() };
    sign + dec(a / 100) + seq!['.'] + zero_pad(dec(a % 100), 2)
}

/// The one-character string of a decimal digit.
fn digit_str(d: u64) -> (r: &'static str)
    requires
        d < 10,
    ensures
        r@ == seq![digit_char(d as nat)],
{
    proof {
        reveal_strlit("0");
        reveal_strlit("1");
        reveal_strlit("2");
        reveal_strlit("3");
        reveal_strlit("4");
        reveal_strlit("5");
        reveal_strlit("6");
        reveal_strlit("7");
        reveal_strlit("8");
        reveal_strlit("9");
    }
    if d == 0 {
        "0"
    } else if d == 1 {
        "1"
    } else if d == 2 {
        "2"
    } else if d == 3 {
        "3"
    } else if d == 4 {
        "4"
    } else if d == 5 {
        "5"
    } else if d == 6 {
        "6"
    } else if d == 7 {
        "7"
    } else if d == 8 {
        "8"
    } else {
        "9"
    }
}

/// Decimal notation of an unsigned integer.
pub fn decimal(n: u64) -> (r: String)
    ensures
        r@ == dec(n as nat),
    decreases n,
{
    if n < 10 {
        String::from_str(digit_str(n))
    } else {
        let mut s = decimal(n / 10);
        s.append(digit_str(n % 10));
        s
    }
}

/// Decimal notation of a signed integer.
pub fn signed_decimal(v: i64) -> (r: String)
    ensures
        r@ == signed_dec(v as int),
{
    if v < 0 {
        let a: u64 = ((-(v + 1)) as u64) + 1;
        let mut s = String::from_str("-");
        proof {
            reveal_strlit("-");
        }
        let d = decimal(a);
        s.append(d.as_str());
        s
    } else {
        decimal(v as u64)
    }
}

/// Decimal notation of `n`, padded with zeros to at least `width` characters.
pub fn padded_decimal(n: u64, width: usize) -> (r: String)
    ensures
        r@ == zero_pad(dec(n as nat), width as nat),
{
    let d = decimal(n);
    let len = d.as_str().unicode_len();
    if len >= width {
        d
    } else {
        let mut s = String::new();
        let mut i: usize = 0;
        while i < width - len
            invariant
                i <= width - len,
                s@ == Seq::new(i as nat, |j: int| '0'),
            decreases width - len - i,
        {
            proof {
                reveal_strlit("0");
            }
            s.append("0");
            i = i + 1;
            assert(s@ =~= Seq::new(i as nat, |j: int| '0'));
        }
        s.append(d.as_str());
        s
    }
}

/// An amount of cents as text with two fraction digits: `150000` gives
/// `1500.00`, `-5` gives `-0.05`.
pub fn format_amount(cents: i64) -> (r: String)
    ensures
        r@ == amount_spec(cents as int),
{
    let a: u64 = if cents < 0 {
        ((-(cents + 1)) as u64) + 1
    } else {
        cents as u64
    };
    proof {
        reveal_strlit("-");
        reveal_strlit(".");
    }
    let mut s = if cents < 0 {
        String::from_str("-")
    } else {
        String::new()
    };
    let units = decimal(a / 100);
    s.append(units.as_str());
    s.append(".");
    let frac = padded_decimal(a % 100, 2);
    s.append(frac.as_str());
    s
}

} // verus!
