//! Small verified text utilities: string equality, decimal rendering and
//! zero-padded fields, shared by the renderers and the argument assembly.

use vstd::prelude::*;

verus! {

/// Relies on `String::push`: appends exactly the given character to the end
/// of the string.
pub assume_specification[ String::push ](s: &mut String, c: char)
    ensures
        final(s)@ == old(s)@.push(c),
;

/// Character-wise equality of two string slices.
pub fn str_eq(a: &str, b: &str) -> (r: bool)
    ensures
        r == (a@ == b@),
{
    let av: String = a.to_owned();
    let bv: String = b.to_owned();
    av == bv
}

/// The decimal digit character for a value below ten.
pub open spec fn digit_char(d: nat) -> char {
    if d == 0 {
        '0'
    } else if d == 1 {
        '1'
    } else if d == 2 {
        '2'
    } else if d == 3 {
        '3'
    } else if d == 4 {
        '4'
    } else if d == 5 {
        '5'
    } else if d == 6 {
        '6'
    } else if d == 7 {
        '7'
    } else if d == 8 {
        '8'
    } else {
        '9'
    }
}

/// The decimal rendering of a natural number, most significant digit first,
/// with no leading zeros (a single zero for zero itself).
pub open spec fn dec_spec(n: nat) -> Seq<char>
    decreases n,
{
    if n < 10 {
        seq![digit_char(n)]
    } else {
        dec_spec(n / 10).push(digit_char(n % 10))
    }
}

/// The decimal rendering of an integer: a minus sign before the digits when
/// the value is negative.
pub open spec fn int_dec_spec(n: int) -> Seq<char> {
    if n < 0 {
        seq!['-'] + dec_spec((-n) as nat)
    } else {
        dec_spec(n as nat)
    }
}

/// A decimal field of at least two digits, zero-padded on the left.
pub open spec fn pad2_spec(n: nat) -> Seq<char> {
    if n < 10 {
        seq!['0'] + dec_spec(n)
    } else {
        dec_spec(n)
    }
}

/// A decimal field of at least three digits, zero-padded on the left.
pub open spec fn pad3_spec(n: nat) -> Seq<char> {
    if n < 10 {
        seq!['0', '0'] + dec_spec(n)
    } else if n < 100 {
        seq!['0'] + dec_spec(n)
    } else {
        dec_spec(n)
    }
}

fn digit_of(d: u64) -> (c: char)
    requires
        d < 10,
    ensures
        c == digit_char(d as nat),
{
    if d == 0 {
        '0'
    } else if d == 1 {
        '1'
    } else if d == 2 {
        '2'
    } else if d == 3 {
        '3'
    } else if d == 4 {
        '4'
    } else if d == 5 {
        '5'
    } else if d == 6 {
        '6'
    } else if d == 7 {
        '7'
    } else if d == 8 {
        '8'
    } else {
        '9'
    }
}

/// Renders a number in decimal.
pub fn u64_dec(n: u64) -> (s: String)
    ensures
        s@ == dec_spec(n as nat),
    decreases n,
{
    if n < 10 {
        let mut s = String::new();
        s.push(digit_of(n));
        proof {
            assert(s@ =~= dec_spec(n as nat));
        }
        s
    } else {
        let mut s = u64_dec(n / 10);
        s.push(digit_of(n % 10));
        s
    }
}

/// Renders a signed number in decimal.
pub fn i64_dec(n: i64) -> (s: String)
    ensures
        s@ == int_dec_spec(n as int),
{
    if n < 0 {
        let mut s: String = "-".to_owned();
        let magnitude: u64 = if n == i64::MIN {
            9223372036854775808u64
        } else {
            (-n) as u64
        };
        let digits = u64_dec(magnitude);
        s.append(digits.as_str());
        proof {
            reveal_strlit("-");
            assert(s@ =~= int_dec_spec(n as int));
        }
        s
    } else {
        u64_dec(n as u64)
    }
}

/// Renders a number as a zero-padded field of at least two digits.
pub fn u64_pad2(n: u64) -> (s: String)
    ensures
        s@ == pad2_spec(n as nat),
{
    if n < 10 {
        let mut s: String = "0".to_owned();
        let digits = u64_dec(n);
        s.append(digits.as_str());
        proof {
            reveal_strlit("0");
            assert(s@ =~= pad2_spec(n as nat));
        }
        s
    } else {
        u64_dec(n)
    }
}

/// Renders a number as a zero-padded field of at least three digits.
pub fn u64_pad3(n: u64) -> (s: String)
    ensures
        s@ == pad3_spec(n as nat),
{
    if n < 10 {
        let mut s: String = "00".to_owned();
        let digits = u64_dec(n);
        s.append(digits.as_str());
        proof {
            reveal_strlit("00");
            assert(s@ =~= pad3_spec(n as nat));
        }
        s
    } else if n < 100 {
        let mut s: String = "0".to_owned();
        let digits = u64_dec(n);
        s.append(digits.as_str());
        proof {
            reveal_strlit("0");
            assert(s@ =~= pad3_spec(n as nat));
        }
        s
    } else {
        u64_dec(n)
    }
}

} // verus!
