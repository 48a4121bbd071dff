//! Rendering of unsigned integers as fixed-width hexadecimal text.

use vstd::prelude::*;
use vstd::string::StringExecFns;

verus! {

/// The hexadecimal digit character for a value below 16.
pub open spec fn hex_char(d: int) -> char {
    if d == 0 {
        '0'
    } else if d == 1 {
        '1'
    } else if d == 2 {
        '2'
    } else if d == 3 {
        '3'
    } else if d == 4 {
        '4'
    } else if d == 5 {
        '5'
    } else if d == 6 {
        '6'
    } else if d == 7 {
        '7'
    } else if d == 8 {
        '8'
    } else if d == 9 {
        '9'
    } else if d == 10 {
        'A'
    } else if d == 11 {
        'B'
    } else if d == 12 {
        'C'
    } else if d == 13 {
        'D'
    } else if d == 14 {
        'E'
    } else {
        'F'
    }
}

/// The `n` low hexadecimal digits of `v`, most significant digit first.
pub open spec fn hex_seq(v: int, n: int) -> Seq<char>
    decreases n,
{
    if n <= 0 {
        Seq::empty()
    } else {
        hex_seq(v / 16, n - 1) + seq![hex_char(v % 16)]
    }
}

/// A hexadecimal rendering with a `0x` prefix: the `n` low digits of `v`.
pub open spec fn hex_seq_0x(v: int, n: int) -> Seq<char> {
    seq!['0', 'x'] + hex_seq(v, n)
}

/// The one-character string for a single hexadecimal digit.
pub(crate) fn hex_digit_str(d: u32) -> (r: &'static str)
    requires
        d < 16,
    ensures
        r@ == seq![hex_char(d as int)],
{
    if d == 0 {
        proof {
            reveal_strlit("0");
            assert("0"@ =~= seq![hex_char(d as int)]);
        }
        "0"
    } else if d == 1 {
        proof {
            reveal_strlit("1");
            assert("1"@ =~= seq![hex_char(d as int)]);
        }
        "1"
    } else if d == 2 {
        proof {
            reveal_strlit("2");
            assert("2"@ =~= seq![hex_char(d as int)]);
        }
        "2"
    } else if d == 3 {
        proof {
            reveal_strlit("3");
            assert("3"@ =~= seq![hex_char(d as int)]);
        }
        "3"
    } else if d == 4 {
        proof {
            reveal_strlit("4");
            assert("4"@ =~= seq![hex_char(d as int)]);
        }
        "4"
    } else if d == 5 {
        proof {
            reveal_strlit("5");
            assert("5"@ =~= seq![hex_char(d as int)]);
        }
        "5"
    } else if d == 6 {
        proof {
            reveal_strlit("6");
            assert("6"@ =~= seq![hex_char(d as int)]);
        }
        "6"
    } else if d == 7 {
        proof {
            reveal_strlit("7");
            assert("7"@ =~= seq![hex_char(d as int)]);
        }
        "7"
    } else if d == 8 {
        proof {
            reveal_strlit("8");
            assert("8"@ =~= seq![hex_char(d as int)]);
        }
        "8"
    } else if d == 9 {
        proof {
            reveal_strlit("9");
            assert("9"@ =~= seq![hex_char(d as int)]);
        }
        "9"
    } else if d == 10 {
        proof {
            reveal_strlit("A");
            assert("A"@ =~= seq![hex_char(d as int)]);
        }
        "A"
    } else if d == 11 {
        proof {
            reveal_strlit("B");
            assert("B"@ =~= seq![hex_char(d as int)]);
        }
        "B"
    } else if d == 12 {
        proof {
            reveal_strlit("C");
            assert("C"@ =~= seq![hex_char(d as int)]);
        }
        "C"
    } else if d == 13 {
        proof {
            reveal_strlit("D");
            assert("D"@ =~= seq![hex_char(d as int)]);
        }
        "D"
    } else if d == 14 {
        proof {
            reveal_strlit("E");
            assert("E"@ =~= seq![hex_char(d as int)]);
        }
        "E"
    } else {
        proof {
            reveal_strlit("F");
            assert("F"@ =~= seq![hex_char(d as int)]);
        }
        "F"
    }
}

/// A value below 100 in decimal, one or two digits.
pub open spec fn dec2(v: int) -> Seq<char> {
    if v < 10 {
        seq![hex_char(v)]
    } else {
        seq![hex_char(v / 10), hex_char(v % 10)]
    }
}

/// A value below 100 in decimal.
pub(crate) fn dec2_str(v: u32) -> (r: String)
    requires
        v < 100,
    ensures
        r@ == dec2(v as int),
{
    if v < 10 {
        let r = String::from_str(hex_digit_str(v));
        proof {
            assert(r@ =~= dec2(v as int));
        }
        r
    } else {
        let mut r = String::from_str(hex_digit_str(v / 10));
        r.append(hex_digit_str(v % 10));
        proof {
            assert(r@ =~= dec2(v as int));
        }
        r
    }
}

/// The `n` low hexadecimal digits of `i`, most significant first.
fn hex_digits(i: u32, n: u32) -> (r: String)
    requires
        n <= 8,
    ensures
        r@ == hex_seq(i as int, n as int),
    decreases n,
{
    if n == 0 {
        let r = String::new();
        proof {
            assert(r@ =~= hex_seq(i as int, 0));
        }
        r
    } else {
        let mut s = hex_digits(i / 16, n - 1);
        let d: u32 = i % 16;
        s.append(hex_digit_str(d));
        proof {
            assert(s@ =~= hex_seq(i as int, n as int));
        }
        s
    }
}

/// An 8-bit value as two hexadecimal digits.
pub fn to_hex8(i: u8) -> (r: String)
    ensures
        r@ == hex_seq(i as int, 2),
{
    hex_digits(i as u32, 2)
}

/// A 32-bit value as eight hexadecimal digits.
pub fn to_hex32(i: u32) -> (r: String)
    ensures
        r@ == hex_seq(i as int, 8),
{
    hex_digits(i, 8)
}

/// A 32-bit value as eight hexadecimal digits behind a `0x` prefix.
pub fn to_hex0x32(i: u32) -> (r: String)
    ensures
        r@ == hex_seq_0x(i as int, 8),
{
    let mut s = String::from_str("0x");
    s.append(to_hex32(i).as_str());
    proof {
        reveal_strlit("0x");
        assert(s@ =~= hex_seq_0x(i as int, 8));
    }
    s
}

/// The low 20 bits of a value as five hexadecimal digits behind a `0x` prefix.
pub fn to_hex0x20(i: u32) -> (r: String)
    ensures
        r@ == hex_seq_0x((i % 0x100000) as int, 5),
{
    let mut s = String::from_str("0x");
    s.append(hex_digits(i % 0x100000, 5).as_str());
    proof {
        reveal_strlit("0x");
        assert(s@ =~= hex_seq_0x((i % 0x100000) as int, 5));
    }
    s
}

/// The low 12 bits of a value as three hexadecimal digits behind a `0x` prefix.
pub fn to_hex0x12(i: u32) -> (r: String)
    ensures
        r@ == hex_seq_0x((i % 0x1000) as int, 3),
{
    let mut s = String::from_str("0x");
    s.append(hex_digits(i % 0x1000, 3).as_str());
    proof {
        reveal_strlit("0x");
        assert(s@ =~= hex_seq_0x((i % 0x1000) as int, 3));
    }
    s
}

} // verus!
