//! The pieces of text that mnemonics are made of: hexadecimal bytes and
//! words, signed displacements, and strings joined end to end.

use vstd::prelude::*;
use vstd::string::StringExecFns;

verus! {

/// The upper-case hexadecimal digit for a value below 16.
pub open spec fn hex_digit(d: int) -> char {
    if d == 0 {
        '0'
    } else if d == 1 {
        '1'
    } else if d == 2 {
        '2'
    } else if d == 3 {
        '3'
    } else if d == 4 {
        '4'
    } else if d == 5 {
        '5'
    } else if d == 6 {
        '6'
    } else if d == 7 {
        '7'
    } else if d == 8 {
        '8'
    } else if d == 9 {
        '9'
    } else if d == 10 {
        'A'
    } else if d == 11 {
        'B'
    } else if d == 12 {
        'C'
    } else if d == 13 {
        'D'
    } else if d == 14 {
        'E'
    } else {
        'F'
    }
}

/// A byte as two hexadecimal digits.
pub open spec fn hex2(n: u8) -> Seq<char> {
    seq![hex_digit(n as int / 16), hex_digit(n as int % 16)]
}

/// A word as four hexadecimal digits.
pub open spec fn hex4(w: u16) -> Seq<char> {
    seq![
        hex_digit(w as int / 4096),
        hex_digit((w as int / 256) % 16),
        hex_digit((w as int / 16) % 16),
        hex_digit(w as int % 16),
    ]
}

/// A number below 1000 in decimal, without leading zeros.
pub open spec fn decimal(n: int) -> Seq<char> {
    if n < 10 {
        seq![hex_digit(n)]
    } else if n < 100 {
        seq![hex_digit(n / 10), hex_digit(n % 10)]
    } else {
        seq![hex_digit(n / 100), hex_digit((n / 10) % 10), hex_digit(n % 10)]
    }
}

/// The value of a byte read as a two's complement number.
pub open spec fn signed(d: u8) -> int {
    if d < 128 {
        d as int
    } else {
        d as int - 256
    }
}

/// A displacement byte in decimal with its sign, which is written for
/// zero and positive values too.
pub open spec fn signed_decimal(d: u8) -> Seq<char> {
    if d < 128 {
        seq!['+'] + decimal(d as int)
    } else {
        seq!['-'] + decimal(256 - d as int)
    }
}

/// The one-character string of a hexadecimal digit.
pub fn hex_str(d: u8) -> (s: &'static str)
    requires
        d < 16,
    ensures
        s@ == seq![hex_digit(d as int)],
{
    proof {
        reveal_strlit("0");
        reveal_strlit("1");
        reveal_strlit("2");
        reveal_strlit("3");
        reveal_strlit("4");
        reveal_strlit("5");
        reveal_strlit("6");
        reveal_strlit("7");
        reveal_strlit("8");
        reveal_strlit("9");
        reveal_strlit("A");
        reveal_strlit("B");
        reveal_strlit("C");
        reveal_strlit("D");
        reveal_strlit("E");
        reveal_strlit("F");
    }
    let s = match d {
        0 => "0",
        1 => "1",
        2 => "2",
        3 => "3",
        4 => "4",
        5 => "5",
        6 => "6",
        7 => "7",
        8 => "8",
        9 => "9",
        10 => "A",
        11 => "B",
        12 => "C",
        13 => "D",
        14 => "E",
        _ => "F",
    };
    assert(s@ =~= seq![hex_digit(d as int)]);
    s
}

/// Appends a byte as two hexadecimal digits.
pub fn push_hex2(s: &mut String, n: u8)
    ensures
        final(s)@ == old(s)@ + hex2(n),
{
    s.append(hex_str(n / 16));
    s.append(hex_str(n % 16));
    assert(s@ =~= old(s)@ + hex2(n));
}

/// Appends a word as four hexadecimal digits.
pub fn push_hex4(s: &mut String, w: u16)
    ensures
        final(s)@ == old(s)@ + hex4(w),
{
    s.append(hex_str((w / 4096) as u8));
    s.append(hex_str(((w / 256) % 16) as u8));
    s.append(hex_str(((w / 16) % 16) as u8));
    s.append(hex_str((w % 16) as u8));
    assert(s@ =~= old(s)@ + hex4(w));
}

/// Appends a number below 1000 in decimal.
pub fn push_decimal(s: &mut String, n: u16)
    requires
        n < 1000,
    ensures
        final(s)@ == old(s)@ + decimal(n as int),
{
    if n >= 100 {
        s.append(hex_str((n / 100) as u8));
    }
    if n >= 10 {
        s.append(hex_str(((n / 10) % 10) as u8));
    }
    s.append(hex_str((n % 10) as u8));
    assert(s@ =~= old(s)@ + decimal(n as int));
}

/// Appends a displacement byte in decimal with its sign.
pub fn push_signed(s: &mut String, d: u8)
    ensures
        final(s)@ == old(s)@ + signed_decimal(d),
{
    proof {
        reveal_strlit("+");
        reveal_strlit("-");
    }
    if d < 128 {
        s.append("+");
        push_decimal(s, d as u16);
    } else {
        s.append("-");
        push_decimal(s, 256 - d as u16);
    }
    assert(s@ =~= old(s)@ + signed_decimal(d));
}

/// Two strings end to end.
pub fn join2(a: &str, b: &str) -> (s: String)
    ensures
        s@ == a@ + b@,
{
    let mut s = String::from_str(a);
    s.append(b);
    s
}

/// Three strings end to end.
pub fn join3(a: &str, b: &str, c: &str) -> (s: String)
    ensures
        s@ == a@ + b@ + c@,
{
    let mut s = String::from_str(a);
    s.append(b);
    s.append(c);
    s
}

/// Four strings end to end.
pub fn join4(a: &str, b: &str, c: &str, d: &str) -> (s: String)
    ensures
        s@ == a@ + b@ + c@ + d@,
{
    let mut s = String::from_str(a);
    s.append(b);
    s.append(c);
    s.append(d);
    s
}

/// A byte in hexadecimal between two strings.
pub fn around_hex2(before: &str, n: u8, after: &str) -> (s: String)
    ensures
        s@ == before@ + hex2(n) + after@,
{
    let mut s = String::from_str(before);
    push_hex2(&mut s, n);
    s.append(after);
    s
}

/// A word in hexadecimal between two strings.
pub fn around_hex4(before: &str, w: u16, after: &str) -> (s: String)
    ensures
        s@ == before@ + hex4(w) + after@,
{
    let mut s = String::from_str(before);
    push_hex4(&mut s, w);
    s.append(after);
    s
}

/// A signed displacement between two strings.
pub fn around_signed(before: &str, d: u8, after: &str) -> (s: String)
    ensures
        s@ == before@ + signed_decimal(d) + after@,
{
    let mut s = String::from_str(before);
    push_signed(&mut s, d);
    s.append(after);
    s
}

/// Tells whether `s` begins with `prefix`.
pub fn starts_with(s: &str, prefix: &str) -> (yes: bool)
    ensures
        yes == (prefix@.len() <= s@.len() && s@.take(prefix@.len() as int) == prefix@),
{
    let n = prefix.unicode_len();
    if s.unicode_len() < n {
        return false;
    }
    let mut i: usize = 0;
    while i < n
        invariant
            i <= n,
            n == prefix@.len(),
            n <= s@.len(),
            s@.take(i as int) == prefix@.take(i as int),
        decreases n - i,
    {
        if s.get_char(i) != prefix.get_char(i) {
            proof {
                if s@.take(n as int) == prefix@ {
                    assert(s@.take(n as int)[i as int] == prefix@[i as int]);
                }
            }
            return false;
        }
        proof {
            assert(s@.take(i as int + 1) =~= s@.take(i as int).push(s@[i as int]));
            assert(prefix@.take(i as int + 1) =~= prefix@.take(i as int).push(prefix@[i as int]));
        }
        i = i + 1;
    }
    proof {
        assert(prefix@.take(n as int) =~= prefix@);
    }
    true
}

} // verus!
