//! Decimal and hexadecimal rendering of unsigned integers, used to build the
//! canonical textual payload that records are hashed over.

use vstd::prelude::*;

verus! {

/// The character for one digit value below 16, lowercase.
pub open spec fn digit_char(d: u64) -> char {
    if d == 0 {
        '0'
    } else if d == 1 {
        '1'
    } else if d == 2 {
        '2'
    } else if d == 3 {
        '3'
    } else if d == 4 {
        '4'
    } else if d == 5 {
        '5'
    } else if d == 6 {
        '6'
    } else if d == 7 {
        '7'
    } else if d == 8 {
        '8'
    } else if d == 9 {
        '9'
    } else if d == 10 {
        'a'
    } else if d == 11 {
        'b'
    } else if d == 12 {
        'c'
    } else if d == 13 {
        'd'
    } else if d == 14 {
        'e'
    } else {
        'f'
    }
}

/// Decimal rendering of `n`, most significant digit first, no leading zeros
/// (a single `'0'` for zero).
pub open spec fn dec_digits(n: u64) -> Seq<char>
    decreases n,
{
    if n < 10 {
        seq![digit_char(n)]
    } else {
        dec_digits(n / 10) + seq![digit_char(n % 10)]
    }
}

/// Lowercase hexadecimal rendering of `n`, most significant digit first, no
/// leading zeros (a single `'0'` for zero).
pub open spec fn hex_digits(n: u64) -> Seq<char>
    decreases n,
{
    if n < 16 {
        seq![digit_char(n)]
    } else {
        hex_digits(n / 16) + seq![digit_char(n % 16)]
    }
}

/// One digit value below 16 as a one-character string.
fn digit_str(d: u64) -> (r: &'static str)
    requires
        d < 16,
    ensures
        r@ == seq![digit_char(d)],
{
    proof {
        reveal_strlit("0");
        reveal_strlit("1");
        reveal_strlit("2");
        reveal_strlit("3");
        reveal_strlit("4");
        reveal_strlit("5");
        reveal_strlit("6");
        reveal_strlit("7");
        reveal_strlit("8");
        reveal_strlit("9");
        reveal_strlit("a");
        reveal_strlit("b");
        reveal_strlit("c");
        reveal_strlit("d");
        reveal_strlit("e");
        reveal_strlit("f");
    }
    match d {
        0 => "0",
        1 => "1",
        2 => "2",
        3 => "3",
        4 => "4",
        5 => "5",
        6 => "6",
        7 => "7",
        8 => "8",
        9 => "9",
        10 => "a",
        11 => "b",
        12 => "c",
        13 => "d",
        14 => "e",
        _ => "f",
    }
}

/// `n` in decimal, as a string.
pub fn u64_to_dec(n: u64) -> (r: String)
    ensures
        r@ == dec_digits(n),
    decreases n,
{
    if n < 10 {
        digit_str(n).to_owned()
    } else {
        let high = u64_to_dec(n / 10);
        high.concat(digit_str(n % 10))
    }
}

/// `n % 1000` rendered as exactly three digits, zero-padded.
pub open spec fn pad3_digits(n: u64) -> Seq<char> {
    if n < 10 {
        seq!['0', '0'] + dec_digits(n)
    } else if n < 100 {
        seq!['0'] + dec_digits(n)
    } else {
        dec_digits(n)
    }
}

/// Decimal rendering of `n` with a comma between each group of three
/// digits, as score displays show it.
pub open spec fn grouped_digits(n: u64) -> Seq<char>
    decreases n,
{
    if n < 1000 {
        dec_digits(n)
    } else {
        grouped_digits(n / 1000) + seq![','] + pad3_digits(n % 1000)
    }
}

/// `n` in decimal with thousands separators, as a string.
pub fn u64_to_dec_grouped(n: u64) -> (r: String)
    ensures
        r@ == grouped_digits(n),
    decreases n,
{
    proof {
        reveal_strlit(",");
        reveal_strlit("0");
        reveal_strlit("00");
    }
    if n < 1000 {
        u64_to_dec(n)
    } else {
        let mut out = u64_to_dec_grouped(n / 1000);
        out.append(",");
        let low = n % 1000;
        if low < 10 {
            out.append("00");
        } else if low < 100 {
            out.append("0");
        }
        let digits = u64_to_dec(low);
        out.append(digits.as_str());
        proof {
            assert(out@ =~= grouped_digits(n));
        }
        out
    }
}

/// `n` in lowercase hexadecimal, as a string.
pub fn u64_to_hex(n: u64) -> (r: String)
    ensures
        r@ == hex_digits(n),
    decreases n,
{
    if n < 16 {
        digit_str(n).to_owned()
    } else {
        let high = u64_to_hex(n / 16);
        high.concat(digit_str(n % 16))
    }
}

} // verus!
