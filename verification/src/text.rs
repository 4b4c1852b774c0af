use vstd::prelude::*;

verus! {

/// String-slice equality with an exact contract over the character views.
pub fn str_eq(a: &str, b: &str) -> (r: bool)
    ensures
        r == (a@ == b@),
{
    let sa: String = a.to_owned();
    let sb: String = b.to_owned();
    sa == sb
}

/// The character for one decimal digit.
pub open spec fn spec_digit_char(d: nat) -> char {
    if d == 0 {
        '0'
    } else if d == 1 {
        '1'
    } else if d == 2 {
        '2'
    } else if d == 3 {
        '3'
    } else if d == 4 {
        '4'
    } else if d == 5 {
        '5'
    } else if d == 6 {
        '6'
    } else if d == 7 {
        '7'
    } else if d == 8 {
        '8'
    } else {
        '9'
    }
}

/// The decimal digits of `n`, most significant first, no leading zeros
/// except for zero itself.
pub open spec fn spec_decimal_digits(n: nat) -> Seq<char>
    decreases n,
{
    if n < 10 {
        seq![spec_digit_char(n)]
    } else {
        spec_decimal_digits(n / 10).push(spec_digit_char(n % 10))
    }
}

/// The decimal rendering of a signed amount: a minus sign for a negative
/// value, then the digits of its magnitude.
pub open spec fn spec_decimal_i64(n: int) -> Seq<char> {
    if n < 0 {
        seq!['-'] + spec_decimal_digits((-n) as nat)
    } else {
        spec_decimal_digits(n as nat)
    }
}

/// A one-character string slice for a decimal digit.
fn digit_str(d: u8) -> (r: &'static str)
    requires
        d < 10,
    ensures
        r@ =~= seq![spec_digit_char(d as nat)],
{
    proof {
        reveal_strlit("0");
        reveal_strlit("1");
        reveal_strlit("2");
        reveal_strlit("3");
        reveal_strlit("4");
        reveal_strlit("5");
        reveal_strlit("6");
        reveal_strlit("7");
        reveal_strlit("8");
        reveal_strlit("9");
    }
    match d {
        0 => "0",
        1 => "1",
        2 => "2",
        3 => "3",
        4 => "4",
        5 => "5",
        6 => "6",
        7 => "7",
        8 => "8",
        _ => "9",
    }
}

/// Renders an unsigned integer in decimal.
pub fn u64_to_string(n: u64) -> (r: String)
    ensures
        r@ == spec_decimal_digits(n as nat),
    decreases n,
{
    if n < 10 {
        let r = digit_str(n as u8).to_owned();
        r
    } else {
        let mut s = u64_to_string(n / 10);
        s.append(digit_str((n % 10) as u8));
        proof {
            assert(s@ =~= spec_decimal_digits((n / 10) as nat).push(
                spec_digit_char((n % 10) as nat),
            ));
        }
        s
    }
}

/// Renders a signed integer in decimal, with a leading minus sign when it
/// is negative.
pub fn i64_to_string(n: i64) -> (r: String)
    ensures
        r@ == spec_decimal_i64(n as int),
{
    if n >= 0 {
        u64_to_string(n as u64)
    } else {
        let mag: u64 = if n == i64::MIN {
            9223372036854775808u64
        } else {
            (-n) as u64
        };
        let digits = u64_to_string(mag);
        let mut s = String::from_str("-");
        s.append(digits.as_str());
        proof {
            reveal_strlit("-");
            assert(s@ =~= seq!['-'] + spec_decimal_digits((-(n as int)) as nat));
        }
        s
    }
}

} // verus!
