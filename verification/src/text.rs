//! Small verified helpers for building and comparing the strings the
//! library hands to the database and to the operator.

use vstd::prelude::*;

verus! {

/// Equality of two string slices, decided on their character sequences.
pub fn str_eq(a: &str, b: &str) -> (r: bool)
    ensures
        r == (a@ == b@),
{
    let x: String = a.to_owned();
    let y: String = b.to_owned();
    x == y
}

/// The character for one decimal digit.
pub open spec fn digit_char(d: int) -> char {
    if d == 0 {
        '0'
    } else if d == 1 {
        '1'
    } else if d == 2 {
        '2'
    } else if d == 3 {
        '3'
    } else if d == 4 {
        '4'
    } else if d == 5 {
        '5'
    } else if d == 6 {
        '6'
    } else if d == 7 {
        '7'
    } else if d == 8 {
        '8'
    } else {
        '9'
    }
}

/// The decimal digits of a non-negative number, most significant first,
/// with no leading zero except for the number zero itself.
pub open spec fn dec_digits(n: int) -> Seq<char>
    decreases n,
{
    if n < 10 {
        seq![digit_char(n)]
    } else {
        dec_digits(n / 10) + seq![digit_char(n % 10)]
    }
}

/// The decimal digits of a signed number, with a leading minus sign when
/// it is negative.
pub open spec fn signed_dec_digits(n: int) -> Seq<char> {
    if n < 0 {
        seq!['-'] + dec_digits(-n)
    } else {
        dec_digits(n)
    }
}

/// A number below one hundred, zero-padded to exactly two digits.
pub open spec fn two_digit_text(n: int) -> Seq<char> {
    seq![digit_char(n / 10), digit_char(n % 10)]
}

/// A number below ten thousand, zero-padded to exactly four digits.
pub open spec fn four_digit_text(n: int) -> Seq<char> {
    seq![digit_char(n / 1000), digit_char((n / 100) % 10), digit_char((n / 10) % 10), digit_char(
        n % 10,
    )]
}

fn digit_str(d: u64) -> (r: &'static str)
    requires
        d < 10,
    ensures
        r@ == seq![digit_char(d as int)],
{
    match d {
        0 => {
            proof {
                reveal_strlit("0");
                assert("0"@ =~= seq![digit_char(d as int)]);
            }
            "0"
        },
        1 => {
            proof {
                reveal_strlit("1");
                assert("1"@ =~= seq![digit_char(d as int)]);
            }
            "1"
        },
        2 => {
            proof {
                reveal_strlit("2");
                assert("2"@ =~= seq![digit_char(d as int)]);
            }
            "2"
        },
        3 => {
            proof {
                reveal_strlit("3");
                assert("3"@ =~= seq![digit_char(d as int)]);
            }
            "3"
        },
        4 => {
            proof {
                reveal_strlit("4");
                assert("4"@ =~= seq![digit_char(d as int)]);
            }
            "4"
        },
        5 => {
            proof {
                reveal_strlit("5");
                assert("5"@ =~= seq![digit_char(d as int)]);
            }
            "5"
        },
        6 => {
            proof {
                reveal_strlit("6");
                assert("6"@ =~= seq![digit_char(d as int)]);
            }
            "6"
        },
        7 => {
            proof {
                reveal_strlit("7");
                assert("7"@ =~= seq![digit_char(d as int)]);
            }
            "7"
        },
        8 => {
            proof {
                reveal_strlit("8");
                assert("8"@ =~= seq![digit_char(d as int)]);
            }
            "8"
        },
        _ => {
            proof {
                reveal_strlit("9");
                assert("9"@ =~= seq![digit_char(d as int)]);
            }
            "9"
        },
    }
}

/// Render an unsigned number in decimal.
pub fn render_u64(n: u64) -> (s: String)
    ensures
        s@ == dec_digits(n as int),
    decreases n,
{
    if n < 10 {
        digit_str(n).to_owned()
    } else {
        let mut s = render_u64(n / 10);
        s.append(digit_str(n % 10));
        s
    }
}

/// Render a signed number in decimal, with a minus sign when negative.
pub fn render_i64(n: i64) -> (s: String)
    ensures
        s@ == signed_dec_digits(n as int),
{
    if n >= 0 {
        render_u64(n as u64)
    } else {
        let magnitude: u64 = ((-(n + 1)) as u64) + 1;
        let mut s = "-".to_owned();
        s.append(render_u64(magnitude).as_str());
        proof {
            reveal_strlit("-");
            assert("-"@ =~= seq!['-']);
        }
        s
    }
}

/// Render a number below one hundred, zero-padded to two digits.
pub fn render_two_digits(n: u64) -> (s: String)
    requires
        n < 100,
    ensures
        s@ == two_digit_text(n as int),
{
    let mut s = digit_str(n / 10).to_owned();
    s.append(digit_str(n % 10));
    proof {
        assert(s@ =~= two_digit_text(n as int));
    }
    s
}

/// Render a number below ten thousand, zero-padded to four digits.
pub fn render_four_digits(n: u64) -> (s: String)
    requires
        n < 10000,
    ensures
        s@ == four_digit_text(n as int),
{
    let mut s = digit_str(n / 1000).to_owned();
    s.append(digit_str((n / 100) % 10));
    s.append(digit_str((n / 10) % 10));
    s.append(digit_str(n % 10));
    proof {
        assert(s@ =~= four_digit_text(n as int));
    }
    s
}

} // verus!
