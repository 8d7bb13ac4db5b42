//! Decimal rendering of integers, for diagnostics that must name the
//! number that was actually observed.

use vstd::prelude::*;
use vstd::string::StringExecFns;

verus! {

broadcast use vstd::string::group_string_axioms;

/// The decimal digit character for `d` (taken modulo ten).
pub open spec fn digit_char(d: nat) -> char {
    if d % 10 == 0 {
        '0'
    } else if d % 10 == 1 {
        '1'
    } else if d % 10 == 2 {
        '2'
    } else if d % 10 == 3 {
        '3'
    } else if d % 10 == 4 {
        '4'
    } else if d % 10 == 5 {
        '5'
    } else if d % 10 == 6 {
        '6'
    } else if d % 10 == 7 {
        '7'
    } else if d % 10 == 8 {
        '8'
    } else {
        '9'
    }
}

/// The decimal digits of `n`, most significant first, with no sign and no
/// leading zero except for `n == 0` itself.
pub open spec fn dec_digits(n: nat) -> Seq<char>
    decreases n,
{
    if n < 10 {
        seq![digit_char(n)]
    } else {
        dec_digits(n / 10).push(digit_char(n % 10))
    }
}

/// The decimal rendering of `n`: a minus sign and the digits of its
/// magnitude when `n` is negative, the digits alone otherwise.
pub open spec fn dec_int(n: int) -> Seq<char> {
    if n < 0 {
        seq!['-'] + dec_digits((-n) as nat)
    } else {
        dec_digits(n as nat)
    }
}

/// The one-character string for a single decimal digit.
fn digit_str(d: u64) -> (r: &'static str)
    requires
        d < 10,
    ensures
        r@ == seq![digit_char(d as nat)],
{
    match d {
        0 => {
            proof {
                reveal_strlit("0");
                assert("0"@ =~= seq![digit_char(0)]);
            }
            "0"
        },
        1 => {
            proof {
                reveal_strlit("1");
                assert("1"@ =~= seq![digit_char(1)]);
            }
            "1"
        },
        2 => {
            proof {
                reveal_strlit("2");
                assert("2"@ =~= seq![digit_char(2)]);
            }
            "2"
        },
        3 => {
            proof {
                reveal_strlit("3");
                assert("3"@ =~= seq![digit_char(3)]);
            }
            "3"
        },
        4 => {
            proof {
                reveal_strlit("4");
                assert("4"@ =~= seq![digit_char(4)]);
            }
            "4"
        },
        5 => {
            proof {
                reveal_strlit("5");
                assert("5"@ =~= seq![digit_char(5)]);
            }
            "5"
        },
        6 => {
            proof {
                reveal_strlit("6");
                assert("6"@ =~= seq![digit_char(6)]);
            }
            "6"
        },
        7 => {
            proof {
                reveal_strlit("7");
                assert("7"@ =~= seq![digit_char(7)]);
            }
            "7"
        },
        8 => {
            proof {
                reveal_strlit("8");
                assert("8"@ =~= seq![digit_char(8)]);
            }
            "8"
        },
        _ => {
            proof {
                reveal_strlit("9");
                assert("9"@ =~= seq![digit_char(9)]);
            }
            "9"
        },
    }
}

/// Appends the decimal digits of `m`, most significant first.
fn push_digits(m: u64, s: &mut String)
    ensures
        final(s)@ == old(s)@ + dec_digits(m as nat),
    decreases m,
{
    if m < 10 {
        s.append(digit_str(m));
    } else {
        push_digits(m / 10, s);
        s.append(digit_str(m % 10));
        proof {
            assert(old(s)@ + dec_digits((m / 10) as nat) + seq![digit_char((m % 10) as nat)]
                =~= old(s)@ + dec_digits(m as nat));
        }
    }
}

/// Renders an integer in decimal, with a leading minus sign when negative.
pub fn i64_to_string(n: i64) -> (r: String)
    ensures
        r@ == dec_int(n as int),
{
    let mut s = String::new();
    if n < 0 {
        s.append("-");
        proof {
            reveal_strlit("-");
            assert("-"@ =~= seq!['-']);
        }
    }
    let m: u64 = if n >= 0 {
        n as u64
    } else {
        (-(n + 1)) as u64 + 1
    };
    push_digits(m, &mut s);
    proof {
        assert(s@ =~= dec_int(n as int));
    }
    s
}

} // verus!
