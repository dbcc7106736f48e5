//! Decimal rendering of the small integers used as positional ids.

use vstd::prelude::*;

verus! {

/// The decimal digit character for `d` (0 to 9).
pub open spec fn spec_digit_char(d: int) -> char {
    if d == 0 {
        '0'
    } else if d == 1 {
        '1'
    } else if d == 2 {
        '2'
    } else if d == 3 {
        '3'
    } else if d == 4 {
        '4'
    } else if d == 5 {
        '5'
    } else if d == 6 {
        '6'
    } else if d == 7 {
        '7'
    } else if d == 8 {
        '8'
    } else {
        '9'
    }
}

/// The decimal rendering of `n` (0 to 255), without leading zeros.
pub open spec fn spec_u8_decimal(n: int) -> Seq<char> {
    if n < 10 {
        seq![spec_digit_char(n)]
    } else if n < 100 {
        seq![spec_digit_char(n / 10), spec_digit_char(n % 10)]
    } else {
        seq![spec_digit_char(n / 100), spec_digit_char((n / 10) % 10), spec_digit_char(n % 10)]
    }
}

/// Distinct digits render as distinct characters.
proof fn lemma_digit_char_injective(a: int, b: int)
    requires
        0 <= a < 10,
        0 <= b < 10,
        spec_digit_char(a) == spec_digit_char(b),
    ensures
        a == b,
{
}

/// Distinct numbers render as distinct decimal strings.
pub proof fn lemma_u8_decimal_injective(a: int, b: int)
    requires
        0 <= a <= 255,
        0 <= b <= 255,
        spec_u8_decimal(a) == spec_u8_decimal(b),
    ensures
        a == b,
{
    if a < 10 {
        assert(spec_u8_decimal(b).len() == 1);
        assert(b < 10);
        assert(spec_u8_decimal(a)[0] == spec_digit_char(a));
        assert(spec_u8_decimal(b)[0] == spec_digit_char(b));
        lemma_digit_char_injective(a, b);
    } else if a < 100 {
        assert(spec_u8_decimal(b).len() == 2);
        assert(10 <= b < 100);
        assert(spec_u8_decimal(a)[0] == spec_digit_char(a / 10));
        assert(spec_u8_decimal(a)[1] == spec_digit_char(a % 10));
        assert(spec_u8_decimal(b)[0] == spec_digit_char(b / 10));
        assert(spec_u8_decimal(b)[1] == spec_digit_char(b % 10));
        lemma_digit_char_injective(a / 10, b / 10);
        lemma_digit_char_injective(a % 10, b % 10);
        assert(a == 10 * (a / 10) + a % 10);
        assert(b == 10 * (b / 10) + b % 10);
    } else {
        assert(spec_u8_decimal(b).len() == 3);
        assert(100 <= b <= 255);
        assert(spec_u8_decimal(a)[0] == spec_digit_char(a / 100));
        assert(spec_u8_decimal(a)[1] == spec_digit_char((a / 10) % 10));
        assert(spec_u8_decimal(a)[2] == spec_digit_char(a % 10));
        assert(spec_u8_decimal(b)[0] == spec_digit_char(b / 100));
        assert(spec_u8_decimal(b)[1] == spec_digit_char((b / 10) % 10));
        assert(spec_u8_decimal(b)[2] == spec_digit_char(b % 10));
        lemma_digit_char_injective(a / 100, b / 100);
        lemma_digit_char_injective((a / 10) % 10, (b / 10) % 10);
        lemma_digit_char_injective(a % 10, b % 10);
        assert(a == 100 * (a / 100) + 10 * ((a / 10) % 10) + a % 10);
        assert(b == 100 * (b / 100) + 10 * ((b / 10) % 10) + b % 10);
    }
}

fn digit_str(d: u8) -> (r: &'static str)
    requires
        d < 10,
    ensures
        r@ == seq![spec_digit_char(d as int)],
{
    match d {
        0 => {
            proof {
                reveal_strlit("0");
                assert("0"@ =~= seq![spec_digit_char(0)]);
            }
            "0"
        },
        1 => {
            proof {
                reveal_strlit("1");
                assert("1"@ =~= seq![spec_digit_char(1)]);
            }
            "1"
        },
        2 => {
            proof {
                reveal_strlit("2");
                assert("2"@ =~= seq![spec_digit_char(2)]);
            }
            "2"
        },
        3 => {
            proof {
                reveal_strlit("3");
                assert("3"@ =~= seq![spec_digit_char(3)]);
            }
            "3"
        },
        4 => {
            proof {
                reveal_strlit("4");
                assert("4"@ =~= seq![spec_digit_char(4)]);
            }
            "4"
        },
        5 => {
            proof {
                reveal_strlit("5");
                assert("5"@ =~= seq![spec_digit_char(5)]);
            }
            "5"
        },
        6 => {
            proof {
                reveal_strlit("6");
                assert("6"@ =~= seq![spec_digit_char(6)]);
            }
            "6"
        },
        7 => {
            proof {
                reveal_strlit("7");
                assert("7"@ =~= seq![spec_digit_char(7)]);
            }
            "7"
        },
        8 => {
            proof {
                reveal_strlit("8");
                assert("8"@ =~= seq![spec_digit_char(8)]);
            }
            "8"
        },
        _ => {
            proof {
                reveal_strlit("9");
                assert("9"@ =~= seq![spec_digit_char(9)]);
            }
            "9"
        },
    }
}

/// Render `n` in decimal, without leading zeros.
pub fn u8_decimal(n: u8) -> (s: String)
    ensures
        s@ == spec_u8_decimal(n as int),
{
    if n < 10 {
        let s = String::from_str(digit_str(n));
        proof {
            assert(s@ =~= spec_u8_decimal(n as int));
        }
        s
    } else if n < 100 {
        let s = String::from_str(digit_str(n / 10));
        let s = s.concat(digit_str(n % 10));
        proof {
            assert(s@ =~= spec_u8_decimal(n as int));
        }
        s
    } else {
        let s = String::from_str(digit_str(n / 100));
        let s = s.concat(digit_str((n / 10) % 10));
        let s = s.concat(digit_str(n % 10));
        proof {
            assert(s@ =~= spec_u8_decimal(n as int));
        }
        s
    }
}

} // verus!
