//! Verified text rendering for the display: decimal numbers and
//! `mm:ss` time stamps, with their character sequences pinned down in
//! specifications.

use vstd::prelude::*;
use vstd::string::StringExecFns;

verus! {

/// The decimal digit character for `d` in `0..10`.
pub open spec fn spec_digit_char(d: int) -> char {
    if d == 0 {
        '0'
    } else if d == 1 {
        '1'
    } else if d == 2 {
        '2'
    } else if d == 3 {
        '3'
    } else if d == 4 {
        '4'
    } else if d == 5 {
        '5'
    } else if d == 6 {
        '6'
    } else if d == 7 {
        '7'
    } else if d == 8 {
        '8'
    } else {
        '9'
    }
}

/// The decimal digits of `n`, most significant first, no padding.
pub open spec fn spec_dec_digits(n: nat) -> Seq<char>
    decreases n,
{
    if n < 10 {
        seq![spec_digit_char(n as int)]
    } else {
        spec_dec_digits(n / 10) + seq![spec_digit_char((n % 10) as int)]
    }
}

/// Decimal rendering of a signed count: a leading '-' when negative.
pub open spec fn spec_dec_i64(n: int) -> Seq<char> {
    if n >= 0 {
        spec_dec_digits(n as nat)
    } else {
        seq!['-'] + spec_dec_digits((-n) as nat)
    }
}

/// `n` in decimal, left-padded with '0' to at least two digits.
pub open spec fn spec_two_digits(n: nat) -> Seq<char> {
    if n < 10 {
        seq!['0'] + spec_dec_digits(n)
    } else {
        spec_dec_digits(n)
    }
}

/// `mm:ss` rendering of a second count, each part two digits or more.
pub open spec fn spec_minutes_and_seconds(seconds: nat) -> Seq<char> {
    spec_two_digits(seconds / 60) + seq![':'] + spec_two_digits(seconds % 60)
}

/// The one-character string for a single decimal digit.
fn digit_str(d: u64) -> (s: &'static str)
    requires
        d < 10,
    ensures
        s@ == seq![spec_digit_char(d as int)],
{
    if d == 0 {
        proof {
            reveal_strlit("0");
        }
        assert("0"@ =~= seq![spec_digit_char(0)]);
        "0"
    } else if d == 1 {
        proof {
            reveal_strlit("1");
        }
        assert("1"@ =~= seq![spec_digit_char(1)]);
        "1"
    } else if d == 2 {
        proof {
            reveal_strlit("2");
        }
        assert("2"@ =~= seq![spec_digit_char(2)]);
        "2"
    } else if d == 3 {
        proof {
            reveal_strlit("3");
        }
        assert("3"@ =~= seq![spec_digit_char(3)]);
        "3"
    } else if d == 4 {
        proof {
            reveal_strlit("4");
        }
        assert("4"@ =~= seq![spec_digit_char(4)]);
        "4"
    } else if d == 5 {
        proof {
            reveal_strlit("5");
        }
        assert("5"@ =~= seq![spec_digit_char(5)]);
        "5"
    } else if d == 6 {
        proof {
            reveal_strlit("6");
        }
        assert("6"@ =~= seq![spec_digit_char(6)]);
        "6"
    } else if d == 7 {
        proof {
            reveal_strlit("7");
        }
        assert("7"@ =~= seq![spec_digit_char(7)]);
        "7"
    } else if d == 8 {
        proof {
            reveal_strlit("8");
        }
        assert("8"@ =~= seq![spec_digit_char(8)]);
        "8"
    } else {
        proof {
            reveal_strlit("9");
        }
        assert("9"@ =~= seq![spec_digit_char(9)]);
        "9"
    }
}

/// Render an unsigned count in decimal.
pub fn u64_to_dec_string(n: u64) -> (s: String)
    ensures
        s@ == spec_dec_digits(n as nat),
    decreases n,
{
    if n < 10 {
        digit_str(n).to_owned()
    } else {
        let mut s = u64_to_dec_string(n / 10);
        s.append(digit_str(n % 10));
        assert(s@ =~= spec_dec_digits(n as nat));
        s
    }
}

/// Render a signed count in decimal, with a leading '-' when negative.
pub fn i64_to_dec_string(n: i64) -> (s: String)
    ensures
        s@ == spec_dec_i64(n as int),
{
    if n >= 0 {
        u64_to_dec_string(n as u64)
    } else {
        let wide: i128 = -(n as i128);
        let magnitude: u64 = wide as u64;
        let mut s = "-".to_owned();
        proof {
            reveal_strlit("-");
        }
        assert("-"@ =~= seq!['-']);
        s.append(u64_to_dec_string(magnitude).as_str());
        assert(s@ =~= spec_dec_i64(n as int));
        s
    }
}

/// Render a count left-padded with '0' to at least two digits.
fn two_digit_string(n: u64) -> (s: String)
    ensures
        s@ == spec_two_digits(n as nat),
{
    if n < 10 {
        let mut s = "0".to_owned();
        proof {
            reveal_strlit("0");
        }
        assert("0"@ =~= seq!['0']);
        s.append(digit_str(n));
        assert(s@ =~= spec_two_digits(n as nat));
        s
    } else {
        u64_to_dec_string(n)
    }
}

/// Render a second count as `mm:ss` (minutes may take more than two
/// digits for long durations).
pub fn humanize_seconds_to_minutes_and_seconds(seconds: u64) -> (s: String)
    ensures
        s@ == spec_minutes_and_seconds(seconds as nat),
{
    let mut s = two_digit_string(seconds / 60);
    s.append(":");
    proof {
        reveal_strlit(":");
    }
    assert(":"@ =~= seq![':']);
    s.append(two_digit_string(seconds % 60).as_str());
    assert(s@ =~= spec_minutes_and_seconds(seconds as nat));
    s
}

} // verus!
