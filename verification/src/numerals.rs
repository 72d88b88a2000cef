//! Decimal rendering of counts, including the thousands grouping used for the
//! word-count label: digits are chunked in threes from the least-significant
//! end and joined by commas.

use vstd::prelude::*;

verus! {

/// The decimal digit character for a value below ten.
pub open spec fn digit_char(d: nat) -> char {
    if d == 0 {
        '0'
    } else if d == 1 {
        '1'
    } else if d == 2 {
        '2'
    } else if d == 3 {
        '3'
    } else if d == 4 {
        '4'
    } else if d == 5 {
        '5'
    } else if d == 6 {
        '6'
    } else if d == 7 {
        '7'
    } else if d == 8 {
        '8'
    } else {
        '9'
    }
}

/// The decimal digits of `n`, most significant first, with no leading zeros
/// (a single `'0'` for zero itself).
pub open spec fn decimal_digits(n: nat) -> Seq<char>
    decreases n,
{
    if n < 10 {
        seq![digit_char(n)]
    } else {
        decimal_digits(n / 10).push(digit_char(n % 10))
    }
}

/// `digits` with a comma inserted between each group of three, counted from
/// the right: the grouping applied to `decimal_digits(12345)` reads `12,345`.
pub open spec fn grouped(digits: Seq<char>) -> Seq<char>
    decreases digits.len(),
{
    if digits.len() <= 3 {
        digits
    } else {
        grouped(digits.subrange(0, digits.len() - 3)) + seq![','] + digits.subrange(
            digits.len() - 3,
            digits.len() as int,
        )
    }
}

/// The single-character string for a decimal digit value.
fn digit_str(d: usize) -> (s: &'static str)
    requires
        d < 10,
    ensures
        s@ == seq![digit_char(d as nat)],
{
    proof {
        reveal_strlit("0");
        reveal_strlit("1");
        reveal_strlit("2");
        reveal_strlit("3");
        reveal_strlit("4");
        reveal_strlit("5");
        reveal_strlit("6");
        reveal_strlit("7");
        reveal_strlit("8");
        reveal_strlit("9");
    }
    let s: &'static str = match d {
        0 => "0",
        1 => "1",
        2 => "2",
        3 => "3",
        4 => "4",
        5 => "5",
        6 => "6",
        7 => "7",
        8 => "8",
        _ => "9",
    };
    proof {
        assert(s@ =~= seq![digit_char(d as nat)]);
    }
    s
}

/// Renders `n` in decimal, most significant digit first, no leading zeros.
pub fn to_decimal(n: usize) -> (s: String)
    ensures
        s@ == decimal_digits(n as nat),
    decreases n,
{
    if n < 10 {
        digit_str(n).to_owned()
    } else {
        let mut s = to_decimal(n / 10);
        s.append(digit_str(n % 10));
        proof {
            assert(s@ =~= decimal_digits(n as nat));
        }
        s
    }
}

/// Inserts the thousands separators into a digit string.
fn group_digits(digits: &str) -> (s: String)
    ensures
        s@ == grouped(digits@),
    decreases digits@.len(),
{
    let len = digits.unicode_len();
    if len <= 3 {
        digits.to_owned()
    } else {
        let head = digits.substring_char(0, len - 3);
        let tail = digits.substring_char(len - 3, len);
        let mut s = group_digits(head);
        proof {
            reveal_strlit(",");
        }
        s.append(",");
        s.append(tail);
        proof {
            assert(s@ =~= grouped(digits@));
        }
        s
    }
}

/// Formats a count for display: decimal digits grouped in chunks of three
/// from the least-significant end, joined by commas.
pub fn format_count(n: usize) -> (s: String)
    ensures
        s@ == grouped(decimal_digits(n as nat)),
{
    let digits = to_decimal(n);
    group_digits(digits.as_str())
}

} // verus!
