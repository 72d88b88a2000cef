//! Calendar dates as plain values. A post's creation time reaches this core
//! as a year, month and day; the two renderings the page needs (a human
//! label and a sortable key for the head metadata) are computed here.

use vstd::prelude::*;
use crate::numerals::{decimal_digits, to_decimal};

verus! {

/// A calendar date held as plain values. Immutable once fetched.
#[derive(Clone, Copy, Debug, PartialEq, Eq, Structural)]
pub struct Date {
    pub year: u32,
    /// 1 through 12.
    pub month: u8,
    /// 1 through 31.
    pub day: u8,
}

impl Date {
    /// A date this module will format: month and day within range.
    pub open spec fn wf(self) -> bool {
        1 <= self.month <= 12 && 1 <= self.day <= 31
    }
}

/// The three-letter English abbreviation of a month, 1-based.
pub open spec fn month_abbrev(month: nat) -> Seq<char> {
    if month == 1 {
        "Jan"@
    } else if month == 2 {
        "Feb"@
    } else if month == 3 {
        "Mar"@
    } else if month == 4 {
        "Apr"@
    } else if month == 5 {
        "May"@
    } else if month == 6 {
        "Jun"@
    } else if month == 7 {
        "Jul"@
    } else if month == 8 {
        "Aug"@
    } else if month == 9 {
        "Sep"@
    } else if month == 10 {
        "Oct"@
    } else if month == 11 {
        "Nov"@
    } else {
        "Dec"@
    }
}

/// A number rendered in decimal and padded on the left with `'0'` to at
/// least two digits.
pub open spec fn two_digits(n: nat) -> Seq<char> {
    if n < 10 {
        seq!['0'] + decimal_digits(n)
    } else {
        decimal_digits(n)
    }
}

/// The human-readable date label of the article header: abbreviated month,
/// day and year, as in `Mar 7, 2023`.
pub open spec fn date_label(d: Date) -> Seq<char> {
    month_abbrev(d.month as nat) + " "@ + decimal_digits(d.day as nat) + ", "@ + decimal_digits(
        d.year as nat,
    )
}

/// The date key published in the head metadata: year, month and day joined
/// by dashes, month and day zero-padded to two digits, as in `2023-03-07`.
pub open spec fn date_key(d: Date) -> Seq<char> {
    decimal_digits(d.year as nat) + "-"@ + two_digits(d.month as nat) + "-"@ + two_digits(
        d.day as nat,
    )
}

/// The three-letter abbreviation of a month, 1-based.
fn month_abbrev_str(month: u8) -> (s: &'static str)
    requires
        1 <= month <= 12,
    ensures
        s@ == month_abbrev(month as nat),
{
    proof {
        reveal_strlit("Jan");
        reveal_strlit("Feb");
        reveal_strlit("Mar");
        reveal_strlit("Apr");
        reveal_strlit("May");
        reveal_strlit("Jun");
        reveal_strlit("Jul");
        reveal_strlit("Aug");
        reveal_strlit("Sep");
        reveal_strlit("Oct");
        reveal_strlit("Nov");
        reveal_strlit("Dec");
    }
    match month {
        1 => "Jan",
        2 => "Feb",
        3 => "Mar",
        4 => "Apr",
        5 => "May",
        6 => "Jun",
        7 => "Jul",
        8 => "Aug",
        9 => "Sep",
        10 => "Oct",
        11 => "Nov",
        _ => "Dec",
    }
}

/// Renders a number in decimal, zero-padded on the left to two digits.
fn to_two_digits(n: usize) -> (s: String)
    ensures
        s@ == two_digits(n as nat),
{
    if n < 10 {
        proof {
            reveal_strlit("0");
        }
        let mut s = "0".to_owned();
        let digits = to_decimal(n);
        s.append(digits.as_str());
        proof {
            assert(s@ =~= two_digits(n as nat));
        }
        s
    } else {
        to_decimal(n)
    }
}

impl Date {
    /// The human-readable label shown in the article header.
    pub fn label(&self) -> (s: String)
        requires
            self.wf(),
        ensures
            s@ == date_label(*self),
    {
        proof {
            reveal_strlit(" ");
            reveal_strlit(", ");
        }
        let mut s = month_abbrev_str(self.month).to_owned();
        s.append(" ");
        let day = to_decimal(self.day as usize);
        s.append(day.as_str());
        s.append(", ");
        let year = to_decimal(self.year as usize);
        s.append(year.as_str());
        proof {
            assert(s@ =~= date_label(*self));
        }
        s
    }

    /// The sortable key published as the article's creation time.
    pub fn key(&self) -> (s: String)
        requires
            self.wf(),
        ensures
            s@ == date_key(*self),
    {
        proof {
            reveal_strlit("-");
        }
        let mut s = to_decimal(self.year as usize);
        s.append("-");
        let month = to_two_digits(self.month as usize);
        s.append(month.as_str());
        s.append("-");
        let day = to_two_digits(self.day as usize);
        s.append(day.as_str());
        proof {
            assert(s@ =~= date_key(*self));
        }
        s
    }
}

} // verus!
