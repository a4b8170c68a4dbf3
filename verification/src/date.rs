//! Calendar dates as day numbers.
//!
//! A stay is written as two dates, each as `year/month/day`. The rules only
//! ever compare two dates and count the days between them, so a date is held
//! as the number of its day: day 1 is January 1 of year 1, and each later day
//! is one more. An earlier date has a smaller number, and the nights between
//! two dates are the difference of their numbers.

use vstd::prelude::*;

verus! {

/// The day number of the date written in `text` as `year/month/day`, or `None`
/// where `text` is no such date.
pub uninterp spec fn day_number(text: Seq<char>) -> Option<i32>;

/// Reads a date written as `year/month/day`.
///
/// Trusted: calls `chrono::NaiveDate::parse_from_str` with the format
/// `%Y/%m/%d`, and on success `chrono::Datelike::num_days_from_ce` on the date
/// it returned. The contract only claims that the outcome is a function of the
/// text, which it names `day_number`.
#[verifier::external_body]
fn parse_day(text: &str) -> (day: Option<i32>)
    ensures
        day == day_number(text@),
{
    match chrono::NaiveDate::parse_from_str(text, "%Y/%m/%d") {
        Ok(date) => Some(chrono::Datelike::num_days_from_ce(&date)),
        Err(_) => None,
    }
}

/// The two dates of a stay, as day numbers.
#[derive(Clone, Copy, Debug, PartialEq, Eq, Structural)]
pub struct Period {
    /// Day of arrival.
    pub check_in: i32,
    /// Day of departure.
    pub check_out: i32,
}

impl Period {
    /// The nights of the stay: the days from arrival to departure.
    pub open spec fn nights(self) -> int {
        self.check_out - self.check_in
    }

    /// Whether the stay leaves before it arrives.
    pub open spec fn inverted(self) -> bool {
        self.check_out < self.check_in
    }

    /// Whether this stay and `other` cannot both be booked: neither ends
    /// strictly before the other begins. Two stays that share the day on which
    /// one ends and the other begins collide.
    pub open spec fn collides(self, other: Period) -> bool {
        !(self.check_out < other.check_in) && !(other.check_out < self.check_in)
    }
}

/// The stay that a written period stands for: its first two entries read as
/// dates. `None` where there are fewer than two entries or one of the two is no
/// date. Further entries are not read.
pub open spec fn period_of(renting_period: Seq<Seq<char>>) -> Option<Period> {
    if renting_period.len() < 2 {
        None
    } else {
        match (day_number(renting_period[0]), day_number(renting_period[1])) {
            (Some(check_in), Some(check_out)) => Some(Period { check_in, check_out }),
            _ => None,
        }
    }
}

/// Reads the two dates of a written period.
pub fn parse_period(renting_period: &Vec<String>) -> (period: Option<Period>)
    ensures
        period == period_of(renting_period.deep_view()),
{
    if renting_period.len() < 2 {
        return None;
    }
    let check_in = parse_day(renting_period[0].as_str());
    let check_out = parse_day(renting_period[1].as_str());
    match (check_in, check_out) {
        (Some(check_in), Some(check_out)) => Some(Period { check_in, check_out }),
        _ => None,
    }
}

} // verus!
