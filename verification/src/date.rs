//! A civil calendar date as plain values, and the date-of-birth record with
//! its rule C2 (a birth date must lie strictly in the past).

use vstd::prelude::*;
use vstd::arithmetic::div_mod::lemma_fundamental_div_mod;
use crate::error::ValidationError;
use crate::lookups::today;
use crate::strings::StringMax70;
use crate::text::digit_char;
use crate::text::digit_value;
use crate::text::is_digit;
use crate::text::push_char;
use crate::validation::c2_message;
use crate::validation::outcome_matches;

verus! {

/// A calendar date, held as plain year, month and day numbers. The type
/// carries the shape bounds only; it does not tie the day to the true
/// length of its month.
#[derive(Clone, Copy, Debug, PartialEq, Eq, Structural)]
pub struct Date {
    /// Calendar year.
    pub year: i32,
    /// Month number, 1 through 12.
    pub month: u8,
    /// Day number, 1 through 31.
    pub day: u8,
}

impl Date {
    /// The shape bounds of a date.
    pub open spec fn wf(self) -> bool {
        1 <= self.month <= 12 && 1 <= self.day <= 31
    }

    /// Whether `self` lies strictly before `other` in calendar order.
    pub open spec fn before(self, other: Date) -> bool {
        self.year < other.year
            || (self.year == other.year && self.month < other.month)
            || (self.year == other.year && self.month == other.month
                && self.day < other.day)
    }

    /// Build a date, rejecting out-of-range month or day numbers.
    pub fn from_ymd(year: i32, month: u8, day: u8) -> (r: Option<Date>)
        ensures
            match r {
                Some(d) => d.wf() && d == (Date { year, month, day }),
                None => !(Date { year, month, day }).wf(),
            },
    {
        if 1 <= month && month <= 12 && 1 <= day && day <= 31 {
            Some(Date { year, month, day })
        } else {
            None
        }
    }

    /// Compare two dates in calendar order.
    pub fn is_before(&self, other: &Date) -> (r: bool)
        ensures
            r == self.before(*other),
    {
        self.year < other.year
            || (self.year == other.year && self.month < other.month)
            || (self.year == other.year && self.month == other.month
                && self.day < other.day)
    }

    /// The calendar-date text of a date in the common-era range: four year
    /// digits, two month digits and two day digits, separated by dashes.
    pub open spec fn text_spec(self) -> Seq<char> {
        let y = self.year as int;
        let m = self.month as int;
        let d = self.day as int;
        seq![
            digit_char(y / 1000),
            digit_char((y / 100) % 10),
            digit_char((y / 10) % 10),
            digit_char(y % 10),
            '-',
            digit_char(m / 10),
            digit_char(m % 10),
            '-',
            digit_char(d / 10),
            digit_char(d % 10),
        ]
    }

    /// Write the date as calendar-date text.
    pub fn to_text(&self) -> (r: String)
        requires
            self.wf(),
            0 <= self.year <= 9999,
        ensures
            r@ == self.text_spec(),
    {
        let y = self.year as u32;
        let m = self.month as u32;
        let d = self.day as u32;
        let mut out = String::new();
        push_char(&mut out, ((y / 1000 + 48) as u8) as char);
        push_char(&mut out, ((y / 100 % 10 + 48) as u8) as char);
        push_char(&mut out, ((y / 10 % 10 + 48) as u8) as char);
        push_char(&mut out, ((y % 10 + 48) as u8) as char);
        push_char(&mut out, '-');
        push_char(&mut out, ((m / 10 + 48) as u8) as char);
        push_char(&mut out, ((m % 10 + 48) as u8) as char);
        push_char(&mut out, '-');
        push_char(&mut out, ((d / 10 + 48) as u8) as char);
        push_char(&mut out, ((d % 10 + 48) as u8) as char);
        proof {
            assert(out@ =~= self.text_spec());
        }
        out
    }

    /// What calendar-date text parses to: ten characters, four year digits,
    /// two month digits and two day digits separated by dashes, with the
    /// month and day in range; anything else is rejected.
    pub open spec fn parse_spec(s: Seq<char>) -> Option<Date> {
        if s.len() == 10 && is_digit(s[0]) && is_digit(s[1]) && is_digit(s[2])
            && is_digit(s[3]) && s[4] == '-' && is_digit(s[5]) && is_digit(s[6])
            && s[7] == '-' && is_digit(s[8]) && is_digit(s[9]) {
            let y = digit_value(s[0]) * 1000 + digit_value(s[1]) * 100 + digit_value(s[2])
                * 10 + digit_value(s[3]);
            let m = digit_value(s[5]) * 10 + digit_value(s[6]);
            let d = digit_value(s[8]) * 10 + digit_value(s[9]);
            if 1 <= m <= 12 && 1 <= d <= 31 {
                Some(Date { year: y as i32, month: m as u8, day: d as u8 })
            } else {
                None
            }
        } else {
            None
        }
    }

    /// Read a date back from calendar-date text.
    pub fn parse_text(s: &str) -> (r: Option<Date>)
        ensures
            r == Self::parse_spec(s@),
    {
        if s.unicode_len() != 10 {
            return None;
        }
        let c0 = s.get_char(0);
        let c1 = s.get_char(1);
        let c2 = s.get_char(2);
        let c3 = s.get_char(3);
        let c5 = s.get_char(5);
        let c6 = s.get_char(6);
        let c8 = s.get_char(8);
        let c9 = s.get_char(9);
        if c0 < '0' || c0 > '9' || c1 < '0' || c1 > '9' || c2 < '0' || c2 > '9'
            || c3 < '0' || c3 > '9' || s.get_char(4) != '-' || c5 < '0' || c5 > '9'
            || c6 < '0' || c6 > '9' || s.get_char(7) != '-' || c8 < '0' || c8 > '9'
            || c9 < '0' || c9 > '9' {
            return None;
        }
        let y: u32 = (c0 as u32 - 48) * 1000 + (c1 as u32 - 48) * 100 + (c2 as u32 - 48)
            * 10 + (c3 as u32 - 48);
        let m: u32 = (c5 as u32 - 48) * 10 + (c6 as u32 - 48);
        let d: u32 = (c8 as u32 - 48) * 10 + (c9 as u32 - 48);
        if 1 <= m && m <= 12 && 1 <= d && d <= 31 {
            Some(Date { year: y as i32, month: m as u8, day: d as u8 })
        } else {
            None
        }
    }

    /// Round trip of the text form: parsing the text written for a date in
    /// the common-era range restores the date exactly.
    pub proof fn lemma_text_round_trip(d: Date)
        requires
            d.wf(),
            0 <= d.year <= 9999,
        ensures
            Date::parse_spec(d.text_spec()) == Some(d),
    {
        let y = d.year as int;
        let m = d.month as int;
        let day = d.day as int;
        lemma_fundamental_div_mod(y, 10);
        lemma_fundamental_div_mod(y / 10, 10);
        lemma_fundamental_div_mod(y / 100, 10);
        assert(y / 10 / 10 == y / 100 && y / 100 / 10 == y / 1000) by (nonlinear_arith)
            requires 0 <= y <= 9999;
        lemma_fundamental_div_mod(m, 10);
        lemma_fundamental_div_mod(day, 10);
    }
}

/// A natural person's date and place of birth.
#[derive(Clone, Debug, PartialEq, Eq)]
pub struct DateAndPlaceOfBirth {
    /// The day the person was born.
    pub date_of_birth: Date,
    /// Where the person was born.
    pub place_of_birth: StringMax70,
}

impl DateAndPlaceOfBirth {
    /// Rule C2 relative to a given day: the outcome is `Ok` exactly when the
    /// birth date lies strictly before that day.
    pub open spec fn validation_at(self, current: Date) -> Result<(), Seq<char>> {
        if self.date_of_birth.before(current) {
            Ok(())
        } else {
            Err(c2_message())
        }
    }

    /// Check rule C2 against a given day.
    pub fn validate_at(&self, current: &Date) -> (r: Result<(), ValidationError>)
        ensures
            outcome_matches(r, self.validation_at(*current)),
    {
        if self.date_of_birth.is_before(current) {
            Ok(())
        } else {
            Err(ValidationError::new("Date of birth must be in the past (IVMS101 C2)"))
        }
    }

    /// Check rule C2 against the current date. The outcome depends on the
    /// clock; whatever day the clock reports, the result is exactly the
    /// outcome of `validation_at` on that day.
    pub fn validate(&self) -> (r: Result<(), ValidationError>)
        ensures
            exists|current: Date|
                current.wf() && #[trigger] outcome_matches(r, self.validation_at(current)),
    {
        let current = today();
        let r = self.validate_at(&current);
        proof {
            assert(current.wf() && outcome_matches(r, self.validation_at(current)));
        }
        r
    }
}

} // verus!
