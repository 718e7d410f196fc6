//! The external collaborators the validation engine consumes: the ISO 3166-1
//! country-code table, the Legal Entity Identifier validator, and the clock.
//! Each is reached through one trusted wrapper whose contract states what the
//! collaborator's source shows.

use vstd::prelude::*;
use crate::date::Date;
use chrono::Datelike;

verus! {

/// Whether a two-letter code is in the ISO 3166-1 alpha-2 table. The table
/// is fixed, so the answer is a function of the code alone.
pub uninterp spec fn is_known_country_code(code: Seq<char>) -> bool;

/// Relies on `iso3166_1::alpha2`: a pure lookup that returns an entry
/// exactly when the given code appears in the crate's ISO 3166-1 table.
#[verifier::external_body]
pub(crate) fn known_country_code(code: &str) -> (r: bool)
    ensures
        r == is_known_country_code(code@),
{
    match iso3166_1::alpha2(code) {
        Some(_) => true,
        None => false,
    }
}

/// Whether a text is a well-formed Legal Entity Identifier: 20 uppercase
/// alphanumeric characters whose check digits match the MOD 97-10 checksum
/// of the payload. A function of the text alone.
pub uninterp spec fn is_valid_lei(text: Seq<char>) -> bool;

/// Relies on `lei::validate`: format and checksum validation of an LEI,
/// computed from the text alone; it accepts only strings of exactly 20
/// ASCII alphanumeric characters.
#[verifier::external_body]
pub(crate) fn valid_lei(text: &str) -> (r: bool)
    ensures
        r == is_valid_lei(text@),
        r ==> text@.len() == 20,
{
    lei::validate(text)
}

/// Relies on chrono's `Utc::now` and `NaiveDate`: the current civil date in
/// UTC. chrono documents the month as 1 through 12 and the day as 1 through
/// 31; the result depends on the clock, so nothing more is promised.
#[verifier::external_body]
pub(crate) fn today() -> (r: Date)
    ensures
        r.wf(),
{
    let now = chrono::Utc::now().date_naive();
    Date { year: now.year(), month: now.month() as u8, day: now.day() as u8 }
}

} // verus!
