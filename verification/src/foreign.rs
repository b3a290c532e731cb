//! The types of other crates that records carry, and the clock.

use vstd::prelude::*;

verus! {

/// `chrono::NaiveDate`, a calendar date. Records carry it; nothing here
/// looks inside.
#[verifier::external_type_specification]
#[verifier::external_body]
pub struct ExNaiveDate(chrono::NaiveDate);

/// `chrono::NaiveDateTime`, a date and time of day without a zone. Every
/// timestamp of this crate is one, read as UTC.
#[verifier::external_type_specification]
#[verifier::external_body]
pub struct ExNaiveDateTime(chrono::NaiveDateTime);

/// `uuid::Uuid`, the id of a school. Records carry it; nothing here looks
/// inside.
#[verifier::external_type_specification]
#[verifier::external_body]
pub struct ExUuid(uuid::Uuid);

/// The current time in UTC.
///
/// Calls `chrono::Utc::now` and drops the zone with
/// `DateTime::naive_utc`. The result is whatever the system clock says, so
/// nothing is promised of it. `Utc::now` panics where the system clock is
/// set before 1970.
#[verifier::external_body]
pub(crate) fn now() -> chrono::NaiveDateTime {
    chrono::Utc::now().naive_utc()
}

} // verus!
