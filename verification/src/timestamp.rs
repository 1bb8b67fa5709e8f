//! A point in time together with the offset from UTC in which it was given.
//!
//! A timestamp is only carried through a record: nothing that is proved in
//! this crate reads one, so the two `chrono` types that it is made of are
//! made known to the verifier without their contents.

use vstd::prelude::*;

verus! {

/// `chrono::FixedOffset`: an offset from UTC, fixed in seconds. Declared
/// without its contents; no claim is made about it.
#[verifier::external_type_specification]
#[verifier::external_body]
pub struct ExFixedOffset(chrono::FixedOffset);

/// `chrono::NaiveDateTime`: a date and a time of day, without a time zone.
/// Declared without its contents; no claim is made about it.
#[verifier::external_type_specification]
#[verifier::external_body]
pub struct ExNaiveDateTime(chrono::NaiveDateTime);

/// A date and time with a fixed offset from UTC: the two parts of which a
/// `chrono::DateTime<chrono::FixedOffset>` consists, held side by side.
#[derive(Clone, Copy, Debug)]
pub struct Timestamp {
    /// The date and time, in UTC.
    pub utc: chrono::NaiveDateTime,
    /// The offset from UTC of the place where the time was taken.
    pub offset: chrono::FixedOffset,
}

} // verus!
