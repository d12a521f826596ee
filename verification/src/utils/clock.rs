//! The local time, as text.
//!
//! What these return depends on the moment of the call and on the time zone
//! of the machine, so nothing is claimed of it. (chrono reads the clock of
//! the system, and panics if that is set to a time before 1970.)

use vstd::prelude::*;

verus! {

/// `chrono::Local::now()`, printed as chrono prints a date and time: the
/// local date, the time of day and the offset from UTC.
#[verifier::external_body]
pub(crate) fn local_now() -> String {
    format!("{}", chrono::Local::now())
}

/// `chrono::Local::now().to_rfc3339()`: the local date and time in the
/// form of RFC 3339.
#[verifier::external_body]
pub(crate) fn local_now_rfc3339() -> String {
    chrono::Local::now().to_rfc3339()
}

/// `chrono::Local::now().format("%T%.3f")`, printed: the local time of day
/// with milliseconds.
#[verifier::external_body]
pub(crate) fn local_time_of_day() -> String {
    format!("{}", chrono::Local::now().format("%T%.3f"))
}

} // verus!
