//! The wall clock, read through an outside crate.
//!
//! Every function whose result depends on the reading has a sibling that
//! takes the time as an argument and carries the precise contract.

use vstd::prelude::*;

verus! {

/// Relies on `chrono::Utc::now` and `DateTime::timestamp`: the current wall
/// clock as whole seconds since the Unix epoch. Nothing is promised of the
/// reading; callers state what holds of every value.
#[verifier::external_body]
pub(crate) fn now_seconds() -> i64 {
    chrono::Utc::now().timestamp()
}

} // verus!
