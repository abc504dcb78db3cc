//! The current date. Reading the clock is the one step of the pipeline whose
//! answer depends on when it runs, so nothing is promised of the value; the
//! functions that use a date take it as an argument and are verified for
//! every value.

use vstd::prelude::*;

verus! {

/// Relies on chrono's `Utc::now` and its `%Y-%m-%d` formatting: the current
/// UTC calendar date as `YYYY-MM-DD`. Another call may see another day, so
/// no two calls are related and nothing is claimed of the text.
#[verifier::external_body]
pub(crate) fn today_utc() -> String {
    chrono::Utc::now().format("%Y-%m-%d").to_string()
}

} // verus!
