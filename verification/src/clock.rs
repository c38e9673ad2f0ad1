//! The timestamp shown at the right edge of the status line.

use vstd::prelude::*;

verus! {

/// Relies on chrono::Local::now and its `%c` formatting: the current local
/// time rendered the way the status line shows it. The result depends on
/// the clock, the time zone and the locale, so nothing is promised of it;
/// the renderer takes the string as an argument and is verified for every
/// value of it.
#[verifier::external_body]
pub fn local_time_string() -> String {
    chrono::Local::now().format("%c").to_string()
}

} // verus!
