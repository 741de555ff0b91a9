//! The local time, by the `chrono` crate.

use vstd::prelude::*;

verus! {

/// `chrono::Local::now`, written by `DateTime::format` with the pattern. The
/// contract claims nothing of the text: it depends on the clock and on the
/// time zone of the machine. The pattern is the one that `chrono` is known to
/// take here; one that it cannot read would make the call panic. With this
/// pattern the call can panic only for the state of the machine: a clock set
/// before 1970, or time zone data that gives no local time.
#[verifier::external_body]
pub(crate) fn local_time_text(pattern: &str) -> (text: String)
    requires
        pattern@ == "%Y%m%d_%H%M%S"@,
{
    chrono::Local::now().format(pattern).to_string()
}

} // verus!
