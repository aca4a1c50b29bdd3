use vstd::prelude::*;

use std::fmt::Write;

use crate::format::has_no_newline;

verus! {

/// Relies on chrono's `Local::now` and `DateTime::format` with the fixed
/// millisecond-precision format `%Y-%m-%d %H:%M:%S%.3f`: rendering that
/// format never fails, and every outcome is a filled timestamp — year,
/// month, day, time and milliseconds from digits and separators only, so at
/// least 23 characters and none of them a newline.
#[verifier::external_body]
pub(crate) fn local_now_log_formatted() -> (r: String)
    ensures
        r@.len() >= 23,
        has_no_newline(r@),
{
    let now = chrono::Local::now();
    format!("{}", now.format("%Y-%m-%d %H:%M:%S%.3f"))
}

/// Relies on chrono's `Local::now` and `DateTime::format`: the current local
/// time rendered with the strftime string `fmt`. The result depends on the
/// clock and on the machine's time zone; a malformed `fmt` makes the
/// rendering fail and yields the empty string instead of an error.
#[verifier::external_body]
pub(crate) fn local_now_formatted(fmt: &str) -> String {
    let now = chrono::Local::now();
    let mut out = String::new();
    match write!(out, "{}", now.format(fmt)) {
        Ok(()) => out,
        Err(_) => String::new(),
    }
}

} // verus!
