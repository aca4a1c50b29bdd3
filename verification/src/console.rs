use vstd::prelude::*;

use std::io::Write;

verus! {

/// Relies on std's `io::stdout`: writes `line` and a newline to the console.
/// A failed write is ignored: console output is best-effort and never fails
/// the caller.
#[verifier::external_body]
pub(crate) fn write_line(line: &str) {
    let _ = writeln!(std::io::stdout(), "{}", line);
}

} // verus!
