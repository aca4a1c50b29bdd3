use vstd::prelude::*;

use colored::Colorize;

use crate::severity::PALMessageType;

verus! {

/// True of text that holds no ANSI escape character.
pub open spec fn has_no_escape(s: Seq<char>) -> bool {
    forall|i: int| 0 <= i < s.len() ==> s[i] != '\u{1b}'
}

/// True when `inner` stands somewhere within `outer`, contiguously and in
/// order.
pub open spec fn contains_verbatim(inner: Seq<char>, outer: Seq<char>) -> bool {
    exists|i: int|
        0 <= i && i + inner.len() <= outer.len() && #[trigger] outer.subrange(i, i + inner.len())
            == inner
}

/// Relies on colored's `Colorize::green`, `ColoredString::bold` and the
/// `ColoredString` display: it writes the input verbatim, either alone or
/// between a style prefix and a reset suffix, depending on the environment.
#[verifier::external_body]
fn green_bold(s: &str) -> (r: String)
    ensures
        s@.len() > 0 ==> r@.len() > 0,
        has_no_escape(s@) ==> contains_verbatim(s@, r@),
{
    format!("{}", s.green().bold())
}

/// Relies on colored's `Colorize::white`, `ColoredString::bold` and the
/// `ColoredString` display: it writes the input verbatim, either alone or
/// between a style prefix and a reset suffix, depending on the environment.
#[verifier::external_body]
fn white_bold(s: &str) -> (r: String)
    ensures
        s@.len() > 0 ==> r@.len() > 0,
        has_no_escape(s@) ==> contains_verbatim(s@, r@),
{
    format!("{}", s.white().bold())
}

/// Relies on colored's `Colorize::blue`, `ColoredString::bold` and the
/// `ColoredString` display: it writes the input verbatim, either alone or
/// between a style prefix and a reset suffix, depending on the environment.
#[verifier::external_body]
fn blue_bold(s: &str) -> (r: String)
    ensures
        s@.len() > 0 ==> r@.len() > 0,
        has_no_escape(s@) ==> contains_verbatim(s@, r@),
{
    format!("{}", s.blue().bold())
}

/// Relies on colored's `Colorize::magenta`, `ColoredString::bold` and the
/// `ColoredString` display: it writes the input verbatim, either alone or
/// between a style prefix and a reset suffix, depending on the environment.
#[verifier::external_body]
fn magenta_bold(s: &str) -> (r: String)
    ensures
        s@.len() > 0 ==> r@.len() > 0,
        has_no_escape(s@) ==> contains_verbatim(s@, r@),
{
    format!("{}", s.magenta().bold())
}

/// Relies on colored's `Colorize::yellow`, `ColoredString::bold` and the
/// `ColoredString` display: it writes the input verbatim, either alone or
/// between a style prefix and a reset suffix, depending on the environment.
#[verifier::external_body]
fn yellow_bold(s: &str) -> (r: String)
    ensures
        s@.len() > 0 ==> r@.len() > 0,
        has_no_escape(s@) ==> contains_verbatim(s@, r@),
{
    format!("{}", s.yellow().bold())
}

/// Relies on colored's `Colorize::red`, `ColoredString::bold` and the
/// `ColoredString` display: it writes the input verbatim, either alone or
/// between a style prefix and a reset suffix, depending on the environment.
#[verifier::external_body]
fn red_bold(s: &str) -> (r: String)
    ensures
        s@.len() > 0 ==> r@.len() > 0,
        has_no_escape(s@) ==> contains_verbatim(s@, r@),
{
    format!("{}", s.red().bold())
}

/// The title rendered in the console color and weight that belongs to `t`:
/// green for success, white for info, blue for debug, magenta for trace,
/// yellow for warnings, red for errors, each bold. Whatever the environment
/// makes of the styling, a title without escape characters stands verbatim
/// within the result, and a non-empty title never styles away to nothing.
pub fn styled_title(title: &str, t: &PALMessageType) -> (r: String)
    ensures
        title@.len() > 0 ==> r@.len() > 0,
        has_no_escape(title@) ==> contains_verbatim(title@, r@),
{
    match t {
        PALMessageType::Success => green_bold(title),
        PALMessageType::Info => white_bold(title),
        PALMessageType::Debug => blue_bold(title),
        PALMessageType::Trace => magenta_bold(title),
        PALMessageType::Warn => yellow_bold(title),
        PALMessageType::Error => red_bold(title),
    }
}

} // verus!
