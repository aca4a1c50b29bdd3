use vstd::prelude::*;

use crate::severity::PALMessageType;
use crate::severity::severity_label;

verus! {

/// The one entry that a `log` call appends to the file: the fixed-format
/// timestamp, the severity label, the title and the message, newline-ended.
pub open spec fn log_line(
    ts: Seq<char>,
    t: PALMessageType,
    title: Seq<char>,
    msg: Seq<char>,
) -> Seq<char> {
    ts + " "@ + severity_label(t) + " "@ + title + ": "@ + msg + "\n"@
}

/// The console line for a call with a non-empty title: the bracketed display
/// timestamp, the styled title, then the message.
pub open spec fn titled_console_line(ts: Seq<char>, styled: Seq<char>, msg: Seq<char>) -> Seq<
    char,
> {
    "[ "@ + ts + " ] "@ + styled + " "@ + msg
}

/// The console line for a call with an empty title: the bracketed display
/// timestamp, then the message, with no title segment.
pub open spec fn untitled_console_line(ts: Seq<char>, msg: Seq<char>) -> Seq<char> {
    "[ "@ + ts + " ] "@ + msg
}

/// The name that rotation gives the current file: the fixed-format timestamp,
/// a dot, then the original path.
pub open spec fn rotated_name(ts: Seq<char>, path: Seq<char>) -> Seq<char> {
    ts + "."@ + path
}

/// True of text that holds no newline character.
pub open spec fn has_no_newline(s: Seq<char>) -> bool {
    forall|i: int| 0 <= i < s.len() ==> s[i] != '\n'
}

/// Every severity label is non-empty and holds no newline.
pub proof fn lemma_severity_label_plain(t: PALMessageType)
    ensures
        severity_label(t).len() > 0,
        has_no_newline(severity_label(t)),
{
    reveal_strlit("SUCCESS");
    reveal_strlit("ERROR");
    reveal_strlit("WARN");
    reveal_strlit("INFO");
    reveal_strlit("DEBUG");
    reveal_strlit("TRACE");
}

/// Law: one `log` call appends exactly one line. When neither the timestamp
/// nor the title nor the message holds a newline, the file entry ends with a
/// newline and holds no other.
pub proof fn lemma_log_line_is_single_line(
    ts: Seq<char>,
    t: PALMessageType,
    title: Seq<char>,
    msg: Seq<char>,
)
    requires
        has_no_newline(ts),
        has_no_newline(title),
        has_no_newline(msg),
    ensures
        log_line(ts, t, title, msg).len() == ts.len() + severity_label(t).len() + title.len()
            + msg.len() + 5,
        log_line(ts, t, title, msg).last() == '\n',
        forall|i: int|
            0 <= i < log_line(ts, t, title, msg).len() - 1 ==> log_line(ts, t, title, msg)[i]
                != '\n',
{
    reveal_strlit(" ");
    reveal_strlit(": ");
    reveal_strlit("\n");
    lemma_severity_label_plain(t);
    let l = log_line(ts, t, title, msg);
    assert forall|i: int| 0 <= i < l.len() - 1 implies l[i] != '\n' by {
        let label = severity_label(t);
        if i < ts.len() {
            assert(l[i] == ts[i]);
        } else if i < ts.len() + 1 {
            assert(l[i] == ' ');
        } else if i < ts.len() + 1 + label.len() {
            assert(l[i] == label[i - ts.len() - 1]);
        } else if i < ts.len() + 1 + label.len() + 1 {
            assert(l[i] == ' ');
        } else if i < ts.len() + 1 + label.len() + 1 + title.len() {
            assert(l[i] == title[i - ts.len() - 1 - label.len() - 1]);
        } else if i < ts.len() + 1 + label.len() + 1 + title.len() + 2 {
            assert(l[i] == ": "@[i - ts.len() - 1 - label.len() - 1 - title.len()]);
        } else {
            assert(l[i] == msg[i - ts.len() - 1 - label.len() - 1 - title.len() - 2]);
        }
    }
}

/// Build the file entry for one `log` call.
pub fn format_log_line(ts: &str, t: &PALMessageType, title: &str, msg: &str) -> (r: String)
    ensures
        r@ == log_line(ts@, *t, title@, msg@),
{
    let mut r = ts.to_owned();
    r.append(" ");
    r.append(t.as_str());
    r.append(" ");
    r.append(title);
    r.append(": ");
    r.append(msg);
    r.append("\n");
    r
}

/// Build the console line for a non-empty title, already styled.
pub fn format_titled_console_line(ts: &str, styled: &str, msg: &str) -> (r: String)
    ensures
        r@ == titled_console_line(ts@, styled@, msg@),
{
    let mut r = "[ ".to_owned();
    r.append(ts);
    r.append(" ] ");
    r.append(styled);
    r.append(" ");
    r.append(msg);
    r
}

/// Build the console line for an empty title.
pub fn format_untitled_console_line(ts: &str, msg: &str) -> (r: String)
    ensures
        r@ == untitled_console_line(ts@, msg@),
{
    let mut r = "[ ".to_owned();
    r.append(ts);
    r.append(" ] ");
    r.append(msg);
    r
}

/// Build the name that rotation gives the current file.
pub fn format_rotated_name(ts: &str, path: &str) -> (r: String)
    ensures
        r@ == rotated_name(ts@, path@),
{
    let mut r = ts.to_owned();
    r.append(".");
    r.append(path);
    r
}

} // verus!
