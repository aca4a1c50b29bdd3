use vstd::prelude::*;

verus! {

/// The kind of a message. Each variant maps to a canonical uppercase label
/// used in file entries and to a console color and weight for the title.
#[derive(Clone, Copy, PartialEq, Eq, Structural, Debug)]
pub enum PALMessageType {
    Success,
    Error,
    Warn,
    Info,
    Debug,
    Trace,
}

/// The canonical uppercase label that stands for `t` in a file entry.
pub open spec fn severity_label(t: PALMessageType) -> Seq<char> {
    match t {
        PALMessageType::Success => "SUCCESS"@,
        PALMessageType::Error => "ERROR"@,
        PALMessageType::Warn => "WARN"@,
        PALMessageType::Info => "INFO"@,
        PALMessageType::Debug => "DEBUG"@,
        PALMessageType::Trace => "TRACE"@,
    }
}

impl PALMessageType {
    /// The canonical uppercase label of this message kind.
    pub fn as_str(&self) -> (r: &'static str)
        ensures
            r@ == severity_label(*self),
    {
        match self {
            PALMessageType::Success => "SUCCESS",
            PALMessageType::Error => "ERROR",
            PALMessageType::Warn => "WARN",
            PALMessageType::Info => "INFO",
            PALMessageType::Debug => "DEBUG",
            PALMessageType::Trace => "TRACE",
        }
    }
}

} // verus!
