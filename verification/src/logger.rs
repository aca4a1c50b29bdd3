use vstd::prelude::*;

use crate::clock;
use crate::console;
use crate::format::format_log_line;
use crate::format::format_rotated_name;
use crate::format::format_titled_console_line;
use crate::format::format_untitled_console_line;
use crate::format::has_no_newline;
use crate::format::log_line;
use crate::format::rotated_name;
use crate::severity::PALMessageType;
use crate::style::styled_title;

verus! {

/// True of a character that may appear in a log file name: ASCII letters,
/// digits, `.`, `_` and `-`.
pub open spec fn valid_filename_char(c: char) -> bool {
    ||| 'a' as u32 <= c as u32 && c as u32 <= 'z' as u32
    ||| 'A' as u32 <= c as u32 && c as u32 <= 'Z' as u32
    ||| '0' as u32 <= c as u32 && c as u32 <= '9' as u32
    ||| c == '.'
    ||| c == '_'
    ||| c == '-'
}

/// True of an acceptable log file name: non-empty, every character allowed.
pub open spec fn valid_filename(s: Seq<char>) -> bool {
    s.len() > 0 && (forall|i: int| 0 <= i < s.len() ==> valid_filename_char(s[i]))
}

/// True when a file of `size` bytes (`None`: the size could not be read) must
/// be rotated before appending, given the threshold `max`.
pub open spec fn rotation_due(size: Option<u64>, max: u32) -> bool {
    match size {
        Option::Some(n) => n > max as u64,
        Option::None => false,
    }
}

/// What one `log` call must do to the log file.
pub enum LogPlan {
    /// File logging is off: touch nothing.
    Skip,
    /// Append `line` to the current file.
    Append { line: String },
    /// Rename the current file to `rotated_path`, then append `line` to a
    /// fresh file at the original path.
    RotateThenAppend { rotated_path: String, line: String },
}

/// The logger's configuration: whether file logging is on, the validated
/// target file name, the positive rotation threshold in bytes, and the
/// non-empty console timestamp format.
pub struct PrintAndLog {
    pub log_to_file: bool,
    pub log_file_path: String,
    pub max_file_size: u32,
    pub timestamp_format: String,
}

impl PrintAndLog {
    /// The configuration is validated: the file name is acceptable, the
    /// threshold is positive and the console timestamp format is non-empty.
    pub open spec fn wf(&self) -> bool {
        &&& valid_filename(self.log_file_path@)
        &&& self.max_file_size > 0
        &&& self.timestamp_format@.len() > 0
    }

    /// A logger with the default settings: file logging on, path
    /// `application.log`, a ten-megabyte threshold and a day-month-year
    /// console timestamp format.
    pub fn new() -> (r: Self)
        ensures
            r.log_to_file == true,
            r.log_file_path@ == "application.log"@,
            r.max_file_size == 10000000u32,
            r.timestamp_format@ == "%d.%m.%Y %H:%M:%S"@,
            r.wf(),
    {
        proof {
            reveal_strlit("application.log");
            reveal_strlit("%d.%m.%Y %H:%M:%S");
        }
        PrintAndLog {
            log_to_file: true,
            log_file_path: "application.log".to_owned(),
            max_file_size: 10000000,
            timestamp_format: "%d.%m.%Y %H:%M:%S".to_owned(),
        }
    }

    /// Turn file logging on or off; the rest of the configuration is kept.
    pub fn set_log_to_file(&mut self, setting: bool)
        ensures
            final(self).log_to_file == setting,
            final(self).log_file_path@ == old(self).log_file_path@,
            final(self).max_file_size == old(self).max_file_size,
            final(self).timestamp_format@ == old(self).timestamp_format@,
            old(self).wf() ==> final(self).wf(),
    {
        self.log_to_file = setting;
    }

    /// Whether file logging is on.
    pub fn get_log_to_file(&self) -> (r: bool)
        ensures
            r == self.log_to_file,
    {
        self.log_to_file
    }

    /// Accept `file_name` as the log file name exactly when it is non-empty
    /// and holds only ASCII letters, digits, `.`, `_` and `-`; otherwise fail
    /// and keep the whole configuration unchanged.
    pub fn set_log_file_name(&mut self, file_name: &str) -> (r: Result<(), &'static str>)
        ensures
            r is Ok <==> valid_filename(file_name@),
            valid_filename(file_name@) ==> {
                &&& final(self).log_file_path@ == file_name@
                &&& final(self).log_to_file == old(self).log_to_file
                &&& final(self).max_file_size == old(self).max_file_size
                &&& final(self).timestamp_format@ == old(self).timestamp_format@
            },
            !valid_filename(file_name@) ==> *final(self) == *old(self),
            r matches Err(m) ==> m@ == "File name is not valid."@,
            old(self).wf() ==> final(self).wf(),
    {
        if is_valid_filename_str(file_name) {
            self.log_file_path = file_name.to_owned();
            Ok(())
        } else {
            Err("File name is not valid.")
        }
    }

    /// The current log file name.
    pub fn get_log_file_name(&self) -> (r: String)
        ensures
            r@ == self.log_file_path@,
    {
        self.log_file_path.clone()
    }

    /// Accept `new_file_size_in_bytes` as the rotation threshold exactly when
    /// it is positive; otherwise fail and keep the whole configuration
    /// unchanged.
    pub fn set_max_file_size(&mut self, new_file_size_in_bytes: u32) -> (r: Result<
        (),
        &'static str,
    >)
        ensures
            r is Ok <==> new_file_size_in_bytes > 0,
            new_file_size_in_bytes > 0 ==> {
                &&& final(self).max_file_size == new_file_size_in_bytes
                &&& final(self).log_to_file == old(self).log_to_file
                &&& final(self).log_file_path@ == old(self).log_file_path@
                &&& final(self).timestamp_format@ == old(self).timestamp_format@
            },
            new_file_size_in_bytes == 0 ==> *final(self) == *old(self),
            r matches Err(m) ==> m@ == "File size cannot be 0."@,
            old(self).wf() ==> final(self).wf(),
    {
        if new_file_size_in_bytes > 0 {
            self.max_file_size = new_file_size_in_bytes;
            Ok(())
        } else {
            Err("File size cannot be 0.")
        }
    }

    /// The current rotation threshold in bytes.
    pub fn get_max_file_size(&self) -> (r: u32)
        ensures
            r == self.max_file_size,
    {
        self.max_file_size
    }

    /// Accept `format` as the console timestamp format exactly when it is
    /// non-empty; otherwise fail and keep the whole configuration unchanged.
    /// No further validation is done: a malformed format surfaces as
    /// malformed console output, not as an error.
    pub fn set_timestamp_format_for_print(&mut self, format: &str) -> (r: Result<
        (),
        &'static str,
    >)
        ensures
            r is Ok <==> format@.len() > 0,
            format@.len() > 0 ==> {
                &&& final(self).timestamp_format@ == format@
                &&& final(self).log_to_file == old(self).log_to_file
                &&& final(self).log_file_path@ == old(self).log_file_path@
                &&& final(self).max_file_size == old(self).max_file_size
            },
            format@.len() == 0 ==> *final(self) == *old(self),
            r matches Err(m) ==> m@ == "Invalid timestamp."@,
            old(self).wf() ==> final(self).wf(),
    {
        if format.is_empty() {
            Err("Invalid timestamp.")
        } else {
            self.timestamp_format = format.to_owned();
            Ok(())
        }
    }

    /// The current console timestamp format.
    pub fn get_timestamp_format_for_print(&self) -> (r: String)
        ensures
            r@ == self.timestamp_format@,
    {
        self.timestamp_format.clone()
    }

    /// Whether `file_name` may serve as the log file name.
    pub fn is_valid_filename(&self, file_name: &String) -> (r: bool)
        ensures
            r == valid_filename(file_name@),
    {
        is_valid_filename_str(file_name.as_str())
    }

    /// The current local time rendered with the configured console timestamp
    /// format; it changes with the clock, so nothing further is promised.
    pub fn get_timestamp(&self) -> String {
        clock::local_now_formatted(self.timestamp_format.as_str())
    }

    /// The current local time in the fixed millisecond-precision, sortable
    /// format used for file entries and rotated file names. The value moves
    /// with the clock, but it is always a filled timestamp: at least 23
    /// characters and never a newline among them.
    pub fn get_log_timestamp(&self) -> (r: String)
        ensures
            r@.len() >= 23,
            has_no_newline(r@),
    {
        clock::local_now_log_formatted()
    }

    /// Print one line to the console: the bracketed display timestamp, the
    /// title styled for `message_type` (left out entirely, unstyled, when the
    /// title is empty), then the message. Console output is best-effort and
    /// never fails.
    pub fn print(&self, message_title: &str, message: &str, message_type: &PALMessageType) {
        let ts = self.get_timestamp();
        if message_title.is_empty() {
            let line = format_untitled_console_line(ts.as_str(), message);
            console::write_line(line.as_str());
        } else {
            let styled = styled_title(message_title, message_type);
            let line = format_titled_console_line(ts.as_str(), styled.as_str(), message);
            console::write_line(line.as_str());
        }
    }

    /// Decide what one `log` call must do to the file, given the fixed-format
    /// timestamp `ts` and the current file size (`None` when it could not be
    /// read): skip when file logging is off, rotate first exactly when the
    /// size exceeds the threshold, and append the formatted entry.
    pub fn plan_log(
        &self,
        ts: &str,
        file_size: Option<u64>,
        message_title: &str,
        message: &str,
        message_type: &PALMessageType,
    ) -> (r: LogPlan)
        ensures
            !self.log_to_file ==> r is Skip,
            self.log_to_file && !rotation_due(file_size, self.max_file_size) ==> (r matches
                LogPlan::Append { line } && line@ == log_line(
                ts@,
                *message_type,
                message_title@,
                message@,
            )),
            self.log_to_file && rotation_due(file_size, self.max_file_size) ==> (r matches
                LogPlan::RotateThenAppend { rotated_path, line } && rotated_path@ == rotated_name(
                ts@,
                self.log_file_path@,
            ) && line@ == log_line(ts@, *message_type, message_title@, message@)),
    {
        if !self.log_to_file {
            return LogPlan::Skip;
        }
        let line = format_log_line(ts, message_type, message_title, message);
        let rotate = match file_size {
            Option::Some(n) => n > self.max_file_size as u64,
            Option::None => false,
        };
        if rotate {
            let rotated_path = format_rotated_name(ts, self.log_file_path.as_str());
            LogPlan::RotateThenAppend { rotated_path, line }
        } else {
            LogPlan::Append { line }
        }
    }
}

/// Whether `file_name` may serve as the log file name: non-empty, only ASCII
/// letters, digits, `.`, `_` and `-`.
fn is_valid_filename_str(file_name: &str) -> (r: bool)
    ensures
        r == valid_filename(file_name@),
{
    let len = file_name.unicode_len();
    if len == 0 {
        return false;
    }
    let mut i: usize = 0;
    while i < len
        invariant
            len == file_name@.len(),
            i <= len,
            forall|j: int| 0 <= j < i ==> valid_filename_char(file_name@[j]),
        decreases len - i,
    {
        let c = file_name.get_char(i);
        let u = c as u32;
        let ok = ('a' as u32 <= u && u <= 'z' as u32) || ('A' as u32 <= u && u <= 'Z' as u32) || (
        '0' as u32 <= u && u <= '9' as u32) || c == '.' || c == '_' || c == '-';
        if !ok {
            return false;
        }
        i += 1;
    }
    true
}

} // verus!
