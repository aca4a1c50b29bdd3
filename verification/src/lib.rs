//! A dual-sink logger: color-coded console printing plus size-rotated file
//! logging. The configuration type, its validation, the entry and console
//! line formats, and the rotation decision are all verified; the clock, the
//! console styling and the actual writes sit behind small trusted wrappers.

mod clock;
mod console;
mod format;
mod logger;
mod severity;
mod style;

pub use format::format_log_line;
pub use format::format_rotated_name;
pub use format::format_titled_console_line;
pub use format::format_untitled_console_line;
pub use format::has_no_newline;
pub use format::lemma_log_line_is_single_line;
pub use format::lemma_severity_label_plain;
pub use format::log_line;
pub use format::rotated_name;
pub use format::titled_console_line;
pub use format::untitled_console_line;
pub use logger::LogPlan;
pub use logger::PrintAndLog;
pub use logger::rotation_due;
pub use logger::valid_filename;
pub use logger::valid_filename_char;
pub use severity::PALMessageType;
pub use severity::severity_label;
pub use style::contains_verbatim;
pub use style::has_no_escape;
pub use style::styled_title;
