//! Audit-trail levels. Writing log lines is left to the caller.

use vstd::prelude::*;

verus! {

/// How important an audit message is.
#[derive(Debug, Clone, Copy, PartialEq, Eq, Structural)]
pub enum LogLevel {
    Info,
    Warning,
    Error,
}

impl LogLevel {
    /// The tag that starts a log line of this level, such as `[INFO]`.
    pub fn tag(&self) -> (r: &'static str)
        ensures
            r@ == self.tag_spec(),
    {
        match self {
            LogLevel::Info => "[INFO]",
            LogLevel::Warning => "[WARNING]",
            LogLevel::Error => "[ERROR]",
        }
    }

    /// Whether a line of this level goes to the error stream.
    pub fn to_error_stream(&self) -> (r: bool)
        ensures
            r == !(*self == LogLevel::Info),
    {
        !matches!(self, LogLevel::Info)
    }
}

/// The text of a log line: the level's tag, a space and the message.
pub fn log_line(level: LogLevel, message: &str) -> (r: String)
    ensures
        r@ == level.tag_spec() + " "@ + message@,
{
    let mut out = String::from_str(level.tag());
    out.append(" ");
    out.append(message);
    out
}

impl LogLevel {
    /// The tag that starts a log line of this level.
    pub open spec fn tag_spec(&self) -> Seq<char> {
        match self {
            LogLevel::Info => "[INFO]"@,
            LogLevel::Warning => "[WARNING]"@,
            LogLevel::Error => "[ERROR]"@,
        }
    }
}

} // verus!
