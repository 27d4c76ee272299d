//! A logger that formats coloured, time-stamped lines.
//!
//! The logger composes the line and says which stream it belongs to;
//! whoever calls it writes it there.

use chrono::Utc;
use core::fmt::Debug;
use vstd::prelude::*;
use vstd::string::StringExecFns;

verus! {

/// How severe a message is.
#[derive(Clone, Copy, Debug, PartialEq, Eq, Structural)]
pub enum LogLevel {
    Info,
    Warning,
    Error,
    Debug,
}

/// Where a line is written.
#[derive(Clone, Copy, Debug, PartialEq, Eq, Structural)]
pub enum LogStream {
    Stdout,
    Stderr,
}

/// A composed line and the stream it belongs to.
#[derive(Debug, PartialEq, Eq)]
pub struct LogLine {
    pub text: String,
    pub stream: LogStream,
}

/// The escape sequence that ends a colour.
pub open spec fn reset() -> Seq<char> {
    "\x1b[0m"@
}

/// The name of a logger that was given none.
pub open spec fn default_name() -> Seq<char> {
    "sst-cam"@
}

impl LogLevel {
    /// The word that names the level in a line.
    pub open spec fn word(self) -> Seq<char> {
        match self {
            LogLevel::Info => "INFO"@,
            LogLevel::Warning => "WARNING"@,
            LogLevel::Error => "ERROR"@,
            LogLevel::Debug => "DEBUG"@,
        }
    }

    pub fn as_str(&self) -> (word: &'static str)
        ensures
            word@ == self.word(),
    {
        match self {
            LogLevel::Info => "INFO",
            LogLevel::Warning => "WARNING",
            LogLevel::Error => "ERROR",
            LogLevel::Debug => "DEBUG",
        }
    }

    /// The escape sequence of the level's colour: green for info, yellow
    /// for warnings, red for errors, blue for debugging.
    pub open spec fn paint(self) -> Seq<char> {
        match self {
            LogLevel::Info => "\x1b[92m"@,
            LogLevel::Warning => "\x1b[93m"@,
            LogLevel::Error => "\x1b[91m"@,
            LogLevel::Debug => "\x1b[94m"@,
        }
    }

    pub fn as_color(&self) -> (paint: &'static str)
        ensures
            paint@ == self.paint(),
    {
        match self {
            LogLevel::Info => "\x1b[92m",
            LogLevel::Warning => "\x1b[93m",
            LogLevel::Error => "\x1b[91m",
            LogLevel::Debug => "\x1b[94m",
        }
    }

    /// Errors go to the error stream, everything else to the output stream.
    pub open spec fn target(self) -> LogStream {
        if self == LogLevel::Error {
            LogStream::Stderr
        } else {
            LogStream::Stdout
        }
    }

    pub fn stream(&self) -> (stream: LogStream)
        ensures
            stream == self.target(),
    {
        match self {
            LogLevel::Error => LogStream::Stderr,
            _ => LogStream::Stdout,
        }
    }
}

/// The line for a message: the time stamp, then in the level's colour the
/// logger's name in square brackets and the level, then a colon, the
/// message and the extras.
pub open spec fn line(
    stamp: Seq<char>,
    level: LogLevel,
    name: Seq<char>,
    msg: Seq<char>,
    extras: Seq<char>,
) -> Seq<char> {
    stamp + " "@ + level.paint() + "["@ + name + "] "@ + level.word() + reset() + ": "@ + msg
        + extras
}

/// What follows the message: nothing where there are no arguments,
/// otherwise a space and the arguments as they were formatted.
pub open spec fn extras(any: bool, shown: Seq<char>) -> Seq<char> {
    if any {
        " "@ + shown
    } else {
        Seq::empty()
    }
}

/// Whether `text` is the line for a message, whatever the time stamp and
/// whatever the arguments were formatted as.
pub open spec fn logged(
    text: Seq<char>,
    level: LogLevel,
    name: Seq<char>,
    msg: Seq<char>,
    any: bool,
) -> bool {
    exists|stamp: Seq<char>, shown: Seq<char>|
        text == #[trigger] line(stamp, level, name, msg, extras(any, shown))
}

/// Whether there is at least one argument.
pub open spec fn any_of(args: Option<&[&dyn Debug]>) -> bool {
    args matches Some(xs) && xs@.len() > 0
}

/// The current time in UTC as `chrono` formats it with
/// `%Y-%m-%d %H:%M:%S`, by `chrono::Utc::now`, `DateTime::format` and
/// `to_string`.  Nothing is claimed of the text: it depends on the clock.
/// `chrono` gives up where the clock stands before 1970 or beyond the years
/// it can represent.
#[verifier::external_body]
fn timestamp() -> (stamp: String) {
    Utc::now().format("%Y-%m-%d %H:%M:%S").to_string()
}

/// The arguments as std's `{:?}` formats the slice.  Nothing is claimed
/// of the text: it depends on how each argument implements `Debug`.
#[verifier::external_body]
fn debug_text(args: &[&dyn Debug]) -> (text: String) {
    format!("{:?}", args)
}

pub struct Logger {
    name: Option<&'static str>,
}

impl Logger {
    /// The name that the logger puts into its lines.
    pub closed spec fn label(&self) -> Seq<char> {
        match self.name {
            Some(n) => n@,
            None => default_name(),
        }
    }

    pub fn new(name: Option<&'static str>) -> (logger: Self)
        ensures
            logger.label() == match name {
                Some(n) => n@,
                None => default_name(),
            },
    {
        Self { name }
    }

    /// Composes the line for one message from the time stamp and the
    /// formatted extras.
    pub fn compose(&self, level: LogLevel, stamp: &str, msg: &str, extras: &str) -> (out: LogLine)
        ensures
            out.text@ == line(stamp@, level, self.label(), msg@, extras@),
            out.stream == level.target(),
    {
        let name = match self.name {
            Some(n) => n,
            None => "sst-cam",
        };
        let mut text = String::from_str(stamp);
        text.append(" ");
        text.append(level.as_color());
        text.append("[");
        text.append(name);
        text.append("] ");
        text.append(level.as_str());
        text.append("\x1b[0m");
        text.append(": ");
        text.append(msg);
        text.append(extras);
        LogLine { text, stream: level.stream() }
    }

    /// Composes the line for one message, stamped with the current time.
    /// The extras are empty where there are no arguments; otherwise they
    /// are a space and the arguments as `{:?}` formats them.
    pub fn log(&self, level: LogLevel, msg: &str, args: Option<&[&dyn Debug]>) -> (out: LogLine)
        ensures
            out.stream == level.target(),
            logged(out.text@, level, self.label(), msg@, any_of(args)),
    {
        let stamp = timestamp();
        let mut tail = String::new();
        let ghost mut shown: Seq<char> = Seq::empty();
        match args {
            Some(xs) => {
                if xs.len() > 0 {
                    let text = debug_text(xs);
                    tail.append(" ");
                    tail.append(text.as_str());
                    proof {
                        shown = text@;
                    }
                }
            },
            None => {},
        }
        let out = self.compose(level, stamp.as_str(), msg, tail.as_str());
        proof {
            assert(tail@ =~= extras(any_of(args), shown));
            assert(out.text@ == line(stamp@, level, self.label(), msg@, extras(any_of(args), shown)));
        }
        out
    }

    pub fn info(&self, msg: &str, args: Option<&[&dyn Debug]>) -> (out: LogLine)
        ensures
            out.stream == LogStream::Stdout,
            logged(out.text@, LogLevel::Info, self.label(), msg@, any_of(args)),
    {
        self.log(LogLevel::Info, msg, args)
    }

    pub fn warning(&self, msg: &str, args: Option<&[&dyn Debug]>) -> (out: LogLine)
        ensures
            out.stream == LogStream::Stdout,
            logged(out.text@, LogLevel::Warning, self.label(), msg@, any_of(args)),
    {
        self.log(LogLevel::Warning, msg, args)
    }

    pub fn error(&self, msg: &str, args: Option<&[&dyn Debug]>) -> (out: LogLine)
        ensures
            out.stream == LogStream::Stderr,
            logged(out.text@, LogLevel::Error, self.label(), msg@, any_of(args)),
    {
        self.log(LogLevel::Error, msg, args)
    }

    pub fn debug(&self, msg: &str, args: Option<&[&dyn Debug]>) -> (out: LogLine)
        ensures
            out.stream == LogStream::Stdout,
            logged(out.text@, LogLevel::Debug, self.label(), msg@, any_of(args)),
    {
        self.log(LogLevel::Debug, msg, args)
    }
}

} // verus!
