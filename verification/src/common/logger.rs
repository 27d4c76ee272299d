//! A logger that formats coloured lines without a time stamp.
//!
//! The logger composes the line; whoever calls it prints it.

use core::fmt::Display;
use vstd::prelude::*;
use vstd::string::to_string_from_display_ensures;
use vstd::string::StringExecFns;

verus! {

/// How severe a message is.
#[derive(Clone, Copy, Debug, PartialEq, Eq, Structural)]
pub enum LogLevel {
    Info,
    Warning,
    Error,
    Debug,
}

/// The escape sequence that ends a colour.
pub open spec fn reset() -> Seq<char> {
    "\x1b[0m"@
}

impl LogLevel {
    /// The word that names the level in a line.
    pub open spec fn word(self) -> Seq<char> {
        match self {
            LogLevel::Info => "INFO"@,
            LogLevel::Warning => "WARNING"@,
            LogLevel::Error => "ERROR"@,
            LogLevel::Debug => "DEBUG"@,
        }
    }

    pub fn as_str(&self) -> (word: &'static str)
        ensures
            word@ == self.word(),
    {
        match self {
            LogLevel::Info => "INFO",
            LogLevel::Warning => "WARNING",
            LogLevel::Error => "ERROR",
            LogLevel::Debug => "DEBUG",
        }
    }

    /// The escape sequence of the level's colour: green for info, yellow
    /// for warnings, red for errors, blue for debugging.
    pub open spec fn paint(self) -> Seq<char> {
        match self {
            LogLevel::Info => "\x1b[92m"@,
            LogLevel::Warning => "\x1b[93m"@,
            LogLevel::Error => "\x1b[91m"@,
            LogLevel::Debug => "\x1b[94m"@,
        }
    }

    pub fn color(&self) -> (paint: &'static str)
        ensures
            paint@ == self.paint(),
    {
        match self {
            LogLevel::Info => "\x1b[92m",
            LogLevel::Warning => "\x1b[93m",
            LogLevel::Error => "\x1b[91m",
            LogLevel::Debug => "\x1b[94m",
        }
    }
}

/// The texts in a row, with one space between neighbours.
pub open spec fn spaced(texts: Seq<Seq<char>>) -> Seq<char>
    decreases texts.len(),
{
    if texts.len() == 0 {
        Seq::empty()
    } else if texts.len() == 1 {
        texts[0]
    } else {
        spaced(texts.drop_last()) + " "@ + texts.last()
    }
}

/// The line for a message: the level in its colour, a colon, the logger's
/// name in square brackets if it has one, the message, and the arguments
/// after a space if there are any.
pub open spec fn line(
    name: Option<Seq<char>>,
    level: LogLevel,
    msg: Seq<char>,
    texts: Seq<Seq<char>>,
) -> Seq<char> {
    let name_part = match name {
        Some(n) => "["@ + n + "] "@,
        None => Seq::empty(),
    };
    let args_part = if texts.len() == 0 {
        Seq::empty()
    } else {
        " "@ + spaced(texts)
    };
    level.paint() + level.word() + reset() + ": "@ + name_part + msg + args_part
}

/// Whether `texts` are what the arguments display as, one for one.
pub open spec fn displayed<T: Display>(args: Seq<T>, texts: Seq<String>) -> bool {
    &&& texts.len() == args.len()
    &&& forall|i: int|
        0 <= i < args.len() ==> to_string_from_display_ensures::<T>(&args[i], #[trigger] texts[i])
}

/// The views of `texts`.
pub open spec fn views(texts: Seq<String>) -> Seq<Seq<char>> {
    texts.map_values(|text: String| text@)
}

pub struct Logger {
    name: Option<String>,
}

impl Logger {
    /// The name that the logger puts into its lines.
    pub closed spec fn name(&self) -> Option<Seq<char>> {
        match self.name {
            Some(n) => Some(n@),
            None => None,
        }
    }

    pub fn new(name: Option<String>) -> (logger: Self)
        ensures
            logger.name() == match name {
                Some(n) => Some(n@),
                None => None,
            },
    {
        Self { name }
    }

    /// Composes the line for one message.
    pub fn format_msg<T: Display>(&self, level: LogLevel, msg: &str, args: &[T]) -> (text: String)
        ensures
            exists|texts: Seq<String>|
                displayed(args@, texts) && text@ == line(self.name(), level, msg@, views(texts)),
    {
        let mut text = String::from_str(level.color());
        text.append(level.as_str());
        text.append("\x1b[0m");
        text.append(": ");
        match &self.name {
            Some(n) => {
                text.append("[");
                text.append(n.as_str());
                text.append("] ");
            },
            None => {},
        }
        text.append(msg);
        let ghost head = text@;
        let ghost mut texts: Seq<String> = Seq::empty();
        let mut i: usize = 0;
        while i < args.len()
            invariant
                i <= args.len(),
                displayed(args@.take(i as int), texts),
                text@ == head + if i == 0 {
                    Seq::<char>::empty()
                } else {
                    " "@ + spaced(views(texts))
                },
            decreases args.len() - i,
        {
            let shown = args[i].to_string();
            text.append(" ");
            text.append(shown.as_str());
            proof {
                let before = texts;
                texts = texts.push(shown);
                assert(views(texts).drop_last() =~= views(before));
                assert(args@.take(i + 1) =~= args@.take(i as int).push(args@[i as int]));
                assert(text@ =~= head + (" "@ + spaced(views(texts))));
            }
            i += 1;
        }
        proof {
            assert(args@.take(args@.len() as int) =~= args@);
            assert(text@ =~= line(self.name(), level, msg@, views(texts)));
        }
        text
    }

    /// The line for an informational message.
    pub fn info<T: Display>(&self, msg: &str, args: &[T]) -> (text: String)
        ensures
            exists|texts: Seq<String>|
                displayed(args@, texts) && text@ == line(
                    self.name(),
                    LogLevel::Info,
                    msg@,
                    views(texts),
                ),
    {
        self.format_msg(LogLevel::Info, msg, args)
    }

    /// The line for an error.
    pub fn error<T: Display>(&self, msg: &str, args: &[T]) -> (text: String)
        ensures
            exists|texts: Seq<String>|
                displayed(args@, texts) && text@ == line(
                    self.name(),
                    LogLevel::Error,
                    msg@,
                    views(texts),
                ),
    {
        self.format_msg(LogLevel::Error, msg, args)
    }

    /// The line for a warning.
    pub fn warning<T: Display>(&self, msg: &str, args: &[T]) -> (text: String)
        ensures
            exists|texts: Seq<String>|
                displayed(args@, texts) && text@ == line(
                    self.name(),
                    LogLevel::Warning,
                    msg@,
                    views(texts),
                ),
    {
        self.format_msg(LogLevel::Warning, msg, args)
    }

    /// The line for a debugging message.
    pub fn debug<T: Display>(&self, msg: &str, args: &[T]) -> (text: String)
        ensures
            exists|texts: Seq<String>|
                displayed(args@, texts) && text@ == line(
                    self.name(),
                    LogLevel::Debug,
                    msg@,
                    views(texts),
                ),
    {
        self.format_msg(LogLevel::Debug, msg, args)
    }
}

} // verus!
