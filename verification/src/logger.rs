//! What the native logger hands to the host.
//!
//! The host registers a callback that takes a level number and the bytes of a message.
//! Records of the logging facade reach it too, down to the info level. Until a callback is
//! registered, messages go to standard error.

use vstd::prelude::*;
use vstd::string::StringExecFns;

verus! {

/// The level of a message, as the host knows it.
#[derive(Debug, Clone, Copy, PartialEq, Eq, Structural)]
pub enum LogLevel {
    Debug,
    Info,
    Error,
}

impl LogLevel {
    /// The number that stands for the level in a call of the host.
    pub open spec fn number(self) -> i32 {
        match self {
            LogLevel::Debug => 0,
            LogLevel::Info => 1,
            LogLevel::Error => 2,
        }
    }

    /// The name of the level.
    pub open spec fn label(self) -> Seq<char> {
        match self {
            LogLevel::Debug => "Debug"@,
            LogLevel::Info => "Info"@,
            LogLevel::Error => "Error"@,
        }
    }

    /// The number that stands for the level in a call of the host.
    pub fn code(&self) -> (code: i32)
        ensures
            code == self.number(),
            code == match self {
                LogLevel::Debug => 0i32,
                LogLevel::Info => 1i32,
                LogLevel::Error => 2i32,
            },
    {
        match self {
            LogLevel::Debug => 0,
            LogLevel::Info => 1,
            LogLevel::Error => 2,
        }
    }

    /// The name of the level.
    pub fn name(&self) -> (name: &'static str)
        ensures
            name@ == self.label(),
            name@ == match self {
                LogLevel::Debug => "Debug"@,
                LogLevel::Info => "Info"@,
                LogLevel::Error => "Error"@,
            },
    {
        match self {
            LogLevel::Debug => "Debug",
            LogLevel::Info => "Info",
            LogLevel::Error => "Error",
        }
    }
}

/// A message and the level under which it is logged.
pub struct LogMessage {
    pub level: LogLevel,
    pub text: String,
}

impl LogMessage {
    /// The level and the text.
    pub open spec fn content(self) -> (LogLevel, Seq<char>) {
        (self.level, self.text@)
    }
}

/// The levels and texts of a list of messages.
pub open spec fn contents(messages: Seq<LogMessage>) -> Seq<(LogLevel, Seq<char>)> {
    Seq::new(messages.len(), |i: int| messages[i].content())
}

/// The level of a record of the logging facade, most severe first.
#[derive(Debug, Clone, Copy, PartialEq, Eq, Structural)]
pub enum RecordLevel {
    Error,
    Warn,
    Info,
    Debug,
    Trace,
}

impl RecordLevel {
    /// How much the level lets through: a higher one is more verbose.
    pub open spec fn verbosity(self) -> int {
        match self {
            RecordLevel::Error => 1,
            RecordLevel::Warn => 2,
            RecordLevel::Info => 3,
            RecordLevel::Debug => 4,
            RecordLevel::Trace => 5,
        }
    }

    /// The host level of a record.
    pub open spec fn host_level(self) -> LogLevel {
        match self {
            RecordLevel::Error => LogLevel::Error,
            RecordLevel::Warn | RecordLevel::Info => LogLevel::Info,
            RecordLevel::Debug | RecordLevel::Trace => LogLevel::Debug,
        }
    }

    /// Whether records of this level are handed on: down to info, and no further.
    pub fn enabled(&self) -> (b: bool)
        ensures
            b == (self.verbosity() <= RecordLevel::Info.verbosity()),
            b <==> self is Error || self is Warn || self is Info,
    {
        match self {
            RecordLevel::Error | RecordLevel::Warn | RecordLevel::Info => true,
            RecordLevel::Debug | RecordLevel::Trace => false,
        }
    }

    /// The level under which a record is handed on; `None` if it is dropped.
    pub fn forwarded(&self) -> (level: Option<LogLevel>)
        ensures
            level == if self.verbosity() <= RecordLevel::Info.verbosity() {
                Some(self.host_level())
            } else {
                None
            },
            level is None <==> self is Debug || self is Trace,
            level == Some(LogLevel::Error) <==> self is Error,
            level == Some(LogLevel::Info) <==> self is Warn || self is Info,
    {
        if !self.enabled() {
            return None;
        }
        Some(
            match self {
                RecordLevel::Error => LogLevel::Error,
                RecordLevel::Warn | RecordLevel::Info => LogLevel::Info,
                _ => LogLevel::Debug,
            },
        )
    }
}

/// Where a message goes.
pub enum Delivery {
    /// To the callback of the host, with these numbers beside the bytes of the message.
    Callback {
        /// The number of the level.
        level: i32,
        /// The number of bytes of the message.
        len: i64,
    },
    /// To standard error, as this line.
    Fallback(String),
}

/// The line that stands in for a callback.
pub open spec fn fallback_text(level: LogLevel, message: Seq<char>) -> Seq<char> {
    "[RUST_LOG_FALLBACK] "@ + level.label() + ": "@ + message
}

/// Decides where a message goes: to the callback once one is registered, else to standard
/// error.
pub fn deliver(registered: bool, level: LogLevel, message: &str) -> (delivery: Delivery)
    ensures
        match delivery {
            Delivery::Callback { level: number, len } => registered && number == level.number()
                && len == message.len() as i64,
            Delivery::Fallback(line) => !registered && line@ == fallback_text(level, message@),
        },
        delivery is Callback <==> registered,
        delivery matches Delivery::Callback { level: number, .. } ==> number == match level {
            LogLevel::Debug => 0i32,
            LogLevel::Info => 1i32,
            LogLevel::Error => 2i32,
        },
        delivery matches Delivery::Fallback(line) ==> line@ == "[RUST_LOG_FALLBACK] "@ + match level {
            LogLevel::Debug => "Debug"@,
            LogLevel::Info => "Info"@,
            LogLevel::Error => "Error"@,
        } + ": "@ + message@,
{
    if registered {
        return Delivery::Callback { level: level.code(), len: message.len() as i64 };
    }
    let mut line = "[RUST_LOG_FALLBACK] ".to_owned();
    line.append(level.name());
    line.append(": ");
    line.append(message);
    Delivery::Fallback(line)
}

/// A more severe record never reaches the host under a lower level, and what is handed on
/// never appears as a debug message.
pub proof fn host_level_follows_severity(a: RecordLevel, b: RecordLevel)
    ensures
        a.verbosity() <= b.verbosity() ==> a.host_level().number() >= b.host_level().number(),
        a.verbosity() <= RecordLevel::Info.verbosity() ==> a.host_level() != LogLevel::Debug,
{
}

/// A stand-in line ends with the message, whatever it says, and two messages of one level have
/// the same line only if they are the same.
pub proof fn fallback_keeps_the_message(level: LogLevel, message1: Seq<char>, message2: Seq<char>)
    ensures
        fallback_text(level, message1).subrange(
            fallback_text(level, message1).len() - message1.len(),
            fallback_text(level, message1).len() as int,
        ) == message1,
        fallback_text(level, message1).len() - message1.len() == fallback_text(
            level,
            message2,
        ).len() - message2.len(),
        fallback_text(level, message1) == fallback_text(level, message2) ==> message1 == message2,
{
    let text1 = fallback_text(level, message1);
    let text2 = fallback_text(level, message2);
    assert(text1.subrange(text1.len() - message1.len(), text1.len() as int) =~= message1);
    assert(text2.subrange(text2.len() - message2.len(), text2.len() as int) =~= message2);
}

} // verus!
