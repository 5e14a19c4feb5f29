//! The per-VM lifecycle log: where it lives and what a line holds.
use vstd::prelude::*;
use crate::utils::{home_dir, join_path, joined};

verus! {

/// Severity of a per-VM log line.
#[derive(Clone, Copy, Debug, PartialEq, Eq, Structural)]
pub enum LogLevel {
    Info,
    Warn,
    Error,
    Debug,
}

/// The tag of a level in a log line.
pub open spec fn level_tag(l: LogLevel) -> Seq<char> {
    match l {
        LogLevel::Info => "INFO"@,
        LogLevel::Warn => "WARN"@,
        LogLevel::Error => "ERROR"@,
        LogLevel::Debug => "DEBUG"@,
    }
}

impl LogLevel {
    /// The tag of the level in a log line.
    pub fn as_str(&self) -> (r: &'static str)
        ensures
            r@ == level_tag(*self),
    {
        match self {
            LogLevel::Info => {
                proof { reveal_strlit("INFO"); }
                "INFO"
            }
            LogLevel::Warn => {
                proof { reveal_strlit("WARN"); }
                "WARN"
            }
            LogLevel::Error => {
                proof { reveal_strlit("ERROR"); }
                "ERROR"
            }
            LogLevel::Debug => {
                proof { reveal_strlit("DEBUG"); }
                "DEBUG"
            }
        }
    }
}

/// An append-only log of one VM's lifecycle, kept under the user's home
/// directory.
pub struct VMLogger {
    pub vm_name: String,
    pub log_file: String,
}

/// The log file of a VM under a home directory.
pub open spec fn log_path(home: Seq<char>, vm_name: Seq<char>) -> Seq<char> {
    joined(joined(joined(home, ".aiva"@), "logs"@), vm_name + ".log"@)
}

/// One log line: time, level tag, VM name and message.
pub open spec fn log_entry(timestamp: Seq<char>, level: LogLevel, vm_name: Seq<char>, message: Seq<char>) -> Seq<char> {
    timestamp + " ["@ + level_tag(level) + "] ["@ + vm_name + "] "@ + message + "\n"@
}

impl VMLogger {
    /// The logger of a VM, writing to `.aiva/logs/<name>.log` under the
    /// given home directory, or under the current directory without one.
    pub fn under(home: Option<String>, vm_name: String) -> (r: VMLogger)
        ensures
            r.vm_name == vm_name,
            r.log_file@ == log_path(
                match home {
                    Some(h) => h@,
                    None => "."@,
                },
                vm_name@,
            ),
    {
        proof {
            reveal_strlit(".");
            reveal_strlit(".aiva");
            reveal_strlit("logs");
            reveal_strlit(".log");
        }
        let base = match home {
            Some(h) => h,
            None => String::from_str("."),
        };
        let file = String::from_str(vm_name.as_str()).concat(".log");
        let dir = join_path(join_path(base.as_str(), ".aiva").as_str(), "logs");
        let log_file = join_path(dir.as_str(), file.as_str());
        VMLogger { vm_name, log_file }
    }

    /// The logger of a VM under the current user's home directory.
    pub fn new(vm_name: String) -> (r: VMLogger)
        ensures
            r.vm_name == vm_name,
            exists|h: Seq<char>| r.log_file@ == log_path(h, vm_name@),
    {
        VMLogger::under(home_dir(), vm_name)
    }

    /// The line this logger appends for a message at a level and time.
    pub fn entry(&self, timestamp: &str, level: LogLevel, message: &str) -> (r: String)
        ensures
            r@ == log_entry(timestamp@, level, self.vm_name@, message@),
    {
        proof {
            reveal_strlit(" [");
            reveal_strlit("] [");
            reveal_strlit("] ");
            reveal_strlit("\n");
        }
        String::from_str(timestamp).concat(" [").concat(level.as_str()).concat("] [").concat(
            self.vm_name.as_str(),
        ).concat("] ").concat(message).concat("\n")
    }
}


/// The first of `count` log lines to show: the last `tail` of them where
/// a tail is asked for, else all.
pub fn tail_start(count: usize, tail: Option<usize>) -> (r: usize)
    ensures
        r == (match tail {
            Some(t) => if count > t { (count - t) as usize } else { 0 },
            None => 0,
        }),
        r <= count,
{
    match tail {
        Some(t) => if count > t {
            count - t
        } else {
            0
        },
        None => 0,
    }
}

} // verus!
