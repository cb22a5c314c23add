//! Log levels and the decisions of the run log: which messages are written,
//! how a level is stored as a number, and what a log line looks like.  The
//! file handle and the lock around it live with the program, which hands the
//! time stamp and the stored level in.

use vstd::prelude::*;

use crate::text::push_str;

verus! {

/// How much the run log records.
#[derive(Clone, Copy, Debug, PartialEq, Eq, Structural)]
pub enum LogLevel {
    Normal,
    Debug,
}

impl Default for LogLevel {
    fn default() -> (r: Self)
        ensures
            r == LogLevel::Normal,
    {
        LogLevel::Normal
    }
}

/// The number a level is stored as: `Normal` is 0, `Debug` is 1.
pub open spec fn spec_level_code(level: LogLevel) -> u8 {
    match level {
        LogLevel::Normal => 0,
        LogLevel::Debug => 1,
    }
}

/// The stored number for a level.
pub fn level_code(level: LogLevel) -> (r: u8)
    ensures
        r == spec_level_code(level),
{
    match level {
        LogLevel::Normal => 0,
        LogLevel::Debug => 1,
    }
}

/// The level a stored number stands for: 1 is `Debug`, anything else
/// `Normal`.
pub fn level_from_code(code: u8) -> (r: LogLevel)
    ensures
        r == (if code == 1 {
            LogLevel::Debug
        } else {
            LogLevel::Normal
        }),
{
    if code == 1 {
        LogLevel::Debug
    } else {
        LogLevel::Normal
    }
}

/// Storing a level and reading it back gives the same level.
pub proof fn lemma_level_code_roundtrip(level: LogLevel)
    ensures
        (if spec_level_code(level) == 1 {
            LogLevel::Debug
        } else {
            LogLevel::Normal
        }) == level,
{
}

/// A message is written unless it is a `Debug` message and the log is not at
/// `Debug` level.
pub open spec fn spec_should_log(msg_level: LogLevel, current: LogLevel) -> bool {
    !(msg_level == LogLevel::Debug && current != LogLevel::Debug)
}

pub fn should_log(msg_level: LogLevel, current: LogLevel) -> (r: bool)
    ensures
        r == spec_should_log(msg_level, current),
{
    !(msg_level == LogLevel::Debug && current != LogLevel::Debug)
}

/// The name a level is printed with (`{:?}`).
pub open spec fn spec_level_name(level: LogLevel) -> Seq<char> {
    match level {
        LogLevel::Normal => "Normal"@,
        LogLevel::Debug => "Debug"@,
    }
}

pub fn level_name(level: LogLevel) -> (r: &'static str)
    ensures
        r@ == spec_level_name(level),
{
    match level {
        LogLevel::Normal => "Normal",
        LogLevel::Debug => "Debug",
    }
}

/// One line of the run log: `[stamp] [Level] message` and a line break.
pub open spec fn spec_log_line(stamp: Seq<char>, level: LogLevel, msg: Seq<char>) -> Seq<char> {
    "["@ + stamp + "] ["@ + spec_level_name(level) + "] "@ + msg + "\n"@
}

pub fn log_line(stamp: &str, level: LogLevel, msg: &str) -> (r: String)
    ensures
        r@ == spec_log_line(stamp@, level, msg@),
{
    let mut s = String::new();
    push_str(&mut s, "[");
    push_str(&mut s, stamp);
    push_str(&mut s, "] [");
    push_str(&mut s, level_name(level));
    push_str(&mut s, "] ");
    push_str(&mut s, msg);
    push_str(&mut s, "\n");
    s
}

/// The file name of the run log started at `stamp`: `run_<stamp>.log`.
pub fn log_file_name(stamp: &str) -> (r: String)
    ensures
        r@ == "run_"@ + stamp@ + ".log"@,
{
    let mut s = String::new();
    push_str(&mut s, "run_");
    push_str(&mut s, stamp);
    push_str(&mut s, ".log");
    s
}

/// What switching the stored level from `old_code` to `level` records: a
/// note when the stored number changes, nothing otherwise.
pub fn level_change_note(old_code: u8, level: LogLevel) -> (r: Option<String>)
    ensures
        match r {
            Some(s) => old_code != spec_level_code(level) && s@ == "Log level changed to "@
                + spec_level_name(level),
            None => old_code == spec_level_code(level),
        },
{
    if old_code == level_code(level) {
        None
    } else {
        let mut s = String::new();
        push_str(&mut s, "Log level changed to ");
        push_str(&mut s, level_name(level));
        Some(s)
    }
}

} // verus!
