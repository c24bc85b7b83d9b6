use vstd::prelude::*;

use crate::text::{concat, concat3, copy_str, eq_ignore_ascii_case, eq_ignore_ascii_case_spec, str_eq};

verus! {

/// A line for one of the two log files, as the background writer takes it.
pub enum LogTask {
    /// A complete line of the wrapper log (time stamp and header included).
    Wrapper(String),
    /// A line of the process log, with the log mode that picks its file.
    Exec(String, String),
}

pub enum LogTaskModel {
    Wrapper(Seq<char>),
    Exec(Seq<char>, Seq<char>),
}

impl View for LogTask {
    type V = LogTaskModel;

    open spec fn view(&self) -> LogTaskModel {
        match self {
            LogTask::Wrapper(l) => LogTaskModel::Wrapper(l@),
            LogTask::Exec(m, mode) => LogTaskModel::Exec(m@, mode@),
        }
    }
}

/// The wrapper log line for `msg` written at time `now`: `[now] WRAPPER | msg`.
pub open spec fn spec_wrapper_line(now: Seq<char>, msg: Seq<char>) -> Seq<char> {
    "["@ + now + "] WRAPPER | "@ + msg
}

/// The wrapper log entry for `msg`, stamped with the local time `now`.
pub fn write_wrapper_log(now: &str, msg: &str) -> (r: LogTask)
    ensures
        r@ == LogTaskModel::Wrapper(spec_wrapper_line(now@, msg@)),
{
    let head: String = concat3("[", now, "] WRAPPER | ");
    LogTask::Wrapper(concat(head.as_str(), msg))
}

/// The process log entry for `msg`: none when the log mode is `none` in any
/// ASCII case, else the message with its log mode.
pub fn write_exec_log(log_mode: &str, msg: &str) -> (r: Option<LogTask>)
    ensures
        match r {
            Some(t) => !eq_ignore_ascii_case_spec(log_mode@, "none"@) && t@ == LogTaskModel::Exec(
                msg@,
                log_mode@,
            ),
            None => eq_ignore_ascii_case_spec(log_mode@, "none"@),
        },
{
    if eq_ignore_ascii_case(log_mode, "none") {
        return None;
    }
    Some(LogTask::Exec(copy_str(msg), copy_str(log_mode)))
}

/// The name of the process log file: `exec_<date>.log` in the `rotate`
/// mode, else `exec.log`.
pub open spec fn spec_exec_log_file_name(log_mode: Seq<char>, date: Seq<char>) -> Seq<char> {
    if log_mode == "rotate"@ {
        "exec_"@ + date + ".log"@
    } else {
        "exec.log"@
    }
}

/// The name of the process log file for a log mode on a date (`%Y-%m-%d`).
pub fn exec_log_file_name(log_mode: &str, date: &str) -> (r: String)
    ensures
        r@ == spec_exec_log_file_name(log_mode@, date@),
{
    if str_eq(log_mode, "rotate") {
        concat3("exec_", date, ".log")
    } else {
        copy_str("exec.log")
    }
}

/// Whether writing a line of the process log first empties its file, so
/// that each run of the wrapper overwrites the old log: exactly for the
/// first line of a run (`first_line`) in the `reset` mode. Every other line
/// is added to what the file holds.
pub fn exec_log_overwrites(log_mode: &str, first_line: bool) -> (r: bool)
    ensures
        r == (log_mode@ == "reset"@ && first_line),
{
    first_line && str_eq(log_mode, "reset")
}

/// The name of the wrapper log file.
pub fn wrapper_log_file_name() -> (r: String)
    ensures
        r@ == "wrapper.log"@,
{
    copy_str("wrapper.log")
}

} // verus!
