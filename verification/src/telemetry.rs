//! The report written when a long-running task finishes: which log level to
//! use and what the line says; the logging backend itself lives outside the
//! core.

use vstd::prelude::*;

verus! {

/// How a supervised task ended.
#[derive(Debug)]
pub enum TaskOutcome {
    /// The task ran to completion.
    Completed,
    /// The task finished with an error; carries its description.
    Failed(String),
    /// The task could not be joined at all; carries the description.
    JoinFailed(String),
}

/// Severity of a log line.
#[derive(Debug, PartialEq, Eq, Structural, Clone, Copy)]
pub enum LogLevel {
    Info,
    Error,
}

/// One log line: severity, the line itself, and the cause to attach, if any.
#[derive(Debug)]
pub struct LogLine {
    pub level: LogLevel,
    pub text: String,
    pub cause: Option<String>,
}

/// Decide the log line written when a supervised task exits: completion is
/// informational, a task error and a failure to join are errors carrying the
/// cause.
pub fn report_exit(task_name: &str, outcome: &TaskOutcome) -> (r: LogLine)
    ensures
        match outcome {
            TaskOutcome::Completed => ({
                &&& r.level is Info
                &&& r.text@ == task_name@ + " has exited"@
                &&& r.cause is None
            }),
            TaskOutcome::Failed(e) => ({
                &&& r.level is Error
                &&& r.text@ == task_name@ + " failed"@
                &&& r.cause matches Some(c) && c@ == e@
            }),
            TaskOutcome::JoinFailed(e) => ({
                &&& r.level is Error
                &&& r.text@ == task_name@ + " task failed to complete"@
                &&& r.cause matches Some(c) && c@ == e@
            }),
        },
{
    let mut text = String::from_str(task_name);
    match outcome {
        TaskOutcome::Completed => {
            text.append(" has exited");
            LogLine { level: LogLevel::Info, text, cause: None }
        },
        TaskOutcome::Failed(e) => {
            text.append(" failed");
            LogLine { level: LogLevel::Error, text, cause: Some(e.clone()) }
        },
        TaskOutcome::JoinFailed(e) => {
            text.append(" task failed to complete");
            LogLine { level: LogLevel::Error, text, cause: Some(e.clone()) }
        },
    }
}

} // verus!
