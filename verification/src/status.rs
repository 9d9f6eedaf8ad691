//! Classification of the worker's reported task status codes.

use vstd::prelude::*;

verus! {

/// The worker reports a numeric status code for a task. The orchestrator
/// recognizes code 20 as "still running" and code 40 as "completed";
/// every other value (including a missing or unparsable code, mapped to
/// `None` upstream) is an unrecognized terminal state.
#[derive(Clone, Copy, Debug, PartialEq, Eq, Structural)]
pub enum TaskStatus {
    Running,
    Completed,
    Unrecognized,
}

pub const STATUS_CODE_RUNNING: i64 = 20;

pub const STATUS_CODE_COMPLETED: i64 = 40;

/// What status a reported code (or the absence of one) means.
pub open spec fn status_of(code: Option<i64>) -> TaskStatus {
    match code {
        Some(c) => if c == STATUS_CODE_RUNNING {
            TaskStatus::Running
        } else if c == STATUS_CODE_COMPLETED {
            TaskStatus::Completed
        } else {
            TaskStatus::Unrecognized
        },
        None => TaskStatus::Unrecognized,
    }
}

/// Classify the status code field of a poll response.
pub fn classify_status(code: Option<i64>) -> (s: TaskStatus)
    ensures
        s == status_of(code),
{
    match code {
        Some(c) => {
            if c == STATUS_CODE_RUNNING {
                TaskStatus::Running
            } else if c == STATUS_CODE_COMPLETED {
                TaskStatus::Completed
            } else {
                TaskStatus::Unrecognized
            }
        },
        None => TaskStatus::Unrecognized,
    }
}

} // verus!
