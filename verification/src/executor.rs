//! Reporting of worker-thread outcomes.
//!
//! Executing a command means running its action on a worker thread and
//! joining it; the join either succeeds or reports a fault. The function here
//! decides, for every possible outcome, what must be logged: nothing on
//! normal completion, exactly one EXCEPTION entry otherwise. The caller that
//! owns the thread performs the join and hands the outcome in as a plain
//! value.

use crate::logging::Log;
use crate::logging::LogLevel;
use crate::logging::color_of;
use crate::logging::label_of;
use crate::logging::log;
use crate::logging::prefix_spec;
use crate::time::Timestamp;
use vstd::prelude::*;
use vstd::string::StringExecFns;

verus! {

/// What joining the worker thread reported: the action returned normally, or
/// the thread terminated abnormally, with a textual description of the
/// fault.
pub enum ExecutionOutcome {
    Completed,
    Faulted(String),
}

/// The message of the log entry that reports a fault.
pub open spec fn fault_message(detail: Seq<char>) -> Seq<char> {
    "Failed to execute Command. "@ + detail
}

/// Turns a worker outcome into what must be logged.
///
/// Normal completion produces no entry at all; a fault produces exactly one
/// EXCEPTION-level entry whose message carries the fault's description. The
/// function returns in both cases, so the thread that called it resumes
/// normally.
pub fn execution_report(outcome: ExecutionOutcome) -> (r: Option<Log>)
    ensures
        match outcome {
            ExecutionOutcome::Completed => r is None,
            ExecutionOutcome::Faulted(detail) => {
                &&& r is Some
                &&& r.unwrap().color == color_of(LogLevel::EXCEPTION)
                &&& r.unwrap().message@ == fault_message(detail@)
                &&& exists|t: Timestamp|
                    t.wf() && r.unwrap().prefix@ == #[trigger] prefix_spec(
                        t,
                        label_of(LogLevel::EXCEPTION),
                    )
            },
        },
{
    match outcome {
        ExecutionOutcome::Completed => None,
        ExecutionOutcome::Faulted(detail) => {
            let mut message = String::from_str("Failed to execute Command. ");
            message.append(detail.as_str());
            Some(log(LogLevel::EXCEPTION, message))
        },
    }
}

} // verus!
