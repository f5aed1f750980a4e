//! What to report when one of the long-running tasks (the API server or the
//! background worker) stops.

use vstd::prelude::*;

verus! {

/// The report on a stopped task: a summary line and, when the task failed,
/// the error text.
#[derive(Debug, Clone, PartialEq, Eq)]
pub struct ExitReport {
    pub summary: String,
    pub error: Option<String>,
}

/// The summary line for a task that stopped with `outcome`: the inner
/// `Result` is the task's own result, the outer one whether it could be
/// joined at all.
pub open spec fn exit_summary(task_name: Seq<char>, outcome: Result<Result<(), Seq<char>>, Seq<char>>) -> Seq<char> {
    match outcome {
        Ok(Ok(())) => task_name + " has exited"@,
        Ok(Err(_)) => task_name + " has failed"@,
        Err(_) => task_name + " task failed to complete"@,
    }
}

pub open spec fn outcome_view(outcome: Result<Result<(), String>, String>) -> Result<Result<(), Seq<char>>, Seq<char>> {
    match outcome {
        Ok(Ok(())) => Ok(Ok(())),
        Ok(Err(e)) => Ok(Err(e@)),
        Err(e) => Err(e@),
    }
}

/// Describes how a task stopped. Every stop is unexpected, so each outcome
/// is reported as an error; a failure carries its error text along.
pub fn report_exit(task_name: &str, outcome: Result<Result<(), String>, String>) -> (r: ExitReport)
    ensures
        r.summary@ == exit_summary(task_name@, outcome_view(outcome)),
        match outcome {
            Ok(Ok(())) => r.error is None,
            Ok(Err(e)) => r.error matches Some(t) && t@ == e@,
            Err(e) => r.error matches Some(t) && t@ == e@,
        },
{
    let mut summary = task_name.to_string();
    match outcome {
        Ok(Ok(())) => {
            summary.append(" has exited");
            ExitReport { summary, error: None }
        },
        Ok(Err(e)) => {
            summary.append(" has failed");
            ExitReport { summary, error: Some(e) }
        },
        Err(e) => {
            summary.append(" task failed to complete");
            ExitReport { summary, error: Some(e) }
        },
    }
}

} // verus!
