//! The outcome of a run: how the result of the call is classified, and the
//! execution log that is derived from it.

use crate::text::{decimal, decimal_text, joined};
use vstd::prelude::*;
use vstd::string::StringExecFns;

verus! {

/// Why a call into the guest failed, as the engine reports it.
#[derive(Debug, PartialEq, Eq)]
pub enum CallFault {
    /// The guest used up its fuel.
    OutOfFuel,
    /// Any other trap, with the engine's description of it.
    Trap(String),
    /// A failure that is no trap, with its message.
    Other(String),
}

/// The mathematical value of a `CallFault`.
pub enum CallFaultView {
    OutOfFuel,
    Trap(Seq<char>),
    Other(Seq<char>),
}

impl View for CallFault {
    type V = CallFaultView;

    open spec fn view(&self) -> CallFaultView {
        match self {
            CallFault::OutOfFuel => CallFaultView::OutOfFuel,
            CallFault::Trap(description) => CallFaultView::Trap(description@),
            CallFault::Other(message) => CallFaultView::Other(message@),
        }
    }
}

/// How a run ended.
#[derive(Debug, PartialEq, Eq)]
pub enum ExecutionOutcome {
    /// The call returned without fault.
    Success,
    /// The guest used up its fuel budget.
    ResourceExhausted,
    /// The guest trapped; the engine's description of the trap.
    Trapped(String),
    /// Any other failure; its message, unchanged.
    OtherFailure(String),
}

/// The mathematical value of an `ExecutionOutcome`.
pub enum OutcomeView {
    Success,
    ResourceExhausted,
    Trapped(Seq<char>),
    OtherFailure(Seq<char>),
}

impl View for ExecutionOutcome {
    type V = OutcomeView;

    open spec fn view(&self) -> OutcomeView {
        match self {
            ExecutionOutcome::Success => OutcomeView::Success,
            ExecutionOutcome::ResourceExhausted => OutcomeView::ResourceExhausted,
            ExecutionOutcome::Trapped(description) => OutcomeView::Trapped(description@),
            ExecutionOutcome::OtherFailure(message) => OutcomeView::OtherFailure(message@),
        }
    }
}

/// The value of the result of a call.
pub open spec fn call_view(result: Result<(), CallFault>) -> Result<(), CallFaultView> {
    match result {
        Ok(()) => Ok(()),
        Err(fault) => Err(fault@),
    }
}

/// The outcome that the result of a call stands for. Fuel exhaustion is told
/// apart first, then other traps, then everything else.
pub open spec fn classified(result: Result<(), CallFaultView>) -> OutcomeView {
    match result {
        Ok(()) => OutcomeView::Success,
        Err(CallFaultView::OutOfFuel) => OutcomeView::ResourceExhausted,
        Err(CallFaultView::Trap(description)) => OutcomeView::Trapped(description),
        Err(CallFaultView::Other(message)) => OutcomeView::OtherFailure(message),
    }
}

/// Classifies the result of a call.
pub fn classify(result: Result<(), CallFault>) -> (outcome: ExecutionOutcome)
    ensures
        outcome@ == classified(call_view(result)),
{
    match result {
        Ok(()) => ExecutionOutcome::Success,
        Err(CallFault::OutOfFuel) => ExecutionOutcome::ResourceExhausted,
        Err(CallFault::Trap(description)) => ExecutionOutcome::Trapped(description),
        Err(CallFault::Other(message)) => ExecutionOutcome::OtherFailure(message),
    }
}

/// The message recorded for a run that used up its fuel.
pub open spec fn exhausted_message() -> Seq<char> {
    "execution failed: all fuel consumed"@
}

/// The error message that the log records for `outcome`: none for a success,
/// a fixed one for fuel exhaustion, the description behind `Trap: ` for a
/// trap, and the message itself for any other failure.
pub open spec fn outcome_message(outcome: OutcomeView) -> Option<Seq<char>> {
    match outcome {
        OutcomeView::Success => None,
        OutcomeView::ResourceExhausted => Some(exhausted_message()),
        OutcomeView::Trapped(description) => Some("Trap: "@ + description),
        OutcomeView::OtherFailure(message) => Some(message),
    }
}

/// The value of an optional string.
pub open spec fn optional_view(text: Option<String>) -> Option<Seq<char>> {
    match text {
        Some(text) => Some(text@),
        None => None,
    }
}

/// The record of one run.
#[derive(Debug, PartialEq, Eq)]
pub struct ExecutionLog {
    pub file: String,
    pub function: String,
    pub success: bool,
    pub duration_ms: u128,
    pub error_message: Option<String>,
}

/// The mathematical value of an `ExecutionLog`.
pub struct ExecutionLogView {
    pub file: Seq<char>,
    pub function: Seq<char>,
    pub success: bool,
    pub duration_ms: u128,
    pub error_message: Option<Seq<char>>,
}

impl View for ExecutionLog {
    type V = ExecutionLogView;

    open spec fn view(&self) -> ExecutionLogView {
        ExecutionLogView {
            file: self.file@,
            function: self.function@,
            success: self.success,
            duration_ms: self.duration_ms,
            error_message: optional_view(self.error_message),
        }
    }
}

/// The log of a run of `function` of the module at `file` that took
/// `duration_ms` milliseconds and ended in `outcome`.
pub open spec fn log_of(
    file: Seq<char>,
    function: Seq<char>,
    outcome: OutcomeView,
    duration_ms: u128,
) -> ExecutionLogView {
    ExecutionLogView {
        file,
        function,
        success: outcome is Success,
        duration_ms,
        error_message: outcome_message(outcome),
    }
}

/// The one-line summary of a run: with the duration for a success, with the
/// duration and the error message for a failure.
pub open spec fn summary_of(log: ExecutionLogView) -> Seq<char> {
    if log.success {
        "Plugin executed successfully in "@ + decimal(log.duration_ms as nat) + " ms"@
    } else {
        "Plugin execution failed in "@ + decimal(log.duration_ms as nat) + " ms: "@
            + match log.error_message {
            Some(message) => message,
            None => "Unknown error"@,
        }
    }
}

/// The error message that the log records for `outcome`.
pub fn error_message(outcome: &ExecutionOutcome) -> (message: Option<String>)
    ensures
        optional_view(message) == outcome_message(outcome@),
{
    match outcome {
        ExecutionOutcome::Success => None,
        ExecutionOutcome::ResourceExhausted => Some(
            "execution failed: all fuel consumed".to_owned(),
        ),
        ExecutionOutcome::Trapped(description) => Some(joined("Trap: ", description.as_str())),
        ExecutionOutcome::OtherFailure(message) => Some(message.clone()),
    }
}

impl ExecutionLog {
    /// The log of a run of `function` of the module at `file` that took
    /// `duration_ms` milliseconds and ended in `outcome`.
    pub fn new(file: &str, function: &str, outcome: &ExecutionOutcome, duration_ms: u128) -> (log:
        ExecutionLog)
        ensures
            log@ == log_of(file@, function@, outcome@, duration_ms),
    {
        let success = match outcome {
            ExecutionOutcome::Success => true,
            _ => false,
        };
        ExecutionLog {
            file: file.to_owned(),
            function: function.to_owned(),
            success,
            duration_ms,
            error_message: error_message(outcome),
        }
    }

    /// The one-line summary of the run.
    pub fn summary(&self) -> (line: String)
        ensures
            line@ == summary_of(self@),
    {
        let duration = decimal_text(self.duration_ms);
        if self.success {
            let mut line = joined("Plugin executed successfully in ", duration.as_str());
            line.append(" ms");
            line
        } else {
            let mut line = joined("Plugin execution failed in ", duration.as_str());
            line.append(" ms: ");
            match &self.error_message {
                Some(message) => line.append(message.as_str()),
                None => line.append("Unknown error"),
            }
            line
        }
    }
}

/// A call that returns without fault is recorded as a success, with no error
/// message.
pub proof fn lemma_success_is_recorded(file: Seq<char>, function: Seq<char>, duration_ms: u128)
    ensures
        classified(Ok(())) == OutcomeView::Success,
        log_of(file, function, classified(Ok(())), duration_ms).success,
        log_of(file, function, classified(Ok(())), duration_ms).error_message is None,
{
}

/// A log records a success exactly for the outcome `Success`, and an error
/// message exactly for every other outcome.
pub proof fn lemma_failure_is_recorded(
    file: Seq<char>,
    function: Seq<char>,
    outcome: OutcomeView,
    duration_ms: u128,
)
    ensures
        log_of(file, function, outcome, duration_ms).success <==> outcome is Success,
        log_of(file, function, outcome, duration_ms).error_message is None <==> outcome is Success,
{
}

/// A call that fails for want of fuel is classified as exhaustion whatever
/// else is true of it, and recorded with the fixed message.
pub proof fn lemma_exhaustion_is_recorded(file: Seq<char>, function: Seq<char>, duration_ms: u128)
    ensures
        classified(Err(CallFaultView::OutOfFuel)) == OutcomeView::ResourceExhausted,
        !log_of(file, function, OutcomeView::ResourceExhausted, duration_ms).success,
        log_of(file, function, OutcomeView::ResourceExhausted, duration_ms).error_message == Some(
            exhausted_message(),
        ),
{
}

} // verus!
