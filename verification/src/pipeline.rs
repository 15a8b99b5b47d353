//! The two stages of a run of the tool, from bytes to what is shown and
//! stored: the execution with its log, and the static analysis with its
//! trace and opcode vector.
//!
//! A run that cannot be set up is a failure. A run that was set up and then
//! trapped, ran out of fuel or failed otherwise is a result like any other:
//! it has a log and a summary.

use crate::decode::{module_listing, DecodeError};
use crate::engine::{entry_check, exported, load, run, Execution, SetupError};
use crate::opcode::OpcodeVector;
use crate::outcome::{log_of, summary_of, ExecutionLog, OutcomeView};
use crate::printer::{disassemble_wasm, trace_lines};
use crate::report::{
    execution_log_json, log_members, opcode_vector_json, pretty_json, tally_lines, tally_of,
    vector_members, ReportError,
};
use crate::scanner::{extract_opcode_features, opcode_counts};
use crate::text::views;
use vstd::prelude::*;

verus! {

/// Why a stage gave no result.
#[derive(Debug, PartialEq, Eq)]
pub enum Failure {
    /// The run could not be set up.
    Setup(SetupError),
    /// The execution log could not be rendered.
    Report(ReportError),
}

/// What is said of a failure.
pub open spec fn failure_message(failure: Failure) -> Seq<char> {
    match failure {
        Failure::Setup(error) => crate::engine::setup_message(error),
        Failure::Report(error) => error.message@,
    }
}

impl Failure {
    /// What is said of the failure.
    pub fn message(&self) -> (message: String)
        ensures
            message@ == failure_message(*self),
    {
        match self {
            Failure::Setup(error) => error.message(),
            Failure::Report(error) => error.message.clone(),
        }
    }
}

/// What the execution stage gives: the log, the text of its artifact, and the
/// one-line summary.
#[derive(Debug, PartialEq, Eq)]
pub struct ExecutionReport {
    pub log: ExecutionLog,
    pub json: String,
    pub summary: String,
}

/// Reports the run of `function` of the module at `file` that ended as
/// `execution` says.
pub fn report_execution(file: &str, function: &str, execution: &Execution) -> (result: Result<
    ExecutionReport,
    ReportError,
>)
    ensures
        match result {
            Ok(report) => {
                &&& report.log@ == log_of(
                    file@,
                    function@,
                    execution.outcome@,
                    execution.duration_ms,
                )
                &&& report.summary@ == summary_of(report.log@)
                &&& pretty_json(log_members(report.log@)) == Ok::<Seq<char>, Seq<char>>(
                    report.json@,
                )
            },
            Err(error) => pretty_json(
                log_members(log_of(file@, function@, execution.outcome@, execution.duration_ms)),
            ) == Err::<Seq<char>, Seq<char>>(error.message@),
        },
{
    let log = ExecutionLog::new(file, function, &execution.outcome, execution.duration_ms);
    match execution_log_json(&log) {
        Ok(json) => {
            let summary = log.summary();
            Ok(ExecutionReport { log, json, summary })
        },
        Err(error) => Err(error),
    }
}

/// The text of the execution log artifact for a run of `function` of the
/// module at `file` that took `duration_ms` milliseconds and ended in
/// `outcome`, or the message of the failure to render it.
pub open spec fn log_rendering(
    file: Seq<char>,
    function: Seq<char>,
    outcome: OutcomeView,
    duration_ms: u128,
) -> Result<Seq<char>, Seq<char>> {
    pretty_json(log_members(log_of(file, function, outcome, duration_ms)))
}

/// Whether `result` is what the execution stage may give for the module
/// `data`, read from `file`, and its export `function`.
///
/// - A module that does not load gives `Validation`.
/// - A module that loads and exports no function as `function` gives
///   `FunctionNotFound`; a function with a parameter or a result gives
///   `SignatureMismatch`. Neither is given for any other module.
/// - With a function that can be run, the run is reported whatever it ended
///   in: the log is that of some outcome, the summary is that of the log and
///   the text is the rendering of the log. The stage then fails only where
///   the log cannot be rendered.
pub open spec fn is_execution_of(
    file: Seq<char>,
    function: Seq<char>,
    data: Seq<u8>,
    result: Result<ExecutionReport, Failure>,
) -> bool {
    match result {
        Ok(report) => {
            &&& entry_check(exported(data, function)) is Ok
            &&& exists|outcome: OutcomeView|
                report.log@ == #[trigger] log_of(
                    file,
                    function,
                    outcome,
                    report.log@.duration_ms,
                )
            &&& report.summary@ == summary_of(report.log@)
            &&& pretty_json(log_members(report.log@)) == Ok::<Seq<char>, Seq<char>>(report.json@)
        },
        Err(Failure::Setup(SetupError::Validation(_))) => true,
        Err(Failure::Setup(error)) => entry_check(exported(data, function)) == Err::<
            (),
            SetupError,
        >(error),
        Err(Failure::Report(error)) => {
            &&& entry_check(exported(data, function)) is Ok
            &&& exists|outcome: OutcomeView, duration_ms: u128| #[trigger]
                log_rendering(file, function, outcome, duration_ms) == Err::<
                    Seq<char>,
                    Seq<char>,
                >(error.message@)
        },
    }
}

/// The execution stage: loads the module `data`, read from `file`, runs its
/// export `function` once with `fuel` units of fuel, and reports the run.
///
/// Whatever the run ends in, it is reported. The stage fails only where the
/// module does not load, where it has no such function to run, or where the
/// log cannot be rendered.
pub fn execute(file: &str, function: &str, data: &[u8], fuel: u64) -> (result: Result<
    ExecutionReport,
    Failure,
>)
    ensures
        is_execution_of(file@, function@, data@, result),
        result matches Ok(report) ==> {
            &&& report.log@.file == file@
            &&& report.log@.function == function@
            &&& report.log@.success <==> report.log@.error_message is None
        },
{
    let loaded = match load(data) {
        Ok(loaded) => loaded,
        Err(error) => {
            return Err(Failure::Setup(error));
        },
    };
    let execution = match run(&loaded, function, fuel) {
        Ok(execution) => execution,
        Err(error) => {
            return Err(Failure::Setup(error));
        },
    };
    match report_execution(file, function, &execution) {
        Ok(report) => {
            assert(report.log@ == log_of(
                file@,
                function@,
                execution.outcome@,
                report.log@.duration_ms,
            ));
            Ok(report)
        },
        Err(error) => {
            assert(log_rendering(file@, function@, execution.outcome@, execution.duration_ms)
                == Err::<Seq<char>, Seq<char>>(error.message@));
            Err(Failure::Report(error))
        },
    }
}

/// The opcode profile of a module: the vector, its console tally, and the
/// text of its artifact or the failure to render it.
pub struct Profile {
    pub vector: OpcodeVector,
    pub tally: Vec<String>,
    pub json: Result<String, ReportError>,
}

/// What the analysis stage gives: the disassembly trace, and the opcode
/// profile or the decoding failure that kept it from being made.
pub struct Analysis {
    pub trace: Vec<String>,
    pub profile: Result<Profile, DecodeError>,
}

/// Whether `profile` is the profile of an opcode vector with the entries
/// `listing`.
pub open spec fn is_profile_of(listing: Seq<(Seq<char>, nat)>, profile: Profile) -> bool {
    &&& profile.vector.wf()
    &&& profile.vector.listing() == listing
    &&& views(profile.tally@) == tally_of(listing)
    &&& match profile.json {
        Ok(text) => pretty_json(vector_members(listing)) == Ok::<Seq<char>, Seq<char>>(text@),
        Err(error) => pretty_json(vector_members(listing)) == Err::<Seq<char>, Seq<char>>(
            error.message@,
        ),
    }
}

/// Profiles the opcode vector `vector`.
pub fn profile_of(vector: OpcodeVector) -> (profile: Profile)
    requires
        vector.wf(),
    ensures
        profile.vector == vector,
        is_profile_of(vector.listing(), profile),
{
    let tally = tally_lines(&vector);
    let json = opcode_vector_json(&vector);
    Profile { vector, tally, json }
}

/// The analysis stage: disassembles the module `data`, read from `file`, and
/// profiles its opcodes. The trace holds what was decoded before the first
/// decoding failure; with such a failure there is no profile.
pub fn analyze(file: &str, data: &[u8]) -> (analysis: Analysis)
    ensures
        views(analysis.trace@) == trace_lines(file@, module_listing(data@).items),
        match analysis.profile {
            Ok(profile) => {
                &&& module_listing(data@).failure is None
                &&& profile.vector@ == opcode_counts(module_listing(data@).items)
                &&& is_profile_of(profile.vector.listing(), profile)
            },
            Err(error) => module_listing(data@).failure == Some(error.message@),
        },
{
    let disassembly = disassemble_wasm(file, data);
    let profile = match disassembly.failure {
        Some(error) => Err(error),
        None => match extract_opcode_features(data) {
            Err(error) => Err(error),
            Ok(vector) => Ok(profile_of(vector)),
        },
    };
    Analysis { trace: disassembly.lines, profile }
}

} // verus!
