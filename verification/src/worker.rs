//! The worker: what it does with a job before and after the native call.
//!
//! A job is handled in two steps around one blocking call of the engine.
//! [`AdmEngineEvent::prepare`] decides whether the engine can be called and
//! with which buffers; [`AdmEngineEvent::conclude`] turns what the engine
//! returned into the result of the job. The caller makes the call in between.

use libc::c_int;
use vstd::prelude::*;
use vstd::utf8::{
    decode_utf8, encode_utf8, encode_utf8_decode_utf8, encode_utf8_valid_utf8, valid_utf8,
};
use crate::c_string::lemma_representable_iff_no_nul_char;
use crate::job::{JobResult, JobResultView};
use crate::native::{
    arguments_for, field_text, first_offender, lemma_arguments_well_formed, marshal, well_formed,
    ArgumentsView, EncodingError, Field, NativeArguments,
};
use crate::parameters::{ParametersView, WorkerParameters};

verus! {

/// The worker that renders ADM content with rebalanced loudness.
#[derive(Debug, Default)]
pub struct AdmEngineEvent {}

/// What is to be done for a job once its parameters have been looked at.
#[derive(Debug, Clone, PartialEq, Eq)]
pub enum Step {
    /// Call the engine with these buffers.
    Invoke(NativeArguments),
    /// Do not call the engine: report this result.
    Report(JobResult),
}

/// A step over byte sequences and plain text.
pub enum StepView {
    Invoke(ArgumentsView),
    Report(JobResultView),
}

impl View for Step {
    type V = StepView;

    open spec fn view(&self) -> StepView {
        match self {
            Step::Invoke(arguments) => StepView::Invoke(arguments@),
            Step::Report(result) => StepView::Report(result@),
        }
    }
}

/// The reason that is reported when the engine's message is not valid UTF-8.
pub open spec fn undecodable() -> Seq<char> {
    "undecodable engine message"@
}

/// The step for a job with these parameters: the call, or the report of the
/// first text that cannot be handed to the engine.
pub open spec fn plan(parameters: ParametersView) -> StepView {
    match first_offender(parameters) {
        None => StepView::Invoke(arguments_for(parameters)),
        Some(field) => StepView::Report(JobResultView::error(EncodingError::reason(field))),
    }
}

/// The result of a job for which the engine returned `status` and left
/// `message` in its output slot. Status 0 is success, whatever the slot holds;
/// any other status is a failure, reported with the engine's message.
pub open spec fn engine_outcome(status: int, message: Seq<u8>) -> JobResultView {
    if status == 0 {
        JobResultView::completed()
    } else if valid_utf8(message) {
        JobResultView::error(decode_utf8(message))
    } else {
        JobResultView::error(undecodable())
    }
}

/// The result of a job with these parameters, where the engine, if it is
/// called, returns `status` and `message`.
pub open spec fn job_outcome(
    parameters: ParametersView,
    status: int,
    message: Seq<u8>,
) -> JobResultView {
    match plan(parameters) {
        StepView::Report(result) => result,
        StepView::Invoke(_) => engine_outcome(status, message),
    }
}

/// Decodes `bytes` with `String::from_utf8` of the standard library, which
/// returns the text exactly when the bytes are valid UTF-8. The contract
/// states that in vstd's model of UTF-8: success if and only if
/// `valid_utf8`, and the text is then the one that `decode_utf8` gives.
#[verifier::external_body]
fn decode_text(bytes: Vec<u8>) -> (r: Option<String>)
    ensures
        r is Some <==> valid_utf8(bytes@),
        r matches Some(text) ==> text@ == decode_utf8(bytes@),
{
    match String::from_utf8(bytes) {
        Ok(text) => Some(text),
        Err(_) => None,
    }
}

impl AdmEngineEvent {
    /// The name of the worker.
    pub fn get_name(&self) -> (name: String)
        ensures
            name@ == "ADM Engine worker"@,
    {
        "ADM Engine worker".to_owned()
    }

    /// What the worker does, in one line.
    pub fn get_short_description(&self) -> (description: String)
        ensures
            description@ == "Worker to rebalance audio loudness"@,
    {
        "Worker to rebalance audio loudness".to_owned()
    }

    /// What the worker does.
    pub fn get_description(&self) -> (description: String)
        ensures
            description@ == "This worker rebalances audio loudness."@,
    {
        "This worker rebalances audio loudness.".to_owned()
    }

    /// Looks at the parameters of a job and says what to do: call the engine
    /// with the four buffers, or report the first text that holds a zero
    /// byte. Of the gain mapping only the first entry is written.
    pub fn prepare(&self, parameters: &WorkerParameters) -> (step: Step)
        requires
            parameters@.has_gain(),
        ensures
            step@ == plan(parameters@),
            step matches Step::Invoke(arguments) ==> arguments@.well_formed(),
    {
        match marshal(parameters) {
            Ok(arguments) => {
                proof {
                    lemma_arguments_well_formed(parameters@);
                }
                Step::Invoke(arguments)
            },
            Err(error) => Step::Report(JobResult::error(error.message())),
        }
    }

    /// Turns what the engine returned into the result of the job. `message`
    /// holds the bytes of the engine's output slot up to its terminator; it
    /// is read only where `status` is not 0.
    pub fn conclude(&self, status: c_int, message: Vec<u8>) -> (result: JobResult)
        ensures
            result@ == engine_outcome(status as int, message@),
    {
        if status == 0 {
            JobResult::completed()
        } else {
            match decode_text(message) {
                Some(text) => JobResult::error(text),
                None => JobResult::error("undecodable engine message".to_owned()),
            }
        }
    }
}

/// A job with well-formed parameters for which the engine reports success is
/// completed, without a message, whatever the output slot holds.
pub proof fn lemma_success_completes(parameters: ParametersView, message: Seq<u8>)
    requires
        parameters.has_gain(),
        well_formed(parameters),
    ensures
        plan(parameters) == StepView::Invoke(arguments_for(parameters)),
        engine_outcome(0, message) == JobResultView::completed(),
        job_outcome(parameters, 0, message) == JobResultView::completed(),
{
}

/// A job with well-formed parameters for which the engine reports a failure
/// with the message `text` ends in an error with exactly that message.
pub proof fn lemma_failure_reports_message(
    parameters: ParametersView,
    status: int,
    text: Seq<char>,
)
    requires
        parameters.has_gain(),
        well_formed(parameters),
        status != 0,
    ensures
        plan(parameters) == StepView::Invoke(arguments_for(parameters)),
        engine_outcome(status, encode_utf8(text)) == JobResultView::error(text),
        job_outcome(parameters, status, encode_utf8(text)) == JobResultView::error(text),
{
    encode_utf8_valid_utf8(text);
    encode_utf8_decode_utf8(text);
}

/// A U+0000 in any one of the four texts makes the job an error, whatever the
/// other texts hold: the engine is not called, and the job is reported with
/// the reason for the first such text in call order.
pub proof fn lemma_nul_is_job_error(
    parameters: ParametersView,
    field: Field,
    status: int,
    message: Seq<u8>,
)
    requires
        parameters.has_gain(),
        field_text(parameters, field).contains('\0'),
    ensures
        first_offender(parameters) is Some,
        plan(parameters) is Report,
        job_outcome(parameters, status, message) == JobResultView::error(
            EncodingError::reason(first_offender(parameters)->0),
        ),
{
    lemma_representable_iff_no_nul_char(field_text(parameters, field));
}

/// The engine is called with the first entry of the gain mapping and with
/// nothing of the others: two jobs that differ only after the first entry
/// take the same step, and end alike for the same answer of the engine.
pub proof fn lemma_only_first_gain_is_passed(
    one: ParametersView,
    other: ParametersView,
    status: int,
    message: Seq<u8>,
)
    requires
        one.has_gain(),
        other.has_gain(),
        one.gain_mapping[0] == other.gain_mapping[0],
        one.source_path == other.source_path,
        one.destination_path == other.destination_path,
        one.element_id == other.element_id,
    ensures
        plan(one) == plan(other),
        job_outcome(one, status, message) == job_outcome(other, status, message),
{
}

} // verus!
