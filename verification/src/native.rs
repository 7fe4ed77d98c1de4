//! The arguments of the native call.
//!
//! The engine's entry point takes four null-terminated texts, in this order:
//! source path, destination path, gain mapping, element id.

use vstd::prelude::*;
use vstd::utf8::encode_utf8;
use crate::c_string::{c_string, is_c_string, is_first_nul, representable, to_c_string};
use crate::parameters::{ParametersView, WorkerParameters};

verus! {

/// One of the four texts that are handed to the engine, in call order.
#[derive(Debug, Clone, Copy, PartialEq, Eq, Structural)]
pub enum Field {
    SourcePath,
    DestinationPath,
    GainMapping,
    ElementId,
}

/// A text that cannot be written as a null-terminated buffer.
#[derive(Debug, Clone, Copy, PartialEq, Eq, Structural)]
pub struct EncodingError {
    /// The text that holds a zero byte.
    pub field: Field,
    /// The position of its first zero byte, counted in bytes of its encoding.
    pub position: usize,
}

impl EncodingError {
    /// The reason that is reported for a job whose text for `field` holds a
    /// zero byte.
    pub open spec fn reason(field: Field) -> Seq<char> {
        match field {
            Field::SourcePath => "source_path contains a null byte"@,
            Field::DestinationPath => "destination_path contains a null byte"@,
            Field::GainMapping => "gain_mapping contains a null byte"@,
            Field::ElementId => "element_id contains a null byte"@,
        }
    }

    /// The reason that is reported for the job.
    pub fn message(&self) -> (text: String)
        ensures
            text@ == Self::reason(self.field),
    {
        match self.field {
            Field::SourcePath => "source_path contains a null byte".to_owned(),
            Field::DestinationPath => "destination_path contains a null byte".to_owned(),
            Field::GainMapping => "gain_mapping contains a null byte".to_owned(),
            Field::ElementId => "element_id contains a null byte".to_owned(),
        }
    }
}

/// The four buffers of one native call.
#[derive(Debug, Clone, PartialEq, Eq)]
pub struct NativeArguments {
    pub source_path: Vec<u8>,
    pub destination_path: Vec<u8>,
    pub gain_mapping: Vec<u8>,
    pub element_id: Vec<u8>,
}

/// The four buffers of one native call as byte sequences.
pub struct ArgumentsView {
    pub source_path: Seq<u8>,
    pub destination_path: Seq<u8>,
    pub gain_mapping: Seq<u8>,
    pub element_id: Seq<u8>,
}

impl View for NativeArguments {
    type V = ArgumentsView;

    open spec fn view(&self) -> ArgumentsView {
        ArgumentsView {
            source_path: self.source_path@,
            destination_path: self.destination_path@,
            gain_mapping: self.gain_mapping@,
            element_id: self.element_id@,
        }
    }
}

impl ArgumentsView {
    /// Each buffer ends in its only zero byte, so the engine reads each text
    /// whole and never past its end.
    pub open spec fn well_formed(self) -> bool {
        &&& is_c_string(self.source_path)
        &&& is_c_string(self.destination_path)
        &&& is_c_string(self.gain_mapping)
        &&& is_c_string(self.element_id)
    }
}

impl Field {
    /// The place of the text among the arguments of the call, from 0.
    pub open spec fn place(self) -> int {
        match self {
            Field::SourcePath => 0,
            Field::DestinationPath => 1,
            Field::GainMapping => 2,
            Field::ElementId => 3,
        }
    }
}

/// `earlier` stands before `later` in call order.
pub open spec fn precedes(earlier: Field, later: Field) -> bool {
    earlier.place() < later.place()
}

/// The text that `parameters` gives for `field`.
pub open spec fn field_text(parameters: ParametersView, field: Field) -> Seq<char> {
    match field {
        Field::SourcePath => parameters.source_path,
        Field::DestinationPath => parameters.destination_path,
        Field::GainMapping => parameters.gain(),
        Field::ElementId => parameters.element_id,
    }
}

/// The first text, in call order, that cannot be written as a null-terminated
/// buffer.
pub open spec fn first_offender(parameters: ParametersView) -> Option<Field> {
    if !representable(parameters.source_path) {
        Some(Field::SourcePath)
    } else if !representable(parameters.destination_path) {
        Some(Field::DestinationPath)
    } else if !representable(parameters.gain()) {
        Some(Field::GainMapping)
    } else if !representable(parameters.element_id) {
        Some(Field::ElementId)
    } else {
        None
    }
}

/// All four texts can be handed to the engine.
pub open spec fn well_formed(parameters: ParametersView) -> bool {
    &&& representable(parameters.source_path)
    &&& representable(parameters.destination_path)
    &&& representable(parameters.gain())
    &&& representable(parameters.element_id)
}

/// The buffers that the engine is called with for `parameters`.
pub open spec fn arguments_for(parameters: ParametersView) -> ArgumentsView {
    ArgumentsView {
        source_path: c_string(parameters.source_path),
        destination_path: c_string(parameters.destination_path),
        gain_mapping: c_string(parameters.gain()),
        element_id: c_string(parameters.element_id),
    }
}

/// Writes the buffers of the native call, or reports the first text, in call
/// order, that holds a zero byte.
pub fn marshal(parameters: &WorkerParameters) -> (r: Result<NativeArguments, EncodingError>)
    requires
        parameters@.has_gain(),
    ensures
        match r {
            Ok(arguments) => {
                &&& well_formed(parameters@)
                &&& arguments@ == arguments_for(parameters@)
                &&& arguments@.well_formed()
            },
            Err(error) => {
                &&& first_offender(parameters@) == Some(error.field)
                &&& is_first_nul(
                    encode_utf8(field_text(parameters@, error.field)),
                    error.position as int,
                )
            },
        },
{
    let source_path = match to_c_string(parameters.source_path.as_str()) {
        Ok(buffer) => buffer,
        Err(position) => {
            return Err(EncodingError { field: Field::SourcePath, position });
        },
    };
    let destination_path = match to_c_string(parameters.destination_path.as_str()) {
        Ok(buffer) => buffer,
        Err(position) => {
            return Err(EncodingError { field: Field::DestinationPath, position });
        },
    };
    let gain_mapping = match to_c_string(parameters.gain_mapping[0].as_str()) {
        Ok(buffer) => buffer,
        Err(position) => {
            return Err(EncodingError { field: Field::GainMapping, position });
        },
    };
    let element_id = match to_c_string(parameters.element_id.as_str()) {
        Ok(buffer) => buffer,
        Err(position) => {
            return Err(EncodingError { field: Field::ElementId, position });
        },
    };
    Ok(NativeArguments { source_path, destination_path, gain_mapping, element_id })
}

/// Some text is an offender exactly when the parameters are not well formed,
/// and the offender is then a text that holds a zero byte, with none before it
/// in call order.
pub proof fn lemma_first_offender(parameters: ParametersView)
    ensures
        first_offender(parameters) is None <==> well_formed(parameters),
        first_offender(parameters) matches Some(field) ==> {
            &&& !representable(field_text(parameters, field))
            &&& forall|earlier: Field|
                precedes(earlier, field) ==> representable(
                    #[trigger] field_text(parameters, earlier),
                )
        },
{
}

/// The buffers written for well-formed parameters are well formed.
pub proof fn lemma_arguments_well_formed(parameters: ParametersView)
    requires
        well_formed(parameters),
    ensures
        arguments_for(parameters).well_formed(),
{
}

} // verus!
