//! The parameters of one job.

use vstd::prelude::*;

verus! {

/// What a job asks for: which element of which source file to render, with
/// which gains, and where to write the result.
#[derive(Debug, Clone)]
pub struct WorkerParameters {
    /// The element to render.
    pub element_id: String,
    /// The gains to apply. The engine's entry point takes a single gain
    /// mapping, so only the first entry reaches it.
    pub gain_mapping: Vec<String>,
    /// Where the rendered audio is written.
    pub destination_path: String,
    /// The audio file to read.
    pub source_path: String,
}

/// The parameters of a job as plain text.
pub struct ParametersView {
    pub element_id: Seq<char>,
    pub gain_mapping: Seq<Seq<char>>,
    pub destination_path: Seq<char>,
    pub source_path: Seq<char>,
}

impl View for WorkerParameters {
    type V = ParametersView;

    open spec fn view(&self) -> ParametersView {
        ParametersView {
            element_id: self.element_id@,
            gain_mapping: Seq::new(self.gain_mapping@.len(), |i: int| self.gain_mapping@[i]@),
            destination_path: self.destination_path@,
            source_path: self.source_path@,
        }
    }
}

impl ParametersView {
    /// There is a gain mapping to hand to the engine.
    pub open spec fn has_gain(self) -> bool {
        self.gain_mapping.len() > 0
    }

    /// The gain mapping that is handed to the engine: the first entry.
    pub open spec fn gain(self) -> Seq<char>
        recommends
            self.has_gain(),
    {
        self.gain_mapping[0]
    }
}

} // verus!
