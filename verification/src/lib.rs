//! Adapter between a job-processing worker and the native ADM rendering engine.
//!
//! A job names a source audio file, an element to render, a gain mapping and a
//! destination path. The adapter turns those strings into null-terminated
//! buffers for the engine's entry point and turns the engine's status code and
//! message into the result that is reported for the job.

pub mod c_string;
pub mod job;
pub mod native;
pub mod parameters;
pub mod worker;

pub use job::{JobResult, JobStatus};
pub use native::{EncodingError, Field, NativeArguments};
pub use parameters::WorkerParameters;
pub use worker::{AdmEngineEvent, Step};
