//! The failures that the binding reports to its caller.

use vstd::prelude::*;

verus! {

/// Why an operation of the binding failed.
#[derive(Debug, Clone, Copy, PartialEq, Eq, Structural)]
pub enum Error {
    /// Text that has to cross the boundary as a NUL-terminated string holds a NUL byte.
    InvalidInput,
    /// The engine refused to initialize and gave this status code.
    InitializationFailed(i32),
    /// The engine could not load the model and gave this status code.
    ModelLoadFailed(i32),
    /// The engine reported a failed query, or reported success and handed over no buffer.
    QueryFailed,
    /// The text that the engine handed over is not UTF-8.
    InvalidEncoding,
    /// The engine could not synthesize and gave this status code.
    SynthesisFailed(i32),
    /// The engine reported success and produced no audio.
    EmptyOutput,
}

impl Error {
    /// The status code that the engine gave, for the failures that carry one.
    pub open spec fn spec_status_code(self) -> Option<i32> {
        match self {
            Error::InitializationFailed(code) => Some(code),
            Error::ModelLoadFailed(code) => Some(code),
            Error::SynthesisFailed(code) => Some(code),
            _ => None,
        }
    }

    /// The status code that the engine gave, for the failures that carry one.
    #[verifier::when_used_as_spec(spec_status_code)]
    pub fn status_code(self) -> (code: Option<i32>)
        ensures
            code == self.spec_status_code(),
    {
        match self {
            Error::InitializationFailed(code) => Some(code),
            Error::ModelLoadFailed(code) => Some(code),
            Error::SynthesisFailed(code) => Some(code),
            _ => None,
        }
    }
}

} // verus!
