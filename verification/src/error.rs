//! Errors of the OpenCog layer.

use vstd::prelude::*;

verus! {

/// What can go wrong in the OpenCog layer.
#[derive(Debug)]
pub enum OpenCogError {
    /// The global AtomSpace was set up twice.
    AtomSpaceAlreadyInitialized,
    /// The global AtomSpace was asked for before it was set up.
    AtomSpaceNotInitialized,
    /// The global inference engine was set up twice.
    InferenceEngineAlreadyInitialized,
    /// The global inference engine was asked for before it was set up.
    InferenceEngineNotInitialized,
    /// Evaluating a MeTTa expression failed with the given message.
    Evaluation { message: String },
}

/// The human-readable text of an error.
pub open spec fn error_text(e: OpenCogError) -> Seq<char> {
    match e {
        OpenCogError::AtomSpaceAlreadyInitialized => "AtomSpace already initialized"@,
        OpenCogError::AtomSpaceNotInitialized => "AtomSpace not initialized"@,
        OpenCogError::InferenceEngineAlreadyInitialized => "Inference engine already initialized"@,
        OpenCogError::InferenceEngineNotInitialized => "Inference engine not initialized"@,
        OpenCogError::Evaluation { message } => "Evaluation error: "@ + message@,
    }
}

impl OpenCogError {
    /// The human-readable text of this error.
    pub fn message(&self) -> (s: String)
        ensures
            s@ == error_text(*self),
    {
        match self {
            OpenCogError::AtomSpaceAlreadyInitialized => String::from_str(
                "AtomSpace already initialized",
            ),
            OpenCogError::AtomSpaceNotInitialized => String::from_str("AtomSpace not initialized"),
            OpenCogError::InferenceEngineAlreadyInitialized => String::from_str(
                "Inference engine already initialized",
            ),
            OpenCogError::InferenceEngineNotInitialized => String::from_str(
                "Inference engine not initialized",
            ),
            OpenCogError::Evaluation { message } => {
                let mut s = String::from_str("Evaluation error: ");
                s.append(message.as_str());
                s
            },
        }
    }
}

} // verus!
