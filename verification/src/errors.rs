//! Error taxonomy of the service.
//!
//! Startup failures (`ModelLoadError`) are fatal: the process must not begin
//! serving. Per-request failures (`PredictError`) are recoverable: the caller
//! maps them to an error response without touching other requests.

use vstd::prelude::*;

verus! {

/// A reason the one-time model load failed. Any of these aborts startup.
#[derive(Clone, Copy, Debug, PartialEq, Eq, Structural)]
pub enum ModelLoadError {
    /// The architecture configuration document could not be parsed.
    MalformedConfig,
    /// The tokenizer definition document could not be parsed.
    MalformedTokenizer,
    /// The weight file is missing tensors or has shapes incompatible with the
    /// requested architecture.
    IncompatibleWeights,
}

/// A reason one request failed. Other in-flight requests are unaffected.
#[derive(Clone, Copy, Debug, PartialEq, Eq, Structural)]
pub enum PredictError {
    /// The input text could not be segmented into at least one token under
    /// the loaded vocabulary rules.
    Tokenization,
    /// The forward pass failed (shape mismatch, device or numeric failure).
    Inference,
}

impl ModelLoadError {
    /// A short human-readable description of the load failure.
    pub fn describe(&self) -> (r: &'static str)
        ensures
            *self is MalformedConfig ==> r@ == "malformed model configuration"@,
            *self is MalformedTokenizer ==> r@ == "malformed tokenizer definition"@,
            *self is IncompatibleWeights ==> r@ == "incompatible weight file"@,
    {
        match self {
            ModelLoadError::MalformedConfig => "malformed model configuration",
            ModelLoadError::MalformedTokenizer => "malformed tokenizer definition",
            ModelLoadError::IncompatibleWeights => "incompatible weight file",
        }
    }
}

impl PredictError {
    /// A short human-readable description of the request failure.
    pub fn describe(&self) -> (r: &'static str)
        ensures
            *self is Tokenization ==> r@ == "input text could not be tokenized"@,
            *self is Inference ==> r@ == "forward pass failed"@,
    {
        match self {
            PredictError::Tokenization => "input text could not be tokenized",
            PredictError::Inference => "forward pass failed",
        }
    }
}

} // verus!
