//! Failures of a language-model backend.

use vstd::prelude::*;

verus! {

/// An error of the ollama client, carried through unchanged.
#[verifier::external_type_specification]
#[verifier::external_body]
pub struct ExOllamaError(ollama_rs::error::OllamaError);

/// An error of serde_json, carried through unchanged.
#[verifier::external_type_specification]
#[verifier::external_body]
pub struct ExJsonError(serde_json::Error);

#[derive(Debug)]
pub enum LLMError {
    OllamaError(ollama_rs::error::OllamaError),
    RateLimitExceeded(String),
    StreamNotSupported,
    SerdeJsonError(serde_json::Error),
    InvalidResponse(String),
}

} // verus!
