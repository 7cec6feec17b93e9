//! The crate-wide error.

use vstd::prelude::*;
use crate::agent::error::AgentError;
use crate::config::ConfigError;
use crate::llm::error::LLMError;
use crate::tools::error::ToolError;

verus! {

/// An error of the HTTP client, carried through unchanged.
#[verifier::external_type_specification]
#[verifier::external_body]
pub struct ExHttpError(reqwest::Error);

#[derive(Debug)]
pub enum LangchainError {
    LLM(LLMError),
    Tool(ToolError),
    Agent(AgentError),
    Config(ConfigError),
    Http(reqwest::Error),
    Json(serde_json::Error),
}

} // verus!
