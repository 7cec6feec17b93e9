//! Failures of a tool invocation.

use vstd::prelude::*;
use crate::llm::error::LLMError;

verus! {

#[derive(Debug)]
pub enum ToolError {
    ToolNotFound(String),
    ExecutionError { name: String, reason: String },
    LLMError(LLMError),
    ParamsNotMatched(String),
    Unknown,
}

} // verus!
