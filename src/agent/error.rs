//! Why a run of the agent failed.

use vstd::prelude::*;
use crate::llm::error::LLMError;
use crate::tools::error::ToolError;

verus! {

#[derive(Debug)]
pub enum AgentError {
    /// The model asked for a tool that is not registered.
    ToolNotFound(String),
    /// A tool ran and failed.
    ToolExecutionError(ToolError),
    /// The model backend failed.
    LLMExecutionError(LLMError),
    /// The bound on generation turns was reached; it carries that bound.
    MaxIterationsExceeded(usize),
}

} // verus!
