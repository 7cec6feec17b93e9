//! What a language model hands back for one turn.

pub mod error;
pub mod ollama;
pub mod tool_calls;

use vstd::prelude::*;
use crate::json::JsonValue;

verus! {

/// Token counts reported for a generation.
#[derive(Clone, Copy, Debug, PartialEq, Eq, Structural)]
pub struct TokenUsage {
    pub prompt_tokens: u32,
    pub completion_tokens: u32,
    pub total_tokens: u32,
}

impl Default for TokenUsage {
    fn default() -> (r: TokenUsage)
        ensures
            r.prompt_tokens == 0,
            r.completion_tokens == 0,
            r.total_tokens == 0,
    {
        TokenUsage { prompt_tokens: 0, completion_tokens: 0, total_tokens: 0 }
    }
}

/// A tool call requested by the model: the tool's name and the arguments to hand it.
#[derive(Debug)]
pub struct CallInfo {
    pub name: String,
    pub args: JsonValue,
}

/// The model's answer for one turn, with the tool calls found in it.
#[derive(Debug)]
pub struct GenerateResult {
    pub tokens: TokenUsage,
    pub generation: String,
    pub tool_calls: Vec<CallInfo>,
}

} // verus!
