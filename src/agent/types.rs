//! The agent and what a successful run returns.

use vstd::prelude::*;
use crate::llm::TokenUsage;
use crate::tools::registry::ToolRegistry;

verus! {

/// An agent: a name, the tools it may call, an optional system prompt, and the bound
/// on generation turns per run. `T` is the handle by which a tool is run.
pub struct Agent<T> {
    pub name: String,
    pub tools: ToolRegistry<T>,
    pub system_prompt: Option<String>,
    pub memory: Vec<String>,
    pub max_iterations: usize,
}

impl<T> Agent<T> {
    pub open spec fn wf(&self) -> bool {
        self.tools.wf()
    }
}

/// The final answer of a run and the tokens spent on all its turns.
#[derive(Debug)]
pub struct AgentResult {
    pub tokens: TokenUsage,
    pub generation: String,
}

impl Default for AgentResult {
    fn default() -> (r: AgentResult)
        ensures
            r.tokens == (TokenUsage { prompt_tokens: 0, completion_tokens: 0, total_tokens: 0 }),
            r.generation@ == Seq::<char>::empty(),
    {
        AgentResult { tokens: TokenUsage::default(), generation: String::new() }
    }
}

} // verus!
