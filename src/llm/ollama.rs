//! What the ollama backend computes around its chat call: the roles it sends and the
//! result it builds from the reply.

use vstd::prelude::*;
use crate::llm::tool_calls::{calls_agree, extract_tool_calls, extracted_calls};
use crate::llm::{GenerateResult, TokenUsage};
use crate::message::MessageRole;

verus! {

/// The model used when none is chosen.
pub const DEFAULT_MODEL: &'static str = "llama3.2";

/// The roles the ollama chat endpoint knows.
#[derive(Clone, Copy, Debug, PartialEq, Eq, Structural)]
pub enum ChatRole {
    System,
    User,
    Assistant,
    Tool,
}

pub open spec fn chat_role_of(role: MessageRole) -> ChatRole {
    match role {
        MessageRole::System => ChatRole::System,
        MessageRole::User => ChatRole::User,
        MessageRole::Assistant => ChatRole::Assistant,
        MessageRole::ToolResponce => ChatRole::Tool,
        MessageRole::Tool | MessageRole::Developer => ChatRole::System,
    }
}

/// The chat role a message is sent with; roles the endpoint lacks become `System`.
pub fn chat_role(role: MessageRole) -> (r: ChatRole)
    ensures
        r == chat_role_of(role),
{
    match role {
        MessageRole::System => ChatRole::System,
        MessageRole::User => ChatRole::User,
        MessageRole::Assistant => ChatRole::Assistant,
        MessageRole::ToolResponce => ChatRole::Tool,
        MessageRole::Tool | MessageRole::Developer => ChatRole::System,
    }
}

/// The counts reported for a reply, each cut to 32 bits as the backend does; zero where
/// none were reported.
pub open spec fn usage_of(counts: Option<(u64, u64)>) -> TokenUsage {
    match counts {
        Some((p, c)) => TokenUsage {
            prompt_tokens: p as u32,
            completion_tokens: c as u32,
            total_tokens: ((p as u32) + (c as u32)) as u32,
        },
        None => TokenUsage { prompt_tokens: 0, completion_tokens: 0, total_tokens: 0 },
    }
}

/// The total of the reported counts fits in 32 bits.
pub open spec fn counts_fit(counts: Option<(u64, u64)>) -> bool {
    counts matches Some((p, c)) ==> (p as u32) + (c as u32) <= u32::MAX
}

/// The result of one chat reply: its text, its token counts (prompt evaluation and
/// generation, where reported), and the tool calls its text requests.
pub fn generation_result(content: String, counts: Option<(u64, u64)>) -> (r: GenerateResult)
    requires
        counts_fit(counts),
    ensures
        r.generation@ == content@,
        r.tokens == usage_of(counts),
        calls_agree(r.tool_calls@, extracted_calls(content@)),
{
    let tokens = match counts {
        Some((p, c)) => {
            let prompt_tokens = p as u32;
            let completion_tokens = c as u32;
            TokenUsage { prompt_tokens, completion_tokens, total_tokens: prompt_tokens + completion_tokens }
        },
        None => TokenUsage::default(),
    };
    let tool_calls = extract_tool_calls(content.as_str());
    GenerateResult { tokens, generation: content, tool_calls }
}

} // verus!
