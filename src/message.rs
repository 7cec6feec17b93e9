//! Conversational turns.

use vstd::prelude::*;

verus! {

/// Who authored a turn of the conversation.
#[derive(Clone, Copy, Debug, PartialEq, Eq, Structural)]
pub enum MessageRole {
    System,
    User,
    Assistant,
    ToolResponce,
    Tool,
    Developer,
}

/// One turn of a conversation: a role, its text, and the tool name for tool turns.
#[derive(Clone, Debug)]
pub struct Message {
    pub role: MessageRole,
    pub content: String,
    pub name: Option<String>,
}

/// A message as the role, the text and the optional name it holds.
pub type MessageView = (MessageRole, Seq<char>, Option<Seq<char>>);

impl View for Message {
    type V = MessageView;

    open spec fn view(&self) -> MessageView {
        (
            self.role,
            self.content@,
            match self.name {
                Some(n) => Some(n@),
                None => None,
            },
        )
    }
}

pub open spec fn messages_view(ms: Seq<Message>) -> Seq<MessageView> {
    ms.map_values(|m: Message| m@)
}

impl Message {
    pub fn system(content: String) -> (r: Message)
        ensures
            r.role == MessageRole::System,
            r.content@ == content@,
            r.name.is_none(),
    {
        Message { role: MessageRole::System, content, name: None }
    }

    pub fn user(content: String) -> (r: Message)
        ensures
            r.role == MessageRole::User,
            r.content@ == content@,
            r.name.is_none(),
    {
        Message { role: MessageRole::User, content, name: None }
    }

    pub fn assistant(content: String) -> (r: Message)
        ensures
            r.role == MessageRole::Assistant,
            r.content@ == content@,
            r.name.is_none(),
    {
        Message { role: MessageRole::Assistant, content, name: None }
    }

    pub fn tool(name: String, content: String) -> (r: Message)
        ensures
            r.role == MessageRole::Tool,
            r.content@ == content@,
            r.name matches Some(n) && n@ == name@,
    {
        Message { role: MessageRole::Tool, content, name: Some(name) }
    }

    /// A tool's result, fed back to the model under the tool's name.
    pub fn tool_res(name: String, content: String) -> (r: Message)
        ensures
            r.role == MessageRole::ToolResponce,
            r.content@ == content@,
            r.name matches Some(n) && n@ == name@,
    {
        Message { role: MessageRole::ToolResponce, content, name: Some(name) }
    }

    pub fn developer(content: String) -> (r: Message)
        ensures
            r.role == MessageRole::Developer,
            r.content@ == content@,
            r.name.is_none(),
    {
        Message { role: MessageRole::Developer, content, name: None }
    }
}

} // verus!
