//! The agent: its configuration, its prompts, and the decision loop it runs.

pub mod error;
pub mod run;
pub mod types;

use vstd::prelude::*;
use crate::message::{Message, MessageRole, MessageView, messages_view};
use crate::tools::registry::{RegisteredTool, ToolRegistry, registered};
use crate::tools::schema::{ToolSchema, schema_json};
use types::Agent;

verus! {

/// The bound on generation turns when none is given.
pub const DEFAULT_MAX_ITERATIONS: usize = 100;

/// The note that tells the model how to request tools and when to stop.
pub const TOOL_PROTOCOL_NOTE: &'static str = "I also provide some tools for you to choose from. If you want to call a tool, please include the following JSON format in your response: {\"tool_calls\":[{\"name\":\"tool_name\",\"args\":{\"param1\":\"value1\",\"param2\":\"value2\"}}]}\n\n            IMPORTANT: After you have completed the task by calling all necessary tools, you MUST return a final response WITHOUT any tool_calls. Simply provide a summary or confirmation message to indicate completion. Do NOT continue calling tools after the task is done.";

/// The system prompt, if any, then the tool-protocol note where there are tools.
pub open spec fn opening_messages(system_prompt: Option<Seq<char>>, has_tools: bool) -> Seq<MessageView> {
    let head: Seq<MessageView> = match system_prompt {
        Some(p) => seq![(MessageRole::System, p, None)],
        None => seq![],
    };
    if has_tools {
        head.push((MessageRole::Developer, TOOL_PROTOCOL_NOTE@, None))
    } else {
        head
    }
}

/// One system message per registered tool, holding its schema, in registry order.
pub open spec fn tool_messages<T>(tools: Seq<RegisteredTool<T>>) -> Seq<MessageView> {
    Seq::new(
        tools.len(),
        |i: int|
            (
                MessageRole::System,
                schema_json(tools[i].name@, tools[i].schema.description@, tools[i].schema.args@),
                None,
            ),
    )
}

pub open spec fn prompt_view(p: Option<String>) -> Option<Seq<char>> {
    match p {
        Some(s) => Some(s@),
        None => None,
    }
}

impl<T> Agent<T> {
    /// An agent with no tools and no system prompt; the bound defaults to 100 turns.
    pub fn new(name: String, max_iterations: Option<usize>) -> (r: Agent<T>)
        ensures
            r.wf(),
            r.name@ == name@,
            r.tools@ == Seq::<RegisteredTool<T>>::empty(),
            r.system_prompt is None,
            r.memory@.len() == 0,
            r.max_iterations == match max_iterations {
                Some(m) => m,
                None => DEFAULT_MAX_ITERATIONS,
            },
    {
        let max = match max_iterations {
            Some(m) => m,
            None => DEFAULT_MAX_ITERATIONS,
        };
        Agent {
            name,
            tools: ToolRegistry::new(),
            system_prompt: None,
            memory: Vec::new(),
            max_iterations: max,
        }
    }

    /// Stores `tool` under `name`, or under its schema's name; a tool already stored
    /// under that name is replaced.
    pub fn register_tool(&mut self, name: Option<&str>, schema: ToolSchema, tool: T) -> (r: &mut Agent<T>)
        requires
            old(self).wf(),
        ensures
            *final(self) == *final(r),
            r.wf(),
            registered(
                old(self).tools@,
                r.tools@,
                match name {
                    Some(n) => n@,
                    None => schema.name@,
                },
                schema,
                tool,
            ),
            r.name == old(self).name,
            r.system_prompt == old(self).system_prompt,
            r.memory == old(self).memory,
            r.max_iterations == old(self).max_iterations,
    {
        self.tools.register(name, schema, tool);
        self
    }

    pub fn change_max_iterations(&mut self, max_iterations: usize)
        ensures
            final(self).max_iterations == max_iterations,
            final(self).name == old(self).name,
            final(self).tools == old(self).tools,
            final(self).system_prompt == old(self).system_prompt,
            final(self).memory == old(self).memory,
    {
        self.max_iterations = max_iterations;
    }

    /// The tool registered under `name`.
    pub fn get_tool(&self, name: &str) -> (r: Option<&T>)
        requires
            self.wf(),
        ensures
            match crate::tools::registry::tool_index(self.tools@, name@) {
                Some(i) => r == Some(&self.tools@[i].tool),
                None => r is None,
            },
    {
        match self.tools.get(name) {
            Some(e) => Some(&e.tool),
            None => None,
        }
    }

    pub fn set_system_prompt(&mut self, prompt: String)
        ensures
            final(self).system_prompt matches Some(p) && p@ == prompt@,
            final(self).name == old(self).name,
            final(self).tools == old(self).tools,
            final(self).memory == old(self).memory,
            final(self).max_iterations == old(self).max_iterations,
    {
        self.system_prompt = Some(prompt);
    }

    /// The system prompt, then, where tools are registered, the tool-protocol note.
    pub fn generate_system_prompt(&self) -> (r: Vec<Message>)
        ensures
            messages_view(r@) == opening_messages(prompt_view(self.system_prompt), self.tools@.len() > 0),
    {
        let mut msgs: Vec<Message> = Vec::new();
        match &self.system_prompt {
            Some(p) => {
                msgs.push(Message::system(p.clone()));
            },
            None => {},
        }
        if !self.tools.is_empty() {
            msgs.push(Message::developer(String::from_str(TOOL_PROTOCOL_NOTE)));
        }
        assert(messages_view(msgs@) =~= opening_messages(
            prompt_view(self.system_prompt),
            self.tools@.len() > 0,
        ));
        msgs
    }

    /// One system message per registered tool, holding its schema as JSON.
    pub fn generate_tools_prompt(&self) -> (r: Vec<Message>)
        ensures
            messages_view(r@) == tool_messages(self.tools@),
    {
        let schemas = self.tools.describe_all();
        let mut msgs: Vec<Message> = Vec::new();
        let mut i: usize = 0;
        while i < schemas.len()
            invariant
                i <= schemas@.len(),
                schemas@.len() == self.tools@.len(),
                forall|j: int|
                    0 <= j < schemas@.len() ==> (#[trigger] schemas@[j])@ == schema_json(
                        self.tools@[j].name@,
                        self.tools@[j].schema.description@,
                        self.tools@[j].schema.args@,
                    ),
                messages_view(msgs@) =~= tool_messages(self.tools@).take(i as int),
            decreases schemas@.len() - i,
        {
            let ghost prev = msgs@;
            let m = Message::system(schemas[i].clone());
            assert(m@ == tool_messages(self.tools@)[i as int]) by {
                assert(schemas@[i as int]@ == schema_json(
                    self.tools@[i as int].name@,
                    self.tools@[i as int].schema.description@,
                    self.tools@[i as int].schema.args@,
                ));
            }
            msgs.push(m);
            assert(msgs@ == prev.push(m));
            assert(messages_view(msgs@) =~= messages_view(prev).push(m@));
            assert(messages_view(msgs@) =~= tool_messages(self.tools@).take(i + 1));
            i = i + 1;
        }
        assert(tool_messages(self.tools@).take(i as int) =~= tool_messages(self.tools@));
        msgs
    }
}

} // verus!
