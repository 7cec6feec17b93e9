//! One run of the agent's decision loop, as a state machine.
//!
//! The agent decides; its caller does the outside work. `Agent::start` builds the
//! opening conversation and says what to do first. After each action the caller
//! reports what came of it: `on_generation` with the model's answer, `on_tool_result`
//! with the tool's output. A run ends with `Finished` or `Failed`.

use vstd::prelude::*;
use crate::agent::error::AgentError;
use crate::agent::types::{Agent, AgentResult};
use crate::agent::{opening_messages, prompt_view, tool_messages};
use crate::llm::error::LLMError;
use crate::llm::{CallInfo, GenerateResult, TokenUsage};
use crate::message::{Message, MessageRole, MessageView, messages_view};
use crate::tools::error::ToolError;
use crate::tools::registry::{RegisteredTool, tool_index};

verus! {

/// The state of a run: the conversation so far, the tokens spent, the generation turns
/// taken, the calls of the current turn not yet made, and the tool last invoked.
pub struct RunState {
    pub messages: Seq<MessageView>,
    pub tokens: TokenUsage,
    pub iterations: nat,
    pub pending: Seq<CallInfo>,
    pub current: Option<Seq<char>>,
}

/// What the caller is to do next, in the terms of the model.
pub enum Step {
    Generate,
    Invoke(CallInfo),
    Finished(TokenUsage, Seq<char>),
    NotFound(Seq<char>),
    ToolFailed(ToolError),
    LlmFailed(LLMError),
    Exceeded(nat),
}

pub open spec fn add_usage(a: TokenUsage, b: TokenUsage) -> TokenUsage {
    TokenUsage {
        prompt_tokens: (a.prompt_tokens + b.prompt_tokens) as u32,
        completion_tokens: (a.completion_tokens + b.completion_tokens) as u32,
        total_tokens: (a.total_tokens + b.total_tokens) as u32,
    }
}

/// Adding `b` to `a` overflows no count.
pub open spec fn usage_fits(a: TokenUsage, b: TokenUsage) -> bool {
    &&& a.prompt_tokens + b.prompt_tokens <= u32::MAX
    &&& a.completion_tokens + b.completion_tokens <= u32::MAX
    &&& a.total_tokens + b.total_tokens <= u32::MAX
}

/// The text of the message that reports a tool's output.
pub open spec fn tool_result_text(name: Seq<char>, out: Seq<char>) -> Seq<char> {
    "Tool "@ + name + " returned: "@ + out
}

/// The conversation a run opens with: system prompt, tool-protocol note, one message
/// per tool, then the user's prompt.
pub open spec fn initial_state<T>(agent: Agent<T>, prompt: Seq<char>) -> RunState {
    RunState {
        messages: opening_messages(prompt_view(agent.system_prompt), agent.tools@.len() > 0)
            + tool_messages(agent.tools@) + seq![(MessageRole::User, prompt, None)],
        tokens: TokenUsage { prompt_tokens: 0, completion_tokens: 0, total_tokens: 0 },
        iterations: 0,
        pending: seq![],
        current: None,
    }
}

/// Takes the next pending call: invoke it if its tool is registered, else fail. With
/// none pending, generate again while turns remain, else fail with the bound.
pub open spec fn dispatch<T>(tools: Seq<RegisteredTool<T>>, max: nat, s: RunState) -> (RunState, Step) {
    if s.pending.len() > 0 {
        let c = s.pending[0];
        if tool_index(tools, c.name@) is Some {
            (RunState { pending: s.pending.drop_first(), current: Some(c.name@), ..s }, Step::Invoke(c))
        } else {
            (RunState { pending: s.pending.drop_first(), ..s }, Step::NotFound(c.name@))
        }
    } else if s.iterations < max {
        (s, Step::Generate)
    } else {
        (s, Step::Exceeded(max))
    }
}

/// The model answered: count its tokens and the turn. An answer without tool calls
/// ends the run; otherwise it joins the conversation and its calls are made in order.
pub open spec fn after_generation<T>(tools: Seq<RegisteredTool<T>>, max: nat, s: RunState, g: GenerateResult) -> (RunState, Step) {
    if s.iterations >= max {
        (s, Step::Exceeded(max))
    } else {
        let s1 = RunState { tokens: add_usage(s.tokens, g.tokens), iterations: s.iterations + 1, ..s };
        if g.tool_calls@.len() == 0 {
            (s1, Step::Finished(s1.tokens, g.generation@))
        } else {
            dispatch(
                tools,
                max,
                RunState {
                    messages: s1.messages.push((MessageRole::Assistant, g.generation@, None)),
                    pending: g.tool_calls@,
                    ..s1
                },
            )
        }
    }
}

/// The tool last invoked returned `out`: report it to the model and go on; or it failed,
/// which ends the run.
pub open spec fn after_tool<T>(tools: Seq<RegisteredTool<T>>, max: nat, s: RunState, out: Result<Seq<char>, ToolError>) -> (RunState, Step) {
    match out {
        Ok(o) => {
            let n = s.current->0;
            dispatch(
                tools,
                max,
                RunState {
                    messages: s.messages.push((MessageRole::ToolResponce, tool_result_text(n, o), Some(n))),
                    ..s
                },
            )
        },
        Err(e) => (s, Step::ToolFailed(e)),
    }
}

/// A step after which the run goes on no further.
pub open spec fn is_final(a: Step) -> bool {
    a !is Generate && a !is Invoke
}

/// Every call of the turn names a registered tool, and there is at least one.
pub open spec fn requests_known_tools<T>(tools: Seq<RegisteredTool<T>>, g: GenerateResult) -> bool {
    &&& g.tool_calls@.len() > 0
    &&& forall|j: int| 0 <= j < g.tool_calls@.len() ==> tool_index(tools, (#[trigger] g.tool_calls@[j]).name@) is Some
}

/// Reports the output of each tool invoked, `out` of the run's state at that point, until
/// the run asks for something else.
pub open spec fn finish_turn<T>(tools: Seq<RegisteredTool<T>>, max: nat, s: RunState, a: Step, out: spec_fn(RunState) -> Seq<char>) -> (RunState, Step)
    decreases s.pending.len(),
{
    if a is Invoke {
        let (s2, a2) = after_tool(tools, max, s, Ok(out(s)));
        if s2.pending.len() < s.pending.len() {
            finish_turn(tools, max, s2, a2, out)
        } else {
            (s2, a2)
        }
    } else {
        (s, a)
    }
}

/// Plays a run against a model that answers with `gens` in turn and tools that succeed,
/// each with the output `out` gives for the run's state; the last component counts the
/// generation calls made.
pub open spec fn play<T>(tools: Seq<RegisteredTool<T>>, max: nat, s: RunState, a: Step, gens: Seq<GenerateResult>, out: spec_fn(RunState) -> Seq<char>) -> (RunState, Step, nat)
    decreases gens.len(),
{
    if a is Generate && gens.len() > 0 {
        let (s1, a1) = after_generation(tools, max, s, gens[0]);
        let (s2, a2) = finish_turn(tools, max, s1, a1, out);
        let (s3, a3, k) = play(tools, max, s2, a2, gens.drop_first(), out);
        (s3, a3, k + 1)
    } else {
        (s, a, 0)
    }
}

/// With no tools registered, a run makes exactly one generation call: it ends right
/// after the model's first answer, and succeeds exactly when that answer requests no tool.
pub proof fn lemma_no_tools_one_generation<T>(agent: Agent<T>, prompt: Seq<char>, g: GenerateResult)
    requires
        agent.wf(),
        agent.tools@.len() == 0,
        agent.max_iterations > 0,
    ensures
        ({
            let max = agent.max_iterations as nat;
            let (s0, a0) = dispatch(agent.tools@, max, initial_state(agent, prompt));
            let (s1, a1) = after_generation(agent.tools@, max, s0, g);
            &&& a0 == Step::Generate
            &&& is_final(a1)
            &&& (a1 is Finished <==> g.tool_calls@.len() == 0)
        }),
{
}

/// A turn whose first call names an unregistered tool fails with that name right after
/// the first generation call, before any tool is invoked.
pub proof fn lemma_unknown_tool_fails<T>(agent: Agent<T>, prompt: Seq<char>, g: GenerateResult)
    requires
        agent.wf(),
        agent.max_iterations > 0,
        g.tool_calls@.len() > 0,
        tool_index(agent.tools@, g.tool_calls@[0].name@) is None,
    ensures
        ({
            let max = agent.max_iterations as nat;
            let (s0, a0) = dispatch(agent.tools@, max, initial_state(agent, prompt));
            let (s1, a1) = after_generation(agent.tools@, max, s0, g);
            &&& a0 == Step::Generate
            &&& a1 == Step::NotFound(g.tool_calls@[0].name@)
        }),
{
}

proof fn lemma_drain_known_calls<T>(tools: Seq<RegisteredTool<T>>, max: nat, s: RunState, a: Step, out: spec_fn(RunState) -> Seq<char>)
    requires
        a is Invoke,
        forall|j: int| 0 <= j < s.pending.len() ==> tool_index(tools, (#[trigger] s.pending[j]).name@) is Some,
    ensures
        ({
            let (s2, a2) = finish_turn(tools, max, s, a, out);
            &&& s2.pending.len() == 0
            &&& s2.iterations == s.iterations
            &&& a2 == if s.iterations < max { Step::Generate } else { Step::Exceeded(max) }
        }),
    decreases s.pending.len(),
{
    let (s2, a2) = after_tool(tools, max, s, Ok(out(s)));
    if s.pending.len() > 0 {
        assert(tool_index(tools, s.pending[0].name@) is Some);
        assert forall|j: int| 0 <= j < s2.pending.len() implies tool_index(tools, (#[trigger] s2.pending[j]).name@) is Some by {
            assert(s2.pending[j] == s.pending[j + 1]);
        }
        lemma_drain_known_calls(tools, max, s2, a2, out);
    }
}

proof fn lemma_known_turn<T>(tools: Seq<RegisteredTool<T>>, max: nat, s: RunState, g: GenerateResult, out: spec_fn(RunState) -> Seq<char>)
    requires
        s.pending.len() == 0,
        s.iterations < max,
        requests_known_tools(tools, g),
    ensures
        ({
            let (s1, a1) = after_generation(tools, max, s, g);
            let (s2, a2) = finish_turn(tools, max, s1, a1, out);
            &&& s2.pending.len() == 0
            &&& s2.iterations == s.iterations + 1
            &&& a2 == if s.iterations + 1 < max { Step::Generate } else { Step::Exceeded(max) }
        }),
{
    let (s1, a1) = after_generation(tools, max, s, g);
    assert(tool_index(tools, g.tool_calls@[0].name@) is Some);
    assert forall|j: int| 0 <= j < s1.pending.len() implies tool_index(tools, (#[trigger] s1.pending[j]).name@) is Some by {
        assert(s1.pending[j] == g.tool_calls@[j + 1]);
    }
    lemma_drain_known_calls(tools, max, s1, a1, out);
}

proof fn lemma_play_known_tools<T>(tools: Seq<RegisteredTool<T>>, max: nat, s: RunState, a: Step, gens: Seq<GenerateResult>, out: spec_fn(RunState) -> Seq<char>)
    requires
        s.pending.len() == 0,
        s.iterations <= max,
        a == if s.iterations < max { Step::Generate } else { Step::Exceeded(max) },
        gens.len() >= max - s.iterations,
        forall|i: int| 0 <= i < gens.len() ==> requests_known_tools(tools, #[trigger] gens[i]),
    ensures
        play(tools, max, s, a, gens, out).1 == Step::Exceeded(max),
        play(tools, max, s, a, gens, out).2 == max - s.iterations,
    decreases gens.len(),
{
    if s.iterations < max {
        assert(requests_known_tools(tools, gens[0]));
        lemma_known_turn(tools, max, s, gens[0], out);
        let (s1, a1) = after_generation(tools, max, s, gens[0]);
        let (s2, a2) = finish_turn(tools, max, s1, a1, out);
        assert forall|i: int| 0 <= i < gens.drop_first().len() implies requests_known_tools(tools, #[trigger] gens.drop_first()[i]) by {
            assert(gens.drop_first()[i] == gens[i + 1]);
        }
        lemma_play_known_tools(tools, max, s2, a2, gens.drop_first(), out);
    }
}

/// With a bound of N turns, a model that requests registered tools on every turn and
/// tools that always succeed, whatever their outputs, a run makes exactly N generation
/// calls and then fails with the bound N.
pub proof fn lemma_iteration_bound<T>(agent: Agent<T>, prompt: Seq<char>, gens: Seq<GenerateResult>, out: spec_fn(RunState) -> Seq<char>)
    requires
        agent.wf(),
        gens.len() >= agent.max_iterations,
        forall|i: int| 0 <= i < gens.len() ==> requests_known_tools(agent.tools@, #[trigger] gens[i]),
    ensures
        ({
            let max = agent.max_iterations as nat;
            let (s0, a0) = dispatch(agent.tools@, max, initial_state(agent, prompt));
            let (s, a, k) = play(agent.tools@, max, s0, a0, gens, out);
            a == Step::Exceeded(max) && k == max
        }),
{
    let max = agent.max_iterations as nat;
    let (s0, a0) = dispatch(agent.tools@, max, initial_state(agent, prompt));
    lemma_play_known_tools(agent.tools@, max, s0, a0, gens, out);
}

/// What to do next in a run.
pub enum AgentAction {
    /// Ask the model for its next turn, on the run's messages.
    Generate,
    /// Run this call's tool on its arguments.
    InvokeTool(CallInfo),
    Finished(AgentResult),
    Failed(AgentError),
}

impl View for AgentAction {
    type V = Step;

    open spec fn view(&self) -> Step {
        match self {
            AgentAction::Generate => Step::Generate,
            AgentAction::InvokeTool(c) => Step::Invoke(*c),
            AgentAction::Finished(r) => Step::Finished(r.tokens, r.generation@),
            AgentAction::Failed(AgentError::ToolNotFound(n)) => Step::NotFound(n@),
            AgentAction::Failed(AgentError::ToolExecutionError(e)) => Step::ToolFailed(*e),
            AgentAction::Failed(AgentError::LLMExecutionError(e)) => Step::LlmFailed(*e),
            AgentAction::Failed(AgentError::MaxIterationsExceeded(m)) => Step::Exceeded(*m as nat),
        }
    }
}

/// A run in progress.
pub struct AgentRun {
    messages: Vec<Message>,
    tokens: TokenUsage,
    iterations: usize,
    pending: Vec<CallInfo>,
    current: Option<String>,
}

impl View for AgentRun {
    type V = RunState;

    closed spec fn view(&self) -> RunState {
        RunState {
            messages: messages_view(self.messages@),
            tokens: self.tokens,
            iterations: self.iterations as nat,
            pending: self.pending@,
            current: prompt_view(self.current),
        }
    }
}

impl<T> Agent<T> {
    /// Opens a run on `prompt` and says what to do first.
    pub fn start(&self, prompt: &str) -> (r: (AgentRun, AgentAction))
        requires
            self.wf(),
        ensures
            (r.0@, r.1@) == dispatch(self.tools@, self.max_iterations as nat, initial_state(*self, prompt@)),
    {
        let mut msgs = self.generate_system_prompt();
        let mut tool_msgs = self.generate_tools_prompt();
        msgs.append(&mut tool_msgs);
        msgs.push(Message::user(String::from_str(prompt)));
        let mut run = AgentRun {
            messages: msgs,
            tokens: TokenUsage::default(),
            iterations: 0,
            pending: Vec::new(),
            current: None,
        };
        assert(run@.messages =~= initial_state(*self, prompt@).messages);
        let a = run.dispatch_next(self);
        (run, a)
    }
}

impl AgentRun {
    /// The conversation so far: what the model is to be given.
    pub fn messages(&self) -> (r: &Vec<Message>)
        ensures
            messages_view(r@) == self@.messages,
    {
        &self.messages
    }

    /// The tokens spent so far.
    pub fn tokens(&self) -> (r: TokenUsage)
        ensures
            r == self@.tokens,
    {
        self.tokens
    }

    /// The generation turns taken so far.
    pub fn iterations(&self) -> (r: usize)
        ensures
            r == self@.iterations,
    {
        self.iterations
    }

    /// Whether counting `usage` into this run overflows no count.
    pub fn can_absorb(&self, usage: &TokenUsage) -> (r: bool)
        ensures
            r == usage_fits(self@.tokens, *usage),
    {
        self.tokens.prompt_tokens <= u32::MAX - usage.prompt_tokens
            && self.tokens.completion_tokens <= u32::MAX - usage.completion_tokens
            && self.tokens.total_tokens <= u32::MAX - usage.total_tokens
    }

    /// Whether a tool has been invoked, so that its result can be reported.
    pub fn awaits_tool(&self) -> (r: bool)
        ensures
            r == self@.current is Some,
    {
        self.current.is_some()
    }

    fn dispatch_next<T>(&mut self, agent: &Agent<T>) -> (r: AgentAction)
        requires
            agent.wf(),
        ensures
            (final(self)@, r@) == dispatch(agent.tools@, agent.max_iterations as nat, old(self)@),
    {
        if self.pending.len() > 0 {
            let c = self.pending.remove(0);
            assert(self.pending@ =~= old(self)@.pending.drop_first());
            match agent.tools.position(c.name.as_str()) {
                Some(_) => {
                    self.current = Some(c.name.clone());
                    AgentAction::InvokeTool(c)
                },
                None => AgentAction::Failed(AgentError::ToolNotFound(c.name)),
            }
        } else if self.iterations < agent.max_iterations {
            AgentAction::Generate
        } else {
            AgentAction::Failed(AgentError::MaxIterationsExceeded(agent.max_iterations))
        }
    }

    /// Takes the model's answer, or its failure, for the turn that was asked for.
    pub fn on_generation<T>(&mut self, agent: &Agent<T>, res: Result<GenerateResult, LLMError>) -> (r: AgentAction)
        requires
            agent.wf(),
            res matches Ok(g) ==> usage_fits(old(self)@.tokens, g.tokens),
        ensures
            match res {
                Ok(g) => (final(self)@, r@) == after_generation(
                    agent.tools@,
                    agent.max_iterations as nat,
                    old(self)@,
                    g,
                ),
                Err(e) => final(self)@ == old(self)@ && r@ == Step::LlmFailed(e),
            },
    {
        let g = match res {
            Ok(g) => g,
            Err(e) => {
                return AgentAction::Failed(AgentError::LLMExecutionError(e));
            },
        };
        if self.iterations >= agent.max_iterations {
            return AgentAction::Failed(AgentError::MaxIterationsExceeded(agent.max_iterations));
        }
        self.tokens = TokenUsage {
            prompt_tokens: self.tokens.prompt_tokens + g.tokens.prompt_tokens,
            completion_tokens: self.tokens.completion_tokens + g.tokens.completion_tokens,
            total_tokens: self.tokens.total_tokens + g.tokens.total_tokens,
        };
        self.iterations = self.iterations + 1;
        if g.tool_calls.len() == 0 {
            return AgentAction::Finished(AgentResult { tokens: self.tokens, generation: g.generation });
        }
        let ghost prev = self.messages@;
        let m = Message::assistant(g.generation);
        self.messages.push(m);
        assert(messages_view(self.messages@) =~= messages_view(prev).push(m@));
        self.pending = g.tool_calls;
        self.dispatch_next(agent)
    }

    /// Takes the output, or the failure, of the tool last invoked.
    pub fn on_tool_result<T>(&mut self, agent: &Agent<T>, out: Result<String, ToolError>) -> (r: AgentAction)
        requires
            agent.wf(),
            old(self)@.current is Some,
        ensures
            (final(self)@, r@) == after_tool(
                agent.tools@,
                agent.max_iterations as nat,
                old(self)@,
                match out {
                    Ok(o) => Ok(o@),
                    Err(e) => Err(e),
                },
            ),
    {
        let o = match out {
            Ok(o) => o,
            Err(e) => {
                return AgentAction::Failed(AgentError::ToolExecutionError(e));
            },
        };
        let name = match &self.current {
            Some(n) => n.clone(),
            None => String::new(),
        };
        let mut text = String::from_str("Tool ");
        text.append(name.as_str());
        text.append(" returned: ");
        text.append(o.as_str());
        let ghost prev = self.messages@;
        let m = Message::tool_res(name, text);
        self.messages.push(m);
        assert(messages_view(self.messages@) =~= messages_view(prev).push(m@));
        self.dispatch_next(agent)
    }
}

} // verus!
