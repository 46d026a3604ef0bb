//! Execution chains: the messages that agents produce for one another, the
//! context that holds them, and the runtime that schedules the agents and
//! runs the actions they decide.

use vstd::prelude::*;

use crate::models::{ChatInput, ChatInputView, ModelResponse, Usage};
use crate::tools::invocation::Error as InvocationError;
use crate::tools::toolbox::InvokeResult;
use crate::tools::{TerminationMessage, ToolUseError};

/// Agents
pub mod agents;

/// Schedulers are responsible for deciding which agent to run next.
pub mod schedulers;

verus! {

/// Outcome of an invocation.
#[allow(inconsistent_fields)]
pub enum Outcome {
    /// The invocation was successful
    Success {
        /// The result of the invocation
        result: String,
    },
    /// No valid invocation was found
    NoValidInvocationsFound {
        /// The invocation error
        e: InvocationError,
    },
    /// No invocation was found
    NoInvocationsFound {
        /// The invocation error
        e: InvocationError,
    },
    /// The invocation failed
    ToolUseError {
        /// The tool use error
        e: ToolUseError,
    },
}

impl Clone for Outcome {
    fn clone(&self) -> (r: Self)
        ensures
            r == *self,
    {
        match self {
            Outcome::Success { result } => Outcome::Success { result: result.clone() },
            Outcome::NoValidInvocationsFound { e } => Outcome::NoValidInvocationsFound { e: e.clone() },
            Outcome::NoInvocationsFound { e } => Outcome::NoInvocationsFound { e: e.clone() },
            Outcome::ToolUseError { e } => Outcome::ToolUseError { e: e.clone() },
        }
    }
}

/// A message that can be produced by an agent for another agent.
pub enum Message {
    /// A new task to be performed
    Task {
        /// The description of the task
        content: String,
    },
    /// A new observation
    Observation {
        /// The observation
        content: String,
        /// Token usage
        usage: Option<Usage>,
    },
    /// A new orientation
    Orientation {
        /// The orientation
        content: String,
        /// Token usage
        usage: Option<Usage>,
    },
    /// A new decision
    Decision {
        /// The decision
        content: String,
        /// Token usage
        usage: Option<Usage>,
    },
    /// A new action
    Action {
        /// The action
        content: String,
        /// Token usage
        usage: Option<Usage>,
    },
    /// A new result
    ActionResult {
        /// The number of invocations found in the message
        invocation_count: usize,
        /// The name of the tool that was invoked
        tool_name: Option<String>,
        /// The extracted input for the tool
        extracted_input: Option<String>,
        /// The outcome of the invocation
        outcome: Outcome,
    },
}

fn clone_opt_string(s: &Option<String>) -> (r: Option<String>)
    ensures
        r == *s,
{
    match s {
        Some(x) => Some(x.clone()),
        None => None,
    }
}

impl Clone for Message {
    fn clone(&self) -> (r: Self)
        ensures
            r == *self,
    {
        match self {
            Message::Task { content } => Message::Task { content: content.clone() },
            Message::Observation { content, usage } => Message::Observation { content: content.clone(), usage: *usage },
            Message::Orientation { content, usage } => Message::Orientation { content: content.clone(), usage: *usage },
            Message::Decision { content, usage } => Message::Decision { content: content.clone(), usage: *usage },
            Message::Action { content, usage } => Message::Action { content: content.clone(), usage: *usage },
            Message::ActionResult { invocation_count, tool_name, extracted_input, outcome } => Message::ActionResult {
                invocation_count: *invocation_count,
                tool_name: clone_opt_string(tool_name),
                extracted_input: clone_opt_string(extracted_input),
                outcome: outcome.clone(),
            },
        }
    }
}

/// The message that records the result of an invocation.
pub open spec fn result_message(result: InvokeResult) -> Message {
    match result {
        InvokeResult::NoInvocationsFound { e } => Message::ActionResult {
            invocation_count: 0,
            tool_name: None,
            extracted_input: None,
            outcome: Outcome::NoInvocationsFound { e },
        },
        InvokeResult::NoValidInvocationsFound { e, invocation_count } => Message::ActionResult {
            invocation_count,
            tool_name: None,
            extracted_input: None,
            outcome: Outcome::NoValidInvocationsFound { e },
        },
        InvokeResult::Success { invocation_count, tool_name, extracted_input, result } => Message::ActionResult {
            invocation_count,
            tool_name: Some(tool_name),
            extracted_input: Some(extracted_input),
            outcome: Outcome::Success { result },
        },
        InvokeResult::Error { invocation_count, tool_name, e, .. } => Message::ActionResult {
            invocation_count,
            tool_name: Some(tool_name),
            extracted_input: None,
            outcome: Outcome::ToolUseError { e },
        },
    }
}

/// Recording the result of an invocation keeps what the invocation gave:
/// the result of an action with the invocation's count (none when no
/// invocation was found), the name of the tool invoked when there was one,
/// the input extracted for it only when it succeeded, and the outcome. A
/// success keeps the tool's output as the outcome and the input as the
/// extracted input, so that the agents are told the tool's output: a single
/// invocation whose response is not too long is told as that output.
pub proof fn lemma_result_message_keeps_invocation(res: InvokeResult)
    ensures
        result_message(res) matches Message::ActionResult { invocation_count, tool_name, extracted_input, outcome } && {
            &&& match res {
                InvokeResult::NoInvocationsFound { e } => invocation_count == 0 && tool_name is None
                    && extracted_input is None && outcome == Outcome::NoInvocationsFound { e },
                InvokeResult::NoValidInvocationsFound { e, invocation_count: c } => invocation_count == c
                    && tool_name is None && extracted_input is None && outcome == Outcome::NoValidInvocationsFound { e },
                InvokeResult::Success { invocation_count: c, tool_name: t, extracted_input: x, result: r } => {
                    &&& invocation_count == c
                    &&& tool_name == Some(t)
                    &&& extracted_input == Some(x)
                    &&& outcome == Outcome::Success { result: r }
                    &&& (c == 1 && crate::chains::agents::byte_len(
                        crate::prompt::action_success_text(t@, 1, r@),
                    ) <= crate::chains::agents::MAX_RESPONSE_CHAR ==> crate::chains::agents::outcome_note(
                        c as nat,
                        tool_name,
                        outcome,
                    ) == "# Action "@ + t@ + " response: \n```yaml\n"@ + r@ + "```"@)
                },
                InvokeResult::Error { invocation_count: c, tool_name: t, e, .. } => invocation_count == c
                    && tool_name == Some(t) && extracted_input is None && outcome == Outcome::ToolUseError { e },
            }
        },
{
}

impl From<InvokeResult> for Message {
    fn from(result: InvokeResult) -> (m: Self) {
        match result {
            InvokeResult::NoInvocationsFound { e } => Message::ActionResult {
                invocation_count: 0,
                tool_name: None,
                extracted_input: None,
                outcome: Outcome::NoInvocationsFound { e },
            },
            InvokeResult::NoValidInvocationsFound { e, invocation_count } => Message::ActionResult {
                invocation_count,
                tool_name: None,
                extracted_input: None,
                outcome: Outcome::NoValidInvocationsFound { e },
            },
            InvokeResult::Success { invocation_count, tool_name, extracted_input, result } => Message::ActionResult {
                invocation_count,
                tool_name: Some(tool_name),
                extracted_input: Some(extracted_input),
                outcome: Outcome::Success { result },
            },
            InvokeResult::Error { invocation_count, tool_name, e, .. } => Message::ActionResult {
                invocation_count,
                tool_name: Some(tool_name),
                extracted_input: None,
                outcome: Outcome::ToolUseError { e },
            },
        }
    }
}

impl vstd::std_specs::convert::FromSpecImpl<InvokeResult> for Message {
    open spec fn obeys_from_spec() -> bool {
        true
    }

    open spec fn from_spec(v: InvokeResult) -> Message {
        result_message(v)
    }
}

/// The content of the latest task among `messages`, if any.
pub open spec fn latest_task(messages: Seq<Message>) -> Option<Seq<char>>
    decreases messages.len(),
{
    if messages.len() == 0 {
        None
    } else {
        match messages.last() {
            Message::Task { content } => Some(content@),
            _ => latest_task(messages.drop_last()),
        }
    }
}

/// The latest task of messages that end with a task is that task; a message
/// that is not a task leaves the latest task as it was.
pub proof fn lemma_latest_task_push(messages: Seq<Message>, m: Message)
    ensures
        m matches Message::Task { content } ==> latest_task(messages.push(m)) == Some(content@),
        !(m is Task) ==> latest_task(messages.push(m)) == latest_task(messages),
{
    assert(messages.push(m).drop_last() =~= messages);
}

/// The history of the messages produced by a chain.
pub struct Context {
    /// The messages, oldest first
    pub messages: Vec<Message>,
}

/// A dump of the context of a chain.
pub struct ContextDump {
    /// The messages
    pub messages: Vec<Message>,
}

/// A trait for formatting the messages of a chain.
pub trait MessageFormatter {
    /// What the formatter makes of a message.
    spec fn formatted_message(&self, msg: Message) -> Seq<char>;

    /// Format the message.
    fn format(&self, msg: &Message) -> (s: String)
        ensures
            s@ == self.formatted_message(*msg),
    ;
}

impl ContextDump {
    /// Format the messages using the given formatter.
    pub fn format<T: MessageFormatter + ?Sized>(&self, formatter: &T) -> (r: Vec<String>)
        ensures
            r@.len() == self.messages@.len(),
            forall|i: int| 0 <= i < r@.len() ==> #[trigger] r@[i]@ == formatter.formatted_message(self.messages@[i]),
    {
        let mut r: Vec<String> = Vec::new();
        for i in 0..self.messages.len()
            invariant
                r@.len() == i,
                forall|k: int| 0 <= k < i ==> #[trigger] r@[k]@ == formatter.formatted_message(self.messages@[k]),
        {
            r.push(formatter.format(&self.messages[i]));
        }
        r
    }
}

fn clone_messages(v: &Vec<Message>) -> (r: Vec<Message>)
    ensures
        r@ == v@,
{
    let mut r: Vec<Message> = Vec::new();
    for i in 0..v.len()
        invariant
            r@ == v@.take(i as int),
    {
        r.push(v[i].clone());
        assert(r@ =~= v@.take(i + 1));
    }
    assert(v@.take(v.len() as int) =~= v@);
    r
}

impl Context {
    /// Create a new context.
    pub fn new() -> (c: Self)
        ensures
            c.messages@ == Seq::<Message>::empty(),
    {
        Context { messages: Vec::new() }
    }

    /// Dump the context into a [`ContextDump`].
    pub fn dump(&self) -> (d: ContextDump)
        ensures
            d.messages@ == self.messages@,
    {
        ContextDump { messages: clone_messages(&self.messages) }
    }

    /// Returns the latest task.
    pub fn get_latest_task(&self) -> (t: Option<String>)
        ensures
            match latest_task(self.messages@) {
                Some(c) => (t matches Some(s) && s@ == c),
                None => t is None,
            },
    {
        let mut i = self.messages.len();
        assert(self.messages@.take(i as int) =~= self.messages@);
        while i > 0
            invariant
                i <= self.messages@.len(),
                latest_task(self.messages@) == latest_task(self.messages@.take(i as int)),
            decreases i,
        {
            assert(self.messages@.take(i as int).last() == self.messages@[i - 1]);
            assert(self.messages@.take(i as int).drop_last() =~= self.messages@.take(i - 1));
            if let Message::Task { content } = &self.messages[i - 1] {
                return Some(content.clone());
            }
            i = i - 1;
        }
        None
    }

    /// Add a message to the context.
    pub fn add_message(&mut self, message: Message)
        ensures
            final(self).messages@ == old(self).messages@.push(message),
    {
        self.messages.push(message);
    }
}

/// An agent: it acts on a context and produces a message. Acting has two
/// halves, around the query of the model: the agent first makes the input
/// for the model out of the context, then makes a message of the model's
/// response.
pub trait Agent {
    /// Is the agent set up to act (the tokens of its model are counted, and
    /// the model leaves room for the tokens it keeps for the completion)?
    spec fn ready(&self) -> bool;

    /// The input the agent makes for the model out of the messages of a
    /// context, or the error it fails with.
    spec fn input_for(&self, messages: Seq<Message>) -> Result<ChatInputView, agents::Error>;

    /// The message the agent makes of a response of the model.
    spec fn answer_of(&self, response: ModelResponse) -> Message;

    /// Is the agent set up to act?
    fn is_ready(&self) -> (b: bool)
        ensures
            b == self.ready(),
    ;

    /// Make the input for the model out of the given context, which holds
    /// a task.
    fn prepare(&self, context: &Context) -> (r: Result<ChatInput, agents::Error>)
        requires
            self.ready(),
            latest_task(context.messages@) is Some,
        ensures
            match self.input_for(context.messages@) {
                Ok(v) => r matches Ok(i) && i@ == v,
                Err(e) => r == Err::<ChatInput, agents::Error>(e),
            },
    ;

    /// The maximum number of tokens the model may generate.
    fn max_tokens(&self) -> Option<usize>;

    /// Make a message of the response of the model.
    fn answer(&self, response: ModelResponse) -> (m: Message)
        ensures
            m == self.answer_of(response),
    ;
}

/// An error that can occur during the creation or execution of a chain.
#[derive(Debug)]
pub enum Error {
    /// No terminal tool in the toolbox
    NoTerminalTool,
    /// Max steps reached
    MaxStepsReached,
    /// Agent failed
    AgentFailed(agents::Error),
}

/// The message of a chain error (`e.to_string()`).
pub open spec fn chain_error_message(e: Error) -> Seq<char> {
    match e {
        Error::NoTerminalTool => "No terminal tool"@,
        Error::MaxStepsReached => "Max steps reached"@,
        Error::AgentFailed(a) => "Agent failed: "@ + agents::agent_error_message(a),
    }
}

impl Error {
    /// The message of the error (`e.to_string()`).
    pub fn message(&self) -> (s: String)
        ensures
            s@ == chain_error_message(*self),
    {
        match self {
            Error::NoTerminalTool => String::from_str("No terminal tool"),
            Error::MaxStepsReached => String::from_str("Max steps reached"),
            Error::AgentFailed(a) => crate::text::prefixed("Agent failed: ", a.message().as_str()),
        }
    }
}

/// The state of the runtime after it terminates.
pub struct TerminalState {
    /// The messages produced by the runtime when it terminated
    pub messages: Vec<TerminationMessage>,
}

impl TerminalState {
    /// Whether the runtime terminates after a step that gave these
    /// termination messages: it does, in this state, as soon as there is
    /// one; it goes on while there is none.
    pub fn after_step(messages: Vec<TerminationMessage>) -> (r: Option<TerminalState>)
        ensures
            match r {
                Some(t) => messages@.len() > 0 && t.messages@ == messages@,
                None => messages@.len() == 0,
            },
    {
        if messages.len() > 0 {
            Some(TerminalState { messages })
        } else {
            None
        }
    }
}

} // verus!

verus! {

use crate::chains::agents::ooda::{multistep, one_step};
use crate::chains::schedulers::{members_ready, MultiAgentScheduler, Scheduler, SingleAgentScheduler};
use crate::models::ChatEntryTokenNumber;
use crate::SapiensConfig;

/// The content of `m` when it is an action: what is to be invoked on the
/// tools.
pub open spec fn action_content(m: Message) -> Option<Seq<char>> {
    match m {
        Message::Action { content, .. } => Some(content@),
        _ => None,
    }
}

/// A runtime: the context of a chain and the scheduler that picks its
/// agents. A step of the runtime has three parts around what is done
/// outside: [`Runtime::begin_step`] lets the scheduler pick an agent, which
/// makes the input for the model; once the model has answered,
/// [`Runtime::end_step`] lets the agent make a message of the answer, which
/// is added to the context; when that message is an action,
/// [`Runtime::record_result`] records the result of its invocation on the
/// tools.
pub struct Runtime<S: Scheduler> {
    context: Context,
    scheduler: S,
    pending: Option<usize>,
}

impl<S: Scheduler> Runtime<S> {
    /// The messages of the context, oldest first.
    pub closed spec fn messages(&self) -> Seq<Message> {
        self.context.messages@
    }

    /// The scheduler.
    pub closed spec fn scheduler(&self) -> S {
        self.scheduler
    }

    /// The agent picked for the step under way, if any.
    pub closed spec fn pending(&self) -> Option<usize> {
        self.pending
    }

    /// Create a new runtime with an empty context; the tools must hold a
    /// terminal tool.
    pub fn new(has_terminal_tools: bool, scheduler: S) -> (r: Result<Self, Error>)
        ensures
            match r {
                Ok(rt) => {
                    &&& has_terminal_tools
                    &&& rt.messages() == Seq::<Message>::empty()
                    &&& rt.scheduler() == scheduler
                    &&& rt.pending() is None
                },
                Err(e) => !has_terminal_tools && e is NoTerminalTool,
            },
    {
        if !has_terminal_tools {
            return Err(Error::NoTerminalTool);
        }
        Ok(Runtime { context: Context::new(), scheduler, pending: None })
    }

    /// Add a task to the context.
    pub fn add_task(&mut self, task: String)
        ensures
            final(self).messages() == old(self).messages().push(Message::Task { content: task }),
            final(self).scheduler() == old(self).scheduler(),
            final(self).pending() == old(self).pending(),
    {
        self.context.add_message(Message::Task { content: task });
    }

    /// Can the scheduler call its agents?
    pub fn is_ready(&self) -> (b: bool)
        ensures
            b == members_ready(self.scheduler().members()),
    {
        self.scheduler.is_ready()
    }

    /// A dump of the context.
    pub fn dump(&self) -> (d: ContextDump)
        ensures
            d.messages@ == self.messages(),
    {
        self.context.dump()
    }

    /// The first part of a step: the scheduler picks an agent, which makes
    /// the input for the model out of the context; returns the input and
    /// the maximum number of tokens the model may generate.
    pub fn begin_step(&mut self) -> (r: Result<(ChatInput, Option<usize>), Error>)
        requires
            members_ready(old(self).scheduler().members()),
            latest_task(old(self).messages()) is Some,
        ensures
            final(self).messages() == old(self).messages(),
            final(self).scheduler().members() == old(self).scheduler().members(),
            members_ready(final(self).scheduler().members()),
            old(self).scheduler().remaining_steps() == 0 ==> (r matches Err(Error::MaxStepsReached) && final(self).pending() is None),
            old(self).scheduler().remaining_steps() > 0 ==> final(self).scheduler().remaining_steps()
                == old(self).scheduler().remaining_steps() - 1,
            match r {
                Ok((input, _)) => final(self).pending() matches Some(k) && k < old(self).scheduler().members().len()
                    && old(self).scheduler().members()[k as int].input_for(old(self).messages()) == Ok::<
                    ChatInputView,
                    agents::Error,
                >(input@),
                Err(Error::AgentFailed(e)) => final(self).pending() is None && exists|k: int|
                    0 <= k < old(self).scheduler().members().len() && #[trigger] old(self).scheduler().members()[k].input_for(old(self).messages()) == Err::<ChatInputView, agents::Error>(
                        e,
                    ),
                Err(_) => final(self).pending() is None,
            },
    {
        self.pending = None;
        let k = self.scheduler.schedule()?;
        let agent = self.scheduler.member(k);
        proof {
            assert(self.scheduler().members()[k as int].ready());
        }
        match agent.prepare(&self.context) {
            Ok(input) => {
                let max_tokens = agent.max_tokens();
                self.pending = Some(k);
                Ok((input, max_tokens))
            },
            Err(e) => Err(Error::AgentFailed(e)),
        }
    }

    /// The second part of a step: the agent picked makes a message of the
    /// model's response, which is added to the context; returns the message
    /// and, when it is an action, its content, which is to be invoked on the
    /// tools. A model that failed fails the agent.
    pub fn end_step(&mut self, response: Result<ModelResponse, crate::models::Error>) -> (r: Result<
        (Message, Option<String>),
        Error,
    >)
        requires
            old(self).pending() matches Some(k) && k < old(self).scheduler().members().len(),
            latest_task(old(self).messages()) is Some,
        ensures
            final(self).pending() is None,
            final(self).scheduler() == old(self).scheduler(),
            latest_task(final(self).messages()) is Some,
            match response {
                Ok(res) => r matches Ok((m, a)) && m == old(self).scheduler().members()[old(self).pending()->Some_0 as int].answer_of(res) && final(self).messages() == old(self).messages().push(m)
                    && match a {
                    Some(c) => action_content(m) == Some(c@),
                    None => action_content(m) is None,
                },
                Err(e) => r == Err::<(Message, Option<String>), Error>(Error::AgentFailed(agents::Error::ModelError(e)))
                    && final(self).messages() == old(self).messages(),
            },
    {
        let k = match self.pending {
            Some(k) => k,
            None => 0,
        };
        self.pending = None;
        let res = match response {
            Ok(res) => res,
            Err(e) => return Err(Error::AgentFailed(agents::Error::ModelError(e))),
        };
        let m = self.scheduler.member(k).answer(res);
        let a = match &m {
            Message::Action { content, .. } => Some(content.clone()),
            _ => None,
        };
        let ghost before = self.context.messages@;
        self.context.add_message(m.clone());
        proof {
            lemma_latest_task_push(before, m);
        }
        Ok((m, a))
    }

    /// The last part of a step that made an action: record the result of
    /// its invocation on the tools.
    pub fn record_result(&mut self, res: crate::tools::toolbox::InvokeResult)
        ensures
            final(self).messages() == old(self).messages().push(result_message(res)),
            final(self).scheduler() == old(self).scheduler(),
            final(self).pending() == old(self).pending(),
            latest_task(final(self).messages()) == latest_task(old(self).messages()),
    {
        let ghost before = self.context.messages@;
        let m = Message::from(res);
        self.context.add_message(m);
        proof {
            lemma_latest_task_push(before, result_message(res));
        }
    }
}

/// A single-step OODA chain: one agent observes, orients, decides and acts
/// in one answer.
pub struct SingleStepOODAChain<M: ChatEntryTokenNumber> {
    runtime: Runtime<SingleAgentScheduler<one_step::Agent<M>>>,
}

impl<M: ChatEntryTokenNumber> SingleStepOODAChain<M> {
    /// The runtime of the chain.
    pub closed spec fn runtime(&self) -> Runtime<SingleAgentScheduler<one_step::Agent<M>>> {
        self.runtime
    }

    /// Create a new chain, given the (YAML) description of the tools and
    /// whether they hold a terminal tool.
    pub fn new(config: SapiensConfig<M>, tools: String, has_terminal_tools: bool) -> (r: Result<Self, Error>)
        ensures
            match r {
                Ok(c) => {
                    &&& has_terminal_tools
                    &&& c.runtime().messages() == Seq::<Message>::empty()
                    &&& c.runtime().pending() is None
                    &&& c.runtime().scheduler().remaining_steps() == config.max_steps
                    &&& c.runtime().scheduler().agent().config() == config
                    &&& c.runtime().scheduler().agent().manager().tools() == tools@
                },
                Err(e) => !has_terminal_tools && e is NoTerminalTool,
            },
    {
        let max_steps = config.max_steps;
        let agent = one_step::Agent::new(config, tools);
        let scheduler = SingleAgentScheduler::new(max_steps, agent);
        let runtime = Runtime::new(has_terminal_tools, scheduler)?;
        Ok(SingleStepOODAChain { runtime })
    }

    /// Add a new task to the chain.
    pub fn with_task(self, task: String) -> (c: Self)
        ensures
            c.runtime().messages() == self.runtime().messages().push(Message::Task { content: task }),
            c.runtime().scheduler() == self.runtime().scheduler(),
            c.runtime().pending() == self.runtime().pending(),
    {
        let mut c = self;
        c.runtime.add_task(task);
        c
    }

    /// Dump the current context.
    pub fn dump(&self) -> (d: ContextDump)
        ensures
            d.messages@ == self.runtime().messages(),
    {
        self.runtime.dump()
    }

    /// The runtime of the chain, to run its steps.
    pub fn runtime_mut(&mut self) -> (r: &mut Runtime<SingleAgentScheduler<one_step::Agent<M>>>)
        ensures
            *r == old(self).runtime(),
            final(self).runtime() == *final(r),
    {
        &mut self.runtime
    }
}

/// A multi-step OODA chain: an observer, an orienter, a decider and an
/// actor take turns.
pub struct MultiStepOODAChain<M: ChatEntryTokenNumber> {
    runtime: Runtime<MultiAgentScheduler<multistep::Agent<M>>>,
}

impl<M: ChatEntryTokenNumber + Clone> MultiStepOODAChain<M> {
    /// The runtime of the chain.
    pub closed spec fn runtime(&self) -> Runtime<MultiAgentScheduler<multistep::Agent<M>>> {
        self.runtime
    }

    /// Create a new chain, given the (YAML) description of the tools and
    /// whether they hold a terminal tool.
    pub fn new(config: SapiensConfig<M>, tools: String, has_terminal_tools: bool) -> (r: Result<Self, Error>)
        ensures
            match r {
                Ok(c) => {
                    let agents = c.runtime().scheduler().agents();
                    &&& has_terminal_tools
                    &&& c.runtime().messages() == Seq::<Message>::empty()
                    &&& c.runtime().pending() is None
                    &&& c.runtime().scheduler().remaining_steps() == config.max_steps
                    &&& c.runtime().scheduler().turn() == 0
                    &&& agents.len() == 4
                    &&& agents[0].role() == multistep::AgentRole::Observer
                    &&& agents[1].role() == multistep::AgentRole::Orienter
                    &&& agents[2].role() == multistep::AgentRole::Decider
                    &&& agents[3].role() == multistep::AgentRole::Actor
                    &&& forall|i: int| 0 <= i < 4 ==> (#[trigger] agents[i]).manager().tools() == tools@
                },
                Err(e) => !has_terminal_tools && e is NoTerminalTool,
            },
    {
        let max_steps = config.max_steps;
        let mut agents: Vec<multistep::Agent<M>> = Vec::new();
        agents.push(multistep::Agent::new_observer(config.clone(), tools.clone()));
        agents.push(multistep::Agent::new_orienter(config.clone(), tools.clone()));
        agents.push(multistep::Agent::new_decider(config.clone(), tools.clone()));
        agents.push(multistep::Agent::new_actor(config, tools));
        let scheduler = MultiAgentScheduler::new(max_steps, agents);
        let runtime = Runtime::new(has_terminal_tools, scheduler)?;
        Ok(MultiStepOODAChain { runtime })
    }

    /// Add a new task to the chain.
    pub fn with_task(self, task: String) -> (c: Self)
        ensures
            c.runtime().messages() == self.runtime().messages().push(Message::Task { content: task }),
            c.runtime().scheduler() == self.runtime().scheduler(),
            c.runtime().pending() == self.runtime().pending(),
    {
        let mut c = self;
        c.runtime.add_task(task);
        c
    }

    /// Dump the current context.
    pub fn dump(&self) -> (d: ContextDump)
        ensures
            d.messages@ == self.runtime().messages(),
    {
        self.runtime.dump()
    }

    /// The runtime of the chain, to run its steps.
    pub fn runtime_mut(&mut self) -> (r: &mut Runtime<MultiAgentScheduler<multistep::Agent<M>>>)
        ensures
            *r == old(self).runtime(),
            final(self).runtime() == *final(r),
    {
        &mut self.runtime
    }
}

} // verus!

verus! {

use crate::text::{decimal, prefixed, push_str, to_decimal, wrapped};
use crate::tools::invocation::error_debug;
use crate::tools::{debug_quoted, string_debug, tool_use_error_debug};

/// The debug notation of an optional string.
pub open spec fn optional_debug(s: Option<String>) -> Seq<char> {
    match s {
        Some(x) => "Some("@ + string_debug(x@) + ")"@,
        None => "None"@,
    }
}

/// The debug notation of an outcome.
pub open spec fn outcome_debug(o: Outcome) -> Seq<char> {
    match o {
        Outcome::Success { result } => "Success { result: "@ + string_debug(result@) + " }"@,
        Outcome::NoValidInvocationsFound { e } => "NoValidInvocationsFound { e: "@ + error_debug(e) + " }"@,
        Outcome::NoInvocationsFound { e } => "NoInvocationsFound { e: "@ + error_debug(e) + " }"@,
        Outcome::ToolUseError { e } => "ToolUseError { e: "@ + tool_use_error_debug(e) + " }"@,
    }
}

/// How a message is displayed: its kind, then its content; for the result
/// of an action, the number of invocations found, the tool's name, the
/// extracted input and the outcome.
pub open spec fn message_display(m: Message) -> Seq<char> {
    match m {
        Message::Task { content } => "Task: "@ + content@,
        Message::Observation { content, .. } => "Observation: "@ + content@,
        Message::Orientation { content, .. } => "Orientation: "@ + content@,
        Message::Decision { content, .. } => "Decision: "@ + content@,
        Message::Action { content, .. } => "Action: "@ + content@,
        Message::ActionResult { invocation_count, tool_name, extracted_input, outcome } => "ActionResult: "@
            + decimal(invocation_count as nat) + " invocations found, tool_name: "@ + optional_debug(tool_name)
            + ", extracted_input: "@ + optional_debug(extracted_input) + ", outcome: "@ + outcome_debug(outcome),
    }
}

fn optional_debug_string(s: &Option<String>) -> (r: String)
    ensures
        r@ == optional_debug(*s),
{
    match s {
        Some(x) => wrapped("Some(", debug_quoted(x.as_str()).as_str(), ")"),
        None => String::from_str("None"),
    }
}

impl Outcome {
    /// The debug notation of the outcome.
    pub fn debug_string(&self) -> (s: String)
        ensures
            s@ == outcome_debug(*self),
    {
        match self {
            Outcome::Success { result } => wrapped("Success { result: ", debug_quoted(result.as_str()).as_str(), " }"),
            Outcome::NoValidInvocationsFound { e } => wrapped(
                "NoValidInvocationsFound { e: ",
                e.debug_string().as_str(),
                " }",
            ),
            Outcome::NoInvocationsFound { e } => wrapped("NoInvocationsFound { e: ", e.debug_string().as_str(), " }"),
            Outcome::ToolUseError { e } => wrapped("ToolUseError { e: ", e.debug_string().as_str(), " }"),
        }
    }
}

impl Message {
    /// How the message is displayed.
    pub fn to_string(&self) -> (s: String)
        ensures
            s@ == message_display(*self),
    {
        match self {
            Message::Task { content } => prefixed("Task: ", content.as_str()),
            Message::Observation { content, .. } => prefixed("Observation: ", content.as_str()),
            Message::Orientation { content, .. } => prefixed("Orientation: ", content.as_str()),
            Message::Decision { content, .. } => prefixed("Decision: ", content.as_str()),
            Message::Action { content, .. } => prefixed("Action: ", content.as_str()),
            Message::ActionResult { invocation_count, tool_name, extracted_input, outcome } => {
                let mut s = String::from_str("ActionResult: ");
                push_str(&mut s, to_decimal(*invocation_count).as_str());
                push_str(&mut s, " invocations found, tool_name: ");
                push_str(&mut s, optional_debug_string(tool_name).as_str());
                push_str(&mut s, ", extracted_input: ");
                push_str(&mut s, optional_debug_string(extracted_input).as_str());
                push_str(&mut s, ", outcome: ");
                push_str(&mut s, outcome.debug_string().as_str());
                s
            },
        }
    }
}

} // verus!
