//! Traces of the runs: the events of a run, each with the state of the
//! scenario after it.

use vstd::prelude::*;

use crate::chains::Message;
use crate::context::ChatEntry;
use crate::models::Role;
use crate::text::{clone_strings, join, join_strings, split_char, split_on, strings_view};
use crate::tools::TerminationMessage;
use crate::tools::invocation::error_message;
use crate::tools::tool_use_error_message;
use crate::{
    InvalidInvocationNotification, InvocationFailureNotification, InvocationResultNotification,
    InvocationSuccessNotification, MessageNotification, ModelNotification, TerminationNotification,
};

verus! {

/// Token usage.
#[derive(Clone, Copy, Debug)]
pub struct Usage {
    /// The number of tokens used for the prompt
    pub prompt_tokens: u32,
    /// The number of tokens used for the completion
    pub completion_tokens: u32,
    /// The total number of tokens used
    pub total_tokens: u32,
}

impl Default for Usage {
    /// No token used.
    fn default() -> (u: Self)
        ensures
            u.prompt_tokens == 0,
            u.completion_tokens == 0,
            u.total_tokens == 0,
    {
        Usage { prompt_tokens: 0, completion_tokens: 0, total_tokens: 0 }
    }
}

/// The usage of a model, counted the same way.
pub open spec fn usage_of(u: crate::models::Usage) -> Usage {
    Usage { prompt_tokens: u.prompt_tokens, completion_tokens: u.completion_tokens, total_tokens: u.total_tokens }
}

impl From<crate::models::Usage> for Usage {
    fn from(usage: crate::models::Usage) -> (u: Self) {
        Usage {
            prompt_tokens: usage.prompt_tokens,
            completion_tokens: usage.completion_tokens,
            total_tokens: usage.total_tokens,
        }
    }
}

impl vstd::std_specs::convert::FromSpecImpl<crate::models::Usage> for Usage {
    open spec fn obeys_from_spec() -> bool {
        true
    }

    open spec fn from_spec(v: crate::models::Usage) -> Usage {
        usage_of(v)
    }
}

impl std::ops::Add for Usage {
    type Output = Usage;

    /// The usages added count by count.
    fn add(self, rhs: Usage) -> (u: Usage) {
        Usage {
            prompt_tokens: self.prompt_tokens + rhs.prompt_tokens,
            completion_tokens: self.completion_tokens + rhs.completion_tokens,
            total_tokens: self.total_tokens + rhs.total_tokens,
        }
    }
}

impl vstd::std_specs::ops::AddSpecImpl for Usage {
    open spec fn obeys_add_spec() -> bool {
        true
    }

    open spec fn add_req(self, rhs: Usage) -> bool {
        &&& self.prompt_tokens + rhs.prompt_tokens <= u32::MAX
        &&& self.completion_tokens + rhs.completion_tokens <= u32::MAX
        &&& self.total_tokens + rhs.total_tokens <= u32::MAX
    }

    open spec fn add_spec(self, rhs: Usage) -> Usage {
        Usage {
            prompt_tokens: (self.prompt_tokens + rhs.prompt_tokens) as u32,
            completion_tokens: (self.completion_tokens + rhs.completion_tokens) as u32,
            total_tokens: (self.total_tokens + rhs.total_tokens) as u32,
        }
    }
}

/// The lines of `s`: the pieces between its new line characters.
pub fn to_lines(s: &str) -> (r: Vec<String>)
    ensures
        strings_view(r@) == split_on(s@, '\n'),
{
    split_char(s, '\n')
}

/// The trace of an execution.
pub struct Trace {
    /// The events in the trace
    pub events: Vec<EventAndState>,
}

/// The status of a completed task.
pub enum CompletionStatus {
    /// The `Conclude` tool was invoked
    Concluded {
        /// The conclusion
        conclusion: String,
    },
    /// The maximum number of steps was reached
    MaxStepsReached,
}

/// The result of a tool invocation.
pub enum InvocationResult {
    /// The tool invocation was successful
    Success {
        /// The output of the tool - split into lines
        output: Vec<String>,
    },
    /// The tool invocation failed
    Failure {
        /// The error message - split into lines
        error: Vec<String>,
    },
}

/// A prompt entry.
pub struct PromptEntry {
    /// The role
    pub role: Role,
    /// The message
    pub msg: String,
}

impl From<ChatEntry> for PromptEntry {
    fn from(entry: ChatEntry) -> (p: Self) {
        PromptEntry { role: entry.role, msg: entry.msg }
    }
}

impl vstd::std_specs::convert::FromSpecImpl<ChatEntry> for PromptEntry {
    open spec fn obeys_from_spec() -> bool {
        true
    }

    open spec fn from_spec(v: ChatEntry) -> PromptEntry {
        PromptEntry { role: v.role, msg: v.msg }
    }
}

/// An event in a trace.
pub enum Event {
    /// New task started
    Start {
        /// The task
        task: String,
    },
    /// Initial prompt
    Prompt {
        /// Initial prompt
        initial_prompt: Vec<PromptEntry>,
    },
    /// A tool was successfully invoked
    ToolInvocationSucceeded {
        /// The name of the tool
        tool_name: String,
        /// Number of invocation blocks in the message
        invocation_count: usize,
        /// The input that was extracted from the message and passed to
        /// `tool_name` - split into lines
        extracted_input: Vec<String>,
        /// The output of the tool - split into lines
        result: Vec<String>,
    },
    /// Invoked tool failed
    ToolInvocationFailed {
        /// The name of the tool
        tool_name: String,
        /// The input of the tool - split into lines
        extracted_input: Vec<String>,
        /// Number of invocation blocks in the message
        invocation_count: usize,
        /// The error message - split into lines
        error: Vec<String>,
    },
    /// Message
    Message {
        /// The message
        message: Message,
    },
    /// The task chain ended
    End(CompletionStatus),
    /// Invalid invocation
    InvalidInvocation {
        /// The error message - split into lines
        error: Vec<String>,
        /// Number of invocation blocks in the message
        invocation_count: usize,
    },
}

/// An event and the state after the event.
pub struct EventAndState {
    /// The event
    pub event: Event,
    /// The state after the event
    pub state: Option<String>,
}

/// The token usage an event records: that of the messages from the agents.
pub open spec fn event_tokens(e: Event) -> Option<Usage> {
    match e {
        Event::Message { message } => match message {
            Message::Observation { usage, .. } => match usage { Some(u) => Some(usage_of(u)), None => None },
            Message::Orientation { usage, .. } => match usage { Some(u) => Some(usage_of(u)), None => None },
            Message::Decision { usage, .. } => match usage { Some(u) => Some(usage_of(u)), None => None },
            Message::Action { usage, .. } => match usage { Some(u) => Some(usage_of(u)), None => None },
            _ => None,
        },
        _ => None,
    }
}

fn usage_from(u: &Option<crate::models::Usage>) -> (r: Option<Usage>)
    ensures
        r == match *u { Some(x) => Some(usage_of(x)), None => None::<Usage> },
{
    match u {
        Some(x) => Some(Usage::from(*x)),
        None => None,
    }
}

impl Event {
    /// The token usage of the event: that of a message from an agent.
    pub fn tokens(&self) -> (r: Option<Usage>)
        ensures
            r == event_tokens(*self),
    {
        match self {
            Event::Message { message } => match message {
                Message::Observation { usage, .. } => usage_from(usage),
                Message::Orientation { usage, .. } => usage_from(usage),
                Message::Decision { usage, .. } => usage_from(usage),
                Message::Action { usage, .. } => usage_from(usage),
                _ => None,
            },
            _ => None,
        }
    }

    /// Wrap the event in an [`EventAndState`] with the given `state`.
    pub fn into_event_and_state(self, state: Option<String>) -> (r: EventAndState)
        ensures
            r.event == self,
            r.state == state,
    {
        EventAndState { event: self, state }
    }
}

/// The lines of a text.
pub open spec fn lines_of(s: Seq<char>) -> Seq<Seq<char>> {
    split_on(s, '\n')
}

impl Event {
    /// The event of a successful invocation, its input and its result split
    /// into lines.
    pub fn from_success(n: InvocationSuccessNotification) -> (e: Self)
        ensures
            e matches Event::ToolInvocationSucceeded { tool_name, invocation_count, extracted_input, result }
                && tool_name == n.tool_name && invocation_count == n.invocation_count
                && strings_view(extracted_input@) == lines_of(n.extracted_input@)
                && strings_view(result@) == lines_of(n.result@),
    {
        Event::ToolInvocationSucceeded {
            tool_name: n.tool_name,
            invocation_count: n.invocation_count,
            extracted_input: to_lines(n.extracted_input.as_str()),
            result: to_lines(n.result.as_str()),
        }
    }

    /// The event of a failed invocation, its input and its error split into
    /// lines.
    pub fn from_failure(n: InvocationFailureNotification) -> (e: Self)
        ensures
            e matches Event::ToolInvocationFailed { tool_name, invocation_count, extracted_input, error }
                && tool_name == n.tool_name && invocation_count == n.invocation_count
                && strings_view(extracted_input@) == lines_of(n.extracted_input@)
                && strings_view(error@) == lines_of(tool_use_error_message(n.e)),
    {
        let error = to_lines(n.e.message().as_str());
        Event::ToolInvocationFailed {
            tool_name: n.tool_name,
            extracted_input: to_lines(n.extracted_input.as_str()),
            invocation_count: n.invocation_count,
            error,
        }
    }

    /// The event of an invalid invocation, its error split into lines.
    pub fn from_invalid(n: InvalidInvocationNotification) -> (e: Self)
        ensures
            e matches Event::InvalidInvocation { error, invocation_count }
                && invocation_count == n.invocation_count
                && strings_view(error@) == lines_of(error_message(n.e)),
    {
        Event::InvalidInvocation { error: to_lines(n.e.message().as_str()), invocation_count: n.invocation_count }
    }
}

impl From<MessageNotification> for Event {
    fn from(n: MessageNotification) -> (e: Self) {
        Event::Message { message: n.message }
    }
}

impl vstd::std_specs::convert::FromSpecImpl<MessageNotification> for Event {
    open spec fn obeys_from_spec() -> bool {
        true
    }

    open spec fn from_spec(v: MessageNotification) -> Event {
        Event::Message { message: v.message }
    }
}

/// The event of the result of an invocation.
pub open spec fn result_event_matches(n: InvocationResultNotification, e: Event) -> bool {
    match n {
        InvocationResultNotification::InvocationSuccess(s) => e matches Event::ToolInvocationSucceeded {
            tool_name, invocation_count, extracted_input, result } && tool_name == s.tool_name
            && invocation_count == s.invocation_count && strings_view(extracted_input@) == lines_of(s.extracted_input@)
            && strings_view(result@) == lines_of(s.result@),
        InvocationResultNotification::InvocationFailure(f) => e matches Event::ToolInvocationFailed {
            tool_name, invocation_count, extracted_input, error } && tool_name == f.tool_name
            && invocation_count == f.invocation_count && strings_view(extracted_input@) == lines_of(f.extracted_input@)
            && strings_view(error@) == lines_of(tool_use_error_message(f.e)),
        InvocationResultNotification::InvalidInvocation(i) => e matches Event::InvalidInvocation {
            error, invocation_count } && invocation_count == i.invocation_count
            && strings_view(error@) == lines_of(error_message(i.e)),
    }
}

impl Event {
    /// The event of the result of an invocation.
    pub fn from_invocation_result(n: InvocationResultNotification) -> (e: Self)
        ensures
            result_event_matches(n, e),
    {
        match n {
            InvocationResultNotification::InvocationSuccess(x) => Event::from_success(x),
            InvocationResultNotification::InvocationFailure(x) => Event::from_failure(x),
            InvocationResultNotification::InvalidInvocation(x) => Event::from_invalid(x),
        }
    }
}

fn clone_prompts(v: &Vec<PromptEntry>) -> (r: Vec<PromptEntry>)
    ensures
        r@ == v@,
{
    let mut r: Vec<PromptEntry> = Vec::new();
    for i in 0..v.len()
        invariant
            r@ == v@.take(i as int),
    {
        r.push(PromptEntry { role: v[i].role, msg: v[i].msg.clone() });
        assert(r@ =~= v@.take(i + 1));
    }
    assert(v@.take(v.len() as int) =~= v@);
    r
}

/// Do the two events hold the same values?
pub open spec fn same_event(a: Event, b: Event) -> bool {
    match (a, b) {
        (Event::Start { task: x }, Event::Start { task: y }) => x == y,
        (Event::Prompt { initial_prompt: x }, Event::Prompt { initial_prompt: y }) => x@ == y@,
        (
            Event::ToolInvocationSucceeded { tool_name: n1, invocation_count: c1, extracted_input: i1, result: r1 },
            Event::ToolInvocationSucceeded { tool_name: n2, invocation_count: c2, extracted_input: i2, result: r2 },
        ) => n1 == n2 && c1 == c2 && i1@ == i2@ && r1@ == r2@,
        (
            Event::ToolInvocationFailed { tool_name: n1, extracted_input: i1, invocation_count: c1, error: e1 },
            Event::ToolInvocationFailed { tool_name: n2, extracted_input: i2, invocation_count: c2, error: e2 },
        ) => n1 == n2 && c1 == c2 && i1@ == i2@ && e1@ == e2@,
        (Event::Message { message: x }, Event::Message { message: y }) => x == y,
        (Event::End(x), Event::End(y)) => x == y,
        (
            Event::InvalidInvocation { error: e1, invocation_count: c1 },
            Event::InvalidInvocation { error: e2, invocation_count: c2 },
        ) => e1@ == e2@ && c1 == c2,
        _ => false,
    }
}

/// Do the two sequences of events hold the same values, one by one?
pub open spec fn same_events(a: Seq<EventAndState>, b: Seq<EventAndState>) -> bool {
    &&& a.len() == b.len()
    &&& forall|i: int| 0 <= i < a.len() ==> same_event(#[trigger] a[i].event, b[i].event) && a[i].state == b[i].state
}

impl Clone for CompletionStatus {
    fn clone(&self) -> (r: Self)
        ensures
            r == *self,
    {
        match self {
            CompletionStatus::Concluded { conclusion } => CompletionStatus::Concluded { conclusion: conclusion.clone() },
            CompletionStatus::MaxStepsReached => CompletionStatus::MaxStepsReached,
        }
    }
}

impl Clone for Event {
    fn clone(&self) -> (r: Self)
        ensures
            same_event(*self, r),
    {
        match self {
            Event::Start { task } => Event::Start { task: task.clone() },
            Event::Prompt { initial_prompt } => Event::Prompt { initial_prompt: clone_prompts(initial_prompt) },
            Event::ToolInvocationSucceeded { tool_name, invocation_count, extracted_input, result } =>
                Event::ToolInvocationSucceeded {
                tool_name: tool_name.clone(),
                invocation_count: *invocation_count,
                extracted_input: clone_strings(extracted_input),
                result: clone_strings(result),
            },
            Event::ToolInvocationFailed { tool_name, extracted_input, invocation_count, error } =>
                Event::ToolInvocationFailed {
                tool_name: tool_name.clone(),
                extracted_input: clone_strings(extracted_input),
                invocation_count: *invocation_count,
                error: clone_strings(error),
            },
            Event::Message { message } => Event::Message { message: message.clone() },
            Event::End(c) => Event::End(c.clone()),
            Event::InvalidInvocation { error, invocation_count } => Event::InvalidInvocation {
                error: clone_strings(error),
                invocation_count: *invocation_count,
            },
        }
    }
}

fn clone_state(s: &Option<String>) -> (r: Option<String>)
    ensures
        r == *s,
{
    match s {
        Some(x) => Some(x.clone()),
        None => None,
    }
}

impl Clone for EventAndState {
    fn clone(&self) -> (r: Self)
        ensures
            same_event(self.event, r.event),
            r.state == self.state,
    {
        EventAndState { event: self.event.clone(), state: clone_state(&self.state) }
    }
}

impl Clone for Trace {
    fn clone(&self) -> (r: Self)
        ensures
            same_events(self.events@, r.events@),
    {
        let mut events: Vec<EventAndState> = Vec::new();
        for i in 0..self.events.len()
            invariant
                events@.len() == i,
                forall|k: int| 0 <= k < i ==> same_event(#[trigger] self.events@[k].event, events@[k].event)
                    && self.events@[k].state == events@[k].state,
        {
            events.push(self.events[i].clone());
        }
        Trace { events }
    }
}

/// The conclusions of the termination messages.
pub open spec fn conclusions(messages: Seq<TerminationMessage>) -> Seq<Seq<char>> {
    messages.map_values(|m: TerminationMessage| m.conclusion@)
}

/// The event that ends a trace: the conclusions, one per line, when the task
/// was concluded; else, the maximum number of steps was reached.
pub open spec fn end_status(termination: Option<TerminationNotification>) -> Option<Seq<char>> {
    match termination {
        Some(t) => Some(join(conclusions(t.messages@), "\n"@)),
        None => None,
    }
}

/// What a call of `trace` does, from the observer `before` to the observer
/// `after`, given the state of the scenario, with the trace `t` it gives
/// back: unless the trace is complete, the event that ends it is added
/// first - the conclusions of the termination, one per line, or the maximum
/// number of steps reached when there was none - and the termination is
/// used up; the trace is complete from then on.
pub open spec fn traced(before: TraceObserver, after: TraceObserver, state: Option<String>, t: Trace) -> bool {
    &&& before.finalized() ==> after.events() == before.events()
    &&& !before.finalized() ==> {
        &&& after.events().drop_last() == before.events()
        &&& after.events().len() == before.events().len() + 1
        &&& after.events().last().state == state
        &&& match end_status(before.termination()) {
            Some(c) => after.events().last().event matches Event::End(CompletionStatus::Concluded { conclusion })
                && conclusion@ == c,
            None => after.events().last().event == Event::End(CompletionStatus::MaxStepsReached),
        }
        &&& after.termination() is None
    }
    &&& before.finalized() ==> after.termination() == before.termination()
    &&& after.finalized()
    &&& after.tool_input() == before.tool_input()
    &&& same_events(after.events(), t.events@)
}

/// The trace ends once: once `trace` was called, a later call gives back
/// the same events, with no second end, whatever state it is given.
pub proof fn lemma_trace_ends_once(
    o0: TraceObserver,
    o1: TraceObserver,
    o2: TraceObserver,
    s1: Option<String>,
    s2: Option<String>,
    t1: Trace,
    t2: Trace,
)
    requires
        traced(o0, o1, s1, t1),
        traced(o1, o2, s2, t2),
    ensures
        o2.events() == o1.events(),
        same_events(t1.events@, t2.events@),
{
    assert forall|i: int| 0 <= i < t1.events@.len() implies same_event(#[trigger] t1.events@[i].event, t2.events@[i].event)
        && t1.events@[i].state == t2.events@[i].state by {
        assert(same_event(o1.events()[i].event, t1.events@[i].event));
        assert(same_event(o1.events()[i].event, t2.events@[i].event));
    }
}

/// An observer that collects the trace of a run; each event is recorded
/// with the state of the scenario after it.
pub struct TraceObserver {
    trace: Trace,
    tool_input: Option<ModelNotification>,
    termination: Option<TerminationNotification>,
    finalized: bool,
}

impl TraceObserver {
    /// The events recorded so far.
    pub closed spec fn events(&self) -> Seq<EventAndState> {
        self.trace.events@
    }

    /// The latest update from the model.
    pub closed spec fn tool_input(&self) -> Option<ModelNotification> {
        self.tool_input
    }

    /// The termination of the run, if it was notified.
    pub closed spec fn termination(&self) -> Option<TerminationNotification> {
        self.termination
    }

    /// Is the trace complete?
    pub closed spec fn finalized(&self) -> bool {
        self.finalized
    }

    /// A new observer, with an empty trace.
    pub fn new() -> (o: Self)
        ensures
            o.events() == Seq::<EventAndState>::empty(),
            o.tool_input() is None,
            o.termination() is None,
            !o.finalized(),
    {
        TraceObserver { trace: Trace { events: Vec::new() }, tool_input: None, termination: None, finalized: false }
    }

    /// The task is submitted: record its start.
    pub fn on_task(&mut self, task: &str, state: Option<String>)
        ensures
            final(self).events() == old(self).events().push(
                EventAndState { event: Event::Start { task: final(self).events().last().event->task }, state },
            ),
            final(self).events().last().event->task@ == task@,
            final(self).tool_input() == old(self).tool_input(),
            final(self).termination() == old(self).termination(),
            final(self).finalized() == old(self).finalized(),
    {
        self.trace.events.push(Event::Start { task: String::from_str(task) }.into_event_and_state(state));
    }

    /// The scheduler selected a message: record it.
    pub fn on_message(&mut self, event: MessageNotification, state: Option<String>)
        ensures
            final(self).events() == old(self).events().push(
                EventAndState { event: Event::Message { message: event.message }, state },
            ),
            final(self).tool_input() == old(self).tool_input(),
            final(self).termination() == old(self).termination(),
            final(self).finalized() == old(self).finalized(),
    {
        self.trace.events.push(Event::from(event).into_event_and_state(state));
    }

    /// The model returned something: keep it.
    pub fn on_model_update(&mut self, event: ModelNotification)
        ensures
            final(self).events() == old(self).events(),
            final(self).tool_input() == Some(event),
            final(self).termination() == old(self).termination(),
            final(self).finalized() == old(self).finalized(),
    {
        self.tool_input = Some(event);
    }

    /// An invocation is done: record its result.
    pub fn on_invocation_result(&mut self, event: InvocationResultNotification, state: Option<String>)
        ensures
            final(self).events().drop_last() == old(self).events(),
            final(self).events().len() == old(self).events().len() + 1,
            result_event_matches(event, final(self).events().last().event),
            final(self).events().last().state == state,
            final(self).tool_input() == old(self).tool_input(),
            final(self).termination() == old(self).termination(),
            final(self).finalized() == old(self).finalized(),
    {
        let ghost before = self.trace.events@;
        self.trace.events.push(Event::from_invocation_result(event).into_event_and_state(state));
        assert(self.trace.events@.drop_last() =~= before);
    }

    /// The task is done: keep its termination.
    pub fn on_termination(&mut self, event: TerminationNotification)
        ensures
            final(self).events() == old(self).events(),
            final(self).tool_input() == old(self).tool_input(),
            final(self).termination() == Some(event),
            final(self).finalized() == old(self).finalized(),
    {
        self.termination = Some(event);
    }

    /// The trace: unless it is complete, the event that ends it is added
    /// first - the conclusions of the termination, one per line, or the
    /// maximum number of steps reached when there was none - the termination
    /// is used up and the trace is complete from then on, so that later calls
    /// give it back as it is.
    pub fn trace(&mut self, state: Option<String>) -> (t: Trace)
        ensures
            traced(*old(self), *final(self), state, t),
    {
        if self.finalized {
            return self.trace.clone();
        }
        let ghost before = self.trace.events@;
        let termination = self.termination.take();
        let end = match termination {
            Some(t) => {
                let mut parts: Vec<String> = Vec::new();
                for i in 0..t.messages.len()
                    invariant
                        strings_view(parts@) == conclusions(t.messages@.take(i as int)),
                {
                    let ghost old_parts = parts@;
                    parts.push(t.messages[i].conclusion.clone());
                    let ghost c = t.messages@[i as int].conclusion@;
                    assert(strings_view(parts@) =~= strings_view(old_parts).push(c));
                    assert(t.messages@.take(i + 1) =~= t.messages@.take(i as int).push(t.messages@[i as int]));
                    assert(conclusions(t.messages@.take(i + 1)) =~= conclusions(t.messages@.take(i as int)).push(c));
                }
                assert(t.messages@.take(t.messages.len() as int) =~= t.messages@);
                let conclusion = join_strings(&parts, "\n");
                Event::End(CompletionStatus::Concluded { conclusion })
            },
            None => Event::End(CompletionStatus::MaxStepsReached),
        };
        self.trace.events.push(end.into_event_and_state(state));
        self.finalized = true;
        assert(self.trace.events@.drop_last() =~= before);
        self.trace.clone()
    }
}

} // verus!
