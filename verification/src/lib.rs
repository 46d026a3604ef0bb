//! Sapiens: a language model that uses tools to interact with the world.
//!
//! This crate holds the logic of the interaction between a task, a language
//! model and a set of tools: the chat history kept within the model's token
//! budget, the prompts, the extraction of tool invocations from the model's
//! answers, the agents and schedulers of the OODA chains, and the records of
//! runs.

pub mod bot;
pub mod chain;
pub mod chains;
pub mod context;
pub mod exp;
pub mod models;
pub mod prompt;
pub mod runner;
pub mod text;
pub mod tools;

use vstd::prelude::*;

verus! {

/// Configuration of the agents.
pub struct SapiensConfig<M> {
    /// The model to use
    pub model: M,
    /// The maximum number of steps
    pub max_steps: usize,
    /// The minimum number of tokens that need to be available for completion
    pub min_tokens_for_completion: usize,
    /// Maximum number of tokens for the model to generate
    pub max_tokens: Option<usize>,
}

impl<M> SapiensConfig<M> {
    /// The configuration for `model` with the default limits: ten steps, 256
    /// tokens kept for the completion, no limit on what the model generates.
    pub fn new(model: M) -> (c: Self)
        ensures
            c.model == model,
            c.max_steps == 10,
            c.min_tokens_for_completion == 256,
            c.max_tokens is None,
    {
        SapiensConfig { model, max_steps: 10, min_tokens_for_completion: 256, max_tokens: None }
    }
}

impl<M: Clone> Clone for SapiensConfig<M> {
    /// A copy of the configuration, with a clone of the model.
    fn clone(&self) -> (c: Self)
        ensures
            c.max_steps == self.max_steps,
            c.min_tokens_for_completion == self.min_tokens_for_completion,
            c.max_tokens == self.max_tokens,
    {
        SapiensConfig {
            model: self.model.clone(),
            max_steps: self.max_steps,
            min_tokens_for_completion: self.min_tokens_for_completion,
            max_tokens: self.max_tokens,
        }
    }
}

} // verus!

verus! {

use crate::chains::Message;
use crate::context::ChatEntry;
use crate::models::{ModelResponse, Role, Usage};
use crate::tools::invocation::Error as InvocationError;
use crate::tools::toolbox::InvokeResult;
use crate::tools::{TerminationMessage, ToolUseError};

/// An update from the model.
pub struct ModelNotification {
    /// The message from the model
    pub chat_entry: ChatEntry,
    /// The number of tokens used by the model
    pub usage: Option<Usage>,
}

/// The notification of a response of the model: its message, from the
/// assistant, and its usage.
pub open spec fn model_notification(res: ModelResponse) -> ModelNotification {
    ModelNotification { chat_entry: ChatEntry { role: Role::Assistant, msg: res.msg }, usage: res.usage }
}

impl From<ModelResponse> for ModelNotification {
    fn from(res: ModelResponse) -> (n: Self) {
        ModelNotification { chat_entry: ChatEntry { role: Role::Assistant, msg: res.msg }, usage: res.usage }
    }
}

impl vstd::std_specs::convert::FromSpecImpl<ModelResponse> for ModelNotification {
    open spec fn obeys_from_spec() -> bool {
        true
    }

    open spec fn from_spec(v: ModelResponse) -> ModelNotification {
        model_notification(v)
    }
}

/// A message from a scheduler.
pub struct MessageNotification {
    /// The message from the scheduler
    pub message: Message,
}

impl From<Message> for MessageNotification {
    fn from(message: Message) -> (n: Self) {
        MessageNotification { message }
    }
}

impl vstd::std_specs::convert::FromSpecImpl<Message> for MessageNotification {
    open spec fn obeys_from_spec() -> bool {
        true
    }

    open spec fn from_spec(v: Message) -> MessageNotification {
        MessageNotification { message: v }
    }
}

/// Invocation success notification.
pub struct InvocationSuccessNotification {
    /// The number of invocation blocks in the message
    pub invocation_count: usize,
    /// The tool name
    pub tool_name: String,
    /// The input that was extracted from the message and passed to `tool_name`
    pub extracted_input: String,
    /// The result
    pub result: String,
}

/// Invocation failure notification.
pub struct InvocationFailureNotification {
    /// Number of invocation blocks in the message
    pub invocation_count: usize,
    /// The tool name
    pub tool_name: String,
    /// The input that was extracted from the message and passed to `tool_name`
    pub extracted_input: String,
    /// The error
    pub e: ToolUseError,
}

/// Invalid invocation notification.
pub struct InvalidInvocationNotification {
    /// The error
    pub e: InvocationError,
    /// Number of invocation blocks in the message
    pub invocation_count: usize,
}

/// Notification of the result of a tool invocation.
pub enum InvocationResultNotification {
    /// Invocation success notification
    InvocationSuccess(InvocationSuccessNotification),
    /// Invocation failure notification
    InvocationFailure(InvocationFailureNotification),
    /// Invalid invocation notification
    InvalidInvocation(InvalidInvocationNotification),
}

/// The notification of the result of an invocation: a message without an
/// invocation is an invalid invocation with no invocation block.
pub open spec fn invocation_notification(res: InvokeResult) -> InvocationResultNotification {
    match res {
        InvokeResult::NoInvocationsFound { e } => InvocationResultNotification::InvalidInvocation(
            InvalidInvocationNotification { e, invocation_count: 0 },
        ),
        InvokeResult::NoValidInvocationsFound { e, invocation_count } => InvocationResultNotification::InvalidInvocation(
            InvalidInvocationNotification { e, invocation_count },
        ),
        InvokeResult::Success { invocation_count, tool_name, extracted_input, result } =>
            InvocationResultNotification::InvocationSuccess(
            InvocationSuccessNotification { invocation_count, tool_name, extracted_input, result },
        ),
        InvokeResult::Error { invocation_count, tool_name, extracted_input, e } =>
            InvocationResultNotification::InvocationFailure(
            InvocationFailureNotification { invocation_count, tool_name, extracted_input, e },
        ),
    }
}

impl From<InvokeResult> for InvocationResultNotification {
    fn from(res: InvokeResult) -> (n: Self) {
        match res {
            InvokeResult::NoInvocationsFound { e } => InvocationResultNotification::InvalidInvocation(
                InvalidInvocationNotification { e, invocation_count: 0 },
            ),
            InvokeResult::NoValidInvocationsFound { e, invocation_count } =>
                InvocationResultNotification::InvalidInvocation(
                InvalidInvocationNotification { e, invocation_count },
            ),
            InvokeResult::Success { invocation_count, tool_name, extracted_input, result } =>
                InvocationResultNotification::InvocationSuccess(
                InvocationSuccessNotification { invocation_count, tool_name, extracted_input, result },
            ),
            InvokeResult::Error { invocation_count, tool_name, extracted_input, e } =>
                InvocationResultNotification::InvocationFailure(
                InvocationFailureNotification { invocation_count, tool_name, extracted_input, e },
            ),
        }
    }
}

impl vstd::std_specs::convert::FromSpecImpl<InvokeResult> for InvocationResultNotification {
    open spec fn obeys_from_spec() -> bool {
        true
    }

    open spec fn from_spec(v: InvokeResult) -> InvocationResultNotification {
        invocation_notification(v)
    }
}

/// Termination notification.
pub struct TerminationNotification {
    /// The messages
    pub messages: Vec<TerminationMessage>,
}

/// Observer of the progress of a task. Each method is called on an event of
/// the run and does nothing unless the observer says otherwise.
pub trait RuntimeObserver {
    /// Called when the task is submitted.
    fn on_task(&mut self, task: &str) {
    }

    /// Called on start, with the initial context.
    fn on_start(&mut self, context: crate::chains::ContextDump) {
    }

    /// Called when the model returns something.
    fn on_model_update(&mut self, event: ModelNotification) {
    }

    /// Called when the scheduler has selected a message.
    fn on_message(&mut self, event: MessageNotification) {
    }

    /// Called when the tool invocation was done.
    fn on_invocation_result(&mut self, event: InvocationResultNotification) {
    }

    /// Called when the task is done.
    fn on_termination(&mut self, event: TerminationNotification) {
    }
}

/// An observer that ignores every event.
pub struct VoidTaskProgressUpdateObserver;

impl RuntimeObserver for VoidTaskProgressUpdateObserver {
}

/// The task is done.
pub struct Stop {
    /// The termination messages
    pub termination_messages: Vec<TerminationMessage>,
}

} // verus!

verus! {

/// The state machine of a task: `T` is what takes the next step (the
/// runtime of the chain), until a step ends the task.
pub enum TaskState<T> {
    /// The task is not done yet
    Step {
        /// What takes the next step
        step: T,
    },
    /// The task is done
    Stop {
        /// The stopped task
        stop: Stop,
    },
}

/// A copy of termination messages, in their order.
fn copy_terminations(m: &Vec<TerminationMessage>) -> (r: Vec<TerminationMessage>)
    ensures
        r@ == m@,
{
    let mut r: Vec<TerminationMessage> = Vec::new();
    let mut i: usize = 0;
    while i < m.len()
        invariant
            i <= m.len(),
            r@ == m@.subrange(0, i as int),
        decreases m.len() - i,
    {
        r.push(m[i].clone());
        i = i + 1;
    }
    r
}

impl<T> TaskState<T> {
    /// A task whose first step `step` is about to take.
    pub fn new(step: T) -> (t: Self)
        ensures
            t == (TaskState::Step::<T> { step }),
    {
        TaskState::Step { step }
    }

    /// What follows a step that gave these termination messages: the task
    /// stops as soon as there is one, with those messages, and goes on with
    /// the same `step` while there is none.
    pub fn after_step(step: T, termination_messages: Vec<TerminationMessage>) -> (t: Self)
        ensures
            termination_messages@.len() == 0 ==> t == (TaskState::Step::<T> { step }),
            termination_messages@.len() > 0 ==> (t matches TaskState::Stop { stop }
                && stop.termination_messages@ == termination_messages@),
    {
        if termination_messages.len() > 0 {
            TaskState::Stop { stop: Stop { termination_messages } }
        } else {
            TaskState::Step { step }
        }
    }

    /// Whether the task is done: its termination messages once it is,
    /// `None` while it is not.
    pub fn is_done(&self) -> (r: Option<Vec<TerminationMessage>>)
        ensures
            match self {
                TaskState::Step { .. } => r is None,
                TaskState::Stop { stop } => r matches Some(m) && m@ == stop.termination_messages@,
            },
    {
        match self {
            TaskState::Step { .. } => None,
            TaskState::Stop { stop } => Some(copy_terminations(&stop.termination_messages)),
        }
    }
}

} // verus!
