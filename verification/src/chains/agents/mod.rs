//! Agents of the chains.

use vstd::prelude::*;

use crate::context;
use crate::models;

/// OODA agents
pub mod ooda;

verus! {

/// Error from the agent.
#[derive(Debug)]
pub enum Error {
    /// Failed to add to the chat history
    ChatHistoryError(context::Error),
    /// Error from the model
    ModelError(models::Error),
}

/// The message of an agent error (`e.to_string()`).
pub open spec fn agent_error_message(e: Error) -> Seq<char> {
    match e {
        Error::ChatHistoryError(h) => "Failed to add to the chat history: "@ + context::history_error_message(h),
        Error::ModelError(m) => "Error from the model: "@ + models::model_error_message(m),
    }
}

impl Error {
    /// The message of the error (`e.to_string()`).
    pub fn message(&self) -> (s: String)
        ensures
            s@ == agent_error_message(*self),
    {
        match self {
            Error::ChatHistoryError(h) => crate::text::prefixed("Failed to add to the chat history: ", h.message().as_str()),
            Error::ModelError(m) => crate::text::prefixed("Error from the model: ", m.message().as_str()),
        }
    }
}

} // verus!

verus! {

use crate::chains::Outcome;
use crate::prompt::{action_failed_note, action_success_text, invalid_action_text, Task};
use crate::text::{decimal, push_str, to_decimal};
use crate::tools::{string_debug, ToolUseError};
use vstd::utf8::encode_utf8;

/// Maximum number of bytes of an action's response.
pub const MAX_RESPONSE_CHAR: usize = 2048;

/// The number of bytes of the UTF-8 encoding of `s`, as `str::len`
/// gives it.
pub open spec fn byte_len(s: Seq<char>) -> usize {
    encode_utf8(s).len() as usize
}

/// What the agents call a tool whose name is not known.
pub open spec fn tool_label(tool_name: Option<String>) -> Seq<char> {
    match tool_name {
        Some(n) => n@,
        None => "unknown"@,
    }
}

/// The note that replaces a response of `len` bytes that is too long.
pub open spec fn too_long_note(len: nat) -> Seq<char> {
    "The response is too long ("@ + decimal(len) + "B). Max allowed is "@ + decimal(MAX_RESPONSE_CHAR as nat)
        + "B. Ask for a shorter response or use SandboxedPython Tool to process the response the data."@
}

/// What the agents tell the model of the outcome of an action: the
/// response of the tool, unless it is longer than [`MAX_RESPONSE_CHAR`]
/// bytes, in which case the action is reported as failed; the invalid
/// action; or the failure of the action.
pub open spec fn outcome_note(invocation_count: nat, tool_name: Option<String>, outcome: Outcome) -> Seq<char> {
    let name = tool_label(tool_name);
    match outcome {
        Outcome::Success { result } => {
            let ok = action_success_text(name, invocation_count, result@);
            let len = byte_len(ok);
            if len > MAX_RESPONSE_CHAR {
                action_failed_note(name, "InvocationFailed("@ + string_debug(too_long_note(len as nat)) + ")"@)
            } else {
                ok
            }
        },
        Outcome::NoValidInvocationsFound { e } => invalid_action_text(e),
        Outcome::NoInvocationsFound { e } => invalid_action_text(e),
        Outcome::ToolUseError { e } => action_failed_note(name, crate::tools::tool_use_error_debug(e)),
    }
}

/// What the agents tell the model of the outcome of an action, followed by
/// the task's prompt.
pub open spec fn outcome_text(task_prompt: Seq<char>, invocation_count: nat, tool_name: Option<String>, outcome: Outcome) -> Seq<char> {
    outcome_note(invocation_count, tool_name, outcome) + "\n"@ + task_prompt
}

fn label(tool_name: &Option<String>) -> (s: String)
    ensures
        s@ == tool_label(*tool_name),
{
    match tool_name {
        Some(n) => n.clone(),
        None => String::from_str("unknown"),
    }
}

/// Format the outcome of an action for the model.
pub fn format_outcome_note(invocation_count: usize, tool_name: &Option<String>, outcome: &Outcome) -> (s: String)
    ensures
        s@ == outcome_note(invocation_count as nat, *tool_name, *outcome),
{
    let name = label(tool_name);
    match outcome {
        Outcome::Success { result } => {
            let msg = Task::action_success_prompt(name.as_str(), invocation_count, result.as_str());
            let len = msg.as_str().len();
            if len > MAX_RESPONSE_CHAR {
                let mut note = String::from_str("The response is too long (");
                push_str(&mut note, to_decimal(len).as_str());
                push_str(&mut note, "B). Max allowed is ");
                push_str(&mut note, to_decimal(MAX_RESPONSE_CHAR).as_str());
                push_str(&mut note, "B. Ask for a shorter response or use SandboxedPython Tool to process the response the data.");
                let e = ToolUseError::InvocationFailed(note);
                Task::action_failed_prompt(name.as_str(), &e)
            } else {
                msg
            }
        },
        Outcome::NoValidInvocationsFound { e } => Task::invalid_action_prompt(e),
        Outcome::NoInvocationsFound { e } => Task::invalid_action_prompt(e),
        Outcome::ToolUseError { e } => Task::action_failed_prompt(name.as_str(), e),
    }
}

/// Format the outcome of an action for the model, followed by the task's
/// prompt.
pub fn format_outcome(task: &Task, invocation_count: usize, tool_name: &Option<String>, outcome: &Outcome) -> (s: String)
    ensures
        s@ == outcome_text(task.prompt(), invocation_count as nat, *tool_name, *outcome),
{
    let mut msg = format_outcome_note(invocation_count, tool_name, outcome);
    push_str(&mut msg, "\n");
    push_str(&mut msg, task.to_prompt().as_str());
    msg
}

} // verus!
