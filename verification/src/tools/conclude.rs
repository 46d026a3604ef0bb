//! The tool that concludes a task.

use vstd::prelude::*;

use crate::tools::{
    fields_view, Describe, FieldFormat, Format, ProtoToolDescribe, TerminalTool, TerminationMessage, ToolDescription, ToolUseError,
};

verus! {

/// The input of the conclude tool.
pub struct ConcludeToolInput {
    /// The final textual answer for the task. No string interpolation
    /// supported. Plain text ONLY. MANDATORY.
    pub conclusion: String,
    /// The original question that was asked to the user. No string
    /// interpolation supported, only plain text. MANDATORY.
    pub original_question: String,
}

/// The output of the conclude tool: empty.
pub struct ConcludeToolOutput {}

/// The termination message that a conclusion makes.
pub open spec fn termination_of(input: ConcludeToolInput) -> TerminationMessage {
    TerminationMessage { conclusion: input.conclusion, original_question: input.original_question }
}

impl From<ConcludeToolInput> for TerminationMessage {
    fn from(input: ConcludeToolInput) -> (m: Self) {
        TerminationMessage { conclusion: input.conclusion, original_question: input.original_question }
    }
}

impl vstd::std_specs::convert::FromSpecImpl<ConcludeToolInput> for TerminationMessage {
    open spec fn obeys_from_spec() -> bool {
        true
    }

    open spec fn from_spec(v: ConcludeToolInput) -> TerminationMessage {
        termination_of(v)
    }
}

/// The answer to a second conclusion: the sentence that the task is
/// already done, which starts with `This`.
pub open spec fn already_done() -> Seq<char> {
    "This "@ + "task is already done."@
}

/// A tool that is called to wrap up the task: it keeps the conclusion until
/// it is taken.
pub struct ConcludeTool {
    done: Option<ConcludeToolInput>,
}

impl ConcludeTool {
    /// The conclusion kept, if any.
    pub closed spec fn done(&self) -> Option<ConcludeToolInput> {
        self.done
    }

    /// A tool with no conclusion yet.
    pub fn new() -> (t: Self)
        ensures
            t.done() is None,
    {
        ConcludeTool { done: None }
    }

    /// Conclude the task; a task already concluded, and not taken since,
    /// cannot be concluded again.
    pub fn invoke_typed(&mut self, input: ConcludeToolInput) -> (r: Result<ConcludeToolOutput, ToolUseError>)
        ensures
            old(self).done() is Some ==> final(self).done() == old(self).done() && (r matches Err(
                ToolUseError::InvocationFailed(m),
            ) && m@ == already_done()),
            old(self).done() is None ==> final(self).done() == Some(input) && r is Ok,
    {
        if self.done.is_some() {
            return Err(ToolUseError::InvocationFailed(crate::text::prefixed("This ", "task is already done.")));
        }
        self.done = Some(input);
        Ok(ConcludeToolOutput {})
    }
}

impl Default for ConcludeTool {
    fn default() -> (t: Self)
        ensures
            t.done() is None,
    {
        ConcludeTool::new()
    }
}

impl TerminalTool for ConcludeTool {
    /// Is there a conclusion?
    fn is_done(&self) -> (b: bool)
        ensures
            b == self.done() is Some,
    {
        self.done.is_some()
    }

    /// Take the conclusion, as a termination message.
    fn take_done(&mut self) -> (r: Option<TerminationMessage>)
        ensures
            final(self).done() is None,
            match old(self).done() {
                Some(i) => r == Some(termination_of(i)),
                None => r is None,
            },
    {
        match self.done.take() {
            Some(input) => Some(TerminationMessage::from(input)),
            None => None,
        }
    }
}

impl Describe for ConcludeToolInput {
    fn describe() -> (f: Format)
        ensures
            fields_view(f) == seq![
                ("conclusion"@, "str"@, false, "The final textual answer for the task. No string interpolation supported. Plain text ONLY. MANDATORY."@),
                ("original_question"@, "str"@, false, "The original question that was asked to the user. No string interpolation supported, only plain text. MANDATORY."@),
            ],
    {
        let mut fields: Vec<FieldFormat> = Vec::new();
        fields.push(FieldFormat {
            name: String::from_str("conclusion"),
            ty: String::from_str("str"),
            optional: false,
            description: String::from_str(
                "The final textual answer for the task. No string interpolation supported. Plain text ONLY. MANDATORY.",
            ),
        });
        fields.push(FieldFormat {
            name: String::from_str("original_question"),
            ty: String::from_str("str"),
            optional: false,
            description: String::from_str(
                "The original question that was asked to the user. No string interpolation supported, only plain text. MANDATORY.",
            ),
        });
        Format::from_fields(fields)
    }
}

impl Describe for ConcludeToolOutput {
    fn describe() -> (f: Format)
        ensures
            fields_view(f) == Seq::<(Seq<char>, Seq<char>, bool, Seq<char>)>::empty(),
    {
        Format::from_fields(Vec::new())
    }
}

impl ProtoToolDescribe for ConcludeTool {
    fn description(&self) -> (d: ToolDescription)
        ensures
            d.name@ == "Conclude"@,
            d.description@ == "A tool to conclude a task. You have to use this to once you have the answer to the task with your conclusion."@,
    {
        ToolDescription::new(
            "Conclude",
            "A tool to conclude a task. You have to use this to once you have the answer to the task with your conclusion.",
            ConcludeToolInput::describe(),
            ConcludeToolOutput::describe(),
        )
    }
}

} // verus!
