//! Tools: their descriptions, their errors and the invocations found in the
//! model's answers.

use vstd::prelude::*;

use crate::text::{decimal, prefixed, push_str, to_decimal, wrapped};

/// Tools to extract Tool invocations from a messages
pub mod invocation;

/// Collection of tools: usage statistics and invocation results
pub mod toolbox;

/// How the type of a field is shown to the model
pub mod describe;

/// Tools about the lights of a home
pub mod hue;

/// A tool to test stuffs
pub mod dummy;

/// The tool that concludes a task
pub mod conclude;

pub use invocation::Error as InvocationError;

verus! {

/// A YAML value: what a tool takes and gives back. Its content is carried
/// through unread.
#[verifier::external_type_specification]
#[verifier::external_body]
pub struct ExYamlValue(serde_yaml::Value);

/// The debug notation of a string (`format!("{:?}", s)`): the string quoted,
/// with its special characters escaped.
pub uninterp spec fn string_debug(s: Seq<char>) -> Seq<char>;

/// The debug notation of a string slice (`format!("{:?}", s)`).
#[verifier::external_body]
pub(crate) fn debug_quoted(s: &str) -> (r: String)
    ensures
        r@ == string_debug(s@),
{
    format!("{:?}", s)
}

/// Part of a [`Format`].
pub struct FieldFormat {
    /// Name of the field
    pub name: String,
    /// Type of the field
    pub ty: String,
    /// True if the field is optional
    pub optional: bool,
    /// Description of the field
    pub description: String,
}

impl Clone for FieldFormat {
    fn clone(&self) -> (r: Self)
        ensures
            r == *self,
    {
        FieldFormat {
            name: self.name.clone(),
            ty: self.ty.clone(),
            optional: self.optional,
            description: self.description.clone(),
        }
    }
}

/// How a field is described to the model: `<type> description`, followed
/// by ` (optional)` for an optional field.
pub open spec fn field_summary(ty: Seq<char>, description: Seq<char>, optional: bool) -> Seq<char> {
    let base = "<"@ + ty + "> "@ + description;
    if optional { base + " (optional)"@ } else { base }
}

impl FieldFormat {
    /// How the field is described to the model: `<type> description`,
    /// followed by ` (optional)` for an optional field.
    pub fn summary(&self) -> (s: String)
        ensures
            s@ == field_summary(self.ty@, self.description@, self.optional),
    {
        let mut s = String::from_str("<");
        push_str(&mut s, self.ty.as_str());
        push_str(&mut s, "> ");
        push_str(&mut s, self.description.as_str());
        if self.optional {
            push_str(&mut s, " (optional)");
        }
        s
    }
}

/// Input or output format of a tool.
pub struct Format {
    /// Fields of the format
    pub fields: Vec<FieldFormat>,
}

impl Format {
    /// The format made of `fields`.
    pub fn from_fields(fields: Vec<FieldFormat>) -> (f: Format)
        ensures
            f.fields@ == fields@,
    {
        Format { fields }
    }

    /// The name and summary of each field, in order: what the format is
    /// serialized to.
    pub fn entries(&self) -> (r: Vec<(String, String)>)
        ensures
            r@.len() == self.fields@.len(),
            forall|i: int| 0 <= i < r@.len() ==> {
                &&& (#[trigger] r@[i]).0@ == self.fields@[i].name@
                &&& r@[i].1@ == field_summary(
                    self.fields@[i].ty@,
                    self.fields@[i].description@,
                    self.fields@[i].optional,
                )
            },
    {
        let mut r: Vec<(String, String)> = Vec::new();
        for i in 0..self.fields.len()
            invariant
                r@.len() == i,
                forall|k: int| 0 <= k < i ==> {
                    &&& (#[trigger] r@[k]).0@ == self.fields@[k].name@
                    &&& r@[k].1@ == field_summary(
                        self.fields@[k].ty@,
                        self.fields@[k].description@,
                        self.fields@[k].optional,
                    )
                },
        {
            let f = &self.fields[i];
            r.push((f.name.clone(), f.summary()));
        }
        r
    }
}

impl Clone for Format {
    fn clone(&self) -> (r: Self)
        ensures
            r.fields@ == self.fields@,
    {
        Format { fields: self.fields.clone() }
    }
}

/// The fields of a format, in order: the name, the type, whether the field
/// is optional, and the description of each.
pub open spec fn fields_view(f: Format) -> Seq<(Seq<char>, Seq<char>, bool, Seq<char>)> {
    f.fields@.map_values(|x: FieldFormat| (x.name@, x.ty@, x.optional, x.description@))
}

/// Input or output format of a tool.
pub trait Describe {
    /// Describe the format
    fn describe() -> Format;
}

/// Tool description.
pub struct ToolDescription {
    /// Name of the tool
    pub name: String,
    /// Description of the tool
    pub description: String,
    /// Input format
    pub input_format: Format,
    /// Output format
    pub output_format: Format,
}

impl ToolDescription {
    /// Create a new tool description.
    pub fn new(name: &str, description: &str, input_format: Format, output_format: Format) -> (d: Self)
        ensures
            d.name@ == name@,
            d.description@ == description@,
            d.input_format == input_format,
            d.output_format == output_format,
    {
        ToolDescription {
            name: String::from_str(name),
            description: String::from_str(description),
            input_format,
            output_format,
        }
    }
}

impl Clone for ToolDescription {
    fn clone(&self) -> (r: Self)
        ensures
            r.name == self.name,
            r.description == self.description,
            r.input_format.fields@ == self.input_format.fields@,
            r.output_format.fields@ == self.output_format.fields@,
    {
        ToolDescription {
            name: self.name.clone(),
            description: self.description.clone(),
            input_format: self.input_format.clone(),
            output_format: self.output_format.clone(),
        }
    }
}

/// Something meant to become a tool - description.
pub trait ProtoToolDescribe {
    /// the description of the tool
    fn description(&self) -> ToolDescription;
}

/// Error while using a tool.
#[derive(Debug)]
pub enum ToolUseError {
    /// Tool not found
    ToolNotFound(String),
    /// Tool invocation failed
    InvocationFailed(String),
    /// Failed to serialize the output
    InvalidOutput(String),
    /// Failed to deserialize the input
    InvalidInput(String),
    /// Invalid input
    InvalidInvocation(InvocationError),
    /// Too many invocation found
    TooManyInvocationFound,
    /// No action found
    NoActionFound,
}

impl Clone for ToolUseError {
    fn clone(&self) -> (r: Self)
        ensures
            r == *self,
    {
        match self {
            ToolUseError::ToolNotFound(s) => ToolUseError::ToolNotFound(s.clone()),
            ToolUseError::InvocationFailed(s) => ToolUseError::InvocationFailed(s.clone()),
            ToolUseError::InvalidOutput(s) => ToolUseError::InvalidOutput(s.clone()),
            ToolUseError::InvalidInput(s) => ToolUseError::InvalidInput(s.clone()),
            ToolUseError::InvalidInvocation(e) => ToolUseError::InvalidInvocation(e.clone()),
            ToolUseError::TooManyInvocationFound => ToolUseError::TooManyInvocationFound,
            ToolUseError::NoActionFound => ToolUseError::NoActionFound,
        }
    }
}

/// The debug notation of a tool use error (`format!("{:?}", e)`).
pub open spec fn tool_use_error_debug(e: ToolUseError) -> Seq<char> {
    match e {
        ToolUseError::ToolNotFound(s) => "ToolNotFound("@ + string_debug(s@) + ")"@,
        ToolUseError::InvocationFailed(s) => "InvocationFailed("@ + string_debug(s@) + ")"@,
        ToolUseError::InvalidOutput(s) => "InvalidOutput("@ + string_debug(s@) + ")"@,
        ToolUseError::InvalidInput(s) => "InvalidInput("@ + string_debug(s@) + ")"@,
        ToolUseError::InvalidInvocation(e) => "InvalidInvocation("@ + invocation::error_debug(e) + ")"@,
        ToolUseError::TooManyInvocationFound => "TooManyInvocationFound"@,
        ToolUseError::NoActionFound => "NoActionFound"@,
    }
}

/// The message of a tool use error (`e.to_string()`).
pub open spec fn tool_use_error_message(e: ToolUseError) -> Seq<char> {
    match e {
        ToolUseError::ToolNotFound(s) => "Tool not found: "@ + s@,
        ToolUseError::InvocationFailed(s) => "Tool invocation failed: "@ + s@,
        ToolUseError::InvalidOutput(s) => "Failed to serialize the output: "@ + s@,
        ToolUseError::InvalidInput(s) => "Failed to deserialize the input: "@ + s@,
        ToolUseError::InvalidInvocation(e) => "Invalid invocation: "@ + invocation::error_message(e),
        ToolUseError::TooManyInvocationFound => "Too many invocation found"@,
        ToolUseError::NoActionFound => "No action found"@,
    }
}

impl ToolUseError {
    /// The debug notation of the error (`format!("{:?}", e)`).
    pub fn debug_string(&self) -> (s: String)
        ensures
            s@ == tool_use_error_debug(*self),
    {
        match self {
            ToolUseError::ToolNotFound(m) => wrapped("ToolNotFound(", debug_quoted(m.as_str()).as_str(), ")"),
            ToolUseError::InvocationFailed(m) => wrapped("InvocationFailed(", debug_quoted(m.as_str()).as_str(), ")"),
            ToolUseError::InvalidOutput(m) => wrapped("InvalidOutput(", debug_quoted(m.as_str()).as_str(), ")"),
            ToolUseError::InvalidInput(m) => wrapped("InvalidInput(", debug_quoted(m.as_str()).as_str(), ")"),
            ToolUseError::InvalidInvocation(e) => wrapped("InvalidInvocation(", e.debug_string().as_str(), ")"),
            ToolUseError::TooManyInvocationFound => String::from_str("TooManyInvocationFound"),
            ToolUseError::NoActionFound => String::from_str("NoActionFound"),
        }
    }

    /// The message of the error (`e.to_string()`).
    pub fn message(&self) -> (s: String)
        ensures
            s@ == tool_use_error_message(*self),
    {
        match self {
            ToolUseError::ToolNotFound(m) => prefixed("Tool not found: ", m.as_str()),
            ToolUseError::InvocationFailed(m) => prefixed("Tool invocation failed: ", m.as_str()),
            ToolUseError::InvalidOutput(m) => prefixed("Failed to serialize the output: ", m.as_str()),
            ToolUseError::InvalidInput(m) => prefixed("Failed to deserialize the input: ", m.as_str()),
            ToolUseError::InvalidInvocation(e) => prefixed("Invalid invocation: ", e.message().as_str()),
            ToolUseError::TooManyInvocationFound => String::from_str("Too many invocation found"),
            ToolUseError::NoActionFound => String::from_str("No action found"),
        }
    }
}

/// A termination message: what is sent to the user when a chain of
/// exchanges terminates.
#[derive(Debug)]
pub struct TerminationMessage {
    /// The final textual answer for the task.
    pub conclusion: String,
    /// The original question that was asked to the user.
    pub original_question: String,
}

impl Clone for TerminationMessage {
    fn clone(&self) -> (r: Self)
        ensures
            r == *self,
    {
        TerminationMessage {
            conclusion: self.conclusion.clone(),
            original_question: self.original_question.clone(),
        }
    }
}

/// A tool that can terminate a chain of exchanges.
pub trait TerminalTool {
    /// done flag.
    fn is_done(&self) -> (b: bool)
        default_ensures
            !b,
    {
        false
    }

    /// Take the done flag.
    fn take_done(&mut self) -> (r: Option<TerminationMessage>)
        default_ensures
            r is None,
    {
        None
    }
}

/// A tool invocation found in a message: the tool's name, its parameters
/// and the other fields, which do not belong there.
pub struct ToolInvocationInput {
    /// The tool to invoke
    pub tool_name: String,
    /// The input to the tool
    pub parameters: serde_yaml::Value,
    /// The other fields, by name
    pub junk: Vec<(String, serde_yaml::Value)>,
}

/// Choose the invocation to run among those found: the first one, without
/// the fields that do not belong to an invocation.
pub fn choose_invocation(tool_invocations: Vec<ToolInvocationInput>) -> (r: Result<ToolInvocationInput, InvocationError>)
    ensures
        tool_invocations@.len() == 0 ==> r == Err::<ToolInvocationInput, InvocationError>(InvocationError::NoInvocationFound),
        tool_invocations@.len() > 0 ==> (r matches Ok(inv) && {
            &&& inv.tool_name == tool_invocations@[0].tool_name
            &&& inv.parameters == tool_invocations@[0].parameters
            &&& inv.junk@.len() == 0
        }),
{
    if tool_invocations.len() == 0 {
        return Err(InvocationError::NoInvocationFound);
    }
    let mut tool_invocations = tool_invocations;
    let mut invocation = tool_invocations.swap_remove(0);
    invocation.junk = Vec::new();
    Ok(invocation)
}

} // verus!
