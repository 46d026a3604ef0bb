//! A tool to test stuffs.

use vstd::prelude::*;

use crate::text::push_str;
use crate::tools::{fields_view, Describe, FieldFormat, Format, ProtoToolDescribe, ToolDescription, ToolUseError};

verus! {

/// A tool that is called to test stuffs.
pub struct DummyTool {}

/// The input of the dummy tool.
pub struct DummyToolInput {
    /// Well. MANDATORY.
    pub blah: String,
}

/// The output of the dummy tool.
pub struct DummyToolOutput {
    /// Not much.
    pub something: String,
}

impl DummyTool {
    /// Create a new dummy tool.
    pub fn new() -> (t: Self) {
        DummyTool {}
    }

    /// Answer the input followed by ` and something else`.
    pub fn invoke_typed(&self, input: &DummyToolInput) -> (r: Result<DummyToolOutput, ToolUseError>)
        ensures
            r matches Ok(o) && o.something@ == input.blah@ + " and something else"@,
    {
        let mut something = input.blah.clone();
        push_str(&mut something, " and something else");
        Ok(DummyToolOutput { something })
    }
}

impl Describe for DummyToolInput {
    fn describe() -> (f: Format)
        ensures
            fields_view(f) == seq![
                ("blah"@, "str"@, false, "Well. MANDATORY."@),
            ],
    {
        let mut fields: Vec<FieldFormat> = Vec::new();
        fields.push(FieldFormat {
            name: String::from_str("blah"),
            ty: String::from_str("str"),
            optional: false,
            description: String::from_str("Well. MANDATORY."),
        });
        Format::from_fields(fields)
    }
}

impl Describe for DummyToolOutput {
    fn describe() -> (f: Format)
        ensures
            fields_view(f) == seq![
                ("something"@, "str"@, false, "Not much."@),
            ],
    {
        let mut fields: Vec<FieldFormat> = Vec::new();
        fields.push(FieldFormat {
            name: String::from_str("something"),
            ty: String::from_str("str"),
            optional: false,
            description: String::from_str("Not much."),
        });
        Format::from_fields(fields)
    }
}

impl ProtoToolDescribe for DummyTool {
    fn description(&self) -> (d: ToolDescription)
        ensures
            d.name@ == "Dummy"@,
            d.description@ == "A tool to test stuffs. Use this to test stuffs."@,
    {
        ToolDescription::new(
            "Dummy",
            "A tool to test stuffs. Use this to test stuffs.",
            DummyToolInput::describe(),
            DummyToolOutput::describe(),
        )
    }
}

} // verus!
