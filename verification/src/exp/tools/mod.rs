//! The state of a scenario, held by its tools, and how the tools update it.

use vstd::prelude::*;

use crate::tools::{Describe, ToolDescription, ToolUseError};

/// Scenario 0: preparing a cereal bowl
pub mod scenario_0;

verus! {

/// The state of a scenario.
pub trait State {
    /// Reset the state to its initial state.
    fn reset(&mut self);

    /// Has the state reached an accepting state?
    fn has_reached_accepting_state(&self) -> bool;

    /// The name of the state.
    fn state(&self) -> String;
}

/// The description of a tool that takes an `I` and answers an `O`: its
/// formats are those that `I` and `O` describe.
pub fn describe_tool<I: Describe, O: Describe>(name: &str, description: &str) -> (d: ToolDescription)
    ensures
        d.name@ == name@,
        d.description@ == description@,
{
    ToolDescription::new(name, description, I::describe(), O::describe())
}

/// Something that updates the state of the system and produces an output.
pub trait StateUpdater<S, O> {
    /// Update the state of the system and produce an output.
    fn update(&self, state: &mut S) -> Result<O, ToolUseError>;
}

} // verus!
