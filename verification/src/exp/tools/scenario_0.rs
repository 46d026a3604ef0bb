//! Scenario 0: *"Make a cereal bowl"*, with several ways to a single
//! solution.
//!
//! The sub-tasks are to get the bowl, the cereal and the milk, to add the
//! cereal and the milk to the bowl, and to serve the bowl. The tools are a
//! closet (get something), a mixing tool (add something to the bowl) and a
//! serving tool (serve the bowl). The task is accomplished when the bowl,
//! with the cereal and the milk in it, is served.

use vstd::prelude::*;

use crate::exp::tools::{describe_tool, State, StateUpdater};
use crate::tools::{fields_view, Describe, FieldFormat, Format, ToolDescription, ToolUseError};

verus! {

use crate::exp::tools::scenario_0::CerealBowlRecipeInput as I;
use crate::exp::tools::scenario_0::CerealBowlRecipeOutput as O;
use crate::exp::tools::scenario_0::CerealBowlRecipeState as S;

/// The states of the recipe.
#[derive(Clone, Copy, PartialEq, Eq, Structural, Debug)]
pub enum CerealBowlRecipeState {
    /// Nothing yet
    NoBowlNoCerealNoMilk,
    /// The bowl only
    BowlNoCerealNoMilk,
    /// The cereal only
    NoBowlCerealNoMilk,
    /// The milk only
    NoBowlNoCerealMilk,
    /// The bowl and the cereal
    BowlCerealNoMilk,
    /// The bowl and the milk
    BowlNoCerealMilk,
    /// The cereal and the milk
    NoBowlCerealMilk,
    /// The bowl, the cereal and the milk
    BowlCerealMilk,
    /// The cereal in the bowl, no milk yet
    NoMilkBowlWithCereal,
    /// The milk in the bowl, no cereal yet
    NoCerealBowlWithMilk,
    /// The cereal in the bowl, the milk at hand
    BowlWithCereal,
    /// The milk in the bowl, the cereal at hand
    BowlWithMilk,
    /// The cereal and the milk in the bowl
    BowlWithCerealAndMilk,
    /// The bowl is served
    Served,
}

/// The inputs of the recipe.
#[derive(Clone, Copy, PartialEq, Eq, Structural, Debug)]
pub enum CerealBowlRecipeInput {
    /// Get the bowl
    GetBowl,
    /// Get the cereal
    GetCereal,
    /// Get the milk
    GetMilk,
    /// Add the cereal to the bowl
    AddCerealToBowl,
    /// Add the milk to the bowl
    AddMilkToBowl,
    /// Serve the bowl
    ServeBowl,
}

/// The outputs of the recipe.
#[derive(Clone, Copy, PartialEq, Eq, Structural, Debug)]
pub enum CerealBowlRecipeOutput {
    /// The bowl was found
    BowlFound,
    /// The cereal was found
    CerealFound,
    /// The milk was found
    MilkFound,
    /// The cereal was added
    CerealAdded,
    /// The milk was added
    MilkAdded,
    /// The bowl was accepted
    Accepted,
}

/// The transitions of the recipe: the next state and the output, or none
/// when the input is refused in that state.
pub open spec fn transition(s: CerealBowlRecipeState, i: CerealBowlRecipeInput) -> Option<(CerealBowlRecipeState, CerealBowlRecipeOutput)> {
    match (s, i) {
        (S::NoBowlNoCerealNoMilk, I::GetBowl) => Some((S::BowlNoCerealNoMilk, O::BowlFound)),
        (S::NoBowlNoCerealNoMilk, I::GetCereal) => Some((S::NoBowlCerealNoMilk, O::CerealFound)),
        (S::NoBowlNoCerealNoMilk, I::GetMilk) => Some((S::NoBowlNoCerealMilk, O::MilkFound)),
        (S::BowlNoCerealNoMilk, I::GetCereal) => Some((S::BowlCerealNoMilk, O::CerealFound)),
        (S::BowlNoCerealNoMilk, I::GetMilk) => Some((S::BowlNoCerealMilk, O::MilkFound)),
        (S::BowlNoCerealNoMilk, I::GetBowl) => Some((S::BowlNoCerealNoMilk, O::BowlFound)),
        (S::NoBowlCerealNoMilk, I::GetBowl) => Some((S::BowlCerealNoMilk, O::BowlFound)),
        (S::NoBowlCerealNoMilk, I::GetMilk) => Some((S::NoBowlCerealMilk, O::MilkFound)),
        (S::NoBowlCerealNoMilk, I::GetCereal) => Some((S::NoBowlCerealNoMilk, O::CerealFound)),
        (S::NoBowlNoCerealMilk, I::GetBowl) => Some((S::BowlNoCerealMilk, O::BowlFound)),
        (S::NoBowlNoCerealMilk, I::GetCereal) => Some((S::NoBowlNoCerealMilk, O::CerealFound)),
        (S::NoBowlNoCerealMilk, I::GetMilk) => Some((S::NoBowlNoCerealMilk, O::MilkFound)),
        (S::BowlCerealNoMilk, I::GetBowl) => Some((S::BowlCerealNoMilk, O::BowlFound)),
        (S::BowlCerealNoMilk, I::GetCereal) => Some((S::BowlCerealNoMilk, O::CerealFound)),
        (S::BowlCerealNoMilk, I::GetMilk) => Some((S::BowlCerealMilk, O::MilkFound)),
        (S::BowlCerealNoMilk, I::AddCerealToBowl) => Some((S::NoMilkBowlWithCereal, O::CerealAdded)),
        (S::BowlNoCerealMilk, I::GetBowl) => Some((S::BowlNoCerealMilk, O::BowlFound)),
        (S::BowlNoCerealMilk, I::GetCereal) => Some((S::BowlCerealMilk, O::CerealFound)),
        (S::BowlNoCerealMilk, I::GetMilk) => Some((S::BowlNoCerealMilk, O::MilkFound)),
        (S::BowlNoCerealMilk, I::AddMilkToBowl) => Some((S::NoCerealBowlWithMilk, O::MilkAdded)),
        (S::NoBowlCerealMilk, I::GetBowl) => Some((S::BowlCerealMilk, O::BowlFound)),
        (S::NoBowlCerealMilk, I::GetCereal) => Some((S::NoBowlCerealMilk, O::CerealFound)),
        (S::NoBowlCerealMilk, I::GetMilk) => Some((S::NoBowlCerealMilk, O::MilkFound)),
        (S::NoMilkBowlWithCereal, I::GetMilk) => Some((S::BowlWithCereal, O::MilkFound)),
        (S::NoCerealBowlWithMilk, I::GetCereal) => Some((S::BowlWithMilk, O::CerealFound)),
        (S::BowlCerealMilk, I::AddCerealToBowl) => Some((S::BowlWithCereal, O::CerealAdded)),
        (S::BowlCerealMilk, I::AddMilkToBowl) => Some((S::BowlWithMilk, O::MilkAdded)),
        (S::BowlWithCereal, I::AddMilkToBowl) => Some((S::BowlWithCerealAndMilk, O::MilkAdded)),
        (S::BowlWithMilk, I::AddCerealToBowl) => Some((S::BowlWithCerealAndMilk, O::CerealAdded)),
        (S::BowlWithCerealAndMilk, I::ServeBowl) => Some((S::Served, O::Accepted)),
        _ => None,
    }
}

/// The state after `i`: the next state, or the same one when `i` is
/// refused.
pub open spec fn after_input(s: CerealBowlRecipeState, i: CerealBowlRecipeInput) -> CerealBowlRecipeState {
    match transition(s, i) {
        Some((t, _)) => t,
        None => s,
    }
}

/// The state after each of the inputs in turn.
pub open spec fn run(s: CerealBowlRecipeState, inputs: Seq<CerealBowlRecipeInput>) -> CerealBowlRecipeState
    decreases inputs.len(),
{
    if inputs.len() == 0 {
        s
    } else {
        after_input(run(s, inputs.drop_last()), inputs.last())
    }
}

/// Is `i` a step that must have been taken to reach `s`?
pub open spec fn step_done(s: CerealBowlRecipeState, i: CerealBowlRecipeInput) -> bool {
    let bowl = !(s is NoBowlNoCerealNoMilk || s is NoBowlCerealNoMilk || s is NoBowlNoCerealMilk || s is NoBowlCerealMilk);
    let cereal = !(s is NoBowlNoCerealNoMilk || s is BowlNoCerealNoMilk || s is NoBowlNoCerealMilk || s is BowlNoCerealMilk
        || s is NoCerealBowlWithMilk);
    let milk = !(s is NoBowlNoCerealNoMilk || s is BowlNoCerealNoMilk || s is NoBowlCerealNoMilk || s is BowlCerealNoMilk
        || s is NoMilkBowlWithCereal);
    let cereal_added = s is NoMilkBowlWithCereal || s is BowlWithCereal || s is BowlWithCerealAndMilk || s is Served;
    let milk_added = s is NoCerealBowlWithMilk || s is BowlWithMilk || s is BowlWithCerealAndMilk || s is Served;
    match i {
        I::GetBowl => bowl,
        I::GetCereal => cereal,
        I::GetMilk => milk,
        I::AddCerealToBowl => cereal_added,
        I::AddMilkToBowl => milk_added,
        I::ServeBowl => s is Served,
    }
}

/// Each transition keeps the steps taken to reach the state it leaves, and
/// adds at most its own input.
pub proof fn lemma_transition_keeps_steps(s: CerealBowlRecipeState, i: CerealBowlRecipeInput, j: CerealBowlRecipeInput)
    ensures
        step_done(after_input(s, i), j) ==> step_done(s, j) || j == i,
{
}

/// The steps taken to reach the state after the inputs are among the
/// inputs.
pub proof fn lemma_run_steps_among_inputs(inputs: Seq<CerealBowlRecipeInput>, j: CerealBowlRecipeInput)
    ensures
        step_done(run(CerealBowlRecipeState::NoBowlNoCerealNoMilk, inputs), j) ==> inputs.contains(j),
    decreases inputs.len(),
{
    if inputs.len() > 0 {
        let prev = inputs.drop_last();
        lemma_run_steps_among_inputs(prev, j);
        lemma_transition_keeps_steps(run(CerealBowlRecipeState::NoBowlNoCerealNoMilk, prev), inputs.last(), j);
        if step_done(run(CerealBowlRecipeState::NoBowlNoCerealNoMilk, inputs), j) {
            if prev.contains(j) {
                let k = choose|k: int| 0 <= k < prev.len() && prev[k] == j;
                assert(inputs[k] == j);
            } else {
                assert(inputs[inputs.len() - 1] == j);
            }
        }
    }
}

/// The bowl is served only once the bowl, the cereal and the milk were got,
/// the cereal and the milk added to the bowl and the bowl served: whatever
/// inputs lead from the initial state to the accepting state hold each of
/// the six steps.
pub proof fn lemma_served_needs_every_step(inputs: Seq<CerealBowlRecipeInput>)
    requires
        run(CerealBowlRecipeState::NoBowlNoCerealNoMilk, inputs) == CerealBowlRecipeState::Served,
    ensures
        inputs.contains(CerealBowlRecipeInput::GetBowl),
        inputs.contains(CerealBowlRecipeInput::GetCereal),
        inputs.contains(CerealBowlRecipeInput::GetMilk),
        inputs.contains(CerealBowlRecipeInput::AddCerealToBowl),
        inputs.contains(CerealBowlRecipeInput::AddMilkToBowl),
        inputs.contains(CerealBowlRecipeInput::ServeBowl),
{
    lemma_run_steps_among_inputs(inputs, CerealBowlRecipeInput::GetBowl);
    lemma_run_steps_among_inputs(inputs, CerealBowlRecipeInput::GetCereal);
    lemma_run_steps_among_inputs(inputs, CerealBowlRecipeInput::GetMilk);
    lemma_run_steps_among_inputs(inputs, CerealBowlRecipeInput::AddCerealToBowl);
    lemma_run_steps_among_inputs(inputs, CerealBowlRecipeInput::AddMilkToBowl);
    lemma_run_steps_among_inputs(inputs, CerealBowlRecipeInput::ServeBowl);
}

/// Once served, the bowl stays served: every input is refused.
pub proof fn lemma_served_is_final(i: CerealBowlRecipeInput)
    ensures
        transition(CerealBowlRecipeState::Served, i) is None,
        after_input(CerealBowlRecipeState::Served, i) == CerealBowlRecipeState::Served,
{
}

/// The only way to the accepting state is to serve the bowl with the cereal
/// and the milk in it.
pub proof fn lemma_accepted_only_by_serving(s: CerealBowlRecipeState, i: CerealBowlRecipeInput)
    requires
        s != CerealBowlRecipeState::Served,
        after_input(s, i) == CerealBowlRecipeState::Served,
    ensures
        s == CerealBowlRecipeState::BowlWithCerealAndMilk,
        i == CerealBowlRecipeInput::ServeBowl,
        transition(s, i) == Some((CerealBowlRecipeState::Served, CerealBowlRecipeOutput::Accepted)),
{
}

/// The state after each of the inputs in turn, each of them accepted: none
/// when one of them is refused.
pub open spec fn accepted_run(s: CerealBowlRecipeState, inputs: Seq<CerealBowlRecipeInput>) -> Option<CerealBowlRecipeState>
    decreases inputs.len(),
{
    if inputs.len() == 0 {
        Some(s)
    } else {
        match accepted_run(s, inputs.drop_last()) {
            Some(t) => match transition(t, inputs.last()) {
                Some((u, _)) => Some(u),
                None => None,
            },
            None => None,
        }
    }
}

/// Accepting an input, then others, is accepting them all from where it
/// started.
proof fn lemma_accepted_prepend(
    s: CerealBowlRecipeState,
    i: CerealBowlRecipeInput,
    t: CerealBowlRecipeState,
    q: Seq<CerealBowlRecipeInput>,
)
    requires
        transition(s, i) matches Some((u, _)) && u == t,
    ensures
        accepted_run(s, seq![i] + q) == accepted_run(t, q),
    decreases q.len(),
{
    let e = Seq::<CerealBowlRecipeInput>::empty();
    if q.len() == 0 {
        assert(seq![i] + q =~= seq![i]);
        assert(seq![i].drop_last() =~= e);
        assert(accepted_run(s, e) == Some(s));
        assert(accepted_run(t, e) == Some(t));
        assert(q =~= e);
    } else {
        lemma_accepted_prepend(s, i, t, q.drop_last());
        assert((seq![i] + q).drop_last() =~= seq![i] + q.drop_last());
        assert((seq![i] + q).last() == q.last());
    }
}

/// How far a state is from the served bowl.
spec fn steps_left(s: CerealBowlRecipeState) -> nat {
    match s {
        S::Served => 0,
        S::BowlWithCerealAndMilk => 1,
        S::BowlWithCereal | S::BowlWithMilk => 2,
        S::BowlCerealMilk | S::NoMilkBowlWithCereal | S::NoCerealBowlWithMilk => 3,
        S::BowlCerealNoMilk | S::BowlNoCerealMilk | S::NoBowlCerealMilk => 4,
        S::BowlNoCerealNoMilk | S::NoBowlCerealNoMilk | S::NoBowlNoCerealMilk => 5,
        S::NoBowlNoCerealNoMilk => 6,
    }
}

/// An input that brings a state closer to the served bowl.
spec fn step_toward_served(s: CerealBowlRecipeState) -> CerealBowlRecipeInput {
    match s {
        S::BowlWithCerealAndMilk | S::Served => I::ServeBowl,
        S::BowlWithCereal => I::AddMilkToBowl,
        S::BowlWithMilk | S::BowlCerealMilk => I::AddCerealToBowl,
        S::NoMilkBowlWithCereal => I::GetMilk,
        S::NoCerealBowlWithMilk => I::GetCereal,
        S::BowlCerealNoMilk => I::GetMilk,
        S::BowlNoCerealMilk => I::GetCereal,
        S::NoBowlCerealMilk => I::GetBowl,
        S::BowlNoCerealNoMilk => I::GetCereal,
        S::NoBowlCerealNoMilk => I::GetBowl,
        S::NoBowlNoCerealMilk => I::GetBowl,
        S::NoBowlNoCerealNoMilk => I::GetBowl,
    }
}

/// The bowl can always still be served: from every state, some inputs, each
/// of them accepted, lead to the served bowl - the recipe has no dead end,
/// whatever was got or added first.
pub proof fn lemma_served_stays_reachable(s: CerealBowlRecipeState)
    ensures
        exists|p: Seq<CerealBowlRecipeInput>| #[trigger] accepted_run(s, p) == Some(CerealBowlRecipeState::Served),
{
    lemma_served_reachable_from(s);
}

proof fn lemma_served_reachable_from(s: CerealBowlRecipeState)
    ensures
        exists|p: Seq<CerealBowlRecipeInput>| #[trigger] accepted_run(s, p) == Some(CerealBowlRecipeState::Served),
    decreases steps_left(s),
{
    if s == S::Served {
        assert(accepted_run(s, Seq::empty()) == Some(S::Served));
    } else {
        let i = step_toward_served(s);
        let t = transition(s, i)->Some_0.0;
        assert(transition(s, i) is Some);
        assert(steps_left(t) < steps_left(s));
        lemma_served_reachable_from(t);
        let q = choose|q: Seq<CerealBowlRecipeInput>| #[trigger] accepted_run(t, q) == Some(S::Served);
        lemma_accepted_prepend(s, i, t, q);
        assert(accepted_run(s, seq![i] + q) == Some(S::Served));
    }
}

/// The name of a state.
pub open spec fn state_name(s: CerealBowlRecipeState) -> Seq<char> {
    match s {
        S::NoBowlNoCerealNoMilk => "NoBowlNoCerealNoMilk"@,
        S::BowlNoCerealNoMilk => "BowlNoCerealNoMilk"@,
        S::NoBowlCerealNoMilk => "NoBowlCerealNoMilk"@,
        S::NoBowlNoCerealMilk => "NoBowlNoCerealMilk"@,
        S::BowlCerealNoMilk => "BowlCerealNoMilk"@,
        S::BowlNoCerealMilk => "BowlNoCerealMilk"@,
        S::NoBowlCerealMilk => "NoBowlCerealMilk"@,
        S::BowlCerealMilk => "BowlCerealMilk"@,
        S::NoMilkBowlWithCereal => "NoMilkBowlWithCereal"@,
        S::NoCerealBowlWithMilk => "NoCerealBowlWithMilk"@,
        S::BowlWithCereal => "BowlWithCereal"@,
        S::BowlWithMilk => "BowlWithMilk"@,
        S::BowlWithCerealAndMilk => "BowlWithCerealAndMilk"@,
        S::Served => "Served"@,
    }
}

fn name_of(s: CerealBowlRecipeState) -> (r: &'static str)
    ensures
        r@ == state_name(s),
{
    match s {
        S::NoBowlNoCerealNoMilk => "NoBowlNoCerealNoMilk",
        S::BowlNoCerealNoMilk => "BowlNoCerealNoMilk",
        S::NoBowlCerealNoMilk => "NoBowlCerealNoMilk",
        S::NoBowlNoCerealMilk => "NoBowlNoCerealMilk",
        S::BowlCerealNoMilk => "BowlCerealNoMilk",
        S::BowlNoCerealMilk => "BowlNoCerealMilk",
        S::NoBowlCerealMilk => "NoBowlCerealMilk",
        S::BowlCerealMilk => "BowlCerealMilk",
        S::NoMilkBowlWithCereal => "NoMilkBowlWithCereal",
        S::NoCerealBowlWithMilk => "NoCerealBowlWithMilk",
        S::BowlWithCereal => "BowlWithCereal",
        S::BowlWithMilk => "BowlWithMilk",
        S::BowlWithCerealAndMilk => "BowlWithCerealAndMilk",
        S::Served => "Served",
    }
}

fn next(s: CerealBowlRecipeState, i: CerealBowlRecipeInput) -> (r: Option<(CerealBowlRecipeState, CerealBowlRecipeOutput)>)
    ensures
        r == transition(s, i),
{
    match (s, i) {
        (S::NoBowlNoCerealNoMilk, I::GetBowl) => Some((S::BowlNoCerealNoMilk, O::BowlFound)),
        (S::NoBowlNoCerealNoMilk, I::GetCereal) => Some((S::NoBowlCerealNoMilk, O::CerealFound)),
        (S::NoBowlNoCerealNoMilk, I::GetMilk) => Some((S::NoBowlNoCerealMilk, O::MilkFound)),
        (S::BowlNoCerealNoMilk, I::GetCereal) => Some((S::BowlCerealNoMilk, O::CerealFound)),
        (S::BowlNoCerealNoMilk, I::GetMilk) => Some((S::BowlNoCerealMilk, O::MilkFound)),
        (S::BowlNoCerealNoMilk, I::GetBowl) => Some((S::BowlNoCerealNoMilk, O::BowlFound)),
        (S::NoBowlCerealNoMilk, I::GetBowl) => Some((S::BowlCerealNoMilk, O::BowlFound)),
        (S::NoBowlCerealNoMilk, I::GetMilk) => Some((S::NoBowlCerealMilk, O::MilkFound)),
        (S::NoBowlCerealNoMilk, I::GetCereal) => Some((S::NoBowlCerealNoMilk, O::CerealFound)),
        (S::NoBowlNoCerealMilk, I::GetBowl) => Some((S::BowlNoCerealMilk, O::BowlFound)),
        (S::NoBowlNoCerealMilk, I::GetCereal) => Some((S::NoBowlNoCerealMilk, O::CerealFound)),
        (S::NoBowlNoCerealMilk, I::GetMilk) => Some((S::NoBowlNoCerealMilk, O::MilkFound)),
        (S::BowlCerealNoMilk, I::GetBowl) => Some((S::BowlCerealNoMilk, O::BowlFound)),
        (S::BowlCerealNoMilk, I::GetCereal) => Some((S::BowlCerealNoMilk, O::CerealFound)),
        (S::BowlCerealNoMilk, I::GetMilk) => Some((S::BowlCerealMilk, O::MilkFound)),
        (S::BowlCerealNoMilk, I::AddCerealToBowl) => Some((S::NoMilkBowlWithCereal, O::CerealAdded)),
        (S::BowlNoCerealMilk, I::GetBowl) => Some((S::BowlNoCerealMilk, O::BowlFound)),
        (S::BowlNoCerealMilk, I::GetCereal) => Some((S::BowlCerealMilk, O::CerealFound)),
        (S::BowlNoCerealMilk, I::GetMilk) => Some((S::BowlNoCerealMilk, O::MilkFound)),
        (S::BowlNoCerealMilk, I::AddMilkToBowl) => Some((S::NoCerealBowlWithMilk, O::MilkAdded)),
        (S::NoBowlCerealMilk, I::GetBowl) => Some((S::BowlCerealMilk, O::BowlFound)),
        (S::NoBowlCerealMilk, I::GetCereal) => Some((S::NoBowlCerealMilk, O::CerealFound)),
        (S::NoBowlCerealMilk, I::GetMilk) => Some((S::NoBowlCerealMilk, O::MilkFound)),
        (S::NoMilkBowlWithCereal, I::GetMilk) => Some((S::BowlWithCereal, O::MilkFound)),
        (S::NoCerealBowlWithMilk, I::GetCereal) => Some((S::BowlWithMilk, O::CerealFound)),
        (S::BowlCerealMilk, I::AddCerealToBowl) => Some((S::BowlWithCereal, O::CerealAdded)),
        (S::BowlCerealMilk, I::AddMilkToBowl) => Some((S::BowlWithMilk, O::MilkAdded)),
        (S::BowlWithCereal, I::AddMilkToBowl) => Some((S::BowlWithCerealAndMilk, O::MilkAdded)),
        (S::BowlWithMilk, I::AddCerealToBowl) => Some((S::BowlWithCerealAndMilk, O::CerealAdded)),
        (S::BowlWithCerealAndMilk, I::ServeBowl) => Some((S::Served, O::Accepted)),
        _ => None,
    }
}

/// The state machine of the recipe.
pub struct StateMachine {
    state: CerealBowlRecipeState,
}

impl StateMachine {
    /// The current state.
    pub closed spec fn current(&self) -> CerealBowlRecipeState {
        self.state
    }

    /// A machine in the initial state, with nothing at hand.
    pub fn new() -> (m: Self)
        ensures
            m.current() == CerealBowlRecipeState::NoBowlNoCerealNoMilk,
    {
        StateMachine { state: CerealBowlRecipeState::NoBowlNoCerealNoMilk }
    }

    /// The current state.
    pub fn state(&self) -> (s: CerealBowlRecipeState)
        ensures
            s == self.current(),
    {
        self.state
    }

    /// Feed an input to the machine: it moves to the next state and returns
    /// the output of the transition, or it refuses the input and stays where
    /// it is.
    pub fn consume(&mut self, input: CerealBowlRecipeInput) -> (r: Option<CerealBowlRecipeOutput>)
        ensures
            final(self).current() == after_input(old(self).current(), input),
            match transition(old(self).current(), input) {
                Some((_, o)) => r == Some(o),
                None => r is None,
            },
    {
        match next(self.state, input) {
            Some((t, o)) => {
                self.state = t;
                Some(o)
            },
            None => None,
        }
    }
}

/// The state of scenario 0.
pub struct InternalState {
    /// The state machine of the recipe
    pub fsm: StateMachine,
}

impl InternalState {
    /// The initial state.
    pub fn new() -> (s: Self)
        ensures
            s.fsm.current() == CerealBowlRecipeState::NoBowlNoCerealNoMilk,
    {
        InternalState { fsm: StateMachine::new() }
    }

    /// The current state of the recipe.
    pub fn current_state(&self) -> (s: CerealBowlRecipeState)
        ensures
            s == self.fsm.current(),
    {
        self.fsm.state()
    }
}

impl Default for InternalState {
    fn default() -> (s: Self)
        ensures
            s.fsm.current() == CerealBowlRecipeState::NoBowlNoCerealNoMilk,
    {
        InternalState::new()
    }
}

impl State for InternalState {
    /// Back to the initial state.
    fn reset(&mut self)
        ensures
            final(self).fsm.current() == CerealBowlRecipeState::NoBowlNoCerealNoMilk,
    {
        self.fsm = StateMachine::new();
    }

    /// Is the bowl served?
    fn has_reached_accepting_state(&self) -> (b: bool)
        ensures
            b == (self.fsm.current() == CerealBowlRecipeState::Served),
    {
        self.fsm.state() == CerealBowlRecipeState::Served
    }

    /// The name of the current state.
    fn state(&self) -> (s: String)
        ensures
            s@ == state_name(self.fsm.current()),
    {
        String::from_str(name_of(self.fsm.state()))
    }
}

/// What sits in the closet.
#[derive(Clone, Copy, PartialEq, Eq, Structural, Debug)]
pub enum ClosetObject {
    /// Bowl
    Bowl,
    /// Cereal
    Cereal,
    /// Milk
    Milk,
}

/// The input of the closet.
pub struct ClosetInput {
    /// What to get. Value can be: Bowl, Cereal, or Milk. Only one at a time.
    pub get: ClosetObject,
}

/// The output of the closet.
pub struct ClosetOutput {
    /// Was the object found?
    pub found: bool,
    /// What was found (if any)?
    pub object: Option<ClosetObject>,
}

/// What the closet answers for the output of the machine: what was found,
/// if anything.
pub open spec fn closet_output(output: Option<CerealBowlRecipeOutput>) -> ClosetOutput {
    match output {
        Some(CerealBowlRecipeOutput::CerealFound) => ClosetOutput { found: true, object: Some(ClosetObject::Cereal) },
        Some(CerealBowlRecipeOutput::MilkFound) => ClosetOutput { found: true, object: Some(ClosetObject::Milk) },
        Some(CerealBowlRecipeOutput::BowlFound) => ClosetOutput { found: true, object: Some(ClosetObject::Bowl) },
        _ => ClosetOutput { found: false, object: None },
    }
}

impl From<Option<CerealBowlRecipeOutput>> for ClosetOutput {
    fn from(output: Option<CerealBowlRecipeOutput>) -> (r: Self) {
        match output {
            Some(CerealBowlRecipeOutput::CerealFound) => ClosetOutput { found: true, object: Some(ClosetObject::Cereal) },
            Some(CerealBowlRecipeOutput::MilkFound) => ClosetOutput { found: true, object: Some(ClosetObject::Milk) },
            Some(CerealBowlRecipeOutput::BowlFound) => ClosetOutput { found: true, object: Some(ClosetObject::Bowl) },
            _ => ClosetOutput { found: false, object: None },
        }
    }
}

impl vstd::std_specs::convert::FromSpecImpl<Option<CerealBowlRecipeOutput>> for ClosetOutput {
    open spec fn obeys_from_spec() -> bool {
        true
    }

    open spec fn from_spec(v: Option<CerealBowlRecipeOutput>) -> ClosetOutput {
        closet_output(v)
    }
}

/// The input of the machine that getting an object is.
pub open spec fn closet_input(o: ClosetObject) -> CerealBowlRecipeInput {
    match o {
        ClosetObject::Bowl => CerealBowlRecipeInput::GetBowl,
        ClosetObject::Cereal => CerealBowlRecipeInput::GetCereal,
        ClosetObject::Milk => CerealBowlRecipeInput::GetMilk,
    }
}

/// What the machine outputs for an input in a state, if it takes it.
pub open spec fn output_of(s: CerealBowlRecipeState, i: CerealBowlRecipeInput) -> Option<CerealBowlRecipeOutput> {
    match transition(s, i) {
        Some((_, o)) => Some(o),
        None => None,
    }
}

impl StateUpdater<InternalState, ClosetOutput> for ClosetInput {
    /// Get the object from the closet.
    fn update(&self, state: &mut InternalState) -> (r: Result<ClosetOutput, ToolUseError>)
        ensures
            final(state).fsm.current() == after_input(old(state).fsm.current(), closet_input(self.get)),
            r == Ok::<ClosetOutput, ToolUseError>(closet_output(output_of(old(state).fsm.current(), closet_input(self.get)))),
    {
        let input = match self.get {
            ClosetObject::Bowl => CerealBowlRecipeInput::GetBowl,
            ClosetObject::Cereal => CerealBowlRecipeInput::GetCereal,
            ClosetObject::Milk => CerealBowlRecipeInput::GetMilk,
        };
        let x = state.fsm.consume(input);
        Ok(ClosetOutput::from(x))
    }
}

/// What to pour in.
#[derive(Clone, Copy, PartialEq, Eq, Structural, Debug)]
pub enum Container {
    /// Bowl
    Bowl,
}

/// What to pour.
#[derive(Clone, Copy, PartialEq, Eq, Structural, Debug)]
pub enum Pourable {
    /// Cereal
    Cereal,
    /// Milk
    Milk,
}

/// The input of a mixing action.
pub struct MixingInput {
    /// What to pour in. Value can be: Bowl. You must have it first.
    pub container: Container,
    /// What to pour. Value can be: Cereal or Milk. You must have it first.
    pub pourable: Pourable,
}

/// The output of a mixing action.
pub struct MixingOutput {
    /// Was it poured?
    pub added: bool,
    /// What was poured (if any)?
    pub object: Option<Pourable>,
}

/// What the mixing tool answers for the output of the machine: what was
/// poured, if anything.
pub open spec fn mixing_output(output: Option<CerealBowlRecipeOutput>) -> MixingOutput {
    match output {
        Some(CerealBowlRecipeOutput::MilkAdded) => MixingOutput { added: true, object: Some(Pourable::Milk) },
        Some(CerealBowlRecipeOutput::CerealAdded) => MixingOutput { added: true, object: Some(Pourable::Cereal) },
        _ => MixingOutput { added: false, object: None },
    }
}

impl From<Option<CerealBowlRecipeOutput>> for MixingOutput {
    fn from(output: Option<CerealBowlRecipeOutput>) -> (r: Self) {
        match output {
            Some(CerealBowlRecipeOutput::MilkAdded) => MixingOutput { added: true, object: Some(Pourable::Milk) },
            Some(CerealBowlRecipeOutput::CerealAdded) => MixingOutput { added: true, object: Some(Pourable::Cereal) },
            _ => MixingOutput { added: false, object: None },
        }
    }
}

impl vstd::std_specs::convert::FromSpecImpl<Option<CerealBowlRecipeOutput>> for MixingOutput {
    open spec fn obeys_from_spec() -> bool {
        true
    }

    open spec fn from_spec(v: Option<CerealBowlRecipeOutput>) -> MixingOutput {
        mixing_output(v)
    }
}

/// The input of the machine that pouring is.
pub open spec fn mixing_input(p: Pourable) -> CerealBowlRecipeInput {
    match p {
        Pourable::Cereal => CerealBowlRecipeInput::AddCerealToBowl,
        Pourable::Milk => CerealBowlRecipeInput::AddMilkToBowl,
    }
}

impl StateUpdater<InternalState, MixingOutput> for MixingInput {
    /// Pour into the bowl.
    fn update(&self, state: &mut InternalState) -> (r: Result<MixingOutput, ToolUseError>)
        ensures
            final(state).fsm.current() == after_input(old(state).fsm.current(), mixing_input(self.pourable)),
            r == Ok::<MixingOutput, ToolUseError>(mixing_output(output_of(old(state).fsm.current(), mixing_input(self.pourable)))),
    {
        let input = match self.pourable {
            Pourable::Cereal => CerealBowlRecipeInput::AddCerealToBowl,
            Pourable::Milk => CerealBowlRecipeInput::AddMilkToBowl,
        };
        let x = state.fsm.consume(input);
        Ok(MixingOutput::from(x))
    }
}

/// What to serve.
#[derive(Clone, Copy, PartialEq, Eq, Structural, Debug)]
pub enum Serveable {
    /// Bowl
    Bowl,
}

/// The input of a serving action.
pub struct ServingInput {
    /// What to serve. Value can be: Bowl.
    pub serveable: Serveable,
}

/// The output of a serving action.
pub struct ServingOutput {
    /// Was it accepted? If not, maybe the bowl was not ready to be served.
    pub accepted: bool,
}

/// What the serving tool answers for the output of the machine.
pub open spec fn serving_output(output: Option<CerealBowlRecipeOutput>) -> ServingOutput {
    ServingOutput { accepted: output == Some(CerealBowlRecipeOutput::Accepted) }
}

impl From<Option<CerealBowlRecipeOutput>> for ServingOutput {
    fn from(output: Option<CerealBowlRecipeOutput>) -> (r: Self) {
        match output {
            Some(CerealBowlRecipeOutput::Accepted) => ServingOutput { accepted: true },
            _ => ServingOutput { accepted: false },
        }
    }
}

impl vstd::std_specs::convert::FromSpecImpl<Option<CerealBowlRecipeOutput>> for ServingOutput {
    open spec fn obeys_from_spec() -> bool {
        true
    }

    open spec fn from_spec(v: Option<CerealBowlRecipeOutput>) -> ServingOutput {
        serving_output(v)
    }
}

impl StateUpdater<InternalState, ServingOutput> for ServingInput {
    /// Serve the bowl.
    fn update(&self, state: &mut InternalState) -> (r: Result<ServingOutput, ToolUseError>)
        ensures
            final(state).fsm.current() == after_input(old(state).fsm.current(), CerealBowlRecipeInput::ServeBowl),
            r == Ok::<ServingOutput, ToolUseError>(serving_output(output_of(old(state).fsm.current(), CerealBowlRecipeInput::ServeBowl))),
    {
        let x = state.fsm.consume(CerealBowlRecipeInput::ServeBowl);
        Ok(ServingOutput::from(x))
    }
}

fn field(name: &str, ty: &str, optional: bool, description: &str) -> (f: FieldFormat)
    ensures
        f.name@ == name@,
        f.ty@ == ty@,
        f.optional == optional,
        f.description@ == description@,
{
    FieldFormat {
        name: String::from_str(name),
        ty: String::from_str(ty),
        optional,
        description: String::from_str(description),
    }
}

impl Describe for ClosetInput {
    fn describe() -> (f: Format)
        ensures
            fields_view(f) == seq![
                ("get"@, "ClosetObject"@, false, "what to get. Value can be: Bowl, Cereal, or Milk. Only one at a time."@),
            ],
    {
        let mut fields: Vec<FieldFormat> = Vec::new();
        fields.push(field("get", "ClosetObject", false, "what to get. Value can be: Bowl, Cereal, or Milk. Only one at a time."));
        Format::from_fields(fields)
    }
}

impl Describe for ClosetOutput {
    fn describe() -> (f: Format)
        ensures
            fields_view(f) == seq![
                ("found"@, "bool"@, false, "was the object found?"@),
                ("object"@, "ClosetObject"@, true, "what was found? (if any)"@),
            ],
    {
        let mut fields: Vec<FieldFormat> = Vec::new();
        fields.push(field("found", "bool", false, "was the object found?"));
        fields.push(field("object", "ClosetObject", true, "what was found? (if any)"));
        Format::from_fields(fields)
    }
}

impl Describe for MixingInput {
    fn describe() -> (f: Format)
        ensures
            fields_view(f) == seq![
                ("container"@, "Container"@, false, "What to pour in. Value can be: Bowl. You must have it first."@),
                ("pourable"@, "Pourable"@, false, "What to pour. Value can be: Cereal or Milk. You must have it first."@),
            ],
    {
        let mut fields: Vec<FieldFormat> = Vec::new();
        fields.push(field("container", "Container", false, "What to pour in. Value can be: Bowl. You must have it first."));
        fields.push(field("pourable", "Pourable", false, "What to pour. Value can be: Cereal or Milk. You must have it first."));
        Format::from_fields(fields)
    }
}

impl Describe for MixingOutput {
    fn describe() -> (f: Format)
        ensures
            fields_view(f) == seq![
                ("added"@, "bool"@, false, "was it poured?"@),
                ("object"@, "Pourable"@, true, "what was poured? (if any)"@),
            ],
    {
        let mut fields: Vec<FieldFormat> = Vec::new();
        fields.push(field("added", "bool", false, "was it poured?"));
        fields.push(field("object", "Pourable", true, "what was poured? (if any)"));
        Format::from_fields(fields)
    }
}

impl Describe for ServingInput {
    fn describe() -> (f: Format)
        ensures
            fields_view(f) == seq![
                ("serveable"@, "Serveable"@, false, "what to serve. Value can be: Bowl."@),
            ],
    {
        let mut fields: Vec<FieldFormat> = Vec::new();
        fields.push(field("serveable", "Serveable", false, "what to serve. Value can be: Bowl."));
        Format::from_fields(fields)
    }
}

impl Describe for ServingOutput {
    fn describe() -> (f: Format)
        ensures
            fields_view(f) == seq![
                ("accepted"@, "bool"@, false, "was it accepted? if not, maybe the bowl was not ready to be served."@),
            ],
    {
        let mut fields: Vec<FieldFormat> = Vec::new();
        fields.push(field("accepted", "bool", false, "was it accepted? if not, maybe the bowl was not ready to be served."));
        Format::from_fields(fields)
    }
}

/// The tools of the scenario, by name and description: the closet, where
/// the bowl, the cereal and the milk are found; the mixing, which pours
/// them in the bowl; and the serving, which serves the bowl.
pub fn tool_descriptions() -> (r: Vec<ToolDescription>)
    ensures
        r@.len() == 3,
        r@[0].name@ == "Closet"@,
        r@[0].description@ == "Place where to find stuffs."@,
        r@[1].name@ == "Mixing"@,
        r@[1].description@
            == "When you need to mix things in a container. You have to have them before using this tool."@,
        r@[2].name@ == "Serving"@,
        r@[2].description@ == "When the meal is ready, use this to serve it."@,
{
    let mut r: Vec<ToolDescription> = Vec::new();
    r.push(describe_tool::<ClosetInput, ClosetOutput>("Closet", "Place where to find stuffs."));
    r.push(
        describe_tool::<MixingInput, MixingOutput>(
            "Mixing",
            "When you need to mix things in a container. You have to have them before using this tool.",
        ),
    );
    r.push(describe_tool::<ServingInput, ServingOutput>("Serving", "When the meal is ready, use this to serve it."));
    r
}

} // verus!
