use sapiens::exp::tools::scenario_0::{
    CerealBowlRecipeInput, CerealBowlRecipeOutput, CerealBowlRecipeState, ClosetInput, ClosetObject,
    InternalState, MixingInput, Container, Pourable, ServingInput, Serveable, StateMachine,
};
use sapiens::exp::tools::{State, StateUpdater};
use sapiens::tools::ToolUseError;

#[test]
fn cereal_bowl() {
    let mut machine = StateMachine::new();
    println!("{:?}", machine.state());

    let _x = machine.consume(CerealBowlRecipeInput::GetBowl).unwrap();
    println!("{:?}", machine.state());
    let _x = machine.consume(CerealBowlRecipeInput::GetCereal).unwrap();
    println!("{:?}", machine.state());
    let _x = machine.consume(CerealBowlRecipeInput::GetMilk).unwrap();
    let x = machine.state();
    println!("{:?}", x);

    let _x = machine.consume(CerealBowlRecipeInput::AddCerealToBowl).unwrap();
    println!("{:?}", machine.state());
    let _x = machine.consume(CerealBowlRecipeInput::AddMilkToBowl).unwrap();
    println!("{:?}", machine.state());
    let _x = machine.consume(CerealBowlRecipeInput::ServeBowl).unwrap();
    println!("{:?}", machine.state());
}

struct Counter {
    counter: u32,
}

struct Output {
    counter: u32,
}

struct Input {
    increment: u32,
}

impl StateUpdater<u32, Output> for Input {
    fn update(&self, state: &mut u32) -> Result<Output, ToolUseError> {
        *state += self.increment;
        Ok(Output { counter: *state })
    }
}

#[test]
fn test_state_updater() {
    let mut state = Counter { counter: 0 };
    let input = Input { increment: 1 };
    let output = {
        let c = &mut state.counter;
        input.update(c)
    }
    .unwrap();
    assert_eq!(output.counter, 1);
    assert_eq!(state.counter, 1);

    let input = Input { increment: 2 };
    let output = input.update(&mut state.counter).unwrap();
    assert_eq!(output.counter, 3);
    assert_eq!(state.counter, 3);
}

#[test]
fn with_tools_reaches_the_accepting_state() {
    let mut state = InternalState::new();
    let closet = |state: &mut InternalState, get: ClosetObject| {
        let out = ClosetInput { get }.update(state).unwrap();
        assert!(out.found);
        assert_eq!(out.object, Some(get));
    };
    closet(&mut state, ClosetObject::Bowl);
    assert_eq!(state.current_state(), CerealBowlRecipeState::BowlNoCerealNoMilk);
    closet(&mut state, ClosetObject::Cereal);
    assert_eq!(state.current_state(), CerealBowlRecipeState::BowlCerealNoMilk);
    closet(&mut state, ClosetObject::Milk);
    assert_eq!(state.current_state(), CerealBowlRecipeState::BowlCerealMilk);

    let out = MixingInput { container: Container::Bowl, pourable: Pourable::Cereal }.update(&mut state).unwrap();
    assert!(out.added);
    assert_eq!(out.object, Some(Pourable::Cereal));
    assert_eq!(state.current_state(), CerealBowlRecipeState::BowlWithCereal);
    let out = MixingInput { container: Container::Bowl, pourable: Pourable::Milk }.update(&mut state).unwrap();
    assert!(out.added);
    assert_eq!(state.current_state(), CerealBowlRecipeState::BowlWithCerealAndMilk);
    assert!(!state.has_reached_accepting_state());

    let out = ServingInput { serveable: Serveable::Bowl }.update(&mut state).unwrap();
    assert!(out.accepted);
    assert_eq!(state.state(), "Served");
    assert!(state.has_reached_accepting_state());

    state.reset();
    assert_eq!(state.state(), "NoBowlNoCerealNoMilk");
}

#[test]
fn refused_inputs_leave_the_state() {
    let mut machine = StateMachine::new();
    assert_eq!(machine.consume(CerealBowlRecipeInput::ServeBowl), None);
    assert_eq!(machine.consume(CerealBowlRecipeInput::AddMilkToBowl), None);
    assert_eq!(machine.state(), CerealBowlRecipeState::NoBowlNoCerealNoMilk);
    assert_eq!(machine.consume(CerealBowlRecipeInput::GetMilk), Some(CerealBowlRecipeOutput::MilkFound));
    assert_eq!(machine.consume(CerealBowlRecipeInput::GetMilk), Some(CerealBowlRecipeOutput::MilkFound));
    assert_eq!(machine.state(), CerealBowlRecipeState::NoBowlNoCerealMilk);
    let mut state = InternalState::new();
    let out = ServingInput { serveable: Serveable::Bowl }.update(&mut state).unwrap();
    assert!(!out.accepted);
    let out = MixingInput { container: Container::Bowl, pourable: Pourable::Milk }.update(&mut state).unwrap();
    assert!(!out.added);
    assert_eq!(out.object, None);
}

#[test]
fn served_stays_served() {
    let mut machine = StateMachine::new();
    for i in [
        CerealBowlRecipeInput::GetCereal,
        CerealBowlRecipeInput::GetBowl,
        CerealBowlRecipeInput::GetMilk,
        CerealBowlRecipeInput::AddMilkToBowl,
        CerealBowlRecipeInput::AddCerealToBowl,
        CerealBowlRecipeInput::ServeBowl,
    ] {
        assert!(machine.consume(i).is_some());
    }
    assert_eq!(machine.state(), CerealBowlRecipeState::Served);
    for i in [CerealBowlRecipeInput::GetBowl, CerealBowlRecipeInput::ServeBowl] {
        assert_eq!(machine.consume(i), None);
        assert_eq!(machine.state(), CerealBowlRecipeState::Served);
    }
}
