use sapiens::tools::conclude::{ConcludeTool, ConcludeToolInput};
use sapiens::tools::describe::pythonify;
use sapiens::tools::dummy::{DummyTool, DummyToolInput};
use sapiens::tools::hue::{FakeRoomTool, FakeStatusTool, RoomToolInput, StatusToolInput};
use sapiens::tools::toolbox::{Stats, ToolKind, Toolbox};
use sapiens::tools::{TerminalTool, ToolUseError};

fn room_names_and_lights(tool: &FakeRoomTool, filter: Vec<String>) -> Vec<(String, Vec<String>)> {
    let input = RoomToolInput { room_filter: filter };
    let output = match tool.invoke_typed(&input) {
        Ok(o) => o,
        Err(_) => panic!("the fake room tool failed"),
    };
    output.rooms.into_iter().map(|r| (r.name, r.lights)).collect()
}

#[test]
fn test_fake_room_tool() {
    let tool = FakeRoomTool::new();
    let rooms = room_names_and_lights(&tool, vec!["Bedroom".to_string()]);
    let expected = vec![("Bedroom".to_string(), vec!["1".to_string(), "2".to_string()])];
    assert_eq!(rooms, expected);
}

#[test]
fn test_fake_room_tool_empty_filter() {
    let tool = FakeRoomTool::new();
    let rooms = room_names_and_lights(&tool, vec![]);
    let expected = vec![
        ("Bedroom".to_string(), vec!["1".to_string(), "2".to_string()]),
        ("Living room".to_string(), vec!["3".to_string()]),
    ];
    assert_eq!(rooms, expected);
}

#[test]
fn fake_room_tool_unknown_room() {
    let tool = FakeRoomTool::new();
    let rooms = room_names_and_lights(&tool, vec!["Kitchen".to_string()]);
    assert!(rooms.is_empty());
}

fn light_ids(tool: &FakeStatusTool, filter: Option<Vec<String>>) -> Vec<String> {
    let input = StatusToolInput { light_filter: filter };
    match tool.invoke_typed(&input) {
        Ok(o) => o.lights.into_iter().map(|l| l.id).collect(),
        Err(_) => panic!("the fake status tool failed"),
    }
}

#[test]
fn fake_status_tool_filters_lights() {
    let tool = FakeStatusTool::new();
    assert_eq!(light_ids(&tool, None), vec!["1", "2", "3"]);
    assert_eq!(light_ids(&tool, Some(vec![])), vec!["1", "2", "3"]);
    assert_eq!(light_ids(&tool, Some(vec!["3".to_string(), "1".to_string()])), vec!["1", "3"]);
    assert!(light_ids(&tool, Some(vec!["7".to_string()])).is_empty());
}

#[test]
fn fake_status_tool_states() {
    let tool = FakeStatusTool::new();
    let input = StatusToolInput { light_filter: Some(vec!["1".to_string()]) };
    let output = match tool.invoke_typed(&input) {
        Ok(o) => o,
        Err(_) => panic!("the fake status tool failed"),
    };
    assert_eq!(output.lights.len(), 1);
    let bed = &output.lights[0];
    assert_eq!(bed.name, "Bed");
    assert_eq!(bed.state.on, Some(true));
    assert_eq!(bed.state.brightness, Some(126));
    assert_eq!(bed.state.hue, Some(2456));
    assert_eq!(bed.state.saturation, Some(55));
    assert_eq!(bed.state.color_temperature, Some(2500));
}

#[test]
fn dummy_tool_appends() {
    let tool = DummyTool::new();
    let input = DummyToolInput { blah: "blah".to_string() };
    match tool.invoke_typed(&input) {
        Ok(o) => assert_eq!(o.something, "blah and something else"),
        Err(_) => panic!("the dummy tool failed"),
    }
}

#[test]
fn conclude_tool_concludes_once() {
    let mut tool = ConcludeTool::new();
    assert!(!tool.is_done());
    let first = ConcludeToolInput { conclusion: "42".to_string(), original_question: "What?".to_string() };
    assert!(tool.invoke_typed(first).is_ok());
    assert!(tool.is_done());
    let second = ConcludeToolInput { conclusion: "43".to_string(), original_question: "What?".to_string() };
    match tool.invoke_typed(second) {
        Err(ToolUseError::InvocationFailed(m)) => assert_eq!(m, ["This", "task is already done."].join(" ")),
        _ => panic!("a second conclusion must fail"),
    }
    let message = tool.take_done().expect("the conclusion is kept");
    assert_eq!(message.conclusion, "42");
    assert_eq!(message.original_question, "What?");
    assert!(!tool.is_done());
    assert!(tool.take_done().is_none());
}

#[test]
fn pythonify_types() {
    assert_eq!(pythonify("Vec < String >"), "list[str]");
    assert_eq!(pythonify("Option<Vec<i32>>"), "Optional[list[int]]");
    assert_eq!(pythonify("std::collections::HashMap<String, f64>"), "std.collections.dict[str,float]");
    assert_eq!(pythonify("()"), "None");
    assert_eq!(pythonify("bool"), "bool");
}

#[test]
fn stats_count_per_tool() {
    let mut stats = Stats::new();
    stats.report_success("Search");
    stats.report_success("Search");
    stats.report_error("Search");
    stats.report_inexistent("Nope");
    assert_eq!(stats.success_count.get("Search"), 2);
    assert_eq!(stats.error_count.get("Search"), 1);
    assert_eq!(stats.inexistent_count.get("Nope"), 1);
    assert_eq!(stats.success_count.get("Nope"), 0);
}

#[test]
fn toolbox_routes_by_kind() {
    let mut tb = Toolbox::new();
    assert!(!tb.has_terminal_tools());
    tb.add_terminal_tool("Conclude");
    tb.add_tool("Dummy");
    tb.add_advanced_tool("SandboxedPython");
    tb.add_tool("SandboxedPython");
    assert!(tb.has_terminal_tools());
    assert!(matches!(tb.route("Conclude", true), Ok(ToolKind::Terminal)));
    assert!(matches!(tb.route("Dummy", true), Ok(ToolKind::Simple)));
    // an advanced tool comes first, unless advanced tools are left out
    assert!(matches!(tb.route("SandboxedPython", true), Ok(ToolKind::Advanced)));
    assert!(matches!(tb.route("SandboxedPython", false), Ok(ToolKind::Simple)));
    match tb.route("Nope", true) {
        Err(ToolUseError::ToolNotFound(n)) => assert_eq!(n, "Nope"),
        _ => panic!("no such tool"),
    }
    assert_eq!(tb.stats().inexistent_count.get("Nope"), 1);
    assert!(tb.settle("Dummy", Ok(serde_yaml::Value::Null)).is_ok());
    assert!(tb.settle("Dummy", Err(ToolUseError::InvocationFailed("x".to_string()))).is_err());
    let stats = tb.stats();
    assert_eq!(stats.success_count.get("Dummy"), 1);
    assert_eq!(stats.error_count.get("Dummy"), 1);
    tb.reset_stats();
    assert_eq!(tb.stats().success_count.get("Dummy"), 0);
}
