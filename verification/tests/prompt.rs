use sapiens::context::ChatHistory;
use sapiens::models::openai::OpenAI;
use sapiens::models::{Role, SupportedModel};
use sapiens::prompt::{sort_by_name, Manager, Task};
use sapiens::text::text_before;
use sapiens::tools::{Format, ToolDescription};
use sapiens::tools::invocation::Error;
use sapiens::tools::ToolUseError;

fn manager() -> Manager {
    Manager::new(
        "[]\n".to_string(),
        "You are an agent named Sapiens interacting with the WORLD. Listen to the WORLD!".to_string(),
        "Do you have the answer? Use the Conclude Tool to terminate the task.\nObservations, Orientation, Decision, The ONLY Action?".to_string(),
        "Sapiens:".to_string(),
        "Tool:".to_string(),
        "Something very long with Observations, Orientation, Decision, Action\n\n".to_string(),
    )
}

#[test]
fn warm_up_puts_the_tools_last() {
    assert_eq!(
        manager().create_tool_warm_up(),
        "Sapiens:Something very long with Observations, Orientation, Decision, Action\n\nTool:[]\n"
    );
    assert_eq!(
        manager().create_system_prompt(),
        "You are an agent named Sapiens interacting with the WORLD. Listen to the WORLD!"
    );
}

#[test]
fn task_prompt_recalls_the_question() {
    let task = manager().build_task_prompt("How old is the universe?");
    assert_eq!(
        task.to_prompt(),
        "# Your turn\nOriginal question: How old is the universe?\nDo you have the answer? Use the Conclude Tool to terminate the task.\nObservations, Orientation, Decision, The ONLY Action?"
    );
}

#[test]
fn action_prompts() {
    assert_eq!(
        Task::action_success_prompt("Search", 1, "a: 1\n"),
        "# Action Search response: \n```yaml\na: 1\n```"
    );
    assert_eq!(
        Task::action_success_prompt("Search", 3, "a: 1\n"),
        "# Action Search response: \nYou must give only one Action at a time. There was 3. Only the first one was considered.\n```yaml\na: 1\n```"
    );
    assert_eq!(
        Task::action_failed_prompt("Search", &ToolUseError::ToolNotFound("Search".to_string())),
        "# Action Search failed with:\nToolNotFound(\"Search\")\nSomething was incorrect in previous response."
    );
    assert_eq!(
        Task::invalid_action_prompt(&Error::TooManyYamlBlocks(2)),
        "# No valid Action found:\nTooManyYamlBlocks(2)\nSomething was incorrect in previous response."
    );
}

#[test]
fn manager_fills_the_context() {
    let model = OpenAI::new(SupportedModel::GPT3_5Turbo);
    let mut chat_history = ChatHistory::new(&model, 4096, 256);
    manager().populate_chat_history(
        &mut chat_history,
        vec![("What is 1 + 1?".to_string(), "2".to_string())],
    );
    let input = chat_history.make_input();
    let context: Vec<(Role, String)> = input.context.iter().map(|e| (e.role, e.msg.clone())).collect();
    assert_eq!(
        context,
        vec![
            (
                Role::System,
                "You are an agent named Sapiens interacting with the WORLD. Listen to the WORLD!".to_string()
            ),
            (
                Role::User,
                "Sapiens:Something very long with Observations, Orientation, Decision, Action\n\nTool:[]".to_string()
            ),
        ]
    );
    assert_eq!(input.examples.len(), 1);
    assert_eq!(input.examples[0].0.msg, "What is 1 + 1?");
    assert_eq!(input.examples[0].1.role, Role::Assistant);
    assert!(input.chat.is_empty());
}

fn description(name: &str) -> ToolDescription {
    ToolDescription::new(name, "a tool", Format::from_fields(vec![]), Format::from_fields(vec![]))
}

#[test]
fn tools_are_listed_by_name() {
    let sorted = sort_by_name(vec![description("Search"), description("Conclude"), description("SandboxedPython")]);
    let names: Vec<&str> = sorted.iter().map(|d| d.name.as_str()).collect();
    assert_eq!(names, vec!["Conclude", "SandboxedPython", "Search"]);
    assert!(sort_by_name(vec![]).is_empty());
}

#[test]
fn text_order_is_the_order_of_str() {
    for (a, b) in [("a", "b"), ("ab", "a"), ("", "x"), ("Z", "a"), ("é", "z"), ("same", "same")] {
        assert_eq!(text_before(a, b), a < b, "{} < {}", a, b);
    }
}
