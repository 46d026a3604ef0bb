use sapiens::TaskState;
use sapiens::chain::agents::OODAAgent;
use sapiens::chains::TerminalState;
use sapiens::tools::TerminationMessage;
use sapiens::chains::agents::ooda::{multistep, one_step};
use sapiens::chains::agents::{format_outcome, Error as AgentError};
use sapiens::chains::schedulers::{MultiAgentScheduler, Scheduler, SingleAgentScheduler};
use sapiens::chains::{Agent, Context, Error, Message, MultiStepOODAChain, Outcome, Runtime, SingleStepOODAChain};
use sapiens::context::{ChatEntry, ChatHistory, Error as HistoryError};
use sapiens::models::openai::OpenAI;
use sapiens::models::{ChatEntryTokenNumber, ChatInput, Error as ModelError, ModelResponse, Role, SupportedModel};
use sapiens::prompt::Manager;
use sapiens::tools::toolbox::InvokeResult;
use sapiens::SapiensConfig;

fn gpt() -> OpenAI {
    OpenAI::new(SupportedModel::GPT3_5Turbo)
}

fn pong() -> ModelResponse {
    ModelResponse { msg: "pong".to_string(), usage: None, finish_reason: None }
}

fn roles_and_texts(entries: Vec<ChatEntry>) -> Vec<(Role, String)> {
    entries.into_iter().map(|e| (e.role, e.msg)).collect()
}

fn config(min_tokens_for_completion: usize) -> SapiensConfig<OpenAI> {
    let mut c = SapiensConfig::new(gpt());
    c.min_tokens_for_completion = min_tokens_for_completion;
    c
}

fn dummy_context() -> Context {
    let mut context = Context::new();
    context.add_message(Message::Task { content: "Sort in ascending order: [2, 3, 1, 4, 5]".to_string() });
    context.add_message(Message::Observation { content: "## Observations:\n- obs".to_string(), usage: None });
    context.add_message(Message::Orientation { content: "## Orientation:\n- ori".to_string(), usage: None });
    context.add_message(Message::Decision { content: "## Decision:\n- dec".to_string(), usage: None });
    context.add_message(Message::Action { content: "## The ONLY Action:\n- act".to_string(), usage: None });
    context.add_message(Message::ActionResult {
        invocation_count: 1,
        tool_name: Some("SandboxedPython".to_string()),
        extracted_input: Some("tool_name: SandboxedPython".to_string()),
        outcome: Outcome::Success { result: "stdout: 42\n".to_string() },
    });
    context
}

fn chitchat_of(entries: Vec<(Role, String)>) -> Vec<(Role, String)> {
    // the context (2 entries) and the examples (4 entries) come first
    entries[6..].to_vec()
}

#[test]
fn context_latest_task() {
    let mut context = Context::new();
    assert_eq!(context.get_latest_task(), None);
    context.add_message(Message::Task { content: "first".to_string() });
    context.add_message(Message::Observation { content: "x".to_string(), usage: None });
    assert_eq!(context.get_latest_task(), Some("first".to_string()));
    context.add_message(Message::Task { content: "second".to_string() });
    assert_eq!(context.get_latest_task(), Some("second".to_string()));
    assert_eq!(context.dump().messages.len(), 3);
}

fn entry(role: Role, msg: &str) -> ChatEntry {
    ChatEntry { role, msg: msg.to_string() }
}

#[test]
fn chat_history_merges_roles_and_prunes() {
    let model = gpt();
    let u1 = entry(Role::User, "What is the capital of France?");
    let a1 = entry(Role::Assistant, "Paris is the capital of France.");
    let example = (entry(Role::User, "What is two plus two?"), entry(Role::Assistant, "Four."));
    let chat_only = ChatInput { context: vec![], examples: vec![], chat: vec![u1.clone(), a1.clone()] };
    let with_example = ChatInput { context: vec![], examples: vec![example.clone()], chat: vec![u1.clone(), a1.clone()] };
    let n_chat = model.num_tokens(&chat_only);
    let n_all = model.num_tokens(&with_example);
    assert!(n_chat < n_all);

    // a budget that holds everything
    let mut h = ChatHistory::new(&model, n_all + 100, 100);
    h.add_example(example.0.msg.clone(), example.1.msg.clone());
    assert_eq!(h.add_chitchat(u1.clone()).ok(), Some(1));
    assert_eq!(roles_and_texts(h.iter()).len(), 3);
    assert_eq!(h.add_chitchat(a1.clone()).ok(), Some(2));
    assert_eq!(roles_and_texts(h.iter()).len(), 4);

    // an entry from the same role replaces the last one
    let a2 = entry(Role::Assistant, "Paris.");
    assert_eq!(h.add_chitchat(a2.clone()).ok(), Some(2));
    assert_eq!(roles_and_texts(h.iter())[3], (Role::Assistant, "Paris.".to_string()));

    // a budget that holds the chat but not a long example: the example goes
    let long = "A long example that takes many tokens. ".repeat(20);
    let mut h = ChatHistory::new(&model, n_chat + 100, 100);
    h.add_example(long.clone(), long.clone());
    // the example goes; the single entry fits
    assert_eq!(h.add_chitchat(u1.clone()).ok(), Some(1));
    assert_eq!(roles_and_texts(h.iter()), roles_and_texts(vec![u1.clone()]));
    assert_eq!(h.add_chitchat(a1.clone()).ok(), Some(2));
    assert_eq!(roles_and_texts(h.iter()), roles_and_texts(vec![u1.clone(), a1.clone()]));

    // a budget that holds nothing but the last entry
    let single = ChatInput { context: vec![], examples: vec![], chat: vec![a1.clone()] };
    let mut h = ChatHistory::new(&model, model.num_tokens(&single), 0);
    // the single entry alone fits
    assert_eq!(h.add_chitchat(a1.clone()).ok(), Some(1));
    // a longer first entry does not fit alone: the history is too long
    let long_entry = entry(Role::User, &"What is the capital of France? ".repeat(10));
    let mut h2 = ChatHistory::new(&model, model.num_tokens(&single), 0);
    match h2.add_chitchat(long_entry.clone()) {
        Err(HistoryError::PromptTooLong) => {},
        _ => panic!("the entry alone does not fit"),
    }
    assert_eq!(roles_and_texts(h2.iter()), roles_and_texts(vec![long_entry.clone()]));
    // then the next entry alone fits: the older one goes
    assert_eq!(h2.add_chitchat(a1.clone()).ok(), Some(1));
    assert_eq!(roles_and_texts(h2.iter()), roles_and_texts(vec![a1.clone()]));
    // with no room for the completion at all, nothing fits
    let mut h3 = ChatHistory::new(&model, 10, 20);
    match h3.add_chitchat(u1.clone()) {
        Err(HistoryError::PromptTooLong) => {},
        _ => panic!("no input fits a budget below zero"),
    }
}

#[test]
fn it_converts_context_to_chat_history() {
    let agent = one_step::Agent::new(config(256), "tools: []".to_string());
    let context = dummy_context();
    let h = match agent.convert_context_to_chat_history(&context) {
        Ok(h) => h,
        Err(_) => panic!("the history fits"),
    };
    let entries = roles_and_texts(h.iter());
    assert_eq!(entries[0].0, Role::System);
    assert_eq!(entries[0].1, one_step::SYSTEM_PROMPT);
    assert!(entries[1].1.ends_with("tools: []"));
    let chitchat = chitchat_of(entries);
    assert_eq!(chitchat.len(), 2);
    assert_eq!(chitchat[0], (Role::Assistant, "## The ONLY Action:\n- act".to_string()));
    assert_eq!(chitchat[1].0, Role::User);
    assert!(chitchat[1].1.starts_with("# Action SandboxedPython response: \n```yaml\nstdout: 42\n```\n# Your turn"));
    assert!(chitchat[1].1.ends_with(one_step::PROMPT));
}

#[test]
fn actor_converts_context_to_chat_history() {
    let agent = multistep::Agent::new_actor(config(256), "tools: []".to_string());
    let mut context = dummy_context();
    context.add_message(Message::Observation { content: "obs2".to_string(), usage: None });
    let h = match agent.convert_context_to_chat_history(&context) {
        Ok(h) => h,
        Err(_) => panic!("the history fits"),
    };
    let chitchat = chitchat_of(roles_and_texts(h.iter()));
    assert_eq!(chitchat.len(), 3);
    assert_eq!(
        chitchat[0],
        (Role::User, "## Observations:\n- obs\n## Orientation:\n- ori\n## Decision:\n- dec".to_string())
    );
    assert_eq!(chitchat[1], (Role::Assistant, "## The ONLY Action:\n- act".to_string()));
    assert_eq!(chitchat[2].0, Role::User);
    assert!(chitchat[2].1.starts_with("# Action SandboxedPython response"));
    assert!(chitchat[2].1.ends_with("\nobs2"));
}

#[test]
fn observer_converts_context_to_chat_history() {
    let agent = multistep::Agent::new_observer(config(256), "tools: []".to_string());
    let context = dummy_context();
    let h = match agent.convert_context_to_chat_history(&context) {
        Ok(h) => h,
        Err(_) => panic!("the history fits"),
    };
    let chitchat = chitchat_of(roles_and_texts(h.iter()));
    assert_eq!(chitchat.len(), 2);
    assert_eq!(chitchat[0], (Role::Assistant, "## Observations:\n- obs".to_string()));
    assert!(chitchat[1].1.starts_with("## Orientation:\n- ori\n## Decision:\n- dec\n## The ONLY Action:\n- act\n"));
    assert!(chitchat[1].1.ends_with(multistep::OBSERVER_PROMPT));
}

#[test]
fn task_alone_becomes_the_prompt() {
    let agent = multistep::Agent::new_decider(config(256), "tools: []".to_string());
    let mut context = Context::new();
    context.add_message(Message::Task { content: "Do it".to_string() });
    let h = match agent.convert_context_to_chat_history(&context) {
        Ok(h) => h,
        Err(_) => panic!("the history fits"),
    };
    let chitchat = chitchat_of(roles_and_texts(h.iter()));
    assert_eq!(
        chitchat,
        vec![(Role::User, "# Your turn\nOriginal question: Do it\nDecision?".to_string())]
    );
}

#[test]
fn too_small_models_fail() {
    let agent = multistep::Agent::new_decider(config(16300), "tools: []".to_string());
    let context = dummy_context();
    match agent.convert_context_to_chat_history(&context) {
        Err(AgentError::ChatHistoryError(HistoryError::PromptTooLong)) => {},
        _ => panic!("the history cannot fit"),
    }
}

#[test]
fn agents_answer_in_their_role() {
    let context = dummy_context();
    let observer = multistep::Agent::new_observer(config(256), String::new());
    assert!(observer.is_ready());
    assert!(observer.prepare(&context).is_ok());
    match observer.answer(pong()) {
        Message::Observation { content, .. } => assert_eq!(content, "pong"),
        _ => panic!("an observer observes"),
    }
    let actor = one_step::Agent::new(config(256), String::new());
    assert_eq!(actor.max_tokens(), None);
    match actor.answer(pong()) {
        Message::Action { content, .. } => assert_eq!(content, "pong"),
        _ => panic!("the agent acts"),
    }
    let unready = one_step::Agent::new(config(20000), String::new());
    assert!(!unready.is_ready());
}

#[test]
fn multi_agent_scheduler_takes_turns() {
    let agents = vec![
        multistep::Agent::new_observer(config(256), String::new()),
        multistep::Agent::new_orienter(config(256), String::new()),
    ];
    let mut scheduler = MultiAgentScheduler::new(3, agents);
    assert!(scheduler.is_ready());
    assert!(matches!(scheduler.schedule(), Ok(0)));
    assert!(matches!(scheduler.schedule(), Ok(1)));
    assert!(matches!(scheduler.schedule(), Ok(0)));
    assert!(matches!(scheduler.schedule(), Err(Error::MaxStepsReached)));
}

#[test]
fn single_agent_scheduler_counts_steps() {
    let agent = one_step::Agent::new(config(256), String::new());
    let mut scheduler = SingleAgentScheduler::new(1, agent);
    assert!(matches!(scheduler.schedule(), Ok(0)));
    assert!(matches!(scheduler.schedule(), Err(Error::MaxStepsReached)));
}

#[test]
fn runtime_needs_a_terminal_tool() {
    let agent = one_step::Agent::new(config(256), String::new());
    let scheduler = SingleAgentScheduler::new(1, agent);
    assert!(matches!(Runtime::new(false, scheduler), Err(Error::NoTerminalTool)));
    assert!(matches!(SingleStepOODAChain::new(config(256), String::new(), false), Err(Error::NoTerminalTool)));
}

#[test]
fn runtime_steps() {
    let mut c = config(256);
    c.max_steps = 1;
    let chain = match SingleStepOODAChain::new(c, String::new(), true) {
        Ok(c) => c,
        Err(_) => panic!("the chain has a terminal tool"),
    };
    let mut chain = chain.with_task("Do it".to_string());
    let runtime = chain.runtime_mut();
    assert!(runtime.is_ready());
    let (input, max_tokens) = match runtime.begin_step() {
        Ok(x) => x,
        Err(_) => panic!("a step is begun"),
    };
    assert_eq!(max_tokens, None);
    let last = input.chat.last().expect("the task's prompt");
    assert_eq!(last.msg, format!("# Your turn\nOriginal question: Do it\n{}", one_step::PROMPT));
    let (m, action) = match runtime.end_step(Ok(pong())) {
        Ok(x) => x,
        Err(_) => panic!("a step is ended"),
    };
    assert!(matches!(m, Message::Action { .. }));
    assert_eq!(action, Some("pong".to_string()));
    runtime.record_result(InvokeResult::NoInvocationsFound { e: sapiens::tools::InvocationError::NoInvocationFound });
    // the single step allowed is taken
    assert!(matches!(runtime.begin_step(), Err(Error::MaxStepsReached)));
    let dump = chain.dump();
    assert_eq!(dump.messages.len(), 3);
    assert!(matches!(dump.messages[2], Message::ActionResult { invocation_count: 0, .. }));
}

#[test]
fn runtime_reports_model_failures() {
    let chain = match SingleStepOODAChain::new(config(256), String::new(), true) {
        Ok(c) => c,
        Err(_) => panic!("the chain has a terminal tool"),
    };
    let mut chain = chain.with_task("Do it".to_string());
    let runtime = chain.runtime_mut();
    assert!(runtime.begin_step().is_ok());
    match runtime.end_step(Err(ModelError::NoResponseFromModel)) {
        Err(Error::AgentFailed(AgentError::ModelError(ModelError::NoResponseFromModel))) => {},
        _ => panic!("the model failed"),
    }
    assert_eq!(chain.dump().messages.len(), 1);
}

#[test]
fn multi_step_chain_has_four_agents() {
    let chain = match MultiStepOODAChain::new(config(256), String::new(), true) {
        Ok(c) => c,
        Err(_) => panic!("the chain has a terminal tool"),
    };
    let mut chain = chain.with_task("Do it".to_string());
    let runtime = chain.runtime_mut();
    let mut kinds = vec![];
    for _ in 0..5 {
        if runtime.begin_step().is_err() {
            panic!("a step is begun");
        }
        match runtime.end_step(Ok(pong())) {
            Ok((m, _)) => kinds.push(m.to_string()),
            Err(_) => panic!("a step is ended"),
        }
    }
    assert_eq!(kinds, vec!["Observation: pong", "Orientation: pong", "Decision: pong", "Action: pong", "Observation: pong"]);
}

#[test]
fn outcome_too_long_is_reported() {
    let manager = Manager::new(
        String::new(),
        String::new(),
        "Go".to_string(),
        String::new(),
        String::new(),
        String::new(),
    );
    let task = manager.build_task_prompt("t");
    let long = Outcome::Success { result: "x".repeat(3000) };
    let text = format_outcome(&task, 1, &Some("T".to_string()), &long);
    assert!(text.starts_with("# Action T failed with:\nInvocationFailed(\"The response is too long ("));
    assert!(text.ends_with("# Your turn\nOriginal question: t\nGo"));
    let none = Outcome::Success { result: "ok".to_string() };
    assert_eq!(
        format_outcome(&task, 2, &None, &none),
        "# Action unknown response: \nYou must give only one Action at a time. There was 2. Only the first one was considered.\n```yaml\nok```\n# Your turn\nOriginal question: t\nGo"
    );
}

#[test]
fn messages_display() {
    let m = Message::ActionResult {
        invocation_count: 1,
        tool_name: Some("T".to_string()),
        extracted_input: None,
        outcome: Outcome::Success { result: "r".to_string() },
    };
    assert_eq!(
        m.to_string(),
        "ActionResult: 1 invocations found, tool_name: Some(\"T\"), extracted_input: None, outcome: Success { result: \"r\" }"
    );
}

#[test]
fn orienter_converts_context_to_chat_history() {
    let agent = multistep::Agent::new_orienter(config(256), "tools: []".to_string());
    let mut context = dummy_context();
    context.add_message(Message::Observation { content: "## Observations:\n- obs2".to_string(), usage: None });
    let h = match agent.convert_context_to_chat_history(&context) {
        Ok(h) => h,
        Err(_) => panic!("the history fits"),
    };
    let chitchat = chitchat_of(roles_and_texts(h.iter()));
    assert_eq!(chitchat.len(), 3);
    assert_eq!(chitchat[0], (Role::User, "## Observations:\n- obs".to_string()));
    assert_eq!(chitchat[1], (Role::Assistant, "## Orientation:\n- ori".to_string()));
    assert_eq!(chitchat[2].0, Role::User);
    assert!(chitchat[2].1.starts_with("## Decision:\n- dec\n## The ONLY Action:\n- act\n"));
    assert!(chitchat[2].1.ends_with("\n## Observations:\n- obs2"));
}

#[test]
fn decider_converts_context_to_chat_history() {
    let agent = multistep::Agent::new_decider(config(256), "tools: []".to_string());
    let mut context = dummy_context();
    context.add_message(Message::Observation { content: "## Observations:\n- obs2".to_string(), usage: None });
    context.add_message(Message::Orientation { content: "## Orientation:\n- ori2".to_string(), usage: None });
    let h = match agent.convert_context_to_chat_history(&context) {
        Ok(h) => h,
        Err(_) => panic!("the history fits"),
    };
    let chitchat = chitchat_of(roles_and_texts(h.iter()));
    assert_eq!(chitchat.len(), 3);
    assert_eq!(chitchat[0], (Role::User, "## Observations:\n- obs\n## Orientation:\n- ori".to_string()));
    assert_eq!(chitchat[1], (Role::Assistant, "## Decision:\n- dec".to_string()));
    assert_eq!(chitchat[2].0, Role::User);
    assert!(chitchat[2].1.starts_with("## The ONLY Action:\n- act\n"));
    assert!(chitchat[2].1.ends_with("\n## Observations:\n- obs2\n## Orientation:\n- ori2"));
}

#[test]
fn roles_build_their_examples() {
    let manager = Manager::new(
        "tools: []".to_string(),
        "system".to_string(),
        multistep::OBSERVER_PROMPT.to_string(),
        "prefix".to_string(),
        "tool prefix".to_string(),
        "format".to_string(),
    );
    let examples = multistep::AgentRole::Observer.build_examples(&manager);
    assert_eq!(examples.len(), 2);
    let warmup = "# Your turn\nOriginal question: Sort in ascending order: [2, 3, 1, 4, 5]\nObservations?";
    assert_eq!(examples[0].0, warmup);
    assert_eq!(examples[0].1, multistep::OBSERVER_PROTO_INITIAL_RESPONSE.trim());
    assert!(examples[1].0.ends_with(warmup));
    assert_eq!(examples[1].1, multistep::OBSERVER_PROTO_SECOND_RESPONSE.trim());
}

#[test]
fn the_runtime_stops_on_termination_messages() {
    let state = TaskState::new(7u32);
    assert!(state.is_done().is_none());
    let state = TaskState::after_step(7u32, vec![]);
    assert!(matches!(state, TaskState::Step { step: 7 }));
    assert!(state.is_done().is_none());
    let m = TerminationMessage { conclusion: "done".to_string(), original_question: "q".to_string() };
    let state = TaskState::after_step(7u32, vec![m]);
    match state.is_done() {
        Some(ms) => {
            assert_eq!(ms.len(), 1);
            assert_eq!(ms[0].conclusion, "done");
            assert_eq!(ms[0].original_question, "q");
        }
        None => panic!("a termination message ends the task"),
    }
}

#[test]
fn multi_agent_scheduler_turns_follow_the_call_number() {
    let agents = vec![
        multistep::Agent::new_observer(config(256), String::new()),
        multistep::Agent::new_orienter(config(256), String::new()),
        multistep::Agent::new_observer(config(256), String::new()),
    ];
    let mut scheduler = MultiAgentScheduler::new(7, agents);
    for k in 0..7usize {
        assert_eq!(scheduler.schedule().ok(), Some(k % 3));
    }
    for _ in 0..3 {
        assert!(matches!(scheduler.schedule(), Err(Error::MaxStepsReached)));
    }
}

#[test]
fn the_runtime_terminates_on_termination_messages() {
    assert!(TerminalState::after_step(vec![]).is_none());
    let m = TerminationMessage { conclusion: "done".to_string(), original_question: "q".to_string() };
    match TerminalState::after_step(vec![m]) {
        Some(t) => {
            assert_eq!(t.messages.len(), 1);
            assert_eq!(t.messages[0].conclusion, "done");
        }
        None => panic!("a termination message ends the run"),
    }
}

fn ooda_manager() -> Manager {
    Manager::new(
        "tools: []".to_string(),
        "system".to_string(),
        "prompt".to_string(),
        "prefix".to_string(),
        "tool prefix".to_string(),
        "format".to_string(),
    )
}

#[test]
fn ooda_agent_converts_context_to_chat_history() {
    let agent = OODAAgent::new(config(256), ooda_manager());
    let h = match agent.convert_context_to_chat_history(&dummy_context()) {
        Ok(h) => h,
        Err(_) => panic!("the history holds the context"),
    };
    let entries = roles_and_texts(h.iter());
    // the context, no examples, then the action and the note of its result
    assert_eq!(entries.len(), 4);
    assert_eq!(entries[0], (Role::System, "system".to_string()));
    assert_eq!(entries[1].0, Role::User);
    assert_eq!(entries[2], (Role::Assistant, "## The ONLY Action:\n- act".to_string()));
    assert_eq!(
        entries[3],
        (Role::User, "# Action SandboxedPython response: \n```yaml\nstdout: 42\n```".to_string())
    );

    // with only a task, the chitchat is the task's prompt
    let mut context = Context::new();
    context.add_message(Message::Task { content: "Do it".to_string() });
    let h = match agent.convert_context_to_chat_history(&context) {
        Ok(h) => h,
        Err(_) => panic!("the history holds the task"),
    };
    let entries = roles_and_texts(h.iter());
    assert_eq!(entries.len(), 3);
    assert_eq!(entries[2], (Role::User, "# Your turn\nOriginal question: Do it\nprompt".to_string()));
}

#[test]
fn ooda_agent_stops_when_the_history_is_too_long() {
    let mut c = config(0);
    c.min_tokens_for_completion = c.model.context_size() - 10;
    let agent = OODAAgent::new(c, ooda_manager());
    assert!(agent.is_ready());
    match agent.convert_context_to_chat_history(&dummy_context()) {
        Err(AgentError::ChatHistoryError(HistoryError::PromptTooLong)) => {},
        _ => panic!("ten tokens hold no input"),
    }
}
