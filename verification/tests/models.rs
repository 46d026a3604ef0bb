use sapiens::chains::agents::Error as AgentError;
use sapiens::chains::Error as ChainError;
use sapiens::context::Error as HistoryError;
use sapiens::context::ChatEntry;
use sapiens::models::openai::{prepare_messages, vicuna_num_tokens, vicuna_prompt, OpenAI};
use sapiens::models::{ChatEntryTokenNumber, ChatInput, Error, Role, SupportedModel};

fn entry(role: Role, msg: &str) -> ChatEntry {
    ChatEntry { role, msg: msg.to_string() }
}

fn sample_input() -> ChatInput {
    ChatInput {
        context: vec![
            entry(Role::System, "A chat between a user and an assistant."),
            entry(Role::User, "My name is Marcel"),
        ],
        examples: vec![],
        chat: vec![
            entry(Role::User, "Hello Assistant!"),
            entry(Role::Assistant, "Hello, Marcel, how are you doing today?"),
            entry(Role::User, "I am doing great, thanks for asking"),
            entry(Role::Assistant, "That's great to hear!"),
        ],
    }
}

#[test]
fn gpt3_sizes() {
    let model = OpenAI::new(SupportedModel::GPT3_5Turbo);
    assert_eq!(model.context_size(), 16385);
    assert_eq!(model.num_tokens(&sample_input()), 74);
}

#[test]
fn gpt3_16k_context_size() {
    let model = OpenAI::new(SupportedModel::GPT3_5Turbo16k);
    assert_eq!(model.context_size(), 16384);
    let empty = ChatInput { context: vec![], examples: vec![], chat: vec![] };
    // the acknowledgement of the assistant alone: 3 + (3 + 1 + 3)
    assert_eq!(model.num_tokens(&empty), 10);
}

#[test]
fn other_models_are_not_counted() {
    let model = OpenAI::new(SupportedModel::ChatBison001);
    assert!(model.supported_model() == SupportedModel::ChatBison001);
    assert!(!model.can_count_tokens());
    assert_eq!(model.request_settings(None).model, "chat-bison-001");
}

#[test]
fn vicuna_sizes() {
    let model = OpenAI::new(SupportedModel::Vicuna7B1_1);
    assert_eq!(model.context_size(), 2048);
    assert_eq!(OpenAI::new(SupportedModel::Vicuna13B1_1).context_size(), 2048);
    // the tokens are counted by the Llama tokenizer, which is not at hand
    assert!(!model.can_count_tokens());
    // the count is the number of ids of the prompt and one more: for the
    // sample chat the tokenizer gives 78 ids
    assert_eq!(vicuna_num_tokens(78), 79);
    assert_eq!(vicuna_num_tokens(usize::MAX), usize::MAX);
    let prompt = vicuna_prompt(&prepare_messages(&sample_input()));
    assert!(prompt.starts_with("A chat between a user and an assistant.
USER: My name is Marcel
ASSISTANT: Got it.</s>
"));
}

#[test]
fn gpt_models_are_counted() {
    for m in [SupportedModel::GPT3_5Turbo, SupportedModel::GPT3_5Turbo0613, SupportedModel::GPT3_5Turbo16k] {
        assert!(OpenAI::new(m).can_count_tokens());
    }
}

#[test]
fn model_names() {
    for m in [
        SupportedModel::GPT3_5Turbo,
        SupportedModel::GPT3_5Turbo0613,
        SupportedModel::GPT3_5Turbo16k,
        SupportedModel::Vicuna7B1_1,
        SupportedModel::Vicuna13B1_1,
        SupportedModel::ChatBison001,
    ] {
        let name = m.to_string();
        match SupportedModel::from_name(&name) {
            Ok(back) => assert!(back == m),
            Err(_) => panic!("{} is supported", name),
        }
    }
    assert_eq!(SupportedModel::GPT3_5Turbo0613.to_string(), "gpt-3.5-turbo-0613");
    match SupportedModel::from_name("gpt-4") {
        Err(Error::ModelNotSupported(name)) => assert_eq!(name, "gpt-4"),
        _ => panic!("gpt-4 is not supported"),
    }
    assert!(SupportedModel::default() == SupportedModel::GPT3_5Turbo);
}

#[test]
fn request_messages() {
    let mut input = sample_input();
    input.examples = vec![(entry(Role::User, "q"), entry(Role::Assistant, "a"))];
    let messages = prepare_messages(&input);
    let roles_and_texts: Vec<(Role, String)> = messages.into_iter().map(|e| (e.role, e.msg)).collect();
    assert_eq!(roles_and_texts.len(), 9);
    assert_eq!(roles_and_texts[2], (Role::Assistant, "Got it.".to_string()));
    assert_eq!(roles_and_texts[3], (Role::User, "q".to_string()));
    assert_eq!(roles_and_texts[4], (Role::Assistant, "a".to_string()));
    assert_eq!(roles_and_texts[8], (Role::Assistant, "That's great to hear!".to_string()));
}

#[test]
fn vicuna_prompt_text() {
    let entries = vec![
        entry(Role::System, "Be helpful."),
        entry(Role::User, "Hi"),
        entry(Role::Assistant, "Hello"),
        entry(Role::User, ""),
        entry(Role::Assistant, "Bye"),
        entry(Role::Assistant, ""),
    ];
    assert_eq!(
        vicuna_prompt(&entries),
        "Be helpful.\nUSER: Hi\nASSISTANT: Hello</s>\nUSER:\nASSISTANT: Bye</s>\nASSISTANT:\n"
    );
}

#[test]
fn role_names() {
    assert_eq!(Role::System.name(), "system");
    assert_eq!(Role::User.name(), "user");
    assert_eq!(Role::Assistant.name(), "assistant");
    assert_eq!(Role::default(), Role::User);
}

#[test]
fn error_messages() {
    assert_eq!(Error::ModelNotSupported("gpt-4".to_string()).message(), "Model not supported: gpt-4");
    assert_eq!(Error::NoResponseFromModel.message(), "No response from the model");
    assert_eq!(Error::ModelInvocationFailed("timeout".to_string()).message(), "Model invocation failed");
    assert_eq!(Error::Filtered.message(), "Filtered output");
    assert_eq!(HistoryError::PromptTooLong.message(), "The prompt is too long");
    assert_eq!(
        ChainError::AgentFailed(AgentError::ChatHistoryError(HistoryError::PromptTooLong)).message(),
        "Agent failed: Failed to add to the chat history: The prompt is too long"
    );
    assert_eq!(
        ChainError::AgentFailed(AgentError::ModelError(Error::Filtered)).message(),
        "Agent failed: Error from the model: Filtered output"
    );
    assert_eq!(ChainError::NoTerminalTool.message(), "No terminal tool");
    assert_eq!(ChainError::MaxStepsReached.message(), "Max steps reached");
}

#[test]
fn request_settings_cut_the_token_limit() {
    let model = OpenAI::new(SupportedModel::GPT3_5Turbo16k);
    let s = model.request_settings(Some(70000));
    assert_eq!(s.model, "gpt-3.5-turbo-16k");
    assert_eq!(s.n, 1);
    assert_eq!(s.max_tokens, Some(4464));
    assert_eq!(model.request_settings(None).max_tokens, None);
    assert_eq!(model.request_settings(Some(256)).max_tokens, Some(256));
}

#[test]
fn vertex_prompt() {
    let p = sapiens::models::vertex_ai::prepare_input(&sample_input_with_example());
    assert_eq!(p.context, "A chat between a user and an assistant.\nMy name is Marcel");
    assert_eq!(p.examples.len(), 1);
    assert_eq!((p.examples[0].input.author.as_str(), p.examples[0].input.content.as_str()), ("user", "Hi"));
    assert_eq!((p.examples[0].output.author.as_str(), p.examples[0].output.content.as_str()), ("assistant", "Hello"));
    let authors: Vec<&str> = p.messages.iter().map(|m| m.author.as_str()).collect();
    assert_eq!(authors, vec!["user", "assistant", "user", "assistant"]);
    assert_eq!(p.messages[0].content, "Hello Assistant!");
}

fn sample_input_with_example() -> ChatInput {
    let mut input = sample_input();
    input.examples.push((entry(Role::User, "Hi"), entry(Role::Assistant, "Hello")));
    input
}
