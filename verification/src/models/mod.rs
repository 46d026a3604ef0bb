//! Language models: roles, chat inputs, responses and token counting.

use vstd::prelude::*;

use crate::context::{ChatEntry, EntryView};

/// The models served through the OpenAI API
pub mod openai;

/// The prompt of the Vertex AI chat models
pub mod vertex_ai;

verus! {

/// Roles in the conversation.
#[derive(Debug, Clone, Copy, PartialEq, Eq, Structural)]
pub enum Role {
    /// The system
    System,
    /// The user
    User,
    /// The assistant
    Assistant,
}

impl Default for Role {
    fn default() -> (r: Self)
        ensures
            r == Role::User,
    {
        Role::User
    }
}

/// The lowercase name of a role, as it is displayed.
pub open spec fn role_name(r: Role) -> Seq<char> {
    match r {
        Role::System => "system"@,
        Role::User => "user"@,
        Role::Assistant => "assistant"@,
    }
}

impl Role {
    /// The lowercase name of the role (`system`, `user` or `assistant`).
    pub fn name(&self) -> (s: String)
        ensures
            s@ == role_name(*self),
    {
        match self {
            Role::System => String::from_str("system"),
            Role::User => String::from_str("user"),
            Role::Assistant => String::from_str("assistant"),
        }
    }
}

/// Errors from the models.
#[derive(Debug)]
pub enum Error {
    /// The model could not be reached, or failed; the message says why
    ModelInvocationFailed(String),
    /// No response from the model
    NoResponseFromModel,
    /// The model is not supported
    ModelNotSupported(String),
    /// Filtered output
    Filtered,
}

/// The message of a model error (`e.to_string()`).
pub open spec fn model_error_message(e: Error) -> Seq<char> {
    match e {
        Error::ModelInvocationFailed(_) => "Model invocation failed"@,
        Error::NoResponseFromModel => "No response from the model"@,
        Error::ModelNotSupported(m) => "Model not supported: "@ + m@,
        Error::Filtered => "Filtered output"@,
    }
}

impl Error {
    /// The message of the error (`e.to_string()`).
    pub fn message(&self) -> (s: String)
        ensures
            s@ == model_error_message(*self),
    {
        match self {
            Error::ModelInvocationFailed(_) => String::from_str("Model invocation failed"),
            Error::NoResponseFromModel => String::from_str("No response from the model"),
            Error::ModelNotSupported(m) => crate::text::prefixed("Model not supported: ", m.as_str()),
            Error::Filtered => String::from_str("Filtered output"),
        }
    }
}

/// Token usage.
#[derive(Debug, Clone, Copy)]
pub struct Usage {
    /// The number of tokens used for the prompt
    pub prompt_tokens: u32,
    /// The number of tokens used for the completion
    pub completion_tokens: u32,
    /// The total number of tokens used
    pub total_tokens: u32,
}

/// Response from a language model.
pub struct ModelResponse {
    /// The message
    pub msg: String,
    /// The usage
    pub usage: Option<Usage>,
    /// Finish reason
    pub finish_reason: Option<String>,
}

/// The mathematical content of a chat input.
pub struct ChatInputView {
    /// The context entries
    pub context: Seq<EntryView>,
    /// The examples, as (user, assistant) pairs
    pub examples: Seq<(EntryView, EntryView)>,
    /// The chat entries
    pub chat: Seq<EntryView>,
}

/// A chat input.
pub struct ChatInput {
    /// The context
    pub context: Vec<ChatEntry>,
    /// The examples
    pub examples: Vec<(ChatEntry, ChatEntry)>,
    /// The chat history
    pub chat: Vec<ChatEntry>,
}

/// The views of a sequence of entries.
pub open spec fn entries_view(s: Seq<ChatEntry>) -> Seq<EntryView> {
    s.map_values(|e: ChatEntry| e@)
}

/// The views of a sequence of example pairs.
pub open spec fn examples_view(s: Seq<(ChatEntry, ChatEntry)>) -> Seq<(EntryView, EntryView)> {
    s.map_values(|p: (ChatEntry, ChatEntry)| (p.0@, p.1@))
}

impl View for ChatInput {
    type V = ChatInputView;

    open spec fn view(&self) -> ChatInputView {
        ChatInputView {
            context: entries_view(self.context@),
            examples: examples_view(self.examples@),
            chat: entries_view(self.chat@),
        }
    }
}

/// Something that can count the number of tokens of a chat input.
///
/// Implementations count deterministically: the same input always gives the
/// same number of tokens.
pub trait ChatEntryTokenNumber {
    /// The number of tokens of an input.
    spec fn token_count(&self, input: ChatInputView) -> nat;

    /// The context size of the model.
    spec fn spec_context_size(&self) -> nat;

    /// Are the tokens of an input counted for this model?
    spec fn counts_tokens(&self) -> bool;

    /// Is the context size of this model known?
    spec fn knows_context_size(&self) -> bool;

    /// The context size of a model whose tokens are counted is known.
    proof fn lemma_counted_has_context_size(&self)
        requires
            self.counts_tokens(),
        ensures
            self.knows_context_size(),
    ;

    /// Are the tokens of an input counted for this model?
    fn can_count_tokens(&self) -> (b: bool)
        ensures
            b == self.counts_tokens(),
    ;

    /// Count the number of tokens in the chat entries.
    fn num_tokens(&self, input: &ChatInput) -> (n: usize)
        requires
            self.counts_tokens(),
        ensures
            n as nat == self.token_count(input@),
    ;

    /// Get the context size.
    fn context_size(&self) -> (n: usize)
        requires
            self.knows_context_size(),
        ensures
            n as nat == self.spec_context_size(),
    ;
}

} // verus!

verus! {

use crate::text::same_text;

/// Supported models.
#[allow(non_camel_case_types)]
#[derive(Clone, Copy, PartialEq, Eq, Structural)]
pub enum SupportedModel {
    /// GPT 3.5 Turbo
    GPT3_5Turbo,
    /// GPT 3.5 Turbo 0613
    GPT3_5Turbo0613,
    /// GPT 3.5 Turbo 16k
    GPT3_5Turbo16k,
    /// Vicuna 7B 1.1
    Vicuna7B1_1,
    /// Vicuna 13B 1.1
    Vicuna13B1_1,
    /// GCP "chat-bison-001"
    ChatBison001,
}

/// The name of a model, as the services know it.
pub open spec fn model_name(m: SupportedModel) -> Seq<char> {
    match m {
        SupportedModel::GPT3_5Turbo => "gpt-3.5-turbo"@,
        SupportedModel::GPT3_5Turbo0613 => "gpt-3.5-turbo-0613"@,
        SupportedModel::GPT3_5Turbo16k => "gpt-3.5-turbo-16k"@,
        SupportedModel::Vicuna7B1_1 => "vicuna-7b-1.1"@,
        SupportedModel::Vicuna13B1_1 => "vicuna-13b-1.1"@,
        SupportedModel::ChatBison001 => "chat-bison-001"@,
    }
}

impl Default for SupportedModel {
    fn default() -> (m: Self)
        ensures
            m == SupportedModel::GPT3_5Turbo,
    {
        SupportedModel::GPT3_5Turbo
    }
}

impl SupportedModel {
    /// The name of the model, as the services know it.
    pub fn to_string(&self) -> (s: String)
        ensures
            s@ == model_name(*self),
    {
        match self {
            SupportedModel::GPT3_5Turbo => String::from_str("gpt-3.5-turbo"),
            SupportedModel::GPT3_5Turbo0613 => String::from_str("gpt-3.5-turbo-0613"),
            SupportedModel::GPT3_5Turbo16k => String::from_str("gpt-3.5-turbo-16k"),
            SupportedModel::Vicuna7B1_1 => String::from_str("vicuna-7b-1.1"),
            SupportedModel::Vicuna13B1_1 => String::from_str("vicuna-13b-1.1"),
            SupportedModel::ChatBison001 => String::from_str("chat-bison-001"),
        }
    }

    /// The model of the given name; any other name is not supported.
    pub fn from_name(s: &str) -> (r: Result<Self, Error>)
        ensures
            match r {
                Ok(m) => model_name(m) == s@,
                Err(e) => (e matches Error::ModelNotSupported(n) && n@ == s@)
                    && forall|m: SupportedModel| model_name(m) != s@,
            },
    {
        if same_text(s, "gpt-3.5-turbo") {
            Ok(SupportedModel::GPT3_5Turbo)
        } else if same_text(s, "gpt-3.5-turbo-0613") {
            Ok(SupportedModel::GPT3_5Turbo0613)
        } else if same_text(s, "gpt-3.5-turbo-16k") {
            Ok(SupportedModel::GPT3_5Turbo16k)
        } else if same_text(s, "vicuna-7b-1.1") {
            Ok(SupportedModel::Vicuna7B1_1)
        } else if same_text(s, "vicuna-13b-1.1") {
            Ok(SupportedModel::Vicuna13B1_1)
        } else if same_text(s, "chat-bison-001") {
            Ok(SupportedModel::ChatBison001)
        } else {
            Err(Error::ModelNotSupported(String::from_str(s)))
        }
    }
}

} // verus!
