//! The models served through the OpenAI API: the messages of a request, how
//! many tokens they count and how many the model takes.

use vstd::prelude::*;

use crate::chains::agents::byte_len;
use crate::context::{flatten_pairs, ChatEntry, EntryView};
use crate::models::{model_name, role_name, ChatEntryTokenNumber, ChatInput, ChatInputView, Role, SupportedModel};
use crate::text::{push_str, starts_with};

verus! {

/// The messages of a request for a chat input: the context, an
/// acknowledgement from the assistant, the examples (each user entry
/// followed by its assistant entry), then the chat.
pub open spec fn request_entries(input: ChatInputView) -> Seq<EntryView> {
    input.context + seq![EntryView { role: Role::Assistant, msg: "Got it."@ }] + flatten_pairs(input.examples)
        + input.chat
}

/// The messages of a request, each given by the name of its role and its
/// content.
pub open spec fn role_content_pairs(entries: Seq<EntryView>) -> Seq<(Seq<char>, Seq<char>)> {
    entries.map_values(|e: EntryView| (role_name(e.role), e.msg))
}

/// The messages of the request to send to the model for a chat input.
pub fn prepare_messages(input: &ChatInput) -> (r: Vec<ChatEntry>)
    ensures
        crate::models::entries_view(r@) == request_entries(input@),
{
    let mut r: Vec<ChatEntry> = Vec::new();
    for i in 0..input.context.len()
        invariant
            crate::models::entries_view(r@) == input@.context.take(i as int),
    {
        let ghost old_r = r@;
        r.push(input.context[i].clone());
        assert(r@ == old_r.push(input.context@[i as int]));
        assert(crate::models::entries_view(r@) =~= crate::models::entries_view(old_r).push(input@.context[i as int]));
        assert(input@.context.take(i + 1) =~= input@.context.take(i as int).push(input@.context[i as int]));
    }
    assert(input@.context.take(input.context.len() as int) =~= input@.context);
    r.push(ChatEntry { role: Role::Assistant, msg: String::from_str("Got it.") });
    let ghost head = input@.context + seq![EntryView { role: Role::Assistant, msg: "Got it."@ }];
    assert(crate::models::entries_view(r@) =~= head);
    for i in 0..input.examples.len()
        invariant
            crate::models::entries_view(r@) == head + flatten_pairs(input@.examples.take(i as int)),
    {
        let ghost old_r = r@;
        let ghost before = crate::models::entries_view(r@);
        let p = &input.examples[i];
        r.push(p.0.clone());
        r.push(p.1.clone());
        proof {
            let ex = input@.examples;
            assert(r@ == old_r.push(p.0).push(p.1));
            assert(ex[i as int] == (p.0@, p.1@));
            assert(flatten_pairs(ex.take(i + 1)) =~= flatten_pairs(ex.take(i as int)).push(ex[i as int].0).push(ex[i as int].1));
            assert(crate::models::entries_view(r@) =~= before.push(ex[i as int].0).push(ex[i as int].1));
        }
    }
    assert(input@.examples.take(input.examples.len() as int) =~= input@.examples);
    let ghost mid = head + flatten_pairs(input@.examples);
    for i in 0..input.chat.len()
        invariant
            crate::models::entries_view(r@) == mid + input@.chat.take(i as int),
    {
        let ghost old_r = r@;
        r.push(input.chat[i].clone());
        assert(r@ == old_r.push(input.chat@[i as int]));
        assert(crate::models::entries_view(r@) =~= crate::models::entries_view(old_r).push(input@.chat[i as int]));
        assert(input@.chat.take(i + 1) =~= input@.chat.take(i as int).push(input@.chat[i as int]));
        assert(crate::models::entries_view(r@) =~= mid + input@.chat.take(i + 1));
    }
    assert(input@.chat.take(input.chat.len() as int) =~= input@.chat);
    r
}

/// An upper bound of the number of tokens that tiktoken counts for messages
/// given by role and content: four tokens of framing for each message (three
/// but for `gpt-3.5-turbo-0301`), three for the reply, and at most one token
/// per byte of text.
pub open spec fn chat_weight(messages: Seq<(Seq<char>, Seq<char>)>) -> nat
    decreases messages.len(),
{
    if messages.len() == 0 {
        3
    } else {
        let m = messages.last();
        chat_weight(messages.drop_last()) + 4 + byte_len(m.0) as nat + byte_len(m.1) as nat
    }
}

/// The number of tokens that tiktoken counts for the messages, each given
/// by role and content, with the chat tokenizer of the model; none when it
/// has no chat tokenizer for the model.
pub uninterp spec fn tiktoken_chat_tokens(model: Seq<char>, messages: Seq<(Seq<char>, Seq<char>)>) -> Option<nat>;

/// The context size that tiktoken gives for the model, if it knows the
/// model.
pub uninterp spec fn tiktoken_context_size(model: Seq<char>) -> Option<usize>;

/// `tiktoken_rs::num_tokens_from_messages`, on messages made of a role and
/// a content. Claims that the result is a function of the model's name and
/// of the messages, and that the model `gpt-3.5-turbo` and those whose name
/// starts with `gpt-3.5-turbo-` have a chat tokenizer. The count is kept in an `i32`, so
/// the messages must count fewer than `i32::MAX` tokens, which their weight
/// bounds.
#[verifier::external_body]
fn num_tokens_from_messages(model: &str, messages: &Vec<(String, String)>) -> (r: Option<usize>)
    requires
        chat_weight(messages@.map_values(|p: (String, String)| (p.0@, p.1@))) <= i32::MAX,
    ensures
        match r {
            Some(n) => tiktoken_chat_tokens(model@, messages@.map_values(|p: (String, String)| (p.0@, p.1@)))
                == Some(n as nat),
            None => tiktoken_chat_tokens(model@, messages@.map_values(|p: (String, String)| (p.0@, p.1@))) is None,
        },
        model@ == "gpt-3.5-turbo"@ || starts_with(model@, "gpt-3.5-turbo-"@) ==> r is Some,
{
    let messages: Vec<tiktoken_rs::ChatCompletionRequestMessage> = messages
        .iter()
        .map(|(role, content)| tiktoken_rs::ChatCompletionRequestMessage {
            role: role.clone(),
            content: Some(content.clone()),
            ..Default::default()
        })
        .collect();
    tiktoken_rs::num_tokens_from_messages(model, &messages).ok()
}

/// `tiktoken_rs::model::get_context_size`. Claims that the result is a
/// function of the model's name, and that it is 16385 for the names that
/// start with `gpt-3.5-turbo`.
#[verifier::external_body]
fn get_context_size(model: &str) -> (r: Option<usize>)
    ensures
        r == tiktoken_context_size(model@),
        starts_with(model@, "gpt-3.5-turbo"@) ==> r == Some(16385usize),
{
    tiktoken_rs::model::get_context_size(model)
}

/// Is the model a GPT model, whose tokens tiktoken counts?
pub open spec fn is_gpt(m: SupportedModel) -> bool {
    m is GPT3_5Turbo || m is GPT3_5Turbo0613 || m is GPT3_5Turbo16k
}

/// Is the model a Vicuna model, served through the same API?
pub open spec fn is_vicuna(m: SupportedModel) -> bool {
    m is Vicuna7B1_1 || m is Vicuna13B1_1
}

/// The number of tokens of a chat input for a GPT model: what tiktoken
/// counts for the messages of the request; an input too large for its count
/// counts `usize::MAX` tokens.
pub open spec fn gpt_token_count(model: SupportedModel, input: ChatInputView) -> nat {
    let messages = role_content_pairs(request_entries(input));
    if chat_weight(messages) <= i32::MAX {
        tiktoken_chat_tokens(model_name(model), messages)->Some_0
    } else {
        usize::MAX as nat
    }
}

/// The names of the GPT models are `gpt-3.5-turbo` or start with
/// `gpt-3.5-turbo-`.
proof fn lemma_gpt_names(m: SupportedModel)
    requires
        is_gpt(m),
    ensures
        starts_with(model_name(m), "gpt-3.5-turbo"@),
        model_name(m) == "gpt-3.5-turbo"@ || starts_with(model_name(m), "gpt-3.5-turbo-"@),
{
    reveal_strlit("gpt-3.5-turbo");
    reveal_strlit("gpt-3.5-turbo-");
    reveal_strlit("gpt-3.5-turbo-0613");
    reveal_strlit("gpt-3.5-turbo-16k");
    assert(model_name(m).take(13) =~= "gpt-3.5-turbo"@);
    if !(m is GPT3_5Turbo) {
        assert(model_name(m).take(14) =~= "gpt-3.5-turbo-"@);
    }
}

/// The settings of a chat completion request besides its messages.
pub struct RequestSettings {
    /// The name of the model
    pub model: String,
    /// The number of choices to generate
    pub n: u8,
    /// The maximum number of tokens to generate
    pub max_tokens: Option<u16>,
}

/// The context size of every GPT model but the 16k one is the one that
/// tiktoken gives for the model's name, the 16k model takes 16384 tokens and
/// the Vicuna models 2048; the others have none known.
pub proof fn lemma_context_sizes(c: OpenAI)
    ensures
        is_gpt(c.model()) && !(c.model() is GPT3_5Turbo16k) ==> c.knows_context_size()
            && c.spec_context_size() == tiktoken_context_size(model_name(c.model()))->Some_0 as nat,
        c.model() is GPT3_5Turbo16k ==> c.knows_context_size() && c.spec_context_size() == 16384,
        is_vicuna(c.model()) ==> c.knows_context_size() && c.spec_context_size() == 2048,
        !is_gpt(c.model()) && !is_vicuna(c.model()) ==> !c.knows_context_size(),
{
}

/// A model served through the OpenAI API. The tokens of the GPT models are
/// counted with tiktoken; those of the Vicuna models need the Llama
/// tokenizer, which is not at hand here (their count is made of what that
/// tokenizer gives, by `vicuna_num_tokens`); those of the other models are
/// not counted.
pub struct OpenAI {
    model: SupportedModel,
}

impl OpenAI {
    /// The model.
    pub closed spec fn model(&self) -> SupportedModel {
        self.model
    }

    /// The model served through the OpenAI API.
    pub fn new(model: SupportedModel) -> (c: Self)
        ensures
            c.model() == model,
    {
        OpenAI { model }
    }

    /// The settings of a chat completion request besides its messages: the
    /// name of the model, one choice, and the maximum number of tokens to
    /// generate, cut to 16 bits as the request carries it.
    pub fn request_settings(&self, max_tokens: Option<usize>) -> (r: RequestSettings)
        ensures
            r.model@ == model_name(self.model()),
            r.n == 1,
            match max_tokens {
                Some(x) => r.max_tokens == Some(x as u16),
                None => r.max_tokens is None,
            },
    {
        let max_tokens = match max_tokens {
            Some(x) => Some(#[verifier::truncate] (x as u16)),
            None => None,
        };
        RequestSettings { model: self.model.to_string(), n: 1, max_tokens }
    }

    /// The model.
    pub fn supported_model(&self) -> (m: SupportedModel)
        ensures
            m == self.model(),
    {
        self.model
    }
}

impl Clone for OpenAI {
    fn clone(&self) -> (c: Self)
        ensures
            c.model() == self.model(),
    {
        OpenAI { model: self.model }
    }
}

fn role_content(entries: &Vec<ChatEntry>) -> (r: Vec<(String, String)>)
    ensures
        r@.map_values(|p: (String, String)| (p.0@, p.1@)) == role_content_pairs(crate::models::entries_view(entries@)),
{
    let mut r: Vec<(String, String)> = Vec::new();
    for i in 0..entries.len()
        invariant
            r@.map_values(|p: (String, String)| (p.0@, p.1@)) == role_content_pairs(
                crate::models::entries_view(entries@.take(i as int)),
            ),
    {
        let ghost old_r = r@;
        let ghost ev = crate::models::entries_view(entries@);
        r.push((entries[i].role.name(), entries[i].msg.clone()));
        assert(ev.take(i + 1) =~= ev.take(i as int).push(ev[i as int]));
        assert(crate::models::entries_view(entries@.take(i + 1)) =~= ev.take(i + 1));
        assert(crate::models::entries_view(entries@.take(i as int)) =~= ev.take(i as int));
        let ghost pair = (role_name(entries@[i as int].role), entries@[i as int].msg@);
        assert(r@.map_values(|p: (String, String)| (p.0@, p.1@)) =~= old_r.map_values(|p: (String, String)| (p.0@, p.1@)).push(pair));
        assert(role_content_pairs(ev.take(i + 1)) =~= role_content_pairs(ev.take(i as int)).push(pair));
        assert(r@.map_values(|p: (String, String)| (p.0@, p.1@)) =~= role_content_pairs(
            crate::models::entries_view(entries@.take(i + 1)),
        ));
    }
    assert(entries@.take(entries.len() as int) =~= entries@);
    r
}

/// Is the weight of the messages at most `i32::MAX`?
fn light_enough(messages: &Vec<(String, String)>) -> (b: bool)
    ensures
        b == (chat_weight(messages@.map_values(|p: (String, String)| (p.0@, p.1@))) <= i32::MAX),
{
    let ghost view = messages@.map_values(|p: (String, String)| (p.0@, p.1@));
    let max: u64 = 2147483647;
    let mut w: u64 = 3;
    for i in 0..messages.len()
        invariant
            view == messages@.map_values(|p: (String, String)| (p.0@, p.1@)),
            max == i32::MAX,
            w == chat_weight(view.take(i as int)),
            w <= max,
    {
        proof {
            assert(view.take(i + 1).drop_last() =~= view.take(i as int));
        }
        let role_len = messages[i].0.as_str().len();
        let content_len = messages[i].1.as_str().len();
        if role_len as u64 > max || content_len as u64 > max {
            proof {
                lemma_weight_grows(view, i + 1, messages.len() as int);
                assert(view.take(messages.len() as int) =~= view);
            }
            return false;
        }
        let next = w + 4 + role_len as u64 + content_len as u64;
        if next > max {
            proof {
                lemma_weight_grows(view, i + 1, messages.len() as int);
                assert(view.take(messages.len() as int) =~= view);
            }
            return false;
        }
        w = next;
    }
    assert(view.take(messages.len() as int) =~= view);
    true
}

proof fn lemma_weight_grows(view: Seq<(Seq<char>, Seq<char>)>, i: int, j: int)
    requires
        0 <= i <= j <= view.len(),
    ensures
        chat_weight(view.take(i)) <= chat_weight(view.take(j)),
    decreases j - i,
{
    if i < j {
        lemma_weight_grows(view, i, j - 1);
        assert(view.take(j).drop_last() =~= view.take(j - 1));
    }
}

impl ChatEntryTokenNumber for OpenAI {
    open spec fn token_count(&self, input: ChatInputView) -> nat {
        gpt_token_count(self.model(), input)
    }

    /// The tokens of the GPT models are counted.
    open spec fn counts_tokens(&self) -> bool {
        is_gpt(self.model())
    }

    /// The context size of the GPT and of the Vicuna models is known.
    open spec fn knows_context_size(&self) -> bool {
        is_gpt(self.model()) || is_vicuna(self.model())
    }

    proof fn lemma_counted_has_context_size(&self) {
    }

    fn can_count_tokens(&self) -> (b: bool) {
        match self.model {
            SupportedModel::GPT3_5Turbo | SupportedModel::GPT3_5Turbo0613 | SupportedModel::GPT3_5Turbo16k => true,
            _ => false,
        }
    }

    open spec fn spec_context_size(&self) -> nat {
        if self.model() is GPT3_5Turbo16k {
            16384
        } else if is_vicuna(self.model()) {
            2048
        } else {
            tiktoken_context_size(model_name(self.model()))->Some_0 as nat
        }
    }

    /// Count the tokens of the messages of the request with tiktoken.
    fn num_tokens(&self, input: &ChatInput) -> (n: usize) {
        let entries = prepare_messages(input);
        let messages = role_content(&entries);
        if !light_enough(&messages) {
            return usize::MAX;
        }
        let name = self.model.to_string();
        proof {
            lemma_gpt_names(self.model);
        }
        num_tokens_from_messages(name.as_str(), &messages).unwrap()
    }

    /// The context size of the model: what tiktoken gives, but for the 16k
    /// model, which takes 16384 tokens; the other GPT models take 16385.
    fn context_size(&self) -> (n: usize)
        ensures
            is_gpt(self.model()) && !(self.model() is GPT3_5Turbo16k) ==> n == 16385,
            self.model() is GPT3_5Turbo16k ==> n == 16384,
            is_vicuna(self.model()) ==> n == 2048,
    {
        match self.model {
            SupportedModel::GPT3_5Turbo16k => 16384,
            SupportedModel::Vicuna7B1_1 | SupportedModel::Vicuna13B1_1 => 2048,
            _ => {
                let name = self.model.to_string();
                proof {
                    lemma_gpt_names(self.model);
                }
                get_context_size(name.as_str()).unwrap()
            },
        }
    }
}

/// What a message becomes in the prompt of the Vicuna models: the text of
/// the system on a line of its own; the user's and the assistant's text after
/// `USER: ` and `ASSISTANT: `, the assistant's followed by `</s>` after the
/// messages at even positions and by a space after the others; an empty
/// text leaves the role alone on its line.
pub open spec fn vicuna_line(i: int, e: EntryView) -> Seq<char> {
    let sep = if i % 2 == 0 { "</s>"@ } else { " "@ };
    match e.role {
        Role::System => if e.msg.len() == 0 { Seq::empty() } else { e.msg + "\n"@ },
        Role::User => if e.msg.len() == 0 { "USER:\n"@ } else { "USER: "@ + e.msg + "\n"@ },
        Role::Assistant => if e.msg.len() == 0 { "ASSISTANT:\n"@ } else { "ASSISTANT: "@ + e.msg + sep + "\n"@ },
    }
}

/// The prompt of the Vicuna models for the messages of a request.
pub open spec fn vicuna_text(entries: Seq<EntryView>) -> Seq<char>
    decreases entries.len(),
{
    if entries.len() == 0 {
        Seq::empty()
    } else {
        vicuna_text(entries.drop_last()) + vicuna_line(entries.len() - 1, entries.last())
    }
}

/// The number of tokens of the prompt of a Vicuna model, given the number
/// of ids the Llama tokenizer encodes that prompt into (without special
/// tokens): those ids and one more for the start of the text; `usize::MAX`
/// when that does not fit.
pub fn vicuna_num_tokens(ids: usize) -> (n: usize)
    ensures
        n == if ids < usize::MAX { ids + 1 } else { usize::MAX as int },
{
    if ids < usize::MAX {
        ids + 1
    } else {
        usize::MAX
    }
}

/// The prompt of the Vicuna models for the messages of a request, whose
/// tokens their tokenizer counts.
pub fn vicuna_prompt(entries: &Vec<ChatEntry>) -> (s: String)
    ensures
        s@ == vicuna_text(crate::models::entries_view(entries@)),
{
    let ghost view = crate::models::entries_view(entries@);
    let mut s = String::new();
    for i in 0..entries.len()
        invariant
            view == crate::models::entries_view(entries@),
            s@ == vicuna_text(view.take(i as int)),
    {
        proof {
            assert(view.take(i + 1).drop_last() =~= view.take(i as int));
            assert(view.take(i + 1).last() == entries@[i as int]@);
        }
        let e = &entries[i];
        let empty = e.msg.as_str().is_empty();
        match e.role {
            Role::System => {
                if !empty {
                    push_str(&mut s, e.msg.as_str());
                    push_str(&mut s, "\n");
                } else {
                    assert(s@ + Seq::<char>::empty() =~= s@);
                }
            },
            Role::User => {
                if empty {
                    push_str(&mut s, "USER:\n");
                } else {
                    push_str(&mut s, "USER: ");
                    push_str(&mut s, e.msg.as_str());
                    push_str(&mut s, "\n");
                }
            },
            Role::Assistant => {
                if empty {
                    push_str(&mut s, "ASSISTANT:\n");
                } else {
                    push_str(&mut s, "ASSISTANT: ");
                    push_str(&mut s, e.msg.as_str());
                    if i % 2 == 0 {
                        push_str(&mut s, "</s>");
                    } else {
                        push_str(&mut s, " ");
                    }
                    push_str(&mut s, "\n");
                }
            },
        }
        assert(s@ =~= vicuna_text(view.take(i + 1)));
    }
    assert(view.take(entries.len() as int) =~= view);
    s
}

} // verus!
