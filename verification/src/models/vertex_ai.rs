//! The prompt of the Vertex AI chat models (`chat-bison-001`): the context
//! in one text, the examples as pairs of messages, and the chat. The service
//! itself is reached by whoever runs the model.

use vstd::prelude::*;

use crate::context::EntryView;
use crate::models::{role_name, ChatInput, Role};
use crate::text::join_strings;

verus! {

/// A message of the prompt.
pub struct PromptMessage {
    /// Who wrote it: `user`, `assistant` or `system`
    pub author: String,
    /// What it says
    pub content: String,
}

/// An example of the prompt: what the user says, and what the model
/// answers.
pub struct PromptExample {
    /// The message of the user
    pub input: PromptMessage,
    /// The answer of the model
    pub output: PromptMessage,
}

/// The prompt of a Vertex AI chat model.
pub struct MessagePrompt {
    /// The context, one entry per line
    pub context: String,
    /// The examples
    pub examples: Vec<PromptExample>,
    /// The chat
    pub messages: Vec<PromptMessage>,
}

/// A message by its author and its content.
pub open spec fn message_view(m: PromptMessage) -> (Seq<char>, Seq<char>) {
    (m.author@, m.content@)
}

/// The message an entry becomes: its role as author, and its text.
pub open spec fn entry_message(e: EntryView) -> (Seq<char>, Seq<char>) {
    (role_name(e.role), e.msg)
}

/// The example a pair of entries becomes: a message of the user, and an
/// answer of the assistant.
pub open spec fn example_messages(p: (EntryView, EntryView)) -> ((Seq<char>, Seq<char>), (Seq<char>, Seq<char>)) {
    (("user"@, p.0.msg), ("assistant"@, p.1.msg))
}

fn message_of(author: String, content: &String) -> (m: PromptMessage)
    ensures
        m.author == author,
        m.content@ == content@,
{
    PromptMessage { author, content: content.clone() }
}

/// The prompt of a chat input: the texts of the context joined by line
/// feeds, each example pair as a message of the user and an answer of the
/// assistant, and each chat entry as a message of its role.
pub fn prepare_input(input: &ChatInput) -> (p: MessagePrompt)
    ensures
        p.context@ == crate::text::join(input@.context.map_values(|e: EntryView| e.msg), "\n"@),
        p.examples@.map_values(|x: PromptExample| (message_view(x.input), message_view(x.output)))
            == input@.examples.map_values(|q: (EntryView, EntryView)| example_messages(q)),
        p.messages@.map_values(|m: PromptMessage| message_view(m)) == input@.chat.map_values(
            |e: EntryView| entry_message(e),
        ),
{
    let mut texts: Vec<String> = Vec::new();
    for i in 0..input.context.len()
        invariant
            crate::text::strings_view(texts@) == input@.context.take(i as int).map_values(|e: EntryView| e.msg),
    {
        let ghost before = texts@;
        texts.push(input.context[i].msg.clone());
        proof {
            let c = input@.context;
            assert(c[i as int] == input.context@[i as int]@);
            assert(c.take(i + 1) =~= c.take(i as int).push(c[i as int]));
            assert(c.take(i + 1).map_values(|e: EntryView| e.msg) =~= c.take(i as int).map_values(|e: EntryView| e.msg).push(
                c[i as int].msg,
            ));
            assert(crate::text::strings_view(texts@) =~= crate::text::strings_view(before).push(c[i as int].msg));
        }
    }
    assert(input@.context.take(input.context.len() as int) =~= input@.context);
    let context = join_strings(&texts, "\n");
    let mut examples: Vec<PromptExample> = Vec::new();
    for i in 0..input.examples.len()
        invariant
            examples@.map_values(|x: PromptExample| (message_view(x.input), message_view(x.output)))
                == input@.examples.take(i as int).map_values(|q: (EntryView, EntryView)| example_messages(q)),
    {
        let (user, bot) = &input.examples[i];
        let ex = PromptExample {
            input: message_of(Role::User.name(), &user.msg),
            output: message_of(Role::Assistant.name(), &bot.msg),
        };
        proof {
            reveal_strlit("user");
            reveal_strlit("assistant");
        }
        let ghost before = examples@;
        let ghost xv = (message_view(ex.input), message_view(ex.output));
        examples.push(ex);
        proof {
            let c = input@.examples;
            assert(c[i as int] == (input.examples@[i as int].0@, input.examples@[i as int].1@));
            assert(xv == example_messages(c[i as int]));
            assert(c.take(i + 1) =~= c.take(i as int).push(c[i as int]));
            assert(c.take(i + 1).map_values(|q: (EntryView, EntryView)| example_messages(q)) =~= c.take(i as int).map_values(
                |q: (EntryView, EntryView)| example_messages(q),
            ).push(xv));
            assert(examples@.map_values(|x: PromptExample| (message_view(x.input), message_view(x.output)))
                =~= before.map_values(|x: PromptExample| (message_view(x.input), message_view(x.output))).push(xv));
        }
    }
    assert(input@.examples.take(input.examples.len() as int) =~= input@.examples);
    let mut messages: Vec<PromptMessage> = Vec::new();
    for i in 0..input.chat.len()
        invariant
            messages@.map_values(|m: PromptMessage| message_view(m)) == input@.chat.take(i as int).map_values(
                |e: EntryView| entry_message(e),
            ),
    {
        let e = &input.chat[i];
        let m = message_of(e.role.name(), &e.msg);
        let ghost before = messages@;
        let ghost mv = message_view(m);
        messages.push(m);
        proof {
            let c = input@.chat;
            assert(c[i as int] == input.chat@[i as int]@);
            assert(mv == entry_message(c[i as int]));
            assert(c.take(i + 1) =~= c.take(i as int).push(c[i as int]));
            assert(c.take(i + 1).map_values(|e: EntryView| entry_message(e)) =~= c.take(i as int).map_values(
                |e: EntryView| entry_message(e),
            ).push(mv));
            assert(messages@.map_values(|m: PromptMessage| message_view(m)) =~= before.map_values(
                |m: PromptMessage| message_view(m),
            ).push(mv));
        }
    }
    assert(input@.chat.take(input.chat.len() as int) =~= input@.chat);
    MessagePrompt { context, examples, messages }
}

} // verus!
