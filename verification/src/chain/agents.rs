//! The OODA agent of the first chain.

use vstd::prelude::*;

use crate::chains::agents::{format_outcome_note, outcome_note, Error};
use crate::chains::{latest_task, Context, Message};
use crate::context::{add_entry, prune, ChatEntry, ChatHistory, EntryView};
use crate::models::{ChatEntryTokenNumber, ChatInput, ChatInputView, ModelResponse, Role};
use crate::prompt::{task_prompt, Manager};
use crate::text::trim;
use crate::SapiensConfig;

verus! {

/// The examples and the chitchat after adding `x` to the chitchat and
/// pruning, and whether the history still holds the input.
pub open spec fn add_step<M: ChatEntryTokenNumber>(
    model: M,
    budget: int,
    context: Seq<EntryView>,
    prev: (Seq<(EntryView, EntryView)>, Seq<EntryView>, bool),
    x: EntryView,
) -> (Seq<(EntryView, EntryView)>, Seq<EntryView>, bool) {
    let p = prune(model, budget, context, prev.0, add_entry(prev.1, x));
    (p.0, p.1, p.2 is Ok)
}

/// The chat history that the messages become, from an empty chitchat: an
/// action is added as the assistant's entry, the result of an action as the
/// user's note of its outcome, each followed by a pruning; the other
/// messages are left out. The first entry the history cannot hold stops it:
/// the last component says whether none did.
pub open spec fn ooda_steps<M: ChatEntryTokenNumber>(
    model: M,
    budget: int,
    context: Seq<EntryView>,
    messages: Seq<Message>,
) -> (Seq<(EntryView, EntryView)>, Seq<EntryView>, bool)
    decreases messages.len(),
{
    if messages.len() == 0 {
        (Seq::empty(), Seq::empty(), true)
    } else {
        let prev = ooda_steps(model, budget, context, messages.drop_last());
        if !prev.2 {
            prev
        } else {
            match messages.last() {
                Message::Action { content, .. } => add_step(
                    model,
                    budget,
                    context,
                    prev,
                    EntryView { role: Role::Assistant, msg: content@ },
                ),
                Message::ActionResult { invocation_count, tool_name, outcome, .. } => add_step(
                    model,
                    budget,
                    context,
                    prev,
                    EntryView { role: Role::User, msg: outcome_note(invocation_count as nat, tool_name, outcome) },
                ),
                _ => prev,
            }
        }
    }
}

/// An action's result, while the history holds the entries before it, is
/// added as one entry from the user: the note of that result's own outcome,
/// for its own invocation count and tool.
pub proof fn lemma_result_entry_keeps_count<M: ChatEntryTokenNumber>(
    model: M,
    budget: int,
    context: Seq<EntryView>,
    messages: Seq<Message>,
    invocation_count: usize,
    tool_name: Option<String>,
    extracted_input: Option<String>,
    outcome: crate::chains::Outcome,
)
    requires
        ooda_steps(model, budget, context, messages).2,
    ensures
        ooda_steps(
            model,
            budget,
            context,
            messages.push(Message::ActionResult { invocation_count, tool_name, extracted_input, outcome }),
        ) == add_step(
            model,
            budget,
            context,
            ooda_steps(model, budget, context, messages),
            EntryView { role: Role::User, msg: outcome_note(invocation_count as nat, tool_name, outcome) },
        ),
{
    let m = Message::ActionResult { invocation_count, tool_name, extracted_input, outcome };
    assert(messages.push(m).drop_last() =~= messages);
}

/// Once the history cannot hold an entry, it stays so whatever messages
/// follow.
proof fn lemma_ooda_steps_stop<M: ChatEntryTokenNumber>(
    model: M,
    budget: int,
    context: Seq<EntryView>,
    messages: Seq<Message>,
    i: int,
    j: int,
)
    requires
        0 <= i <= j <= messages.len(),
        !ooda_steps(model, budget, context, messages.take(i)).2,
    ensures
        !ooda_steps(model, budget, context, messages.take(j)).2,
    decreases j - i,
{
    if i < j {
        lemma_ooda_steps_stop(model, budget, context, messages, i, j - 1);
        assert(messages.take(j).drop_last() =~= messages.take(j - 1));
    }
}

/// The OODA agent of the first chain: it answers with an action.
pub struct OODAAgent<M> {
    prompt_manager: Manager,
    config: SapiensConfig<M>,
}

impl<M: ChatEntryTokenNumber> OODAAgent<M> {
    /// The prompts of the agent.
    pub closed spec fn manager(&self) -> Manager {
        self.prompt_manager
    }

    /// The configuration of the agent.
    pub closed spec fn config(&self) -> SapiensConfig<M> {
        self.config
    }

    /// The context of the chat history: the system prompt and the warm-up
    /// prompt.
    pub open spec fn history_context(&self) -> Seq<EntryView> {
        seq![
            EntryView { role: Role::System, msg: trim(self.manager().system_prompt()) },
            EntryView { role: Role::User, msg: trim(self.manager().warm_up_text(self.manager().tools())) },
        ]
    }

    /// The number of tokens the inputs of the agent may count.
    pub open spec fn budget(&self) -> int {
        self.config().model.spec_context_size() - self.config().min_tokens_for_completion
    }

    /// The examples and the chitchat of the chat history that the messages
    /// become, and whether the history holds them: the messages become
    /// chitchat entries; when there is none, the task's prompt is the only
    /// one.
    pub open spec fn converted(&self, messages: Seq<Message>) -> (Seq<(EntryView, EntryView)>, Seq<EntryView>, bool) {
        let model = self.config().model;
        let ctx = self.history_context();
        let first = ooda_steps(model, self.budget(), ctx, messages);
        if first.2 && first.1.len() == 0 {
            let task_p = task_prompt(latest_task(messages)->Some_0, self.manager().prompt());
            add_step(model, self.budget(), ctx, first, EntryView { role: Role::User, msg: task_p })
        } else {
            first
        }
    }

    /// Create a new agent with its configuration and its prompts.
    pub fn new(config: SapiensConfig<M>, prompt_manager: Manager) -> (a: Self)
        ensures
            a.config() == config,
            a.manager() == prompt_manager,
    {
        OODAAgent { prompt_manager, config }
    }

    /// Convert the context into the chat history to send to the model; fail
    /// as soon as the history cannot hold an entry.
    pub fn convert_context_to_chat_history(&self, context: &Context) -> (r: Result<ChatHistory<'_, M>, Error>)
        requires
            latest_task(context.messages@) is Some,
            self.config().model.counts_tokens(),
            self.config().min_tokens_for_completion <= self.config().model.spec_context_size(),
        ensures
            match r {
                Ok(h) => {
                    &&& h.model() == self.config().model
                    &&& h.context() == self.history_context()
                    &&& h.budget() == self.budget()
                    &&& h.examples() == self.converted(context.messages@).0
                    &&& h.chitchat() == self.converted(context.messages@).1
                    &&& self.converted(context.messages@).2
                },
                Err(e) => e == Error::ChatHistoryError(crate::context::Error::PromptTooLong)
                    && !self.converted(context.messages@).2,
            },
    {
        proof {
            self.config.model.lemma_counted_has_context_size();
        }
        let max_token = self.config.model.context_size();
        let mut h = ChatHistory::new(&self.config.model, max_token, self.config.min_tokens_for_completion);
        self.prompt_manager.populate_chat_history(&mut h, Vec::new());
        assert(h.examples() =~= Seq::<(EntryView, EntryView)>::empty());
        assert(h.chitchat() =~= Seq::<EntryView>::empty());
        let task = context.get_latest_task().unwrap();
        let task = self.prompt_manager.build_task_prompt(task.as_str());
        let ghost ctx = self.history_context();
        let ghost model = self.config().model;
        let ghost b = self.budget();
        let ghost all = context.messages@;
        let n = context.messages.len();
        assert(all.take(0) =~= Seq::<Message>::empty());
        for i in 0..n
            invariant
                n == all.len(),
                all == context.messages@,
                model == self.config().model,
                b == self.budget(),
                ctx == self.history_context(),
                h.model() == model,
                model.counts_tokens(),
                h.context() == ctx,
                h.budget() == b,
                h.min_token_for_completion() <= h.max_token(),
                task.prompt() == task_prompt(latest_task(all)->Some_0, self.manager().prompt()),
                ooda_steps(model, b, ctx, all.take(i as int)) == (h.examples(), h.chitchat(), true),
        {
            let ghost prev = ooda_steps(model, b, ctx, all.take(i as int));
            proof {
                assert(all.take(i + 1).drop_last() =~= all.take(i as int));
                assert(all.take(i + 1).last() == all[i as int]);
            }
            let entry = match &context.messages[i] {
                Message::Action { content, .. } => {
                    let e = ChatEntry { role: Role::Assistant, msg: content.clone() };
                    assert(ooda_steps(model, b, ctx, all.take(i + 1)) == add_step(model, b, ctx, prev, e@));
                    Some(e)
                },
                Message::ActionResult { invocation_count, tool_name, outcome, .. } => {
                    let e = ChatEntry { role: Role::User, msg: format_outcome_note(*invocation_count, tool_name, outcome) };
                    assert(ooda_steps(model, b, ctx, all.take(i + 1)) == add_step(model, b, ctx, prev, e@));
                    Some(e)
                },
                _ => {
                    assert(ooda_steps(model, b, ctx, all.take(i + 1)) == prev);
                    None
                },
            };
            match entry {
                Some(e) => {
                    let ghost x = e@;
                    assert(ooda_steps(model, b, ctx, all.take(i + 1)) == add_step(model, b, ctx, prev, x));
                    match h.add_chitchat(e) {
                        Ok(_) => {},
                        Err(err) => {
                            proof {
                                assert(!ooda_steps(model, b, ctx, all.take(i + 1)).2);
                                assert(err == crate::context::Error::PromptTooLong);
                                lemma_ooda_steps_stop(model, b, ctx, all, i + 1, n as int);
                                assert(all.take(n as int) =~= all);
                                assert(!ooda_steps(model, b, ctx, all).2);
                            }
                            return Err(Error::ChatHistoryError(err));
                        },
                    }
                },
                None => {},
            }
        }
        assert(all.take(n as int) =~= all);
        if h.is_chitchat_empty() {
            match h.add_chitchat(ChatEntry { role: Role::User, msg: task.to_prompt() }) {
                Ok(_) => {},
                Err(err) => {
                    return Err(Error::ChatHistoryError(err));
                },
            }
        }
        Ok(h)
    }
}

impl<M: ChatEntryTokenNumber> crate::chains::Agent for OODAAgent<M> {
    open spec fn ready(&self) -> bool {
        &&& self.config().model.counts_tokens()
        &&& self.config().min_tokens_for_completion <= self.config().model.spec_context_size()
    }

    /// The context, the examples and the chitchat of the chat history the
    /// messages become, if it holds them.
    open spec fn input_for(&self, messages: Seq<Message>) -> Result<ChatInputView, Error> {
        let c = self.converted(messages);
        if c.2 {
            Ok(ChatInputView { context: self.history_context(), examples: c.0, chat: c.1 })
        } else {
            Err(Error::ChatHistoryError(crate::context::Error::PromptTooLong))
        }
    }

    /// An action.
    open spec fn answer_of(&self, response: ModelResponse) -> Message {
        Message::Action { content: response.msg, usage: response.usage }
    }

    fn is_ready(&self) -> (b: bool) {
        if !self.config.model.can_count_tokens() {
            return false;
        }
        proof {
            self.config.model.lemma_counted_has_context_size();
        }
        self.config.min_tokens_for_completion <= self.config.model.context_size()
    }

    /// Convert the context into a chat history, and make the input for the
    /// model out of it.
    fn prepare(&self, context: &Context) -> (r: Result<ChatInput, Error>) {
        match self.convert_context_to_chat_history(context) {
            Ok(h) => Ok(h.make_input()),
            Err(e) => Err(e),
        }
    }

    fn max_tokens(&self) -> (n: Option<usize>)
        ensures
            n == self.config().max_tokens,
    {
        self.config.max_tokens
    }

    fn answer(&self, response: ModelResponse) -> (m: Message) {
        Message::Action { content: response.msg, usage: response.usage }
    }
}

} // verus!
