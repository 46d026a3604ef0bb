//! The OODA agent that observes, orients, decides and acts in a single
//! answer of the model.

use vstd::prelude::*;

use crate::chains::agents::{format_outcome, outcome_note, outcome_text, Error};
use crate::chains::Outcome;
use crate::chains::{latest_task, Context, Message};
use crate::models::ModelResponse;
use crate::context::{after_adds, example_pairs, prune, ChatEntry, ChatHistory, EntryView};
use crate::models::{ChatEntryTokenNumber, ChatInput, ChatInputView, Role};
use crate::prompt::{task_prompt, Manager};
use crate::text::{push_str, trim, trimmed};
use crate::SapiensConfig;

verus! {

/// What the warm-up prompt starts with.
pub const PREFIX: &'static str = r"You are Sapiens, a large language model assisting the WORLD. Use available tools to answer the question as best as you can.
You will proceed iteratively using an OODA loop.

- Action result will be provided to you. 
- Never produce the result of an Action. 
- The loop will repeated until you have the answer to the original question. 
- No task is complete until the Conclude Tool is used to provide the answer.
- You cannot use jinja2 templating in your response. Be concise. 
";

/// What comes before the description of the tools.
pub const TOOL_PREFIX: &'static str = r"
# The following are the ONLY Tools you can use for your Actions:
";

/// The format of the response.
pub const RESPONSE_FORMAT: &'static str = r"
# Format of your response

You must use the following format for your response. Comments are in bold and should be removed from your response.
====================
## Observations: 
**What do you know to be true? What do you you don't know? What are your sources? Note down important information for later.**
- <...>
## Orientation: 
**Plan the intermediate objectives to answer the original question. Maintain a list of current objectives updated as you go.**
- <...>
## Decision: 
**Decide what to do first to answer the question. Why? How will you if it succeeds? How will you if it fails?**
- <...>
## The ONLY Action: 
**Take a single Action consisting of exactly one pair of `tool_name` and `parameters`. Never give more than one YAML. **
```yaml
tool_name: <ToolName>
parameters:
    <...>  
```
We will take further action based on the result.
====================

Notes: 
- Action has the following fields: `tool_name` and `parameters` ONLY.
- `parameters` uses the format specified for the Tool.
- `result_fields` is the format you can expect of the result of the Action. You can use this to orient yourself but never use it in your response.
- One Action at a time. No more. No less.
";

/// The answer of the first example.
pub const PROTO_EXCHANGE_2: &'static str = r#"
## Observations:
- The given list to sort is [2, 3, 1, 4, 5].
- I need to sort this list in ascending order.
## Orientation:
- SandboxedPython can be used to sort the list.
- I need to provide only the `tool_name` and `parameters` fields for the SandboxedPython Tool.
- I expect the result of the Action to contains the field `stdout` with the sorted list and `stderr` empty.
- I need to use the Conclude Tool to terminate the task when I have the sorted list in plain text.
## Decision:
- We can use the sorted() function of Python to sort the list.
## The ONLY Action:
```yaml
tool_name: SandboxedPython
parameters:
  code: |
    lst = [2, 3, 1, 4, 5]
    sorted_list = sorted(lst)
    print(f"The sorted list is {sorted_list}")
```
We will take further action based on the result.
"#;

/// What starts the prompt of the second example: the result of the first action.
pub const PROTO_EXCHANGE_3: &'static str = r"
# Action SandboxedPython result:
```yaml
stdout: |
  The sorted list is [1, 2, 3, 4, 5]
stderr: ''
```
";

/// The answer of the second example.
pub const PROTO_EXCHANGE_4: &'static str = r"
## Observations:
- We needed to sort the list in ascending order.
- We have the result of the Action.
- We have the sorted list: [1, 2, 3, 4, 5].
## Orientation:
- I know the answer to the original question.
- I need to provide the `tool_name` and `parameters` fields for the Conclude Tool.
## Decision:
- Use the Conclude Tool to terminate the task with the sorted list.
## The ONLY Action:
```yaml
tool_name: Conclude
parameters:
  original_question: |
    Sort in ascending order: [2, 3, 1, 4, 5]
  conclusion: |
    The ascending sorted list is [1, 2, 3, 4, 5].
```
";


/// The task of the examples.
pub const WARMUP_TASK: &'static str = "Sort in ascending order: [2, 3, 1, 4, 5]";

/// The system prompt of the agent.
pub const SYSTEM_PROMPT: &'static str = "You are an agent named Sapiens interacting with the WORLD. Listen to the WORLD!";

/// The recurring prompt of the agent.
pub const PROMPT: &'static str = "Do you have the answer? Use the Conclude Tool to terminate the task.\nObservations, Orientation, Decision, The ONLY Action?";

} // verus!

verus! {

/// The chitchat entries that the messages of a context become: an action
/// is an entry from the assistant, the outcome of an action an entry from
/// the user; the other messages are left out.
pub open spec fn one_step_entries(messages: Seq<Message>, task_p: Seq<char>) -> Seq<EntryView>
    decreases messages.len(),
{
    if messages.len() == 0 {
        Seq::empty()
    } else {
        let prev = one_step_entries(messages.drop_last(), task_p);
        match messages.last() {
            Message::Action { content, .. } => prev.push(EntryView { role: Role::Assistant, msg: content@ }),
            Message::ActionResult { invocation_count, tool_name, outcome, .. } => prev.push(
                EntryView { role: Role::User, msg: outcome_text(task_p, invocation_count as nat, tool_name, outcome) },
            ),
            _ => prev,
        }
    }
}

/// An action's result adds one entry from the user: the note of that
/// result's own outcome, for its own invocation count and tool, followed by
/// the task's prompt; the entries of the messages before it are kept.
pub proof fn lemma_result_entry_keeps_count(
    messages: Seq<Message>,
    invocation_count: usize,
    tool_name: Option<String>,
    extracted_input: Option<String>,
    outcome: Outcome,
    task_p: Seq<char>,
)
    ensures
        one_step_entries(
            messages.push(Message::ActionResult { invocation_count, tool_name, extracted_input, outcome }),
            task_p,
        ) == one_step_entries(messages, task_p).push(
            EntryView { role: Role::User, msg: outcome_note(invocation_count as nat, tool_name, outcome) + "\n"@ + task_p },
        ),
{
    let m = Message::ActionResult { invocation_count, tool_name, extracted_input, outcome };
    assert(messages.push(m).drop_last() =~= messages);
}

/// An OODA agent.
pub struct Agent<M> {
    prompt_manager: Manager,
    config: SapiensConfig<M>,
}

impl<M: ChatEntryTokenNumber> Agent<M> {
    /// The prompts of the agent.
    pub closed spec fn manager(&self) -> Manager {
        self.prompt_manager
    }

    /// The configuration of the agent.
    pub closed spec fn config(&self) -> SapiensConfig<M> {
        self.config
    }

    /// The examples of the agent: the first exchange of the warm-up task,
    /// then its second exchange after the result of the first action.
    pub open spec fn examples(&self) -> Seq<(EntryView, EntryView)> {
        let warmup = task_prompt(WARMUP_TASK@, self.manager().prompt());
        seq![
            (EntryView { role: Role::User, msg: warmup }, EntryView { role: Role::Assistant, msg: trim(PROTO_EXCHANGE_2@) }),
            (EntryView { role: Role::User, msg: trim(PROTO_EXCHANGE_3@ + warmup) },
             EntryView { role: Role::Assistant, msg: trim(PROTO_EXCHANGE_4@) }),
        ]
    }

    /// The context of the chat history: the system prompt and the warm-up
    /// prompt.
    pub open spec fn history_context(&self) -> Seq<EntryView> {
        seq![
            EntryView { role: Role::System, msg: trim(self.manager().system_prompt()) },
            EntryView { role: Role::User, msg: trim(self.manager().warm_up_text(self.manager().tools())) },
        ]
    }

    /// The number of tokens the inputs of the agent may count.
    pub open spec fn budget(&self) -> int {
        self.config().model.spec_context_size() - self.config().min_tokens_for_completion
    }

    /// The examples and the chitchat of the chat history that a context
    /// becomes, and whether they fit: the messages become chitchat entries;
    /// when there is none, the task's prompt is the only one; then the
    /// history is pruned.
    pub open spec fn converted(&self, messages: Seq<Message>) -> (Seq<(EntryView, EntryView)>, Seq<EntryView>, Result<nat, crate::context::Error>) {
        let model = self.config().model;
        let ctx = self.history_context();
        let task_p = task_prompt(latest_task(messages)->Some_0, self.manager().prompt());
        let first = after_adds(model, self.budget(), ctx, self.examples(), Seq::empty(), one_step_entries(messages, task_p));
        let second = if first.1.len() == 0 {
            after_adds(model, self.budget(), ctx, first.0, first.1, seq![EntryView { role: Role::User, msg: task_p }])
        } else {
            first
        };
        prune(model, self.budget(), ctx, second.0, second.1)
    }

    /// Create a new agent, given the (YAML) description of the tools.
    pub fn new(config: SapiensConfig<M>, tools: String) -> (a: Self)
        ensures
            a.config() == config,
            a.manager().tools() == tools@,
            a.manager().system_prompt() == SYSTEM_PROMPT@,
            a.manager().prompt() == PROMPT@,
            a.manager().prefix() == PREFIX@,
            a.manager().tool_prefix() == TOOL_PREFIX@,
            a.manager().response_format() == RESPONSE_FORMAT@,
    {
        let prompt_manager = Manager::new(
            tools,
            String::from_str(SYSTEM_PROMPT),
            String::from_str(PROMPT),
            String::from_str(PREFIX),
            String::from_str(TOOL_PREFIX),
            String::from_str(RESPONSE_FORMAT),
        );
        Agent { prompt_manager, config }
    }

    /// Convert the context into the chat history to send to the model.
    pub fn convert_context_to_chat_history(&self, context: &Context) -> (r: Result<ChatHistory<'_, M>, Error>)
        requires
            latest_task(context.messages@) is Some,
            self.config().model.counts_tokens(),
            self.config().min_tokens_for_completion <= self.config().model.spec_context_size(),
        ensures
            match r {
                Ok(h) => {
                    &&& h.model() == self.config().model
                    &&& h.context() == self.history_context()
                    &&& h.budget() == self.budget()
                    &&& h.examples() == self.converted(context.messages@).0
                    &&& h.chitchat() == self.converted(context.messages@).1
                    &&& self.converted(context.messages@).2 is Ok
                },
                Err(e) => e == Error::ChatHistoryError(crate::context::Error::PromptTooLong)
                    && self.converted(context.messages@).2 is Err,
            },
    {
        proof {
            self.config.model.lemma_counted_has_context_size();
        }
        let max_token = self.config.model.context_size();
        let mut h = ChatHistory::new(&self.config.model, max_token, self.config.min_tokens_for_completion);
        let warmup_task = self.prompt_manager.build_task_prompt(WARMUP_TASK);
        let mut second_prompt = String::from_str(PROTO_EXCHANGE_3);
        push_str(&mut second_prompt, warmup_task.to_prompt().as_str());
        let mut examples: Vec<(String, String)> = Vec::new();
        examples.push((warmup_task.to_prompt(), trimmed(PROTO_EXCHANGE_2)));
        examples.push((trimmed(second_prompt.as_str()), trimmed(PROTO_EXCHANGE_4)));
        self.prompt_manager.populate_chat_history(&mut h, examples);
        assert(example_pairs(examples@) =~= self.examples());
        assert(h.examples() =~= self.examples());
        let task = context.get_latest_task().unwrap();
        let task = self.prompt_manager.build_task_prompt(task.as_str());
        let ghost task_p = task.prompt();
        let ghost ctx = self.history_context();
        let ghost model = self.config().model;
        let ghost b = self.budget();
        assert(h.chitchat() =~= Seq::<EntryView>::empty());
        let n = context.messages.len();
        for i in 0..n
            invariant
                n == context.messages@.len(),
                h.model() == model,
                model.counts_tokens(),
                h.context() == ctx,
                h.budget() == b,
                h.min_token_for_completion() <= h.max_token(),
                task_p == task_prompt(latest_task(context.messages@)->Some_0, self.manager().prompt()),
                task.prompt() == task_p,
                (h.examples(), h.chitchat()) == after_adds(model, b, ctx, self.examples(), Seq::empty(),
                    one_step_entries(context.messages@.take(i as int), task_p)),
        {
            let ghost prev = context.messages@.take(i as int);
            let ghost cur = context.messages@.take(i + 1);
            assert(cur.drop_last() =~= prev);
            assert(cur.last() == context.messages@[i as int]);
            match &context.messages[i] {
                Message::Action { content, .. } => {
                    let ghost e = EntryView { role: Role::Assistant, msg: content@ };
                    let _ = h.add_chitchat(ChatEntry { role: Role::Assistant, msg: content.clone() });
                    assert(one_step_entries(cur, task_p) == one_step_entries(prev, task_p).push(e));
                    assert(one_step_entries(cur, task_p).drop_last() =~= one_step_entries(prev, task_p));
                },
                Message::ActionResult { invocation_count, tool_name, outcome, .. } => {
                    let entry = format_outcome(&task, *invocation_count, tool_name, outcome);
                    let ghost e = EntryView { role: Role::User, msg: entry@ };
                    let _ = h.add_chitchat(ChatEntry { role: Role::User, msg: entry });
                    assert(one_step_entries(cur, task_p) == one_step_entries(prev, task_p).push(e));
                    assert(one_step_entries(cur, task_p).drop_last() =~= one_step_entries(prev, task_p));
                },
                _ => {
                    assert(one_step_entries(cur, task_p) == one_step_entries(prev, task_p));
                },
            }
        }
        assert(context.messages@.take(n as int) =~= context.messages@);
        let ghost first = (h.examples(), h.chitchat());
        if h.is_chitchat_empty() {
            let ghost e = EntryView { role: Role::User, msg: task_p };
            let _ = h.add_chitchat(ChatEntry { role: Role::User, msg: task.to_prompt() });
            assert(seq![e].drop_last() =~= Seq::<EntryView>::empty());
            assert(after_adds(model, b, ctx, first.0, first.1, Seq::empty()) == first);
        }
        let ghost second = (h.examples(), h.chitchat());
        assert(second == if first.1.len() == 0 {
            after_adds(model, b, ctx, first.0, first.1, seq![EntryView { role: Role::User, msg: task_p }])
        } else {
            first
        });
        assert(h.budget() == self.budget());
        assert(h.context() == self.history_context());
        match h.purge() {
            Ok(_) => {
                assert(h.examples() == self.converted(context.messages@).0);
                assert(h.chitchat() == self.converted(context.messages@).1);
                Ok(h)
            },
            Err(e) => Err(Error::ChatHistoryError(e)),
        }
    }
}

impl<M: ChatEntryTokenNumber> crate::chains::Agent for Agent<M> {
    open spec fn ready(&self) -> bool {
        &&& self.config().model.counts_tokens()
        &&& self.config().min_tokens_for_completion <= self.config().model.spec_context_size()
    }

    /// The context, the examples and the chitchat of the chat history the
    /// messages become, if it fits.
    open spec fn input_for(&self, messages: Seq<Message>) -> Result<ChatInputView, Error> {
        let c = self.converted(messages);
        if c.2 is Ok {
            Ok(ChatInputView { context: self.history_context(), examples: c.0, chat: c.1 })
        } else {
            Err(Error::ChatHistoryError(crate::context::Error::PromptTooLong))
        }
    }

    /// An action.
    open spec fn answer_of(&self, response: ModelResponse) -> Message {
        Message::Action { content: response.msg, usage: response.usage }
    }

    fn is_ready(&self) -> (b: bool) {
        if !self.config.model.can_count_tokens() {
            return false;
        }
        proof {
            self.config.model.lemma_counted_has_context_size();
        }
        self.config.min_tokens_for_completion <= self.config.model.context_size()
    }

    /// Convert the context into a chat history, and make the input for the
    /// model out of it.
    fn prepare(&self, context: &Context) -> (r: Result<ChatInput, Error>) {
        match self.convert_context_to_chat_history(context) {
            Ok(h) => Ok(h.make_input()),
            Err(e) => Err(e),
        }
    }

    fn max_tokens(&self) -> (n: Option<usize>)
        ensures
            n == self.config().max_tokens,
    {
        self.config.max_tokens
    }

    fn answer(&self, response: ModelResponse) -> (m: Message) {
        Message::Action { content: response.msg, usage: response.usage }
    }
}

} // verus!
