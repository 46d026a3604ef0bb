//! The OODA agents that each take one step of the loop: the observer, the
//! orienter, the decider and the actor.

use vstd::prelude::*;

use crate::chains::agents::{byte_len, format_outcome, outcome_note, outcome_text, tool_label, Error, MAX_RESPONSE_CHAR};
use crate::chains::Outcome;
use crate::prompt::action_success_text;
use crate::text::{decimal, starts_with};
use crate::chains::{latest_task, Context, Message};
use crate::context::{after_adds, example_pairs, lemma_after_adds_push, prune, ChatEntry, ChatHistory, EntryView};
use crate::prompt::Task;
use crate::models::{ChatEntryTokenNumber, ChatInput, ChatInputView, ModelResponse, Role, Usage};
use crate::prompt::{task_prompt, Manager};
use crate::text::{join, join_strings, push_str, strings_view, trim, trimmed};
use crate::SapiensConfig;

verus! {

/// What the warm-up prompts start with.
pub const PREFIX: &'static str = r"You are Sapiens, a large language model assisting the WORLD. Use available tools to answer the question as best as you can.
You will proceed iteratively using an OODA loop.

- Action result will be provided to you. 
- Never produce the result of an Action. 
- The loop will repeated until you have the answer to the original question. 
- No task is complete until the Conclude Tool is used to provide the answer.
- You cannot use jinja2 templating in your response. Be concise. 
";

/// What comes before the description of the tools.
pub const TOOL_PREFIX: &'static str = r"
# The following are the ONLY Tools one can use for the Actions:
";

/// The format of the response of the observer.
pub const OBSERVER_RESPONSE_FORMAT: &'static str = r"
# Format of your response

You must use the following format for your response. Comments are in bold and should be removed from your response.
====================
## Observations: 
**What do you know to be true? What do you you don't know? What are your sources? Note down important information for later.**
- <...>
====================
";

/// The format of the response of the orienter.
pub const ORIENTER_RESPONSE_FORMAT: &'static str = r"
# Format of your response

You must use the following format for your response. Comments are in bold and should be removed from your response.
====================
## Orientation: 
**Plan the intermediate objectives to answer complete the original task. Maintain a list of current objectives updated as you go.**
- <...>
```
====================
";

/// The format of the response of the decider.
pub const DECIDER_RESPONSE_FORMAT: &'static str = r"
# Format of your response

You must use the following format for your response. Comments are in bold and should be removed from your response.
====================
## Decision: 
**Decide what to do first to answer the question. Why? How will you if it succeeds? How will you if it fails?**
- <...>
====================

Notes: 
- `result_fields` is the format you can expect of the result of the Action. You can use this to orient yourself but never use it in your response.
- One Action at a time. No more. No less.
";

/// The format of the response of the actor.
pub const ACTOR_RESPONSE_FORMAT: &'static str = r"
# Format of your response

You must use the following format for your response. Comments are in bold and should be removed from your response.
====================
## The ONLY Action: 
**Take a single Action consisting of exactly one pair of `tool_name` and `parameters`. Never give more than one YAML. **
```yaml
tool_name: <ToolName>
parameters:
    <...>  
```
We will take further action based on the result.
====================

Notes: 
- Action has the following fields: `tool_name` and `parameters` ONLY.
- `parameters` uses the format specified for the Tool.
- `result_fields` is the format you can expect of the result of the Action. You can use this to orient yourself but never use it in your response.
- One Action at a time. No more. No less.
";

/// The answer of the first example of the observer.
pub const OBSERVER_PROTO_INITIAL_RESPONSE: &'static str = r#"
## Observations:
- The given list to sort is [2, 3, 1, 4, 5].
- I need to sort this list in ascending order.
"#;

/// What starts the prompt of the second example of the observer.
pub const OBSERVER_PROTO_SECOND_INPUT: &'static str = r#"
## Orientation:
- SandboxedPython can be used to sort the list.
- I need to provide only the `tool_name` and `parameters` fields for the SandboxedPython Tool.
- I expect the result of the Action to contains the field `stdout` with the sorted list and `stderr` empty.
- I need to use the Conclude Tool to terminate the task when I have the sorted list in plain text.
## Decision:
- We can use the sorted() function of Python to sort the list.
## The ONLY Action:
```yaml
tool_name: SandboxedPython
parameters:
  code: |
    lst = [2, 3, 1, 4, 5]
    sorted_list = sorted(lst)
    print(f"The sorted list is {sorted_list}")
```
We will take further action based on the result.
# Action SandboxedPython result:
```yaml
stdout: |
  The sorted list is [1, 2, 3, 4, 5]
stderr: ''
```
"#;

/// The answer of the second example of the observer.
pub const OBSERVER_PROTO_SECOND_RESPONSE: &'static str = r"
## Observations:
- We needed to sort the list in ascending order.
- We have the result of the Action.
- We have the sorted list: [1, 2, 3, 4, 5].
";

/// The answer of the first example of the orienter.
pub const ORIENTER_PROTO_INITIAL_RESPONSE: &'static str = r#"
## Orientation:
- SandboxedPython can be used to sort the list.
- I need to provide only the `tool_name` and `parameters` fields for the SandboxedPython Tool.
- I expect the result of the Action to contains the field `stdout` with the sorted list and `stderr` empty.
- I need to use the Conclude Tool to terminate the task when I have the sorted list in plain text.
"#;

/// What starts the prompt of the second example of the orienter.
pub const ORIENTER_PROTO_SECOND_INPUT: &'static str = r#"
## Decision:
- We can use the sorted() function of Python to sort the list.
## The ONLY Action:
```yaml
tool_name: SandboxedPython
parameters:
  code: |
    lst = [2, 3, 1, 4, 5]
    sorted_list = sorted(lst)
    print(f"The sorted list is {sorted_list}")
```
We will take further action based on the result.
# Action SandboxedPython result:
```yaml
stdout: |
  The sorted list is [1, 2, 3, 4, 5]
stderr: ''
```
## Observations:
- We needed to sort the list in ascending order.
- We have the result of the Action.
- We have the sorted list: [1, 2, 3, 4, 5].
"#;

/// The answer of the second example of the orienter.
pub const ORIENTER_PROTO_SECOND_RESPONSE: &'static str = r"
## Orientation:
- I know the answer to the original question.
- I need to provide the `tool_name` and `parameters` fields for the Conclude Tool.
";

/// The answer of the first example of the decider.
pub const DECIDER_PROTO_INITIAL_RESPONSE: &'static str = r#"
## Decision:
- We can use the sorted() function of Python to sort the list.
"#;

/// What starts the prompt of the second example of the decider.
pub const DECIDER_PROTO_SECOND_INPUT: &'static str = r#"
## The ONLY Action:
```yaml
tool_name: SandboxedPython
parameters:
  code: |
    lst = [2, 3, 1, 4, 5]
    sorted_list = sorted(lst)
    print(f"The sorted list is {sorted_list}")
```
We will take further action based on the result.
# Action SandboxedPython result:
```yaml
stdout: |
  The sorted list is [1, 2, 3, 4, 5]
stderr: ''
```
## Observations:
- We needed to sort the list in ascending order.
- We have the result of the Action.
- We have the sorted list: [1, 2, 3, 4, 5].
## Orientation:
- I know the answer to the original question.
- I need to provide the `tool_name` and `parameters` fields for the Conclude Tool.
"#;

/// The answer of the second example of the decider.
pub const DECIDER_PROTO_SECOND_RESPONSE: &'static str = r"
## Decision:
- Use the Conclude Tool to terminate the task with the sorted list.
";

/// The answer of the first example of the actor.
pub const ACTOR_PROTO_INITIAL_RESPONSE: &'static str = r#"
## The ONLY Action:
```yaml
tool_name: SandboxedPython
parameters:
  code: |
    lst = [2, 3, 1, 4, 5]
    sorted_list = sorted(lst)
    print(f"The sorted list is {sorted_list}")
```
We will take further action based on the result.
"#;

/// What starts the prompt of the second example of the actor.
pub const ACTOR_PROTO_SECOND_INPUT: &'static str = r#"
# Action SandboxedPython result:
```yaml
stdout: |
  The sorted list is [1, 2, 3, 4, 5]
stderr: ''
```
## Observations:
- We needed to sort the list in ascending order.
- We have the result of the Action.
- We have the sorted list: [1, 2, 3, 4, 5].
## Orientation:
- I know the answer to the original question.
- I need to provide the `tool_name` and `parameters` fields for the Conclude Tool.
## Decision:
- Use the Conclude Tool to terminate the task with the sorted list.
"#;

/// The answer of the second example of the actor.
pub const ACTOR_PROTO_SECOND_RESPONSE: &'static str = r"
## The ONLY Action:
```yaml
tool_name: Conclude
parameters:
  original_question: |
    Sort in ascending order: [2, 3, 1, 4, 5]
  conclusion: |
    The ascending sorted list is [1, 2, 3, 4, 5].
```
";

/// The system prompt of the observer.
pub const OBSERVER_SYSTEM_PROMPT: &'static str = "You are part of Sapiens agents and your role is to observe and report. Observe to the WORLD!";

/// The recurring prompt of the observer.
pub const OBSERVER_PROMPT: &'static str = "Observations?";

/// The system prompt of the orienter.
pub const ORIENTER_SYSTEM_PROMPT: &'static str = "You are part of Sapiens agents and your role is to orient the other agents based on the observations. Guide the WORLD";

/// The recurring prompt of the orienter.
pub const ORIENTER_PROMPT: &'static str = "Orientation?";

/// The system prompt of the decider.
pub const DECIDER_SYSTEM_PROMPT: &'static str = "You are part of Sapiens agents and your role is to decide what need to be done based on the observations and guidance you got. Act upon the WORLD!";

/// The recurring prompt of the decider.
pub const DECIDER_PROMPT: &'static str = "Decision?";

/// The system prompt of the actor.
pub const ACTOR_SYSTEM_PROMPT: &'static str = "You are part of Sapiens agents and your role is to act on the world as it has been decided. Change the WORLD!";

/// The recurring prompt of the actor.
pub const ACTOR_PROMPT: &'static str = "Action?";

/// The task of the examples.
pub const WARMUP_TASK: &'static str = "Sort in ascending order: [2, 3, 1, 4, 5]";

} // verus!

verus! {

/// The role of an agent in the loop.
#[derive(PartialEq, Eq, Structural, Clone, Copy, Debug)]
pub enum AgentRole {
    /// Observes and reports
    Observer,
    /// Orients the other agents based on the observations
    Orienter,
    /// Decides what needs to be done
    Decider,
    /// Acts on the world as it has been decided
    Actor,
}

/// Is `m` an answer of an agent of the given role?
pub open spec fn is_answer_of(role: AgentRole, m: Message) -> bool {
    match role {
        AgentRole::Observer => m is Observation,
        AgentRole::Orienter => m is Orientation,
        AgentRole::Decider => m is Decision,
        AgentRole::Actor => m is Action,
    }
}

/// What a message tells the agents: the content of an observation, an
/// orientation, a decision or an action; the outcome of an action followed
/// by the task's prompt; nothing for a task.
pub open spec fn message_text(m: Message, task_p: Seq<char>) -> Option<Seq<char>> {
    match m {
        Message::Task { .. } => None,
        Message::Observation { content, .. } => Some(content@),
        Message::Orientation { content, .. } => Some(content@),
        Message::Decision { content, .. } => Some(content@),
        Message::Action { content, .. } => Some(content@),
        Message::ActionResult { invocation_count, tool_name, outcome, .. } => Some(
            outcome_text(task_p, invocation_count as nat, tool_name, outcome),
        ),
    }
}

/// The reminder that only the first of `n` actions given at once was run,
/// as the note of a successful action starts with it.
pub open spec fn several_actions_note(tool_name: Seq<char>, n: nat) -> Seq<char> {
    "# Action "@ + tool_name + " response: \nYou must give only one Action at a time. There was "@ + decimal(n)
        + ". Only the first one was considered.\n```yaml\n"@
}

/// What the agents are told of an action's result is the note of that
/// result's own outcome, for its own invocation count and tool, followed by
/// the task's prompt. So when a successful action held `n` invocations, `n`
/// other than one, and the response is not too long, the agents are
/// reminded that only the first of the `n` was run.
pub proof fn lemma_result_text_keeps_count(
    invocation_count: usize,
    tool_name: Option<String>,
    extracted_input: Option<String>,
    outcome: Outcome,
    task_p: Seq<char>,
)
    ensures
        message_text(Message::ActionResult { invocation_count, tool_name, extracted_input, outcome }, task_p)
            == Some(outcome_note(invocation_count as nat, tool_name, outcome) + "\n"@ + task_p),
        outcome matches Outcome::Success { result } ==> (invocation_count != 1 && byte_len(
            action_success_text(tool_label(tool_name), invocation_count as nat, result@),
        ) <= MAX_RESPONSE_CHAR ==> starts_with(
            message_text(Message::ActionResult { invocation_count, tool_name, extracted_input, outcome }, task_p)->Some_0,
            several_actions_note(tool_label(tool_name), invocation_count as nat),
        )),
{
    let text = message_text(Message::ActionResult { invocation_count, tool_name, extracted_input, outcome }, task_p)->Some_0;
    match outcome {
        Outcome::Success { result } => {
            if invocation_count != 1 && byte_len(
                action_success_text(tool_label(tool_name), invocation_count as nat, result@),
            ) <= MAX_RESPONSE_CHAR {
                let p = several_actions_note(tool_label(tool_name), invocation_count as nat);
                let rest = result@ + "```"@ + "\n"@ + task_p;
                assert(text =~= p + rest);
                assert(text.take(p.len() as int) =~= p);
            }
        },
        _ => {},
    }
}

/// `entries`, followed by one entry from the user made of the `pending`
/// texts joined by new lines, if there are any.
pub open spec fn flush(entries: Seq<EntryView>, pending: Seq<Seq<char>>) -> Seq<EntryView> {
    if pending.len() == 0 {
        entries
    } else {
        entries.push(EntryView { role: Role::User, msg: join(pending, "\n"@) })
    }
}

/// The chitchat entries made of `messages` by an agent of role `role`, and
/// the texts gathered since its last answer: each of its answers becomes an
/// entry from the assistant, after the texts gathered before it, grouped in
/// one entry from the user.
pub open spec fn role_steps(role: AgentRole, messages: Seq<Message>, task_p: Seq<char>) -> (Seq<EntryView>, Seq<Seq<char>>)
    decreases messages.len(),
{
    if messages.len() == 0 {
        (Seq::empty(), Seq::empty())
    } else {
        let prev = role_steps(role, messages.drop_last(), task_p);
        let m = messages.last();
        if is_answer_of(role, m) {
            (flush(prev.0, prev.1).push(EntryView { role: Role::Assistant, msg: message_text(m, task_p)->Some_0 }), Seq::empty())
        } else {
            match message_text(m, task_p) {
                Some(t) => (prev.0, prev.1.push(t)),
                None => prev,
            }
        }
    }
}

/// The chitchat entries made of `messages` by an agent of role `role`: the
/// texts gathered after its last answer end it as one entry from the user.
pub open spec fn role_entries(role: AgentRole, messages: Seq<Message>, task_p: Seq<char>) -> Seq<EntryView> {
    let s = role_steps(role, messages, task_p);
    flush(s.0, s.1)
}

/// The answer of the first example, the prompt of the second and its
/// answer, for an agent of the given role.
pub open spec fn proto_exchange(role: AgentRole) -> (Seq<char>, Seq<char>, Seq<char>) {
    match role {
        AgentRole::Observer => (OBSERVER_PROTO_INITIAL_RESPONSE@, OBSERVER_PROTO_SECOND_INPUT@, OBSERVER_PROTO_SECOND_RESPONSE@),
        AgentRole::Orienter => (ORIENTER_PROTO_INITIAL_RESPONSE@, ORIENTER_PROTO_SECOND_INPUT@, ORIENTER_PROTO_SECOND_RESPONSE@),
        AgentRole::Decider => (DECIDER_PROTO_INITIAL_RESPONSE@, DECIDER_PROTO_SECOND_INPUT@, DECIDER_PROTO_SECOND_RESPONSE@),
        AgentRole::Actor => (ACTOR_PROTO_INITIAL_RESPONSE@, ACTOR_PROTO_SECOND_INPUT@, ACTOR_PROTO_SECOND_RESPONSE@),
    }
}

/// The system prompt, the recurring prompt and the format of the response
/// of an agent of the given role.
pub open spec fn role_prompts(role: AgentRole) -> (Seq<char>, Seq<char>, Seq<char>) {
    match role {
        AgentRole::Observer => (OBSERVER_SYSTEM_PROMPT@, OBSERVER_PROMPT@, OBSERVER_RESPONSE_FORMAT@),
        AgentRole::Orienter => (ORIENTER_SYSTEM_PROMPT@, ORIENTER_PROMPT@, ORIENTER_RESPONSE_FORMAT@),
        AgentRole::Decider => (DECIDER_SYSTEM_PROMPT@, DECIDER_PROMPT@, DECIDER_RESPONSE_FORMAT@),
        AgentRole::Actor => (ACTOR_SYSTEM_PROMPT@, ACTOR_PROMPT@, ACTOR_RESPONSE_FORMAT@),
    }
}

fn proto_strs(role: AgentRole) -> (r: (&'static str, &'static str, &'static str))
    ensures
        (r.0@, r.1@, r.2@) == proto_exchange(role),
{
    match role {
        AgentRole::Observer => (OBSERVER_PROTO_INITIAL_RESPONSE, OBSERVER_PROTO_SECOND_INPUT, OBSERVER_PROTO_SECOND_RESPONSE),
        AgentRole::Orienter => (ORIENTER_PROTO_INITIAL_RESPONSE, ORIENTER_PROTO_SECOND_INPUT, ORIENTER_PROTO_SECOND_RESPONSE),
        AgentRole::Decider => (DECIDER_PROTO_INITIAL_RESPONSE, DECIDER_PROTO_SECOND_INPUT, DECIDER_PROTO_SECOND_RESPONSE),
        AgentRole::Actor => (ACTOR_PROTO_INITIAL_RESPONSE, ACTOR_PROTO_SECOND_INPUT, ACTOR_PROTO_SECOND_RESPONSE),
    }
}

/// The examples of an agent of the given role whose recurring prompt is
/// `prompt`: the first and the second exchange of the warm-up task.
pub open spec fn role_examples(role: AgentRole, prompt: Seq<char>) -> Seq<(EntryView, EntryView)> {
    let warmup = task_prompt(WARMUP_TASK@, prompt);
    let p = proto_exchange(role);
    seq![
        (EntryView { role: Role::User, msg: warmup }, EntryView { role: Role::Assistant, msg: trim(p.0) }),
        (EntryView { role: Role::User, msg: trim(trim(p.1) + warmup) }, EntryView { role: Role::Assistant, msg: trim(p.2) }),
    ]
}

impl AgentRole {
    /// The examples of an agent of this role with the given prompts: the
    /// first and the second exchange of the warm-up task.
    pub fn build_examples(&self, prompt_manager: &Manager) -> (r: Vec<(String, String)>)
        ensures
            example_pairs(r@) == role_examples(*self, prompt_manager.prompt()),
    {
        let warmup_task = prompt_manager.build_task_prompt(WARMUP_TASK);
        let (initial, second_input, second_response) = proto_strs(*self);
        let mut second_prompt = trimmed(second_input);
        push_str(&mut second_prompt, warmup_task.to_prompt().as_str());
        let mut examples: Vec<(String, String)> = Vec::new();
        examples.push((warmup_task.to_prompt(), trimmed(initial)));
        examples.push((trimmed(second_prompt.as_str()), trimmed(second_response)));
        assert(example_pairs(examples@) =~= role_examples(*self, prompt_manager.prompt()));
        examples
    }
}

fn prompt_strs(role: AgentRole) -> (r: (&'static str, &'static str, &'static str))
    ensures
        (r.0@, r.1@, r.2@) == role_prompts(role),
{
    match role {
        AgentRole::Observer => (OBSERVER_SYSTEM_PROMPT, OBSERVER_PROMPT, OBSERVER_RESPONSE_FORMAT),
        AgentRole::Orienter => (ORIENTER_SYSTEM_PROMPT, ORIENTER_PROMPT, ORIENTER_RESPONSE_FORMAT),
        AgentRole::Decider => (DECIDER_SYSTEM_PROMPT, DECIDER_PROMPT, DECIDER_RESPONSE_FORMAT),
        AgentRole::Actor => (ACTOR_SYSTEM_PROMPT, ACTOR_PROMPT, ACTOR_RESPONSE_FORMAT),
    }
}

/// An agent that takes one step of the OODA loop.
pub struct Agent<M> {
    role: AgentRole,
    prompt_manager: Manager,
    config: SapiensConfig<M>,
}

impl<M: ChatEntryTokenNumber> Agent<M> {
    /// The role of the agent.
    pub closed spec fn role(&self) -> AgentRole {
        self.role
    }

    /// The prompts of the agent.
    pub closed spec fn manager(&self) -> Manager {
        self.prompt_manager
    }

    /// The configuration of the agent.
    pub closed spec fn config(&self) -> SapiensConfig<M> {
        self.config
    }

    /// The examples of the agent: the first exchange of the warm-up task,
    /// then its second exchange.
    pub open spec fn examples(&self) -> Seq<(EntryView, EntryView)> {
        role_examples(self.role(), self.manager().prompt())
    }

    /// The context of the chat history: the system prompt and the warm-up
    /// prompt.
    pub open spec fn history_context(&self) -> Seq<EntryView> {
        seq![
            EntryView { role: Role::System, msg: trim(self.manager().system_prompt()) },
            EntryView { role: Role::User, msg: trim(self.manager().warm_up_text(self.manager().tools())) },
        ]
    }

    /// The number of tokens the inputs of the agent may count.
    pub open spec fn budget(&self) -> int {
        self.config().model.spec_context_size() - self.config().min_tokens_for_completion
    }

    /// The examples and the chitchat of the chat history that a context
    /// becomes, and whether they fit: the messages become the chitchat
    /// entries of the agent's role; when there is none, the task's prompt is
    /// the only one; then the history is pruned.
    pub open spec fn converted(&self, messages: Seq<Message>) -> (Seq<(EntryView, EntryView)>, Seq<EntryView>, Result<nat, crate::context::Error>) {
        let model = self.config().model;
        let ctx = self.history_context();
        let task_p = task_prompt(latest_task(messages)->Some_0, self.manager().prompt());
        let first = after_adds(model, self.budget(), ctx, self.examples(), Seq::empty(), role_entries(self.role(), messages, task_p));
        let second = if first.1.len() == 0 {
            after_adds(model, self.budget(), ctx, first.0, first.1, seq![EntryView { role: Role::User, msg: task_p }])
        } else {
            first
        };
        prune(model, self.budget(), ctx, second.0, second.1)
    }

    fn with_role(role: AgentRole, config: SapiensConfig<M>, tools: String) -> (a: Self)
        ensures
            a.role() == role,
            a.config() == config,
            a.manager().tools() == tools@,
            a.manager().system_prompt() == role_prompts(role).0,
            a.manager().prompt() == role_prompts(role).1,
            a.manager().response_format() == role_prompts(role).2,
            a.manager().prefix() == PREFIX@,
            a.manager().tool_prefix() == TOOL_PREFIX@,
    {
        let (system_prompt, prompt, response_format) = prompt_strs(role);
        let prompt_manager = Manager::new(
            tools,
            String::from_str(system_prompt),
            String::from_str(prompt),
            String::from_str(PREFIX),
            String::from_str(TOOL_PREFIX),
            String::from_str(response_format),
        );
        Agent { role, prompt_manager, config }
    }

    /// Create a new agent with the role of an observer, given the (YAML)
    /// description of the tools.
    pub fn new_observer(config: SapiensConfig<M>, tools: String) -> (a: Self)
        ensures
            a.role() == AgentRole::Observer,
            a.config() == config,
            a.manager().tools() == tools@,
            a.manager().system_prompt() == OBSERVER_SYSTEM_PROMPT@,
            a.manager().prompt() == OBSERVER_PROMPT@,
            a.manager().response_format() == OBSERVER_RESPONSE_FORMAT@,
            a.manager().prefix() == PREFIX@,
            a.manager().tool_prefix() == TOOL_PREFIX@,
    {
        Self::with_role(AgentRole::Observer, config, tools)
    }

    /// Create a new agent with the role of an orienter, given the (YAML)
    /// description of the tools.
    pub fn new_orienter(config: SapiensConfig<M>, tools: String) -> (a: Self)
        ensures
            a.role() == AgentRole::Orienter,
            a.config() == config,
            a.manager().tools() == tools@,
            a.manager().system_prompt() == ORIENTER_SYSTEM_PROMPT@,
            a.manager().prompt() == ORIENTER_PROMPT@,
            a.manager().response_format() == ORIENTER_RESPONSE_FORMAT@,
            a.manager().prefix() == PREFIX@,
            a.manager().tool_prefix() == TOOL_PREFIX@,
    {
        Self::with_role(AgentRole::Orienter, config, tools)
    }

    /// Create a new agent with the role of a decider, given the (YAML)
    /// description of the tools.
    pub fn new_decider(config: SapiensConfig<M>, tools: String) -> (a: Self)
        ensures
            a.role() == AgentRole::Decider,
            a.config() == config,
            a.manager().tools() == tools@,
            a.manager().system_prompt() == DECIDER_SYSTEM_PROMPT@,
            a.manager().prompt() == DECIDER_PROMPT@,
            a.manager().response_format() == DECIDER_RESPONSE_FORMAT@,
            a.manager().prefix() == PREFIX@,
            a.manager().tool_prefix() == TOOL_PREFIX@,
    {
        Self::with_role(AgentRole::Decider, config, tools)
    }

    /// Create a new agent with the role of an actor, given the (YAML)
    /// description of the tools.
    pub fn new_actor(config: SapiensConfig<M>, tools: String) -> (a: Self)
        ensures
            a.role() == AgentRole::Actor,
            a.config() == config,
            a.manager().tools() == tools@,
            a.manager().system_prompt() == ACTOR_SYSTEM_PROMPT@,
            a.manager().prompt() == ACTOR_PROMPT@,
            a.manager().response_format() == ACTOR_RESPONSE_FORMAT@,
            a.manager().prefix() == PREFIX@,
            a.manager().tool_prefix() == TOOL_PREFIX@,
    {
        Self::with_role(AgentRole::Actor, config, tools)
    }

}

} // verus!

verus! {

fn is_answer(role: AgentRole, m: &Message) -> (b: bool)
    ensures
        b == is_answer_of(role, *m),
{
    match role {
        AgentRole::Observer => matches!(m, Message::Observation { .. }),
        AgentRole::Orienter => matches!(m, Message::Orientation { .. }),
        AgentRole::Decider => matches!(m, Message::Decision { .. }),
        AgentRole::Actor => matches!(m, Message::Action { .. }),
    }
}

fn text_of(m: &Message, task: &Task) -> (r: Option<String>)
    ensures
        match r {
            Some(s) => message_text(*m, task.prompt()) == Some(s@),
            None => message_text(*m, task.prompt()) is None,
        },
{
    match m {
        Message::Task { .. } => None,
        Message::Observation { content, .. } => Some(content.clone()),
        Message::Orientation { content, .. } => Some(content.clone()),
        Message::Decision { content, .. } => Some(content.clone()),
        Message::Action { content, .. } => Some(content.clone()),
        Message::ActionResult { invocation_count, tool_name, outcome, .. } => Some(
            format_outcome(task, *invocation_count, tool_name, outcome),
        ),
    }
}

impl<M: ChatEntryTokenNumber> Agent<M> {
    /// Convert the context into the chat history to send to the model.
    pub fn convert_context_to_chat_history(&self, context: &Context) -> (r: Result<ChatHistory<'_, M>, Error>)
        requires
            latest_task(context.messages@) is Some,
            self.config().model.counts_tokens(),
            self.config().min_tokens_for_completion <= self.config().model.spec_context_size(),
        ensures
            match r {
                Ok(h) => {
                    &&& h.model() == self.config().model
                    &&& h.context() == self.history_context()
                    &&& h.budget() == self.budget()
                    &&& h.examples() == self.converted(context.messages@).0
                    &&& h.chitchat() == self.converted(context.messages@).1
                    &&& self.converted(context.messages@).2 is Ok
                },
                Err(e) => e == Error::ChatHistoryError(crate::context::Error::PromptTooLong)
                    && self.converted(context.messages@).2 is Err,
            },
    {
        proof {
            self.config.model.lemma_counted_has_context_size();
        }
        let max_token = self.config.model.context_size();
        let mut h = ChatHistory::new(&self.config.model, max_token, self.config.min_tokens_for_completion);
        let examples = self.role.build_examples(&self.prompt_manager);
        self.prompt_manager.populate_chat_history(&mut h, examples);
        assert(h.examples() =~= self.examples());
        let task = context.get_latest_task().unwrap();
        let task = self.prompt_manager.build_task_prompt(task.as_str());
        let ghost task_p = task.prompt();
        let ghost ctx = self.history_context();
        let ghost model = self.config().model;
        let ghost b = self.budget();
        let ghost ex = self.examples();
        let ghost role = self.role();
        assert(h.chitchat() =~= Seq::<EntryView>::empty());
        let mut user_msg: Vec<String> = Vec::new();
        let n = context.messages.len();
        for i in 0..n
            invariant
                n == context.messages@.len(),
                h.model() == model,
                model.counts_tokens(),
                h.context() == ctx,
                h.budget() == b,
                h.min_token_for_completion() <= h.max_token(),
                role == self.role(),
                task_p == task_prompt(latest_task(context.messages@)->Some_0, self.manager().prompt()),
                task.prompt() == task_p,
                (h.examples(), h.chitchat()) == after_adds(model, b, ctx, ex, Seq::empty(),
                    role_steps(role, context.messages@.take(i as int), task_p).0),
                strings_view(user_msg@) == role_steps(role, context.messages@.take(i as int), task_p).1,
        {
            let ghost prev = role_steps(role, context.messages@.take(i as int), task_p);
            proof {
                let cur = context.messages@.take(i + 1);
                assert(cur.drop_last() =~= context.messages@.take(i as int));
                assert(cur.last() == context.messages@[i as int]);
            }
            let text = text_of(&context.messages[i], &task);
            if is_answer(self.role, &context.messages[i]) {
                let ghost mut entries = prev.0;
                if user_msg.len() > 0 {
                    let joined = join_strings(&user_msg, "\n");
                    let ghost u = EntryView { role: Role::User, msg: joined@ };
                    proof {
                        lemma_after_adds_push(model, b, ctx, ex, Seq::empty(), entries, u);
                    }
                    let _ = h.add_chitchat(ChatEntry { role: Role::User, msg: joined });
                    proof {
                        entries = entries.push(u);
                    }
                    user_msg = Vec::new();
                }
                assert(entries == flush(prev.0, prev.1));
                let content = text.unwrap();
                let ghost a = EntryView { role: Role::Assistant, msg: content@ };
                proof {
                    lemma_after_adds_push(model, b, ctx, ex, Seq::empty(), entries, a);
                }
                let _ = h.add_chitchat(ChatEntry { role: Role::Assistant, msg: content });
                assert(strings_view(user_msg@) =~= Seq::<Seq<char>>::empty());
            } else {
                match text {
                    Some(t) => {
                        user_msg.push(t);
                        assert(strings_view(user_msg@) =~= prev.1.push(t@));
                    },
                    None => {},
                }
            }
        }
        assert(context.messages@.take(n as int) =~= context.messages@);
        let ghost steps = role_steps(role, context.messages@, task_p);
        if user_msg.len() > 0 {
            let joined = join_strings(&user_msg, "\n");
            let ghost u = EntryView { role: Role::User, msg: joined@ };
            proof {
                lemma_after_adds_push(model, b, ctx, ex, Seq::empty(), steps.0, u);
            }
            let _ = h.add_chitchat(ChatEntry { role: Role::User, msg: joined });
        }
        assert((h.examples(), h.chitchat()) == after_adds(model, b, ctx, ex, Seq::empty(), role_entries(role, context.messages@, task_p)));
        let ghost first = (h.examples(), h.chitchat());
        if h.is_chitchat_empty() {
            let ghost e = EntryView { role: Role::User, msg: task_p };
            let _ = h.add_chitchat(ChatEntry { role: Role::User, msg: task.to_prompt() });
            assert(seq![e].drop_last() =~= Seq::<EntryView>::empty());
            assert(after_adds(model, b, ctx, first.0, first.1, Seq::empty()) == first);
        }
        let ghost second = (h.examples(), h.chitchat());
        assert(second == if first.1.len() == 0 {
            after_adds(model, b, ctx, first.0, first.1, seq![EntryView { role: Role::User, msg: task_p }])
        } else {
            first
        });
        match h.purge() {
            Ok(_) => {
                assert(h.examples() == self.converted(context.messages@).0);
                assert(h.chitchat() == self.converted(context.messages@).1);
                Ok(h)
            },
            Err(e) => Err(Error::ChatHistoryError(e)),
        }
    }
}

/// The message that carries an answer of an agent of the given role.
pub open spec fn answer_message(role: AgentRole, content: String, usage: Option<Usage>) -> Message {
    match role {
        AgentRole::Observer => Message::Observation { content, usage },
        AgentRole::Orienter => Message::Orientation { content, usage },
        AgentRole::Decider => Message::Decision { content, usage },
        AgentRole::Actor => Message::Action { content, usage },
    }
}

impl<M: ChatEntryTokenNumber> crate::chains::Agent for Agent<M> {
    open spec fn ready(&self) -> bool {
        &&& self.config().model.counts_tokens()
        &&& self.config().min_tokens_for_completion <= self.config().model.spec_context_size()
    }

    /// The context, the examples and the chitchat of the chat history the
    /// messages become, if it fits.
    open spec fn input_for(&self, messages: Seq<Message>) -> Result<ChatInputView, Error> {
        let c = self.converted(messages);
        if c.2 is Ok {
            Ok(ChatInputView { context: self.history_context(), examples: c.0, chat: c.1 })
        } else {
            Err(Error::ChatHistoryError(crate::context::Error::PromptTooLong))
        }
    }

    /// A message of the agent's role.
    open spec fn answer_of(&self, response: ModelResponse) -> Message {
        answer_message(self.role(), response.msg, response.usage)
    }

    fn is_ready(&self) -> (b: bool) {
        if !self.config.model.can_count_tokens() {
            return false;
        }
        proof {
            self.config.model.lemma_counted_has_context_size();
        }
        self.config.min_tokens_for_completion <= self.config.model.context_size()
    }

    /// Convert the context into a chat history, and make the input for the
    /// model out of it.
    fn prepare(&self, context: &Context) -> (r: Result<ChatInput, Error>) {
        match self.convert_context_to_chat_history(context) {
            Ok(h) => Ok(h.make_input()),
            Err(e) => Err(e),
        }
    }

    fn max_tokens(&self) -> (n: Option<usize>)
        ensures
            n == self.config().max_tokens,
    {
        self.config.max_tokens
    }

    fn answer(&self, response: ModelResponse) -> (m: Message) {
        match self.role {
            AgentRole::Observer => Message::Observation { content: response.msg, usage: response.usage },
            AgentRole::Orienter => Message::Orientation { content: response.msg, usage: response.usage },
            AgentRole::Decider => Message::Decision { content: response.msg, usage: response.usage },
            AgentRole::Actor => Message::Action { content: response.msg, usage: response.usage },
        }
    }
}

} // verus!
