//! Prompt generation: the prompts that set a task, react to the result of
//! an action and fill the chat history.

use vstd::prelude::*;

use crate::context::{ChatEntry, ChatHistory};
use crate::models::{ChatEntryTokenNumber, Role};
use crate::text::{decimal, lemma_text_lt_total, lemma_text_lt_transitive, push_str, text_before, text_lt, to_decimal, trim, trimmed};
use crate::tools::invocation::{error_debug, Error};
use crate::tools::{tool_use_error_debug, ToolDescription, ToolUseError};

verus! {

/// The prompt that sets a task: the original question, then the recurring
/// prompt.
pub open spec fn task_prompt(task: Seq<char>, prompt: Seq<char>) -> Seq<char> {
    "# Your turn\nOriginal question: "@ + task + "\n"@ + prompt
}

/// The prompt that reacts to a failed action, given the debug notation of
/// the error.
pub open spec fn action_failed_note(tool_name: Seq<char>, e_debug: Seq<char>) -> Seq<char> {
    "# Action "@ + tool_name + " failed with:\n"@ + e_debug
        + "\nSomething was incorrect in previous response."@
}

/// The prompt that reacts to a failed action.
pub open spec fn action_failed_text(tool_name: Seq<char>, e: ToolUseError) -> Seq<char> {
    action_failed_note(tool_name, tool_use_error_debug(e))
}

/// The prompt that reacts to an invalid action specification.
pub open spec fn invalid_action_text(e: Error) -> Seq<char> {
    "# No valid Action found:\n"@ + error_debug(e) + "\nSomething was incorrect in previous response."@
}

/// The prompt that reacts to a successful action: the result of the
/// action, with a reminder when the answer held more than one action.
pub open spec fn action_success_text(tool_name: Seq<char>, count: nat, result: Seq<char>) -> Seq<char> {
    if count == 1 {
        "# Action "@ + tool_name + " response: \n```yaml\n"@ + result + "```"@
    } else {
        "# Action "@ + tool_name
            + " response: \nYou must give only one Action at a time. There was "@ + decimal(count)
            + ". Only the first one was considered.\n```yaml\n"@ + result + "```"@
    }
}

/// Task-related prompts.
pub struct Task {
    task: String,
    prompt: String,
}

impl Task {
    /// The task.
    pub closed spec fn task(&self) -> Seq<char> {
        self.task@
    }

    /// The prompt.
    pub closed spec fn prompt(&self) -> Seq<char> {
        self.prompt@
    }

    /// Create the prompt for the task.
    pub fn to_prompt(&self) -> (s: String)
        ensures
            s@ == self.prompt(),
    {
        self.prompt.clone()
    }

    /// Create the prompt to react to an action failure.
    pub fn action_failed_prompt(tool_name: &str, e: &ToolUseError) -> (s: String)
        ensures
            s@ == action_failed_text(tool_name@, *e),
    {
        let mut s = String::from_str("# Action ");
        push_str(&mut s, tool_name);
        push_str(&mut s, " failed with:\n");
        push_str(&mut s, e.debug_string().as_str());
        push_str(&mut s, "\nSomething was incorrect in previous response.");
        s
    }

    /// Create the prompt to react to invalid action specification.
    pub fn invalid_action_prompt(e: &Error) -> (s: String)
        ensures
            s@ == invalid_action_text(*e),
    {
        let mut s = String::from_str("# No valid Action found:\n");
        push_str(&mut s, e.debug_string().as_str());
        push_str(&mut s, "\nSomething was incorrect in previous response.");
        s
    }

    /// Create the prompt to react to an action success.
    pub fn action_success_prompt(tool_name: &str, available_invocation_count: usize, result: &str) -> (s: String)
        ensures
            s@ == action_success_text(tool_name@, available_invocation_count as nat, result@),
    {
        let mut s = String::from_str("# Action ");
        push_str(&mut s, tool_name);
        if available_invocation_count == 1 {
            push_str(&mut s, " response: \n```yaml\n");
        } else {
            push_str(&mut s, " response: \nYou must give only one Action at a time. There was ");
            push_str(&mut s, to_decimal(available_invocation_count).as_str());
            push_str(&mut s, ". Only the first one was considered.\n```yaml\n");
        }
        push_str(&mut s, result);
        push_str(&mut s, "```");
        s
    }
}

/// Prompt manager: the prompts of an agent.
pub struct Manager {
    tools: String,
    system_prompt: String,
    prompt: String,
    prefix: String,
    tool_prefix: String,
    response_format: String,
}

impl Manager {
    /// The description of the tools.
    pub closed spec fn tools(&self) -> Seq<char> {
        self.tools@
    }

    /// The prompt that describes the role of the agent.
    pub closed spec fn system_prompt(&self) -> Seq<char> {
        self.system_prompt@
    }

    /// The recurring prompt.
    pub closed spec fn prompt(&self) -> Seq<char> {
        self.prompt@
    }

    /// What the warm-up prompt starts with.
    pub closed spec fn prefix(&self) -> Seq<char> {
        self.prefix@
    }

    /// What comes before the description of the tools.
    pub closed spec fn tool_prefix(&self) -> Seq<char> {
        self.tool_prefix@
    }

    /// The format of the response.
    pub closed spec fn response_format(&self) -> Seq<char> {
        self.response_format@
    }

    /// The prompt describing the tools and how to use them, given the
    /// description of the tools.
    pub open spec fn warm_up_text(&self, tools: Seq<char>) -> Seq<char> {
        self.prefix() + self.response_format() + self.tool_prefix() + tools
    }

    /// Create a new prompt manager, given the (YAML) description of the
    /// tools sorted by name.
    pub fn new(
        tools: String,
        system_prompt: String,
        prompt: String,
        prefix: String,
        tool_prefix: String,
        response_format: String,
    ) -> (m: Self)
        ensures
            m.tools() == tools@,
            m.system_prompt() == system_prompt@,
            m.prompt() == prompt@,
            m.prefix() == prefix@,
            m.tool_prefix() == tool_prefix@,
            m.response_format() == response_format@,
    {
        Manager { tools, system_prompt, prompt, prefix, tool_prefix, response_format }
    }

    /// Create the prompt describing the tools and how to use them.
    pub fn create_tool_warm_up(&self) -> (s: String)
        ensures
            s@ == self.warm_up_text(self.tools()),
    {
        let mut s = self.prefix.clone();
        push_str(&mut s, self.response_format.as_str());
        push_str(&mut s, self.tool_prefix.as_str());
        push_str(&mut s, self.tools.as_str());
        s
    }

    /// Create the prompt for the task.
    pub fn build_task_prompt(&self, task: &str) -> (t: Task)
        ensures
            t.task() == task@,
            t.prompt() == task_prompt(task@, self.prompt()),
    {
        let mut prompt = String::from_str("# Your turn\nOriginal question: ");
        push_str(&mut prompt, task);
        push_str(&mut prompt, "\n");
        push_str(&mut prompt, self.prompt.as_str());
        Task { task: String::from_str(task), prompt }
    }

    /// Create the 'system' prompt to describe the roles.
    pub fn create_system_prompt(&self) -> (s: String)
        ensures
            s@ == self.system_prompt(),
    {
        self.system_prompt.clone()
    }

    /// Fill the context of the chat history - the system prompt and the
    /// warm-up prompt, trimmed - and add the examples.
    pub fn populate_chat_history<M: ChatEntryTokenNumber>(
        &self,
        chat_history: &mut ChatHistory<'_, M>,
        examples: Vec<(String, String)>,
    )
        ensures
            final(chat_history).same_setting_but_context(old(chat_history)),
            final(chat_history).context() == seq![
                crate::context::EntryView { role: Role::System, msg: trim(self.system_prompt()) },
                crate::context::EntryView { role: Role::User, msg: trim(self.warm_up_text(self.tools())) },
            ],
            final(chat_history).examples() == old(chat_history).examples() + crate::context::example_pairs(examples@),
            final(chat_history).chitchat() == old(chat_history).chitchat(),
    {
        let warm_up_prompt = self.create_tool_warm_up();
        let system_prompt = self.create_system_prompt();
        let mut context: Vec<ChatEntry> = Vec::new();
        context.push(ChatEntry { role: Role::System, msg: trimmed(system_prompt.as_str()) });
        context.push(ChatEntry { role: Role::User, msg: trimmed(warm_up_prompt.as_str()) });
        chat_history.set_context(context);
        let ghost mid = *chat_history;
        let mut examples = examples;
        let ghost all = examples@;
        let ghost mut i: int = 0;
        assert(crate::context::example_pairs(all.take(0)) =~= Seq::<(crate::context::EntryView, crate::context::EntryView)>::empty());
        assert(mid.examples() + Seq::<(crate::context::EntryView, crate::context::EntryView)>::empty() =~= mid.examples());
        while examples.len() > 0
            invariant
                0 <= i <= all.len(),
                examples@ == all.skip(i),
                chat_history.same_setting(&mid),
                chat_history.examples() == mid.examples() + crate::context::example_pairs(all.take(i)),
                chat_history.chitchat() == mid.chitchat(),
            decreases examples.len(),
        {
            let (prompt, response) = examples.remove(0);
            assert(all.skip(i)[0] == (prompt, response));
            chat_history.add_example(prompt, response);
            proof {
                assert(all.skip(i).skip(1) =~= all.skip(i + 1));
                assert(crate::context::example_pairs(all.take(i + 1)) =~= crate::context::example_pairs(all.take(i)).push(
                    (crate::context::EntryView { role: Role::User, msg: all[i].0@ },
                     crate::context::EntryView { role: Role::Assistant, msg: all[i].1@ })));
                i = i + 1;
            }
        }
        assert(all.take(i) =~= all);
    }
}

/// Are the descriptions in the order of their names?
pub open spec fn sorted_by_name(s: Seq<ToolDescription>) -> bool {
    forall|i: int, j: int| 0 <= i < j < s.len() ==> !text_lt(#[trigger] s[j].name@, #[trigger] s[i].name@)
}

/// The descriptions of the tools in the order of their names, as the
/// prompt lists them.
pub fn sort_by_name(descriptions: Vec<ToolDescription>) -> (r: Vec<ToolDescription>)
    ensures
        sorted_by_name(r@),
        r@.to_multiset() == descriptions@.to_multiset(),
{
    let ghost all = descriptions@;
    let mut rest = descriptions;
    let mut r: Vec<ToolDescription> = Vec::new();
    let ghost mut i: int = 0;
    assert(all.take(0) =~= Seq::<ToolDescription>::empty());
    assert(all.skip(0) =~= all);
    while rest.len() > 0
        invariant
            0 <= i <= all.len(),
            rest@ == all.skip(i),
            sorted_by_name(r@),
            r@.to_multiset() == all.take(i).to_multiset(),
        decreases rest.len(),
    {
        let ghost before = rest@;
        let x = rest.remove(0);
        let mut p: usize = 0;
        while p < r.len() && !text_before(x.name.as_str(), r[p].name.as_str())
            invariant
                p <= r@.len(),
                forall|k: int| 0 <= k < p ==> !text_lt(x.name@, #[trigger] r@[k].name@),
            decreases r@.len() - p,
        {
            p = p + 1;
        }
        let ghost s = r@;
        proof {
            s.insert_ensures(p as int, x);
            let s2 = s.insert(p as int, x);
            assert forall|a: int, b: int| 0 <= a < b < s2.len() implies !text_lt(
                #[trigger] s2[b].name@,
                #[trigger] s2[a].name@,
            ) by {
                if a == p && b > a {
                    let y = s[b - 1].name@;
                    let z = s[p as int].name@;
                    assert(s2[b] == s[b - 1]);
                    assert(text_lt(x.name@, z));
                    lemma_text_lt_total(x.name@, y);
                    if b - 1 > p {
                        assert(!text_lt(y, z));
                        lemma_text_lt_total(y, z);
                        if y != z {
                            lemma_text_lt_transitive(x.name@, z, y);
                        }
                    }
                } else if a < p && b == p {
                    assert(s2[a] == s[a]);
                } else if a < p && b > p {
                    assert(s2[a] == s[a]);
                    assert(s2[b] == s[b - 1]);
                    assert(!text_lt(s[b - 1].name@, s[a].name@));
                } else if a > p {
                    assert(s2[a] == s[a - 1]);
                    assert(s2[b] == s[b - 1]);
                    assert(!text_lt(s[b - 1].name@, s[a - 1].name@));
                } else {
                    assert(s2[a] == s[a]);
                    assert(s2[b] == s[b]);
                }
            }
            assert(before[0] == x);
            assert(all.skip(i)[0] == all[i]);
            assert(all.take(i + 1) =~= all.take(i).push(all[i]));
            assert(rest@ =~= all.skip(i + 1));
        }
        r.insert(p, x);
        proof {
            assert(x == all[i]);
            vstd::seq_lib::to_multiset_insert(s, p as int, x);
            vstd::seq_lib::to_multiset_build(all.take(i), all[i]);
            i = i + 1;
        }
    }
    assert(all.take(i) =~= all);
    r
}

} // verus!
