//! The decisions of the Discord bot: what a message in a channel asks for,
//! what each step of a job reports, and what the progress of a task shows.
//! The bot itself - the connection, the channels and the threads - sends
//! what these functions decide and hands back what happened.

use vstd::prelude::*;

use crate::bot::{formatted_entry, sanitize_msgs_for_discord, sanitized, Formatter};
use crate::chains::{message_display, ContextDump, Message};
use crate::context::ChatEntryFormatter;
use crate::tools::tool_use_error_message;
use crate::{InvocationResultNotification, ModelNotification};
use crate::text::{chars_of, has_prefix, push_str, starts_with, string_of, strings_view, trim, trimmed};
use crate::tools::TerminationMessage;

verus! {

/// A job update: what the runner of a job tells the thread of the job.
pub enum JobUpdate {
    /// The task was concluded, with the termination messages
    Completed(Vec<String>),
    /// Messages to show
    Vec(Vec<String>),
    /// The task could not start, or failed
    FailedToStart(Vec<String>),
    /// A tool failed
    ToolError(Vec<String>),
    /// The job ran its maximum number of steps
    Over,
}

/// The messages an update shows in the thread of the job, if any.
pub open spec fn posted(u: JobUpdate) -> Option<Seq<Seq<char>>> {
    match u {
        JobUpdate::Completed(v) => Some(strings_view(v@)),
        JobUpdate::Vec(v) => Some(strings_view(v@)),
        JobUpdate::FailedToStart(v) => Some(strings_view(v@)),
        JobUpdate::ToolError(v) => Some(strings_view(v@)),
        JobUpdate::Over => None,
    }
}

/// The messages to post in the thread of the job for an update, if any:
/// every update but the end of the job carries some.
pub fn update_posts(u: JobUpdate) -> (r: Option<Vec<String>>)
    ensures
        match r {
            Some(v) => posted(u) == Some(strings_view(v@)),
            None => posted(u) is None,
        },
{
    match u {
        JobUpdate::Completed(v) => Some(v),
        JobUpdate::Vec(v) => Some(v),
        JobUpdate::FailedToStart(v) => Some(v),
        JobUpdate::ToolError(v) => Some(v),
        JobUpdate::Over => None,
    }
}

/// The number of steps a job started from a channel may run.
pub const JOB_MAX_STEPS: usize = 12;

/// What the bot does with a message posted in a channel.
pub enum HandlerAction {
    /// The message is the bot's own: nothing to do
    Ignore,
    /// Answer in the channel
    Say(String),
    /// Run the task as a job, and show its progress in a thread of its own
    StartJob {
        /// The task
        task: String,
        /// The number of steps the job may run
        max_steps: usize,
    },
}

/// The task a message asks for: what follows `DO: `, when it starts so.
pub open spec fn requested_task(content: Seq<char>) -> Option<Seq<char>> {
    if starts_with(content, "DO: "@) {
        Some(content.skip(4))
    } else {
        None
    }
}

/// The answer to a request without a task.
pub open spec fn empty_task_answer() -> Seq<char> {
    "Please provide a task: 'DO: <task>'"@
}

/// The answer to any other message.
pub open spec fn default_answer() -> Seq<char> {
    "oui!"@
}

/// What the bot does with a message of `author` (the bot being `me`): it
/// ignores its own messages; `DO: <task>` starts a job for the task, and
/// asks for a task when there is none; any other message is answered.
pub fn on_channel_message(author: u64, me: u64, content: &str) -> (a: HandlerAction)
    ensures
        author == me ==> a is Ignore,
        author != me ==> match requested_task(content@) {
            Some(t) => if t.len() == 0 {
                a matches HandlerAction::Say(s) && s@ == empty_task_answer()
            } else {
                a matches HandlerAction::StartJob { task, max_steps } && task@ == t && max_steps == JOB_MAX_STEPS
            },
            None => a matches HandlerAction::Say(s) && s@ == default_answer(),
        },
{
    if author == me {
        return HandlerAction::Ignore;
    }
    proof {
        reveal_strlit("DO: ");
    }
    if has_prefix(content, "DO: ") {
        let v = chars_of(content);
        if v.len() == 4 {
            HandlerAction::Say(String::from_str("Please provide a task: 'DO: <task>'"))
        } else {
            HandlerAction::StartJob { task: string_of(&v, 4, v.len()), max_steps: JOB_MAX_STEPS }
        }
    } else {
        HandlerAction::Say(String::from_str("oui!"))
    }
}

/// What a step of a task came to.
pub enum StepOutcome {
    /// The task goes on
    Continued,
    /// The task is done, with its termination messages
    Stopped(Vec<TerminationMessage>),
    /// The step failed, with the text of the error
    Failed(String),
}

/// What the runner does after a step of a job.
pub enum JobProgress {
    /// Run the next step, counting the steps run so far
    Next(usize),
    /// The job is over: send this last update
    Done(JobUpdate),
}

/// How a termination message is shown.
pub open spec fn termination_text(m: TerminationMessage) -> Seq<char> {
    "# Termination message\n - original question: "@ + trim(m.original_question@) + "\n - conclusion: "@
        + trim(m.conclusion@)
}

/// The messages that report the termination of a task: each termination
/// message shown, and sanitized for Discord.
pub open spec fn termination_report(ms: Seq<TerminationMessage>) -> Seq<Seq<char>>
    decreases ms.len(),
{
    if ms.len() == 0 {
        Seq::empty()
    } else {
        termination_report(ms.drop_last()) + sanitized(seq![termination_text(ms.last())])
    }
}

/// The messages that report an error, given its text.
pub open spec fn error_report(e: Seq<char>) -> Seq<Seq<char>> {
    sanitized(seq!["Error: "@ + e])
}

/// The messages that report the termination of a task.
pub fn report_termination(ms: &Vec<TerminationMessage>) -> (r: Vec<String>)
    ensures
        strings_view(r@) == termination_report(ms@),
{
    let mut r: Vec<String> = Vec::new();
    for i in 0..ms.len()
        invariant
            strings_view(r@) == termination_report(ms@.take(i as int)),
    {
        let mut text = String::from_str("# Termination message\n - original question: ");
        push_str(&mut text, trimmed(ms[i].original_question.as_str()).as_str());
        push_str(&mut text, "\n - conclusion: ");
        push_str(&mut text, trimmed(ms[i].conclusion.as_str()).as_str());
        let mut one: Vec<String> = Vec::new();
        one.push(text);
        proof {
            assert(strings_view(one@) =~= seq![termination_text(ms@[i as int])]);
        }
        let mut pieces = sanitize_msgs_for_discord(one);
        let ghost before = strings_view(r@);
        let ghost added = strings_view(pieces@);
        r.append(&mut pieces);
        proof {
            assert(strings_view(r@) =~= before + added);
            assert(ms@.take(i + 1).drop_last() =~= ms@.take(i as int));
        }
    }
    assert(ms@.take(ms.len() as int) =~= ms@);
    r
}

/// The messages that report an error, given its text.
pub fn report_error(e: &str) -> (r: Vec<String>)
    ensures
        strings_view(r@) == error_report(e@),
{
    let mut text = String::from_str("Error: ");
    push_str(&mut text, e);
    let mut one: Vec<String> = Vec::new();
    one.push(text);
    assert(strings_view(one@) =~= seq!["Error: "@ + e@]);
    sanitize_msgs_for_discord(one)
}

/// The update sent when a task could not start, given the text of the
/// error.
pub fn start_failed(e: &str) -> (u: JobUpdate)
    ensures
        u matches JobUpdate::FailedToStart(v) && strings_view(v@) == error_report(e@),
{
    JobUpdate::FailedToStart(report_error(e))
}

/// What follows the step numbered `current` (from 0) of a job that may run
/// `max` steps, as `after_step` decides it.
pub open spec fn progress_after(current: nat, max: nat, outcome: StepOutcome, p: JobProgress) -> bool {
    match outcome {
        StepOutcome::Continued => if current + 1 >= max {
            p matches JobProgress::Done(JobUpdate::Over)
        } else {
            p == JobProgress::Next((current + 1) as usize)
        },
        StepOutcome::Stopped(ms) => p matches JobProgress::Done(JobUpdate::Completed(v)) && strings_view(v@)
            == termination_report(ms@),
        StepOutcome::Failed(e) => p matches JobProgress::Done(JobUpdate::FailedToStart(v)) && strings_view(v@)
            == error_report(e@),
    }
}

/// What the runner does after the step numbered `current_step` (from 0) of
/// a job that may run `max_steps` steps: a task that goes on runs its next
/// step unless the job has run its maximum number of steps; a task that is
/// done reports its termination; a failure is reported. A job thus runs at
/// most `max_steps` steps, and at least one.
pub fn after_step(current_step: usize, max_steps: usize, outcome: StepOutcome) -> (p: JobProgress)
    requires
        current_step < usize::MAX,
    ensures
        progress_after(current_step as nat, max_steps as nat, outcome, p),
{
    match outcome {
        StepOutcome::Continued => {
            let next = current_step + 1;
            if next >= max_steps {
                JobProgress::Done(JobUpdate::Over)
            } else {
                JobProgress::Next(next)
            }
        },
        StepOutcome::Stopped(ms) => JobProgress::Done(JobUpdate::Completed(report_termination(&ms))),
        StepOutcome::Failed(e) => JobProgress::Done(JobUpdate::FailedToStart(report_error(e.as_str()))),
    }
}

/// Does the update show exactly the given messages, as messages to show -
/// or is there no update when there is nothing to show?
pub open spec fn shows(u: Option<JobUpdate>, texts: Option<Seq<Seq<char>>>) -> bool {
    match (u, texts) {
        (Some(JobUpdate::Vec(v)), Some(t)) => strings_view(v@) == t,
        (None, None) => true,
        _ => false,
    }
}

/// What the start of a task shows: all the messages of the context, or
/// only the last one unless the warm-up prompt is shown.
pub open spec fn start_texts(show_warmup_prompt: bool, messages: Seq<Message>) -> Option<Seq<Seq<char>>> {
    let texts = messages.map_values(|m: Message| message_display(m));
    if show_warmup_prompt {
        Some(sanitized(texts))
    } else if texts.len() > 0 {
        Some(sanitized(seq![texts.last()]))
    } else {
        None
    }
}

/// Shows the progress of a task in the thread of its job.
pub struct ProgressObserver {
    /// Whether to show the warm-up prompt
    pub show_warmup_prompt: bool,
}

impl ProgressObserver {
    /// The task starts: show the messages of its context (only the last one
    /// unless the warm-up prompt is shown).
    pub fn on_start(&self, context: &ContextDump) -> (u: Option<JobUpdate>)
        ensures
            shows(u, start_texts(self.show_warmup_prompt, context.messages@)),
    {
        let msgs = context.format(&Formatter {});
        let ghost texts = context.messages@.map_values(|m: Message| message_display(m));
        assert(strings_view(msgs@) =~= texts);
        if self.show_warmup_prompt {
            Some(JobUpdate::Vec(sanitize_msgs_for_discord(msgs)))
        } else if msgs.len() > 0 {
            let mut one: Vec<String> = Vec::new();
            one.push(msgs[msgs.len() - 1].clone());
            assert(strings_view(one@) =~= seq![texts.last()]);
            Some(JobUpdate::Vec(sanitize_msgs_for_discord(one)))
        } else {
            None
        }
    }

    /// The model answered: show its answer.
    pub fn on_model_update(&self, event: &ModelNotification) -> (u: JobUpdate)
        ensures
            u matches JobUpdate::Vec(v) && strings_view(v@) == sanitized(
                seq![formatted_entry(event.chat_entry.role, event.chat_entry.msg@)],
            ),
    {
        let mut one: Vec<String> = Vec::new();
        one.push((Formatter {}).format(&event.chat_entry));
        assert(strings_view(one@) =~= seq![formatted_entry(event.chat_entry.role, event.chat_entry.msg@)]);
        JobUpdate::Vec(sanitize_msgs_for_discord(one))
    }

    /// An invocation is done: show the result of a successful one, and the
    /// error of a failed one as a tool error; an invalid one shows nothing.
    pub fn on_invocation_result(&self, event: &InvocationResultNotification) -> (u: Option<JobUpdate>)
        ensures
            match *event {
                InvocationResultNotification::InvocationSuccess(n) => u matches Some(JobUpdate::Vec(v))
                    && strings_view(v@) == sanitized(seq![n.result@]),
                InvocationResultNotification::InvocationFailure(n) => u matches Some(JobUpdate::ToolError(v))
                    && strings_view(v@) == sanitized(seq!["*Error*: "@ + tool_use_error_message(n.e)]),
                InvocationResultNotification::InvalidInvocation(_) => u is None,
            },
    {
        match event {
            InvocationResultNotification::InvocationSuccess(n) => {
                let mut one: Vec<String> = Vec::new();
                one.push(n.result.clone());
                assert(strings_view(one@) =~= seq![n.result@]);
                Some(JobUpdate::Vec(sanitize_msgs_for_discord(one)))
            },
            InvocationResultNotification::InvocationFailure(n) => {
                let mut text = String::from_str("*Error*: ");
                push_str(&mut text, n.e.message().as_str());
                let mut one: Vec<String> = Vec::new();
                one.push(text);
                assert(strings_view(one@) =~= seq!["*Error*: "@ + tool_use_error_message(n.e)]);
                Some(JobUpdate::ToolError(sanitize_msgs_for_discord(one)))
            },
            InvocationResultNotification::InvalidInvocation(_) => None,
        }
    }
}

/// A job allowed `max` steps runs at most `max` of them (one when `max` is
/// zero), every step but its last let the task go on, and the job ends
/// with exactly one last update: over the steps of a job, each followed by
/// `after_step` and run only when the one before gave the next step, the
/// job takes the next step only below its maximum and only when the task
/// went on; its last step gives the one update that ends it - the
/// termination when the task stopped, the failure when the step failed,
/// and the end of the steps otherwise.
pub proof fn lemma_job_steps(max: nat, outcomes: Seq<StepOutcome>, progress: Seq<JobProgress>)
    requires
        progress.len() == outcomes.len(),
        forall|i: int| 0 <= i < progress.len() ==> progress_after(i as nat, max, outcomes[i], #[trigger] progress[i]),
        forall|i: int| 0 <= i < progress.len() - 1 ==> #[trigger] progress[i] is Next,
        progress.len() > 0 ==> progress.last() is Done,
    ensures
        progress.len() <= if max == 0 { 1 } else { max },
        forall|i: int| 0 <= i < progress.len() - 1 ==> #[trigger] outcomes[i] is Continued,
        forall|i: int| 0 <= i < progress.len() - 1 ==> !(#[trigger] progress[i] is Done),
        progress.len() > 0 ==> match outcomes.last() {
            StepOutcome::Continued => progress.last() matches JobProgress::Done(JobUpdate::Over),
            StepOutcome::Stopped(ms) => progress.last() matches JobProgress::Done(JobUpdate::Completed(v))
                && strings_view(v@) == termination_report(ms@),
            StepOutcome::Failed(e) => progress.last() matches JobProgress::Done(JobUpdate::FailedToStart(v))
                && strings_view(v@) == error_report(e@),
        },
{
    if progress.len() >= 2 {
        let last = progress.len() - 2;
        assert(progress_after(last as nat, max, outcomes[last], progress[last]));
        assert(progress[last] is Next);
    }
    assert forall|i: int| 0 <= i < progress.len() - 1 implies #[trigger] outcomes[i] is Continued by {
        assert(progress_after(i as nat, max, outcomes[i], progress[i]));
        assert(progress[i] is Next);
    }
    if progress.len() > 0 {
        let l = progress.len() - 1;
        assert(progress_after(l as nat, max, outcomes[l], progress[l]));
    }
}

} // verus!
