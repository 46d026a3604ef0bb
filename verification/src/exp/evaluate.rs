//! The analysis of a run: how many invocations were attempted and succeeded,
//! how many tokens were used, and whether the task was concluded.

use vstd::prelude::*;

use crate::exp::traces::{event_tokens, CompletionStatus, Event, EventAndState, Trace, Usage};
use crate::text::same_text;
use crate::tools::toolbox::Stats;

verus! {

/// The score of a trial.
pub struct Analysis {
    /// The number of attempted tool invocations - the Conclude tool is not
    /// counted here
    pub attempted_invocations: u32,
    /// The number of successful tool invocations - the Conclude tool is not
    /// counted here
    pub successful_invocations: u32,
    /// The number of tokens
    pub tokens: Usage,
    /// Completion status
    pub completed: bool,
    /// Termination message
    pub termination_message: Option<String>,
    /// Tool utilization statistics
    pub tool_stats: Stats,
}

/// A trial: a task executed with a given configuration.
pub struct Trial<C> {
    /// The trace of the execution
    pub trace: Trace,
    /// The task
    pub task: String,
    /// The configuration
    pub config: C,
    /// The analysis of the run
    pub analysis: Analysis,
}

/// The name of the tool that concludes a task, whose invocations the
/// analysis leaves out.
pub open spec fn conclude_name() -> Seq<char> {
    "Conclude"@
}

/// Is the event a successful invocation of a tool other than the Conclude
/// tool?
pub open spec fn is_success(e: Event) -> bool {
    e matches Event::ToolInvocationSucceeded { tool_name, .. } && tool_name@ != conclude_name()
}

/// Is the event an attempted invocation of a tool other than the Conclude
/// tool, whether it succeeded or failed?
pub open spec fn is_attempt(e: Event) -> bool {
    ||| is_success(e)
    ||| e matches Event::ToolInvocationFailed { tool_name, .. } && tool_name@ != conclude_name()
}

/// The number of events that are attempted invocations, the Conclude tool
/// left out.
pub open spec fn attempts(events: Seq<EventAndState>) -> nat
    decreases events.len(),
{
    if events.len() == 0 {
        0
    } else {
        attempts(events.drop_last()) + if is_attempt(events.last().event) { 1nat } else { 0nat }
    }
}

/// The number of events that are successful invocations, the Conclude tool
/// left out.
pub open spec fn successes(events: Seq<EventAndState>) -> nat
    decreases events.len(),
{
    if events.len() == 0 {
        0
    } else {
        successes(events.drop_last()) + if is_success(events.last().event) { 1nat } else { 0nat }
    }
}

/// No more invocations succeed than are attempted.
pub proof fn lemma_successes_within_attempts(events: Seq<EventAndState>)
    ensures
        successes(events) <= attempts(events),
    decreases events.len(),
{
    if events.len() > 0 {
        lemma_successes_within_attempts(events.drop_last());
    }
}

/// The tokens of an event: those its message records, if any.
pub open spec fn event_usage(e: Event) -> (nat, nat, nat) {
    match event_tokens(e) {
        Some(u) => (u.prompt_tokens as nat, u.completion_tokens as nat, u.total_tokens as nat),
        None => (0, 0, 0),
    }
}

/// The tokens of the events, added count by count.
pub open spec fn token_sums(events: Seq<EventAndState>) -> (nat, nat, nat)
    decreases events.len(),
{
    if events.len() == 0 {
        (0, 0, 0)
    } else {
        let p = token_sums(events.drop_last());
        let u = event_usage(events.last().event);
        (p.0 + u.0, p.1 + u.1, p.2 + u.2)
    }
}

/// The conclusion of the first event that ends the trace with a conclusion.
pub open spec fn first_conclusion(events: Seq<EventAndState>) -> Option<Seq<char>>
    decreases events.len(),
{
    if events.len() == 0 {
        None
    } else {
        match events[0].event {
            Event::End(CompletionStatus::Concluded { conclusion }) => Some(conclusion@),
            _ => first_conclusion(events.drop_first()),
        }
    }
}

/// Do the token counts of the events fit in 32 bits?
pub open spec fn tokens_fit(events: Seq<EventAndState>) -> bool {
    let s = token_sums(events);
    s.0 <= u32::MAX && s.1 <= u32::MAX && s.2 <= u32::MAX
}

proof fn lemma_token_sums_grow(events: Seq<EventAndState>, i: int, j: int)
    requires
        0 <= i <= j <= events.len(),
    ensures
        token_sums(events.take(i)).0 <= token_sums(events.take(j)).0,
        token_sums(events.take(i)).1 <= token_sums(events.take(j)).1,
        token_sums(events.take(i)).2 <= token_sums(events.take(j)).2,
    decreases j - i,
{
    if i < j {
        lemma_token_sums_grow(events, i, j - 1);
        assert(events.take(j).drop_last() =~= events.take(j - 1));
    }
}

fn count_attempts(events: &Vec<EventAndState>) -> (r: (usize, usize))
    ensures
        r.0 == attempts(events@),
        r.1 == successes(events@),
{
    let mut attempted: usize = 0;
    let mut successful: usize = 0;
    for i in 0..events.len()
        invariant
            attempted == attempts(events@.take(i as int)),
            successful == successes(events@.take(i as int)),
            attempted <= i,
            successful <= i,
    {
        proof {
            assert(events@.take(i + 1).drop_last() =~= events@.take(i as int));
        }
        proof {
            reveal_strlit("Conclude");
        }
        match &events[i].event {
            Event::ToolInvocationSucceeded { tool_name, .. } => {
                if !same_text(tool_name.as_str(), "Conclude") {
                    attempted = attempted + 1;
                    successful = successful + 1;
                }
            },
            Event::ToolInvocationFailed { tool_name, .. } => {
                if !same_text(tool_name.as_str(), "Conclude") {
                    attempted = attempted + 1;
                }
            },
            _ => {},
        }
    }
    assert(events@.take(events.len() as int) =~= events@);
    (attempted, successful)
}

fn find_conclusion(events: &Vec<EventAndState>) -> (r: Option<String>)
    ensures
        match first_conclusion(events@) {
            Some(c) => r matches Some(s) && s@ == c,
            None => r is None,
        },
{
    let mut i: usize = 0;
    assert(events@.skip(0) =~= events@);
    while i < events.len()
        invariant
            i <= events@.len(),
            first_conclusion(events@) == first_conclusion(events@.skip(i as int)),
        decreases events.len() - i,
    {
        assert(events@.skip(i as int)[0] == events@[i as int]);
        assert(events@.skip(i as int).drop_first() =~= events@.skip(i + 1));
        if let Event::End(CompletionStatus::Concluded { conclusion }) = &events[i].event {
            return Some(conclusion.clone());
        }
        i = i + 1;
    }
    None
}

impl<C> Trial<C> {
    /// Create a new trial, analyzing its trace.
    pub fn build(config: C, task: String, trace: Trace, tool_stats: Stats) -> (t: Self)
        requires
            tokens_fit(trace.events@),
        ensures
            t.trace == trace,
            t.task == task,
            t.config == config,
            Self::analyzed(trace.events@, tool_stats, t.analysis),
    {
        let analysis = Self::analyze(&trace, tool_stats);
        Trial { trace, task, config, analysis }
    }

    /// Is `a` the analysis of the events: the attempted and the successful
    /// invocations counted, the tokens added, and the first conclusion, if
    /// any, as termination message?
    pub open spec fn analyzed(events: Seq<EventAndState>, tool_stats: Stats, a: Analysis) -> bool {
        let s = token_sums(events);
        &&& a.attempted_invocations == attempts(events) as u32
        &&& a.successful_invocations == successes(events) as u32
        &&& a.tokens.prompt_tokens == s.0
        &&& a.tokens.completion_tokens == s.1
        &&& a.tokens.total_tokens == s.2
        &&& match first_conclusion(events) {
            Some(c) => a.termination_message matches Some(m) && m@ == c,
            None => a.termination_message is None,
        }
        &&& a.completed == a.termination_message is Some
        &&& a.tool_stats == tool_stats
    }

    /// Analyze the trace of a run.
    pub fn analyze(trace: &Trace, tool_stats: Stats) -> (a: Analysis)
        requires
            tokens_fit(trace.events@),
        ensures
            Self::analyzed(trace.events@, tool_stats, a),
    {
        let (attempted, successful) = count_attempts(&trace.events);
        let ghost events = trace.events@;
        let mut tokens = Usage::default();
        for i in 0..trace.events.len()
            invariant
                events == trace.events@,
                tokens_fit(events),
                tokens.prompt_tokens == token_sums(events.take(i as int)).0,
                tokens.completion_tokens == token_sums(events.take(i as int)).1,
                tokens.total_tokens == token_sums(events.take(i as int)).2,
        {
            proof {
                assert(events.take(i + 1).drop_last() =~= events.take(i as int));
                assert(events.take(events.len() as int) =~= events);
                lemma_token_sums_grow(events, i + 1, events.len() as int);
            }
            let u = match trace.events[i].event.tokens() {
                Some(u) => u,
                None => Usage::default(),
            };
            tokens = tokens + u;
        }
        assert(events.take(events.len() as int) =~= events);
        let termination_message = find_conclusion(&trace.events);
        let completed = termination_message.is_some();
        Analysis {
            attempted_invocations: attempted as u32,
            successful_invocations: successful as u32,
            tokens,
            completed,
            termination_message,
            tool_stats,
        }
    }
}

} // verus!
