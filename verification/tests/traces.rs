use sapiens::chains::{Message, Outcome};
use sapiens::exp::evaluate::Trial;
use sapiens::exp::traces::{to_lines, CompletionStatus, Event, TraceObserver, Usage};
use sapiens::models::Usage as ModelUsage;
use sapiens::tools::invocation::Error;
use sapiens::tools::toolbox::Stats;
use sapiens::tools::{TerminationMessage, ToolUseError};
use sapiens::{
    InvalidInvocationNotification, InvocationFailureNotification, InvocationResultNotification,
    InvocationSuccessNotification, MessageNotification, TerminationNotification,
};

fn usage(p: u32, c: u32) -> ModelUsage {
    ModelUsage { prompt_tokens: p, completion_tokens: c, total_tokens: p + c }
}

fn observation(p: u32, c: u32) -> MessageNotification {
    MessageNotification { message: Message::Observation { content: "I see".to_string(), usage: Some(usage(p, c)) } }
}

fn success(name: &str) -> InvocationResultNotification {
    InvocationResultNotification::InvocationSuccess(InvocationSuccessNotification {
        invocation_count: 1,
        tool_name: name.to_string(),
        extracted_input: "a: 1\nb: 2".to_string(),
        result: "ok\n".to_string(),
    })
}

fn failure(name: &str) -> InvocationResultNotification {
    InvocationResultNotification::InvocationFailure(InvocationFailureNotification {
        invocation_count: 2,
        tool_name: name.to_string(),
        extracted_input: "a: 1".to_string(),
        e: ToolUseError::InvocationFailed("boom\nbang".to_string()),
    })
}

#[test]
fn lines_split_on_new_lines() {
    assert_eq!(to_lines("a\nb\n"), vec!["a".to_string(), "b".to_string(), "".to_string()]);
    assert_eq!(to_lines(""), vec!["".to_string()]);
    assert_eq!(to_lines("one line"), vec!["one line".to_string()]);
}

#[test]
fn usages_add_up() {
    let a = Usage { prompt_tokens: 1, completion_tokens: 2, total_tokens: 3 };
    let b = Usage::from(usage(10, 20));
    let c = a + b;
    assert_eq!((c.prompt_tokens, c.completion_tokens, c.total_tokens), (11, 22, 33));
    let d = Usage::default();
    assert_eq!((d.prompt_tokens, d.completion_tokens, d.total_tokens), (0, 0, 0));
}

#[test]
fn only_agent_messages_count_tokens() {
    let e = Event::from(observation(5, 7));
    let u = e.tokens().unwrap();
    assert_eq!((u.prompt_tokens, u.completion_tokens, u.total_tokens), (5, 7, 12));
    let task = Event::from(MessageNotification { message: Message::Task { content: "t".to_string() } });
    assert!(task.tokens().is_none());
    assert!(Event::Start { task: "t".to_string() }.tokens().is_none());
    let without = Event::Message { message: Message::Action { content: "x".to_string(), usage: None } };
    assert!(without.tokens().is_none());
}

#[test]
fn invocation_results_become_events() {
    match Event::from_invocation_result(success("Search")) {
        Event::ToolInvocationSucceeded { tool_name, invocation_count, extracted_input, result } => {
            assert_eq!(tool_name, "Search");
            assert_eq!(invocation_count, 1);
            assert_eq!(extracted_input, vec!["a: 1".to_string(), "b: 2".to_string()]);
            assert_eq!(result, vec!["ok".to_string(), "".to_string()]);
        },
        _ => panic!("a success"),
    }
    match Event::from_invocation_result(failure("Search")) {
        Event::ToolInvocationFailed { tool_name, invocation_count, error, .. } => {
            assert_eq!(tool_name, "Search");
            assert_eq!(invocation_count, 2);
            assert_eq!(error, vec!["Tool invocation failed: boom".to_string(), "bang".to_string()]);
        },
        _ => panic!("a failure"),
    }
    let invalid = InvocationResultNotification::InvalidInvocation(InvalidInvocationNotification {
        e: Error::NoInvocationFound,
        invocation_count: 0,
    });
    match Event::from_invocation_result(invalid) {
        Event::InvalidInvocation { error, invocation_count } => {
            assert_eq!(error, vec!["No Action found".to_string()]);
            assert_eq!(invocation_count, 0);
        },
        _ => panic!("an invalid invocation"),
    }
}

fn observed_run(concluded: bool) -> TraceObserver {
    let mut o = TraceObserver::new();
    o.on_task("Sort [2, 1]", Some("s0".to_string()));
    o.on_message(observation(3, 4), None);
    o.on_invocation_result(success("Python"), Some("s1".to_string()));
    o.on_message(observation(10, 20), None);
    o.on_invocation_result(failure("Python"), None);
    if concluded {
        o.on_termination(TerminationNotification {
            messages: vec![
                TerminationMessage { conclusion: "[1, 2]".to_string(), original_question: "Sort".to_string() },
                TerminationMessage { conclusion: "done".to_string(), original_question: "Sort".to_string() },
            ],
        });
    }
    o
}

#[test]
fn trace_ends_with_the_conclusions() {
    let mut o = observed_run(true);
    let trace = o.trace(Some("end".to_string()));
    assert_eq!(trace.events.len(), 6);
    assert!(matches!(&trace.events[0].event, Event::Start { task } if task == "Sort [2, 1]"));
    assert_eq!(trace.events[0].state, Some("s0".to_string()));
    match &trace.events[5].event {
        Event::End(CompletionStatus::Concluded { conclusion }) => assert_eq!(conclusion, "[1, 2]\ndone"),
        _ => panic!("the run was concluded"),
    }
    assert_eq!(trace.events[5].state, Some("end".to_string()));
    // the trace is complete: a second call gives it back as it is
    let again = o.trace(None);
    assert_eq!(again.events.len(), 6);
    match &again.events[5].event {
        Event::End(CompletionStatus::Concluded { conclusion }) => assert_eq!(conclusion, "[1, 2]\ndone"),
        _ => panic!("the same end"),
    }
}

#[test]
fn trace_without_termination_reaches_max_steps() {
    let mut o = observed_run(false);
    let trace = o.trace(None);
    assert_eq!(trace.events.len(), 6);
    assert!(matches!(&trace.events[5].event, Event::End(CompletionStatus::MaxStepsReached)));
}

#[test]
fn trial_analysis_counts_invocations_and_tokens() {
    let mut o = observed_run(true);
    let trace = o.trace(None);
    let mut stats = Stats::new();
    stats.report_success("Python");
    stats.report_error("Python");
    let trial = Trial::build("config", "Sort [2, 1]".to_string(), trace, stats);
    let a = &trial.analysis;
    assert_eq!(a.attempted_invocations, 2);
    assert_eq!(a.successful_invocations, 1);
    assert_eq!((a.tokens.prompt_tokens, a.tokens.completion_tokens, a.tokens.total_tokens), (13, 24, 37));
    assert!(a.completed);
    assert_eq!(a.termination_message, Some("[1, 2]\ndone".to_string()));
    assert_eq!(a.tool_stats.success_count.get("Python"), 1);
    assert_eq!(a.tool_stats.error_count.get("Python"), 1);
    assert_eq!(trial.task, "Sort [2, 1]");
    assert_eq!(trial.config, "config");
}

#[test]
fn trial_of_an_unfinished_run() {
    let mut o = observed_run(false);
    let trace = o.trace(None);
    let a = Trial::<()>::analyze(&trace, Stats::new());
    assert!(!a.completed);
    assert!(a.termination_message.is_none());
    assert_eq!(a.attempted_invocations, 2);
}

#[test]
fn action_results_are_messages_without_tokens() {
    let m = Message::ActionResult {
        invocation_count: 1,
        tool_name: Some("Python".to_string()),
        extracted_input: None,
        outcome: Outcome::NoValidInvocationsFound { e: Error::NoInvocationFound },
    };
    assert!(Event::Message { message: m }.tokens().is_none());
}

#[test]
fn conclude_invocations_are_not_counted() {
    let mut o = observed_run(true);
    o.on_invocation_result(success("Conclude"), None);
    o.on_invocation_result(failure("Conclude"), None);
    let trace = o.trace(None);
    let a = Trial::<()>::analyze(&trace, Stats::new());
    assert_eq!(a.attempted_invocations, 2);
    assert_eq!(a.successful_invocations, 1);
}
