use sapiens::chains::{ContextDump, Message};
use sapiens::context::ChatEntry;
use sapiens::models::Role;
use sapiens::runner::{
    after_step, on_channel_message, report_error, report_termination, start_failed, update_posts, HandlerAction,
    JobProgress, JobUpdate, ProgressObserver, StepOutcome, JOB_MAX_STEPS,
};
use sapiens::tools::{TerminationMessage, ToolUseError};
use sapiens::tools::invocation::Error;
use sapiens::{
    InvalidInvocationNotification, InvocationFailureNotification, InvocationResultNotification,
    InvocationSuccessNotification, ModelNotification,
};

#[test]
fn own_messages_are_ignored() {
    assert!(matches!(on_channel_message(7, 7, "DO: something"), HandlerAction::Ignore));
}

#[test]
fn do_starts_a_job() {
    match on_channel_message(1, 7, "DO: sort [2, 1]") {
        HandlerAction::StartJob { task, max_steps } => {
            assert_eq!(task, "sort [2, 1]");
            assert_eq!(max_steps, JOB_MAX_STEPS);
            assert_eq!(max_steps, 12);
        },
        _ => panic!("a job for the task"),
    }
    match on_channel_message(1, 7, "DO: ") {
        HandlerAction::Say(s) => assert_eq!(s, "Please provide a task: 'DO: <task>'"),
        _ => panic!("there is no task"),
    }
    match on_channel_message(1, 7, "do: lowercase") {
        HandlerAction::Say(s) => assert_eq!(s, "oui!"),
        _ => panic!("not a request"),
    }
}

#[test]
fn updates_to_post() {
    assert_eq!(update_posts(JobUpdate::Vec(vec!["a".to_string()])), Some(vec!["a".to_string()]));
    assert_eq!(update_posts(JobUpdate::ToolError(vec!["e".to_string()])), Some(vec!["e".to_string()]));
    assert_eq!(update_posts(JobUpdate::Over), None);
}

#[test]
fn steps_run_until_the_maximum() {
    assert!(matches!(after_step(0, 3, StepOutcome::Continued), JobProgress::Next(1)));
    assert!(matches!(after_step(1, 3, StepOutcome::Continued), JobProgress::Next(2)));
    assert!(matches!(after_step(2, 3, StepOutcome::Continued), JobProgress::Done(JobUpdate::Over)));
    // a job runs at least one step
    assert!(matches!(after_step(0, 0, StepOutcome::Continued), JobProgress::Done(JobUpdate::Over)));
}

#[test]
fn a_done_task_reports_its_termination() {
    let ms = vec![TerminationMessage {
        conclusion: "  [1, 2]\n".to_string(),
        original_question: " sort [2, 1] ".to_string(),
    }];
    assert_eq!(
        report_termination(&ms),
        vec!["# Termination message\n - original question: sort [2, 1]\n - conclusion: [1, 2]".to_string()]
    );
    match after_step(5, 12, StepOutcome::Stopped(ms)) {
        JobProgress::Done(JobUpdate::Completed(v)) => assert_eq!(v.len(), 1),
        _ => panic!("the task is done"),
    }
}

#[test]
fn failures_are_reported() {
    assert_eq!(report_error("no terminal tool"), vec!["Error: no terminal tool".to_string()]);
    match after_step(0, 12, StepOutcome::Failed("boom".to_string())) {
        JobProgress::Done(JobUpdate::FailedToStart(v)) => assert_eq!(v, vec!["Error: boom".to_string()]),
        _ => panic!("the step failed"),
    }
    match start_failed("no model") {
        JobUpdate::FailedToStart(v) => assert_eq!(v, vec!["Error: no model".to_string()]),
        _ => panic!("the task did not start"),
    }
}

fn context() -> ContextDump {
    ContextDump {
        messages: vec![
            Message::Task { content: "sort".to_string() },
            Message::Observation { content: "a list".to_string(), usage: None },
        ],
    }
}

#[test]
fn start_shows_the_context() {
    let all = ProgressObserver { show_warmup_prompt: true };
    match all.on_start(&context()) {
        Some(JobUpdate::Vec(v)) => assert_eq!(v.len(), 2),
        _ => panic!("every message is shown"),
    }
    let last = ProgressObserver { show_warmup_prompt: false };
    match last.on_start(&context()) {
        Some(JobUpdate::Vec(v)) => {
            assert_eq!(v.len(), 1);
            assert_eq!(v[0], Message::Observation { content: "a list".to_string(), usage: None }.to_string());
        },
        _ => panic!("the last message is shown"),
    }
    assert!(last.on_start(&ContextDump { messages: vec![] }).is_none());
}

#[test]
fn progress_of_the_model_and_the_tools() {
    let o = ProgressObserver { show_warmup_prompt: false };
    let n = ModelNotification { chat_entry: ChatEntry { role: Role::Assistant, msg: "hi".to_string() }, usage: None };
    match o.on_model_update(&n) {
        JobUpdate::Vec(v) => assert_eq!(v, vec![":robot:\nhi".to_string()]),
        _ => panic!("the answer is shown"),
    }
    let ok = InvocationResultNotification::InvocationSuccess(InvocationSuccessNotification {
        invocation_count: 1,
        tool_name: "T".to_string(),
        extracted_input: "".to_string(),
        result: "done".to_string(),
    });
    assert_eq!(o.on_invocation_result(&ok).and_then(update_posts), Some(vec!["done".to_string()]));
    let failed = InvocationResultNotification::InvocationFailure(InvocationFailureNotification {
        invocation_count: 1,
        tool_name: "T".to_string(),
        extracted_input: "".to_string(),
        e: ToolUseError::ToolNotFound("T".to_string()),
    });
    match o.on_invocation_result(&failed) {
        Some(JobUpdate::ToolError(v)) => assert_eq!(v, vec!["*Error*: Tool not found: T".to_string()]),
        _ => panic!("the error is shown"),
    }
    let invalid = InvocationResultNotification::InvalidInvocation(InvalidInvocationNotification {
        e: Error::NoInvocationFound,
        invocation_count: 0,
    });
    assert!(o.on_invocation_result(&invalid).is_none());
}

#[test]
fn a_job_runs_at_most_its_maximum_of_steps() {
    for max in [0usize, 1, 4, 12] {
        let mut current = 0usize;
        let mut steps = 0usize;
        loop {
            steps += 1;
            match after_step(current, max, StepOutcome::Continued) {
                JobProgress::Next(n) => current = n,
                JobProgress::Done(u) => {
                    assert!(matches!(u, JobUpdate::Over));
                    break;
                }
            }
        }
        assert_eq!(steps, max.max(1));
    }
}
