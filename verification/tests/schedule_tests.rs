use chrono::{Datelike, Timelike};
use rpa_app::calendar::format_datetime;
use rpa_app::params::SpiderParams;
use rpa_app::runner::{
    BinaryAttempt, InterpreterVerdict, ProcOutput, TaskOutcome, binary_verdict,
    interpreter_verdict,
};
use rpa_app::schedule::{
    Event, EventKind, RunEvent, RunState, SpiderConfig, advance, email_body, email_subject,
    plan_schedule, run_events, start_schedule, task_event, validate_bounds,
};

fn config(year: u32, month: u32, day: u32, hour: u32, minute: u32, second: u32) -> SpiderConfig {
    SpiderConfig {
        params: SpiderParams { page: 1, title: "t".to_string(), project_type: "c".to_string() },
        email: "a@b.com".to_string(),
        year,
        month,
        day,
        hour,
        minute,
        second,
        enabled: true,
        push_content_enabled: false,
        push_content: String::new(),
    }
}

#[test]
fn datetime_formatting_pads_every_field() {
    assert_eq!(format_datetime(2024, 1, 2, 3, 4, 5), "2024-01-02 03:04:05");
    assert_eq!(format_datetime(999, 12, 31, 23, 59, 59), "0999-12-31 23:59:59");
    assert_eq!(format_datetime(0, 1, 1, 0, 0, 0), "0000-01-01 00:00:00");
}

#[test]
fn each_field_bound_has_its_own_complaint() {
    assert_eq!(
        validate_bounds(&config(2030, 0, 1, 0, 0, 0)).unwrap_err(),
        "the month must be between 1 and 12"
    );
    assert_eq!(
        validate_bounds(&config(2030, 13, 1, 0, 0, 0)).unwrap_err(),
        "the month must be between 1 and 12"
    );
    assert_eq!(
        validate_bounds(&config(2030, 6, 0, 0, 0, 0)).unwrap_err(),
        "the day must be between 1 and 31"
    );
    assert_eq!(
        validate_bounds(&config(2030, 6, 32, 0, 0, 0)).unwrap_err(),
        "the day must be between 1 and 31"
    );
    assert_eq!(
        validate_bounds(&config(2030, 6, 15, 24, 0, 0)).unwrap_err(),
        "the hour must be between 0 and 23"
    );
    assert_eq!(
        validate_bounds(&config(2030, 6, 15, 12, 60, 0)).unwrap_err(),
        "the minute must be between 0 and 59"
    );
    assert_eq!(
        validate_bounds(&config(2030, 6, 15, 12, 30, 60)).unwrap_err(),
        "the second must be between 0 and 59"
    );
    assert!(validate_bounds(&config(2030, 6, 15, 12, 30, 30)).is_ok());
}

#[test]
fn impossible_dates_are_rejected_before_any_waiting() {
    let r = start_schedule(&config(2030, 2, 30, 12, 0, 0));
    assert_eq!(r.unwrap_err(), "the fields do not name a valid local date-time");
    let r2 = start_schedule(&config(2029, 2, 29, 12, 0, 0));
    assert_eq!(r2.unwrap_err(), "the fields do not name a valid local date-time");
    let r3 = start_schedule(&config(2030, 4, 31, 12, 0, 0));
    assert_eq!(r3.unwrap_err(), "the fields do not name a valid local date-time");
}

#[test]
fn leap_day_of_a_leap_year_composes() {
    let r = start_schedule(&config(2032, 2, 29, 12, 0, 0));
    assert!(r.is_ok(), "a leap day far in the future should schedule: {:?}", r.err());
}

#[test]
fn out_of_bound_fields_are_rejected_before_composition() {
    let r = start_schedule(&config(2030, 13, 1, 0, 0, 0));
    assert_eq!(r.unwrap_err(), "the month must be between 1 and 12");
}

#[test]
fn past_target_is_rejected_naming_it() {
    let c = config(2020, 1, 2, 3, 4, 5);
    let now = 2_000_000_000i64;
    let r = plan_schedule(&c, now, now - 1);
    assert_eq!(
        r.unwrap_err(),
        "the target time 2020-01-02 03:04:05 has already passed, choose a future time"
    );
    let r2 = plan_schedule(&c, now, now);
    assert!(r2.unwrap_err().contains("2020-01-02 03:04:05"));
}

#[test]
fn accepted_plan_confirms_target_and_recipient() {
    let c = config(2031, 7, 9, 8, 5, 2);
    let now = 1_900_000_000i64;
    let plan = plan_schedule(&c, now, now + 5).unwrap();
    assert_eq!(plan.wait_seconds, 5);
    assert_eq!(plan.target_timestamp, now + 5);
    assert_eq!(
        plan.confirmation,
        "scheduled task started: it will run at 2031-07-09 08:05:02, \
         the result will be sent to a@b.com"
    );
}

#[test]
fn subject_is_fixed() {
    assert_eq!(email_subject(), "collector task result");
}

#[test]
fn body_puts_push_content_before_the_template() {
    let success = TaskOutcome::Success { raw_output: "DATA".to_string() };
    let failure = TaskOutcome::Failure { message: "boom".to_string() };
    assert_eq!(
        email_body(&success, true, &"hello".to_string()),
        "hello\n\nthe collector task succeeded:\nDATA"
    );
    assert_eq!(email_body(&success, false, &"hello".to_string()), "the collector task succeeded:\nDATA");
    assert_eq!(email_body(&success, true, &String::new()), "the collector task succeeded:\nDATA");
    assert_eq!(
        email_body(&failure, true, &"hello".to_string()),
        "hello\n\nthe collector task failed:\nboom"
    );
}

#[test]
fn task_event_mirrors_the_outcome() {
    let e = task_event(&TaskOutcome::Success { raw_output: "DATA".to_string() });
    assert_eq!(e.kind, EventKind::TaskResult);
    assert_eq!(e.payload, "DATA");
    let f = task_event(&TaskOutcome::Failure { message: "boom".to_string() });
    assert_eq!(f.kind, EventKind::TaskError);
    assert_eq!(f.payload, "boom");
}

#[test]
fn no_recipient_means_only_the_task_event() {
    let outcome = TaskOutcome::Success { raw_output: "DATA".to_string() };
    let events = run_events(&outcome, &String::new(), &None);
    assert_eq!(events.len(), 1);
    assert_eq!(events[0].kind, EventKind::TaskResult);
}

#[test]
fn delivery_failure_echoes_as_a_task_error() {
    let outcome = TaskOutcome::Success { raw_output: "DATA".to_string() };
    let events = run_events(
        &outcome,
        &"a@b.com".to_string(),
        &Some(Err("smtp authentication failed".to_string())),
    );
    assert_eq!(events.len(), 3);
    assert_eq!(events[0].kind, EventKind::TaskResult);
    assert_eq!(events[1].kind, EventKind::EmailError);
    assert_eq!(events[2].kind, EventKind::TaskError);
    assert!(events[1].payload.contains("authorization code"));
    assert_eq!(events[1].payload, events[2].payload);
}

#[test]
fn a_run_walks_the_states_in_order() {
    let s = advance(RunState::Idle, RunEvent::Submitted);
    assert_eq!(s, RunState::Validating);
    let s = advance(s, RunEvent::Accepted);
    assert_eq!(s, RunState::Waiting);
    let s = advance(s, RunEvent::WaitElapsed);
    assert_eq!(s, RunState::Executing);
    let s = advance(s, RunEvent::OutcomeReported { notify: true });
    assert_eq!(s, RunState::Notifying);
    let s = advance(s, RunEvent::NotificationSettled);
    assert_eq!(s, RunState::Done);
}

#[test]
fn a_refused_run_ends_rejected_and_stays_there() {
    let s = advance(RunState::Validating, RunEvent::Refused);
    assert_eq!(s, RunState::Rejected);
    assert_eq!(advance(s, RunEvent::Accepted), RunState::Rejected);
    assert_eq!(advance(RunState::Done, RunEvent::Submitted), RunState::Done);
}

#[test]
fn a_run_without_a_recipient_skips_notifying() {
    let s = advance(RunState::Executing, RunEvent::OutcomeReported { notify: false });
    assert_eq!(s, RunState::Done);
}

#[test]
fn a_stray_event_changes_nothing() {
    assert_eq!(advance(RunState::Waiting, RunEvent::Submitted), RunState::Waiting);
    assert_eq!(advance(RunState::Idle, RunEvent::WaitElapsed), RunState::Idle);
}

#[test]
fn doubly_failed_run_mails_the_binary_tier_error() {
    let interp = interpreter_verdict(Some(ProcOutput {
        status_ok: false,
        stdout: Vec::new(),
        stderr: b"interpreter-tier boom".to_vec(),
    }));
    assert!(matches!(interp, InterpreterVerdict::TryBinary));
    let outcome = binary_verdict(BinaryAttempt::Ran {
        output: ProcOutput {
            status_ok: false,
            stdout: Vec::new(),
            stderr: b"binary-tier boom".to_vec(),
        },
    });
    let body = email_body(&outcome, true, &"daily digest".to_string());
    assert_eq!(
        body,
        "daily digest\n\nthe collector task failed:\nthe collector program failed: binary-tier boom"
    );
    assert!(!body.contains("interpreter-tier boom"));
    let events = run_events(&outcome, &"a@b.com".to_string(), &Some(Ok(())));
    assert_eq!(events.len(), 2);
    assert_eq!(events[0].kind, EventKind::TaskError);
    assert!(events[0].payload.contains("binary-tier boom"));
    assert_eq!(events[1].kind, EventKind::EmailSent);
}

fn count_kinds(events: &[Event]) -> (usize, usize) {
    let task = events
        .iter()
        .filter(|e| e.kind == EventKind::TaskResult || e.kind == EventKind::TaskError)
        .count();
    let email = events
        .iter()
        .filter(|e| e.kind == EventKind::EmailSent || e.kind == EventKind::EmailError)
        .count();
    (task, email)
}

#[test]
fn five_second_schedule_emits_one_task_then_one_email_event() {
    let target = chrono::Local::now() + chrono::Duration::seconds(5);
    let c = SpiderConfig {
        params: SpiderParams { page: 1, title: "t".to_string(), project_type: "c".to_string() },
        email: "a@b.com".to_string(),
        year: target.year() as u32,
        month: target.month(),
        day: target.day(),
        hour: target.hour(),
        minute: target.minute(),
        second: target.second(),
        enabled: true,
        push_content_enabled: false,
        push_content: String::new(),
    };
    let plan = match start_schedule(&c) {
        Ok(plan) => plan,
        Err(e) => panic!("a five-second schedule should be accepted: {}", e),
    };
    assert!(plan.wait_seconds >= 1 && plan.wait_seconds <= 6, "wait was {}", plan.wait_seconds);

    let outcome = TaskOutcome::Success { raw_output: "DATA".to_string() };
    let events = run_events(&outcome, &c.email, &Some(Ok(())));
    let (task_events, email_events) = count_kinds(&events);
    assert_eq!(task_events, 1);
    assert_eq!(email_events, 1);
    assert_eq!(events[0].kind, EventKind::TaskResult);
    assert_eq!(events[1].kind, EventKind::EmailSent);
    assert_eq!(events[1].payload, "email sent to: a@b.com");

    let failed = TaskOutcome::Failure { message: "boom".to_string() };
    let events2 = run_events(&failed, &c.email, &Some(Err("connection refused".to_string())));
    let (task2, email2) = count_kinds(&events2);
    assert_eq!(task2, 2);
    assert_eq!(email2, 1);
    assert_eq!(events2[0].kind, EventKind::TaskError);
    assert_eq!(events2[1].kind, EventKind::EmailError);
}
