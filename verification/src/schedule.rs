//! The scheduled run itself: validating the target, computing the wait, and
//! the events a finished run reports.

use vstd::prelude::*;
use vstd::string::StringExecFns;
use crate::calendar::{
    valid_date, valid_time, spec_format_datetime, format_datetime, now_timestamp, local_timestamp,
};
use crate::notifier::{spec_classified_msg, classify_send_error, delivery_receipt,
    spec_delivery_receipt};
use crate::params::SpiderParams;
use crate::runner::TaskOutcome;

verus! {

/// One delayed run: the parameters, the target wall-clock fields, the
/// recipient, and the optional push text put before the result.
#[derive(Clone, Debug)]
pub struct SpiderConfig {
    pub params: SpiderParams,
    pub email: String,
    pub year: u32,
    pub month: u32,
    pub day: u32,
    pub hour: u32,
    pub minute: u32,
    pub second: u32,
    pub enabled: bool,
    pub push_content_enabled: bool,
    pub push_content: String,
}

/// Every calendar field sits inside its declared bound.
pub open spec fn spec_bounds_ok(c: SpiderConfig) -> bool {
    &&& 1 <= c.month <= 12
    &&& 1 <= c.day <= 31
    &&& c.hour <= 23
    &&& c.minute <= 59
    &&& c.second <= 59
}

/// The complaint for the first field out of its bound.
pub open spec fn spec_bounds_error(c: SpiderConfig) -> Seq<char> {
    if c.month < 1 || c.month > 12 {
        "the month must be between 1 and 12"@
    } else if c.day < 1 || c.day > 31 {
        "the day must be between 1 and 31"@
    } else if c.hour > 23 {
        "the hour must be between 0 and 23"@
    } else if c.minute > 59 {
        "the minute must be between 0 and 59"@
    } else {
        "the second must be between 0 and 59"@
    }
}

/// Checks every calendar field against its declared bound, reporting the first
/// field that falls outside.
pub fn validate_bounds(c: &SpiderConfig) -> (r: Result<(), String>)
    ensures
        r is Ok <==> spec_bounds_ok(*c),
        r matches Err(m) ==> m@ == spec_bounds_error(*c),
{
    if c.month < 1 || c.month > 12 {
        Err(String::from_str("the month must be between 1 and 12"))
    } else if c.day < 1 || c.day > 31 {
        Err(String::from_str("the day must be between 1 and 31"))
    } else if c.hour > 23 {
        Err(String::from_str("the hour must be between 0 and 23"))
    } else if c.minute > 59 {
        Err(String::from_str("the minute must be between 0 and 59"))
    } else if c.second > 59 {
        Err(String::from_str("the second must be between 0 and 59"))
    } else {
        Ok(())
    }
}

/// The target wall-clock fields as one timestamp string.
pub open spec fn spec_target_text(c: SpiderConfig) -> Seq<char> {
    spec_format_datetime(
        c.year as nat,
        c.month as nat,
        c.day as nat,
        c.hour as nat,
        c.minute as nat,
        c.second as nat,
    )
}

/// The complaint when the fields compose no local date-time.
pub open spec fn spec_compose_error() -> Seq<char> {
    "the fields do not name a valid local date-time"@
}

/// The rejection of a target that is not in the future, naming it.
pub open spec fn spec_past_error(c: SpiderConfig) -> Seq<char> {
    "the target time "@ + spec_target_text(c) + " has already passed, choose a future time"@
}

/// The confirmation handed back when the run is scheduled, naming the target
/// and the recipient.
pub open spec fn spec_confirmation(c: SpiderConfig) -> Seq<char> {
    "scheduled task started: it will run at "@ + spec_target_text(c)
        + ", the result will be sent to "@ + c.email@
}

/// The rejection of a past target names that target: its timestamp text stands
/// inside the message.
pub proof fn lemma_past_error_names_target(c: SpiderConfig)
    ensures
        crate::strutil::has_substr(spec_past_error(c), spec_target_text(c)),
{
    let msg = spec_past_error(c);
    let t = spec_target_text(c);
    let i = "the target time "@.len() as int;
    assert(crate::strutil::substr_at(msg, t, i)) by {
        assert(msg.subrange(i, i + t.len() as int) =~= t);
    }
}

/// The confirmation of an accepted run names its target: the timestamp text
/// composed from the fields stands inside the message.
pub proof fn lemma_confirmation_names_target(c: SpiderConfig)
    ensures
        crate::strutil::has_substr(spec_confirmation(c), spec_target_text(c)),
{
    let msg = spec_confirmation(c);
    let t = spec_target_text(c);
    let i = "scheduled task started: it will run at "@.len() as int;
    assert(crate::strutil::substr_at(msg, t, i)) by {
        assert(msg.subrange(i, i + t.len() as int) =~= t);
    }
}

/// A validated, scheduled run: how long to wait and what to tell the caller.
#[derive(Clone, Debug)]
pub struct SchedulePlan {
    pub wait_seconds: u64,
    pub target_timestamp: i64,
    pub confirmation: String,
}

/// Decides a schedule from the composed target instant and the present one: a
/// field out of bounds fails with its complaint, a target at or before now
/// fails naming the target, and otherwise the run is accepted with the exact
/// wait and a confirmation naming the target and the recipient.
pub fn plan_schedule(c: &SpiderConfig, now: i64, target: i64) -> (r: Result<SchedulePlan, String>)
    requires
        -9_000_000_000_000 < now < 9_000_000_000_000,
        -9_000_000_000_000 < target < 9_000_000_000_000,
    ensures
        if !spec_bounds_ok(*c) {
            r matches Err(m) && m@ == spec_bounds_error(*c)
        } else if target <= now {
            r matches Err(m) && m@ == spec_past_error(*c)
        } else {
            r matches Ok(plan) && plan.wait_seconds == target - now && plan.target_timestamp
                == target && plan.confirmation@ == spec_confirmation(*c)
        },
{
    validate_bounds(c)?;
    let target_text = format_datetime(c.year, c.month, c.day, c.hour, c.minute, c.second);
    if target <= now {
        let mut m = String::from_str("the target time ");
        m.append(target_text.as_str());
        m.append(" has already passed, choose a future time");
        proof {
            assert(m@ =~= spec_past_error(*c));
        }
        return Err(m);
    }
    let wait = (target - now) as u64;
    let mut confirmation = String::from_str("scheduled task started: it will run at ");
    confirmation.append(target_text.as_str());
    confirmation.append(", the result will be sent to ");
    confirmation.append(c.email.as_str());
    proof {
        assert(confirmation@ =~= spec_confirmation(*c));
    }
    Ok(SchedulePlan { wait_seconds: wait, target_timestamp: target, confirmation })
}

/// Validates the run against the clock and the calendar. A field out of bounds,
/// or fields that compose no local date-time, fail here, before any waiting
/// begins; an accepted run carries its confirmation and the exact wait. Whether
/// a future target is accepted rests with the machine's clock and time zone,
/// consulted through the calendar.
pub fn start_schedule(c: &SpiderConfig) -> (r: Result<SchedulePlan, String>)
    ensures
        !spec_bounds_ok(*c) ==> (r matches Err(m) && m@ == spec_bounds_error(*c)),
        spec_bounds_ok(*c) && !(valid_date(c.year as nat, c.month as nat, c.day as nat)
            && valid_time(c.hour as nat, c.minute as nat, c.second as nat)) ==> (r matches Err(m)
            && m@ == spec_compose_error()),
        r matches Ok(plan) ==> (spec_bounds_ok(*c) && valid_date(
            c.year as nat,
            c.month as nat,
            c.day as nat,
        ) && plan.wait_seconds >= 1 && plan.confirmation@ == spec_confirmation(*c)),
{
    validate_bounds(c)?;
    if c.year > 0x7fff_ffff {
        return Err(String::from_str("the fields do not name a valid local date-time"));
    }
    let target = match local_timestamp(c.year, c.month, c.day, c.hour, c.minute, c.second) {
        Some(t) => t,
        None => {
            return Err(String::from_str("the fields do not name a valid local date-time"));
        },
    };
    let now = now_timestamp();
    match plan_schedule(c, now, target) {
        Ok(plan) => Ok(plan),
        Err(m) => Err(m),
    }
}

/// The states one scheduled run passes through. `Done` and `Rejected` are
/// terminal.
#[derive(Clone, Copy, Debug, PartialEq, Eq, Structural)]
pub enum RunState {
    Idle,
    Validating,
    Waiting,
    Executing,
    Notifying,
    Done,
    Rejected,
}

/// What happened to a run since its state was last read.
#[derive(Clone, Copy, Debug, PartialEq, Eq, Structural)]
pub enum RunEvent {
    Submitted,
    Accepted,
    Refused,
    WaitElapsed,
    OutcomeReported { notify: bool },
    NotificationSettled,
}

/// The successor state: validation decides between waiting and rejection, the
/// elapsed wait starts the execution, the outcome starts the notification
/// exactly when a recipient was supplied, and a settled notification ends the
/// run. An event that does not belong to the state changes nothing.
pub open spec fn spec_advance(s: RunState, e: RunEvent) -> RunState {
    match (s, e) {
        (RunState::Idle, RunEvent::Submitted) => RunState::Validating,
        (RunState::Validating, RunEvent::Accepted) => RunState::Waiting,
        (RunState::Validating, RunEvent::Refused) => RunState::Rejected,
        (RunState::Waiting, RunEvent::WaitElapsed) => RunState::Executing,
        (RunState::Executing, RunEvent::OutcomeReported { notify }) => if notify {
            RunState::Notifying
        } else {
            RunState::Done
        },
        (RunState::Notifying, RunEvent::NotificationSettled) => RunState::Done,
        (_, _) => s,
    }
}

/// Moves a run to its next state.
pub fn advance(s: RunState, e: RunEvent) -> (r: RunState)
    ensures
        r == spec_advance(s, e),
{
    match (s, e) {
        (RunState::Idle, RunEvent::Submitted) => RunState::Validating,
        (RunState::Validating, RunEvent::Accepted) => RunState::Waiting,
        (RunState::Validating, RunEvent::Refused) => RunState::Rejected,
        (RunState::Waiting, RunEvent::WaitElapsed) => RunState::Executing,
        (RunState::Executing, RunEvent::OutcomeReported { notify }) => if notify {
            RunState::Notifying
        } else {
            RunState::Done
        },
        (RunState::Notifying, RunEvent::NotificationSettled) => RunState::Done,
        (_, _) => s,
    }
}

/// Notification never begins before the execution has finished: `Notifying` is
/// entered from `Executing` alone, on its reported outcome.
pub proof fn lemma_notifying_follows_executing(s: RunState, e: RunEvent)
    requires
        !(s is Notifying),
        spec_advance(s, e) is Notifying,
    ensures
        s is Executing && e matches RunEvent::OutcomeReported { notify: true },
{
}

/// Execution never begins before the wait has elapsed: `Executing` is entered
/// from `Waiting` alone.
pub proof fn lemma_executing_follows_waiting(s: RunState, e: RunEvent)
    requires
        !(s is Executing),
        spec_advance(s, e) is Executing,
    ensures
        s is Waiting && e is WaitElapsed,
{
}

/// A finished or rejected run stays where it ended.
pub proof fn lemma_terminal_states_stay(s: RunState, e: RunEvent)
    requires
        s is Done || s is Rejected,
    ensures
        spec_advance(s, e) == s,
{
}

/// What a run reports to its observers.
#[derive(Clone, Copy, Debug, PartialEq, Eq, Structural)]
pub enum EventKind {
    TaskResult,
    TaskError,
    EmailSent,
    EmailError,
}

/// One emission on the event channel.
#[derive(Clone, Debug)]
pub struct Event {
    pub kind: EventKind,
    pub payload: String,
}

/// The fixed subject line of the notification message.
pub fn email_subject() -> (r: String)
    ensures
        r@ == "collector task result"@,
{
    String::from_str("collector task result")
}

/// The message body: the optional push text first, then the fixed template
/// around the outcome.
pub open spec fn spec_email_body(
    outcome: TaskOutcome,
    push_enabled: bool,
    push: Seq<char>,
) -> Seq<char> {
    let tail = match outcome {
        TaskOutcome::Success { raw_output } => "the collector task succeeded:\n"@ + raw_output@,
        TaskOutcome::Failure { message } => "the collector task failed:\n"@ + message@,
    };
    if push_enabled && push.len() > 0 {
        push + "\n\n"@ + tail
    } else {
        tail
    }
}

/// Assembles the notification body: the push text when enabled and present,
/// then the success or failure template around the outcome.
pub fn email_body(outcome: &TaskOutcome, push_enabled: bool, push: &String) -> (r: String)
    ensures
        r@ == spec_email_body(*outcome, push_enabled, push@),
{
    let mut body = String::new();
    if push_enabled && !push.as_str().is_empty() {
        body.append(push.as_str());
        body.append("\n\n");
    }
    match outcome {
        TaskOutcome::Success { raw_output } => {
            body.append("the collector task succeeded:\n");
            body.append(raw_output.as_str());
        },
        TaskOutcome::Failure { message } => {
            body.append("the collector task failed:\n");
            body.append(message.as_str());
        },
    }
    proof {
        assert(body@ =~= spec_email_body(*outcome, push_enabled, push@));
    }
    body
}

/// The event that reports the outcome itself.
pub fn task_event(outcome: &TaskOutcome) -> (r: Event)
    ensures
        match outcome {
            TaskOutcome::Success { raw_output } => r.kind == EventKind::TaskResult && r.payload
                == raw_output,
            TaskOutcome::Failure { message } => r.kind == EventKind::TaskError && r.payload
                == message,
        },
{
    match outcome {
        TaskOutcome::Success { raw_output } => Event {
            kind: EventKind::TaskResult,
            payload: raw_output.clone(),
        },
        TaskOutcome::Failure { message } => Event {
            kind: EventKind::TaskError,
            payload: message.clone(),
        },
    }
}

/// Every event one run emits, in emission order: the task event first; then,
/// exactly when a recipient was supplied, the delivery receipt, or the delivery
/// failure followed by its echo as a task error.
pub fn run_events(outcome: &TaskOutcome, email: &String, send: &Option<Result<(), String>>) -> (r:
    Vec<Event>)
    requires
        (send is Some) <==> email@.len() > 0,
    ensures
        r@.len() == match send {
            None => 1int,
            Some(Ok(_)) => 2int,
            Some(Err(_)) => 3int,
        },
        r@[0].kind == match outcome {
            TaskOutcome::Success { .. } => EventKind::TaskResult,
            TaskOutcome::Failure { .. } => EventKind::TaskError,
        },
        r@[0].payload@ == match outcome {
            TaskOutcome::Success { raw_output } => raw_output@,
            TaskOutcome::Failure { message } => message@,
        },
        match send {
            None => true,
            Some(Ok(_)) => r@[1].kind == EventKind::EmailSent && r@[1].payload@
                == spec_delivery_receipt(email@),
            Some(Err(e)) => r@[1].kind == EventKind::EmailError && r@[1].payload@
                == spec_classified_msg(e@) && r@[2].kind == EventKind::TaskError && r@[2].payload@
                == spec_classified_msg(e@),
        },
{
    let mut events: Vec<Event> = Vec::new();
    events.push(task_event(outcome));
    match send {
        None => {},
        Some(Ok(_)) => {
            events.push(Event { kind: EventKind::EmailSent, payload: delivery_receipt(email) });
        },
        Some(Err(e)) => {
            let classified = classify_send_error(e.as_str());
            let payload = classified.message().clone();
            events.push(Event { kind: EventKind::EmailError, payload: payload.clone() });
            events.push(Event { kind: EventKind::TaskError, payload });
        },
    }
    events
}

} // verus!
