//! What the log records about deliveries.
use vstd::prelude::*;
use crate::dispatch;
use crate::dispatch::Job;
use crate::http;
use crate::text;

verus! {

/// How serious an event is.
#[derive(Debug, Clone, Copy, PartialEq, Eq, Structural)]
pub enum EventSeverity {
    Info,
    Error,
}

/// An event for the log.
pub struct LogEvent {
    pub kind: String,
    pub severity: EventSeverity,
    pub message: String,
}

/// An event as plain values.
pub struct EventView {
    pub kind: Seq<char>,
    pub severity: EventSeverity,
    pub message: Seq<char>,
}

impl View for LogEvent {
    type V = EventView;

    open spec fn view(&self) -> EventView {
        EventView { kind: self.kind@, severity: self.severity, message: self.message@ }
    }
}

/// The event of a delivery that succeeded.
pub open spec fn sent_event(message: Seq<char>) -> EventView {
    EventView { kind: "notification.sent"@, severity: EventSeverity::Info, message }
}

/// The event of a delivery that failed.
pub open spec fn failed_event(message: Seq<char>) -> EventView {
    EventView { kind: "notification.failed"@, severity: EventSeverity::Error, message }
}

/// How the log words a delivery that succeeded.
pub open spec fn success_message(job: dispatch::JobView, subject: Seq<char>) -> Seq<char> {
    match job {
        dispatch::JobView::Email { to, .. } => "Email sent to "@ + text::decimal(to.len())
            + " recipient(s): "@ + subject,
        dispatch::JobView::Sms { to, .. } => "SMS sent to "@ + text::decimal(to.len()) + " recipient(s): "@
            + subject,
        dispatch::JobView::Webhook { config, .. } => "Webhook sent ("@ + config.format@ + "): "@ + subject,
    }
}

/// How the log words a delivery that failed.
pub open spec fn failure_message(job: dispatch::JobView, subject: Seq<char>, error: Seq<char>) -> Seq<char> {
    match job {
        dispatch::JobView::Email { .. } => "Email failed: "@ + subject + " — "@ + error,
        dispatch::JobView::Sms { .. } => "SMS failed: "@ + subject + " — "@ + error,
        dispatch::JobView::Webhook { .. } => "Webhook failed: "@ + subject + " — "@ + error,
    }
}

/// The event that the log records about a delivery.
pub open spec fn event_of(
    job: dispatch::JobView,
    subject: Seq<char>,
    outcome: Result<(), Seq<char>>,
) -> EventView {
    match outcome {
        Ok(_) => sent_event(success_message(job, subject)),
        Err(error) => failed_event(failure_message(job, subject, error)),
    }
}

/// Three texts in a row.
fn three(a: &str, b: &str, c: &str) -> (whole: String)
    ensures
        whole@ == a@ + b@ + c@,
{
    let mut whole = a.to_string();
    whole.append(b);
    whole.append(c);
    whole
}

/// The event that the log records about a delivery of the notification with this subject.
pub fn delivery_event(job: &Job, subject: &str, outcome: &Result<(), String>) -> (event: LogEvent)
    ensures
        event@ == event_of(job@, subject@, http::outcome_text(*outcome)),
{
    match outcome {
        Ok(_) => {
            let mut message = match job {
                Job::Email(run) => three(
                    "Email sent to ",
                    text::decimal_text(run.to.len()).as_str(),
                    " recipient(s): ",
                ),
                Job::Sms(run) => three(
                    "SMS sent to ",
                    text::decimal_text(run.to.len()).as_str(),
                    " recipient(s): ",
                ),
                Job::Webhook(job) => three("Webhook sent (", job.config.format.as_str(), "): "),
            };
            message.append(subject);
            LogEvent {
                kind: "notification.sent".to_string(),
                severity: EventSeverity::Info,
                message,
            }
        },
        Err(error) => {
            let lead = match job {
                Job::Email(_) => "Email failed: ",
                Job::Sms(_) => "SMS failed: ",
                Job::Webhook(_) => "Webhook failed: ",
            };
            let mut message = three(lead, subject, " — ");
            message.append(error.as_str());
            LogEvent {
                kind: "notification.failed".to_string(),
                severity: EventSeverity::Error,
                message,
            }
        },
    }
}

/// The log records a delivery that succeeded as sent and for information, with the channel, how
/// many recipients it had or which format, and the subject; and one that failed as failed and as
/// an error, with the channel, the subject and what went wrong.
pub proof fn log_tells_how_each_delivery_went(
    job: dispatch::JobView,
    subject: Seq<char>,
    error: Seq<char>,
)
    ensures
        event_of(job, subject, Ok(())).kind == "notification.sent"@,
        event_of(job, subject, Ok(())).severity == EventSeverity::Info,
        event_of(job, subject, Err(error)).kind == "notification.failed"@,
        event_of(job, subject, Err(error)).severity == EventSeverity::Error,
        job matches dispatch::JobView::Email { to, .. } ==> event_of(job, subject, Ok(())).message
            == "Email sent to "@ + text::decimal(to.len()) + " recipient(s): "@ + subject,
        job matches dispatch::JobView::Sms { to, .. } ==> event_of(job, subject, Ok(())).message
            == "SMS sent to "@ + text::decimal(to.len()) + " recipient(s): "@ + subject,
        job matches dispatch::JobView::Webhook { config, .. } ==> event_of(
            job,
            subject,
            Ok(()),
        ).message == "Webhook sent ("@ + config.format@ + "): "@ + subject,
        job is Email ==> event_of(job, subject, Err(error)).message == "Email failed: "@ + subject
            + " — "@ + error,
        job is Sms ==> event_of(job, subject, Err(error)).message == "SMS failed: "@ + subject
            + " — "@ + error,
        job is Webhook ==> event_of(job, subject, Err(error)).message == "Webhook failed: "@
            + subject + " — "@ + error,
{
}

/// An event shows all of its parts, each under its own name.
pub proof fn event_shows_its_parts(event: LogEvent)
    ensures
        event@.kind == event.kind@,
        event@.severity == event.severity,
        event@.message == event.message@,
{
}

}
