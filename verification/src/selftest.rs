//! A test of the channels: one delivery over each that is on, and a report about all of them.
use vstd::prelude::*;
use crate::config;
use crate::config::{
    EmailConfig, NotificationRecipients, Setting, SettingKey, SmsConfig, WebhookConfig,
};
use crate::dispatch;
use crate::dispatch::{Job, Reading, WebhookJob};
use crate::email;
use crate::http;
use crate::sms;
use crate::text;

verus! {

/// The subject of test notifications.
pub const TEST_SUBJECT: &'static str = "[Kronforce] Test Notification";

/// The body of test notifications by email and webhook.
pub const TEST_BODY: &'static str = "This is a test notification from Kronforce.";

/// The text of test notifications by SMS.
pub const TEST_SMS: &'static str = "[Kronforce] Test notification";

/// What stands between the lines of the report.
pub const REPORT_SEPARATOR: &'static str = "; ";

/// What a test waits for.
pub enum TestStage {
    /// The stored recipients.
    Recipients,
    /// The email configuration.
    Email,
    /// The outcome of the email to this address.
    EmailSent(String),
    /// The SMS configuration.
    Sms,
    /// The outcome of the SMS to this number.
    SmsSent(String),
    /// The webhook configuration.
    Webhook,
    /// The outcome of the webhook with this format.
    WebhookSent(String),
    /// Nothing any more.
    Done,
}

/// What a test waits for, as plain values.
pub enum StageView {
    Recipients,
    Email,
    EmailSent(Seq<char>),
    Sms,
    SmsSent(Seq<char>),
    Webhook,
    WebhookSent(Seq<char>),
    Done,
}

impl View for TestStage {
    type V = StageView;

    open spec fn view(&self) -> StageView {
        match self {
            TestStage::Recipients => StageView::Recipients,
            TestStage::Email => StageView::Email,
            TestStage::EmailSent(first) => StageView::EmailSent(first@),
            TestStage::Sms => StageView::Sms,
            TestStage::SmsSent(first) => StageView::SmsSent(first@),
            TestStage::Webhook => StageView::Webhook,
            TestStage::WebhookSent(format) => StageView::WebhookSent(format@),
            TestStage::Done => StageView::Done,
        }
    }
}

/// A test of the channels under way.
pub struct TestRun {
    pub recipients: NotificationRecipients,
    /// The lines of the report so far.
    pub lines: Vec<String>,
    pub stage: TestStage,
}

/// A test as plain values.
pub struct TestView {
    pub recipients: config::RecipientsView,
    pub lines: Seq<Seq<char>>,
    pub stage: StageView,
}

impl View for TestRun {
    type V = TestView;

    open spec fn view(&self) -> TestView {
        TestView {
            recipients: self.recipients@,
            lines: text::texts_of(self.lines@),
            stage: self.stage@,
        }
    }
}

/// What happens to a test.
pub enum TestEvent {
    /// A setting was read.
    Read(Reading),
    /// A delivery is over.
    Delivered(Result<(), String>),
}

/// What a test does next.
pub enum TestAction {
    /// Read this setting.
    Read(SettingKey),
    /// Make this delivery.
    Deliver(Job),
    /// The test is over; this is its report.
    Finish(String),
}

/// An action as plain values.
pub enum ActionView {
    Read(SettingKey),
    Deliver(dispatch::JobView),
    Finish(Seq<char>),
}

impl View for TestAction {
    type V = ActionView;

    open spec fn view(&self) -> ActionView {
        match self {
            TestAction::Read(setting) => ActionView::Read(*setting),
            TestAction::Deliver(job) => ActionView::Deliver(job@),
            TestAction::Finish(report) => ActionView::Finish(report@),
        }
    }
}

/// `action` is this one, and a delivery has nothing sent yet; or there is none.
pub open spec fn is_action(action: Option<TestAction>, expected: Option<ActionView>) -> bool {
    match (action, expected) {
        (Some(action), Some(expected)) => action@ == expected && match action {
            TestAction::Deliver(job) => job.fresh(),
            _ => true,
        },
        (None, None) => true,
        _ => false,
    }
}

/// The line of the report about a delivery of which `sent` tells the success and `failed` leads
/// in the error.
pub open spec fn outcome_line(
    sent: Seq<char>,
    failed: Seq<char>,
    outcome: Result<(), Seq<char>>,
) -> Seq<char> {
    match outcome {
        Ok(_) => sent,
        Err(error) => failed + error,
    }
}

/// The line about an email that was tried.
pub open spec fn email_line(first: Seq<char>, outcome: Result<(), Seq<char>>) -> Seq<char> {
    outcome_line("Email sent to "@ + first, "Email failed: "@, outcome)
}

/// The line about an SMS that was tried.
pub open spec fn sms_line(first: Seq<char>, outcome: Result<(), Seq<char>>) -> Seq<char> {
    outcome_line("SMS sent to "@ + first, "SMS failed: "@, outcome)
}

/// The line about a webhook that was tried.
pub open spec fn webhook_line(format: Seq<char>, outcome: Result<(), Seq<char>>) -> Seq<char> {
    outcome_line("Webhook sent ("@ + format + ")"@, "Webhook failed: "@, outcome)
}

/// The report of a test.
pub open spec fn report(lines: Seq<Seq<char>>) -> Seq<char> {
    text::join(lines, REPORT_SEPARATOR@)
}

/// The test after a line about email, which goes on with SMS.
pub open spec fn past_email(t: TestView, line: Seq<char>) -> (TestView, Option<ActionView>) {
    (
        TestView { lines: t.lines.push(line), stage: StageView::Sms, ..t },
        Some(ActionView::Read(SettingKey::Sms)),
    )
}

/// The test after a line about SMS, which goes on with the webhook.
pub open spec fn past_sms(t: TestView, line: Seq<char>) -> (TestView, Option<ActionView>) {
    (
        TestView { lines: t.lines.push(line), stage: StageView::Webhook, ..t },
        Some(ActionView::Read(SettingKey::Webhook)),
    )
}

/// The test after a line about the webhook, which is the last.
pub open spec fn past_webhook(t: TestView, line: Seq<char>) -> (TestView, Option<ActionView>) {
    (
        TestView { lines: t.lines.push(line), stage: StageView::Done, ..t },
        Some(ActionView::Finish(report(t.lines.push(line)))),
    )
}

/// The test once the email configuration is known: the first address gets an email.
pub open spec fn test_email(t: TestView, setting: Setting<EmailConfig>) -> (
    TestView,
    Option<ActionView>,
) {
    match config::active_email(setting) {
        Some(config) => if t.recipients.emails.len() > 0 {
            (
                TestView { stage: StageView::EmailSent(t.recipients.emails[0]@), ..t },
                Some(
                    ActionView::Deliver(
                        dispatch::JobView::Email {
                            config,
                            to: seq![t.recipients.emails[0]],
                            subject: TEST_SUBJECT@,
                            body: TEST_BODY@,
                        },
                    ),
                ),
            )
        } else {
            past_email(t, "Email enabled but no recipients configured"@)
        },
        None => past_email(t, "Email channel not enabled"@),
    }
}

/// The test once the SMS configuration is known: the first phone number gets an SMS.
pub open spec fn test_sms(t: TestView, setting: Setting<SmsConfig>) -> (
    TestView,
    Option<ActionView>,
) {
    match config::active_sms(setting) {
        Some(config) => if t.recipients.phones.len() > 0 {
            (
                TestView { stage: StageView::SmsSent(t.recipients.phones[0]@), ..t },
                Some(
                    ActionView::Deliver(
                        dispatch::JobView::Sms {
                            config,
                            to: seq![t.recipients.phones[0]],
                            body: TEST_SMS@,
                        },
                    ),
                ),
            )
        } else {
            past_sms(t, "SMS enabled but no recipients configured"@)
        },
        None => past_sms(t, "SMS channel not enabled"@),
    }
}

/// The test once the webhook configuration is known.
pub open spec fn test_webhook(t: TestView, setting: Setting<WebhookConfig>) -> (
    TestView,
    Option<ActionView>,
) {
    match config::active_webhook(setting) {
        Some(config) => (
            TestView { stage: StageView::WebhookSent(config.format@), ..t },
            Some(
                ActionView::Deliver(
                    dispatch::JobView::Webhook {
                        config,
                        subject: TEST_SUBJECT@,
                        body: TEST_BODY@,
                        context: None,
                    },
                ),
            ),
        ),
        None => past_webhook(t, "Webhook channel not enabled"@),
    }
}

/// An event as plain values.
pub enum EventView {
    Read(Reading),
    Delivered(Result<(), Seq<char>>),
}

impl View for TestEvent {
    type V = EventView;

    open spec fn view(&self) -> EventView {
        match self {
            TestEvent::Read(reading) => EventView::Read(*reading),
            TestEvent::Delivered(outcome) => EventView::Delivered(http::outcome_text(*outcome)),
        }
    }
}

/// What an event leads to. An event out of turn changes nothing.
pub open spec fn step(t: TestView, event: EventView) -> (TestView, Option<ActionView>) {
    match (t.stage, event) {
        (StageView::Recipients, EventView::Read(Reading::Recipients(setting))) => (
            TestView {
                recipients: config::stored_recipients(setting),
                stage: StageView::Email,
                ..t
            },
            Some(ActionView::Read(SettingKey::Email)),
        ),
        (StageView::Email, EventView::Read(Reading::Email(setting))) => test_email(t, setting),
        (StageView::EmailSent(first), EventView::Delivered(outcome)) => past_email(
            t,
            email_line(first, outcome),
        ),
        (StageView::Sms, EventView::Read(Reading::Sms(setting))) => test_sms(t, setting),
        (StageView::SmsSent(first), EventView::Delivered(outcome)) => past_sms(
            t,
            sms_line(first, outcome),
        ),
        (StageView::Webhook, EventView::Read(Reading::Webhook(setting))) => test_webhook(
            t,
            setting,
        ),
        (StageView::WebhookSent(format), EventView::Delivered(outcome)) => past_webhook(
            t,
            webhook_line(format, outcome),
        ),
        _ => (t, None),
    }
}

/// A test that has not begun.
pub open spec fn fresh_test() -> TestView {
    TestView {
        recipients: config::no_recipients(),
        lines: Seq::empty(),
        stage: StageView::Recipients,
    }
}

/// Starts to send a test notification to verify channel configuration; the recipients are read
/// first.
pub fn send_test() -> (first: (TestRun, TestAction))
    ensures
        first.0@ == fresh_test(),
        first.1@ == ActionView::Read(SettingKey::Recipients),
{
    let run = TestRun {
        recipients: NotificationRecipients::default(),
        lines: Vec::new(),
        stage: TestStage::Recipients,
    };
    assert(run@.lines =~= Seq::empty());
    (run, TestAction::Read(SettingKey::Recipients))
}

/// Words the line of the report about a delivery.
fn word_outcome(sent: String, failed: &str, outcome: Result<(), String>) -> (line: String)
    ensures
        line@ == outcome_line(sent@, failed@, http::outcome_text(outcome)),
{
    match outcome {
        Ok(_) => sent,
        Err(error) => {
            let mut line = failed.to_string();
            line.append(error.as_str());
            line
        },
    }
}

impl TestRun {
    /// Adds a line to the report and waits for what comes next.
    fn with_line(self, line: String, stage: TestStage) -> (run: TestRun)
        ensures
            run@ == (TestView { lines: self@.lines.push(line@), stage: stage@, ..self@ }),
    {
        let TestRun { recipients, mut lines, stage: _ } = self;
        lines.push(line);
        let run = TestRun { recipients, lines, stage };
        assert(run@.lines =~= self@.lines.push(line@));
        run
    }

    /// Goes on with SMS after a line about email.
    fn after_email(self, line: String) -> (next: (TestRun, Option<TestAction>))
        ensures
            next.0@ == past_email(self@, line@).0,
            is_action(next.1, past_email(self@, line@).1),
    {
        (self.with_line(line, TestStage::Sms), Some(TestAction::Read(SettingKey::Sms)))
    }

    /// Goes on with the webhook after a line about SMS.
    fn after_sms(self, line: String) -> (next: (TestRun, Option<TestAction>))
        ensures
            next.0@ == past_sms(self@, line@).0,
            is_action(next.1, past_sms(self@, line@).1),
    {
        (self.with_line(line, TestStage::Webhook), Some(TestAction::Read(SettingKey::Webhook)))
    }

    /// Ends the test after a line about the webhook.
    fn after_webhook(self, line: String) -> (next: (TestRun, Option<TestAction>))
        ensures
            next.0@ == past_webhook(self@, line@).0,
            is_action(next.1, past_webhook(self@, line@).1),
    {
        let run = self.with_line(line, TestStage::Done);
        let report = text::text_join(&run.lines, REPORT_SEPARATOR);
        (run, Some(TestAction::Finish(report)))
    }

    /// Goes on once the email configuration is known.
    fn on_email(self, setting: Setting<EmailConfig>) -> (next: (TestRun, Option<TestAction>))
        ensures
            next.0@ == test_email(self@, setting).0,
            is_action(next.1, test_email(self@, setting).1),
    {
        match config::load_email_config(setting) {
            Some(config) => if self.recipients.emails.len() > 0 {
                let first = self.recipients.emails[0].clone();
                let mut to: Vec<String> = Vec::new();
                to.push(first.clone());
                assert(to@ =~= seq![self.recipients.emails@[0]]);
                let run = email::send_email(
                    config,
                    to,
                    TEST_SUBJECT.to_string(),
                    TEST_BODY.to_string(),
                );
                (
                    TestRun {
                        recipients: self.recipients,
                        lines: self.lines,
                        stage: TestStage::EmailSent(first),
                    },
                    Some(TestAction::Deliver(Job::Email(run))),
                )
            } else {
                self.after_email("Email enabled but no recipients configured".to_string())
            },
            None => self.after_email("Email channel not enabled".to_string()),
        }
    }

    /// Goes on once the SMS configuration is known.
    fn on_sms(self, setting: Setting<SmsConfig>) -> (next: (TestRun, Option<TestAction>))
        ensures
            next.0@ == test_sms(self@, setting).0,
            is_action(next.1, test_sms(self@, setting).1),
    {
        match config::load_sms_config(setting) {
            Some(config) => if self.recipients.phones.len() > 0 {
                let first = self.recipients.phones[0].clone();
                let mut to: Vec<String> = Vec::new();
                to.push(first.clone());
                assert(to@ =~= seq![self.recipients.phones@[0]]);
                let run = sms::send_sms(config, to, TEST_SMS.to_string());
                (
                    TestRun {
                        recipients: self.recipients,
                        lines: self.lines,
                        stage: TestStage::SmsSent(first),
                    },
                    Some(TestAction::Deliver(Job::Sms(run))),
                )
            } else {
                self.after_sms("SMS enabled but no recipients configured".to_string())
            },
            None => self.after_sms("SMS channel not enabled".to_string()),
        }
    }

    /// Goes on once the webhook configuration is known.
    fn on_webhook(self, setting: Setting<WebhookConfig>) -> (next: (TestRun, Option<TestAction>))
        ensures
            next.0@ == test_webhook(self@, setting).0,
            is_action(next.1, test_webhook(self@, setting).1),
    {
        match config::load_webhook_config(setting) {
            Some(config) => {
                let format = config.format.clone();
                let job = WebhookJob {
                    config,
                    subject: TEST_SUBJECT.to_string(),
                    body: TEST_BODY.to_string(),
                    context: None,
                };
                (
                    TestRun {
                        recipients: self.recipients,
                        lines: self.lines,
                        stage: TestStage::WebhookSent(format),
                    },
                    Some(TestAction::Deliver(Job::Webhook(job))),
                )
            },
            None => self.after_webhook("Webhook channel not enabled".to_string()),
        }
    }

    /// Takes what happened, and tells what to do next; nothing, where it happened out of turn.
    pub fn on_event(self, event: TestEvent) -> (next: (TestRun, Option<TestAction>))
        ensures
            next.0@ == step(self@, event@).0,
            is_action(next.1, step(self@, event@).1),
    {
        match (&self.stage, event) {
            (TestStage::Recipients, TestEvent::Read(Reading::Recipients(setting))) => (
                TestRun {
                    recipients: config::load_recipients(setting),
                    lines: self.lines,
                    stage: TestStage::Email,
                },
                Some(TestAction::Read(SettingKey::Email)),
            ),
            (TestStage::Email, TestEvent::Read(Reading::Email(setting))) => self.on_email(setting),
            (TestStage::EmailSent(first), TestEvent::Delivered(outcome)) => {
                let mut sent = "Email sent to ".to_string();
                sent.append(first.as_str());
                self.after_email(word_outcome(sent, "Email failed: ", outcome))
            },
            (TestStage::Sms, TestEvent::Read(Reading::Sms(setting))) => self.on_sms(setting),
            (TestStage::SmsSent(first), TestEvent::Delivered(outcome)) => {
                let mut sent = "SMS sent to ".to_string();
                sent.append(first.as_str());
                self.after_sms(word_outcome(sent, "SMS failed: ", outcome))
            },
            (TestStage::Webhook, TestEvent::Read(Reading::Webhook(setting))) => self.on_webhook(
                setting,
            ),
            (TestStage::WebhookSent(format), TestEvent::Delivered(outcome)) => {
                let mut sent = "Webhook sent (".to_string();
                sent.append(format.as_str());
                sent.append(")");
                self.after_webhook(word_outcome(sent, "Webhook failed: ", outcome))
            },
            _ => (self, None),
        }
    }
}

/// The test after a reading, and after the delivery that it leads to, if it leads to one.
pub open spec fn step_through(
    t: TestView,
    reading: Reading,
    outcome: Result<(), Seq<char>>,
) -> (TestView, Option<ActionView>) {
    let read = step(t, EventView::Read(reading));
    if read.1 is Some && read.1->0 is Deliver {
        step(read.0, EventView::Delivered(outcome))
    } else {
        read
    }
}

/// The line of the report about email.
pub open spec fn report_on_email(
    recipients: config::RecipientsView,
    setting: Setting<EmailConfig>,
    outcome: Result<(), Seq<char>>,
) -> Seq<char> {
    if config::active_email(setting) is None {
        "Email channel not enabled"@
    } else if recipients.emails.len() == 0 {
        "Email enabled but no recipients configured"@
    } else {
        email_line(recipients.emails[0]@, outcome)
    }
}

/// The line of the report about SMS.
pub open spec fn report_on_sms(
    recipients: config::RecipientsView,
    setting: Setting<SmsConfig>,
    outcome: Result<(), Seq<char>>,
) -> Seq<char> {
    if config::active_sms(setting) is None {
        "SMS channel not enabled"@
    } else if recipients.phones.len() == 0 {
        "SMS enabled but no recipients configured"@
    } else {
        sms_line(recipients.phones[0]@, outcome)
    }
}

/// The line of the report about the webhook.
pub open spec fn report_on_webhook(
    setting: Setting<WebhookConfig>,
    outcome: Result<(), Seq<char>>,
) -> Seq<char> {
    match config::active_webhook(setting) {
        None => "Webhook channel not enabled"@,
        Some(config) => webhook_line(config.format@, outcome),
    }
}

/// From the start to the end a test comes to a report, whatever the deliveries come to: one line
/// each about email, SMS and the webhook, in this order.
pub proof fn report_covers_every_channel(
    stored: Setting<NotificationRecipients>,
    email: Setting<EmailConfig>,
    email_outcome: Result<(), Seq<char>>,
    sms: Setting<SmsConfig>,
    sms_outcome: Result<(), Seq<char>>,
    hook: Setting<WebhookConfig>,
    hook_outcome: Result<(), Seq<char>>,
)
    ensures
        ({
            let whom = config::stored_recipients(stored);
            let s0 = step(fresh_test(), EventView::Read(Reading::Recipients(stored)));
            let s1 = step_through(s0.0, Reading::Email(email), email_outcome);
            let s2 = step_through(s1.0, Reading::Sms(sms), sms_outcome);
            let s3 = step_through(s2.0, Reading::Webhook(hook), hook_outcome);
            &&& s3.0.stage == StageView::Done
            &&& s3.1 == Some(
                ActionView::Finish(
                    report_on_email(whom, email, email_outcome) + "; "@ + report_on_sms(
                        whom,
                        sms,
                        sms_outcome,
                    ) + "; "@ + report_on_webhook(hook, hook_outcome),
                ),
            )
        }),
{
    let whom = config::stored_recipients(stored);
    let a = report_on_email(whom, email, email_outcome);
    let b = report_on_sms(whom, sms, sms_outcome);
    let c = report_on_webhook(hook, hook_outcome);
    let lines = Seq::<Seq<char>>::empty().push(a).push(b).push(c);
    assert(lines.drop_last() =~= Seq::<Seq<char>>::empty().push(a).push(b));
    assert(lines.drop_last().drop_last() =~= Seq::<Seq<char>>::empty().push(a));
    reveal_with_fuel(text::join, 4);
    assert(report(lines) == a + "; "@ + b + "; "@ + c);
}

/// A test begins with the recipients, takes all of the stored ones, and goes on with email.
pub proof fn test_begins_with_the_recipients(stored: NotificationRecipients)
    ensures
        fresh_test().stage == StageView::Recipients,
        fresh_test().lines == Seq::<Seq<char>>::empty(),
        ({
            let next = step(
                fresh_test(),
                EventView::Read(Reading::Recipients(Setting::Value(stored))),
            );
            &&& next.0.recipients.emails == stored.emails@
            &&& next.0.recipients.phones == stored.phones@
            &&& next.0.lines == Seq::<Seq<char>>::empty()
            &&& next.0.stage == StageView::Email
            &&& next.1 == Some(ActionView::Read(SettingKey::Email))
        }),
{
}

/// The report has one line more, the recipients are the same, and this is what follows.
pub open spec fn adds_line(
    t: TestView,
    next: (TestView, Option<ActionView>),
    line: Seq<char>,
    stage: StageView,
    action: ActionView,
) -> bool {
    &&& next.0.recipients == t.recipients
    &&& next.0.lines == t.lines.push(line)
    &&& next.0.stage == stage
    &&& next.1 == Some(action)
}

/// An enabled email channel is tried with one message to the first address, and the report tells
/// that it was sent there, or why it was not. The report also tells where there is no address, and
/// where the channel is not enabled. The test goes on with SMS in every case.
pub proof fn email_is_tried_on_the_first_address(
    t: TestView,
    config: EmailConfig,
    setting: Setting<EmailConfig>,
    error: Seq<char>,
)
    requires
        t.stage == StageView::Email,
    ensures
        ({
            let tried = step(t, EventView::Read(Reading::Email(Setting::Value(config))));
            let sent = step(tried.0, EventView::Delivered(Ok(())));
            let failed = step(tried.0, EventView::Delivered(Err(error)));
            let first = t.recipients.emails[0];
            let usable = config.enabled && t.recipients.emails.len() > 0;
            &&& usable ==> tried.1 == Some(
                ActionView::Deliver(
                    dispatch::JobView::Email {
                        config,
                        to: seq![first],
                        subject: "[Kronforce] Test Notification"@,
                        body: "This is a test notification from Kronforce."@,
                    },
                ),
            )
            &&& usable ==> tried.0.lines == t.lines && tried.0.recipients == t.recipients
            &&& usable ==> adds_line(
                t,
                sent,
                "Email sent to "@ + first@,
                StageView::Sms,
                ActionView::Read(SettingKey::Sms),
            )
            &&& usable ==> adds_line(
                t,
                failed,
                "Email failed: "@ + error,
                StageView::Sms,
                ActionView::Read(SettingKey::Sms),
            )
            &&& config.enabled && t.recipients.emails.len() == 0 ==> adds_line(
                t,
                tried,
                "Email enabled but no recipients configured"@,
                StageView::Sms,
                ActionView::Read(SettingKey::Sms),
            )
            &&& !config.enabled ==> adds_line(
                t,
                tried,
                "Email channel not enabled"@,
                StageView::Sms,
                ActionView::Read(SettingKey::Sms),
            )
            &&& !(setting is Value) ==> adds_line(
                t,
                step(t, EventView::Read(Reading::Email(setting))),
                "Email channel not enabled"@,
                StageView::Sms,
                ActionView::Read(SettingKey::Sms),
            )
        }),
{
}

/// An enabled SMS channel is tried with one message to the first phone number, and the report
/// tells that it was sent there, or why it was not. The report also tells where there is no number,
/// and where the channel is not enabled. The test goes on with the webhook in every case.
pub proof fn sms_is_tried_on_the_first_number(
    t: TestView,
    config: SmsConfig,
    setting: Setting<SmsConfig>,
    error: Seq<char>,
)
    requires
        t.stage == StageView::Sms,
    ensures
        ({
            let tried = step(t, EventView::Read(Reading::Sms(Setting::Value(config))));
            let sent = step(tried.0, EventView::Delivered(Ok(())));
            let failed = step(tried.0, EventView::Delivered(Err(error)));
            let first = t.recipients.phones[0];
            let usable = config.enabled && t.recipients.phones.len() > 0;
            &&& usable ==> tried.1 == Some(
                ActionView::Deliver(
                    dispatch::JobView::Sms {
                        config,
                        to: seq![first],
                        body: "[Kronforce] Test notification"@,
                    },
                ),
            )
            &&& usable ==> tried.0.lines == t.lines && tried.0.recipients == t.recipients
            &&& usable ==> adds_line(
                t,
                sent,
                "SMS sent to "@ + first@,
                StageView::Webhook,
                ActionView::Read(SettingKey::Webhook),
            )
            &&& usable ==> adds_line(
                t,
                failed,
                "SMS failed: "@ + error,
                StageView::Webhook,
                ActionView::Read(SettingKey::Webhook),
            )
            &&& config.enabled && t.recipients.phones.len() == 0 ==> adds_line(
                t,
                tried,
                "SMS enabled but no recipients configured"@,
                StageView::Webhook,
                ActionView::Read(SettingKey::Webhook),
            )
            &&& !config.enabled ==> adds_line(
                t,
                tried,
                "SMS channel not enabled"@,
                StageView::Webhook,
                ActionView::Read(SettingKey::Webhook),
            )
            &&& !(setting is Value) ==> adds_line(
                t,
                step(t, EventView::Read(Reading::Sms(setting))),
                "SMS channel not enabled"@,
                StageView::Webhook,
                ActionView::Read(SettingKey::Webhook),
            )
        }),
{
}

/// An enabled webhook is tried with the test notification, and the report tells its format, or why
/// it was not sent. The report also tells where the channel is not enabled or has no address. The
/// test ends with its report in every case: the lines about email and SMS, and this one.
pub proof fn webhook_is_tried_last(
    t: TestView,
    config: WebhookConfig,
    setting: Setting<WebhookConfig>,
    error: Seq<char>,
    email_line: Seq<char>,
    sms_line: Seq<char>,
)
    requires
        t.stage == StageView::Webhook,
        t.lines == seq![email_line, sms_line],
    ensures
        ({
            let tried = step(t, EventView::Read(Reading::Webhook(Setting::Value(config))));
            let sent = step(tried.0, EventView::Delivered(Ok(())));
            let failed = step(tried.0, EventView::Delivered(Err(error)));
            let off = "Webhook channel not enabled"@;
            let on = config.enabled && config.url@.len() > 0;
            let before = email_line + "; "@ + sms_line + "; "@;
            &&& on ==> tried.1 == Some(
                ActionView::Deliver(
                    dispatch::JobView::Webhook {
                        config,
                        subject: "[Kronforce] Test Notification"@,
                        body: "This is a test notification from Kronforce."@,
                        context: None,
                    },
                ),
            )
            &&& on ==> sent.1 == Some(
                ActionView::Finish(before + ("Webhook sent ("@ + config.format@ + ")"@)),
            )
            &&& on ==> failed.1 == Some(
                ActionView::Finish(before + ("Webhook failed: "@ + error)),
            )
            &&& on ==> sent.0.stage == StageView::Done && failed.0.stage == StageView::Done
            &&& !on ==> tried.1 == Some(ActionView::Finish(before + off))
            &&& !on ==> tried.0.stage == StageView::Done
            &&& !(setting is Value) ==> step(t, EventView::Read(Reading::Webhook(setting))).1
                == Some(ActionView::Finish(before + off))
        }),
{
    assert forall|line: Seq<char>| #[trigger] report(t.lines.push(line)) == email_line + "; "@
        + sms_line + "; "@ + line by {
        let lines = t.lines.push(line);
        assert(lines.drop_last() =~= t.lines);
        assert(t.lines.drop_last() =~= seq![email_line]);
        reveal_with_fuel(text::join, 4);
    }
}

/// An event out of turn changes nothing and leads to nothing.
pub proof fn events_out_of_turn_are_ignored(t: TestView, event: EventView)
    requires
        match event {
            EventView::Read(Reading::Recipients(_)) => !(t.stage is Recipients),
            EventView::Read(Reading::Email(_)) => !(t.stage is Email),
            EventView::Read(Reading::Sms(_)) => !(t.stage is Sms),
            EventView::Read(Reading::Webhook(_)) => !(t.stage is Webhook),
            EventView::Delivered(_) => !(t.stage is EmailSent || t.stage is SmsSent
                || t.stage is WebhookSent),
        },
    ensures
        step(t, event) == (t, None::<ActionView>),
{
}

/// A test, an event and an action show all of their parts, each as what it is.
pub proof fn test_shows_its_parts(
    run: TestRun,
    text: String,
    reading: Reading,
    outcome: Result<(), String>,
    setting: SettingKey,
    job: Job,
)
    ensures
        run@.recipients.emails == run.recipients.emails@,
        run@.recipients.phones == run.recipients.phones@,
        run@.lines.len() == run.lines@.len(),
        forall|i: int| 0 <= i < run.lines@.len() ==> #[trigger] run@.lines[i] == run.lines@[i]@,
        run@.stage == run.stage@,
        TestStage::Recipients@ == StageView::Recipients,
        TestStage::Email@ == StageView::Email,
        TestStage::EmailSent(text)@ == StageView::EmailSent(text@),
        TestStage::Sms@ == StageView::Sms,
        TestStage::SmsSent(text)@ == StageView::SmsSent(text@),
        TestStage::Webhook@ == StageView::Webhook,
        TestStage::WebhookSent(text)@ == StageView::WebhookSent(text@),
        TestStage::Done@ == StageView::Done,
        TestEvent::Read(reading)@ == EventView::Read(reading),
        TestEvent::Delivered(outcome)@ == EventView::Delivered(http::outcome_text(outcome)),
        TestAction::Read(setting)@ == ActionView::Read(setting),
        TestAction::Deliver(job)@ == ActionView::Deliver(job@),
        TestAction::Finish(text)@ == ActionView::Finish(text@),
{
}

/// An action is the expected one just where it shows the same and a delivery has nothing sent yet,
/// and none is expected just where there is none.
pub proof fn expected_action_is_exact(action: TestAction, expected: ActionView)
    ensures
        is_action(Some(action), Some(expected)) <==> action@ == expected && (
        action matches TestAction::Deliver(job) ==> job.fresh()),
        !is_action(Some(action), None),
        !is_action(None, Some(expected)),
        is_action(None, None),
{
}

/// Whatever the test has been through, the outcome of a delivery becomes the next line of its
/// report: where it was sent to, or why it was not. After the webhook the report is all of the
/// lines, with a semicolon between each two.
pub proof fn outcome_becomes_a_line(t: TestView, error: Seq<char>)
    ensures
        t.stage matches StageView::EmailSent(first) ==> {
            &&& adds_line(
                t,
                step(t, EventView::Delivered(Ok(()))),
                "Email sent to "@ + first,
                StageView::Sms,
                ActionView::Read(SettingKey::Sms),
            )
            &&& adds_line(
                t,
                step(t, EventView::Delivered(Err(error))),
                "Email failed: "@ + error,
                StageView::Sms,
                ActionView::Read(SettingKey::Sms),
            )
        },
        t.stage matches StageView::SmsSent(first) ==> {
            &&& adds_line(
                t,
                step(t, EventView::Delivered(Ok(()))),
                "SMS sent to "@ + first,
                StageView::Webhook,
                ActionView::Read(SettingKey::Webhook),
            )
            &&& adds_line(
                t,
                step(t, EventView::Delivered(Err(error))),
                "SMS failed: "@ + error,
                StageView::Webhook,
                ActionView::Read(SettingKey::Webhook),
            )
        },
        t.stage matches StageView::WebhookSent(format) ==> {
            &&& adds_line(
                t,
                step(t, EventView::Delivered(Ok(()))),
                "Webhook sent ("@ + format + ")"@,
                StageView::Done,
                ActionView::Finish(
                    text::join(t.lines.push("Webhook sent ("@ + format + ")"@), "; "@),
                ),
            )
            &&& adds_line(
                t,
                step(t, EventView::Delivered(Err(error))),
                "Webhook failed: "@ + error,
                StageView::Done,
                ActionView::Finish(text::join(t.lines.push("Webhook failed: "@ + error), "; "@)),
            )
        },
{
}

/// A test whose recipients cannot be read goes on without any.
pub proof fn test_goes_on_without_recipients(setting: Setting<NotificationRecipients>)
    requires
        !(setting is Value),
    ensures
        ({
            let next = step(fresh_test(), EventView::Read(Reading::Recipients(setting)));
            &&& next.0.recipients.emails.len() == 0
            &&& next.0.recipients.phones.len() == 0
            &&& next.0.lines == Seq::<Seq<char>>::empty()
            &&& next.0.stage == StageView::Email
            &&& next.1 == Some(ActionView::Read(SettingKey::Email))
        }),
{
}

/// A test starts with nothing to report, and by asking for the recipients.
pub proof fn test_starts_by_asking_for_recipients(first: (TestRun, TestAction))
    requires
        call_ensures(send_test, (), first),
    ensures
        first.0.lines@.len() == 0,
        first.0.recipients.emails@.len() == 0,
        first.0.recipients.phones@.len() == 0,
        first.0.stage is Recipients,
        first.1 == TestAction::Read(SettingKey::Recipients),
{
    assert(first.0@.lines.len() == 0);
    assert(first.0.stage@ == StageView::Recipients);
}

}
