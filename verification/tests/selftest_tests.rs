use kronforce_notifications::config::{Setting, SettingKey};
use kronforce_notifications::dispatch::{Job, Reading};
use kronforce_notifications::selftest::{TestAction, TestEvent, TestRun};
use kronforce_notifications::{
    send_test, EmailConfig, NotificationRecipients, SmsConfig, WebhookConfig,
};

fn email() -> EmailConfig {
    EmailConfig {
        enabled: true,
        smtp_host: "smtp.example.com".to_string(),
        smtp_port: 587,
        username: "user".to_string(),
        password: "pass".to_string(),
        from: "k@example.com".to_string(),
        tls: true,
    }
}

fn sms() -> SmsConfig {
    SmsConfig {
        enabled: true,
        webhook_url: "https://sms.example.com".to_string(),
        auth_user: None,
        auth_pass: None,
        from_number: None,
    }
}

fn webhook() -> WebhookConfig {
    WebhookConfig {
        enabled: true,
        url: "https://hooks.example.com".to_string(),
        format: "slack".to_string(),
        headers: vec![],
        template: None,
    }
}

fn read(run: TestRun, reading: Reading) -> (TestRun, TestAction) {
    let (run, action) = run.on_event(TestEvent::Read(reading));
    (run, action.unwrap())
}

fn delivered(run: TestRun, outcome: Result<(), String>) -> (TestRun, TestAction) {
    let (run, action) = run.on_event(TestEvent::Delivered(outcome));
    (run, action.unwrap())
}

fn wants(action: &TestAction, setting: SettingKey) -> bool {
    match action {
        TestAction::Read(wanted) => *wanted == setting,
        _ => false,
    }
}

fn started(emails: &[&str], phones: &[&str]) -> TestRun {
    let (run, action) = send_test();
    assert!(wants(&action, SettingKey::Recipients));
    let recipients = NotificationRecipients {
        emails: emails.iter().map(|s| s.to_string()).collect(),
        phones: phones.iter().map(|s| s.to_string()).collect(),
    };
    let (run, action) = read(run, Reading::Recipients(Setting::Value(recipients)));
    assert!(wants(&action, SettingKey::Email));
    run
}

fn report(action: TestAction) -> String {
    match action {
        TestAction::Finish(report) => report,
        _ => panic!("not finished"),
    }
}

#[test]
fn all_channels_are_tried() {
    let run = started(&["a@example.com", "b@example.com"], &["+1", "+2"]);
    let (run, action) = read(run, Reading::Email(Setting::Value(email())));
    match action {
        TestAction::Deliver(Job::Email(job)) => {
            assert_eq!(job.to, vec!["a@example.com".to_string()]);
            assert_eq!(job.subject, "[Kronforce] Test Notification");
            assert_eq!(job.body, "This is a test notification from Kronforce.");
        }
        _ => panic!("no email"),
    }
    let (run, action) = delivered(run, Ok(()));
    assert!(wants(&action, SettingKey::Sms));
    let (run, action) = read(run, Reading::Sms(Setting::Value(sms())));
    match action {
        TestAction::Deliver(Job::Sms(job)) => {
            assert_eq!(job.to, vec!["+1".to_string()]);
            assert_eq!(job.body, "[Kronforce] Test notification");
        }
        _ => panic!("no sms"),
    }
    let (run, action) = delivered(run, Ok(()));
    assert!(wants(&action, SettingKey::Webhook));
    let (run, action) = read(run, Reading::Webhook(Setting::Value(webhook())));
    match action {
        TestAction::Deliver(Job::Webhook(job)) => {
            assert_eq!(job.subject, "[Kronforce] Test Notification");
            assert_eq!(job.body, "This is a test notification from Kronforce.");
            assert!(job.context.is_none());
        }
        _ => panic!("no webhook"),
    }
    let (_, action) = delivered(run, Ok(()));
    assert_eq!(
        report(action),
        "Email sent to a@example.com; SMS sent to +1; Webhook sent (slack)"
    );
}

#[test]
fn failures_are_reported() {
    let run = started(&["a@example.com"], &["+1"]);
    let (run, _) = read(run, Reading::Email(Setting::Value(email())));
    let (run, _) = delivered(run, Err("e1".to_string()));
    let (run, _) = read(run, Reading::Sms(Setting::Value(sms())));
    let (run, _) = delivered(run, Err("e2".to_string()));
    let (run, _) = read(run, Reading::Webhook(Setting::Value(webhook())));
    let (_, action) = delivered(run, Err("e3".to_string()));
    assert_eq!(report(action), "Email failed: e1; SMS failed: e2; Webhook failed: e3");
}

#[test]
fn channels_that_are_off_are_reported() {
    let run = started(&["a@example.com"], &["+1"]);
    let (run, action) = read(run, Reading::Email(Setting::Missing));
    assert!(wants(&action, SettingKey::Sms));
    let (run, action) = read(run, Reading::Sms(Setting::Unreadable));
    assert!(wants(&action, SettingKey::Webhook));
    let (_, action) = read(run, Reading::Webhook(Setting::Malformed));
    assert_eq!(
        report(action),
        "Email channel not enabled; SMS channel not enabled; Webhook channel not enabled"
    );
}

#[test]
fn missing_recipients_are_reported() {
    let run = started(&[], &[]);
    let (run, _) = read(run, Reading::Email(Setting::Value(email())));
    let (run, _) = read(run, Reading::Sms(Setting::Value(sms())));
    let (_, action) = read(run, Reading::Webhook(Setting::Missing));
    assert_eq!(
        report(action),
        "Email enabled but no recipients configured; SMS enabled but no recipients configured; Webhook channel not enabled"
    );
}

#[test]
fn events_out_of_turn_change_nothing() {
    let run = started(&["a@example.com"], &["+1"]);
    let (run, action) = run.on_event(TestEvent::Delivered(Ok(())));
    assert!(action.is_none());
    let (run, action) = run.on_event(TestEvent::Read(Reading::Sms(Setting::Missing)));
    assert!(action.is_none());
    let (run, action) = read(run, Reading::Email(Setting::Value(email())));
    assert!(matches!(action, TestAction::Deliver(_)));
    assert!(run.lines.is_empty());
}
