use kronforce_notifications::config::{Setting, SettingKey};
use kronforce_notifications::dispatch::{Dispatch, Job, Reading, Stage};
use kronforce_notifications::events::{delivery_event, EventSeverity};
use kronforce_notifications::{
    send_notification, EmailConfig, NotificationRecipients, SmsConfig, WebhookConfig,
    WebhookContext,
};

fn email() -> Setting<EmailConfig> {
    Setting::Value(EmailConfig {
        enabled: true,
        smtp_host: "smtp.example.com".to_string(),
        smtp_port: 587,
        username: "user".to_string(),
        password: "pass".to_string(),
        from: "k@example.com".to_string(),
        tls: true,
    })
}

fn sms() -> Setting<SmsConfig> {
    Setting::Value(SmsConfig {
        enabled: true,
        webhook_url: "https://sms.example.com".to_string(),
        auth_user: None,
        auth_pass: None,
        from_number: None,
    })
}

fn webhook() -> Setting<WebhookConfig> {
    Setting::Value(WebhookConfig {
        enabled: true,
        url: "https://hooks.example.com".to_string(),
        format: "teams".to_string(),
        headers: vec![],
        template: None,
    })
}

fn recipients(emails: &[&str], phones: &[&str]) -> NotificationRecipients {
    NotificationRecipients {
        emails: emails.iter().map(|s| s.to_string()).collect(),
        phones: phones.iter().map(|s| s.to_string()).collect(),
    }
}

fn started(own: Option<&NotificationRecipients>) -> Dispatch {
    send_notification("Subj", "Body", own, None)
}

#[test]
fn own_recipients_come_first() {
    let own = recipients(&[], &["+1"]);
    let dispatch = started(Some(&own));
    assert_eq!(dispatch.wants(), Some(SettingKey::Email));
    assert_eq!(dispatch.recipients.phones, vec!["+1".to_string()]);
    assert_eq!(started(None).wants(), Some(SettingKey::Recipients));
    assert_eq!(
        started(Some(&recipients(&[], &[]))).wants(),
        Some(SettingKey::Recipients)
    );
}

#[test]
fn every_active_channel_gets_a_delivery() {
    let stored = recipients(&["a@example.com", "b@example.com"], &["+1"]);
    let (d, job) = started(None).on_setting(Reading::Recipients(Setting::Value(stored)), "T");
    assert!(job.is_none());
    assert_eq!(d.wants(), Some(SettingKey::Email));
    let (d, job) = d.on_setting(Reading::Email(email()), "T");
    match job {
        Some(Job::Email(run)) => {
            assert_eq!(run.to, vec!["a@example.com".to_string(), "b@example.com".to_string()]);
            assert_eq!(run.subject, "Subj");
            assert_eq!(run.body, "Body");
            assert_eq!(run.config.smtp_port, 587);
            assert_eq!(run.sent, 0);
        }
        _ => panic!("no email"),
    }
    assert_eq!(d.wants(), Some(SettingKey::Sms));
    let (d, job) = d.on_setting(Reading::Sms(sms()), "T");
    match job {
        Some(Job::Sms(run)) => {
            assert_eq!(run.to, vec!["+1".to_string()]);
            assert_eq!(run.body, "Body");
        }
        _ => panic!("no sms"),
    }
    assert_eq!(d.wants(), Some(SettingKey::Webhook));
    let (d, job) = d.on_setting(Reading::Webhook(webhook()), "T");
    match job {
        Some(Job::Webhook(job)) => {
            assert_eq!(job.config.format, "teams");
            assert_eq!(job.subject, "Subj");
            assert_eq!(job.body, "Body");
            let context = job.context.unwrap();
            assert_eq!(context.subject, "Subj");
            assert_eq!(context.body, "Body");
            assert_eq!(context.timestamp, "T");
            assert!(context.job_name.is_none());
        }
        _ => panic!("no webhook"),
    }
    assert_eq!(d.wants(), None);
    assert_eq!(d.stage, Stage::Done);
}

#[test]
fn inactive_channels_get_nothing() {
    let own = recipients(&["a@example.com"], &["+1"]);
    let (d, job) = started(Some(&own)).on_setting(Reading::Email(Setting::Missing), "T");
    assert!(job.is_none());
    let (d, job) = d.on_setting(Reading::Sms(Setting::Malformed), "T");
    assert!(job.is_none());
    let (d, job) = d.on_setting(Reading::Webhook(Setting::Unreadable), "T");
    assert!(job.is_none());
    assert_eq!(d.wants(), None);
}

#[test]
fn channels_without_recipients_get_nothing() {
    let own = recipients(&["a@example.com"], &[]);
    let (d, job) = started(Some(&own)).on_setting(Reading::Email(email()), "T");
    assert!(job.is_some());
    let (_, job) = d.on_setting(Reading::Sms(sms()), "T");
    assert!(job.is_none());
    let own = recipients(&[], &["+1"]);
    let (d, job) = started(Some(&own)).on_setting(Reading::Email(email()), "T");
    assert!(job.is_none());
    let (_, job) = d.on_setting(Reading::Sms(sms()), "T");
    assert!(job.is_some());
}

#[test]
fn given_context_is_passed_on() {
    let own = recipients(&["a@example.com"], &[]);
    let context = WebhookContext {
        subject: "Other".to_string(),
        job_name: Some("job".to_string()),
        timestamp: "then".to_string(),
        ..Default::default()
    };
    let d = send_notification("Subj", "Body", Some(&own), Some(context));
    let (d, _) = d.on_setting(Reading::Email(Setting::Missing), "T");
    let (d, _) = d.on_setting(Reading::Sms(Setting::Missing), "T");
    let (_, job) = d.on_setting(Reading::Webhook(webhook()), "T");
    match job {
        Some(Job::Webhook(job)) => {
            let context = job.context.unwrap();
            assert_eq!(context.subject, "Other");
            assert_eq!(context.timestamp, "then");
            assert_eq!(context.job_name, Some("job".to_string()));
        }
        _ => panic!("no webhook"),
    }
}

#[test]
fn made_up_context_has_the_present_time() {
    let own = recipients(&["a@example.com"], &[]);
    let (d, _) = started(Some(&own)).advance(Reading::Email(Setting::Missing));
    let (d, _) = d.advance(Reading::Sms(Setting::Missing));
    let before = chrono::Utc::now();
    let (_, job) = d.advance(Reading::Webhook(webhook()));
    match job {
        Some(Job::Webhook(job)) => {
            let stamp = job.context.unwrap().timestamp;
            let at = chrono::DateTime::parse_from_rfc3339(&stamp).unwrap();
            assert!(before <= at && at <= chrono::Utc::now());
        }
        _ => panic!("no webhook"),
    }
}

#[test]
fn readings_out_of_turn_change_nothing() {
    let own = recipients(&["a@example.com"], &["+1"]);
    let (d, job) = started(Some(&own)).on_setting(Reading::Sms(sms()), "T");
    assert!(job.is_none());
    assert_eq!(d.stage, Stage::Email);
    assert_eq!(d.recipients.emails.len(), 1);
}

fn jobs() -> Vec<Job> {
    let own = recipients(&["a@example.com", "b@example.com"], &["+1"]);
    let (d, a) = started(Some(&own)).on_setting(Reading::Email(email()), "T");
    let (d, b) = d.on_setting(Reading::Sms(sms()), "T");
    let (_, c) = d.on_setting(Reading::Webhook(webhook()), "T");
    vec![a.unwrap(), b.unwrap(), c.unwrap()]
}

#[test]
fn successes_are_logged() {
    let expected = [
        "Email sent to 2 recipient(s): Subj",
        "SMS sent to 1 recipient(s): Subj",
        "Webhook sent (teams): Subj",
    ];
    for (job, message) in jobs().iter().zip(expected) {
        let event = delivery_event(job, "Subj", &Ok(()));
        assert_eq!(event.kind, "notification.sent");
        assert_eq!(event.severity, EventSeverity::Info);
        assert_eq!(event.message, message);
    }
}

#[test]
fn failures_are_logged() {
    let expected = [
        "Email failed: Subj — why",
        "SMS failed: Subj — why",
        "Webhook failed: Subj — why",
    ];
    for (job, message) in jobs().iter().zip(expected) {
        let event = delivery_event(job, "Subj", &Err("why".to_string()));
        assert_eq!(event.kind, "notification.failed");
        assert_eq!(event.severity, EventSeverity::Error);
        assert_eq!(event.message, message);
    }
}
