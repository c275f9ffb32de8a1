use kronforce_notifications::clock::{now_rfc3339, now_stamp};
use kronforce_notifications::completion::{
    completion_notice, notice_subject, output_can_be_cut, wants_notice, wants_output,
    ExecutionStatus, JobNotificationConfig,
};
use kronforce_notifications::config::SettingKey;
use kronforce_notifications::dispatch::Dispatch;
use kronforce_notifications::webhook::color_for;
use kronforce_notifications::{notify_execution_complete, NotificationRecipients};

fn config(email_output: Option<&str>) -> JobNotificationConfig {
    JobNotificationConfig {
        on_failure: true,
        on_success: true,
        on_assertion_failure: false,
        email_output: email_output.map(|s| s.to_string()),
        recipients: None,
    }
}

fn notice(notif: &JobNotificationConfig, status: &ExecutionStatus, excerpt: &str) -> Dispatch {
    completion_notice(notif, "job", "id1", status, excerpt, "out", "err", "STAMP", "TS").unwrap()
}

#[test]
fn notices_follow_the_configuration() {
    let mut c = config(None);
    c.on_failure = false;
    c.on_success = false;
    for status in [
        ExecutionStatus::Succeeded,
        ExecutionStatus::Failed,
        ExecutionStatus::TimedOut,
        ExecutionStatus::Other("Cancelled".to_string()),
    ] {
        assert!(!wants_notice(&c, &status));
    }
    c.on_assertion_failure = true;
    assert!(wants_notice(&c, &ExecutionStatus::Failed));
    assert!(wants_notice(&c, &ExecutionStatus::TimedOut));
    assert!(!wants_notice(&c, &ExecutionStatus::Succeeded));
    c.on_assertion_failure = false;
    c.on_failure = true;
    assert!(wants_notice(&c, &ExecutionStatus::TimedOut));
    c.on_success = true;
    assert!(wants_notice(&c, &ExecutionStatus::Succeeded));
    assert!(!wants_notice(&c, &ExecutionStatus::Other("Cancelled".to_string())));
}

#[test]
fn output_follows_the_configuration() {
    assert!(wants_output(&config(Some("always")), &ExecutionStatus::Succeeded));
    assert!(wants_output(&config(Some("failure")), &ExecutionStatus::Failed));
    assert!(wants_output(&config(Some("failure")), &ExecutionStatus::TimedOut));
    assert!(!wants_output(&config(Some("failure")), &ExecutionStatus::Succeeded));
    assert!(!wants_output(&config(Some("Always")), &ExecutionStatus::Failed));
    assert!(!wants_output(&config(None), &ExecutionStatus::Failed));
}

#[test]
fn subjects_word_the_end() {
    assert_eq!(
        notice_subject("nightly", &ExecutionStatus::Succeeded),
        "[Kronforce] Job 'nightly' succeeded"
    );
    assert_eq!(
        notice_subject("nightly", &ExecutionStatus::Failed),
        "[Kronforce] Job 'nightly' failed"
    );
    assert_eq!(
        notice_subject("nightly", &ExecutionStatus::TimedOut),
        "[Kronforce] Job 'nightly' timed out"
    );
    assert_eq!(
        notice_subject("nightly", &ExecutionStatus::Other("Skipped".to_string())),
        "[Kronforce] Job 'nightly' completed"
    );
}

#[test]
fn subjects_color_the_end() {
    assert_eq!(color_for(&notice_subject("n", &ExecutionStatus::Succeeded)), 0x2ECC71);
    assert_eq!(color_for(&notice_subject("n", &ExecutionStatus::TimedOut)), 0xF39C12);
    assert_eq!(color_for(&notice_subject("n", &ExecutionStatus::Failed)), 0xE74C3C);
    assert_eq!(color_for(&notice_subject("succeeded", &ExecutionStatus::Failed)), 0x2ECC71);
}

#[test]
fn body_with_output() {
    let d = notice(&config(Some("always")), &ExecutionStatus::Succeeded, "excerpt");
    assert_eq!(d.subject, "[Kronforce] Job 'job' succeeded");
    assert_eq!(
        d.body,
        "Job: job\nStatus: Succeeded\nExecution: id1\nTime: STAMP\n\n--- Output ---\nout\n\n--- Error ---\nerr\n"
    );
}

#[test]
fn body_with_excerpt() {
    let d = notice(&config(None), &ExecutionStatus::TimedOut, "excerpt");
    assert_eq!(
        d.body,
        "Job: job\nStatus: TimedOut\nExecution: id1\nTime: STAMP\n\nError output:\nexcerpt"
    );
}

#[test]
fn body_with_nothing_to_show() {
    let d = notice(&config(None), &ExecutionStatus::Failed, "");
    assert_eq!(d.body, "Job: job\nStatus: Failed\nExecution: id1\nTime: STAMP\n");
    let d = completion_notice(
        &config(Some("always")),
        "job",
        "id1",
        &ExecutionStatus::Failed,
        "excerpt",
        "",
        "",
        "STAMP",
        "TS",
    )
    .unwrap();
    assert_eq!(d.body, "Job: job\nStatus: Failed\nExecution: id1\nTime: STAMP\n");
}

#[test]
fn context_tells_the_execution() {
    let d = notice(&config(None), &ExecutionStatus::TimedOut, "excerpt");
    let context = d.context.unwrap();
    assert_eq!(context.subject, d.subject);
    assert_eq!(context.body, d.body);
    assert_eq!(context.job_name, Some("job".to_string()));
    assert_eq!(context.status, Some("timed_out".to_string()));
    assert_eq!(context.execution_id, Some("id1".to_string()));
    assert_eq!(context.stdout, Some("out".to_string()));
    assert_eq!(context.stderr, Some("err".to_string()));
    assert_eq!(context.timestamp, "TS");
}

#[test]
fn recipients_of_the_job_are_taken() {
    let mut c = config(None);
    assert_eq!(
        notice(&c, &ExecutionStatus::Failed, "").wants(),
        Some(SettingKey::Recipients)
    );
    c.recipients = Some(NotificationRecipients {
        emails: vec!["a@example.com".to_string()],
        phones: vec![],
    });
    let d = notice(&c, &ExecutionStatus::Failed, "");
    assert_eq!(d.wants(), Some(SettingKey::Email));
    assert_eq!(d.recipients.emails, vec!["a@example.com".to_string()]);
}

#[test]
fn long_output_is_cut() {
    let c = config(Some("always"));
    let long = "x".repeat(50_001);
    let d = completion_notice(
        &c,
        "job",
        "id1",
        &ExecutionStatus::Failed,
        "",
        &long,
        &"y".repeat(50_000),
        "STAMP",
        "TS",
    )
    .unwrap();
    let head = "Job: job\nStatus: Failed\nExecution: id1\nTime: STAMP\n";
    assert_eq!(
        d.body,
        format!(
            "{}\n--- Output ---\n{}\n\n--- Error ---\n{}\n",
            head,
            "x".repeat(50_000),
            "y".repeat(50_000)
        )
    );
    assert_eq!(d.context.unwrap().stdout, Some(long));
}

#[test]
fn output_is_cut_between_characters_only() {
    let inside = "é".repeat(25_000) + "x";
    let across = "x".to_string() + &"é".repeat(25_000);
    let always = config(Some("always"));
    assert!(output_can_be_cut(&always, &ExecutionStatus::Failed, &inside, ""));
    assert!(!output_can_be_cut(&always, &ExecutionStatus::Failed, &across, ""));
    assert!(!output_can_be_cut(&always, &ExecutionStatus::Failed, "", &across));
    assert!(output_can_be_cut(&config(None), &ExecutionStatus::Failed, &across, &across));
    let other = ExecutionStatus::Other("Cancelled".to_string());
    assert!(output_can_be_cut(&always, &other, &across, &across));
}

#[test]
fn unwanted_notices_are_not_made() {
    let mut c = config(None);
    c.on_success = false;
    assert!(
        notify_execution_complete(&c, "job", "id1", &ExecutionStatus::Succeeded, "", "", "")
            .is_none()
    );
    let other = ExecutionStatus::Other("Cancelled".to_string());
    assert!(notify_execution_complete(&c, "job", "id1", &other, "", "", "").is_none());
}

#[test]
fn notices_carry_the_present_time() {
    let before = chrono::Utc::now();
    let d = notify_execution_complete(
        &config(None),
        "job",
        "id1",
        &ExecutionStatus::Failed,
        "",
        "",
        "",
    )
    .unwrap();
    let after = chrono::Utc::now();
    let stamps: Vec<String> = vec![before, after]
        .iter()
        .map(|at| at.format("%Y-%m-%d %H:%M:%S UTC").to_string())
        .collect();
    let line = d.body.lines().nth(3).unwrap().to_string();
    let stamp = line.strip_prefix("Time: ").unwrap();
    assert!(stamps[0].as_str() <= stamp && stamp <= stamps[1].as_str());
    let at = chrono::DateTime::parse_from_rfc3339(&d.context.unwrap().timestamp).unwrap();
    assert!(before <= at && at <= after);
}

#[test]
fn clock_is_written_in_both_forms() {
    let text = now_rfc3339();
    assert!(chrono::DateTime::parse_from_rfc3339(&text).is_ok());
    let stamp = now_stamp();
    assert_eq!(stamp.len(), "2026-06-08 12:00:00 UTC".len());
    assert!(stamp.ends_with(" UTC"));
}
