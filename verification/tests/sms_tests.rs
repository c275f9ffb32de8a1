use kronforce_notifications::http::{HttpAction, HttpPost, HttpReply};
use kronforce_notifications::sms::{post_for, sms_refused};
use kronforce_notifications::{send_sms, SmsConfig};

fn config() -> SmsConfig {
    SmsConfig {
        enabled: true,
        webhook_url: "https://sms.example.com".to_string(),
        auth_user: Some("u".to_string()),
        auth_pass: Some("p".to_string()),
        from_number: Some("+100".to_string()),
    }
}

fn numbers() -> Vec<String> {
    vec!["+1".to_string(), "+2".to_string()]
}

fn posted(action: HttpAction) -> HttpPost {
    match action {
        HttpAction::Post(post) => post,
        _ => panic!("no post"),
    }
}

#[test]
fn message_for_one_number() {
    let post = post_for(&config(), "+1", "hi \"x\"");
    assert_eq!(post.url, "https://sms.example.com");
    let expected: serde_json::Value =
        serde_json::from_str(r#"{"To":"+1","From":"+100","Body":"hi \"x\""}"#).unwrap();
    assert_eq!(post.payload, expected);
    assert!(post.headers.is_empty());
    assert_eq!(post.basic_auth, Some(("u".to_string(), "p".to_string())));
}

#[test]
fn missing_sender_is_empty_and_half_credentials_are_none() {
    let mut c = config();
    c.from_number = None;
    c.auth_pass = None;
    let post = post_for(&c, "+1", "hi");
    assert_eq!(post.payload["From"], "");
    assert_eq!(post.basic_auth, None);
    c.auth_pass = Some("p".to_string());
    c.auth_user = None;
    assert_eq!(post_for(&c, "+1", "hi").basic_auth, None);
}

#[test]
fn numbers_are_served_in_turn() {
    let mut run = send_sms(config(), numbers(), "hi".to_string());
    assert_eq!(posted(run.next_action()).payload["To"], "+1");
    assert_eq!(posted(run.on_reply(HttpReply::Status(200))).payload["To"], "+2");
    assert!(matches!(run.on_reply(HttpReply::Status(204)), HttpAction::Finish(Ok(()))));
    assert_eq!(run.sent, 2);
}

#[test]
fn nobody_to_text_is_a_success() {
    let run = send_sms(config(), vec![], "hi".to_string());
    assert!(matches!(run.next_action(), HttpAction::Finish(Ok(()))));
}

#[test]
fn a_failed_post_ends_the_delivery() {
    let mut run = send_sms(config(), numbers(), "hi".to_string());
    match run.on_reply(HttpReply::Failed("timeout".to_string())) {
        HttpAction::Finish(Err(error)) => assert_eq!(error, "SMS webhook error: timeout"),
        _ => panic!("not finished"),
    }
    assert_eq!(run.sent, 0);
}

#[test]
fn a_refused_post_ends_the_delivery() {
    let mut run = send_sms(config(), numbers(), "hi".to_string());
    assert!(matches!(run.on_reply(HttpReply::Status(500)), HttpAction::ReadBody(500)));
    assert_eq!(
        sms_refused(500, Some("oops".to_string())).unwrap_err(),
        "SMS webhook returned 500 Internal Server Error: oops"
    );
    assert_eq!(sms_refused(401, None).unwrap_err(), "SMS webhook returned 401 Unauthorized: ");
}
