use kronforce_notifications::http::{HttpAction, HttpReply};
use kronforce_notifications::webhook::{
    color_for, custom_payload, find_header, headers_to_send, passthrough_payload,
    webhook_payload, webhook_post, webhook_refused, webhook_reply,
};
use kronforce_notifications::{send_webhook, WebhookConfig, WebhookContext};

fn config(format: &str) -> WebhookConfig {
    WebhookConfig {
        enabled: true,
        url: "https://hooks.example.com/x".to_string(),
        format: format.to_string(),
        headers: vec![
            ("Authorization".to_string(), "Bearer t".to_string()),
            ("routing_key".to_string(), "R123".to_string()),
            ("X-Team".to_string(), "ops".to_string()),
        ],
        template: None,
    }
}

fn context(stdout: Option<&str>) -> WebhookContext {
    WebhookContext {
        subject: "ctx subject".to_string(),
        body: "ctx body".to_string(),
        stdout: stdout.map(|s| s.to_string()),
        timestamp: "ctx time".to_string(),
        ..Default::default()
    }
}

fn json(text: &str) -> serde_json::Value {
    serde_json::from_str(text).unwrap()
}

fn payload(config: &WebhookConfig, ctx: &WebhookContext) -> Result<serde_json::Value, String> {
    webhook_payload(config, "Sub \"1\"", "line1\nline2", ctx, "TS")
}

#[test]
fn slack_message() {
    assert_eq!(
        payload(&config("slack"), &context(None)).unwrap(),
        json(r#"{"text":"*Sub \"1\"*\nline1\nline2"}"#)
    );
}

#[test]
fn teams_message() {
    assert_eq!(
        payload(&config("teams"), &context(None)).unwrap(),
        json(r#"{"title":"Sub \"1\"","text":"line1\nline2"}"#)
    );
}

#[test]
fn pagerduty_event() {
    assert_eq!(
        payload(&config("pagerduty"), &context(None)).unwrap(),
        json(
            r#"{"routing_key":"R123","event_action":"trigger","payload":{"summary":"Sub \"1\"",
                "source":"kronforce","severity":"error","custom_details":{"body":"line1\nline2"}}}"#
        )
    );
}

#[test]
fn pagerduty_without_routing_key() {
    let mut c = config("pagerduty");
    c.headers = vec![];
    assert_eq!(payload(&c, &context(None)).unwrap()["routing_key"], "");
}

#[test]
fn discord_message() {
    assert_eq!(
        payload(&config("discord"), &context(None)).unwrap(),
        json(
            r#"{"embeds":[{"title":"Sub \"1\"","description":"line1\nline2","color":15158332,
                "footer":{"text":"Kronforce"},"timestamp":"TS"}]}"#
        )
    );
}

#[test]
fn discord_colors() {
    assert_eq!(color_for("[Kronforce] Job 'x' succeeded"), 0x2ECC71);
    assert_eq!(color_for("[Kronforce] Job 'x' timed out"), 0xF39C12);
    assert_eq!(color_for("[Kronforce] Job 'x' failed"), 0xE74C3C);
    assert_eq!(color_for("timed out but succeeded"), 0x2ECC71);
    assert_eq!(color_for(""), 0xE74C3C);
}

#[test]
fn generic_document_for_generic_and_unknown_formats() {
    let expected = json(
        r#"{"subject":"Sub \"1\"","body":"line1\nline2","source":"kronforce","timestamp":"TS"}"#,
    );
    assert_eq!(payload(&config("generic"), &context(None)).unwrap(), expected);
    assert_eq!(payload(&config("Slack"), &context(None)).unwrap(), expected);
    assert_eq!(payload(&config(""), &context(None)).unwrap(), expected);
}

#[test]
fn custom_template_is_rendered_and_parsed() {
    let mut c = config("custom");
    c.template = Some(r#"{"a":["{{subject}}", 2], "when":"{{timestamp}}"}"#.to_string());
    assert_eq!(
        payload(&c, &context(None)).unwrap(),
        json(r#"{"a":["ctx subject",2],"when":"ctx time"}"#)
    );
}

#[test]
fn custom_without_template_uses_the_default() {
    assert_eq!(
        payload(&config("custom"), &context(None)).unwrap(),
        json(r#"{"text":"ctx subject\nctx body"}"#)
    );
}

#[test]
fn custom_template_has_to_be_json() {
    let mut c = config("custom");
    c.template = Some("{{subject}} is no JSON".to_string());
    let reason = serde_json::from_str::<serde_json::Value>("ctx subject is no JSON")
        .unwrap_err()
        .to_string();
    assert_eq!(
        payload(&c, &context(None)).unwrap_err(),
        format!(
            "custom template produced invalid JSON: {}\nRendered: ctx subject is no JSON",
            reason
        )
    );
}

#[test]
fn passthrough_sends_the_output() {
    assert_eq!(
        payload(&config("passthrough"), &context(Some(" \n{\"n\": 1.5}\t"))).unwrap(),
        json(r#"{"n":1.5}"#)
    );
}

#[test]
fn passthrough_without_output_is_generic() {
    let expected = json(
        r#"{"subject":"Sub \"1\"","body":"line1\nline2","source":"kronforce","timestamp":"TS"}"#,
    );
    assert_eq!(payload(&config("passthrough"), &context(None)).unwrap(), expected);
    assert_eq!(payload(&config("passthrough"), &context(Some(" \u{3000}\n"))).unwrap(), expected);
}

#[test]
fn passthrough_output_that_is_not_json_is_generic() {
    let expected = json(
        r#"{"subject":"Sub \"1\"","body":"line1\nline2","source":"kronforce","timestamp":"TS"}"#,
    );
    for output in ["oops\n", "{\"n\": 1", "{} {}", "not json"] {
        assert_eq!(payload(&config("passthrough"), &context(Some(output))).unwrap(), expected);
    }
}

#[test]
fn parse_results_are_taken_over() {
    let doc = json("[1]");
    assert_eq!(custom_payload(Ok(doc.clone()), "x").unwrap(), doc);
    assert_eq!(
        custom_payload(Err("E".to_string()), "x").unwrap_err(),
        "custom template produced invalid JSON: E\nRendered: x"
    );
    assert_eq!(passthrough_payload(Ok(doc.clone()), "S", "B", "TS"), doc);
    assert_eq!(
        passthrough_payload(Err("E".to_string()), "S", "B", "TS"),
        json(r#"{"subject":"S","body":"B","source":"kronforce","timestamp":"TS"}"#)
    );
}

#[test]
fn headers_without_the_routing_key_are_sent() {
    let c = config("teams");
    assert_eq!(
        headers_to_send(&c.headers),
        vec![
            ("Authorization".to_string(), "Bearer t".to_string()),
            ("X-Team".to_string(), "ops".to_string()),
        ]
    );
    assert_eq!(find_header(&c.headers, "X-Team"), "ops");
    assert_eq!(find_header(&c.headers, "x-team"), "");
}

#[test]
fn post_goes_to_the_url() {
    let post = webhook_post(&config("teams"), "S", "B", &context(None), "TS").unwrap();
    assert_eq!(post.url, "https://hooks.example.com/x");
    assert_eq!(post.payload, json(r#"{"title":"S","text":"B"}"#));
    assert_eq!(post.headers.len(), 2);
    assert!(post.basic_auth.is_none());
    let mut c = config("custom");
    c.template = Some("{".to_string());
    assert!(webhook_post(&c, "S", "B", &context(None), "TS").is_err());
}

#[test]
fn sending_makes_the_post_with_the_present_time() {
    let before = chrono::Utc::now();
    match send_webhook(&config("generic"), "S", "B", None) {
        HttpAction::Post(post) => {
            let stamp = post.payload["timestamp"].as_str().unwrap();
            let at = chrono::DateTime::parse_from_rfc3339(stamp).unwrap();
            assert!(before <= at && at <= chrono::Utc::now());
            assert!(stamp.ends_with("+00:00"));
            assert_eq!(post.payload["subject"], "S");
        }
        _ => panic!("no post"),
    }
}

#[test]
fn sending_without_context_renders_the_notification() {
    let mut c = config("custom");
    c.template = Some(r#"["{{subject}}","{{body}}","{{job_name}}"]"#.to_string());
    match send_webhook(&c, "S", "B", None) {
        HttpAction::Post(post) => assert_eq!(post.payload, json(r#"["S","B",""]"#)),
        _ => panic!("no post"),
    }
    match send_webhook(&c, "S", "B", Some(&context(None))) {
        HttpAction::Post(post) => {
            assert_eq!(post.payload, json(r#"["ctx subject","ctx body",""]"#))
        }
        _ => panic!("no post"),
    }
}

#[test]
fn sending_ends_where_there_is_no_payload() {
    let mut c = config("custom");
    c.template = Some("{{subject}}".to_string());
    match send_webhook(&c, "S", "B", Some(&context(None))) {
        HttpAction::Finish(Err(error)) => {
            assert!(error.starts_with("custom template produced invalid JSON: "));
            assert!(error.ends_with("\nRendered: ctx subject"));
        }
        _ => panic!("not finished"),
    }
}

#[test]
fn sending_output_that_is_not_json_posts_the_generic_document() {
    let c = WebhookConfig {
        enabled: true,
        url: "http://h".to_string(),
        format: "passthrough".to_string(),
        headers: vec![],
        template: None,
    };
    let ctx = WebhookContext { stdout: Some("not json".to_string()), ..Default::default() };
    match send_webhook(&c, "S", "B", Some(&ctx)) {
        HttpAction::Post(post) => {
            assert_eq!(post.url, "http://h");
            let stamp = post.payload["timestamp"].as_str().unwrap();
            assert!(chrono::DateTime::parse_from_rfc3339(stamp).is_ok());
            assert_eq!(
                post.payload,
                json(&format!(
                    r#"{{"subject":"S","body":"B","source":"kronforce","timestamp":"{}"}}"#,
                    stamp
                ))
            );
        }
        _ => panic!("no post"),
    }
    assert!(matches!(webhook_reply(HttpReply::Status(200)), HttpAction::Finish(Ok(()))));
}

#[test]
fn replies_end_or_go_on() {
    assert!(matches!(webhook_reply(HttpReply::Status(200)), HttpAction::Finish(Ok(()))));
    assert!(matches!(webhook_reply(HttpReply::Status(299)), HttpAction::Finish(Ok(()))));
    assert!(matches!(webhook_reply(HttpReply::Status(199)), HttpAction::ReadBody(199)));
    assert!(matches!(webhook_reply(HttpReply::Status(300)), HttpAction::ReadBody(300)));
    match webhook_reply(HttpReply::Failed("dns".to_string())) {
        HttpAction::Finish(Err(error)) => assert_eq!(error, "webhook error: dns"),
        _ => panic!("not finished"),
    }
}

#[test]
fn refusals_tell_status_and_reply() {
    assert_eq!(
        webhook_refused(404, Some("no such hook".to_string())).unwrap_err(),
        "webhook returned 404 Not Found: no such hook"
    );
    assert_eq!(
        webhook_refused(599, None).unwrap_err(),
        "webhook returned 599 <unknown status code>: "
    );
}
