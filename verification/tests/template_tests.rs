use kronforce_notifications::{render_template, WebhookContext};

#[test]
fn test_render_template_all_placeholders() {
    let ctx = WebhookContext {
        subject: "Job 'deploy' succeeded".to_string(),
        body: "All good".to_string(),
        job_name: Some("deploy".to_string()),
        status: Some("succeeded".to_string()),
        execution_id: Some("abc123".to_string()),
        stdout: Some("deployed v2.0".to_string()),
        stderr: Some("".to_string()),
        timestamp: "2026-06-08T12:00:00Z".to_string(),
    };
    let template = r#"{"title":"{{subject}}","output":"{{stdout}}","job":"{{job_name}}","status":"{{status}}","exec":"{{execution_id}}","ts":"{{timestamp}}"}"#;
    let rendered = render_template(template, &ctx);
    let parsed: serde_json::Value = serde_json::from_str(&rendered).unwrap();
    assert_eq!(parsed["title"], "Job 'deploy' succeeded");
    assert_eq!(parsed["output"], "deployed v2.0");
    assert_eq!(parsed["job"], "deploy");
    assert_eq!(parsed["status"], "succeeded");
    assert_eq!(parsed["exec"], "abc123");
    assert_eq!(parsed["ts"], "2026-06-08T12:00:00Z");
}

#[test]
fn test_render_template_missing_optional_fields() {
    let ctx = WebhookContext {
        subject: "test".to_string(),
        body: "hello".to_string(),
        job_name: None,
        status: None,
        execution_id: None,
        stdout: None,
        stderr: None,
        timestamp: "now".to_string(),
    };
    let template = r#"{"msg":"{{subject}} {{job_name}}"}"#;
    let rendered = render_template(template, &ctx);
    let parsed: serde_json::Value = serde_json::from_str(&rendered).unwrap();
    assert_eq!(parsed["msg"], "test ");
}

#[test]
fn test_render_template_discord_preset() {
    let ctx = WebhookContext {
        subject: "Build done".to_string(),
        body: "Success".to_string(),
        timestamp: "2026-01-01T00:00:00Z".to_string(),
        ..Default::default()
    };
    let template = r#"{"embeds":[{"title":"{{subject}}","description":"{{body}}","timestamp":"{{timestamp}}"}]}"#;
    let rendered = render_template(template, &ctx);
    let parsed: serde_json::Value = serde_json::from_str(&rendered).unwrap();
    assert_eq!(parsed["embeds"][0]["title"], "Build done");
    assert_eq!(parsed["embeds"][0]["description"], "Success");
}

fn sample() -> WebhookContext {
    WebhookContext {
        subject: "S".to_string(),
        body: "B".to_string(),
        job_name: Some("J".to_string()),
        status: Some("T".to_string()),
        execution_id: Some("E".to_string()),
        stdout: Some("O".to_string()),
        stderr: Some("R".to_string()),
        timestamp: "W".to_string(),
    }
}

#[test]
fn every_placeholder_has_its_value() {
    let template = "{{subject}}{{body}}{{job_name}}{{status}}{{execution_id}}{{stdout}}{{stderr}}{{timestamp}}";
    assert_eq!(render_template(template, &sample()), "SBJTEORW");
}

#[test]
fn markers_are_replaced_and_the_rest_is_kept() {
    let template = "a {{status}} b {c} {{status}}}} {{subject}}é";
    assert_eq!(render_template(template, &sample()), "a T b {c} T}} Sé");
}

#[test]
fn templates_without_placeholders_stay() {
    let template = "{{ subject }} {{unknown}} {subject} }}";
    assert_eq!(render_template(template, &sample()), template);
    assert_eq!(render_template("", &sample()), "");
}

#[test]
fn missing_and_empty_values_render_alike() {
    let mut missing = sample();
    missing.job_name = None;
    missing.stderr = None;
    let mut empty = sample();
    empty.job_name = Some(String::new());
    empty.stderr = Some(String::new());
    let template = "<{{job_name}}|{{stderr}}|{{stdout}}>";
    assert_eq!(render_template(template, &missing), "<||O>");
    assert_eq!(render_template(template, &missing), render_template(template, &empty));
}

#[test]
fn values_bring_in_later_placeholders_only() {
    let mut ctx = sample();
    ctx.subject = "{{body}}".to_string();
    ctx.stderr = Some("{{subject}}".to_string());
    assert_eq!(render_template("{{subject}}", &ctx), "B");
    assert_eq!(render_template("{{stderr}}", &ctx), "{{subject}}");
}

#[test]
fn contexts_are_copied_whole() {
    let copy = sample().clone();
    let template = "{{subject}}{{body}}{{job_name}}{{status}}{{execution_id}}{{stdout}}{{stderr}}{{timestamp}}";
    assert_eq!(render_template(template, &copy), "SBJTEORW");
    let none = WebhookContext::default();
    assert_eq!(render_template(template, &none), "");
    assert!(none.job_name.is_none());
}
