use kronforce_notifications::config::{Setting, SettingKey};
use kronforce_notifications::{
    default_generic, default_true, load_email_config, load_recipients, load_sms_config,
    load_system_alerts, load_webhook_config, EmailConfig, NotificationRecipients, SmsConfig,
    SystemAlerts, WebhookConfig,
};

fn email(enabled: bool) -> EmailConfig {
    EmailConfig {
        enabled,
        smtp_host: "smtp.example.com".to_string(),
        smtp_port: 587,
        username: "user".to_string(),
        password: "pass".to_string(),
        from: "kron@example.com".to_string(),
        tls: true,
    }
}

fn sms(enabled: bool) -> SmsConfig {
    SmsConfig {
        enabled,
        webhook_url: "https://sms.example.com".to_string(),
        auth_user: None,
        auth_pass: None,
        from_number: None,
    }
}

fn webhook(enabled: bool, url: &str) -> WebhookConfig {
    WebhookConfig {
        enabled,
        url: url.to_string(),
        format: default_generic(),
        headers: vec![],
        template: None,
    }
}

#[test]
fn defaults_of_a_configuration() {
    assert_eq!(default_generic(), "generic");
    assert!(default_true());
}

#[test]
fn settings_have_their_names() {
    assert_eq!(SettingKey::Email.name(), "notification_email");
    assert_eq!(SettingKey::Sms.name(), "notification_sms");
    assert_eq!(SettingKey::Webhook.name(), "notification_webhook");
    assert_eq!(SettingKey::Recipients.name(), "notification_recipients");
    assert_eq!(SettingKey::SystemAlerts.name(), "notification_system_alerts");
}

#[test]
fn email_is_loaded_when_enabled() {
    let config = load_email_config(Setting::Value(email(true))).unwrap();
    assert_eq!(config.smtp_host, "smtp.example.com");
    assert_eq!(config.smtp_port, 587);
    assert!(load_email_config(Setting::Value(email(false))).is_none());
    assert!(load_email_config(Setting::Missing).is_none());
    assert!(load_email_config(Setting::Unreadable).is_none());
    assert!(load_email_config(Setting::Malformed).is_none());
}

#[test]
fn sms_is_loaded_when_enabled() {
    let config = load_sms_config(Setting::Value(sms(true))).unwrap();
    assert_eq!(config.webhook_url, "https://sms.example.com");
    assert!(load_sms_config(Setting::Value(sms(false))).is_none());
    assert!(load_sms_config(Setting::Missing).is_none());
    assert!(load_sms_config(Setting::Unreadable).is_none());
    assert!(load_sms_config(Setting::Malformed).is_none());
}

#[test]
fn webhook_is_loaded_when_enabled_with_a_url() {
    let config = load_webhook_config(Setting::Value(webhook(true, "https://h"))).unwrap();
    assert_eq!(config.url, "https://h");
    assert!(load_webhook_config(Setting::Value(webhook(true, ""))).is_none());
    assert!(load_webhook_config(Setting::Value(webhook(false, "https://h"))).is_none());
    assert!(load_webhook_config(Setting::Missing).is_none());
    assert!(load_webhook_config(Setting::Unreadable).is_none());
    assert!(load_webhook_config(Setting::Malformed).is_none());
}

#[test]
fn webhook_is_loaded_whole() {
    let mut stored = webhook(true, "https://h");
    stored.format = "custom".to_string();
    stored.headers = vec![
        ("Authorization".to_string(), "Bearer t".to_string()),
        ("routing_key".to_string(), "R123".to_string()),
    ];
    stored.template = Some("{{body}}".to_string());
    let config = load_webhook_config(Setting::Value(stored.clone())).unwrap();
    assert!(config.enabled);
    assert_eq!(config.url, stored.url);
    assert_eq!(config.format, stored.format);
    assert_eq!(config.headers, stored.headers);
    assert_eq!(config.template, stored.template);
}

#[test]
fn recipients_default_to_none() {
    let stored = NotificationRecipients {
        emails: vec!["a@example.com".to_string()],
        phones: vec!["+1".to_string(), "+2".to_string()],
    };
    let loaded = load_recipients(Setting::Value(stored.clone()));
    assert_eq!(loaded.emails, stored.emails);
    assert_eq!(loaded.phones, stored.phones);
    for setting in [Setting::Missing, Setting::Unreadable, Setting::Malformed] {
        let none = load_recipients(setting);
        assert!(none.emails.is_empty());
        assert!(none.phones.is_empty());
    }
}

#[test]
fn system_alerts_default_to_off() {
    let on = SystemAlerts { agent_offline: true };
    assert_eq!(load_system_alerts(Setting::Value(on)), on);
    for setting in [Setting::Missing, Setting::Unreadable, Setting::Malformed] {
        assert_eq!(load_system_alerts(setting), SystemAlerts { agent_offline: false });
    }
    assert!(!SystemAlerts::default().agent_offline);
}
