//! What the notification channels are configured with, and how a stored setting becomes a
//! configuration.
use vstd::prelude::*;

verus! {

/// A setting of the store.
#[derive(Debug, Clone, Copy, PartialEq, Eq, Structural)]
pub enum SettingKey {
    /// The SMTP configuration.
    Email,
    /// The SMS configuration.
    Sms,
    /// The webhook configuration.
    Webhook,
    /// The global recipients.
    Recipients,
    /// The system alert toggles.
    SystemAlerts,
}

/// The name under which a setting is stored.
pub open spec fn setting_name(key: SettingKey) -> Seq<char> {
    match key {
        SettingKey::Email => "notification_email"@,
        SettingKey::Sms => "notification_sms"@,
        SettingKey::Webhook => "notification_webhook"@,
        SettingKey::Recipients => "notification_recipients"@,
        SettingKey::SystemAlerts => "notification_system_alerts"@,
    }
}

impl SettingKey {
    /// The name under which the setting is stored.
    pub fn name(self) -> (name: &'static str)
        ensures
            name@ == setting_name(self),
    {
        match self {
            SettingKey::Email => "notification_email",
            SettingKey::Sms => "notification_sms",
            SettingKey::Webhook => "notification_webhook",
            SettingKey::Recipients => "notification_recipients",
            SettingKey::SystemAlerts => "notification_system_alerts",
        }
    }
}

/// SMTP email delivery configuration.
#[derive(Debug, Clone)]
pub struct EmailConfig {
    pub enabled: bool,
    pub smtp_host: String,
    pub smtp_port: u16,
    pub username: String,
    pub password: String,
    pub from: String,
    pub tls: bool,
}

/// SMS delivery configuration via an HTTP webhook.
#[derive(Debug, Clone)]
pub struct SmsConfig {
    pub enabled: bool,
    pub webhook_url: String,
    pub auth_user: Option<String>,
    pub auth_pass: Option<String>,
    pub from_number: Option<String>,
}

/// Webhook notification configuration (Slack, Teams, PagerDuty, generic, custom template).
#[derive(Debug, Clone)]
pub struct WebhookConfig {
    pub enabled: bool,
    pub url: String,
    /// Webhook format: "slack", "teams", "pagerduty", "discord", "custom", "passthrough", or
    /// "generic" (default).
    pub format: String,
    /// Custom headers (e.g., Authorization), each name once.
    pub headers: Vec<(String, String)>,
    /// Custom JSON template with `{{placeholder}}` variables. Used when format is "custom".
    /// Available placeholders: {{subject}}, {{body}}, {{job_name}}, {{status}},
    /// {{execution_id}}, {{stdout}}, {{stderr}}, {{timestamp}}.
    pub template: Option<String>,
}

/// The headers as a map from name to value, where no name occurs twice.
pub open spec fn header_map(headers: Seq<(String, String)>) -> Map<Seq<char>, Seq<char>>
    decreases headers.len(),
{
    if headers.len() == 0 {
        Map::empty()
    } else {
        header_map(headers.drop_last()).insert(headers.last().0@, headers.last().1@)
    }
}

/// Does no header name occur twice?
pub open spec fn distinct_names(headers: Seq<(String, String)>) -> bool {
    forall|i: int, j: int|
        0 <= i < j < headers.len() ==> (#[trigger] headers[i]).0@ != (#[trigger] headers[j]).0@
}

impl WebhookConfig {
    /// The configuration is well-formed: no header name occurs twice.
    pub open spec fn wf(&self) -> bool {
        distinct_names(self.headers@)
    }
}

/// Email addresses and phone numbers that receive notifications.
#[derive(Debug)]
pub struct NotificationRecipients {
    pub emails: Vec<String>,
    pub phones: Vec<String>,
}

/// The recipients as sequences.
pub struct RecipientsView {
    pub emails: Seq<String>,
    pub phones: Seq<String>,
}

impl View for NotificationRecipients {
    type V = RecipientsView;

    open spec fn view(&self) -> RecipientsView {
        RecipientsView { emails: self.emails@, phones: self.phones@ }
    }
}

/// Copies a list of texts.
pub fn copy_texts(texts: &Vec<String>) -> (copy: Vec<String>)
    ensures
        copy@ == texts@,
{
    let copy = texts.clone();
    assert(copy@ =~= texts@);
    copy
}

impl Clone for NotificationRecipients {
    fn clone(&self) -> (copy: Self)
        ensures
            copy@ == self@,
    {
        NotificationRecipients {
            emails: copy_texts(&self.emails),
            phones: copy_texts(&self.phones),
        }
    }
}

/// No recipients at all.
pub open spec fn no_recipients() -> RecipientsView {
    RecipientsView { emails: Seq::empty(), phones: Seq::empty() }
}

impl Default for NotificationRecipients {
    fn default() -> (none: Self)
        ensures
            none@ == no_recipients(),
    {
        NotificationRecipients { emails: Vec::new(), phones: Vec::new() }
    }
}

/// Toggles for system-level alert notifications (e.g., agent going offline).
#[derive(Debug, Clone, Copy, PartialEq, Eq, Structural)]
pub struct SystemAlerts {
    pub agent_offline: bool,
}

impl Default for SystemAlerts {
    fn default() -> (alerts: Self)
        ensures
            alerts == (SystemAlerts { agent_offline: false }),
    {
        SystemAlerts { agent_offline: false }
    }
}

/// The webhook format of a configuration that names none.
pub fn default_generic() -> (format: String)
    ensures
        format@ == "generic"@,
{
    "generic".to_string()
}

/// Whether a configuration that does not say so uses TLS.
pub fn default_true() -> (tls: bool)
    ensures
        tls,
{
    true
}

/// What reading a setting came to.
pub enum Setting<T> {
    /// The store could not be read.
    Unreadable,
    /// The store holds no such setting.
    Missing,
    /// The store holds a text that is not a value of the setting's type.
    Malformed,
    /// The store holds this value.
    Value(T),
}

/// The email configuration that a stored setting gives: the stored one, if it is enabled.
pub open spec fn active_email(setting: Setting<EmailConfig>) -> Option<EmailConfig> {
    match setting {
        Setting::Value(config) => if config.enabled {
            Some(config)
        } else {
            None
        },
        _ => None,
    }
}

/// The SMS configuration that a stored setting gives: the stored one, if it is enabled.
pub open spec fn active_sms(setting: Setting<SmsConfig>) -> Option<SmsConfig> {
    match setting {
        Setting::Value(config) => if config.enabled {
            Some(config)
        } else {
            None
        },
        _ => None,
    }
}

/// The webhook configuration that a stored setting gives: the stored one, if it is enabled and
/// has a URL.
pub open spec fn active_webhook(setting: Setting<WebhookConfig>) -> Option<WebhookConfig> {
    match setting {
        Setting::Value(config) => if config.enabled && config.url@.len() > 0 {
            Some(config)
        } else {
            None
        },
        _ => None,
    }
}

/// The recipients that a stored setting gives: the stored ones, or none.
pub open spec fn stored_recipients(setting: Setting<NotificationRecipients>) -> RecipientsView {
    match setting {
        Setting::Value(recipients) => recipients@,
        _ => no_recipients(),
    }
}

/// Loads the email configuration from its setting, returning `None` if disabled.
pub fn load_email_config(setting: Setting<EmailConfig>) -> (config: Option<EmailConfig>)
    ensures
        config == active_email(setting),
{
    match setting {
        Setting::Value(config) => if config.enabled {
            Some(config)
        } else {
            None
        },
        _ => None,
    }
}

/// Loads the SMS configuration from its setting, returning `None` if disabled.
pub fn load_sms_config(setting: Setting<SmsConfig>) -> (config: Option<SmsConfig>)
    ensures
        config == active_sms(setting),
{
    match setting {
        Setting::Value(config) => if config.enabled {
            Some(config)
        } else {
            None
        },
        _ => None,
    }
}

/// Loads the webhook configuration from its setting, returning `None` if disabled or without a
/// URL.
pub fn load_webhook_config(setting: Setting<WebhookConfig>) -> (config: Option<WebhookConfig>)
    ensures
        config == active_webhook(setting),
{
    match setting {
        Setting::Value(config) => if config.enabled && !config.url.as_str().is_empty() {
            Some(config)
        } else {
            None
        },
        _ => None,
    }
}

/// Loads the global notification recipients from their setting.
pub fn load_recipients(setting: Setting<NotificationRecipients>) -> (recipients:
    NotificationRecipients)
    ensures
        recipients@ == stored_recipients(setting),
{
    match setting {
        Setting::Value(recipients) => recipients,
        _ => NotificationRecipients::default(),
    }
}

/// Loads the system alert toggles from their setting.
pub fn load_system_alerts(setting: Setting<SystemAlerts>) -> (alerts: SystemAlerts)
    ensures
        alerts == (match setting {
            Setting::Value(stored) => stored,
            _ => (SystemAlerts { agent_offline: false }),
        }),
{
    match setting {
        Setting::Value(alerts) => alerts,
        _ => SystemAlerts::default(),
    }
}

/// A stored webhook configuration is loaded as it was stored, in every field, where it is enabled
/// and has a URL; otherwise nothing is loaded.
pub proof fn stored_webhook_is_loaded_whole(stored: WebhookConfig)
    ensures
        active_webhook(Setting::Value(stored)) == Some(stored) <==> stored.enabled
            && stored.url@.len() > 0,
        active_webhook(Setting::Value(stored)) is None <==> !stored.enabled || stored.url@.len()
            == 0,
{
}

/// Each setting is stored under its own name.
pub proof fn settings_are_stored_under_their_names()
    ensures
        setting_name(SettingKey::Email) == "notification_email"@,
        setting_name(SettingKey::Sms) == "notification_sms"@,
        setting_name(SettingKey::Webhook) == "notification_webhook"@,
        setting_name(SettingKey::Recipients) == "notification_recipients"@,
        setting_name(SettingKey::SystemAlerts) == "notification_system_alerts"@,
{
}

/// A stored email configuration is loaded as it was stored just where it is enabled, and a stored
/// SMS configuration likewise, whatever else they hold.
pub proof fn enabled_channels_are_loaded_whole(email: EmailConfig, sms: SmsConfig)
    ensures
        email.enabled ==> active_email(Setting::Value(email)) == Some(email),
        !email.enabled ==> active_email(Setting::Value(email)) is None,
        sms.enabled ==> active_sms(Setting::Value(sms)) == Some(sms),
        !sms.enabled ==> active_sms(Setting::Value(sms)) is None,
{
}

/// A setting that cannot be read, is missing or is malformed turns its channel off and stands for
/// no recipients.
pub proof fn bad_settings_turn_channels_off(
    email: Setting<EmailConfig>,
    sms: Setting<SmsConfig>,
    hook: Setting<WebhookConfig>,
    recipients: Setting<NotificationRecipients>,
)
    ensures
        !(email is Value) ==> active_email(email) is None,
        !(sms is Value) ==> active_sms(sms) is None,
        !(hook is Value) ==> active_webhook(hook) is None,
        !(recipients is Value) ==> stored_recipients(recipients).emails.len() == 0
            && stored_recipients(recipients).phones.len() == 0,
{
}

/// Stored recipients are all of the stored addresses and all of the stored phone numbers, in
/// their order.
pub proof fn stored_recipients_are_all(stored: NotificationRecipients)
    ensures
        stored_recipients(Setting::Value(stored)).emails == stored.emails@,
        stored_recipients(Setting::Value(stored)).phones == stored.phones@,
        stored@.emails == stored.emails@,
        stored@.phones == stored.phones@,
        no_recipients().emails.len() == 0,
        no_recipients().phones.len() == 0,
{
}

/// The headers of a configuration are well-formed just where no two of them have the same name.
pub proof fn well_formed_headers_have_one_value(config: WebhookConfig)
    ensures
        config.wf() <==> forall|i: int, j: int|
            0 <= i < config.headers@.len() && 0 <= j < config.headers@.len() && i != j ==> (
            #[trigger] config.headers@[i]).0@ != (#[trigger] config.headers@[j]).0@,
{
}

/// Stored system alerts are loaded as they were stored, and are off where none can be loaded. A
/// configuration that does not say otherwise has the generic format and uses TLS.
pub proof fn defaults_fill_what_is_missing(
    setting: Setting<SystemAlerts>,
    alerts: SystemAlerts,
    format: String,
    tls: bool,
)
    requires
        call_ensures(load_system_alerts, (setting,), alerts),
        call_ensures(default_generic, (), format),
        call_ensures(default_true, (), tls),
    ensures
        setting matches Setting::Value(stored) ==> alerts.agent_offline == stored.agent_offline,
        !(setting is Value) ==> !alerts.agent_offline,
        format@ == "generic"@,
        tls,
{
}

}
