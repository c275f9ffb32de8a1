//! Notifications about jobs: by email, by SMS and by webhook.
//!
//! The library decides what is sent, to whom, in which order, and what is reported about it. It
//! reads the wall clock and performs no other input or output: each delivery is a run of actions
//! for the caller to perform, whose results go back into the run.

pub mod clock;
pub mod completion;
pub mod config;
pub mod dispatch;
pub mod email;
pub mod events;
pub mod http;
pub mod json;
pub mod selftest;
pub mod sms;
pub mod template;
pub mod text;
pub mod webhook;

pub use crate::completion::notify_execution_complete;
pub use crate::config::{
    default_generic, default_true, load_email_config, load_recipients, load_sms_config,
    load_system_alerts, load_webhook_config, EmailConfig, NotificationRecipients, SmsConfig,
    SystemAlerts, WebhookConfig,
};
pub use crate::dispatch::send_notification;
pub use crate::email::send_email;
pub use crate::selftest::send_test;
pub use crate::sms::send_sms;
pub use crate::template::{render_template, WebhookContext};
pub use crate::webhook::send_webhook;
