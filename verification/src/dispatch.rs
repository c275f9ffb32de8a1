//! A notification on its way to the channels: which settings are read, in which order, and which
//! deliveries they give rise to.
use vstd::prelude::*;
use crate::clock;
use crate::config;
use crate::config::{
    EmailConfig, NotificationRecipients, Setting, SettingKey, SmsConfig, WebhookConfig,
};
use crate::email;
use crate::email::EmailRun;
use crate::sms;
use crate::sms::SmsRun;
use crate::template;
use crate::template::WebhookContext;
use crate::webhook;

verus! {

/// A webhook delivery to be made.
pub struct WebhookJob {
    pub config: WebhookConfig,
    pub subject: String,
    pub body: String,
    pub context: Option<WebhookContext>,
}

/// A delivery to be made over one of the channels.
pub enum Job {
    Email(EmailRun),
    Sms(SmsRun),
    Webhook(WebhookJob),
}

/// A delivery as plain values; none of its messages has been sent.
pub enum JobView {
    Email { config: EmailConfig, to: Seq<String>, subject: Seq<char>, body: Seq<char> },
    Sms { config: SmsConfig, to: Seq<String>, body: Seq<char> },
    Webhook {
        config: WebhookConfig,
        subject: Seq<char>,
        body: Seq<char>,
        context: Option<template::ContextView>,
    },
}

impl Job {
    /// None of the messages of the delivery has been sent.
    pub open spec fn fresh(self) -> bool {
        match self {
            Job::Email(run) => run.sent == 0,
            Job::Sms(run) => run.sent == 0,
            Job::Webhook(_) => true,
        }
    }
}

impl View for Job {
    type V = JobView;

    open spec fn view(&self) -> JobView {
        match self {
            Job::Email(run) => JobView::Email {
                config: run.config,
                to: run.to@,
                subject: run.subject@,
                body: run.body@,
            },
            Job::Sms(run) => JobView::Sms { config: run.config, to: run.to@, body: run.body@ },
            Job::Webhook(job) => JobView::Webhook {
                config: job.config,
                subject: job.subject@,
                body: job.body@,
                context: webhook::optional_context(job.context),
            },
        }
    }
}

/// `job` is this delivery, with nothing sent yet, or there is none.
pub open spec fn is_job(job: Option<Job>, expected: Option<JobView>) -> bool {
    match (job, expected) {
        (Some(job), Some(expected)) => job.fresh() && job@ == expected,
        (None, None) => true,
        _ => false,
    }
}

/// What has to be read next.
#[derive(Debug, Clone, Copy, PartialEq, Eq, Structural)]
pub enum Stage {
    Recipients,
    Email,
    Sms,
    Webhook,
    Done,
}

/// What reading one of the settings came to.
pub enum Reading {
    Recipients(Setting<NotificationRecipients>),
    Email(Setting<EmailConfig>),
    Sms(Setting<SmsConfig>),
    Webhook(Setting<WebhookConfig>),
}

/// A notification on its way.
pub struct Dispatch {
    pub subject: String,
    pub body: String,
    pub recipients: NotificationRecipients,
    pub context: Option<WebhookContext>,
    pub stage: Stage,
}

/// A notification on its way, as plain values.
pub struct DispatchView {
    pub subject: Seq<char>,
    pub body: Seq<char>,
    pub recipients: config::RecipientsView,
    pub context: Option<template::ContextView>,
    pub stage: Stage,
}

impl View for Dispatch {
    type V = DispatchView;

    open spec fn view(&self) -> DispatchView {
        DispatchView {
            subject: self.subject@,
            body: self.body@,
            recipients: self.recipients@,
            context: webhook::optional_context(self.context),
            stage: self.stage,
        }
    }
}

/// Does anybody receive notifications?
pub open spec fn anybody(recipients: config::RecipientsView) -> bool {
    recipients.emails.len() > 0 || recipients.phones.len() > 0
}

/// A notification that sets out: recipients of its own make the stored ones unnecessary.
pub open spec fn start(
    subject: Seq<char>,
    body: Seq<char>,
    recipient_override: Option<config::RecipientsView>,
    context: Option<template::ContextView>,
) -> DispatchView {
    match recipient_override {
        Some(recipients) => if anybody(recipients) {
            DispatchView { subject, body, recipients, context, stage: Stage::Email }
        } else {
            DispatchView {
                subject,
                body,
                recipients: config::no_recipients(),
                context,
                stage: Stage::Recipients,
            }
        },
        None => DispatchView {
            subject,
            body,
            recipients: config::no_recipients(),
            context,
            stage: Stage::Recipients,
        },
    }
}

/// The email delivery that a setting gives rise to: one to all addresses, if the channel is on
/// and there are any.
pub open spec fn email_job(d: DispatchView, setting: Setting<EmailConfig>) -> Option<JobView> {
    match config::active_email(setting) {
        Some(config) => if d.recipients.emails.len() > 0 {
            Some(
                JobView::Email {
                    config,
                    to: d.recipients.emails,
                    subject: d.subject,
                    body: d.body,
                },
            )
        } else {
            None
        },
        None => None,
    }
}

/// The SMS delivery that a setting gives rise to: one to all phone numbers, if the channel is on
/// and there are any.
pub open spec fn sms_job(d: DispatchView, setting: Setting<SmsConfig>) -> Option<JobView> {
    match config::active_sms(setting) {
        Some(config) => if d.recipients.phones.len() > 0 {
            Some(JobView::Sms { config, to: d.recipients.phones, body: d.body })
        } else {
            None
        },
        None => None,
    }
}

/// The webhook delivery that a setting gives rise to, if the channel is on. It needs no
/// recipients.
pub open spec fn webhook_job(
    d: DispatchView,
    setting: Setting<WebhookConfig>,
    timestamp: Seq<char>,
) -> Option<JobView> {
    match config::active_webhook(setting) {
        Some(config) => Some(
            JobView::Webhook {
                config,
                subject: d.subject,
                body: d.body,
                context: Some(
                    webhook::context_or_plain(d.context, d.subject, d.body, timestamp),
                ),
            },
        ),
        None => None,
    }
}

/// What a reading leads to: the notification moves on to the next setting, and the delivery over
/// the channel that was read about sets out. A reading out of turn changes nothing.
pub open spec fn step(d: DispatchView, reading: Reading, timestamp: Seq<char>) -> (
    DispatchView,
    Option<JobView>,
) {
    match (d.stage, reading) {
        (Stage::Recipients, Reading::Recipients(setting)) => (
            DispatchView {
                recipients: config::stored_recipients(setting),
                stage: Stage::Email,
                ..d
            },
            None,
        ),
        (Stage::Email, Reading::Email(setting)) => (
            DispatchView { stage: Stage::Sms, ..d },
            email_job(d, setting),
        ),
        (Stage::Sms, Reading::Sms(setting)) => (
            DispatchView { stage: Stage::Webhook, ..d },
            sms_job(d, setting),
        ),
        (Stage::Webhook, Reading::Webhook(setting)) => (
            DispatchView { context: None, stage: Stage::Done, ..d },
            webhook_job(d, setting, timestamp),
        ),
        _ => (d, None),
    }
}

/// Starts to send a notification via all enabled channels (email, SMS, webhook) to the given or
/// global recipients.
pub fn send_notification(
    subject: &str,
    body: &str,
    recipient_override: Option<&NotificationRecipients>,
    webhook_context: Option<WebhookContext>,
) -> (dispatch: Dispatch)
    ensures
        dispatch@ == start(
            subject@,
            body@,
            match recipient_override {
                Some(recipients) => Some(recipients@),
                None => None,
            },
            webhook::optional_context(webhook_context),
        ),
{
    let subject = subject.to_string();
    let body = body.to_string();
    if let Some(given) = recipient_override {
        if given.emails.len() > 0 || given.phones.len() > 0 {
            return Dispatch {
                subject,
                body,
                recipients: given.clone(),
                context: webhook_context,
                stage: Stage::Email,
            };
        }
    }
    Dispatch {
        subject,
        body,
        recipients: NotificationRecipients::default(),
        context: webhook_context,
        stage: Stage::Recipients,
    }
}

/// The setting that a stage reads.
pub open spec fn setting_of(stage: Stage) -> Option<SettingKey> {
    match stage {
        Stage::Recipients => Some(SettingKey::Recipients),
        Stage::Email => Some(SettingKey::Email),
        Stage::Sms => Some(SettingKey::Sms),
        Stage::Webhook => Some(SettingKey::Webhook),
        Stage::Done => None,
    }
}

impl Dispatch {
    /// The setting to be read next, or none once the notification is on its way everywhere.
    pub fn wants(&self) -> (setting: Option<SettingKey>)
        ensures
            setting == setting_of(self.stage),
    {
        match self.stage {
            Stage::Recipients => Some(SettingKey::Recipients),
            Stage::Email => Some(SettingKey::Email),
            Stage::Sms => Some(SettingKey::Sms),
            Stage::Webhook => Some(SettingKey::Webhook),
            Stage::Done => None,
        }
    }

    /// Takes what reading a setting at the time `timestamp` came to.
    pub fn on_setting(self, reading: Reading, timestamp: &str) -> (next: (Dispatch, Option<Job>))
        ensures
            next.0@ == step(self@, reading, timestamp@).0,
            is_job(next.1, step(self@, reading, timestamp@).1),
    {
        let Dispatch { subject, body, recipients, context, stage } = self;
        match (stage, reading) {
            (Stage::Recipients, Reading::Recipients(setting)) => {
                let recipients = config::load_recipients(setting);
                (Dispatch { subject, body, recipients, context, stage: Stage::Email }, None)
            },
            (Stage::Email, Reading::Email(setting)) => {
                let job = match config::load_email_config(setting) {
                    Some(config) => if recipients.emails.len() > 0 {
                        Some(
                            Job::Email(
                                email::send_email(
                                    config,
                                    config::copy_texts(&recipients.emails),
                                    subject.clone(),
                                    body.clone(),
                                ),
                            ),
                        )
                    } else {
                        None
                    },
                    None => None,
                };
                (Dispatch { subject, body, recipients, context, stage: Stage::Sms }, job)
            },
            (Stage::Sms, Reading::Sms(setting)) => {
                let job = match config::load_sms_config(setting) {
                    Some(config) => if recipients.phones.len() > 0 {
                        Some(
                            Job::Sms(
                                sms::send_sms(
                                    config,
                                    config::copy_texts(&recipients.phones),
                                    body.clone(),
                                ),
                            ),
                        )
                    } else {
                        None
                    },
                    None => None,
                };
                (Dispatch { subject, body, recipients, context, stage: Stage::Webhook }, job)
            },
            (Stage::Webhook, Reading::Webhook(setting)) => {
                let job = match config::load_webhook_config(setting) {
                    Some(config) => {
                        let context = match context {
                            Some(given) => given,
                            None => webhook::bare_context(
                                subject.as_str(),
                                body.as_str(),
                                timestamp.to_string(),
                            ),
                        };
                        Some(
                            Job::Webhook(
                                WebhookJob {
                                    config,
                                    subject: subject.clone(),
                                    body: body.clone(),
                                    context: Some(context),
                                },
                            ),
                        )
                    },
                    None => None,
                };
                (Dispatch { subject, body, recipients, context: None, stage: Stage::Done }, job)
            },
            _ => (Dispatch { subject, body, recipients, context, stage }, None),
        }
    }

    /// Takes what reading a setting just now came to.
    pub fn advance(self, reading: Reading) -> (next: (Dispatch, Option<Job>))
        ensures
            exists|at: clock::UtcInstant|
                at.wf() && next.0@ == step(self@, reading, #[trigger] clock::rfc3339_of(at)).0
                    && is_job(next.1, step(self@, reading, clock::rfc3339_of(at)).1),
    {
        let timestamp = clock::now_rfc3339();
        self.on_setting(reading, timestamp.as_str())
    }
}

/// The recipients of a notification: its own, if it has any, or else the stored ones.
pub open spec fn effective_recipients(
    recipient_override: Option<config::RecipientsView>,
    stored: Setting<NotificationRecipients>,
) -> config::RecipientsView {
    match recipient_override {
        Some(own) => if anybody(own) {
            own
        } else {
            config::stored_recipients(stored)
        },
        None => config::stored_recipients(stored),
    }
}

/// A notification to these recipients, before the first channel.
pub open spec fn addressed(
    subject: Seq<char>,
    body: Seq<char>,
    recipients: config::RecipientsView,
    context: Option<template::ContextView>,
) -> DispatchView {
    DispatchView { subject, body, recipients, context, stage: Stage::Email }
}

/// The notification after the recipients have been settled, with the stored ones read only where
/// they are wanted.
pub open spec fn settle_recipients(
    d: DispatchView,
    stored: Setting<NotificationRecipients>,
    timestamp: Seq<char>,
) -> DispatchView {
    if d.stage == Stage::Recipients {
        step(d, Reading::Recipients(stored), timestamp).0
    } else {
        d
    }
}

/// From the start to the end a notification gives rise to one delivery over each channel that is
/// on and has somebody to reach, and to no other: to the notification's own recipients, or, if it
/// has none, to the stored ones. A webhook needs no recipients.
pub proof fn notification_reaches_active_channels(
    subject: Seq<char>,
    body: Seq<char>,
    recipient_override: Option<config::RecipientsView>,
    context: Option<template::ContextView>,
    stored: Setting<NotificationRecipients>,
    email: Setting<EmailConfig>,
    sms: Setting<SmsConfig>,
    hook: Setting<WebhookConfig>,
    timestamp: Seq<char>,
)
    ensures
        ({
            let whom = effective_recipients(recipient_override, stored);
            let d = addressed(subject, body, whom, context);
            let d0 = settle_recipients(
                start(subject, body, recipient_override, context),
                stored,
                timestamp,
            );
            let s1 = step(d0, Reading::Email(email), timestamp);
            let s2 = step(s1.0, Reading::Sms(sms), timestamp);
            let s3 = step(s2.0, Reading::Webhook(hook), timestamp);
            &&& s1.1 == email_job(d, email)
            &&& s2.1 == sms_job(d, sms)
            &&& s3.1 == webhook_job(d, hook, timestamp)
            &&& s3.0.stage == Stage::Done
        }),
{
}

/// A notification with recipients of its own never asks for the stored ones.
pub proof fn own_recipients_are_enough(
    subject: Seq<char>,
    body: Seq<char>,
    own: config::RecipientsView,
    context: Option<template::ContextView>,
)
    requires
        anybody(own),
    ensures
        start(subject, body, Some(own), context).stage == Stage::Email,
        start(subject, body, Some(own), context).recipients == own,
{
}

/// A reading out of turn leaves the notification as it is and sends nothing.
pub proof fn readings_out_of_turn_are_ignored(
    d: DispatchView,
    reading: Reading,
    timestamp: Seq<char>,
)
    requires
        match reading {
            Reading::Recipients(_) => d.stage != Stage::Recipients,
            Reading::Email(_) => d.stage != Stage::Email,
            Reading::Sms(_) => d.stage != Stage::Sms,
            Reading::Webhook(_) => d.stage != Stage::Webhook,
        },
    ensures
        step(d, reading, timestamp) == (d, None::<JobView>),
{
}

/// From the start to the end, a notification whose own recipients or else whose stored ones
/// include addresses is emailed to all of these addresses, in their order, if an enabled
/// configuration is stored: with that configuration, and with the notification's own subject and
/// body. Without addresses, or without an enabled configuration, there is no email.
pub proof fn email_goes_to_every_address(
    subject: Seq<char>,
    body: Seq<char>,
    own: Option<config::RecipientsView>,
    context: Option<template::ContextView>,
    stored: NotificationRecipients,
    config: EmailConfig,
    setting: Setting<EmailConfig>,
    timestamp: Seq<char>,
    whom: Seq<String>,
)
    requires
        own matches Some(given) ==> (given.emails.len() > 0 || given.phones.len() > 0 ==> whom
            == given.emails),
        own matches Some(given) ==> (given.emails.len() == 0 && given.phones.len() == 0 ==> whom
            == stored.emails@),
        own is None ==> whom == stored.emails@,
    ensures
        ({
            let d = settle_recipients(
                start(subject, body, own, context),
                Setting::Value(stored),
                timestamp,
            );
            &&& config.enabled && whom.len() > 0 ==> step(
                d,
                Reading::Email(Setting::Value(config)),
                timestamp,
            ).1 == Some(JobView::Email { config, to: whom, subject, body })
            &&& !config.enabled ==> step(
                d,
                Reading::Email(Setting::Value(config)),
                timestamp,
            ).1 is None
            &&& whom.len() == 0 || !(setting is Value) ==> step(
                d,
                Reading::Email(setting),
                timestamp,
            ).1 is None
        }),
{
}

/// From the start to the end, a notification whose own recipients or else whose stored ones
/// include phone numbers is texted to all of these numbers, in their order, if an enabled
/// configuration is stored: with that configuration, and with the notification's own body.
/// Without numbers, or without an enabled configuration, there is no SMS. What was read about
/// email makes no difference.
pub proof fn sms_goes_to_every_number(
    subject: Seq<char>,
    body: Seq<char>,
    own: Option<config::RecipientsView>,
    context: Option<template::ContextView>,
    stored: NotificationRecipients,
    email: Setting<EmailConfig>,
    config: SmsConfig,
    setting: Setting<SmsConfig>,
    timestamp: Seq<char>,
    whom: Seq<String>,
)
    requires
        own matches Some(given) ==> (given.emails.len() > 0 || given.phones.len() > 0 ==> whom
            == given.phones),
        own matches Some(given) ==> (given.emails.len() == 0 && given.phones.len() == 0 ==> whom
            == stored.phones@),
        own is None ==> whom == stored.phones@,
    ensures
        ({
            let settled = settle_recipients(
                start(subject, body, own, context),
                Setting::Value(stored),
                timestamp,
            );
            let d = step(settled, Reading::Email(email), timestamp).0;
            &&& config.enabled && whom.len() > 0 ==> step(
                d,
                Reading::Sms(Setting::Value(config)),
                timestamp,
            ).1 == Some(JobView::Sms { config, to: whom, body })
            &&& !config.enabled ==> step(
                d,
                Reading::Sms(Setting::Value(config)),
                timestamp,
            ).1 is None
            &&& whom.len() == 0 || !(setting is Value) ==> step(
                d,
                Reading::Sms(setting),
                timestamp,
            ).1 is None
        }),
{
}

/// From the start to the end, a notification goes to the webhook if an enabled configuration with
/// an address is stored, whoever the recipients are: with that configuration, the notification's
/// own subject and body, and its own context; one without a context gets one with its subject, its
/// body and the time. What was read about email and SMS makes no difference.
pub proof fn webhook_needs_no_recipients(
    subject: Seq<char>,
    body: Seq<char>,
    own: Option<config::RecipientsView>,
    context: Option<template::ContextView>,
    stored: Setting<NotificationRecipients>,
    email: Setting<EmailConfig>,
    sms: Setting<SmsConfig>,
    config: WebhookConfig,
    setting: Setting<WebhookConfig>,
    timestamp: Seq<char>,
)
    ensures
        ({
            let settled = settle_recipients(start(subject, body, own, context), stored, timestamp);
            let past_email = step(settled, Reading::Email(email), timestamp).0;
            let d = step(past_email, Reading::Sms(sms), timestamp).0;
            let hooked = step(d, Reading::Webhook(Setting::Value(config)), timestamp);
            &&& config.enabled && config.url@.len() > 0 ==> (context matches Some(given)
                ==> hooked.1 == Some(
                JobView::Webhook { config, subject, body, context: Some(given) },
            ))
            &&& config.enabled && config.url@.len() > 0 && context is None ==> hooked.1 == Some(
                JobView::Webhook {
                    config,
                    subject,
                    body,
                    context: Some(
                        template::ContextView {
                            subject,
                            body,
                            job_name: None,
                            status: None,
                            execution_id: None,
                            stdout: None,
                            stderr: None,
                            timestamp,
                        },
                    ),
                },
            )
            &&& !config.enabled || config.url@.len() == 0 ==> hooked.1 is None
            &&& !(setting is Value) ==> step(d, Reading::Webhook(setting), timestamp).1 is None
        }),
{
}

/// A notification sets out with its own subject, body and context. Recipients of its own are
/// kept, all of them, and the first channel follows; without any, the stored ones are asked for.
pub proof fn notification_sets_out_whole(
    subject: Seq<char>,
    body: Seq<char>,
    own: Option<config::RecipientsView>,
    context: Option<template::ContextView>,
)
    ensures
        ({
            let d = start(subject, body, own, context);
            &&& d.subject == subject
            &&& d.body == body
            &&& d.context == context
            &&& own matches Some(given) ==> (given.emails.len() > 0 || given.phones.len() > 0
                ==> d.recipients == given && d.stage == Stage::Email)
            &&& own matches Some(given) ==> (given.emails.len() == 0 && given.phones.len() == 0
                ==> d.stage == Stage::Recipients)
            &&& own is None ==> d.stage == Stage::Recipients
            &&& d.stage == Stage::Recipients ==> d.recipients.emails.len() == 0
                && d.recipients.phones.len() == 0
        }),
{
}

/// Each stage asks for one setting, and the reading of that setting, whatever it came to, leads to
/// the next stage: the recipients, email, SMS, the webhook, in this order. A notification that is
/// on its way everywhere asks for nothing. On its way it keeps its subject and its body, and its
/// recipients once they are settled.
pub proof fn stages_follow_in_order(d: DispatchView, reading: Reading, timestamp: Seq<char>)
    ensures
        setting_of(Stage::Recipients) == Some(SettingKey::Recipients),
        setting_of(Stage::Email) == Some(SettingKey::Email),
        setting_of(Stage::Sms) == Some(SettingKey::Sms),
        setting_of(Stage::Webhook) == Some(SettingKey::Webhook),
        setting_of(Stage::Done) is None,
        ({
            let next = step(d, reading, timestamp).0;
            &&& next.subject == d.subject
            &&& next.body == d.body
            &&& d.stage != Stage::Recipients ==> next.recipients == d.recipients
            &&& d.stage != Stage::Webhook ==> next.context == d.context
            &&& d.stage == Stage::Recipients ==> (reading matches Reading::Recipients(setting)
                ==> next.stage == Stage::Email && next.recipients == config::stored_recipients(
                setting,
            ))
            &&& d.stage == Stage::Recipients ==> step(d, reading, timestamp).1 is None
            &&& d.stage == Stage::Email && reading is Email ==> next.stage == Stage::Sms
            &&& d.stage == Stage::Sms && reading is Sms ==> next.stage == Stage::Webhook
            &&& d.stage == Stage::Webhook && reading is Webhook ==> next.stage == Stage::Done
        }),
{
}

/// A delivery shows all of its parts, each under its own name.
pub proof fn job_shows_its_parts(email: EmailRun, sms: SmsRun, hook: WebhookJob)
    ensures
        Job::Email(email)@ == (JobView::Email {
            config: email.config,
            to: email.to@,
            subject: email.subject@,
            body: email.body@,
        }),
        Job::Sms(sms)@ == (JobView::Sms { config: sms.config, to: sms.to@, body: sms.body@ }),
        hook.context matches Some(context) ==> Job::Webhook(hook)@ == (JobView::Webhook {
            config: hook.config,
            subject: hook.subject@,
            body: hook.body@,
            context: Some(context@),
        }),
        hook.context is None ==> Job::Webhook(hook)@ == (JobView::Webhook {
            config: hook.config,
            subject: hook.subject@,
            body: hook.body@,
            context: None,
        }),
        Job::Email(email).fresh() <==> email.sent == 0,
        Job::Sms(sms).fresh() <==> sms.sent == 0,
{
}

/// A delivery is the expected one just where it shows the same and nothing of it was sent, and
/// none is expected just where there is none.
pub proof fn expected_job_is_exact(job: Job, expected: JobView)
    ensures
        is_job(Some(job), Some(expected)) <==> job@ == expected && job.fresh(),
        !is_job(Some(job), None),
        !is_job(None, Some(expected)),
        is_job(None, None),
{
}

/// A notification on its way shows all of its parts, each under its own name.
pub proof fn dispatch_shows_its_parts(d: Dispatch)
    ensures
        d@.subject == d.subject@,
        d@.body == d.body@,
        d@.recipients.emails == d.recipients.emails@,
        d@.recipients.phones == d.recipients.phones@,
        d@.stage == d.stage,
        d.context matches Some(context) ==> d@.context == Some(context@),
        d.context is None ==> d@.context is None,
{
}

/// A reading of an enabled configuration in its turn gives rise to a delivery that has not begun,
/// with that configuration: an email to every address of the notification, an SMS to every phone
/// number, each with the notification's own words.
pub proof fn delivery_is_to_everybody(
    d: Dispatch,
    email: EmailConfig,
    sms: SmsConfig,
    timestamp: &str,
    reading: Reading,
    next: (Dispatch, Option<Job>),
)
    requires
        call_ensures(Dispatch::on_setting, (d, reading, timestamp), next),
    ensures
        d.stage is Email && reading == Reading::Email(Setting::Value(email)) && email.enabled
            && d.recipients.emails@.len() > 0 ==> (next.1 matches Some(Job::Email(run)) && {
            &&& run.config == email
            &&& run.to@ == d.recipients.emails@
            &&& run.subject@ == d.subject@
            &&& run.body@ == d.body@
            &&& run.sent == 0
        }),
        d.stage is Sms && reading == Reading::Sms(Setting::Value(sms)) && sms.enabled
            && d.recipients.phones@.len() > 0 ==> (next.1 matches Some(Job::Sms(run)) && {
            &&& run.config == sms
            &&& run.to@ == d.recipients.phones@
            &&& run.body@ == d.body@
            &&& run.sent == 0
        }),
        next.0.subject@ == d.subject@,
        next.0.body@ == d.body@,
        !(d.stage is Recipients) ==> next.0.recipients.emails@ == d.recipients.emails@
            && next.0.recipients.phones@ == d.recipients.phones@,
{
}

/// A reading of an enabled webhook configuration with an address, in its turn, gives rise to a
/// delivery with that configuration, the notification's own words, and its own context where it
/// has one.
pub proof fn webhook_gets_the_notification(
    d: Dispatch,
    hook: WebhookConfig,
    timestamp: &str,
    next: (Dispatch, Option<Job>),
)
    requires
        call_ensures(
            Dispatch::on_setting,
            (d, Reading::Webhook(Setting::Value(hook)), timestamp),
            next,
        ),
        d.stage is Webhook,
        hook.enabled,
        hook.url@.len() > 0,
    ensures
        next.1 matches Some(Job::Webhook(job)) && {
            &&& job.config == hook
            &&& job.subject@ == d.subject@
            &&& job.body@ == d.body@
            &&& job.context matches Some(context) && {
                &&& d.context matches Some(given) ==> context@ == given@
                &&& d.context is None ==> context.subject@ == d.subject@ && context.body@
                    == d.body@ && context.timestamp@ == timestamp@ && context.job_name is None
                    && context.status is None && context.execution_id is None
                    && context.stdout is None && context.stderr is None
            }
        },
{
}

}
