//! Webhook deliveries: Slack, Teams, PagerDuty, Discord, a custom template, the output of the
//! job itself, or a generic document.
use vstd::prelude::*;
use crate::clock;
use crate::config;
use crate::config::WebhookConfig;
use crate::http;
use crate::http::{HttpAction, HttpPost, HttpReply};
use crate::json;
use crate::template;
use crate::template::WebhookContext;
use crate::text;

verus! {

/// The template of a custom webhook that has none of its own.
pub const DEFAULT_TEMPLATE: &'static str = "{\"text\": \"{{subject}}\\n{{body}}\"}";

/// The header that carries the PagerDuty routing key and is not sent as a header.
pub const ROUTING_KEY: &'static str = "routing_key";

/// How the errors of webhook deliveries name the channel.
pub const WEBHOOK_CHANNEL: &'static str = "webhook";

/// The value of the first header with this name.
pub open spec fn header_value(headers: Seq<(String, String)>, name: Seq<char>) -> Option<Seq<char>>
    decreases headers.len(),
{
    if headers.len() == 0 {
        None
    } else if headers[0].0@ == name {
        Some(headers[0].1@)
    } else {
        header_value(headers.skip(1), name)
    }
}

/// The headers that are sent: all but the routing key, in their order.
pub open spec fn sent_headers(headers: Seq<(String, String)>) -> Seq<(Seq<char>, Seq<char>)>
    decreases headers.len(),
{
    if headers.len() == 0 {
        Seq::empty()
    } else if headers.last().0@ == ROUTING_KEY@ {
        sent_headers(headers.drop_last())
    } else {
        sent_headers(headers.drop_last()).push(http::pair_text(headers.last()))
    }
}

/// The Slack message.
pub open spec fn slack_payload(subject: Seq<char>, body: Seq<char>) -> serde_json::Value {
    json::json_object(map!["text"@ => json::json_string("*"@ + subject + "*\n"@ + body)])
}

/// The Teams message.
pub open spec fn teams_payload(subject: Seq<char>, body: Seq<char>) -> serde_json::Value {
    json::json_object(
        map!["title"@ => json::json_string(subject), "text"@ => json::json_string(body)],
    )
}

/// The PagerDuty event.
pub open spec fn pagerduty_payload(
    routing_key: Seq<char>,
    subject: Seq<char>,
    body: Seq<char>,
) -> serde_json::Value {
    json::json_object(
        map![
            "routing_key"@ => json::json_string(routing_key),
            "event_action"@ => json::json_string("trigger"@),
            "payload"@ => json::json_object(map![
                "summary"@ => json::json_string(subject),
                "source"@ => json::json_string("kronforce"@),
                "severity"@ => json::json_string("error"@),
                "custom_details"@ => json::json_object(map!["body"@ => json::json_string(body)]),
            ]),
        ],
    )
}

/// The colour of a Discord message: green for success, orange for a timeout, red for the rest.
pub open spec fn embed_color(subject: Seq<char>) -> u32 {
    if text::contains(subject, "succeeded"@) {
        0x2ECC71
    } else if text::contains(subject, "timed out"@) {
        0xF39C12
    } else {
        0xE74C3C
    }
}

/// The Discord message.
pub open spec fn discord_payload(
    subject: Seq<char>,
    body: Seq<char>,
    timestamp: Seq<char>,
) -> serde_json::Value {
    json::json_object(
        map!["embeds"@ => json::json_array(seq![
            json::json_object(map![
                "title"@ => json::json_string(subject),
                "description"@ => json::json_string(body),
                "color"@ => json::json_number(embed_color(subject) as int),
                "footer"@ => json::json_object(map!["text"@ => json::json_string("Kronforce"@)]),
                "timestamp"@ => json::json_string(timestamp),
            ]),
        ])],
    )
}

/// The generic document.
pub open spec fn generic_payload(
    subject: Seq<char>,
    body: Seq<char>,
    timestamp: Seq<char>,
) -> serde_json::Value {
    json::json_object(
        map![
            "subject"@ => json::json_string(subject),
            "body"@ => json::json_string(body),
            "source"@ => json::json_string("kronforce"@),
            "timestamp"@ => json::json_string(timestamp),
        ],
    )
}

/// What a rendered custom template comes to, given what the parser made of it.
pub open spec fn custom_outcome(
    parsed: Result<serde_json::Value, Seq<char>>,
    rendered: Seq<char>,
) -> Result<serde_json::Value, Seq<char>> {
    match parsed {
        Ok(document) => Ok(document),
        Err(error) => Err(
            "custom template produced invalid JSON: "@ + error + "\nRendered: "@ + rendered,
        ),
    }
}

/// What the output of a job comes to, given what the parser made of it: the output itself where
/// it is JSON, and otherwise the generic document.
pub open spec fn passthrough_outcome(
    parsed: Result<serde_json::Value, Seq<char>>,
    subject: Seq<char>,
    body: Seq<char>,
    timestamp: Seq<char>,
) -> serde_json::Value {
    match parsed {
        Ok(document) => document,
        Err(_) => generic_payload(subject, body, timestamp),
    }
}

/// The template of a custom webhook.
pub open spec fn template_text(config: WebhookConfig) -> Seq<char> {
    match config.template {
        Some(own) => own@,
        None => DEFAULT_TEMPLATE@,
    }
}

/// The document that a webhook sends, or why there is none. A custom webhook sends its rendered
/// template, which has to be JSON. A passthrough webhook sends the output of the job where that is
/// JSON, and the generic document where it is empty or not JSON. Any format that is not known
/// sends the generic document.
pub open spec fn payload_of(
    config: WebhookConfig,
    subject: Seq<char>,
    body: Seq<char>,
    ctx: template::ContextView,
    timestamp: Seq<char>,
) -> Result<serde_json::Value, Seq<char>> {
    let format = config.format@;
    if format == "slack"@ {
        Ok(slack_payload(subject, body))
    } else if format == "teams"@ {
        Ok(teams_payload(subject, body))
    } else if format == "pagerduty"@ {
        Ok(
            pagerduty_payload(
                template::or_empty(header_value(config.headers@, ROUTING_KEY@)),
                subject,
                body,
            ),
        )
    } else if format == "discord"@ {
        Ok(discord_payload(subject, body, timestamp))
    } else if format == "custom"@ {
        let rendered = template::render(template_text(config), ctx);
        custom_outcome(json::json_parse(rendered), rendered)
    } else if format == "passthrough"@ {
        let raw = text::trim(template::or_empty(ctx.stdout));
        if raw.len() == 0 {
            Ok(generic_payload(subject, body, timestamp))
        } else {
            Ok(passthrough_outcome(json::json_parse(raw), subject, body, timestamp))
        }
    } else {
        Ok(generic_payload(subject, body, timestamp))
    }
}

/// The post that a webhook makes, or why it makes none.
pub open spec fn post_of(
    config: WebhookConfig,
    subject: Seq<char>,
    body: Seq<char>,
    ctx: template::ContextView,
    timestamp: Seq<char>,
) -> Result<http::PostView, Seq<char>> {
    match payload_of(config, subject, body, ctx, timestamp) {
        Ok(payload) => Ok(
            http::PostView {
                url: config.url@,
                payload,
                headers: sent_headers(config.headers@),
                basic_auth: None,
            },
        ),
        Err(error) => Err(error),
    }
}

/// What a webhook delivery does first.
pub open spec fn first_action(
    config: WebhookConfig,
    subject: Seq<char>,
    body: Seq<char>,
    ctx: template::ContextView,
    timestamp: Seq<char>,
) -> http::ActionView {
    match post_of(config, subject, body, ctx, timestamp) {
        Ok(post) => http::ActionView::Post(post),
        Err(error) => http::ActionView::Finish(Err(error)),
    }
}

/// What a webhook delivery does about the reply to its post.
pub open spec fn action_after(reply: http::ReplyView) -> http::ActionView {
    match reply {
        http::ReplyView::Failed(error) => http::ActionView::Finish(
            Err(http::unsent(WEBHOOK_CHANNEL@, error)),
        ),
        http::ReplyView::Status(status) => if http::succeeded(status) {
            http::ActionView::Finish(Ok(()))
        } else {
            http::ActionView::ReadBody(status)
        },
    }
}

/// Looks up the first header with this name; where there is none the text is empty.
pub fn find_header(headers: &Vec<(String, String)>, name: &str) -> (value: String)
    ensures
        value@ == template::or_empty(header_value(headers@, name@)),
{
    assert(headers@.skip(0) =~= headers@);
    for k in 0..headers.len()
        invariant
            header_value(headers@.skip(k as int), name@) == header_value(headers@, name@),
    {
        if text::same_text(headers[k].0.as_str(), name) {
            return headers[k].1.clone();
        }
        assert(headers@.skip(k as int).skip(1) =~= headers@.skip(k + 1));
    }
    String::new()
}

/// The headers to be sent: all but the routing key.
pub fn headers_to_send(headers: &Vec<(String, String)>) -> (sent: Vec<(String, String)>)
    ensures
        http::pair_texts(sent@) == sent_headers(headers@),
{
    let mut sent: Vec<(String, String)> = Vec::new();
    for k in 0..headers.len()
        invariant
            http::pair_texts(sent@) == sent_headers(headers@.take(k as int)),
    {
        assert(headers@.take(k + 1).drop_last() =~= headers@.take(k as int));
        if !text::same_text(headers[k].0.as_str(), ROUTING_KEY) {
            let ghost before = sent@;
            sent.push((headers[k].0.clone(), headers[k].1.clone()));
            assert(http::pair_texts(sent@) =~= http::pair_texts(before).push(
                http::pair_text(headers@[k as int]),
            ));
        }
    }
    assert(headers@.take(headers@.len() as int) =~= headers@);
    sent
}

/// Builds the Slack message.
fn slack(subject: &str, body: &str) -> (payload: serde_json::Value)
    ensures
        payload == slack_payload(subject@, body@),
{
    let mut message = "*".to_string();
    message.append(subject);
    message.append("*\n");
    message.append(body);
    let mut object = json::new_object();
    json::set_member(&mut object, "text", json::string_value(message.as_str()));
    json::object_value(object)
}

/// Builds the Teams message.
fn teams(subject: &str, body: &str) -> (payload: serde_json::Value)
    ensures
        payload == teams_payload(subject@, body@),
{
    let mut object = json::new_object();
    json::set_member(&mut object, "title", json::string_value(subject));
    json::set_member(&mut object, "text", json::string_value(body));
    json::object_value(object)
}

/// Builds the PagerDuty event.
fn pagerduty(routing_key: &str, subject: &str, body: &str) -> (payload: serde_json::Value)
    ensures
        payload == pagerduty_payload(routing_key@, subject@, body@),
{
    let mut details = json::new_object();
    json::set_member(&mut details, "body", json::string_value(body));
    let mut event = json::new_object();
    json::set_member(&mut event, "summary", json::string_value(subject));
    json::set_member(&mut event, "source", json::string_value("kronforce"));
    json::set_member(&mut event, "severity", json::string_value("error"));
    json::set_member(&mut event, "custom_details", json::object_value(details));
    let mut object = json::new_object();
    json::set_member(&mut object, "routing_key", json::string_value(routing_key));
    json::set_member(&mut object, "event_action", json::string_value("trigger"));
    json::set_member(&mut object, "payload", json::object_value(event));
    json::object_value(object)
}

/// The colour of a Discord message with this subject.
pub fn color_for(subject: &str) -> (color: u32)
    ensures
        color == embed_color(subject@),
{
    if text::text_contains(subject, "succeeded") {
        0x2ECC71
    } else if text::text_contains(subject, "timed out") {
        0xF39C12
    } else {
        0xE74C3C
    }
}

/// Builds the Discord message.
fn discord(subject: &str, body: &str, timestamp: &str) -> (payload: serde_json::Value)
    ensures
        payload == discord_payload(subject@, body@, timestamp@),
{
    let mut footer = json::new_object();
    json::set_member(&mut footer, "text", json::string_value("Kronforce"));
    let mut embed = json::new_object();
    json::set_member(&mut embed, "title", json::string_value(subject));
    json::set_member(&mut embed, "description", json::string_value(body));
    json::set_member(&mut embed, "color", json::number_value(color_for(subject)));
    json::set_member(&mut embed, "footer", json::object_value(footer));
    json::set_member(&mut embed, "timestamp", json::string_value(timestamp));
    let embed_value = json::object_value(embed);
    let mut embeds: Vec<serde_json::Value> = Vec::new();
    embeds.push(embed_value);
    assert(embeds@ =~= seq![embed_value]);
    let mut object = json::new_object();
    json::set_member(&mut object, "embeds", json::array_value(embeds));
    json::object_value(object)
}

/// Builds the generic document.
fn generic(subject: &str, body: &str, timestamp: &str) -> (payload: serde_json::Value)
    ensures
        payload == generic_payload(subject@, body@, timestamp@),
{
    let mut object = json::new_object();
    json::set_member(&mut object, "subject", json::string_value(subject));
    json::set_member(&mut object, "body", json::string_value(body));
    json::set_member(&mut object, "source", json::string_value("kronforce"));
    json::set_member(&mut object, "timestamp", json::string_value(timestamp));
    json::object_value(object)
}

/// Takes what the parser made of a rendered custom template.
pub fn custom_payload(parsed: Result<serde_json::Value, String>, rendered: &str) -> (payload:
    Result<serde_json::Value, String>)
    ensures
        match parsed {
            Ok(document) => payload == Ok::<serde_json::Value, String>(document),
            Err(error) => text::agrees(payload, custom_outcome(Err(error@), rendered@)),
        },
{
    match parsed {
        Ok(document) => Ok(document),
        Err(error) => {
            let mut message = "custom template produced invalid JSON: ".to_string();
            message.append(error.as_str());
            message.append("\nRendered: ");
            message.append(rendered);
            Err(message)
        },
    }
}

/// Takes what the parser made of the output of a job: output that is not JSON gives way to the
/// generic document.
pub fn passthrough_payload(
    parsed: Result<serde_json::Value, String>,
    subject: &str,
    body: &str,
    timestamp: &str,
) -> (payload: serde_json::Value)
    ensures
        payload == (match parsed {
            Ok(document) => document,
            Err(_) => generic_payload(subject@, body@, timestamp@),
        }),
{
    match parsed {
        Ok(document) => document,
        Err(_) => generic(subject, body, timestamp),
    }
}

/// The document that a webhook sends, or why there is none.
pub fn webhook_payload(
    config: &WebhookConfig,
    subject: &str,
    body: &str,
    ctx: &WebhookContext,
    timestamp: &str,
) -> (payload: Result<serde_json::Value, String>)
    ensures
        text::agrees(payload, payload_of(*config, subject@, body@, ctx@, timestamp@)),
{
    let format = config.format.as_str();
    if text::same_text(format, "slack") {
        Ok(slack(subject, body))
    } else if text::same_text(format, "teams") {
        Ok(teams(subject, body))
    } else if text::same_text(format, "pagerduty") {
        let routing_key = find_header(&config.headers, ROUTING_KEY);
        Ok(pagerduty(routing_key.as_str(), subject, body))
    } else if text::same_text(format, "discord") {
        Ok(discord(subject, body, timestamp))
    } else if text::same_text(format, "custom") {
        let own = match &config.template {
            Some(own) => own.as_str(),
            None => DEFAULT_TEMPLATE,
        };
        let rendered = template::render_template(own, ctx);
        custom_payload(json::parse_json(rendered.as_str()), rendered.as_str())
    } else if text::same_text(format, "passthrough") {
        let raw = text::text_trim(template::text_or_empty(&ctx.stdout));
        if raw.as_str().is_empty() {
            Ok(generic(subject, body, timestamp))
        } else {
            Ok(passthrough_payload(json::parse_json(raw.as_str()), subject, body, timestamp))
        }
    } else {
        Ok(generic(subject, body, timestamp))
    }
}

/// The post that a webhook makes, or why it makes none.
pub fn webhook_post(
    config: &WebhookConfig,
    subject: &str,
    body: &str,
    ctx: &WebhookContext,
    timestamp: &str,
) -> (post: Result<HttpPost, String>)
    ensures
        match post {
            Ok(post) => post_of(*config, subject@, body@, ctx@, timestamp@) == Ok::<
                http::PostView,
                Seq<char>,
            >(post@),
            Err(error) => post_of(*config, subject@, body@, ctx@, timestamp@) == Err::<
                http::PostView,
                Seq<char>,
            >(error@),
        },
{
    match webhook_payload(config, subject, body, ctx, timestamp) {
        Ok(payload) => Ok(
            HttpPost {
                url: config.url.clone(),
                payload,
                headers: headers_to_send(&config.headers),
                basic_auth: None,
            },
        ),
        Err(error) => Err(error),
    }
}

/// The context to render with: the given one, or one with nothing but the notification itself.
pub open spec fn context_or_plain(
    context: Option<template::ContextView>,
    subject: Seq<char>,
    body: Seq<char>,
    timestamp: Seq<char>,
) -> template::ContextView {
    match context {
        Some(given) => given,
        None => template::plain_context(subject, body, timestamp),
    }
}

/// A context as plain texts, if there is one.
pub open spec fn optional_context(context: Option<WebhookContext>) -> Option<
    template::ContextView,
> {
    match context {
        Some(given) => Some(given@),
        None => None,
    }
}

/// The context of a notification that is about no execution.
pub fn bare_context(subject: &str, body: &str, timestamp: String) -> (context: WebhookContext)
    ensures
        context@ == template::plain_context(subject@, body@, timestamp@),
{
    WebhookContext {
        subject: subject.to_string(),
        body: body.to_string(),
        job_name: None,
        status: None,
        execution_id: None,
        stdout: None,
        stderr: None,
        timestamp,
    }
}

/// Starts to send a notification via a webhook (Slack, Teams, PagerDuty, Discord, custom
/// template, or generic JSON POST): gives the post to make, or the error that rules it out. A
/// missing context is made up from the subject, the body and the present time.
pub fn send_webhook(
    config: &WebhookConfig,
    subject: &str,
    body: &str,
    context: Option<&WebhookContext>,
) -> (action: HttpAction)
    ensures
        exists|made: clock::UtcInstant, sent: clock::UtcInstant|
            made.wf() && sent.wf() && action@ == first_action(
                *config,
                subject@,
                body@,
                context_or_plain(
                    match context {
                        Some(given) => Some(given@),
                        None => None,
                    },
                    subject@,
                    body@,
                    #[trigger] clock::rfc3339_of(made),
                ),
                #[trigger] clock::rfc3339_of(sent),
            ),
{
    let own = bare_context(subject, body, clock::now_rfc3339());
    let ctx = match context {
        Some(given) => given,
        None => &own,
    };
    let timestamp = clock::now_rfc3339();
    match webhook_post(config, subject, body, ctx, timestamp.as_str()) {
        Ok(post) => HttpAction::Post(post),
        Err(error) => HttpAction::Finish(Err(error)),
    }
}

/// Takes the reply to the post of a webhook.
pub fn webhook_reply(reply: HttpReply) -> (action: HttpAction)
    ensures
        action@ == action_after(reply@),
{
    match reply {
        HttpReply::Failed(error) => HttpAction::Finish(
            Err(http::unsent_error(WEBHOOK_CHANNEL, error.as_str())),
        ),
        HttpReply::Status(status) => if http::is_success(status) {
            HttpAction::Finish(Ok(()))
        } else {
            HttpAction::ReadBody(status)
        },
    }
}

/// Takes the body of a reply that was not a success, and ends the delivery.
pub fn webhook_refused(status: u16, reply: Option<String>) -> (outcome: Result<(), String>)
    requires
        http::is_status(status),
    ensures
        http::outcome_text(outcome) == Err::<(), Seq<char>>(
            http::refused(
                WEBHOOK_CHANNEL@,
                http::status_text(status as int),
                template::or_empty(template::optional_text(reply)),
            ),
        ),
{
    Err(http::refusal_error(WEBHOOK_CHANNEL, status, &reply))
}

/// A webhook delivery succeeds just where its post is accepted.
pub proof fn accepted_posts_succeed(reply: http::ReplyView)
    ensures
        action_after(reply) == http::ActionView::Finish(Ok(())) <==> http::accepted(reply),
{
}

/// Pairs as a map from the first of each to the second.
pub open spec fn pair_map(pairs: Seq<(Seq<char>, Seq<char>)>) -> Map<Seq<char>, Seq<char>>
    decreases pairs.len(),
{
    if pairs.len() == 0 {
        Map::empty()
    } else {
        pair_map(pairs.drop_last()).insert(pairs.last().0, pairs.last().1)
    }
}

/// A header is found in a list just where it is found before the last one, or is the last one.
proof fn header_value_at_end(headers: Seq<(String, String)>, name: Seq<char>)
    requires
        headers.len() > 0,
    ensures
        header_value(headers, name) == (match header_value(headers.drop_last(), name) {
            Some(value) => Some(value),
            None => if headers.last().0@ == name {
                Some(headers.last().1@)
            } else {
                None
            },
        }),
    decreases headers.len(),
{
    if headers.len() > 1 && headers[0].0@ != name {
        header_value_at_end(headers.skip(1), name);
        assert(headers.skip(1).drop_last() =~= headers.drop_last().skip(1));
    } else if headers.len() == 1 {
        assert(header_value(headers.skip(1), name) is None);
        assert(header_value(headers.drop_last(), name) is None);
    }
}

/// Where no name occurs twice, looking a header up is looking it up in the map of the headers.
proof fn lookup_reads_the_map(headers: Seq<(String, String)>, name: Seq<char>)
    requires
        config::distinct_names(headers),
    ensures
        header_value(headers, name) == (if config::header_map(headers).contains_key(name) {
            Some(config::header_map(headers)[name])
        } else {
            None
        }),
    decreases headers.len(),
{
    if headers.len() > 0 {
        let before = headers.drop_last();
        header_value_at_end(headers, name);
        lookup_reads_the_map(before, name);
        if headers.last().0@ == name {
            names_before_differ(before, headers.last().0@);
        }
    }
}

/// A name that differs from those of all headers is not in their map.
proof fn names_before_differ(headers: Seq<(String, String)>, name: Seq<char>)
    requires
        forall|i: int| 0 <= i < headers.len() ==> (#[trigger] headers[i]).0@ != name,
    ensures
        !config::header_map(headers).contains_key(name),
    decreases headers.len(),
{
    if headers.len() > 0 {
        names_before_differ(headers.drop_last(), name);
        assert(headers.last().0@ != name);
    }
}

/// The routing key is never sent as a header.
pub proof fn routing_key_is_kept_back(headers: Seq<(String, String)>)
    ensures
        forall|i: int|
            0 <= i < sent_headers(headers).len() ==> (#[trigger] sent_headers(headers)[i]).0
                != ROUTING_KEY@,
    decreases headers.len(),
{
    if headers.len() > 0 {
        let before = sent_headers(headers.drop_last());
        routing_key_is_kept_back(headers.drop_last());
        assert forall|i: int| 0 <= i < sent_headers(headers).len() implies (
        #[trigger] sent_headers(headers)[i]).0 != ROUTING_KEY@ by {
            if i < before.len() {
                assert(sent_headers(headers)[i] == before[i]);
            }
        }
    }
}

/// Where no name occurs twice, the headers that are sent are the map without the routing key.
proof fn other_headers_are_sent(headers: Seq<(String, String)>)
    requires
        config::distinct_names(headers),
    ensures
        pair_map(sent_headers(headers)) == config::header_map(headers).remove(ROUTING_KEY@),
    decreases headers.len(),
{
    if headers.len() > 0 {
        let before = headers.drop_last();
        other_headers_are_sent(before);
        if headers.last().0@ != ROUTING_KEY@ {
            assert(sent_headers(headers).drop_last() =~= sent_headers(before));
        }
        assert(pair_map(sent_headers(headers)) =~= config::header_map(headers).remove(
            ROUTING_KEY@,
        ));
    } else {
        assert(pair_map(sent_headers(headers)) =~= config::header_map(headers).remove(
            ROUTING_KEY@,
        ));
    }
}

/// The headers of a webhook are a map, however they are listed: the routing key is what the map
/// holds for it, and every other header is sent with its value, and nothing else is.
pub proof fn headers_are_a_map(config: WebhookConfig)
    requires
        config.wf(),
    ensures
        header_value(config.headers@, ROUTING_KEY@) == (if config::header_map(
            config.headers@,
        ).contains_key(ROUTING_KEY@) {
            Some(config::header_map(config.headers@)[ROUTING_KEY@])
        } else {
            None
        }),
        pair_map(sent_headers(config.headers@)) == config::header_map(config.headers@).remove(
            ROUTING_KEY@,
        ),
{
    lookup_reads_the_map(config.headers@, ROUTING_KEY@);
    other_headers_are_sent(config.headers@);
}

/// Does the format name none of the special documents?
pub open spec fn is_plain_format(format: Seq<char>) -> bool {
    &&& format != "slack"@
    &&& format != "teams"@
    &&& format != "pagerduty"@
    &&& format != "discord"@
    &&& format != "custom"@
    &&& format != "passthrough"@
}

/// A webhook whose format is none of the special ones sends the generic document, and so does a
/// passthrough webhook whose job printed nothing but white space, or something that is not JSON.
pub proof fn generic_is_the_fallback(
    config: WebhookConfig,
    subject: Seq<char>,
    body: Seq<char>,
    ctx: template::ContextView,
    timestamp: Seq<char>,
)
    ensures
        ({
            let raw = text::trim(template::or_empty(ctx.stdout));
            ||| is_plain_format(config.format@)
            ||| config.format@ == "passthrough"@ && (raw.len() == 0 || json::json_parse(raw) is Err)
        }) ==> payload_of(config, subject, body, ctx, timestamp) == Ok::<
            serde_json::Value,
            Seq<char>,
        >(generic_payload(subject, body, timestamp)),
{
    formats_differ();
}

/// A passthrough webhook sends the output of its job as it is where that is not blank and is JSON.
pub proof fn passthrough_sends_json_output(
    config: WebhookConfig,
    subject: Seq<char>,
    body: Seq<char>,
    ctx: template::ContextView,
    timestamp: Seq<char>,
)
    requires
        config.format@ == "passthrough"@,
        text::trim(template::or_empty(ctx.stdout)).len() > 0,
    ensures
        json::json_parse(text::trim(template::or_empty(ctx.stdout))) matches Ok(document)
            ==> payload_of(config, subject, body, ctx, timestamp) == Ok::<
            serde_json::Value,
            Seq<char>,
        >(document),
{
    formats_differ();
}

/// Only a custom webhook can be left without a document to send, and that just where its rendered
/// template is not JSON.
pub proof fn only_custom_templates_fail(
    config: WebhookConfig,
    subject: Seq<char>,
    body: Seq<char>,
    ctx: template::ContextView,
    timestamp: Seq<char>,
)
    ensures
        payload_of(config, subject, body, ctx, timestamp) is Err <==> config.format@ == "custom"@
            && json::json_parse(template::render(template_text(config), ctx)) is Err,
{
    formats_differ();
}

/// The names of the formats differ from those that are tested before them.
proof fn formats_differ()
    ensures
        "teams"@ != "slack"@,
        "pagerduty"@ != "slack"@,
        "pagerduty"@ != "teams"@,
        "discord"@ != "slack"@,
        "discord"@ != "teams"@,
        "discord"@ != "pagerduty"@,
        "custom"@ != "slack"@,
        "custom"@ != "teams"@,
        "custom"@ != "pagerduty"@,
        "custom"@ != "discord"@,
        "passthrough"@ != "slack"@,
        "passthrough"@ != "teams"@,
        "passthrough"@ != "pagerduty"@,
        "passthrough"@ != "discord"@,
        "passthrough"@ != "custom"@,
{
    reveal_strlit("slack");
    reveal_strlit("teams");
    reveal_strlit("pagerduty");
    reveal_strlit("discord");
    reveal_strlit("custom");
    reveal_strlit("passthrough");
    assert("teams"@[0] != "slack"@[0]);
    assert("pagerduty"@.len() == 9 && "discord"@.len() == 7);
    assert("custom"@.len() == 6 && "passthrough"@.len() == 11);
}

/// A Slack webhook sends one text: the subject between asterisks, and the body on the next line.
pub proof fn slack_sends_subject_and_body(
    config: WebhookConfig,
    subject: Seq<char>,
    body: Seq<char>,
    ctx: template::ContextView,
    timestamp: Seq<char>,
)
    requires
        config.format@ == "slack"@,
    ensures
        payload_of(config, subject, body, ctx, timestamp) == Ok::<serde_json::Value, Seq<char>>(
            json::json_object(map!["text"@ => json::json_string("*"@ + subject + "*\n"@ + body)]),
        ),
{
}

/// A Teams webhook sends the subject as the title and the body as the text.
pub proof fn teams_sends_title_and_text(
    config: WebhookConfig,
    subject: Seq<char>,
    body: Seq<char>,
    ctx: template::ContextView,
    timestamp: Seq<char>,
)
    requires
        config.format@ == "teams"@,
    ensures
        payload_of(config, subject, body, ctx, timestamp) == Ok::<serde_json::Value, Seq<char>>(
            json::json_object(
                map!["title"@ => json::json_string(subject), "text"@ => json::json_string(body)],
            ),
        ),
{
    formats_differ();
}

/// A PagerDuty webhook opens an incident, whatever the notification says: the event triggers, its
/// source and severity are the same for every notification, its summary is the subject and its
/// details hold the body. The routing key is the value of the first header of that name, and is
/// empty where there is none.
pub proof fn pagerduty_always_triggers(
    config: WebhookConfig,
    subject: Seq<char>,
    body: Seq<char>,
    ctx: template::ContextView,
    timestamp: Seq<char>,
    at: int,
)
    requires
        config.format@ == "pagerduty"@,
        0 <= at <= config.headers@.len(),
        forall|i: int| 0 <= i < at ==> (#[trigger] config.headers@[i]).0@ != "routing_key"@,
        at < config.headers@.len() ==> config.headers@[at].0@ == "routing_key"@,
    ensures
        payload_of(config, subject, body, ctx, timestamp) == Ok::<serde_json::Value, Seq<char>>(
            json::json_object(
                map![
                    "routing_key"@ => json::json_string(
                        if at < config.headers@.len() {
                            config.headers@[at].1@
                        } else {
                            seq![]
                        },
                    ),
                    "event_action"@ => json::json_string("trigger"@),
                    "payload"@ => json::json_object(map![
                        "summary"@ => json::json_string(subject),
                        "source"@ => json::json_string("kronforce"@),
                        "severity"@ => json::json_string("error"@),
                        "custom_details"@ => json::json_object(
                            map!["body"@ => json::json_string(body)],
                        ),
                    ]),
                ],
            ),
        ),
{
    formats_differ();
    first_header_is_found(config.headers@, "routing_key"@, at);
}

/// A Discord webhook sends one embed with the subject as its title, the body as its description,
/// the name of the program as its footer and the time of sending. It is green where the subject
/// tells of a success, orange where it tells of a timeout and of no success, and red otherwise.
pub proof fn discord_sends_a_colored_embed(
    config: WebhookConfig,
    subject: Seq<char>,
    body: Seq<char>,
    ctx: template::ContextView,
    timestamp: Seq<char>,
    color: int,
)
    requires
        config.format@ == "discord"@,
        text::contains(subject, "succeeded"@) ==> color == 0x2ECC71,
        !text::contains(subject, "succeeded"@) && text::contains(subject, "timed out"@) ==> color
            == 0xF39C12,
        !text::contains(subject, "succeeded"@) && !text::contains(subject, "timed out"@) ==> color
            == 0xE74C3C,
    ensures
        payload_of(config, subject, body, ctx, timestamp) == Ok::<serde_json::Value, Seq<char>>(
            json::json_object(
                map!["embeds"@ => json::json_array(seq![
                    json::json_object(map![
                        "title"@ => json::json_string(subject),
                        "description"@ => json::json_string(body),
                        "color"@ => json::json_number(color),
                        "footer"@ => json::json_object(
                            map!["text"@ => json::json_string("Kronforce"@)],
                        ),
                        "timestamp"@ => json::json_string(timestamp),
                    ]),
                ])],
            ),
        ),
{
    formats_differ();
}

/// A webhook with any other format sends the subject, the body, the name of the program and the
/// time of sending; and so does a passthrough webhook whose job has no output, or none but white
/// space, or output that is not JSON.
pub proof fn generic_sends_subject_body_and_time(
    config: WebhookConfig,
    subject: Seq<char>,
    body: Seq<char>,
    ctx: template::ContextView,
    timestamp: Seq<char>,
)
    ensures
        ({
            let generic = Ok::<serde_json::Value, Seq<char>>(
                json::json_object(
                    map![
                        "subject"@ => json::json_string(subject),
                        "body"@ => json::json_string(body),
                        "source"@ => json::json_string("kronforce"@),
                        "timestamp"@ => json::json_string(timestamp),
                    ],
                ),
            );
            let payload = payload_of(config, subject, body, ctx, timestamp);
            let f = config.format@;
            &&& f != "slack"@ && f != "teams"@ && f != "pagerduty"@ && f != "discord"@ && f
                != "custom"@ && f != "passthrough"@ ==> payload == generic
            &&& f == "passthrough"@ && ctx.stdout is None ==> payload == generic
            &&& f == "passthrough"@ ==> (ctx.stdout matches Some(output) ==> (text::all_white(
                output,
            ) ==> payload == generic))
            &&& f == "passthrough"@ ==> (ctx.stdout matches Some(output) ==> (json::json_parse(
                text::trim(output),
            ) is Err ==> payload == generic))
        }),
{
    formats_differ();
    assert(text::trim(Seq::<char>::empty()) =~= Seq::empty());
    if let Some(output) = ctx.stdout {
        text::trim_takes_all_white_ends(output);
        let out = text::trim(output);
        if text::all_white(output) && out.len() > 0 {
            let (left, right) = choose|left: Seq<char>, right: Seq<char>|
                output == #[trigger] (left + out + right) && text::all_white(left)
                    && text::all_white(right);
            assert(output[left.len() as int] == out[0]);
        }
    }
}

/// A passthrough webhook sends the document that the output of its job is, without the white
/// space around it, whatever the notification says.
pub proof fn passthrough_sends_the_document(
    config: WebhookConfig,
    subject: Seq<char>,
    body: Seq<char>,
    ctx: template::ContextView,
    timestamp: Seq<char>,
)
    requires
        config.format@ == "passthrough"@,
    ensures
        ctx.stdout matches Some(output) ==> (text::trim(output).len() > 0 ==> (json::json_parse(
            text::trim(output),
        ) matches Ok(document) ==> payload_of(config, subject, body, ctx, timestamp) == Ok::<
            serde_json::Value,
            Seq<char>,
        >(document))),
{
    formats_differ();
}

/// A custom webhook renders its own template, or the one that shows subject and body where it has
/// none, with the context, and sends the document that comes out. Where none does, it tells why
/// and what was rendered.
pub proof fn custom_sends_the_rendered_template(
    config: WebhookConfig,
    subject: Seq<char>,
    body: Seq<char>,
    ctx: template::ContextView,
    timestamp: Seq<char>,
    rendered: Seq<char>,
)
    requires
        config.format@ == "custom"@,
        config.template matches Some(own) ==> rendered == template::render(own@, ctx),
        config.template is None ==> rendered == template::render(
            "{\"text\": \"{{subject}}\\n{{body}}\"}"@,
            ctx,
        ),
    ensures
        json::json_parse(rendered) matches Ok(document) ==> payload_of(
            config,
            subject,
            body,
            ctx,
            timestamp,
        ) == Ok::<serde_json::Value, Seq<char>>(document),
        json::json_parse(rendered) matches Err(error) ==> payload_of(
            config,
            subject,
            body,
            ctx,
            timestamp,
        ) == Err::<serde_json::Value, Seq<char>>(
            "custom template produced invalid JSON: "@ + error + "\nRendered: "@ + rendered,
        ),
{
    formats_differ();
}

/// What the parser made of a custom template or of the output of a job is taken over: a document
/// is sent as it is, and an error is told for the template and gives way to the generic document
/// for the output.
pub proof fn parse_results_are_kept(
    document: serde_json::Value,
    error: Seq<char>,
    rendered: Seq<char>,
    subject: Seq<char>,
    body: Seq<char>,
    timestamp: Seq<char>,
)
    ensures
        custom_outcome(Ok(document), rendered) == Ok::<serde_json::Value, Seq<char>>(document),
        custom_outcome(Err(error), rendered) == Err::<serde_json::Value, Seq<char>>(
            "custom template produced invalid JSON: "@ + error + "\nRendered: "@ + rendered,
        ),
        passthrough_outcome(Ok(document), subject, body, timestamp) == document,
        passthrough_outcome(Err(error), subject, body, timestamp) == generic_payload(
            subject,
            body,
            timestamp,
        ),
        generic_payload(subject, body, timestamp) == json::json_object(
            map![
                "subject"@ => json::json_string(subject),
                "body"@ => json::json_string(body),
                "source"@ => json::json_string("kronforce"@),
                "timestamp"@ => json::json_string(timestamp),
            ],
        ),
{
}

/// The colour tells how the subject words the end of an execution, wherever in it the words
/// stand.
pub proof fn color_follows_the_words(before: Seq<char>, after: Seq<char>, subject: Seq<char>)
    ensures
        embed_color(before + "succeeded"@ + after) == 0x2ECC71,
        !text::contains(before + "timed out"@ + after, "succeeded"@) ==> embed_color(
            before + "timed out"@ + after,
        ) == 0xF39C12,
        !text::contains(subject, "succeeded"@) && !text::contains(subject, "timed out"@)
            ==> embed_color(subject) == 0xE74C3C,
{
    text::contains_means_surrounded(before + "succeeded"@ + after, "succeeded"@);
    text::contains_means_surrounded(before + "timed out"@ + after, "timed out"@);
}

/// Looking a header up finds the first one of that name, and none where there is none.
pub proof fn first_header_is_found(headers: Seq<(String, String)>, name: Seq<char>, at: int)
    requires
        0 <= at <= headers.len(),
        forall|i: int| 0 <= i < at ==> (#[trigger] headers[i]).0@ != name,
        at < headers.len() ==> headers[at].0@ == name,
    ensures
        header_value(headers, name) == (if at < headers.len() {
            Some(headers[at].1@)
        } else {
            None
        }),
    decreases headers.len(),
{
    if at > 0 {
        assert(headers[0].0@ != name);
        first_header_is_found(headers.skip(1), name, at - 1);
    }
}

/// Every header is sent with its own name and value, in its place, but for the routing key, which
/// is left out: what is sent for two lists in a row is what is sent for each.
pub proof fn headers_are_sent_one_by_one(
    first: Seq<(String, String)>,
    second: Seq<(String, String)>,
    header: (String, String),
)
    ensures
        sent_headers(Seq::<(String, String)>::empty()) == Seq::<(Seq<char>, Seq<char>)>::empty(),
        header.0@ == "routing_key"@ ==> sent_headers(seq![header]) == Seq::<
            (Seq<char>, Seq<char>),
        >::empty(),
        header.0@ != "routing_key"@ ==> sent_headers(seq![header]) == seq![
            (header.0@, header.1@),
        ],
        sent_headers(first + second) == sent_headers(first) + sent_headers(second),
    decreases second.len(),
{
    assert(seq![header].drop_last() =~= Seq::<(String, String)>::empty());
    assert(sent_headers(Seq::<(String, String)>::empty()) =~= Seq::<
        (Seq<char>, Seq<char>),
    >::empty());
    if header.0@ != "routing_key"@ {
        assert(sent_headers(seq![header]) =~= seq![(header.0@, header.1@)]);
    }
    if second.len() == 0 {
        assert(first + second =~= first);
        assert(sent_headers(first) + sent_headers(second) =~= sent_headers(first));
    } else {
        assert((first + second).drop_last() =~= first + second.drop_last());
        headers_are_sent_one_by_one(first, second.drop_last(), header);
        assert(sent_headers(first + second) =~= sent_headers(first) + sent_headers(second));
    }
}

/// A webhook posts its document to its address, with its headers and without credentials; where
/// there is no document, it ends with the error.
pub proof fn document_is_posted_to_the_address(
    config: WebhookConfig,
    subject: Seq<char>,
    body: Seq<char>,
    ctx: template::ContextView,
    timestamp: Seq<char>,
)
    ensures
        payload_of(config, subject, body, ctx, timestamp) matches Ok(document) ==> ({
            let post = http::PostView {
                url: config.url@,
                payload: document,
                headers: sent_headers(config.headers@),
                basic_auth: None,
            };
            &&& post_of(config, subject, body, ctx, timestamp) == Ok::<
                http::PostView,
                Seq<char>,
            >(post)
            &&& first_action(config, subject, body, ctx, timestamp) == http::ActionView::Post(post)
        }),
        payload_of(config, subject, body, ctx, timestamp) matches Err(error) ==> ({
            &&& post_of(config, subject, body, ctx, timestamp) == Err::<
                http::PostView,
                Seq<char>,
            >(error)
            &&& first_action(config, subject, body, ctx, timestamp) == http::ActionView::Finish(
                Err(error),
            )
        }),
{
}

/// The reply decides: a status between 200 and 299 is a success, any other has its body read, and
/// a post that could not be sent is an error in the words of the sender. The error of a post that
/// was refused tells the status and what the reply says.
pub proof fn reply_decides_the_outcome(
    status: u16,
    error: Seq<char>,
    status_words: Seq<char>,
    reply: Seq<char>,
)
    ensures
        200 <= status <= 299 ==> action_after(http::ReplyView::Status(status))
            == http::ActionView::Finish(Ok(())),
        !(200 <= status <= 299) ==> action_after(http::ReplyView::Status(status))
            == http::ActionView::ReadBody(status),
        action_after(http::ReplyView::Failed(error)) == http::ActionView::Finish(
            Err("webhook error: "@ + error),
        ),
        http::refused(WEBHOOK_CHANNEL@, status_words, reply) == "webhook returned "@ + status_words
            + ": "@ + reply,
{
    reveal_strlit("webhook");
    reveal_strlit(" error: ");
    reveal_strlit("webhook error: ");
    reveal_strlit(" returned ");
    reveal_strlit("webhook returned ");
    assert("webhook"@ + " error: "@ =~= "webhook error: "@);
    assert("webhook"@ + " returned "@ =~= "webhook returned "@);
}

/// A given context is used as it is; without one the templates learn the subject, the body and
/// the time, and nothing of a job.
pub proof fn given_context_is_used(
    given: template::ContextView,
    subject: Seq<char>,
    body: Seq<char>,
    timestamp: Seq<char>,
    context: WebhookContext,
)
    ensures
        context_or_plain(Some(given), subject, body, timestamp) == given,
        context_or_plain(None, subject, body, timestamp) == (template::ContextView {
            subject,
            body,
            job_name: None,
            status: None,
            execution_id: None,
            stdout: None,
            stderr: None,
            timestamp,
        }),
        optional_context(Some(context)) == Some(context@),
        optional_context(None) is None,
{
}

/// A post that was refused ends the delivery with an error, never in success, and the error tells
/// the status and what the reply says; a reply that could not be read says nothing.
pub proof fn refusal_is_an_error(
    status: u16,
    reply: Option<String>,
    outcome: Result<(), String>,
)
    requires
        call_ensures(webhook_refused, (status, reply), outcome),
    ensures
        outcome matches Err(error) && {
            &&& reply matches Some(words) ==> error@ == "webhook returned "@ + http::status_text(
                status as int,
            ) + ": "@ + words@
            &&& reply is None ==> error@ == "webhook returned "@ + http::status_text(status as int)
                + ": "@
        },
{
    reply_decides_the_outcome(
        status,
        seq![],
        http::status_text(status as int),
        template::or_empty(template::optional_text(reply)),
    );
    let lead = "webhook returned "@ + http::status_text(status as int) + ": "@;
    assert(lead + Seq::<char>::empty() =~= lead);
}

}
