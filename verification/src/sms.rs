//! SMS deliveries, one post to the SMS webhook for each phone number.
use vstd::prelude::*;
use crate::config::SmsConfig;
use crate::http;
use crate::http::{HttpAction, HttpPost, HttpReply};
use crate::json;
use crate::template;

verus! {

/// How the errors of SMS deliveries name the channel.
pub const SMS_CHANNEL: &'static str = "SMS webhook";

/// The message for one phone number.
pub open spec fn sms_payload(phone: Seq<char>, from: Seq<char>, body: Seq<char>) -> serde_json::Value {
    json::json_object(
        map![
            "To"@ => json::json_string(phone),
            "From"@ => json::json_string(from),
            "Body"@ => json::json_string(body),
        ],
    )
}

/// The credentials of an SMS webhook, which takes both a user and a password.
pub open spec fn credentials(config: SmsConfig) -> Option<(Seq<char>, Seq<char>)> {
    match (config.auth_user, config.auth_pass) {
        (Some(user), Some(pass)) => Some((user@, pass@)),
        _ => None,
    }
}

/// The post for one phone number.
pub open spec fn sms_post(config: SmsConfig, phone: Seq<char>, body: Seq<char>) -> http::PostView {
    http::PostView {
        url: config.webhook_url@,
        payload: sms_payload(
            phone,
            template::or_empty(template::optional_text(config.from_number)),
            body,
        ),
        headers: Seq::empty(),
        basic_auth: credentials(config),
    }
}

/// Builds the post for one phone number.
pub fn post_for(config: &SmsConfig, phone: &str, body: &str) -> (post: HttpPost)
    ensures
        post@ == sms_post(*config, phone@, body@),
{
    let mut object = json::new_object();
    json::set_member(&mut object, "To", json::string_value(phone));
    json::set_member(
        &mut object,
        "From",
        json::string_value(template::text_or_empty(&config.from_number)),
    );
    json::set_member(&mut object, "Body", json::string_value(body));
    let basic_auth = match (&config.auth_user, &config.auth_pass) {
        (Some(user), Some(pass)) => Some((user.clone(), pass.clone())),
        _ => None,
    };
    let post = HttpPost {
        url: config.webhook_url.clone(),
        payload: json::object_value(object),
        headers: Vec::new(),
        basic_auth,
    };
    assert(post@.headers =~= Seq::empty());
    post
}

/// An SMS delivery under way: `sent` of the phone numbers have had their message.
pub struct SmsRun {
    pub config: SmsConfig,
    pub to: Vec<String>,
    pub body: String,
    pub sent: usize,
}

/// What a delivery does once `sent` phone numbers have had their message.
pub open spec fn action_at(
    config: SmsConfig,
    to: Seq<String>,
    body: Seq<char>,
    sent: int,
) -> http::ActionView {
    if sent < to.len() {
        http::ActionView::Post(sms_post(config, to[sent]@, body))
    } else {
        http::ActionView::Finish(Ok(()))
    }
}

/// How many phone numbers have had their message after a reply.
pub open spec fn sent_after(to: Seq<String>, sent: int, reply: http::ReplyView) -> int {
    if http::accepted(reply) && sent < to.len() {
        sent + 1
    } else {
        sent
    }
}

/// What a delivery does about the reply to its last post: after a success it goes on with the
/// next phone number, and after anything else it stops.
pub open spec fn action_after(
    config: SmsConfig,
    to: Seq<String>,
    body: Seq<char>,
    sent: int,
    reply: http::ReplyView,
) -> http::ActionView {
    match reply {
        http::ReplyView::Failed(error) => http::ActionView::Finish(
            Err(http::unsent(SMS_CHANNEL@, error)),
        ),
        http::ReplyView::Status(status) => if http::succeeded(status) {
            action_at(config, to, body, sent_after(to, sent, reply))
        } else {
            http::ActionView::ReadBody(status)
        },
    }
}

/// Starts to send an SMS to one or more phone numbers via the configured webhook.
pub fn send_sms(config: SmsConfig, to: Vec<String>, body: String) -> (run: SmsRun)
    ensures
        run.config == config,
        run.to == to,
        run.body == body,
        run.sent == 0,
{
    SmsRun { config, to, body, sent: 0 }
}

impl SmsRun {
    /// What to do next.
    pub fn next_action(&self) -> (action: HttpAction)
        ensures
            action@ == action_at(self.config, self.to@, self.body@, self.sent as int),
    {
        if self.sent < self.to.len() {
            HttpAction::Post(
                post_for(&self.config, self.to[self.sent].as_str(), self.body.as_str()),
            )
        } else {
            HttpAction::Finish(Ok(()))
        }
    }

    /// Takes the reply to the last post, and tells what to do next.
    pub fn on_reply(&mut self, reply: HttpReply) -> (action: HttpAction)
        ensures
            final(self).config == old(self).config,
            final(self).to == old(self).to,
            final(self).body == old(self).body,
            final(self).sent == sent_after(old(self).to@, old(self).sent as int, reply@),
            action@ == action_after(
                old(self).config,
                old(self).to@,
                old(self).body@,
                old(self).sent as int,
                reply@,
            ),
    {
        match reply {
            HttpReply::Failed(error) => HttpAction::Finish(
                Err(http::unsent_error(SMS_CHANNEL, error.as_str())),
            ),
            HttpReply::Status(status) => {
                if http::is_success(status) {
                    if self.sent < self.to.len() {
                        self.sent = self.sent + 1;
                    }
                    self.next_action()
                } else {
                    HttpAction::ReadBody(status)
                }
            },
        }
    }
}

/// Takes the body of a reply that was not a success, and ends the delivery.
pub fn sms_refused(status: u16, reply: Option<String>) -> (outcome: Result<(), String>)
    requires
        http::is_status(status),
    ensures
        http::outcome_text(outcome) == Err::<(), Seq<char>>(
            http::refused(
                SMS_CHANNEL@,
                http::status_text(status as int),
                template::or_empty(template::optional_text(reply)),
            ),
        ),
{
    Err(http::refusal_error(SMS_CHANNEL, status, &reply))
}

/// How many phone numbers have had their message after these replies to a fresh delivery.
pub open spec fn sent_by(to: Seq<String>, replies: Seq<http::ReplyView>) -> int
    decreases replies.len(),
{
    if replies.len() == 0 {
        0
    } else {
        sent_after(to, sent_by(to, replies.drop_last()), replies.last())
    }
}

/// What a delivery does after these replies.
pub open spec fn action_by(
    config: SmsConfig,
    to: Seq<String>,
    body: Seq<char>,
    replies: Seq<http::ReplyView>,
) -> http::ActionView {
    if replies.len() == 0 {
        action_at(config, to, body, 0)
    } else {
        action_after(config, to, body, sent_by(to, replies.drop_last()), replies.last())
    }
}

/// The phone numbers get one message each, in their order, as long as every post is accepted, and
/// the delivery succeeds once all of them have theirs.
pub proof fn every_number_in_turn(
    config: SmsConfig,
    to: Seq<String>,
    body: Seq<char>,
    replies: Seq<http::ReplyView>,
)
    requires
        replies.len() <= to.len(),
        forall|i: int| 0 <= i < replies.len() ==> http::accepted(#[trigger] replies[i]),
    ensures
        sent_by(to, replies) == replies.len(),
        action_by(config, to, body, replies) == (if replies.len() < to.len() {
            http::ActionView::Post(sms_post(config, to[replies.len() as int]@, body))
        } else {
            http::ActionView::Finish(Ok(()))
        }),
    decreases replies.len(),
{
    if replies.len() > 0 {
        assert(http::accepted(replies.last()));
        every_number_in_turn(config, to, body, replies.drop_last());
    }
}

/// The first post that is not accepted ends the delivery without another post, and with an error.
pub proof fn first_refusal_ends_delivery(
    config: SmsConfig,
    to: Seq<String>,
    body: Seq<char>,
    replies: Seq<http::ReplyView>,
)
    requires
        replies.len() > 0,
        !http::accepted(replies.last()),
    ensures
        match replies.last() {
            http::ReplyView::Failed(error) => action_by(config, to, body, replies)
                == http::ActionView::Finish(Err(http::unsent(SMS_CHANNEL@, error))),
            http::ReplyView::Status(status) => action_by(config, to, body, replies)
                == http::ActionView::ReadBody(status),
        },
        sent_by(to, replies) == sent_by(to, replies.drop_last()),
{
}

/// The post for a phone number goes to the configured address and holds the number, the sender
/// and the whole text, and nothing else: the sender is empty where none is configured. It carries
/// the configured user and password where there are both, and no credentials otherwise.
pub proof fn post_holds_number_sender_and_text(
    config: SmsConfig,
    phone: Seq<char>,
    body: Seq<char>,
)
    ensures
        ({
            let post = sms_post(config, phone, body);
            &&& post.url == config.webhook_url@
            &&& post.headers == Seq::<(Seq<char>, Seq<char>)>::empty()
            &&& config.from_number matches Some(from) ==> post.payload == json::json_object(
                map![
                    "To"@ => json::json_string(phone),
                    "From"@ => json::json_string(from@),
                    "Body"@ => json::json_string(body),
                ],
            )
            &&& config.from_number is None ==> post.payload == json::json_object(
                map![
                    "To"@ => json::json_string(phone),
                    "From"@ => json::json_string(seq![]),
                    "Body"@ => json::json_string(body),
                ],
            )
            &&& config.auth_user matches Some(user) ==> (config.auth_pass matches Some(pass)
                ==> post.basic_auth == Some((user@, pass@)))
            &&& config.auth_user is None || config.auth_pass is None ==> post.basic_auth is None
        }),
{
}

/// A delivery posts to the number whose turn it is, ends in success once every number has had its
/// message, and moves on by one number after each reply between 200 and 299. A reply with another
/// status has its body read, and a post that could not be sent ends the delivery; neither moves
/// on.
pub proof fn reply_decides_what_follows(
    config: SmsConfig,
    to: Seq<String>,
    body: Seq<char>,
    sent: int,
    status: u16,
    error: Seq<char>,
)
    requires
        0 <= sent < to.len(),
    ensures
        action_at(config, to, body, sent) == http::ActionView::Post(
            sms_post(config, to[sent]@, body),
        ),
        action_at(config, to, body, to.len() as int) == http::ActionView::Finish(Ok(())),
        200 <= status <= 299 ==> {
            &&& sent_after(to, sent, http::ReplyView::Status(status)) == sent + 1
            &&& action_after(config, to, body, sent, http::ReplyView::Status(status))
                == if sent + 1 < to.len() {
                http::ActionView::Post(sms_post(config, to[sent + 1]@, body))
            } else {
                http::ActionView::Finish(Ok(()))
            }
        },
        !(200 <= status <= 299) ==> {
            &&& sent_after(to, sent, http::ReplyView::Status(status)) == sent
            &&& action_after(config, to, body, sent, http::ReplyView::Status(status))
                == http::ActionView::ReadBody(status)
        },
        sent_after(to, sent, http::ReplyView::Failed(error)) == sent,
        action_after(config, to, body, sent, http::ReplyView::Failed(error))
            == http::ActionView::Finish(Err("SMS webhook error: "@ + error)),
{
    reveal_strlit("SMS webhook");
    reveal_strlit(" error: ");
    reveal_strlit("SMS webhook error: ");
    assert("SMS webhook"@ + " error: "@ =~= "SMS webhook error: "@);
}

/// The error of a number that was refused tells the status and what the reply says.
pub proof fn refusal_tells_status_and_reply(status: Seq<char>, reply: Seq<char>)
    ensures
        http::refused(SMS_CHANNEL@, status, reply) == "SMS webhook returned "@ + status + ": "@
            + reply,
{
    reveal_strlit("SMS webhook");
    reveal_strlit(" returned ");
    reveal_strlit("SMS webhook returned ");
    assert("SMS webhook"@ + " returned "@ =~= "SMS webhook returned "@);
}

/// A delivery whose numbers have all had their message posts nothing more.
pub proof fn finished_delivery_stays_finished(
    config: SmsConfig,
    to: Seq<String>,
    body: Seq<char>,
    sent: int,
    reply: http::ReplyView,
)
    requires
        sent >= to.len(),
    ensures
        action_at(config, to, body, sent) == http::ActionView::Finish(Ok(())),
        sent_after(to, sent, reply) == sent,
        !(action_after(config, to, body, sent, reply) is Post),
{
}

/// A delivery starts with all of its numbers before it, and with the configuration and the text
/// that it was given.
pub proof fn delivery_starts_whole(
    config: SmsConfig,
    to: Vec<String>,
    body: String,
    run: SmsRun,
)
    requires
        call_ensures(send_sms, (config, to, body), run),
    ensures
        run.config == config,
        run.to@ == to@,
        run.body@ == body@,
        run.sent == 0,
{
}

/// A number that was refused ends the delivery with an error, never in success, and the error
/// tells the status and what the reply says; a reply that could not be read says nothing.
pub proof fn refusal_is_an_error(
    status: u16,
    reply: Option<String>,
    outcome: Result<(), String>,
)
    requires
        call_ensures(sms_refused, (status, reply), outcome),
    ensures
        outcome matches Err(error) && {
            &&& reply matches Some(words) ==> error@ == "SMS webhook returned "@
                + http::status_text(status as int) + ": "@ + words@
            &&& reply is None ==> error@ == "SMS webhook returned "@ + http::status_text(
                status as int,
            ) + ": "@
        },
{
    refusal_tells_status_and_reply(
        http::status_text(status as int),
        template::or_empty(template::optional_text(reply)),
    );
    let lead = "SMS webhook returned "@ + http::status_text(status as int) + ": "@;
    assert(lead + Seq::<char>::empty() =~= lead);
}

}
