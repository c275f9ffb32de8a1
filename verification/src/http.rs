//! HTTP deliveries: what is posted, and what the reply to it means.
use vstd::prelude::*;
use crate::template;

verus! {

/// A JSON document to be posted.
pub struct HttpPost {
    pub url: String,
    pub payload: serde_json::Value,
    /// Headers to be added, in this order.
    pub headers: Vec<(String, String)>,
    /// User and password for basic authentication.
    pub basic_auth: Option<(String, String)>,
}

/// A post as plain texts.
pub struct PostView {
    pub url: Seq<char>,
    pub payload: serde_json::Value,
    pub headers: Seq<(Seq<char>, Seq<char>)>,
    pub basic_auth: Option<(Seq<char>, Seq<char>)>,
}

/// The characters of a pair of texts.
pub open spec fn pair_text(pair: (String, String)) -> (Seq<char>, Seq<char>) {
    (pair.0@, pair.1@)
}

/// The characters of a list of pairs of texts.
pub open spec fn pair_texts(pairs: Seq<(String, String)>) -> Seq<(Seq<char>, Seq<char>)> {
    Seq::new(pairs.len(), |i: int| pair_text(pairs[i]))
}

impl View for HttpPost {
    type V = PostView;

    open spec fn view(&self) -> PostView {
        PostView {
            url: self.url@,
            payload: self.payload,
            headers: pair_texts(self.headers@),
            basic_auth: match self.basic_auth {
                Some(auth) => Some(pair_text(auth)),
                None => None,
            },
        }
    }
}

/// What came back for a post.
pub enum HttpReply {
    /// The post could not be sent, with the words of the error.
    Failed(String),
    /// A reply came, with this status code.
    Status(u16),
}

/// A reply as plain values.
pub enum ReplyView {
    Failed(Seq<char>),
    Status(u16),
}

impl View for HttpReply {
    type V = ReplyView;

    open spec fn view(&self) -> ReplyView {
        match self {
            HttpReply::Failed(error) => ReplyView::Failed(error@),
            HttpReply::Status(status) => ReplyView::Status(*status),
        }
    }
}

/// What a delivery over HTTP does next.
pub enum HttpAction {
    /// Post this and report the reply.
    Post(HttpPost),
    /// Read the body of the reply, whose status code was this one, and report its text.
    ReadBody(u16),
    /// The delivery is over.
    Finish(Result<(), String>),
}

/// An action as plain values.
pub enum ActionView {
    Post(PostView),
    ReadBody(u16),
    Finish(Result<(), Seq<char>>),
}

/// An outcome with its error as plain characters.
pub open spec fn outcome_text(outcome: Result<(), String>) -> Result<(), Seq<char>> {
    match outcome {
        Ok(_) => Ok(()),
        Err(error) => Err(error@),
    }
}

impl View for HttpAction {
    type V = ActionView;

    open spec fn view(&self) -> ActionView {
        match self {
            HttpAction::Post(post) => ActionView::Post(post@),
            HttpAction::ReadBody(status) => ActionView::ReadBody(*status),
            HttpAction::Finish(outcome) => ActionView::Finish(outcome_text(*outcome)),
        }
    }
}

/// Does this status code stand for success?
pub open spec fn succeeded(status: u16) -> bool {
    200 <= status < 300
}

/// Is this reply a success?
pub open spec fn accepted(reply: ReplyView) -> bool {
    reply matches ReplyView::Status(status) && succeeded(status)
}

/// Is this a status code that a reply can have?
pub open spec fn is_status(status: u16) -> bool {
    100 <= status <= 999
}

/// What `reqwest::StatusCode` displays for a status code.
pub uninterp spec fn status_text(status: int) -> Seq<char>;

/// `reqwest::StatusCode` displays a status code: the number and the reason that goes with it,
/// which depends on the number alone. It represents the codes from 100 to 999.
#[verifier::external_body]
fn display_status(status: u16) -> (text: String)
    requires
        is_status(status),
    ensures
        text@ == status_text(status as int),
{
    reqwest::StatusCode::from_u16(status).unwrap().to_string()
}

/// The error of a post that could not be sent.
pub open spec fn unsent(channel: Seq<char>, error: Seq<char>) -> Seq<char> {
    channel + " error: "@ + error
}

/// The error of a post that was not accepted: the status, and what the reply says.
pub open spec fn refused(channel: Seq<char>, status: Seq<char>, reply: Seq<char>) -> Seq<char> {
    channel + " returned "@ + status + ": "@ + reply
}

/// Words the error of a post that could not be sent.
pub fn unsent_error(channel: &str, error: &str) -> (message: String)
    ensures
        message@ == unsent(channel@, error@),
{
    let mut message = channel.to_string();
    message.append(" error: ");
    message.append(error);
    message
}

/// Words the error of a post that was not accepted, whose status reads `status`.
pub fn refusal(channel: &str, status: &str, reply: &Option<String>) -> (message: String)
    ensures
        message@ == refused(channel@, status@, template::or_empty(template::optional_text(*reply))),
{
    let mut message = channel.to_string();
    message.append(" returned ");
    message.append(status);
    message.append(": ");
    message.append(template::text_or_empty(reply));
    message
}

/// Words the error of a post that was not accepted. A reply whose body could not be read counts
/// as empty.
pub fn refusal_error(channel: &str, status: u16, reply: &Option<String>) -> (message: String)
    requires
        is_status(status),
    ensures
        message@ == refused(
            channel@,
            status_text(status as int),
            template::or_empty(template::optional_text(*reply)),
        ),
{
    refusal(channel, display_status(status).as_str(), reply)
}

/// Is this status code one of success?
pub fn is_success(status: u16) -> (success: bool)
    ensures
        success == succeeded(status),
{
    200 <= status && status < 300
}

/// A post shows its address, its document, its headers in their order and its credentials, and
/// nothing is lost or swapped.
pub proof fn post_shows_its_parts(post: HttpPost)
    ensures
        post@.url == post.url@,
        post@.payload == post.payload,
        post@.headers.len() == post.headers@.len(),
        forall|i: int|
            0 <= i < post.headers@.len() ==> #[trigger] post@.headers[i] == (
                post.headers@[i].0@,
                post.headers@[i].1@,
            ),
        post.basic_auth matches Some(auth) ==> post@.basic_auth == Some((auth.0@, auth.1@)),
        post.basic_auth is None ==> post@.basic_auth is None,
{
}

/// A reply, an action and an outcome show what they are.
pub proof fn replies_and_actions_show_themselves(
    error: String,
    status: u16,
    post: HttpPost,
    outcome: Result<(), String>,
)
    ensures
        HttpReply::Failed(error)@ == ReplyView::Failed(error@),
        HttpReply::Status(status)@ == ReplyView::Status(status),
        HttpAction::Post(post)@ == ActionView::Post(post@),
        HttpAction::ReadBody(status)@ == ActionView::ReadBody(status),
        HttpAction::Finish(outcome)@ == ActionView::Finish(outcome_text(outcome)),
        outcome_text(Ok(())) == Ok::<(), Seq<char>>(()),
        outcome_text(Err(error)) == Err::<(), Seq<char>>(error@),
{
}

/// A post is accepted just where a reply came whose status code is between 200 and 299; a post
/// that could not be sent is not accepted. Status codes have three digits.
pub proof fn two_hundreds_are_successes(status: u16, error: Seq<char>)
    ensures
        succeeded(status) <==> 200 <= status <= 299,
        accepted(ReplyView::Status(status)) <==> 200 <= status <= 299,
        !accepted(ReplyView::Failed(error)),
        is_status(status) <==> 100 <= status <= 999,
{
}

/// The error of a post names the channel first, and then tells what went wrong in the words of
/// the sender or of the reply, to the last character.
pub proof fn errors_name_the_channel(
    channel: Seq<char>,
    error: Seq<char>,
    status: Seq<char>,
    reply: Seq<char>,
)
    ensures
        unsent(channel, error) == channel + " error: "@ + error,
        refused(channel, status, reply) == channel + " returned "@ + status + ": "@ + reply,
{
}

}
