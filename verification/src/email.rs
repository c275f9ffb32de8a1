//! Email deliveries, one SMTP message for each address.
use vstd::prelude::*;
use crate::config::EmailConfig;
use crate::http;
use crate::text;

verus! {

/// A mailbox: an address, with or without a name.
#[verifier::external_type_specification]
#[verifier::external_body]
pub struct ExMailbox(lettre::message::Mailbox);

/// An email message.
#[verifier::external_type_specification]
#[verifier::external_body]
pub struct ExMessage(lettre::Message);

/// What `lettre` makes of a text as a mailbox: the mailbox, or the words of its error.
pub uninterp spec fn mailbox_parse(
    text: Seq<char>,
) -> Result<lettre::message::Mailbox, Seq<char>>;

/// The message that `lettre` builds at a time, in whole seconds since the Unix epoch, which its
/// `Date` header gives; or the words of its error.
pub uninterp spec fn message_build(
    from: lettre::message::Mailbox,
    to: lettre::message::Mailbox,
    subject: Seq<char>,
    body: Seq<char>,
    date: int,
) -> Result<lettre::Message, Seq<char>>;

/// `str::parse` into a `lettre::message::Mailbox`. Which mailbox it is, or what the error says,
/// depends on the text alone.
#[verifier::external_body]
fn parse_mailbox(text: &str) -> (mailbox: Result<lettre::message::Mailbox, String>)
    ensures
        text::agrees(mailbox, mailbox_parse(text@)),
{
    text.parse().map_err(|error: lettre::address::AddressError| error.to_string())
}

/// Is this what `lettre` makes of some text as a mailbox?
pub open spec fn is_parsed(mailbox: lettre::message::Mailbox) -> bool {
    exists|text: Seq<char>|
        #[trigger] mailbox_parse(text) == Ok::<lettre::message::Mailbox, Seq<char>>(mailbox)
}

/// `lettre::message::MessageBuilder::body` builds the message with this sender, recipient,
/// subject and body, and stamps it with the present time. Besides the arguments, the result
/// depends on nothing but that time, of which nothing is said. The mailboxes have to come from
/// the parser: the builder panics on one whose name holds a line break, and the parser gives none
/// such.
#[verifier::external_body]
fn build_message(
    from: lettre::message::Mailbox,
    to: lettre::message::Mailbox,
    subject: &str,
    body: &str,
) -> (message: Result<lettre::Message, String>)
    requires
        is_parsed(from),
        is_parsed(to),
    ensures
        exists|date: int|
            text::agrees(message, #[trigger] message_build(from, to, subject@, body@, date)),
{
    lettre::Message::builder()
        .from(from)
        .to(to)
        .subject(subject)
        .body(body.to_string())
        .map_err(|error| error.to_string())
}

/// How to reach the SMTP server.
pub struct Relay {
    /// Whether the connection is upgraded by STARTTLS; it is not encrypted otherwise.
    pub starttls: bool,
    pub host: String,
    pub port: u16,
    pub username: String,
    pub password: String,
}

/// What an email delivery does next.
pub enum EmailAction {
    /// Send this message and report how it went.
    Send(lettre::Message),
    /// The delivery is over.
    Finish(Result<(), String>),
}

/// An action as plain values.
pub enum EmailActionView {
    Send(lettre::Message),
    Finish(Result<(), Seq<char>>),
}

impl View for EmailAction {
    type V = EmailActionView;

    open spec fn view(&self) -> EmailActionView {
        match self {
            EmailAction::Send(message) => EmailActionView::Send(*message),
            EmailAction::Finish(outcome) => EmailActionView::Finish(http::outcome_text(*outcome)),
        }
    }
}

/// The error of a sender that is no mailbox.
pub open spec fn bad_from(error: Seq<char>) -> Seq<char> {
    "bad from address: "@ + error
}

/// The error of a recipient that is no mailbox.
pub open spec fn bad_to(recipient: Seq<char>, error: Seq<char>) -> Seq<char> {
    "bad to address '"@ + recipient + "': "@ + error
}

/// The error of a message that cannot be built.
pub open spec fn not_built(error: Seq<char>) -> Seq<char> {
    "email build error: "@ + error
}

/// The error of a relay that cannot be set up.
pub open spec fn no_relay(error: Seq<char>) -> Seq<char> {
    "SMTP relay error: "@ + error
}

/// The error of a message that cannot be sent.
pub open spec fn not_sent(error: Seq<char>) -> Seq<char> {
    "SMTP send error: "@ + error
}

/// The message to one recipient, built at `date`, or why there is none: the sender is looked at
/// first, then the recipient, then the message as a whole.
pub open spec fn message_to(
    from: Seq<char>,
    recipient: Seq<char>,
    subject: Seq<char>,
    body: Seq<char>,
    date: int,
) -> Result<lettre::Message, Seq<char>> {
    match mailbox_parse(from) {
        Err(error) => Err(bad_from(error)),
        Ok(sender) => match mailbox_parse(recipient) {
            Err(error) => Err(bad_to(recipient, error)),
            Ok(receiver) => match message_build(sender, receiver, subject, body, date) {
                Err(error) => Err(not_built(error)),
                Ok(message) => Ok(message),
            },
        },
    }
}

/// Puts `lead` in front of an error.
fn lead_in(lead: &str, error: &str) -> (message: String)
    ensures
        message@ == lead@ + error@,
{
    let mut message = lead.to_string();
    message.append(error);
    message
}

/// Takes what the parser made of the sender.
pub fn check_sender(parsed: Result<lettre::message::Mailbox, String>) -> (sender: Result<
    lettre::message::Mailbox,
    String,
>)
    ensures
        match parsed {
            Ok(mailbox) => sender == Ok::<lettre::message::Mailbox, String>(mailbox),
            Err(error) => text::agrees(sender, Err(bad_from(error@))),
        },
{
    match parsed {
        Ok(mailbox) => Ok(mailbox),
        Err(error) => Err(lead_in("bad from address: ", error.as_str())),
    }
}

/// Takes what the parser made of a recipient.
pub fn check_recipient(
    parsed: Result<lettre::message::Mailbox, String>,
    recipient: &str,
) -> (receiver: Result<lettre::message::Mailbox, String>)
    ensures
        match parsed {
            Ok(mailbox) => receiver == Ok::<lettre::message::Mailbox, String>(mailbox),
            Err(error) => text::agrees(receiver, Err(bad_to(recipient@, error@))),
        },
{
    match parsed {
        Ok(mailbox) => Ok(mailbox),
        Err(error) => {
            let mut message = lead_in("bad to address '", recipient);
            message.append("': ");
            message.append(error.as_str());
            Err(message)
        },
    }
}

/// Takes what the builder made of a message.
pub fn check_message(built: Result<lettre::Message, String>) -> (message: Result<
    lettre::Message,
    String,
>)
    ensures
        match built {
            Ok(given) => message == Ok::<lettre::Message, String>(given),
            Err(error) => text::agrees(message, Err(not_built(error@))),
        },
{
    match built {
        Ok(given) => Ok(given),
        Err(error) => Err(lead_in("email build error: ", error.as_str())),
    }
}

/// Builds the message to one recipient.
pub fn compose(from: &str, recipient: &str, subject: &str, body: &str) -> (message: Result<
    lettre::Message,
    String,
>)
    ensures
        exists|date: int|
            text::agrees(message, #[trigger] message_to(from@, recipient@, subject@, body@, date)),
{
    let sender = match check_sender(parse_mailbox(from)) {
        Ok(mailbox) => mailbox,
        Err(error) => {
            let message = Err(error);
            assert(text::agrees(message, message_to(from@, recipient@, subject@, body@, 0)));
            return message;
        },
    };
    let receiver = match check_recipient(parse_mailbox(recipient), recipient) {
        Ok(mailbox) => mailbox,
        Err(error) => {
            let message = Err(error);
            assert(text::agrees(message, message_to(from@, recipient@, subject@, body@, 0)));
            return message;
        },
    };
    let built = build_message(sender, receiver, subject, body);
    let ghost date = choose|date: int|
        text::agrees(built, #[trigger] message_build(sender, receiver, subject@, body@, date));
    let message = check_message(built);
    assert(text::agrees(message, message_to(from@, recipient@, subject@, body@, date)));
    message
}

/// An email delivery under way: `sent` of the addresses have had their message.
pub struct EmailRun {
    pub config: EmailConfig,
    pub to: Vec<String>,
    pub subject: String,
    pub body: String,
    pub sent: usize,
}

/// What a delivery does, at `date`, once `sent` addresses have had their message.
pub open spec fn action_at(
    config: EmailConfig,
    to: Seq<String>,
    subject: Seq<char>,
    body: Seq<char>,
    sent: int,
    date: int,
) -> EmailActionView {
    if sent < to.len() {
        match message_to(config.from@, to[sent]@, subject, body, date) {
            Ok(message) => EmailActionView::Send(message),
            Err(error) => EmailActionView::Finish(Err(error)),
        }
    } else {
        EmailActionView::Finish(Ok(()))
    }
}

/// How many addresses have had their message after a send.
pub open spec fn sent_after(to: Seq<String>, sent: int, result: Result<(), Seq<char>>) -> int {
    if result is Ok && sent < to.len() {
        sent + 1
    } else {
        sent
    }
}

/// What a delivery does, at `date`, once the relay has been set up or has failed.
pub open spec fn action_connected(
    config: EmailConfig,
    to: Seq<String>,
    subject: Seq<char>,
    body: Seq<char>,
    sent: int,
    result: Result<(), Seq<char>>,
    date: int,
) -> EmailActionView {
    match result {
        Ok(_) => action_at(config, to, subject, body, sent, date),
        Err(error) => EmailActionView::Finish(Err(no_relay(error))),
    }
}

/// What a delivery does, at `date`, about how its last message went: after a success it goes on
/// with the next address, and after a failure it stops.
pub open spec fn action_after(
    config: EmailConfig,
    to: Seq<String>,
    subject: Seq<char>,
    body: Seq<char>,
    sent: int,
    result: Result<(), Seq<char>>,
    date: int,
) -> EmailActionView {
    match result {
        Ok(_) => action_at(config, to, subject, body, sent_after(to, sent, result), date),
        Err(error) => EmailActionView::Finish(Err(not_sent(error))),
    }
}

/// Starts to send an email to one or more recipients via SMTP.
pub fn send_email(config: EmailConfig, to: Vec<String>, subject: String, body: String) -> (run:
    EmailRun)
    ensures
        run.config == config,
        run.to == to,
        run.subject == subject,
        run.body == body,
        run.sent == 0,
{
    EmailRun { config, to, subject, body, sent: 0 }
}

impl EmailRun {
    /// The relay to set up before anything is sent.
    pub fn relay(&self) -> (relay: Relay)
        ensures
            relay.starttls == self.config.tls,
            relay.host == self.config.smtp_host,
            relay.port == self.config.smtp_port,
            relay.username == self.config.username,
            relay.password == self.config.password,
    {
        Relay {
            starttls: self.config.tls,
            host: self.config.smtp_host.clone(),
            port: self.config.smtp_port,
            username: self.config.username.clone(),
            password: self.config.password.clone(),
        }
    }

    /// What to do next, with the relay set up.
    fn next_action(&self) -> (action: EmailAction)
        ensures
            exists|date: int|
                action@ == #[trigger] action_at(
                    self.config,
                    self.to@,
                    self.subject@,
                    self.body@,
                    self.sent as int,
                    date,
                ),
    {
        if self.sent < self.to.len() {
            let composed = compose(
                self.config.from.as_str(),
                self.to[self.sent].as_str(),
                self.subject.as_str(),
                self.body.as_str(),
            );
            let ghost date = choose|date: int|
                text::agrees(
                    composed,
                    #[trigger] message_to(
                        self.config.from@,
                        self.to@[self.sent as int]@,
                        self.subject@,
                        self.body@,
                        date,
                    ),
                );
            let action = match composed {
                Ok(message) => EmailAction::Send(message),
                Err(error) => EmailAction::Finish(Err(error)),
            };
            assert(action@ == action_at(
                self.config,
                self.to@,
                self.subject@,
                self.body@,
                self.sent as int,
                date,
            ));
            action
        } else {
            let action = EmailAction::Finish(Ok(()));
            assert(action@ == action_at(
                self.config,
                self.to@,
                self.subject@,
                self.body@,
                self.sent as int,
                0,
            ));
            action
        }
    }

    /// Takes how the setup of the relay went, and tells what to do next.
    pub fn on_connected(&self, result: Result<(), String>) -> (action: EmailAction)
        ensures
            exists|date: int|
                action@ == #[trigger] action_connected(
                    self.config,
                    self.to@,
                    self.subject@,
                    self.body@,
                    self.sent as int,
                    http::outcome_text(result),
                    date,
                ),
    {
        match result {
            Ok(_) => {
                let action = self.next_action();
                let ghost date = choose|date: int|
                    action@ == #[trigger] action_at(
                        self.config,
                        self.to@,
                        self.subject@,
                        self.body@,
                        self.sent as int,
                        date,
                    );
                assert(action@ == action_connected(
                    self.config,
                    self.to@,
                    self.subject@,
                    self.body@,
                    self.sent as int,
                    http::outcome_text(result),
                    date,
                ));
                action
            },
            Err(error) => {
                let action = EmailAction::Finish(
                    Err(lead_in("SMTP relay error: ", error.as_str())),
                );
                assert(action@ == action_connected(
                    self.config,
                    self.to@,
                    self.subject@,
                    self.body@,
                    self.sent as int,
                    http::outcome_text(result),
                    0,
                ));
                action
            },
        }
    }

    /// Takes how the last message went, and tells what to do next.
    pub fn on_sent(&mut self, result: Result<(), String>) -> (action: EmailAction)
        ensures
            final(self).config == old(self).config,
            final(self).to == old(self).to,
            final(self).subject == old(self).subject,
            final(self).body == old(self).body,
            final(self).sent == sent_after(
                old(self).to@,
                old(self).sent as int,
                http::outcome_text(result),
            ),
            exists|date: int|
                action@ == #[trigger] action_after(
                    old(self).config,
                    old(self).to@,
                    old(self).subject@,
                    old(self).body@,
                    old(self).sent as int,
                    http::outcome_text(result),
                    date,
                ),
    {
        match result {
            Ok(_) => {
                if self.sent < self.to.len() {
                    self.sent = self.sent + 1;
                }
                let action = self.next_action();
                let ghost date = choose|date: int|
                    action@ == #[trigger] action_at(
                        self.config,
                        self.to@,
                        self.subject@,
                        self.body@,
                        self.sent as int,
                        date,
                    );
                assert(action@ == action_after(
                    old(self).config,
                    old(self).to@,
                    old(self).subject@,
                    old(self).body@,
                    old(self).sent as int,
                    http::outcome_text(result),
                    date,
                ));
                action
            },
            Err(error) => {
                let action = EmailAction::Finish(
                    Err(lead_in("SMTP send error: ", error.as_str())),
                );
                assert(action@ == action_after(
                    old(self).config,
                    old(self).to@,
                    old(self).subject@,
                    old(self).body@,
                    old(self).sent as int,
                    http::outcome_text(result),
                    0,
                ));
                action
            },
        }
    }
}

/// How many addresses have had their message after these results of a fresh delivery.
pub open spec fn sent_by(to: Seq<String>, results: Seq<Result<(), Seq<char>>>) -> int
    decreases results.len(),
{
    if results.len() == 0 {
        0
    } else {
        sent_after(to, sent_by(to, results.drop_last()), results.last())
    }
}

/// What a delivery whose relay was set up does, at `date`, after these results.
pub open spec fn action_by(
    config: EmailConfig,
    to: Seq<String>,
    subject: Seq<char>,
    body: Seq<char>,
    results: Seq<Result<(), Seq<char>>>,
    date: int,
) -> EmailActionView {
    if results.len() == 0 {
        action_connected(config, to, subject, body, 0, Ok(()), date)
    } else {
        action_after(
            config,
            to,
            subject,
            body,
            sent_by(to, results.drop_last()),
            results.last(),
            date,
        )
    }
}

/// The addresses get one message each, in their order, as long as every send succeeds, and the
/// delivery succeeds once all of them have theirs. An address whose message cannot be made ends
/// the delivery when its turn comes, after those before it have had theirs.
pub proof fn every_address_in_turn(
    config: EmailConfig,
    to: Seq<String>,
    subject: Seq<char>,
    body: Seq<char>,
    results: Seq<Result<(), Seq<char>>>,
    date: int,
)
    requires
        results.len() <= to.len(),
        forall|i: int| 0 <= i < results.len() ==> (#[trigger] results[i]) is Ok,
    ensures
        sent_by(to, results) == results.len(),
        action_by(config, to, subject, body, results, date) == (if results.len() < to.len() {
            match message_to(config.from@, to[results.len() as int]@, subject, body, date) {
                Ok(message) => EmailActionView::Send(message),
                Err(error) => EmailActionView::Finish(Err(error)),
            }
        } else {
            EmailActionView::Finish(Ok(()))
        }),
    decreases results.len(),
{
    if results.len() > 0 {
        assert(results.last() is Ok);
        every_address_in_turn(config, to, subject, body, results.drop_last(), date);
    }
}

/// The first send that fails ends the delivery without another message, and with its error.
pub proof fn first_failure_ends_delivery(
    config: EmailConfig,
    to: Seq<String>,
    subject: Seq<char>,
    body: Seq<char>,
    results: Seq<Result<(), Seq<char>>>,
    date: int,
)
    requires
        results.len() > 0,
        results.last() is Err,
    ensures
        action_by(config, to, subject, body, results, date) == EmailActionView::Finish(
            Err(not_sent(results.last()->Err_0)),
        ),
        sent_by(to, results) == sent_by(to, results.drop_last()),
{
}

/// A sender that is no mailbox ends every delivery that has a recipient, before anything is sent.
pub proof fn bad_sender_sends_nothing(
    config: EmailConfig,
    to: Seq<String>,
    subject: Seq<char>,
    body: Seq<char>,
    date: int,
)
    requires
        to.len() > 0,
    ensures
        match mailbox_parse(config.from@) {
            Err(error) => action_connected(config, to, subject, body, 0, Ok(()), date)
                == EmailActionView::Finish(Err(bad_from(error))),
            Ok(_) => true,
        },
{
}

/// The message to a recipient is what `lettre` builds from the sender, that recipient, the given
/// subject and the given body, all of them as they are. Where the sender or the recipient is no
/// mailbox, or the message cannot be built, the error tells which, in the words of `lettre`; the
/// sender is looked at first.
pub proof fn message_is_built_from_what_was_given(
    from: Seq<char>,
    recipient: Seq<char>,
    subject: Seq<char>,
    body: Seq<char>,
    date: int,
)
    ensures
        mailbox_parse(from) matches Ok(sender) ==> (mailbox_parse(recipient) matches Ok(receiver)
            ==> (message_build(sender, receiver, subject, body, date) matches Ok(message)
            ==> message_to(from, recipient, subject, body, date) == Ok::<
            lettre::Message,
            Seq<char>,
        >(message))),
        mailbox_parse(from) matches Ok(sender) ==> (mailbox_parse(recipient) matches Ok(receiver)
            ==> (message_build(sender, receiver, subject, body, date) matches Err(error)
            ==> message_to(from, recipient, subject, body, date) == Err::<
            lettre::Message,
            Seq<char>,
        >("email build error: "@ + error))),
        mailbox_parse(from) is Ok ==> (mailbox_parse(recipient) matches Err(error) ==> message_to(
            from,
            recipient,
            subject,
            body,
            date,
        ) == Err::<lettre::Message, Seq<char>>(
            "bad to address '"@ + recipient + "': "@ + error,
        )),
        mailbox_parse(from) matches Err(error) ==> message_to(from, recipient, subject, body, date)
            == Err::<lettre::Message, Seq<char>>("bad from address: "@ + error),
{
}

/// As long as every send succeeds, the next address in turn gets the message that `lettre` builds
/// from the configured sender, that address, and the subject and the body of the delivery.
pub proof fn each_address_gets_the_whole_message(
    config: EmailConfig,
    to: Seq<String>,
    subject: Seq<char>,
    body: Seq<char>,
    results: Seq<Result<(), Seq<char>>>,
    date: int,
)
    requires
        results.len() < to.len(),
        forall|i: int| 0 <= i < results.len() ==> (#[trigger] results[i]) is Ok,
    ensures
        mailbox_parse(config.from@) matches Ok(sender) ==> (mailbox_parse(
            to[results.len() as int]@,
        ) matches Ok(receiver) ==> (message_build(sender, receiver, subject, body, date) matches Ok(
            message,
        ) ==> action_by(config, to, subject, body, results, date) == EmailActionView::Send(
            message,
        ))),
{
    every_address_in_turn(config, to, subject, body, results, date);
}

/// A delivery sends to the address whose turn it is and ends in success once every address has
/// had its message. It moves on by one address after a message that went out, and ends with the
/// error after one that did not, or where the relay could not be set up.
pub proof fn result_decides_what_follows(
    config: EmailConfig,
    to: Seq<String>,
    subject: Seq<char>,
    body: Seq<char>,
    sent: int,
    error: Seq<char>,
    date: int,
)
    requires
        0 <= sent < to.len(),
    ensures
        message_to(config.from@, to[sent]@, subject, body, date) matches Ok(message) ==> action_at(
            config,
            to,
            subject,
            body,
            sent,
            date,
        ) == EmailActionView::Send(message),
        message_to(config.from@, to[sent]@, subject, body, date) matches Err(reason) ==> action_at(
            config,
            to,
            subject,
            body,
            sent,
            date,
        ) == EmailActionView::Finish(Err(reason)),
        action_at(config, to, subject, body, to.len() as int, date) == EmailActionView::Finish(
            Ok(()),
        ),
        action_connected(config, to, subject, body, sent, Ok(()), date) == action_at(
            config,
            to,
            subject,
            body,
            sent,
            date,
        ),
        action_connected(config, to, subject, body, sent, Err(error), date)
            == EmailActionView::Finish(Err("SMTP relay error: "@ + error)),
        sent_after(to, sent, Ok(())) == sent + 1,
        action_after(config, to, subject, body, sent, Ok(()), date) == action_at(
            config,
            to,
            subject,
            body,
            sent + 1,
            date,
        ),
        sent_after(to, sent, Err(error)) == sent,
        action_after(config, to, subject, body, sent, Err(error), date) == EmailActionView::Finish(
            Err("SMTP send error: "@ + error),
        ),
{
}

/// A delivery whose addresses have all had their message sends nothing more.
pub proof fn finished_delivery_stays_finished(
    config: EmailConfig,
    to: Seq<String>,
    subject: Seq<char>,
    body: Seq<char>,
    sent: int,
    result: Result<(), Seq<char>>,
    date: int,
)
    requires
        sent >= to.len(),
    ensures
        action_at(config, to, subject, body, sent, date) == EmailActionView::Finish(Ok(())),
        sent_after(to, sent, result) == sent,
        !(action_connected(config, to, subject, body, sent, result, date) is Send),
        !(action_after(config, to, subject, body, sent, result, date) is Send),
{
}

/// The errors of a message lead in the words of `lettre`, and name the recipient that is bad.
pub proof fn errors_tell_what_is_bad(recipient: Seq<char>, error: Seq<char>)
    ensures
        bad_from(error) == "bad from address: "@ + error,
        bad_to(recipient, error) == "bad to address '"@ + recipient + "': "@ + error,
        not_built(error) == "email build error: "@ + error,
{
}

/// An action shows what it is.
pub proof fn actions_show_themselves(
    message: lettre::Message,
    outcome: Result<(), String>,
)
    ensures
        EmailAction::Send(message)@ == EmailActionView::Send(message),
        EmailAction::Finish(outcome)@ == EmailActionView::Finish(http::outcome_text(outcome)),
{
}

/// The relay that a delivery asks for is the configured one: the host, the port, the user and the
/// password as they are, and with STARTTLS just where TLS is configured.
pub proof fn relay_is_the_configured_one(run: EmailRun, relay: Relay)
    requires
        call_ensures(EmailRun::relay, (&run,), relay),
    ensures
        relay.starttls == run.config.tls,
        relay.host@ == run.config.smtp_host@,
        relay.port == run.config.smtp_port,
        relay.username@ == run.config.username@,
        relay.password@ == run.config.password@,
{
}

/// A delivery starts with all of its addresses before it, and with the configuration, the subject
/// and the body that it was given.
pub proof fn delivery_starts_whole(
    config: EmailConfig,
    to: Vec<String>,
    subject: String,
    body: String,
    run: EmailRun,
)
    requires
        call_ensures(send_email, (config, to, subject, body), run),
    ensures
        run.config == config,
        run.to@ == to@,
        run.subject@ == subject@,
        run.body@ == body@,
        run.sent == 0,
{
}

/// A message that was composed is what `lettre` built from the mailboxes of the sender and the
/// recipient, the whole subject and the whole body.
pub proof fn composed_message_is_whole(
    from: &str,
    recipient: &str,
    subject: &str,
    body: &str,
    composed: Result<lettre::Message, String>,
)
    requires
        call_ensures(compose, (from, recipient, subject, body), composed),
    ensures
        composed matches Ok(message) ==> (mailbox_parse(from@) matches Ok(sender) && (mailbox_parse(
            recipient@,
        ) matches Ok(receiver) && exists|date: int|
            #[trigger] message_build(sender, receiver, subject@, body@, date) == Ok::<
                lettre::Message,
                Seq<char>,
            >(message))),
{
    if let Ok(message) = composed {
        let date = choose|date: int|
            text::agrees(composed, #[trigger] message_to(from@, recipient@, subject@, body@, date));
        message_is_built_from_what_was_given(from@, recipient@, subject@, body@, date);
        assert(message_to(from@, recipient@, subject@, body@, date) is Ok);
        let sender = mailbox_parse(from@)->Ok_0;
        let receiver = mailbox_parse(recipient@)->Ok_0;
        assert(message_build(sender, receiver, subject@, body@, date) == Ok::<
            lettre::Message,
            Seq<char>,
        >(message));
    }
}

}
