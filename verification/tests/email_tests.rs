use kronforce_notifications::email::{
    check_message, check_recipient, check_sender, compose, EmailAction,
};
use kronforce_notifications::{send_email, EmailConfig};
use lettre::message::Mailbox;

fn config(from: &str) -> EmailConfig {
    EmailConfig {
        enabled: true,
        smtp_host: "smtp.example.com".to_string(),
        smtp_port: 2525,
        username: "user".to_string(),
        password: "pass".to_string(),
        from: from.to_string(),
        tls: false,
    }
}

fn addresses() -> Vec<String> {
    vec!["a@example.com".to_string(), "Bee <b@example.com>".to_string()]
}

fn text(message: &lettre::Message) -> String {
    String::from_utf8(message.formatted()).unwrap()
}

fn sent(action: EmailAction) -> String {
    match action {
        EmailAction::Send(message) => text(&message),
        EmailAction::Finish(_) => panic!("nothing to send"),
    }
}

fn error(action: EmailAction) -> String {
    match action {
        EmailAction::Finish(Err(error)) => error,
        _ => panic!("no error"),
    }
}

#[test]
fn message_holds_what_it_was_given() {
    let message =
        compose("Kron <k@example.com>", "a@example.com", "Hello there", "Some body").unwrap();
    let from: Mailbox = "k@example.com".parse().unwrap();
    let to: Mailbox = "a@example.com".parse().unwrap();
    assert_eq!(message.envelope().from(), Some(&from.email));
    assert_eq!(message.envelope().to(), &[to.email]);
    let raw = text(&message);
    assert!(raw.contains("From: Kron <k@example.com>\r\n"));
    assert!(raw.contains("To: a@example.com\r\n"));
    assert!(raw.contains("Subject: Hello there\r\n"));
    assert!(raw.contains("Date: "));
    assert!(raw.ends_with("\r\n\r\nSome body"));
}

#[test]
fn bad_addresses_are_reported() {
    let reason = "nonsense".parse::<Mailbox>().unwrap_err().to_string();
    assert_eq!(
        compose("nonsense", "also nonsense", "s", "b").unwrap_err(),
        format!("bad from address: {}", reason)
    );
    assert_eq!(
        compose("k@example.com", "nonsense", "s", "b").unwrap_err(),
        format!("bad to address 'nonsense': {}", reason)
    );
}

#[test]
fn names_with_line_breaks_are_bad_addresses() {
    for name in ["A\nB", "A\rB", "\"A\nB\"", "\"A\r\nB\"", "\"A\\\nB\"", "\"A\\\rB\""] {
        let address = format!("{} <a@example.com>", name);
        let reason = address.parse::<Mailbox>().unwrap_err().to_string();
        assert_eq!(
            compose(&address, "a@example.com", "s", "b").unwrap_err(),
            format!("bad from address: {}", reason)
        );
        assert_eq!(
            compose("k@example.com", &address, "s", "b").unwrap_err(),
            format!("bad to address '{}': {}", address, reason)
        );
    }
}

#[test]
fn unusual_names_subjects_and_bodies_make_messages() {
    for name in ["\"A \\\" \\\\ B\"", "\"tab\there\"", "K. O. 9", "\"\u{7f}\u{1}\"", "Käy"] {
        let address = format!("{} <a@example.com>", name);
        assert!(compose(&address, &address, "line\r\nbreak \u{0} ü", "\r\n\n=\t \u{0}").is_ok());
    }
    assert!(compose("a@example.com", "b@example.com", "", "").is_ok());
}

#[test]
fn outside_results_are_taken_over() {
    let mailbox: Mailbox = "k@example.com".parse().unwrap();
    assert_eq!(check_sender(Ok(mailbox.clone())), Ok(mailbox.clone()));
    assert_eq!(check_recipient(Ok(mailbox.clone()), "x"), Ok(mailbox));
    assert_eq!(
        check_sender(Err("E".to_string())).unwrap_err(),
        "bad from address: E"
    );
    assert_eq!(
        check_recipient(Err("E".to_string()), "x").unwrap_err(),
        "bad to address 'x': E"
    );
    assert_eq!(
        check_message(Err("E".to_string())).unwrap_err(),
        "email build error: E"
    );
    let message = compose("k@example.com", "a@example.com", "s", "b").unwrap();
    assert_eq!(text(&check_message(Ok(message.clone())).unwrap()), text(&message));
}

#[test]
fn relay_comes_from_the_configuration() {
    let mut c = config("k@example.com");
    let relay = send_email(c.clone(), addresses(), "s".to_string(), "b".to_string()).relay();
    assert!(!relay.starttls);
    assert_eq!(relay.host, "smtp.example.com");
    assert_eq!(relay.port, 2525);
    assert_eq!(relay.username, "user");
    assert_eq!(relay.password, "pass");
    c.tls = true;
    assert!(send_email(c, addresses(), "s".to_string(), "b".to_string()).relay().starttls);
}

#[test]
fn addresses_are_served_in_turn() {
    let mut run =
        send_email(config("k@example.com"), addresses(), "s".to_string(), "b".to_string());
    assert!(sent(run.on_connected(Ok(()))).contains("To: a@example.com\r\n"));
    assert!(sent(run.on_sent(Ok(()))).contains("To: Bee <b@example.com>\r\n"));
    assert!(matches!(run.on_sent(Ok(())), EmailAction::Finish(Ok(()))));
    assert_eq!(run.sent, 2);
}

#[test]
fn nobody_to_write_to_is_a_success() {
    let run = send_email(config("nonsense"), vec![], "s".to_string(), "b".to_string());
    assert!(matches!(run.on_connected(Ok(())), EmailAction::Finish(Ok(()))));
}

#[test]
fn failures_end_the_delivery() {
    let mut run =
        send_email(config("k@example.com"), addresses(), "s".to_string(), "b".to_string());
    assert_eq!(
        error(run.on_connected(Err("no TLS".to_string()))),
        "SMTP relay error: no TLS"
    );
    assert_eq!(
        error(run.on_sent(Err("rejected".to_string()))),
        "SMTP send error: rejected"
    );
    assert_eq!(run.sent, 0);
}

#[test]
fn a_bad_sender_sends_nothing() {
    let run = send_email(config("nonsense"), addresses(), "s".to_string(), "b".to_string());
    assert!(error(run.on_connected(Ok(()))).starts_with("bad from address: "));
}

#[test]
fn a_bad_recipient_stops_at_its_turn() {
    let to = vec!["a@example.com".to_string(), "nonsense".to_string()];
    let mut run = send_email(config("k@example.com"), to, "s".to_string(), "b".to_string());
    sent(run.on_connected(Ok(())));
    assert!(error(run.on_sent(Ok(()))).starts_with("bad to address 'nonsense': "));
    assert_eq!(run.sent, 1);
}
