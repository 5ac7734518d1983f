use wallet_relay::config::{load_extractor_config, ConfigError};
use wallet_relay::dispatch::{Delivery, Lookup};
use wallet_relay::error::{ErrorKind, Notice, Severity};
use wallet_relay::relay::{Command, Event, Relay, Step};

const WALLET: &str = "7xKXtg2CW87d97TXJSDpbD5jBkheTqA83TZRuJosgAsU";

fn new_relay(usernames: Option<&str>, channels: Option<&str>) -> (Relay, Step) {
    let config = load_extractor_config(None, None, None, None).expect("defaults");
    Relay::new(config, usernames.map(String::from), channels.map(String::from))
}

fn relay_lines(log: &[Notice]) -> Vec<String> {
    log.iter().map(|notice| notice.line.clone()).collect()
}

fn relay_failures(log: &[Notice]) -> Vec<Option<ErrorKind>> {
    log.iter().map(|notice| notice.failure).collect()
}

fn resolve(name: &str) -> Command {
    Command::ResolveUsername { name: name.to_string() }
}

fn message(chat: i64, outgoing: bool, text: &str) -> Event {
    Event::NewMessage { chat, outgoing, text: text.to_string() }
}

/// Brings a relay to the listening state with the channels `a`, `b`, `c`,
/// of which `b` does not resolve.
fn listening_relay(usernames: &str) -> Relay {
    let (relay, _) = new_relay(Some(usernames), Some("a,b,c"));
    let (relay, _) = relay.step(Event::Connected);
    let (relay, step) = relay.step(Event::Authorization(true));
    assert_eq!(step.command, resolve("a"));
    let (relay, _) = relay.step(Event::Lookup(Lookup::Found(1)));
    let (relay, _) = relay.step(Event::Lookup(Lookup::Failed("flood".to_string())));
    let (relay, step) = relay.step(Event::Lookup(Lookup::Found(3)));
    assert_eq!(step.command, Command::NextUpdate);
    relay
}

#[test]
fn bootstrapping_when_already_authorized() {
    let (relay, step) = new_relay(Some("alice"), Some("news , alpha"));
    assert_eq!(relay_lines(&step.log), vec!["Connecting to Telegram...".to_string()]);
    assert_eq!(step.command, Command::Connect);
    assert!(relay.is_bootstrapping());
    let (relay, step) = relay.step(Event::Connected);
    assert_eq!(relay_lines(&step.log), vec!["Connected to Telegram!".to_string()]);
    assert_eq!(step.command, Command::CheckAuthorization);
    let (relay, step) = relay.step(Event::Authorization(true));
    assert_eq!(relay_lines(&step.log),
        vec![
            "Already authorized.".to_string(),
            "Target channels to listen for: [\"news\", \"alpha\"]".to_string(),
        ]
    );
    assert_eq!(step.command, resolve("news"));
    let (relay, step) = relay.step(Event::Lookup(Lookup::Found(11)));
    assert!(step.log.is_empty());
    assert_eq!(step.command, resolve("alpha"));
    assert!(relay.is_bootstrapping());
    let (relay, step) = relay.step(Event::Lookup(Lookup::Found(22)));
    assert_eq!(relay_lines(&step.log), vec!["Listening for new messages...".to_string()]);
    assert_eq!(step.command, Command::NextUpdate);
    assert!(!relay.is_bootstrapping());
    assert!(relay.is_target(11));
    assert!(relay.is_target(22));
    assert!(!relay.is_target(33));
}

#[test]
fn bootstrapping_through_sign_in() {
    let (relay, _) = new_relay(Some("alice"), None);
    let (relay, _) = relay.step(Event::Connected);
    let (relay, step) = relay.step(Event::Authorization(false));
    assert_eq!(relay_lines(&step.log), vec!["Not authorized, starting authentication...".to_string()]);
    assert_eq!(step.command, Command::Authenticate);
    let (_relay, step) = relay.step(Event::Authenticated);
    assert_eq!(relay_lines(&step.log),
        vec![
            "Authentication completed.".to_string(),
            "Target channels to listen for: [\"\"]".to_string(),
        ]
    );
    assert_eq!(step.command, resolve(""));
}

#[test]
fn fatal_failures_stop_the_relay() {
    let (relay, _) = new_relay(Some("alice"), None);
    let (relay, step) = relay.step(Event::ConnectFailed("refused".to_string()));
    assert_eq!(step.command, Command::Stop { kind: ErrorKind::Connection, detail: "refused".to_string() });
    assert!(relay.is_stopped());
    let (relay, step) = relay.step(Event::Connected);
    assert!(relay.is_stopped());
    assert!(step.log.is_empty());
    assert!(matches!(step.command, Command::Stop { .. }));

    let (relay, _) = new_relay(Some("alice"), None);
    let (relay, _) = relay.step(Event::Connected);
    let (_, step) = relay.step(Event::AuthorizationFailed("rpc".to_string()));
    assert_eq!(step.command, Command::Stop { kind: ErrorKind::Authorization, detail: "rpc".to_string() });

    let (relay, _) = new_relay(Some("alice"), None);
    let (relay, _) = relay.step(Event::Connected);
    let (relay, _) = relay.step(Event::Authorization(false));
    let (_, step) = relay.step(Event::AuthenticationFailed("Authentication failed.".to_string()));
    assert_eq!(
        step.command,
        Command::Stop { kind: ErrorKind::Authentication, detail: "Authentication failed.".to_string() }
    );

    let relay = listening_relay("alice");
    let (relay, step) = relay.step(Event::UpdateFailed("eof".to_string()));
    assert_eq!(step.command, Command::Stop { kind: ErrorKind::UpdateFeed, detail: "eof".to_string() });
    assert!(relay.is_stopped());
}

#[test]
fn missing_recipients_stop_the_relay_after_authorization() {
    let (relay, _) = new_relay(None, Some("a"));
    let (relay, step) = relay.step(Event::Connected);
    assert_eq!(step.command, Command::CheckAuthorization);
    let (relay, step) = relay.step(Event::Authorization(true));
    assert_eq!(relay_lines(&step.log), vec!["Already authorized.".to_string()]);
    assert_eq!(
        step.command,
        Command::Stop {
            kind: ErrorKind::Settings(ConfigError::MissingRecipients),
            detail: String::new()
        }
    );
    assert!(relay.is_stopped());
}

#[test]
fn unresolved_source_is_left_out_and_never_examined() {
    let (relay, _) = new_relay(Some("alice"), Some("a,b,c"));
    let (relay, _) = relay.step(Event::Connected);
    let (relay, _) = relay.step(Event::Authorization(true));
    let (relay, step) = relay.step(Event::Lookup(Lookup::Found(1)));
    assert!(step.log.is_empty());
    assert_eq!(step.command, resolve("b"));
    let (relay, step) = relay.step(Event::Lookup(Lookup::NotFound));
    assert_eq!(relay_lines(&step.log), vec!["Could not resolve chat: b".to_string()]);
    assert_eq!(relay_failures(&step.log), vec![Some(ErrorKind::TargetLookup)]);
    assert!(step.log[0].is_failure());
    assert_eq!(step.command, resolve("c"));
    let (relay, step) = relay.step(Event::Lookup(Lookup::Found(3)));
    assert_eq!(relay_lines(&step.log), vec!["Listening for new messages...".to_string()]);
    assert_eq!(step.command, Command::NextUpdate);
    assert!(relay.is_target(1));
    assert!(!relay.is_target(2));
    assert!(relay.is_target(3));
    let text = format!("SOL: {}", WALLET);
    let (relay, step) = relay.step(message(2, false, &text));
    assert!(step.log.is_empty());
    assert_eq!(step.command, Command::NextUpdate);
    let (_, step) = relay.step(message(3, false, &text));
    assert_eq!(step.command, resolve("alice"));
}

#[test]
fn failed_source_lookup_is_reported() {
    let (relay, _) = new_relay(Some("alice"), Some("only"));
    let (relay, _) = relay.step(Event::Connected);
    let (relay, _) = relay.step(Event::Authorization(true));
    let (relay, step) = relay.step(Event::Lookup(Lookup::Failed("flood".to_string())));
    assert_eq!(relay_lines(&step.log),
        vec!["Error resolving chat: only".to_string(), "Listening for new messages...".to_string()]
    );
    assert_eq!(step.command, Command::NextUpdate);
    assert!(!relay.is_bootstrapping());
    let (_, step) = relay.step(message(1, false, "SOL $x"));
    assert!(step.log.is_empty());
    assert_eq!(step.command, Command::NextUpdate);
}

#[test]
fn outgoing_and_other_updates_are_passed_over() {
    let relay = listening_relay("alice");
    let text = format!("SOL: {}", WALLET);
    let (relay, step) = relay.step(message(1, true, &text));
    assert!(step.log.is_empty());
    assert_eq!(step.command, Command::NextUpdate);
    let (relay, step) = relay.step(Event::OtherUpdate);
    assert!(step.log.is_empty());
    assert_eq!(step.command, Command::NextUpdate);
    let (_, step) = relay.step(Event::Delivery(Delivery::Sent));
    assert!(step.log.is_empty());
    assert_eq!(step.command, Command::NextUpdate);
}

#[test]
fn excluded_message_gives_one_skip_line_and_no_dispatch() {
    let relay = listening_relay("alice,bob");
    let (relay, step) = relay.step(message(1, false, "pumfun SOL $gem"));
    assert_eq!(relay_lines(&step.log), vec!["Skipping message: contains words to skip.".to_string()]);
    assert_eq!(relay_failures(&step.log), vec![None]);
    assert_eq!(step.command, Command::NextUpdate);
    let (relay, step) = relay.step(message(1, false, "nothing here"));
    assert_eq!(relay_lines(&step.log),
        vec!["Skipping message: does not contain required words to include.".to_string()]
    );
    assert_eq!(step.command, Command::NextUpdate);
    let (_, step) = relay.step(message(1, false, "SOL only"));
    assert_eq!(relay_lines(&step.log), vec!["No wallet address or valid name found.".to_string()]);
    assert_eq!(step.command, Command::NextUpdate);
}

#[test]
fn matched_message_is_dispatched_to_every_recipient() {
    let relay = listening_relay("alice,bob,carol");
    let text = format!("new $SOL token, address: {}", WALLET);
    let (relay, step) = relay.step_at(message(3, false, &text), "2024-05-06 07:08:09".to_string());
    assert!(step.log.is_empty());
    assert_eq!(step.command, resolve("alice"));
    let expected = format!(
        "💎💰  **Wallet Information**  💰💎\n--------------------------------\n🌍 Wallet Address: {} --------------------------------\n👤 Wallet Name: N/A --------------------------------\n⏰ Time: 2024-05-06 07:08:09 --------------------------------",
        WALLET
    );
    let (relay, step) = relay.step(Event::Lookup(Lookup::Found(10)));
    assert_eq!(step.command, Command::SendMessage { chat: 10, text: expected.clone() });
    let (relay, step) = relay.step(Event::Delivery(Delivery::Sent));
    assert_eq!(relay_lines(&step.log), vec!["Message sent to alice".to_string()]);
    assert_eq!(step.command, resolve("bob"));
    let (relay, step) = relay.step(Event::Lookup(Lookup::Found(20)));
    assert_eq!(step.command, Command::SendMessage { chat: 20, text: expected.clone() });
    let (relay, step) = relay.step(Event::Delivery(Delivery::Failed("blocked".to_string())));
    assert_eq!(relay_lines(&step.log), vec!["Error sending message to bob: blocked".to_string()]);
    assert_eq!(relay_failures(&step.log), vec![Some(ErrorKind::Send)]);
    assert_eq!(step.command, resolve("carol"));
    let (relay, step) = relay.step(Event::Lookup(Lookup::Found(30)));
    assert_eq!(step.command, Command::SendMessage { chat: 30, text: expected });
    let (relay, step) = relay.step(Event::Delivery(Delivery::Sent));
    assert_eq!(relay_lines(&step.log), vec!["Message sent to carol".to_string()]);
    assert_eq!(step.command, Command::NextUpdate);
    assert!(!relay.is_stopped());
    assert_eq!(relay.command(), Command::NextUpdate);
}

#[test]
fn updates_are_not_taken_while_dispatching() {
    let relay = listening_relay("alice");
    let (relay, step) = relay.step(message(1, false, "SOL $gem"));
    assert_eq!(step.command, resolve("alice"));
    let (relay, step) = relay.step(message(1, false, "SOL $other"));
    assert!(step.log.is_empty());
    assert_eq!(step.command, resolve("alice"));
    let (relay, step) = relay.step(Event::UpdateFailed("x".to_string()));
    assert_eq!(step.command, resolve("alice"));
    let (_, step) = relay.step(Event::Lookup(Lookup::NotFound));
    assert_eq!(relay_lines(&step.log), vec!["Error: Could not resolve username: alice".to_string()]);
    assert_eq!(step.command, Command::NextUpdate);
}

#[test]
fn severity_of_each_kind() {
    let fatal = [
        ErrorKind::Settings(ConfigError::MissingApiId),
        ErrorKind::Connection,
        ErrorKind::Authorization,
        ErrorKind::Authentication,
        ErrorKind::UpdateFeed,
    ];
    for kind in fatal {
        assert_eq!(kind.severity(), Severity::Fatal);
        assert!(kind.is_fatal());
    }
    let recoverable = [
        ErrorKind::TargetLookup,
        ErrorKind::RecipientLookup,
        ErrorKind::Send,
        ErrorKind::SessionSave,
    ];
    for kind in recoverable {
        assert_eq!(kind.severity(), Severity::Recoverable);
        assert!(!kind.is_fatal());
    }
}
