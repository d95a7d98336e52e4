use nova::model::Config;
use nova::model::InboundEvent;
use nova::model::Message;
use nova::shard::LoopDecision;
use nova::shard::PulledItem;
use nova::shard::ReceiveErrorKind;
use nova::shard::ShardLoop;
use nova::shard::ShardState;
use nova::shard::ShutdownFlag;
use nova::text::first_token;
use nova::text::starts_with;
use nova::text::text_eq;

fn close_event() -> PulledItem {
    PulledItem::Event(InboundEvent::GatewayClose)
}

fn message_item(content: &str) -> PulledItem {
    PulledItem::Event(InboundEvent::MessageCreated(Message {
        id: 1,
        channel_id: 2,
        content: content.to_owned(),
    }))
}

#[test]
fn shutdown_then_close_event_exits_cleanly() {
    let mut flag = ShutdownFlag::new();
    assert!(!flag.is_set());
    flag.trigger();
    assert!(flag.is_set());

    let mut shard = ShardLoop::new();
    assert_eq!(shard.state, ShardState::Running);
    let decision = shard.observe(flag.is_set(), &close_event());
    assert_eq!(decision, LoopDecision::ExitCleanly);
    assert_eq!(shard.state, ShardState::Closing);
    shard.close_issued();
    assert_eq!(shard.state, ShardState::Terminated);
}

#[test]
fn shutdown_then_websocket_error_exits_cleanly() {
    let mut shard = ShardLoop::new();
    let decision = shard.observe(true, &PulledItem::ReceiveError(ReceiveErrorKind::WebSocket));
    assert_eq!(decision, LoopDecision::ExitCleanly);
    assert_eq!(shard.state, ShardState::Closing);
}

#[test]
fn other_error_during_shutdown_still_warns() {
    let mut shard = ShardLoop::new();
    let decision = shard.observe(true, &PulledItem::ReceiveError(ReceiveErrorKind::Other));
    assert_eq!(decision, LoopDecision::Warn);
    assert_eq!(shard.state, ShardState::Running);
}

#[test]
fn errors_while_running_are_not_fatal() {
    let mut shard = ShardLoop::new();
    let d1 = shard.observe(false, &PulledItem::ReceiveError(ReceiveErrorKind::WebSocket));
    assert_eq!(d1, LoopDecision::Warn);
    let d2 = shard.observe(false, &PulledItem::ReceiveError(ReceiveErrorKind::Other));
    assert_eq!(d2, LoopDecision::Warn);
    assert_eq!(shard.state, ShardState::Running);
}

#[test]
fn close_event_without_shutdown_is_dispatched() {
    let mut shard = ShardLoop::new();
    let decision = shard.observe(false, &close_event());
    assert_eq!(decision, LoopDecision::Dispatch);
    assert_eq!(shard.state, ShardState::Running);
}

#[test]
fn ordinary_events_are_dispatched() {
    let mut flag = ShutdownFlag::new();
    let mut shard = ShardLoop::new();
    let decision = shard.observe(flag.is_set(), &message_item("!ping"));
    assert_eq!(decision, LoopDecision::Dispatch);
    flag.trigger();
    let decision = shard.observe(flag.is_set(), &message_item("!ping"));
    assert_eq!(decision, LoopDecision::Dispatch);
    assert_eq!(shard.state, ShardState::Running);
}

#[test]
fn stream_end_ends_the_loop() {
    let mut shard = ShardLoop::new();
    let decision = shard.observe(false, &PulledItem::StreamEnd);
    assert_eq!(decision, LoopDecision::ExitCleanly);
    assert_eq!(shard.state, ShardState::Closing);
}

#[test]
fn dispatch_failure_is_fatal_to_the_shard() {
    let mut shard = ShardLoop::new();
    let decision = shard.observe(false, &message_item("!ping"));
    assert_eq!(decision, LoopDecision::Dispatch);
    shard.dispatch_failed();
    assert_eq!(shard.state, ShardState::Terminated);
}

#[test]
fn config_splits_prefixes_on_comma_space() {
    let config = Config::parse("SECRET-REDACTED".to_owned(), "!, ?");
    assert_eq!(config.token, "SECRET-REDACTED");
    assert_eq!(config.prefixes, vec!["!".to_owned(), "?".to_owned()]);

    let config = Config::parse("t".to_owned(), "nova, n!, ");
    assert_eq!(
        config.prefixes,
        vec!["nova".to_owned(), "n!".to_owned(), "".to_owned()]
    );

    let config = Config::parse("t".to_owned(), "");
    assert_eq!(config.prefixes, vec!["".to_owned()]);

    let config = Config::parse("t".to_owned(), "a, , b");
    assert_eq!(
        config.prefixes,
        vec!["a".to_owned(), "".to_owned(), "b".to_owned()]
    );

    let config = Config::parse("t".to_owned(), "!");
    assert_eq!(config.prefixes, vec!["!".to_owned()]);
}

#[test]
fn first_token_takes_first_whitespace_delimited_word() {
    assert_eq!(first_token("ping now"), Some("ping".to_owned()));
    assert_eq!(first_token("  ping\tnow"), Some("ping".to_owned()));
    assert_eq!(first_token("ping"), Some("ping".to_owned()));
    assert_eq!(first_token(""), None);
    assert_eq!(first_token(" \t\n "), None);
    assert_eq!(first_token("\u{2003}info\u{2003}x"), Some("info".to_owned()));
}

#[test]
fn prefix_and_equality_checks_are_literal() {
    assert!(starts_with("!ping", "!"));
    assert!(starts_with("!ping", ""));
    assert!(!starts_with("!ping", "?"));
    assert!(!starts_with("!", "!ping"));
    assert!(text_eq("ping", "ping"));
    assert!(!text_eq("ping", "Ping"));
    assert!(!text_eq("ping", "pin"));
}
