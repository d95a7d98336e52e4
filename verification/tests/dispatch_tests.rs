use nova::dispatch::handle_command;
use nova::dispatch::handle_interactions;
use nova::dispatch::handle_message;
use nova::dispatch::match_prefix;
use nova::dispatch::DispatchError;
use nova::dispatch::InteractionOutcome;
use nova::model::Config;
use nova::model::InboundEvent;
use nova::model::Interaction;
use nova::model::InteractionPayload;
use nova::model::Message;
use nova::model::Reply;
use nova::registry::CommandRegistry;
use nova::registry::Context;

fn context_with(prefixes: &str) -> Context {
    Context::new(77, Config::parse("token".to_owned(), prefixes))
}

fn message_event(content: &str) -> InboundEvent {
    InboundEvent::MessageCreated(Message {
        id: 10,
        channel_id: 20,
        content: content.to_owned(),
    })
}

fn command_interaction(name: &str) -> InboundEvent {
    InboundEvent::InteractionCreated(Interaction {
        id: 30,
        application_id: 77,
        token: "itoken".to_owned(),
        payload: InteractionPayload::ApplicationCommand {
            name: name.to_owned(),
        },
    })
}

#[test]
fn scenario_prefix_ping_invoked() {
    let core = context_with("!, ?");
    let registry = CommandRegistry::with_defaults();
    let event = message_event("!ping now");
    let reply = handle_message(&event, &core, &registry);
    match reply {
        Some(Reply::ChannelMessage {
            channel_id,
            reply_to,
            text,
        }) => {
            assert_eq!(channel_id, 20);
            assert_eq!(reply_to, 10);
            assert_eq!(text, "Pong!");
        }
        other => panic!("expected a channel reply, got {:?}", describe(&other)),
    }
}

#[test]
fn scenario_no_prefix_no_handler() {
    let core = context_with("!");
    let registry = CommandRegistry::with_defaults();
    let event = message_event("hello world");
    assert!(handle_message(&event, &core, &registry).is_none());
    let outcome = handle_command(&event, &core, &registry);
    match outcome {
        Ok(o) => {
            assert!(o.message_reply.is_none());
            assert!(matches!(o.interaction, InteractionOutcome::NotAnInteraction));
        }
        Err(_) => panic!("a plain message is never a dispatch error"),
    }
}

#[test]
fn scenario_interaction_info_invoked() {
    let core = context_with("!");
    let registry = CommandRegistry::with_defaults();
    let event = command_interaction("info");
    let outcome = handle_interactions(&event, &core, &registry).expect("registered name");
    match outcome {
        InteractionOutcome::Invoked(Reply::InteractionResponse {
            interaction_id,
            token,
            text,
        }) => {
            assert_eq!(interaction_id, 30);
            assert_eq!(token, "itoken");
            assert_eq!(text, "Pong!");
        }
        _ => panic!("expected the info handler to answer"),
    }
}

#[test]
fn scenario_unknown_command_reported() {
    let core = context_with("!");
    let registry = CommandRegistry::with_defaults();
    let event = command_interaction("unknown_cmd");
    let err = handle_interactions(&event, &core, &registry).expect_err("unregistered name");
    let DispatchError::UnknownCommand { name } = &err;
    assert_eq!(name, "unknown_cmd");
    assert_eq!(err.message(), "unknown command: unknown_cmd");
    let err = handle_command(&event, &core, &registry).expect_err("unregistered name");
    assert_eq!(err.message(), "unknown command: unknown_cmd");
}

#[test]
fn non_command_interaction_ignored() {
    let core = context_with("!");
    let registry = CommandRegistry::with_defaults();
    let event = InboundEvent::InteractionCreated(Interaction {
        id: 31,
        application_id: 77,
        token: "itoken".to_owned(),
        payload: InteractionPayload::NonCommand,
    });
    let outcome = handle_interactions(&event, &core, &registry).expect("not an error");
    assert!(matches!(outcome, InteractionOutcome::NonCommandIgnored));
}

#[test]
fn first_matching_prefix_wins() {
    let prefixes = vec!["!".to_owned(), "!p".to_owned()];
    assert_eq!(match_prefix(&prefixes, "!ping"), Some(0));
    let reordered = vec!["!p".to_owned(), "!".to_owned()];
    assert_eq!(match_prefix(&reordered, "!ping"), Some(0));
    assert_eq!(match_prefix(&reordered, "!x"), Some(1));
    assert_eq!(match_prefix(&prefixes, "ping"), None);
    let none: Vec<String> = Vec::new();
    assert_eq!(match_prefix(&none, "!ping"), None);
}

#[test]
fn empty_prefix_matches_everything() {
    let core = context_with("");
    let registry = CommandRegistry::with_defaults();
    let event = message_event("ping now");
    let reply = handle_message(&event, &core, &registry);
    match reply {
        Some(Reply::ChannelMessage { text, .. }) => assert_eq!(text, "Pong!"),
        _ => panic!("the empty prefix lets every message through"),
    }
}

#[test]
fn whitespace_only_remainder_ignored() {
    let core = context_with("!");
    let registry = CommandRegistry::with_defaults();
    assert!(handle_message(&message_event("!"), &core, &registry).is_none());
    assert!(handle_message(&message_event("!   "), &core, &registry).is_none());
}

#[test]
fn trigger_match_is_exact_and_case_sensitive() {
    let registry = CommandRegistry::with_defaults();
    assert_eq!(registry.find_trigger("ping"), Some(0));
    assert_eq!(registry.find_trigger("info"), Some(1));
    assert_eq!(registry.find_trigger("Ping"), None);
    assert_eq!(registry.find_trigger("pin"), None);
    assert_eq!(registry.find_trigger("pings"), None);
    assert_eq!(registry.find_canonical("info"), Some(1));
    assert_eq!(registry.find_canonical("INFO"), None);
}

#[test]
fn registration_payloads_carry_canonical_names() {
    let registry = CommandRegistry::with_defaults();
    let payloads: Vec<_> = registry.entries.iter().map(|d| d.registration()).collect();
    assert_eq!(payloads.len(), 2);
    assert_eq!(payloads[0].name, "ping");
    assert_eq!(payloads[0].description, "Pong!");
    assert_eq!(payloads[1].name, "info");
    assert_eq!(payloads[1].description, "Pong!");

    let core = context_with("!");
    assert_eq!(core.application_id, 77);
    assert_eq!(core.commands.len(), 1);
    assert_eq!(core.commands[0].name, "ping");
    assert_eq!(core.config.prefixes, vec!["!".to_owned()]);
}

#[test]
fn dispatch_twice_yields_two_equal_invocations() {
    let core = context_with("!");
    let registry = CommandRegistry::with_defaults();
    let event = message_event("!info later");
    let first = handle_command(&event, &core, &registry).expect("dispatch succeeds");
    let second = handle_command(&event, &core, &registry).expect("dispatch succeeds");
    let texts: Vec<String> = [&first, &second]
        .iter()
        .map(|o| match &o.message_reply {
            Some(Reply::ChannelMessage { text, .. }) => text.clone(),
            _ => panic!("each dispatch invokes the handler anew"),
        })
        .collect();
    assert_eq!(texts[0], "Pong!");
    assert_eq!(texts[1], "Pong!");
}

fn describe(reply: &Option<Reply>) -> String {
    match reply {
        None => "no reply".to_owned(),
        Some(Reply::ChannelMessage { .. }) => "channel message".to_owned(),
        Some(Reply::InteractionResponse { .. }) => "interaction response".to_owned(),
    }
}
