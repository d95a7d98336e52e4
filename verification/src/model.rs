//! Plain-value models of the data that flows through one dispatch:
//! decoded inbound events, the replies a handler decides to send, and
//! the configuration parsed once at startup.

use vstd::prelude::*;

verus! {

/// One created chat message, as the dispatcher reads it.
pub struct Message {
    pub id: u64,
    pub channel_id: u64,
    pub content: String,
}

/// Mathematical value of a [`Message`].
pub struct MessageModel {
    pub id: u64,
    pub channel_id: u64,
    pub content: Seq<char>,
}

impl View for Message {
    type V = MessageModel;

    open spec fn view(&self) -> MessageModel {
        MessageModel { id: self.id, channel_id: self.channel_id, content: self.content@ }
    }
}

/// The payload carried by one created interaction: either an
/// application-command invocation or some other, non-command shape.
pub enum InteractionPayload {
    ApplicationCommand { name: String },
    NonCommand,
}

/// Mathematical value of an [`InteractionPayload`].
pub enum InteractionPayloadModel {
    ApplicationCommand { name: Seq<char> },
    NonCommand,
}

impl View for InteractionPayload {
    type V = InteractionPayloadModel;

    open spec fn view(&self) -> InteractionPayloadModel {
        match self {
            InteractionPayload::ApplicationCommand { name } => {
                InteractionPayloadModel::ApplicationCommand { name: name@ }
            },
            InteractionPayload::NonCommand => InteractionPayloadModel::NonCommand,
        }
    }
}

/// One created interaction, as the dispatcher reads it.
pub struct Interaction {
    pub id: u64,
    pub application_id: u64,
    pub token: String,
    pub payload: InteractionPayload,
}

/// Mathematical value of an [`Interaction`].
pub struct InteractionModel {
    pub id: u64,
    pub application_id: u64,
    pub token: Seq<char>,
    pub payload: InteractionPayloadModel,
}

impl View for Interaction {
    type V = InteractionModel;

    open spec fn view(&self) -> InteractionModel {
        InteractionModel {
            id: self.id,
            application_id: self.application_id,
            token: self.token@,
            payload: self.payload@,
        }
    }
}

/// One decoded gateway occurrence, owned for the duration of one dispatch.
pub enum InboundEvent {
    MessageCreated(Message),
    InteractionCreated(Interaction),
    GatewayClose,
    Other,
}

/// Mathematical value of an [`InboundEvent`].
pub enum InboundEventModel {
    MessageCreated(MessageModel),
    InteractionCreated(InteractionModel),
    GatewayClose,
    Other,
}

impl View for InboundEvent {
    type V = InboundEventModel;

    open spec fn view(&self) -> InboundEventModel {
        match self {
            InboundEvent::MessageCreated(m) => InboundEventModel::MessageCreated(m@),
            InboundEvent::InteractionCreated(i) => InboundEventModel::InteractionCreated(i@),
            InboundEvent::GatewayClose => InboundEventModel::GatewayClose,
            InboundEvent::Other => InboundEventModel::Other,
        }
    }
}

/// The one outbound request a matched handler decides to issue. The
/// remote client performs it; the dispatcher only determines it.
#[derive(Debug)]
pub enum Reply {
    /// A text reply to a message, addressed to its channel.
    ChannelMessage { channel_id: u64, reply_to: u64, text: String },
    /// A synchronous "channel message with source" response addressed to
    /// the originating interaction token.
    InteractionResponse { interaction_id: u64, token: String, text: String },
}

/// Mathematical value of a [`Reply`].
pub enum ReplyModel {
    ChannelMessage { channel_id: u64, reply_to: u64, text: Seq<char> },
    InteractionResponse { interaction_id: u64, token: Seq<char>, text: Seq<char> },
}

impl View for Reply {
    type V = ReplyModel;

    open spec fn view(&self) -> ReplyModel {
        match self {
            Reply::ChannelMessage { channel_id, reply_to, text } => {
                ReplyModel::ChannelMessage {
                    channel_id: *channel_id,
                    reply_to: *reply_to,
                    text: text@,
                }
            },
            Reply::InteractionResponse { interaction_id, token, text } => {
                ReplyModel::InteractionResponse {
                    interaction_id: *interaction_id,
                    token: token@,
                    text: text@,
                }
            },
        }
    }
}

/// The pieces a prefix list is cut into: `s` split on every occurrence
/// of the two-character separator `", "`, leftmost occurrence first.
pub open spec fn split_prefixes(s: Seq<char>) -> Seq<Seq<char>>
    decreases s.len(),
{
    if s.len() < 2 {
        seq![s]
    } else if s[0] == ',' && s[1] == ' ' {
        seq![Seq::<char>::empty()] + split_prefixes(s.subrange(2, s.len() as int))
    } else {
        let rest = split_prefixes(s.subrange(1, s.len() as int));
        seq![seq![s[0]] + rest[0]] + rest.subrange(1, rest.len() as int)
    }
}

/// A split always yields at least one piece.
pub proof fn lemma_split_prefixes_nonempty(s: Seq<char>)
    ensures
        split_prefixes(s).len() >= 1,
    decreases s.len(),
{
    if s.len() < 2 {
    } else if s[0] == ',' && s[1] == ' ' {
        lemma_split_prefixes_nonempty(s.subrange(2, s.len() as int));
    } else {
        lemma_split_prefixes_nonempty(s.subrange(1, s.len() as int));
    }
}

/// Cuts a raw prefix list on each `", "` separator, in order.
pub fn split_prefix_list(s: &str) -> (r: Vec<String>)
    ensures
        r.deep_view() == split_prefixes(s@),
    decreases s@.len(),
{
    let len = s.unicode_len();
    if len < 2 {
        let mut parts: Vec<String> = Vec::new();
        parts.push(s.to_owned());
        assert(parts.deep_view() =~~= split_prefixes(s@));
        return parts;
    }
    if s.get_char(0) == ',' && s.get_char(1) == ' ' {
        let rest = s.substring_char(2, len);
        let mut parts = split_prefix_list(rest);
        parts.insert(0, String::new());
        assert(parts.deep_view() =~~= split_prefixes(s@));
        parts
    } else {
        let rest = s.substring_char(1, len);
        let mut parts = split_prefix_list(rest);
        proof {
            lemma_split_prefixes_nonempty(rest@);
            assert(parts.deep_view().len() == parts@.len());
        }
        let mut head: String = s.substring_char(0, 1).to_owned();
        head.append(parts[0].as_str());
        proof {
            assert(seq![s@[0]] =~= s@.subrange(0, 1));
        }
        parts.set(0, head);
        assert(parts.deep_view() =~~= split_prefixes(s@));
        parts
    }
}

/// The startup configuration: the authentication token and the ordered
/// list of accepted textual command prefixes.
pub struct Config {
    pub token: String,
    pub prefixes: Vec<String>,
}

/// Mathematical value of a [`Config`].
pub struct ConfigModel {
    pub token: Seq<char>,
    pub prefixes: Seq<Seq<char>>,
}

impl View for Config {
    type V = ConfigModel;

    open spec fn view(&self) -> ConfigModel {
        ConfigModel { token: self.token@, prefixes: self.prefixes.deep_view() }
    }
}

impl Config {
    /// Builds the configuration from the two raw environment values: the
    /// token is taken as is, the prefix list is cut on `", "`.
    pub fn parse(token: String, prefixes_raw: &str) -> (c: Config)
        ensures
            c@.token == token@,
            c@.prefixes == split_prefixes(prefixes_raw@),
    {
        let prefixes = split_prefix_list(prefixes_raw);
        Config { token, prefixes }
    }
}

} // verus!
