//! The dispatcher: given one decoded inbound event and the shared
//! application context, decides whether it is a command invocation and,
//! if so, which handler answers and with which reply. Two independent
//! paths are tried for every event: the prefix path over created
//! messages and the interaction path over created interactions.

use vstd::prelude::*;

use crate::model::InboundEvent;
use crate::model::InboundEventModel;
use crate::model::Message;
use crate::model::Interaction;
use crate::model::InteractionPayload;
use crate::model::InteractionPayloadModel;
use crate::model::Reply;
use crate::model::ReplyModel;
use crate::registry::CommandRegistry;
use crate::registry::Context;
use crate::registry::HandlerDescriptor;
use crate::registry::HandlerDescriptorModel;
use crate::registry::lemma_selects_canonical_unique;
use crate::registry::lemma_selects_trigger_unique;
use crate::registry::no_canonical;
use crate::registry::selects_canonical;
use crate::registry::selects_trigger;
use crate::text::first_token;
use crate::text::first_token_is;
use crate::text::is_prefix_of;
use crate::text::lemma_token_or_whitespace;
use crate::text::lemma_token_span_unique;
use crate::text::starts_with;
use crate::text::token_span;

verus! {

/// Borrowed view over a created message together with the shared
/// application context, alive for one dispatch call.
pub struct PrefixContext<'a> {
    pub msg: &'a Message,
    pub core: &'a Context,
}

/// Borrowed view over a created interaction together with the shared
/// application context, alive for one dispatch call.
pub struct InteractionContext<'a> {
    pub interaction: &'a Interaction,
    pub core: &'a Context,
}

/// The one reportable dispatch failure: the remote API delivered a
/// command name that was never registered.
#[derive(Debug)]
pub enum DispatchError {
    UnknownCommand { name: String },
}

/// Mathematical value of a [`DispatchError`].
pub enum DispatchErrorModel {
    UnknownCommand { name: Seq<char> },
}

impl View for DispatchError {
    type V = DispatchErrorModel;

    open spec fn view(&self) -> DispatchErrorModel {
        match self {
            DispatchError::UnknownCommand { name } => {
                DispatchErrorModel::UnknownCommand { name: name@ }
            },
        }
    }
}

impl DispatchError {
    /// The report carried up to the shard: `unknown command: ` and the
    /// name the remote API delivered.
    pub fn message(&self) -> (m: String)
        ensures
            m@ == "unknown command: "@ + (match self@ {
                DispatchErrorModel::UnknownCommand { name } => name,
            }),
    {
        let mut m: String = "unknown command: ".to_owned();
        match self {
            DispatchError::UnknownCommand { name } => {
                m.append(name.as_str());
            },
        }
        m
    }
}

/// What the interaction path did with one event.
#[derive(Debug)]
pub enum InteractionOutcome {
    /// The event is not a created interaction; the path does not apply.
    NotAnInteraction,
    /// The payload is not an application-command invocation: ignored,
    /// not an error; the caller logs it.
    NonCommandIgnored,
    /// A handler matched and decided this reply.
    Invoked(Reply),
}

/// Mathematical value of an [`InteractionOutcome`].
pub enum InteractionOutcomeModel {
    NotAnInteraction,
    NonCommandIgnored,
    Invoked(ReplyModel),
}

impl View for InteractionOutcome {
    type V = InteractionOutcomeModel;

    open spec fn view(&self) -> InteractionOutcomeModel {
        match self {
            InteractionOutcome::NotAnInteraction => InteractionOutcomeModel::NotAnInteraction,
            InteractionOutcome::NonCommandIgnored => InteractionOutcomeModel::NonCommandIgnored,
            InteractionOutcome::Invoked(r) => InteractionOutcomeModel::Invoked(r@),
        }
    }
}

/// What one full dispatch decided: at most one reply from the prefix
/// path and the disposition of the interaction path.
#[derive(Debug)]
pub struct DispatchOutcome {
    pub message_reply: Option<Reply>,
    pub interaction: InteractionOutcome,
}

/// Mathematical value of a [`DispatchOutcome`].
#[verifier::ext_equal]
pub struct DispatchOutcomeModel {
    pub message_reply: Option<ReplyModel>,
    pub interaction: InteractionOutcomeModel,
}

impl View for DispatchOutcome {
    type V = DispatchOutcomeModel;

    open spec fn view(&self) -> DispatchOutcomeModel {
        DispatchOutcomeModel {
            message_reply: match self.message_reply {
                Some(r) => Some(r@),
                None => None,
            },
            interaction: self.interaction@,
        }
    }
}

/// Position `i` holds the first prefix in configured order that is a
/// literal prefix of `text`.
pub open spec fn selected_prefix(prefixes: Seq<Seq<char>>, text: Seq<char>, i: int) -> bool {
    &&& 0 <= i < prefixes.len()
    &&& is_prefix_of(prefixes[i], text)
    &&& forall|k: int| 0 <= k < i ==> !is_prefix_of(#[trigger] prefixes[k], text)
}

/// No configured prefix is a literal prefix of `text`.
pub open spec fn no_prefix(prefixes: Seq<Seq<char>>, text: Seq<char>) -> bool {
    forall|k: int| 0 <= k < prefixes.len() ==> !is_prefix_of(#[trigger] prefixes[k], text)
}

/// At most one position is selected for a given text.
pub proof fn lemma_selected_prefix_unique(
    prefixes: Seq<Seq<char>>,
    text: Seq<char>,
    i1: int,
    i2: int,
)
    requires
        selected_prefix(prefixes, text, i1),
        selected_prefix(prefixes, text, i2),
    ensures
        i1 == i2,
{
}

/// A text has at most one first token.
pub proof fn lemma_first_token_unique(s: Seq<char>, t1: Seq<char>, t2: Seq<char>)
    requires
        first_token_is(s, t1),
        first_token_is(s, t2),
    ensures
        t1 == t2,
{
    let (i1, j1): (int, int) = choose|i: int, j: int| token_span(s, i, j) && t1 == s.subrange(i, j);
    let (i2, j2): (int, int) = choose|i: int, j: int| token_span(s, i, j) && t2 == s.subrange(i, j);
    lemma_token_span_unique(s, i1, j1, i2, j2);
}

/// The registry entry the prefix path invokes on a message with text
/// `content`, if any: the first matching prefix is cut off, the first
/// whitespace-delimited token of the remainder is the candidate name,
/// and the first entry whose triggers hold that name exactly answers.
pub open spec fn prefix_invoked_entry(
    prefixes: Seq<Seq<char>>,
    entries: Seq<HandlerDescriptorModel>,
    content: Seq<char>,
) -> Option<int> {
    if exists|i: int| selected_prefix(prefixes, content, i) {
        let i = choose|i: int| selected_prefix(prefixes, content, i);
        let rem = content.subrange(prefixes[i].len() as int, content.len() as int);
        if exists|t: Seq<char>| first_token_is(rem, t) {
            let t = choose|t: Seq<char>| first_token_is(rem, t);
            if exists|e: int| selects_trigger(entries, t, e) {
                Some(choose|e: int| selects_trigger(entries, t, e))
            } else {
                None
            }
        } else {
            None
        }
    } else {
        None
    }
}

/// The reply the prefix path decides for one event, or `None` when the
/// event is no created message or nothing matches.
pub open spec fn message_outcome(
    prefixes: Seq<Seq<char>>,
    entries: Seq<HandlerDescriptorModel>,
    event: InboundEventModel,
) -> Option<ReplyModel> {
    match event {
        InboundEventModel::MessageCreated(m) => match prefix_invoked_entry(
            prefixes,
            entries,
            m.content,
        ) {
            Some(e) => Some(
                ReplyModel::ChannelMessage {
                    channel_id: m.channel_id,
                    reply_to: m.id,
                    text: entries[e].reply,
                },
            ),
            None => None,
        },
        _ => None,
    }
}

/// The disposition the interaction path decides for one event: the
/// handler whose canonical name equals the delivered command name
/// answers; a name no entry registered is the one reportable error.
pub open spec fn interaction_outcome(
    entries: Seq<HandlerDescriptorModel>,
    event: InboundEventModel,
) -> Result<InteractionOutcomeModel, DispatchErrorModel> {
    match event {
        InboundEventModel::InteractionCreated(it) => match it.payload {
            InteractionPayloadModel::ApplicationCommand { name } => {
                if exists|e: int| selects_canonical(entries, name, e) {
                    let e = choose|e: int| selects_canonical(entries, name, e);
                    Ok(
                        InteractionOutcomeModel::Invoked(
                            ReplyModel::InteractionResponse {
                                interaction_id: it.id,
                                token: it.token,
                                text: entries[e].reply,
                            },
                        ),
                    )
                } else {
                    Err(DispatchErrorModel::UnknownCommand { name })
                }
            },
            InteractionPayloadModel::NonCommand => Ok(InteractionOutcomeModel::NonCommandIgnored),
        },
        _ => Ok(InteractionOutcomeModel::NotAnInteraction),
    }
}

/// What one full dispatch of `event` decides: the prefix path first,
/// then the interaction path; an unknown command name fails the whole
/// dispatch.
pub open spec fn dispatch_outcome(
    prefixes: Seq<Seq<char>>,
    entries: Seq<HandlerDescriptorModel>,
    event: InboundEventModel,
) -> Result<DispatchOutcomeModel, DispatchErrorModel> {
    match interaction_outcome(entries, event) {
        Ok(io) => Ok(
            DispatchOutcomeModel {
                message_reply: message_outcome(prefixes, entries, event),
                interaction: io,
            },
        ),
        Err(e) => Err(e),
    }
}

impl HandlerDescriptor {
    /// Prefix-invocation entry point: the handler answers its fixed
    /// text as a reply to the invoking message, in its channel.
    pub fn run_msg(&self, ctx: PrefixContext<'_>) -> (r: Reply)
        ensures
            r@ == (ReplyModel::ChannelMessage {
                channel_id: ctx.msg.channel_id,
                reply_to: ctx.msg.id,
                text: self@.reply,
            }),
    {
        Reply::ChannelMessage {
            channel_id: ctx.msg.channel_id,
            reply_to: ctx.msg.id,
            text: self.reply.clone(),
        }
    }

    /// Interaction-invocation entry point: the handler answers its
    /// fixed text as a synchronous response to the invoking
    /// interaction's token.
    pub fn run_interaction(&self, ctx: InteractionContext<'_>) -> (r: Reply)
        ensures
            r@ == (ReplyModel::InteractionResponse {
                interaction_id: ctx.interaction.id,
                token: ctx.interaction@.token,
                text: self@.reply,
            }),
    {
        Reply::InteractionResponse {
            interaction_id: ctx.interaction.id,
            token: ctx.interaction.token.clone(),
            text: self.reply.clone(),
        }
    }
}

/// The first configured prefix that is a literal prefix of `text`, in
/// configuration order, or `None` when no prefix matches.
pub fn match_prefix(prefixes: &Vec<String>, text: &str) -> (r: Option<usize>)
    ensures
        match r {
            Some(i) => selected_prefix(prefixes.deep_view(), text@, i as int),
            None => no_prefix(prefixes.deep_view(), text@),
        },
{
    let n = prefixes.len();
    let mut i: usize = 0;
    while i < n
        invariant
            i <= n,
            n == prefixes.len(),
            forall|k: int| 0 <= k < i ==> !is_prefix_of(#[trigger] prefixes.deep_view()[k], text@),
        decreases n - i,
    {
        if starts_with(text, prefixes[i].as_str()) {
            return Some(i);
        }
        i = i + 1;
    }
    None
}

/// The prefix path over one event: decides the reply of the first
/// handler whose trigger the message invokes, or `None` when the event
/// is no created message, no prefix matches, the remainder holds no
/// token, or no trigger equals the candidate name.
pub fn handle_message(event: &InboundEvent, core: &Context, registry: &CommandRegistry) -> (r:
    Option<Reply>)
    ensures
        (match r {
            Some(reply) => Some(reply@),
            None => None,
        }) == message_outcome(core@.config.prefixes, registry@, event@),
{
    let msg = match event {
        InboundEvent::MessageCreated(m) => m,
        _ => {
            return None;
        },
    };
    let ghost prefixes = core@.config.prefixes;
    let ghost entries = registry@;
    let ghost content = msg@.content;
    let matched = match_prefix(&core.config.prefixes, msg.content.as_str());
    let i = match matched {
        Some(i) => i,
        None => {
            proof {
                assert(!exists|k: int| selected_prefix(prefixes, content, k));
            }
            return None;
        },
    };
    proof {
        let i0 = choose|i0: int| selected_prefix(prefixes, content, i0);
        lemma_selected_prefix_unique(prefixes, content, i as int, i0);
    }
    let content_len = msg.content.as_str().unicode_len();
    let prefix_len = core.config.prefixes[i].as_str().unicode_len();
    let rem = msg.content.as_str().substring_char(prefix_len, content_len);
    let ghost rem_model = content.subrange(prefixes[i as int].len() as int, content.len() as int);
    let token = match first_token(rem) {
        Some(t) => t,
        None => {
            proof {
                assert(!exists|t: Seq<char>| first_token_is(rem_model, t)) by {
                    if exists|t: Seq<char>| first_token_is(rem_model, t) {
                        let t = choose|t: Seq<char>| first_token_is(rem_model, t);
                        lemma_token_or_whitespace(rem_model, t);
                    }
                }
            }
            return None;
        },
    };
    proof {
        let t0 = choose|t: Seq<char>| first_token_is(rem_model, t);
        lemma_first_token_unique(rem_model, token@, t0);
    }
    let found = registry.find_trigger(token.as_str());
    let e = match found {
        Some(e) => e,
        None => {
            proof {
                assert(!exists|e: int| selects_trigger(entries, token@, e));
            }
            return None;
        },
    };
    proof {
        let e0 = choose|e0: int| selects_trigger(entries, token@, e0);
        lemma_selects_trigger_unique(entries, token@, e as int, e0);
    }
    let prefix_ctx = PrefixContext { msg, core };
    Some(registry.entries[e].run_msg(prefix_ctx))
}

/// Routes one application-command invocation: the handler whose
/// canonical name equals `name` answers; a name no entry registered is
/// reported as `unknown command`.
pub fn start_interaction<'a>(
    interaction: &'a Interaction,
    name: &str,
    core: &'a Context,
    registry: &CommandRegistry,
) -> (r: Result<Reply, DispatchError>)
    ensures
        match r {
            Ok(reply) => exists|e: int|
                selects_canonical(registry@, name@, e) && reply@ == (ReplyModel::InteractionResponse {
                    interaction_id: interaction.id,
                    token: interaction@.token,
                    text: registry@[e].reply,
                }),
            Err(err) => no_canonical(registry@, name@) && err@ == (DispatchErrorModel::UnknownCommand {
                name: name@,
            }),
        },
{
    match registry.find_canonical(name) {
        Some(e) => {
            let ctx = InteractionContext { interaction, core };
            Ok(registry.entries[e].run_interaction(ctx))
        },
        None => Err(DispatchError::UnknownCommand { name: name.to_owned() }),
    }
}

/// The interaction path over one event: routes an application-command
/// payload to its handler, ignores a non-command payload, and reports
/// an unregistered command name as the one dispatch error.
pub fn handle_interactions(event: &InboundEvent, core: &Context, registry: &CommandRegistry) -> (r:
    Result<InteractionOutcome, DispatchError>)
    ensures
        (match r {
            Ok(o) => Ok::<InteractionOutcomeModel, DispatchErrorModel>(o@),
            Err(e) => Err(e@),
        }) == interaction_outcome(registry@, event@),
{
    let interaction = match event {
        InboundEvent::InteractionCreated(it) => it,
        _ => {
            return Ok(InteractionOutcome::NotAnInteraction);
        },
    };
    let name = match &interaction.payload {
        InteractionPayload::ApplicationCommand { name } => name,
        InteractionPayload::NonCommand => {
            return Ok(InteractionOutcome::NonCommandIgnored);
        },
    };
    match start_interaction(interaction, name.as_str(), core, registry) {
        Ok(reply) => {
            proof {
                let e = choose|e: int|
                    selects_canonical(registry@, name@, e) && reply@
                        == (ReplyModel::InteractionResponse {
                        interaction_id: interaction.id,
                        token: interaction@.token,
                        text: registry@[e].reply,
                    });
                let e0 = choose|e0: int| selects_canonical(registry@, name@, e0);
                lemma_selects_canonical_unique(registry@, name@, e, e0);
            }
            Ok(InteractionOutcome::Invoked(reply))
        },
        Err(err) => Err(err),
    }
}

/// One full dispatch: both paths are tried on every event, the prefix
/// path first; the interaction path's one reportable error fails the
/// dispatch and is surfaced to the shard.
pub fn handle_command(event: &InboundEvent, core: &Context, registry: &CommandRegistry) -> (r:
    Result<DispatchOutcome, DispatchError>)
    ensures
        (match r {
            Ok(o) => Ok::<DispatchOutcomeModel, DispatchErrorModel>(o@),
            Err(e) => Err(e@),
        }) == dispatch_outcome(core@.config.prefixes, registry@, event@),
{
    let message_reply = handle_message(event, core, registry);
    match handle_interactions(event, core, registry) {
        Ok(interaction) => Ok(DispatchOutcome { message_reply, interaction }),
        Err(err) => Err(err),
    }
}

/// Dispatching the same event twice produces two independent, equal
/// decisions: the outcome is a function of the event, the configured
/// prefixes and the registry alone, with no caching or deduplication
/// between calls.
pub proof fn lemma_dispatch_independent(
    prefixes: Seq<Seq<char>>,
    entries: Seq<HandlerDescriptorModel>,
    event: InboundEventModel,
    r1: Result<DispatchOutcomeModel, DispatchErrorModel>,
    r2: Result<DispatchOutcomeModel, DispatchErrorModel>,
)
    requires
        r1 == dispatch_outcome(prefixes, entries, event),
        r2 == dispatch_outcome(prefixes, entries, event),
    ensures
        r1 == r2,
{
}

} // verus!
