//! The command registry: a flat table of handler descriptors, each
//! carrying its prefix triggers, its canonical interaction name, the
//! fixed reply text it answers with, and the payload registered once at
//! startup with the remote API. Lookup is exact-string, case-sensitive
//! and first-match-wins.

use vstd::prelude::*;

use crate::model::Config;
use crate::model::ConfigModel;
use crate::text::text_eq;

verus! {

/// The payload registered once at startup for one slash-style command.
pub struct RegistrationCommand {
    pub name: String,
    pub description: String,
}

/// Mathematical value of a [`RegistrationCommand`].
#[verifier::ext_equal]
pub struct RegistrationCommandModel {
    pub name: Seq<char>,
    pub description: Seq<char>,
}

impl View for RegistrationCommand {
    type V = RegistrationCommandModel;

    open spec fn view(&self) -> RegistrationCommandModel {
        RegistrationCommandModel { name: self.name@, description: self.description@ }
    }
}

impl DeepView for RegistrationCommand {
    type V = RegistrationCommandModel;

    open spec fn deep_view(&self) -> RegistrationCommandModel {
        self.view()
    }
}

/// One registered handler: the trigger names that invoke it from a
/// prefixed message, the single canonical name that invokes it from an
/// interaction, and the fixed text it replies with either way.
pub struct HandlerDescriptor {
    pub triggers: Vec<String>,
    pub canonical: String,
    pub reply: String,
    pub description: String,
}

/// Mathematical value of a [`HandlerDescriptor`].
#[verifier::ext_equal]
pub struct HandlerDescriptorModel {
    pub triggers: Seq<Seq<char>>,
    pub canonical: Seq<char>,
    pub reply: Seq<char>,
    pub description: Seq<char>,
}

impl View for HandlerDescriptor {
    type V = HandlerDescriptorModel;

    open spec fn view(&self) -> HandlerDescriptorModel {
        HandlerDescriptorModel {
            triggers: self.triggers.deep_view(),
            canonical: self.canonical@,
            reply: self.reply@,
            description: self.description@,
        }
    }
}

impl DeepView for HandlerDescriptor {
    type V = HandlerDescriptorModel;

    open spec fn deep_view(&self) -> HandlerDescriptorModel {
        self.view()
    }
}

impl HandlerDescriptor {
    /// The registration payload submitted once at startup for this
    /// handler's canonical name.
    pub fn registration(&self) -> (c: RegistrationCommand)
        ensures
            c@.name == self@.canonical,
            c@.description == self@.description,
    {
        RegistrationCommand {
            name: self.canonical.clone(),
            description: self.description.clone(),
        }
    }
}

/// `name` is one of the descriptor's prefix triggers.
pub open spec fn has_trigger(d: HandlerDescriptorModel, name: Seq<char>) -> bool {
    exists|k: int| 0 <= k < d.triggers.len() && d.triggers[k] == name
}

/// Entry `e` is the first whose triggers contain `name`.
pub open spec fn selects_trigger(entries: Seq<HandlerDescriptorModel>, name: Seq<char>, e: int) -> bool {
    &&& 0 <= e < entries.len()
    &&& has_trigger(entries[e], name)
    &&& forall|k: int| 0 <= k < e ==> !has_trigger(#[trigger] entries[k], name)
}

/// No entry's triggers contain `name`.
pub open spec fn no_trigger(entries: Seq<HandlerDescriptorModel>, name: Seq<char>) -> bool {
    forall|k: int| 0 <= k < entries.len() ==> !has_trigger(#[trigger] entries[k], name)
}

/// Entry `e` is the first whose canonical name is `name`.
pub open spec fn selects_canonical(entries: Seq<HandlerDescriptorModel>, name: Seq<char>, e: int) -> bool {
    &&& 0 <= e < entries.len()
    &&& entries[e].canonical == name
    &&& forall|k: int| 0 <= k < e ==> (#[trigger] entries[k]).canonical != name
}

/// No entry's canonical name is `name`.
pub open spec fn no_canonical(entries: Seq<HandlerDescriptorModel>, name: Seq<char>) -> bool {
    forall|k: int| 0 <= k < entries.len() ==> (#[trigger] entries[k]).canonical != name
}

/// At most one entry is selected for a given name.
pub proof fn lemma_selects_trigger_unique(
    entries: Seq<HandlerDescriptorModel>,
    name: Seq<char>,
    e1: int,
    e2: int,
)
    requires
        selects_trigger(entries, name, e1),
        selects_trigger(entries, name, e2),
    ensures
        e1 == e2,
{
}

/// At most one entry is selected for a given canonical name.
pub proof fn lemma_selects_canonical_unique(
    entries: Seq<HandlerDescriptorModel>,
    name: Seq<char>,
    e1: int,
    e2: int,
)
    requires
        selects_canonical(entries, name, e1),
        selects_canonical(entries, name, e2),
    ensures
        e1 == e2,
{
}

/// The descriptor of the `ping` command.
pub open spec fn ping_descriptor_model() -> HandlerDescriptorModel {
    HandlerDescriptorModel {
        triggers: seq!["ping"@],
        canonical: "ping"@,
        reply: "Pong!"@,
        description: "Pong!"@,
    }
}

/// The descriptor of the `info` command.
pub open spec fn info_descriptor_model() -> HandlerDescriptorModel {
    HandlerDescriptorModel {
        triggers: seq!["info"@],
        canonical: "info"@,
        reply: "Pong!"@,
        description: "Pong!"@,
    }
}

/// The `ping` command: answers the fixed text `Pong!`.
pub struct Ping;

impl Ping {
    /// The registry entry of `ping`.
    pub fn descriptor() -> (d: HandlerDescriptor)
        ensures
            d@ == ping_descriptor_model(),
    {
        let d = HandlerDescriptor {
            triggers: vec!["ping".to_owned()],
            canonical: "ping".to_owned(),
            reply: "Pong!".to_owned(),
            description: "Pong!".to_owned(),
        };
        proof {
            assert(d@.triggers =~~= ping_descriptor_model().triggers);
            assert(d@ =~~= ping_descriptor_model());
        }
        d
    }

    /// The payload that registers `ping` with the remote API.
    pub fn create_command() -> (c: RegistrationCommand)
        ensures
            c@.name == "ping"@,
            c@.description == "Pong!"@,
    {
        RegistrationCommand { name: "ping".to_owned(), description: "Pong!".to_owned() }
    }
}

/// The `info` command: answers the same fixed text as `ping`.
pub struct Info;

impl Info {
    /// The registry entry of `info`.
    pub fn descriptor() -> (d: HandlerDescriptor)
        ensures
            d@ == info_descriptor_model(),
    {
        let d = HandlerDescriptor {
            triggers: vec!["info".to_owned()],
            canonical: "info".to_owned(),
            reply: "Pong!".to_owned(),
            description: "Pong!".to_owned(),
        };
        proof {
            assert(d@.triggers =~~= info_descriptor_model().triggers);
            assert(d@ =~~= info_descriptor_model());
        }
        d
    }

    /// The payload that registers `info` with the remote API.
    pub fn create_command() -> (c: RegistrationCommand)
        ensures
            c@.name == "info"@,
            c@.description == "Pong!"@,
    {
        RegistrationCommand { name: "info".to_owned(), description: "Pong!".to_owned() }
    }
}

/// The static mapping from trigger or canonical name to handler.
pub struct CommandRegistry {
    pub entries: Vec<HandlerDescriptor>,
}

impl View for CommandRegistry {
    type V = Seq<HandlerDescriptorModel>;

    open spec fn view(&self) -> Seq<HandlerDescriptorModel> {
        self.entries.deep_view()
    }
}

impl CommandRegistry {
    /// The registry the bot runs with: `ping` first, then `info`.
    pub fn with_defaults() -> (r: CommandRegistry)
        ensures
            r@ =~= seq![ping_descriptor_model(), info_descriptor_model()],
    {
        let r = CommandRegistry { entries: vec![Ping::descriptor(), Info::descriptor()] };
        assert(r@ =~~= seq![ping_descriptor_model(), info_descriptor_model()]);
        r
    }

    /// Whether `name` is one of `d`'s triggers, compared exactly.
    fn entry_has_trigger(d: &HandlerDescriptor, name: &str) -> (b: bool)
        ensures
            b == has_trigger(d@, name@),
    {
        let n = d.triggers.len();
        let mut k: usize = 0;
        while k < n
            invariant
                k <= n,
                n == d.triggers.len(),
                forall|m: int| 0 <= m < k ==> d@.triggers[m] != name@,
        decreases n - k,
        {
            if text_eq(d.triggers[k].as_str(), name) {
                assert(d@.triggers[k as int] == name@);
                return true;
            }
            k = k + 1;
        }
        false
    }

    /// The first entry one of whose triggers is exactly `name`, or
    /// `None` when no entry's triggers contain it.
    pub fn find_trigger(&self, name: &str) -> (r: Option<usize>)
        ensures
            match r {
                Some(e) => selects_trigger(self@, name@, e as int),
                None => no_trigger(self@, name@),
            },
    {
        let n = self.entries.len();
        let mut e: usize = 0;
        while e < n
            invariant
                e <= n,
                n == self.entries.len(),
                forall|k: int| 0 <= k < e ==> !has_trigger(#[trigger] self@[k], name@),
        decreases n - e,
        {
            if Self::entry_has_trigger(&self.entries[e], name) {
                return Some(e);
            }
            e = e + 1;
        }
        None
    }

    /// The first entry whose canonical name is exactly `name`, or
    /// `None` when no entry carries it.
    pub fn find_canonical(&self, name: &str) -> (r: Option<usize>)
        ensures
            match r {
                Some(e) => selects_canonical(self@, name@, e as int),
                None => no_canonical(self@, name@),
            },
    {
        let n = self.entries.len();
        let mut e: usize = 0;
        while e < n
            invariant
                e <= n,
                n == self.entries.len(),
                forall|k: int| 0 <= k < e ==> (#[trigger] self@[k]).canonical != name@,
        decreases n - e,
        {
            if text_eq(self.entries[e].canonical.as_str(), name) {
                return Some(e);
            }
            e = e + 1;
        }
        None
    }
}

/// The shared application context: the bot's own identity, the command
/// payloads submitted once at startup, and the loaded configuration.
/// Immutable after construction; the remote client handle that the
/// original bundle carries stays with the caller that owns the I/O.
pub struct Context {
    pub application_id: u64,
    pub commands: Vec<RegistrationCommand>,
    pub config: Config,
}

/// Mathematical value of a [`Context`].
#[verifier::ext_equal]
pub struct ContextModel {
    pub application_id: u64,
    pub commands: Seq<RegistrationCommandModel>,
    pub config: ConfigModel,
}

impl View for Context {
    type V = ContextModel;

    open spec fn view(&self) -> ContextModel {
        ContextModel {
            application_id: self.application_id,
            commands: self.commands.deep_view(),
            config: self.config@,
        }
    }
}

impl Context {
    /// Assembles the context from the fetched application identity and
    /// the parsed configuration; the one registered global command
    /// payload is `ping`'s.
    pub fn new(application_id: u64, config: Config) -> (c: Context)
        ensures
            c@.application_id == application_id,
            c@.config == config@,
            c@.commands =~= seq![RegistrationCommandModel { name: "ping"@, description: "Pong!"@ }],
    {
        let c = Context { application_id, commands: vec![Ping::create_command()], config };
        assert(c@.commands =~~= seq![
            RegistrationCommandModel { name: "ping"@, description: "Pong!"@ },
        ]);
        c
    }
}

} // verus!
