//! The state that the agents keep: the identities of a model, and for each
//! remote party the counters of the conversation with it.
//!
//! A conversation is filed under the SHA-256 digest of the remote party's
//! identity, never under the identity itself.

use crate::string_map::StringMap;
use vstd::prelude::*;

verus! {

/// The hex digest that `sha256::digest` computes of a text.
pub uninterp spec fn sha256_hex(text: Seq<char>) -> Seq<char>;

/// `sha256::digest` on a string slice: the SHA-256 digest of the text's UTF-8
/// bytes, in hex. The contract only gives the result its name.
#[verifier::external_body]
pub(crate) fn digest(text: &str) -> (hex: String)
    ensures
        hex@ == sha256_hex(text@),
{
    sha256::digest(text)
}

// ---------------------------------------------------------------------------
//  ChatChannelState
// ---------------------------------------------------------------------------
/// The state of the conversation with one remote party.
#[derive(Debug, PartialEq, Eq)]
pub struct ChatChannelState {
    /// DID of the remote party
    pub remote_did: String,
    /// SHA-256 digest of the remote DID
    pub remote_did_hash: String,
    /// Number of the next activity signal to this party
    pub activity_seq_no: u64,
    /// Number of the next chat message to this party
    pub seq_no: u64,
}

/// What a `ChatChannelState` holds.
pub ghost struct ChatChannelStateView {
    pub remote_did: Seq<char>,
    pub remote_did_hash: Seq<char>,
    pub activity_seq_no: u64,
    pub seq_no: u64,
}

impl View for ChatChannelState {
    type V = ChatChannelStateView;

    open spec fn view(&self) -> ChatChannelStateView {
        ChatChannelStateView {
            remote_did: self.remote_did@,
            remote_did_hash: self.remote_did_hash@,
            activity_seq_no: self.activity_seq_no,
            seq_no: self.seq_no,
        }
    }
}

/// The state of a conversation that has just begun with `remote_did`: filed
/// under the digest of the identity, both counters at zero.
pub open spec fn fresh_channel(remote_did: Seq<char>) -> ChatChannelStateView {
    ChatChannelStateView {
        remote_did,
        remote_did_hash: sha256_hex(remote_did),
        activity_seq_no: 0,
        seq_no: 0,
    }
}

impl Clone for ChatChannelState {
    fn clone(&self) -> (copy: Self)
        ensures
            copy == *self,
    {
        ChatChannelState {
            remote_did: self.remote_did.clone(),
            remote_did_hash: self.remote_did_hash.clone(),
            activity_seq_no: self.activity_seq_no,
            seq_no: self.seq_no,
        }
    }
}

impl Default for ChatChannelState {
    fn default() -> (state: Self)
        ensures
            state@ == (ChatChannelStateView {
                remote_did: Seq::empty(),
                remote_did_hash: Seq::empty(),
                activity_seq_no: 0,
                seq_no: 0,
            }),
    {
        ChatChannelState {
            remote_did: String::new(),
            remote_did_hash: String::new(),
            activity_seq_no: 0,
            seq_no: 0,
        }
    }
}

impl ChatChannelState {
    /// The state of a conversation that has just begun with `remote_did`.
    pub fn for_remote(remote_did: &str) -> (state: Self)
        ensures
            state@ == fresh_channel(remote_did@),
    {
        ChatChannelState {
            remote_did: remote_did.to_string(),
            remote_did_hash: digest(remote_did),
            activity_seq_no: 0,
            seq_no: 0,
        }
    }
}

// ---------------------------------------------------------------------------
//  DIDCommAgent
// ---------------------------------------------------------------------------
/// An identity through which an agent sends and receives messages. A model
/// may have many.
#[derive(Debug, PartialEq, Eq)]
pub struct DIDCommAgent {
    pub did: String,
    pub name: String,
    pub greeting: String,
    pub image: String,
    pub x_meetingplace_contact_attributes: u8,
    pub x_meetingplace_verification_id: Option<String>,
}

/// What a `DIDCommAgent` holds.
pub ghost struct DIDCommAgentView {
    pub did: Seq<char>,
    pub name: Seq<char>,
    pub greeting: Seq<char>,
    pub image: Seq<char>,
    pub x_meetingplace_contact_attributes: u8,
    pub x_meetingplace_verification_id: Option<Seq<char>>,
}

impl View for DIDCommAgent {
    type V = DIDCommAgentView;

    open spec fn view(&self) -> DIDCommAgentView {
        DIDCommAgentView {
            did: self.did@,
            name: self.name@,
            greeting: self.greeting@,
            image: self.image@,
            x_meetingplace_contact_attributes: self.x_meetingplace_contact_attributes,
            x_meetingplace_verification_id: match self.x_meetingplace_verification_id {
                Some(id) => Some(id@),
                None => None,
            },
        }
    }
}

impl Clone for DIDCommAgent {
    fn clone(&self) -> (copy: Self)
        ensures
            copy == *self,
    {
        DIDCommAgent {
            did: self.did.clone(),
            name: self.name.clone(),
            greeting: self.greeting.clone(),
            image: self.image.clone(),
            x_meetingplace_contact_attributes: self.x_meetingplace_contact_attributes,
            x_meetingplace_verification_id: match &self.x_meetingplace_verification_id {
                Some(id) => Some(id.clone()),
                None => None,
            },
        }
    }
}

/// An identity of which nothing is set yet.
pub open spec fn blank_agent() -> DIDCommAgentView {
    DIDCommAgentView {
        did: Seq::empty(),
        name: Seq::empty(),
        greeting: Seq::empty(),
        image: Seq::empty(),
        x_meetingplace_contact_attributes: 0,
        x_meetingplace_verification_id: None,
    }
}

impl Default for DIDCommAgent {
    fn default() -> (agent: Self)
        ensures
            agent@ == blank_agent(),
    {
        DIDCommAgent {
            did: String::new(),
            name: String::new(),
            greeting: String::new(),
            image: String::new(),
            x_meetingplace_contact_attributes: 0,
            x_meetingplace_verification_id: None,
        }
    }
}

/// The views of a list of identities.
pub open spec fn agent_views(agents: Seq<DIDCommAgent>) -> Seq<DIDCommAgentView> {
    Seq::new(agents.len(), |i: int| agents[i]@)
}

// ---------------------------------------------------------------------------
//  OllamaModel
// ---------------------------------------------------------------------------
/// A model of the generation service, the identities under which it can be
/// reached, and the conversations held with it.
#[derive(Debug)]
pub struct OllamaModel {
    /// Name of the model in the generation service
    pub name: String,
    /// Hostname of the generation service for this model
    pub ollama_host: String,
    /// Port of the generation service for this model
    pub ollama_port: u16,
    /// Identities for sending messages to this model
    pub dids: Vec<DIDCommAgent>,
    /// Conversations with this model, by the digest of the remote identity
    pub channel_state: StringMap<ChatChannelState>,
}

/// What an `OllamaModel` holds.
pub ghost struct OllamaModelView {
    pub name: Seq<char>,
    pub ollama_host: Seq<char>,
    pub ollama_port: u16,
    pub dids: Seq<DIDCommAgentView>,
    pub channel_state: Map<Seq<char>, ChatChannelStateView>,
}

impl View for OllamaModel {
    type V = OllamaModelView;

    open spec fn view(&self) -> OllamaModelView {
        OllamaModelView {
            name: self.name@,
            ollama_host: self.ollama_host@,
            ollama_port: self.ollama_port,
            dids: agent_views(self.dids@),
            channel_state: self.channel_state@,
        }
    }
}

/// The greeting that a new model's identity sends to a party that connects.
pub open spec fn standard_greeting() -> Seq<char> {
    "Standard Greeting"@
}

/// The picture that a new model's identity shows.
pub open spec fn standard_image() -> Seq<char> {
    "deepseek.png"@
}

/// A model as `OllamaModel::new` makes it: one identity, named after the
/// model, and no conversations yet.
pub open spec fn new_model(
    ollama_host: Seq<char>,
    ollama_port: u16,
    model_name: Seq<char>,
    did: Seq<char>,
) -> OllamaModelView {
    OllamaModelView {
        name: model_name,
        ollama_host,
        ollama_port,
        dids: seq![
            DIDCommAgentView {
                did,
                name: model_name,
                greeting: standard_greeting(),
                image: standard_image(),
                x_meetingplace_contact_attributes: 0,
                x_meetingplace_verification_id: None,
            },
        ],
        channel_state: Map::empty(),
    }
}

impl OllamaModel {
    /// A model of the service at `ollama_host` and `ollama_port`, reachable
    /// under the identity `did`, which the caller has created for it.
    pub fn new(ollama_host: String, ollama_port: u16, model_name: &str, did: String) -> (model:
        Self)
        ensures
            model@ == new_model(ollama_host@, ollama_port, model_name@, did@),
    {
        let agent = DIDCommAgent {
            did,
            name: model_name.to_string(),
            greeting: "Standard Greeting".to_string(),
            image: "deepseek.png".to_string(),
            x_meetingplace_contact_attributes: 0,
            x_meetingplace_verification_id: None,
        };
        let mut dids: Vec<DIDCommAgent> = Vec::new();
        dids.push(agent);
        let model = OllamaModel {
            name: model_name.to_string(),
            ollama_host,
            ollama_port,
            dids,
            channel_state: StringMap::new(),
        };
        assert(model@.dids =~= new_model(ollama_host@, ollama_port, model_name@, did@).dids);
        model
    }
}

// ---------------------------------------------------------------------------
//  ConciergeState
// ---------------------------------------------------------------------------
/// The concierge's own identity and the conversations held with it.
#[derive(Debug)]
pub struct ConciergeState {
    /// Identity of the concierge
    pub agent: DIDCommAgent,
    /// Conversations with the concierge, by the digest of the remote identity
    pub channel_state: StringMap<ChatChannelState>,
}

/// What a `ConciergeState` holds.
pub ghost struct ConciergeStateView {
    pub agent: DIDCommAgentView,
    pub channel_state: Map<Seq<char>, ChatChannelStateView>,
}

impl View for ConciergeState {
    type V = ConciergeStateView;

    open spec fn view(&self) -> ConciergeStateView {
        ConciergeStateView { agent: self.agent@, channel_state: self.channel_state@ }
    }
}

impl Default for ConciergeState {
    fn default() -> (state: Self)
        ensures
            state@ == (ConciergeStateView { agent: blank_agent(), channel_state: Map::empty() }),
    {
        ConciergeState { agent: DIDCommAgent::default(), channel_state: StringMap::new() }
    }
}

// ---------------------------------------------------------------------------
//  Config
// ---------------------------------------------------------------------------
/// Everything that is kept between runs: the models by name, the mediator,
/// and the concierge.
#[derive(Debug)]
pub struct Config {
    /// Models that have been configured, by name
    pub models: StringMap<OllamaModel>,
    /// Identity of the mediator
    pub mediator_did: String,
    /// The concierge
    pub concierge: ConciergeState,
}

/// What a `Config` holds.
pub ghost struct ConfigView {
    pub models: Map<Seq<char>, OllamaModelView>,
    pub mediator_did: Seq<char>,
    pub concierge: ConciergeStateView,
}

impl View for Config {
    type V = ConfigView;

    open spec fn view(&self) -> ConfigView {
        ConfigView {
            models: self.models@,
            mediator_did: self.mediator_did@,
            concierge: self.concierge@,
        }
    }
}

impl Default for Config {
    fn default() -> (config: Self)
        ensures
            config@ == (ConfigView {
                models: Map::empty(),
                mediator_did: Seq::empty(),
                concierge: ConciergeStateView { agent: blank_agent(), channel_state: Map::empty() },
            }),
    {
        Config {
            models: StringMap::new(),
            mediator_did: String::new(),
            concierge: ConciergeState::default(),
        }
    }
}

/// The identities of `agents`, in order.
pub open spec fn agent_dids(agents: Seq<DIDCommAgentView>) -> Seq<Seq<char>> {
    Seq::new(agents.len(), |i: int| agents[i].did)
}

/// The identities whose secrets are to be purged when the model called
/// `model_name` leaves `models`: all of that model's, or none where no model
/// has that name.
pub open spec fn purged_dids(
    models: Map<Seq<char>, OllamaModelView>,
    model_name: Seq<char>,
) -> Seq<Seq<char>> {
    if models.contains_key(model_name) {
        agent_dids(models[model_name].dids)
    } else {
        Seq::empty()
    }
}

/// The views of a list of strings.
pub open spec fn string_views(strings: Seq<String>) -> Seq<Seq<char>> {
    Seq::new(strings.len(), |i: int| strings[i]@)
}

impl Config {
    /// Adds a model under `name`; a model that had that name is replaced.
    pub fn add_model(&mut self, name: &str, model: OllamaModel)
        ensures
            final(self)@ == (ConfigView {
                models: old(self)@.models.insert(name@, model@),
                ..old(self)@
            }),
    {
        self.models.insert(name.to_string(), model);
    }

    /// Removes the model called `model_name`, if there is one, and hands back
    /// the identities that it had: their secrets are to be purged.
    pub fn remove_model(&mut self, model_name: &str) -> (purge: Vec<String>)
        ensures
            final(self)@ == (ConfigView {
                models: old(self)@.models.remove(model_name@),
                ..old(self)@
            }),
            string_views(purge@) == purged_dids(old(self)@.models, model_name@),
    {
        let mut purge: Vec<String> = Vec::new();
        match self.models.remove(model_name) {
            Some(model) => {
                let mut i: usize = 0;
                while i < model.dids.len()
                    invariant
                        i <= model.dids@.len(),
                        purge@.len() == i,
                        forall|j: int| 0 <= j < i ==> (#[trigger] purge@[j])@ == model.dids@[j].did@,
                    decreases model.dids@.len() - i,
                {
                    purge.push(model.dids[i].did.clone());
                    i += 1;
                }
                assert(string_views(purge@) =~= agent_dids(model@.dids));
            },
            None => {
                assert(string_views(purge@) =~= Seq::<Seq<char>>::empty());
            },
        }
        purge
    }
}

// ---------------------------------------------------------------------------
//  ChannelState
// ---------------------------------------------------------------------------
/// What an owner of conversations holds beside them. The operations of
/// `ChannelState` leave it as it is.
pub ghost enum OwnerView {
    Model {
        name: Seq<char>,
        ollama_host: Seq<char>,
        ollama_port: u16,
        dids: Seq<DIDCommAgentView>,
    },
    Concierge { agent: DIDCommAgentView },
}

/// What a model holds beside its conversations.
pub open spec fn model_owner(model: OllamaModelView) -> OwnerView {
    OwnerView::Model {
        name: model.name,
        ollama_host: model.ollama_host,
        ollama_port: model.ollama_port,
        dids: model.dids,
    }
}

/// The view of an optional conversation state.
pub open spec fn channel_view(state: Option<ChatChannelState>) -> Option<ChatChannelStateView> {
    match state {
        Some(s) => Some(s@),
        None => None,
    }
}

/// What `channels` holds under `did_hash`, if anything.
pub open spec fn channel_at(
    channels: Map<Seq<char>, ChatChannelStateView>,
    did_hash: Seq<char>,
) -> Option<ChatChannelStateView> {
    if channels.contains_key(did_hash) {
        Some(channels[did_hash])
    } else {
        None
    }
}

/// The common way to the conversations of a model and of the concierge. Each
/// owner holds at most one conversation under a digest.
pub trait ChannelState {
    /// The conversations, by the digest of the remote identity.
    spec fn channels(&self) -> Map<Seq<char>, ChatChannelStateView>;

    /// What the owner holds beside its conversations.
    spec fn owner(&self) -> OwnerView;

    /// The conversation filed under `did_hash`, if there is one.
    fn get_channel_state(&self, did_hash: &str) -> (state: Option<&ChatChannelState>)
        ensures
            match state {
                Some(s) => channel_at(self.channels(), did_hash@) == Some(s@),
                None => channel_at(self.channels(), did_hash@) is None,
            },
    ;

    /// The conversation filed under `did_hash`, if there is one, to be
    /// changed in place.
    fn get_channel_state_mut(&mut self, did_hash: &str) -> (state: Option<&mut ChatChannelState>)
        ensures
            match state {
                Some(s) => {
                    &&& channel_at(old(self).channels(), did_hash@) == Some(s@)
                    &&& final(self).channels() == old(self).channels().insert(
                        did_hash@,
                        final(s)@,
                    )
                },
                None => {
                    &&& channel_at(old(self).channels(), did_hash@) is None
                    &&& final(self).channels() == old(self).channels()
                },
            },
            final(self).owner() == old(self).owner(),
    ;

    /// Takes out the conversation filed under `did_hash` and hands it back.
    fn remove_channel_state(&mut self, did_hash: &str) -> (removed: Option<ChatChannelState>)
        ensures
            channel_view(removed) == channel_at(old(self).channels(), did_hash@),
            final(self).channels() == old(self).channels().remove(did_hash@),
            final(self).owner() == old(self).owner(),
    ;

    /// Files `state` under `did_hash` and hands back what was filed there
    /// before.
    fn insert_channel_state(&mut self, did_hash: &str, state: ChatChannelState) -> (previous:
        Option<ChatChannelState>)
        ensures
            channel_view(previous) == channel_at(old(self).channels(), did_hash@),
            final(self).channels() == old(self).channels().insert(did_hash@, state@),
            final(self).owner() == old(self).owner(),
    ;

    /// The model, where the owner is one.
    fn get_model(&self) -> (model: Option<&OllamaModel>)
        ensures
            match model {
                Some(m) => self.owner() == model_owner(m@) && self.channels()
                    == m@.channel_state,
                None => !(self.owner() is Model),
            },
    ;
}

impl ChannelState for OllamaModel {
    open spec fn channels(&self) -> Map<Seq<char>, ChatChannelStateView> {
        self@.channel_state
    }

    open spec fn owner(&self) -> OwnerView {
        model_owner(self@)
    }

    fn get_channel_state(&self, did_hash: &str) -> (state: Option<&ChatChannelState>) {
        self.channel_state.get(did_hash)
    }

    fn get_channel_state_mut(&mut self, did_hash: &str) -> (state: Option<
        &mut ChatChannelState,
    >) {
        self.channel_state.get_mut(did_hash)
    }

    fn remove_channel_state(&mut self, did_hash: &str) -> (removed: Option<ChatChannelState>) {
        self.channel_state.remove(did_hash)
    }

    fn insert_channel_state(&mut self, did_hash: &str, state: ChatChannelState) -> (previous:
        Option<ChatChannelState>) {
        self.channel_state.insert(did_hash.to_string(), state)
    }

    fn get_model(&self) -> (model: Option<&OllamaModel>) {
        Some(self)
    }
}

impl ChannelState for ConciergeState {
    open spec fn channels(&self) -> Map<Seq<char>, ChatChannelStateView> {
        self@.channel_state
    }

    open spec fn owner(&self) -> OwnerView {
        OwnerView::Concierge { agent: self@.agent }
    }

    fn get_channel_state(&self, did_hash: &str) -> (state: Option<&ChatChannelState>) {
        self.channel_state.get(did_hash)
    }

    fn get_channel_state_mut(&mut self, did_hash: &str) -> (state: Option<
        &mut ChatChannelState,
    >) {
        self.channel_state.get_mut(did_hash)
    }

    fn remove_channel_state(&mut self, did_hash: &str) -> (removed: Option<ChatChannelState>) {
        self.channel_state.remove(did_hash)
    }

    fn insert_channel_state(&mut self, did_hash: &str, state: ChatChannelState) -> (previous:
        Option<ChatChannelState>) {
        self.channel_state.insert(did_hash.to_string(), state)
    }

    fn get_model(&self) -> (model: Option<&OllamaModel>) {
        None
    }
}

/// The identity among `dids` that is called `did`: the first, if there are
/// several.
pub open spec fn agent_for(dids: Seq<DIDCommAgentView>, did: Seq<char>) -> Option<
    DIDCommAgentView,
>
    decreases dids.len(),
{
    if dids.len() == 0 {
        None
    } else if dids[0].did == did {
        Some(dids[0])
    } else {
        agent_for(dids.drop_first(), did)
    }
}

/// The view of an optional identity.
pub open spec fn agent_view(agent: Option<&DIDCommAgent>) -> Option<DIDCommAgentView> {
    match agent {
        Some(a) => Some(a@),
        None => None,
    }
}

/// Looks up the identity called `did` among `dids`.
pub fn find_agent<'a>(dids: &'a Vec<DIDCommAgent>, did: &str) -> (agent: Option<&'a DIDCommAgent>)
    ensures
        agent_view(agent) == agent_for(agent_views(dids@), did@),
{
    let ghost all = agent_views(dids@);
    let mut i: usize = 0;
    assert(all.skip(0) =~= all);
    while i < dids.len()
        invariant
            i <= dids@.len(),
            all == agent_views(dids@),
            agent_for(all, did@) == agent_for(all.skip(i as int), did@),
        decreases dids@.len() - i,
    {
        proof {
            assert(all.skip(i as int)[0] == dids@[i as int]@);
            assert(all.skip(i as int).drop_first() =~= all.skip(i + 1));
        }
        if crate::text::str_eq(dids[i].did.as_str(), did) {
            return Some(&dids[i]);
        }
        i += 1;
    }
    None
}

// ---------------------------------------------------------------------------
//  Sequence numbers
// ---------------------------------------------------------------------------
/// Why no sequence number could be drawn.
#[derive(Debug, PartialEq, Eq, Clone, Copy)]
pub enum SequenceError {
    /// No conversation is filed under the digest: the caller has to file one
    /// before it draws numbers.
    UnknownParty,
    /// The counter stands at its last value.
    Exhausted,
}

/// The number that the next chat message of the conversation under
/// `did_hash` gets.
pub open spec fn message_seq(
    channels: Map<Seq<char>, ChatChannelStateView>,
    did_hash: Seq<char>,
) -> Result<u64, SequenceError> {
    if !channels.contains_key(did_hash) {
        Err(SequenceError::UnknownParty)
    } else if channels[did_hash].seq_no == u64::MAX {
        Err(SequenceError::Exhausted)
    } else {
        Ok(channels[did_hash].seq_no)
    }
}

/// The conversations once the number of the next chat message under
/// `did_hash` has been drawn: where one could be drawn the counter has moved
/// on by one, and nothing else has changed.
pub open spec fn after_message_seq(
    channels: Map<Seq<char>, ChatChannelStateView>,
    did_hash: Seq<char>,
) -> Map<Seq<char>, ChatChannelStateView> {
    if message_seq(channels, did_hash) is Ok {
        channels.insert(
            did_hash,
            ChatChannelStateView {
                seq_no: (channels[did_hash].seq_no + 1) as u64,
                ..channels[did_hash]
            },
        )
    } else {
        channels
    }
}

/// The number that the next activity signal of the conversation under
/// `did_hash` gets.
pub open spec fn activity_seq(
    channels: Map<Seq<char>, ChatChannelStateView>,
    did_hash: Seq<char>,
) -> Result<u64, SequenceError> {
    if !channels.contains_key(did_hash) {
        Err(SequenceError::UnknownParty)
    } else if channels[did_hash].activity_seq_no == u64::MAX {
        Err(SequenceError::Exhausted)
    } else {
        Ok(channels[did_hash].activity_seq_no)
    }
}

/// The conversations once the number of the next activity signal under
/// `did_hash` has been drawn.
pub open spec fn after_activity_seq(
    channels: Map<Seq<char>, ChatChannelStateView>,
    did_hash: Seq<char>,
) -> Map<Seq<char>, ChatChannelStateView> {
    if activity_seq(channels, did_hash) is Ok {
        channels.insert(
            did_hash,
            ChatChannelStateView {
                activity_seq_no: (channels[did_hash].activity_seq_no + 1) as u64,
                ..channels[did_hash]
            },
        )
    } else {
        channels
    }
}

/// Reads the number of the next chat message to the party filed under
/// `did_hash` and moves the counter on. Fails, and changes nothing, where
/// no conversation is filed there or the counter is exhausted.
pub fn next_message_seq<T: ChannelState>(owner: &mut T, did_hash: &str) -> (drawn: Result<
    u64,
    SequenceError,
>)
    ensures
        drawn == message_seq(old(owner).channels(), did_hash@),
        final(owner).channels() == after_message_seq(old(owner).channels(), did_hash@),
        final(owner).owner() == old(owner).owner(),
{
    match owner.get_channel_state_mut(did_hash) {
        Some(state) => {
            if state.seq_no == u64::MAX {
                assert(old(owner).channels().insert(did_hash@, state@) =~= old(owner).channels());
                Err(SequenceError::Exhausted)
            } else {
                let drawn: u64 = state.seq_no;
                state.seq_no = drawn + 1;
                Ok(drawn)
            }
        },
        None => Err(SequenceError::UnknownParty),
    }
}

/// Reads the number of the next activity signal to the party filed under
/// `did_hash` and moves the counter on. Fails, and changes nothing, where
/// no conversation is filed there or the counter is exhausted.
pub fn next_activity_seq<T: ChannelState>(owner: &mut T, did_hash: &str) -> (drawn: Result<
    u64,
    SequenceError,
>)
    ensures
        drawn == activity_seq(old(owner).channels(), did_hash@),
        final(owner).channels() == after_activity_seq(old(owner).channels(), did_hash@),
        final(owner).owner() == old(owner).owner(),
{
    match owner.get_channel_state_mut(did_hash) {
        Some(state) => {
            if state.activity_seq_no == u64::MAX {
                assert(old(owner).channels().insert(did_hash@, state@) =~= old(owner).channels());
                Err(SequenceError::Exhausted)
            } else {
                let drawn: u64 = state.activity_seq_no;
                state.activity_seq_no = drawn + 1;
                Ok(drawn)
            }
        },
        None => Err(SequenceError::UnknownParty),
    }
}

// ---------------------------------------------------------------------------
//  First contact and handshake
// ---------------------------------------------------------------------------
/// The conversations once `remote_did` has been heard of: a party that is
/// not known yet gets a fresh conversation, a known one keeps its own.
pub open spec fn with_channel(
    channels: Map<Seq<char>, ChatChannelStateView>,
    remote_did: Seq<char>,
) -> Map<Seq<char>, ChatChannelStateView> {
    if channels.contains_key(sha256_hex(remote_did)) {
        channels
    } else {
        channels.insert(sha256_hex(remote_did), fresh_channel(remote_did))
    }
}

/// The conversations once the party `from_did` has agreed on the identity
/// `new_did` for the conversation: what was filed for `from_did` is gone,
/// and a fresh conversation is filed for `new_did`.
pub open spec fn after_handshake(
    channels: Map<Seq<char>, ChatChannelStateView>,
    from_did: Seq<char>,
    new_did: Seq<char>,
) -> Map<Seq<char>, ChatChannelStateView> {
    channels.remove(sha256_hex(from_did)).insert(sha256_hex(new_did), fresh_channel(new_did))
}

/// Files a fresh conversation for `remote_did` unless one is filed already,
/// and hands back the digest under which it stands.
pub fn ensure_channel_state<T: ChannelState>(owner: &mut T, remote_did: &str) -> (did_hash:
    String)
    ensures
        did_hash@ == sha256_hex(remote_did@),
        final(owner).channels() == with_channel(old(owner).channels(), remote_did@),
        final(owner).owner() == old(owner).owner(),
{
    let did_hash = digest(remote_did);
    if owner.get_channel_state(did_hash.as_str()).is_none() {
        let state = ChatChannelState {
            remote_did: remote_did.to_string(),
            remote_did_hash: did_hash.clone(),
            activity_seq_no: 0,
            seq_no: 0,
        };
        owner.insert_channel_state(did_hash.as_str(), state);
    }
    did_hash
}

/// Replaces the conversation of `from_did` by a fresh one under the newly
/// agreed identity `new_did`. No counter is kept.
pub fn replace_channel_state<T: ChannelState>(owner: &mut T, from_did: &str, new_did: &str)
    ensures
        final(owner).channels() == after_handshake(old(owner).channels(), from_did@, new_did@),
        final(owner).owner() == old(owner).owner(),
{
    let from_hash = digest(from_did);
    owner.remove_channel_state(from_hash.as_str());
    let state = ChatChannelState::for_remote(new_did);
    let new_hash = state.remote_did_hash.clone();
    owner.insert_channel_state(new_hash.as_str(), state);
}

/// Filing a conversation on first contact is idempotent: hearing of a party
/// a second time changes nothing.
pub proof fn lemma_first_contact_idempotent(
    channels: Map<Seq<char>, ChatChannelStateView>,
    remote_did: Seq<char>,
)
    ensures
        with_channel(with_channel(channels, remote_did), remote_did) == with_channel(
            channels,
            remote_did,
        ),
        with_channel(channels, remote_did).contains_key(sha256_hex(remote_did)),
        channels.contains_key(sha256_hex(remote_did)) ==> with_channel(channels, remote_did)
            == channels,
{
}

/// After a handshake the conversation stands under the digest of the new
/// identity with both counters at zero, whatever they were before, and
/// nothing stands under the digest of the old identity. The two digests must
/// differ: a handshake that agrees on an identity with the digest of the old
/// one leaves the fresh conversation under it.
pub proof fn lemma_handshake_starts_afresh(
    channels: Map<Seq<char>, ChatChannelStateView>,
    from_did: Seq<char>,
    new_did: Seq<char>,
)
    requires
        sha256_hex(from_did) != sha256_hex(new_did),
    ensures
        !after_handshake(channels, from_did, new_did).contains_key(sha256_hex(from_did)),
        after_handshake(channels, from_did, new_did).contains_key(sha256_hex(new_did)),
        after_handshake(channels, from_did, new_did)[sha256_hex(new_did)] == fresh_channel(
            new_did,
        ),
        after_handshake(channels, from_did, new_did)[sha256_hex(new_did)].seq_no == 0,
        after_handshake(channels, from_did, new_did)[sha256_hex(new_did)].activity_seq_no == 0,
{
}

/// The conversations after `count` chat numbers have been drawn under
/// `did_hash`, one after the other.
pub open spec fn after_message_seqs(
    channels: Map<Seq<char>, ChatChannelStateView>,
    did_hash: Seq<char>,
    count: nat,
) -> Map<Seq<char>, ChatChannelStateView>
    decreases count,
{
    if count == 0 {
        channels
    } else {
        after_message_seq(after_message_seqs(channels, did_hash, (count - 1) as nat), did_hash)
    }
}

/// Numbers are drawn in order and none twice: after `count` draws under a
/// digest the next draw yields the first number plus `count`, as long as the
/// counter does not run out. Conversations under other digests stay as they
/// are.
pub proof fn lemma_message_seq_counts_up(
    channels: Map<Seq<char>, ChatChannelStateView>,
    did_hash: Seq<char>,
    count: nat,
)
    requires
        channels.contains_key(did_hash),
        channels[did_hash].seq_no + count < u64::MAX,
    ensures
        message_seq(after_message_seqs(channels, did_hash, count), did_hash) == Ok::<
            u64,
            SequenceError,
        >((channels[did_hash].seq_no + count) as u64),
        after_message_seqs(channels, did_hash, count).dom() == channels.dom(),
        forall|other: Seq<char>|
            other != did_hash && channels.contains_key(other) ==> after_message_seqs(
                channels,
                did_hash,
                count,
            )[other] == channels[other],
    decreases count,
{
    if count > 0 {
        lemma_message_seq_counts_up(channels, did_hash, (count - 1) as nat);
        let before = after_message_seqs(channels, did_hash, (count - 1) as nat);
        assert(after_message_seqs(channels, did_hash, count) == after_message_seq(
            before,
            did_hash,
        ));
        assert(after_message_seq(before, did_hash).dom() =~= before.dom());
    }
}

} // verus!
