//! The concierge: it starts the agents of the models, answers the parties
//! that turn to it directly, and sees to an orderly end.
//!
//! Like the model agents the concierge only decides. Its runtime tells it
//! what has happened and does what the concierge asks for.

use crate::agents::model::ModelAction;
use crate::agents::state_management::{
    ensure_channel_state, string_views, with_channel, ConciergeState, ConciergeStateView,
};
use crate::chat_messages::{
    after_chat, chat_sent, connection_handled, handle_connection_setup, push_sent, send_message,
    sent_actions, Channels,
};
use crate::didcomm_messages::{
    action_views, classify, handle_presence, kind_of, Action, ActionView, InboundMessage,
    InboundMessageView, MessageKind, MessageKindView,
};
use crate::string_map::StringMap;
use crate::termination::Interrupted;
use vstd::prelude::*;

verus! {

/// What the concierge answers to a message that it has no better answer to.
pub const CONCIERGE_REPLY: &'static str =
    "I am an unintelligent response from a very intelligent concierge";

/// The commands that the concierge takes.
#[derive(Debug, PartialEq, Eq)]
pub enum ConciergeMessage {
    Exit,
    StartModel { model_name: String },
}

/// What a `ConciergeMessage` holds.
pub ghost enum ConciergeMessageView {
    Exit,
    StartModel { model_name: Seq<char> },
}

impl View for ConciergeMessage {
    type V = ConciergeMessageView;

    open spec fn view(&self) -> ConciergeMessageView {
        match self {
            ConciergeMessage::Exit => ConciergeMessageView::Exit,
            ConciergeMessage::StartModel { model_name } => ConciergeMessageView::StartModel {
                model_name: model_name@,
            },
        }
    }
}

/// Where the concierge stands in its life.
#[derive(Debug, PartialEq, Eq, Clone, Copy)]
pub enum ConciergePhase {
    /// Commands, reports and messages are taken.
    Active,
    /// The agents have been told to stop, and the state is being saved.
    Terminating,
    /// The concierge has stopped.
    Stopped,
}

/// What has happened to the concierge.
#[derive(Debug, PartialEq, Eq)]
pub enum ConciergeEvent {
    /// A command has come in.
    Command(ConciergeMessage),
    /// A model agent has reported something that it could not handle.
    Report(ModelAction),
    /// A message for the concierge itself has come in.
    Message(InboundMessage),
    /// The bridge has been told to stop.
    Interrupted(Interrupted),
    /// The state has been saved.
    Saved,
    /// The state could not be saved.
    SaveFailed,
}

/// What a `ConciergeEvent` holds.
pub ghost enum ConciergeEventView {
    Command(ConciergeMessageView),
    Report(ModelAction),
    Message(InboundMessageView),
    Interrupted(Interrupted),
    Saved,
    SaveFailed,
}

impl View for ConciergeEvent {
    type V = ConciergeEventView;

    open spec fn view(&self) -> ConciergeEventView {
        match self {
            ConciergeEvent::Command(command) => ConciergeEventView::Command(command@),
            ConciergeEvent::Report(action) => ConciergeEventView::Report(*action),
            ConciergeEvent::Message(message) => ConciergeEventView::Message(message@),
            ConciergeEvent::Interrupted(reason) => ConciergeEventView::Interrupted(*reason),
            ConciergeEvent::Saved => ConciergeEventView::Saved,
            ConciergeEvent::SaveFailed => ConciergeEventView::SaveFailed,
        }
    }
}

/// One thing that the concierge asks its runtime to do about the agents
/// and the bridge.
#[derive(Debug, PartialEq, Eq)]
pub enum ConciergeAction {
    /// Start an agent for the model of this name and register it under the
    /// name, in place of an agent registered there before.
    StartWorker { model_name: String },
    /// Send the command to exit to the agent registered under this name.
    ExitWorker { model_name: String },
    /// Tell the rest of the bridge to stop.
    Terminate(Interrupted),
    /// Save the state.
    SaveState,
    /// Hand the reason of the end back to the host.
    Return(Interrupted),
    /// Hand the failure to save the state back to the host.
    Fail,
}

/// What a `ConciergeAction` holds.
pub ghost enum ConciergeActionView {
    StartWorker { model_name: Seq<char> },
    ExitWorker { model_name: Seq<char> },
    Terminate(Interrupted),
    SaveState,
    Return(Interrupted),
    Fail,
}

impl View for ConciergeAction {
    type V = ConciergeActionView;

    open spec fn view(&self) -> ConciergeActionView {
        match self {
            ConciergeAction::StartWorker { model_name } => ConciergeActionView::StartWorker {
                model_name: model_name@,
            },
            ConciergeAction::ExitWorker { model_name } => ConciergeActionView::ExitWorker {
                model_name: model_name@,
            },
            ConciergeAction::Terminate(reason) => ConciergeActionView::Terminate(*reason),
            ConciergeAction::SaveState => ConciergeActionView::SaveState,
            ConciergeAction::Return(reason) => ConciergeActionView::Return(*reason),
            ConciergeAction::Fail => ConciergeActionView::Fail,
        }
    }
}

/// The views of a list of actions of the concierge.
pub open spec fn concierge_action_views(actions: Seq<ConciergeAction>) -> Seq<
    ConciergeActionView,
> {
    Seq::new(actions.len(), |i: int| actions[i]@)
}

/// The concierge.
pub struct Concierge {
    phase: ConciergePhase,
    reason: Interrupted,
    workers: StringMap<()>,
}

/// What a `Concierge` holds.
pub ghost struct ConciergeView {
    /// Where the concierge stands
    pub phase: ConciergePhase,
    /// Why the concierge is coming to an end, once it does
    pub reason: Interrupted,
    /// The names under which agents are registered, in the order in which
    /// they were first registered
    pub workers: Seq<Seq<char>>,
}

impl View for Concierge {
    type V = ConciergeView;

    closed spec fn view(&self) -> ConciergeView {
        ConciergeView {
            phase: self.phase,
            reason: self.reason,
            workers: self.workers.key_order(),
        }
    }
}

/// The concierge when it begins: active, with no agent registered.
pub open spec fn concierge_start() -> ConciergeView {
    ConciergeView {
        phase: ConciergePhase::Active,
        reason: Interrupted::UserInt,
        workers: Seq::empty(),
    }
}

// ---------------------------------------------------------------------------
//  Messages for the concierge itself
// ---------------------------------------------------------------------------
/// What the concierge makes of a message that is addressed to it: the
/// conversations afterwards and what is to be done.
pub ghost struct ConciergeHandledView {
    pub channels: Channels,
    pub actions: Seq<ActionView>,
}

/// What the concierge makes of a message that is addressed to it.
///
/// The message is deleted from the transport first. One without a sender is
/// then dropped. Otherwise a conversation is filed for the sender, unless
/// there is one. A connection request is handled as a model agent handles
/// it, a presence message is answered, and receipts, activity signals and
/// status reports are passed over. Anything else gets the concierge's fixed
/// answer: no message goes to a generation backend.
pub open spec fn concierge_handled(state: ConciergeStateView, message: InboundMessageView) -> ConciergeHandledView {
    let acknowledge = ActionView::Acknowledge { sha256_hash: message.sha256_hash };
    match message.from {
        None => ConciergeHandledView { channels: state.channel_state, actions: seq![acknowledge] },
        Some(from) => {
            let known = with_channel(state.channel_state, from);
            match kind_of(message.type_) {
                MessageKindView::ConnectionSetup => {
                    let result = connection_handled(known, state.agent, message);
                    ConciergeHandledView {
                        channels: result.channels,
                        actions: seq![acknowledge] + result.actions,
                    }
                },
                MessageKindView::Presence => ConciergeHandledView {
                    channels: known,
                    actions: seq![acknowledge, ActionView::Presence { to: from }],
                },
                MessageKindView::ChatDelivered => ConciergeHandledView {
                    channels: known,
                    actions: seq![acknowledge],
                },
                MessageKindView::ChatActivity => ConciergeHandledView {
                    channels: known,
                    actions: seq![acknowledge],
                },
                MessageKindView::ProtocolStatus => ConciergeHandledView {
                    channels: known,
                    actions: seq![acknowledge],
                },
                _ => ConciergeHandledView {
                    channels: after_chat(known, from),
                    actions: seq![acknowledge] + sent_actions(
                        chat_sent(known, from, CONCIERGE_REPLY@),
                    ),
                },
            }
        },
    }
}

// ---------------------------------------------------------------------------
//  Turns
// ---------------------------------------------------------------------------
/// What the concierge has made of an event.
#[derive(Debug, PartialEq, Eq)]
pub struct ConciergeTurn {
    /// What is to be done under the concierge's own identity, in this order
    pub messages: Vec<Action>,
    /// What is to be done about the agents and the bridge, in this order
    pub actions: Vec<ConciergeAction>,
}

/// What the concierge makes of an event: the concierge afterwards, its
/// conversations afterwards, and what is to be done.
pub ghost struct ConciergeTurnView {
    pub concierge: ConciergeView,
    pub channels: Channels,
    pub messages: Seq<ActionView>,
    pub actions: Seq<ConciergeActionView>,
}

/// The registry once an agent has been registered under `model_name`.
pub open spec fn registered(workers: Seq<Seq<char>>, model_name: Seq<char>) -> Seq<Seq<char>> {
    if workers.contains(model_name) {
        workers
    } else {
        workers.push(model_name)
    }
}

/// The commands to exit for the agents registered under `workers`, one for
/// each.
pub open spec fn exits(workers: Seq<Seq<char>>) -> Seq<ConciergeActionView> {
    Seq::new(workers.len(), |i: int| ConciergeActionView::ExitWorker { model_name: workers[i] })
}

/// A turn in which nothing is done and nothing changes.
pub open spec fn idle_turn(concierge: ConciergeView, state: ConciergeStateView) -> ConciergeTurnView {
    ConciergeTurnView {
        concierge,
        channels: state.channel_state,
        messages: Seq::empty(),
        actions: Seq::empty(),
    }
}

/// The turn that begins the end: every registered agent is told to exit, and
/// then the state is to be saved. The reason is kept for the host.
pub open spec fn terminating_turn(
    concierge: ConciergeView,
    state: ConciergeStateView,
    reason: Interrupted,
    announce: bool,
) -> ConciergeTurnView {
    ConciergeTurnView {
        concierge: ConciergeView { phase: ConciergePhase::Terminating, reason, ..concierge },
        channels: state.channel_state,
        messages: Seq::empty(),
        actions: (if announce {
            seq![ConciergeActionView::Terminate(reason)]
        } else {
            Seq::empty()
        }) + exits(concierge.workers) + seq![ConciergeActionView::SaveState],
    }
}

/// What the active concierge makes of `event`.
///
/// The command to start a model is obeyed where the model is one of the
/// `configured` ones, and passed over where it is not. The command to exit
/// tells the rest of the bridge to stop and begins the end, as an
/// interruption from outside does. Reports of the model agents are passed
/// over.
pub open spec fn active_turn(
    concierge: ConciergeView,
    state: ConciergeStateView,
    configured: Seq<Seq<char>>,
    event: ConciergeEventView,
) -> ConciergeTurnView {
    match event {
        ConciergeEventView::Command(ConciergeMessageView::StartModel { model_name }) => {
            if configured.contains(model_name) {
                ConciergeTurnView {
                    concierge: ConciergeView {
                        workers: registered(concierge.workers, model_name),
                        ..concierge
                    },
                    channels: state.channel_state,
                    messages: Seq::empty(),
                    actions: seq![ConciergeActionView::StartWorker { model_name }],
                }
            } else {
                idle_turn(concierge, state)
            }
        },
        ConciergeEventView::Command(ConciergeMessageView::Exit) => terminating_turn(
            concierge,
            state,
            Interrupted::UserInt,
            true,
        ),
        ConciergeEventView::Interrupted(reason) => terminating_turn(
            concierge,
            state,
            reason,
            false,
        ),
        ConciergeEventView::Message(message) => {
            let result = concierge_handled(state, message);
            ConciergeTurnView {
                concierge,
                channels: result.channels,
                messages: result.actions,
                actions: Seq::empty(),
            }
        },
        _ => idle_turn(concierge, state),
    }
}

/// What the concierge makes of `event`, with the conversations `state` and
/// the models of the names `configured`.
///
/// While it terminates, the concierge waits to hear of the saving of the
/// state: once that is done it stops and hands the reason of the end to the
/// host, and if it fails it stops and hands on the failure. Once it has
/// stopped, nothing is taken any more.
pub open spec fn concierge_turn(
    concierge: ConciergeView,
    state: ConciergeStateView,
    configured: Seq<Seq<char>>,
    event: ConciergeEventView,
) -> ConciergeTurnView {
    match concierge.phase {
        ConciergePhase::Active => active_turn(concierge, state, configured, event),
        ConciergePhase::Terminating => match event {
            ConciergeEventView::Saved => ConciergeTurnView {
                concierge: ConciergeView { phase: ConciergePhase::Stopped, ..concierge },
                channels: state.channel_state,
                messages: Seq::empty(),
                actions: seq![ConciergeActionView::Return(concierge.reason)],
            },
            ConciergeEventView::SaveFailed => ConciergeTurnView {
                concierge: ConciergeView { phase: ConciergePhase::Stopped, ..concierge },
                channels: state.channel_state,
                messages: Seq::empty(),
                actions: seq![ConciergeActionView::Fail],
            },
            _ => idle_turn(concierge, state),
        },
        ConciergePhase::Stopped => idle_turn(concierge, state),
    }
}

/// Whether `name` is one of `names`.
pub fn has_name(names: &Vec<String>, name: &str) -> (found: bool)
    ensures
        found == string_views(names@).contains(name@),
{
    let mut i: usize = 0;
    while i < names.len()
        invariant
            i <= names@.len(),
            forall|j: int| 0 <= j < i ==> string_views(names@)[j] != name@,
        decreases names@.len() - i,
    {
        if crate::text::str_eq(names[i].as_str(), name) {
            assert(string_views(names@)[i as int] == name@);
            return true;
        }
        i += 1;
    }
    false
}

impl Concierge {
    /// Whether no name stands twice in the registry. It holds of every
    /// concierge.
    pub open spec fn registry_in_order(&self) -> bool {
        self@.workers.no_duplicates()
    }

    /// A concierge that is active and has no agent registered.
    pub fn new() -> (concierge: Self)
        ensures
            concierge@ == concierge_start(),
    {
        Concierge {
            phase: ConciergePhase::Active,
            reason: Interrupted::UserInt,
            workers: StringMap::new(),
        }
    }

    /// Where the concierge stands.
    pub fn phase(&self) -> (phase: ConciergePhase)
        ensures
            phase == self@.phase,
    {
        self.phase
    }

    /// The names under which agents are registered.
    pub fn workers(&self) -> (names: Vec<String>)
        ensures
            string_views(names@) == self@.workers,
            self.registry_in_order(),
    {
        proof {
            use_type_invariant(&self.workers);
            self.workers.lemma_key_order();
        }
        let names = self.workers.keys();
        assert(string_views(names@) =~= self@.workers);
        names
    }

    /// Takes a message that is addressed to the concierge itself.
    fn on_message(state: &mut ConciergeState, message: &InboundMessage) -> (actions: Vec<Action>)
        ensures
            final(state)@ == (ConciergeStateView {
                channel_state: concierge_handled(old(state)@, message@).channels,
                ..old(state)@
            }),
            action_views(actions@) == concierge_handled(old(state)@, message@).actions,
    {
        let mut actions: Vec<Action> = Vec::new();
        let acknowledge = Action::Acknowledge { sha256_hash: message.sha256_hash.clone() };
        actions.push(acknowledge);
        assert(action_views(actions@) =~= seq![acknowledge@]);
        let from = match &message.from {
            Some(from) => from,
            None => {
                return actions;
            },
        };
        ensure_channel_state(state, from.as_str());
        match classify(message.type_.as_str()) {
            MessageKind::ConnectionSetup => {
                let agent = state.agent.clone();
                let result = handle_connection_setup(state, &agent, message);
                let mut answers = result.actions;
                let ghost first = action_views(actions@);
                let ghost second = action_views(answers@);
                actions.append(&mut answers);
                assert(action_views(actions@) =~= first + second);
            },
            MessageKind::Presence => {
                let presence = handle_presence(from.as_str());
                actions.push(presence);
                assert(action_views(actions@) =~= seq![acknowledge@, presence@]);
            },
            MessageKind::ChatDelivered => {},
            MessageKind::ChatActivity => {},
            MessageKind::ProtocolStatus => {},
            _ => {
                let answer = send_message(CONCIERGE_REPLY, from.as_str(), state);
                push_sent(&mut actions, answer);
            },
        }
        actions
    }

    /// Begins the end: see `terminating_turn`.
    fn terminate(&mut self, reason: Interrupted, announce: bool) -> (actions: Vec<ConciergeAction>)
        ensures
            final(self)@ == (ConciergeView {
                phase: ConciergePhase::Terminating,
                reason,
                ..old(self)@
            }),
            concierge_action_views(actions@) == (if announce {
                seq![ConciergeActionView::Terminate(reason)]
            } else {
                Seq::empty()
            }) + exits(old(self)@.workers) + seq![ConciergeActionView::SaveState],
    {
        let mut actions: Vec<ConciergeAction> = Vec::new();
        if announce {
            actions.push(ConciergeAction::Terminate(reason));
        }
        let ghost head = concierge_action_views(actions@);
        assert(head =~= if announce {
            seq![ConciergeActionView::Terminate(reason)]
        } else {
            Seq::empty()
        });
        let names = self.workers.keys();
        let ghost workers = self@.workers;
        let mut i: usize = 0;
        while i < names.len()
            invariant
                i <= names@.len(),
                names@.len() == workers.len(),
                forall|j: int| 0 <= j < names@.len() ==> (#[trigger] names@[j])@ == workers[j],
                concierge_action_views(actions@) == head + exits(workers).take(i as int),
            decreases names@.len() - i,
        {
            let ghost before = concierge_action_views(actions@);
            actions.push(ConciergeAction::ExitWorker { model_name: names[i].clone() });
            assert(concierge_action_views(actions@) =~= before.push(exits(workers)[i as int]));
            assert(exits(workers).take(i + 1) =~= exits(workers).take(i as int).push(
                exits(workers)[i as int],
            ));
            i += 1;
        }
        assert(exits(workers).take(i as int) =~= exits(workers));
        let ghost before = concierge_action_views(actions@);
        actions.push(ConciergeAction::SaveState);
        assert(concierge_action_views(actions@) =~= before + seq![ConciergeActionView::SaveState]);
        self.phase = ConciergePhase::Terminating;
        self.reason = reason;
        actions
    }

    /// Registers an agent under `model_name`.
    fn register(&mut self, model_name: &str)
        ensures
            final(self)@ == (ConciergeView {
                workers: registered(old(self)@.workers, model_name@),
                ..old(self)@
            }),
    {
        proof {
            use_type_invariant(&self.workers);
            self.workers.lemma_key_order();
        }
        self.workers.insert(model_name.to_string(), ());
    }

    /// Takes an event and hands back what is to be done about it. `state`
    /// holds the concierge's identity and conversations, and `configured`
    /// the names of the models that are configured.
    pub fn run(
        &mut self,
        state: &mut ConciergeState,
        configured: &Vec<String>,
        event: &ConciergeEvent,
    ) -> (turn: ConciergeTurn)
        ensures
            final(self)@ == concierge_turn(
                old(self)@,
                old(state)@,
                string_views(configured@),
                event@,
            ).concierge,
            final(state)@ == (ConciergeStateView {
                channel_state: concierge_turn(
                    old(self)@,
                    old(state)@,
                    string_views(configured@),
                    event@,
                ).channels,
                ..old(state)@
            }),
            action_views(turn.messages@) == concierge_turn(
                old(self)@,
                old(state)@,
                string_views(configured@),
                event@,
            ).messages,
            concierge_action_views(turn.actions@) == concierge_turn(
                old(self)@,
                old(state)@,
                string_views(configured@),
                event@,
            ).actions,
            final(self).registry_in_order(),
    {
        proof {
            use_type_invariant(&self.workers);
            self.workers.lemma_key_order();
        }
        let mut messages: Vec<Action> = Vec::new();
        let mut actions: Vec<ConciergeAction> = Vec::new();
        assert(action_views(messages@) =~= Seq::<ActionView>::empty());
        assert(concierge_action_views(actions@) =~= Seq::<ConciergeActionView>::empty());
        match self.phase {
            ConciergePhase::Active => match event {
                ConciergeEvent::Command(ConciergeMessage::StartModel { model_name }) => {
                    if has_name(configured, model_name.as_str()) {
                        self.register(model_name.as_str());
                        actions.push(ConciergeAction::StartWorker { model_name: model_name.clone() });
                        assert(concierge_action_views(actions@) =~= seq![
                            ConciergeActionView::StartWorker { model_name: model_name@ },
                        ]);
                    }
                },
                ConciergeEvent::Command(ConciergeMessage::Exit) => {
                    actions = self.terminate(Interrupted::UserInt, true);
                },
                ConciergeEvent::Interrupted(reason) => {
                    actions = self.terminate(*reason, false);
                },
                ConciergeEvent::Message(message) => {
                    messages = Self::on_message(state, message);
                },
                _ => {},
            },
            ConciergePhase::Terminating => match event {
                ConciergeEvent::Saved => {
                    self.phase = ConciergePhase::Stopped;
                    actions.push(ConciergeAction::Return(self.reason));
                    assert(concierge_action_views(actions@) =~= seq![
                        ConciergeActionView::Return(old(self)@.reason),
                    ]);
                },
                ConciergeEvent::SaveFailed => {
                    self.phase = ConciergePhase::Stopped;
                    actions.push(ConciergeAction::Fail);
                    assert(concierge_action_views(actions@) =~= seq![ConciergeActionView::Fail]);
                },
                _ => {},
            },
            ConciergePhase::Stopped => {},
        }
        proof {
            use_type_invariant(&self.workers);
            self.workers.lemma_key_order();
        }
        ConciergeTurn { messages, actions }
    }
}

// ---------------------------------------------------------------------------
//  What holds of every end
// ---------------------------------------------------------------------------
/// When the active concierge is told to exit, every agent that is registered
/// is sent the command to exit exactly once, and then the state is to be
/// saved. Nothing is handed to the host in that turn: the reason of the end
/// is handed back only once the state has been saved.
pub proof fn lemma_exit_reaches_every_worker(
    concierge: ConciergeView,
    state: ConciergeStateView,
    configured: Seq<Seq<char>>,
)
    requires
        concierge.phase == ConciergePhase::Active,
        concierge.workers.no_duplicates(),
    ensures
        ({
            let exit = ConciergeEventView::Command(ConciergeMessageView::Exit);
            let turn = concierge_turn(concierge, state, configured, exit);
            let saved = concierge_turn(
                turn.concierge,
                state,
                configured,
                ConciergeEventView::Saved,
            );
            &&& turn.concierge.phase == ConciergePhase::Terminating
            &&& turn.concierge.workers == concierge.workers
            &&& turn.messages.len() == 0
            &&& turn.actions.len() == concierge.workers.len() + 2
            &&& turn.actions[0] == ConciergeActionView::Terminate(Interrupted::UserInt)
            &&& forall|i: int|
                0 <= i < concierge.workers.len() ==> turn.actions[i + 1] == (
                ConciergeActionView::ExitWorker { model_name: #[trigger] concierge.workers[i] })
            &&& forall|i: int, j: int|
                0 <= i < j < turn.actions.len() && (#[trigger] turn.actions[i]) is ExitWorker
                    ==> turn.actions[i] != #[trigger] turn.actions[j]
            &&& turn.actions.last() == ConciergeActionView::SaveState
            &&& forall|i: int|
                0 <= i < turn.actions.len() ==> !(#[trigger] turn.actions[i] is Return)
            &&& saved.concierge.phase == ConciergePhase::Stopped
            &&& saved.actions == seq![ConciergeActionView::Return(Interrupted::UserInt)]
        }),
{
    let exit = ConciergeEventView::Command(ConciergeMessageView::Exit);
    let turn = concierge_turn(concierge, state, configured, exit);
    let workers = concierge.workers;
    assert(turn.actions == seq![ConciergeActionView::Terminate(Interrupted::UserInt)] + exits(
        workers,
    ) + seq![ConciergeActionView::SaveState]);
    assert forall|i: int| 0 <= i < workers.len() implies turn.actions[i + 1] == (
    ConciergeActionView::ExitWorker { model_name: #[trigger] workers[i] }) by {
        assert(turn.actions[i + 1] == exits(workers)[i]);
    }
    assert forall|i: int, j: int|
        0 <= i < j < turn.actions.len() && (#[trigger] turn.actions[i])
            is ExitWorker implies turn.actions[i] != #[trigger] turn.actions[j] by {
        assert(1 <= i <= workers.len());
        assert(turn.actions[i] == exits(workers)[i - 1]);
        if j <= workers.len() {
            assert(turn.actions[j] == exits(workers)[j - 1]);
            assert(workers[i - 1] != workers[j - 1]);
        }
    }
    assert forall|i: int| 0 <= i < turn.actions.len() implies !(#[trigger] turn.actions[i]
        is Return) by {
        if 1 <= i <= workers.len() {
            assert(turn.actions[i] == exits(workers)[i - 1]);
        }
    }
}

/// An interruption from outside ends the concierge as the command to exit
/// does, but that the rest of the bridge is not told again: every registered
/// agent is sent the command to exit exactly once, then the state is to be
/// saved, and the reason of the interruption is handed back once that is
/// done.
pub proof fn lemma_interruption_reaches_every_worker(
    concierge: ConciergeView,
    state: ConciergeStateView,
    configured: Seq<Seq<char>>,
    reason: Interrupted,
)
    requires
        concierge.phase == ConciergePhase::Active,
        concierge.workers.no_duplicates(),
    ensures
        ({
            let turn = concierge_turn(
                concierge,
                state,
                configured,
                ConciergeEventView::Interrupted(reason),
            );
            let saved = concierge_turn(
                turn.concierge,
                state,
                configured,
                ConciergeEventView::Saved,
            );
            &&& turn.concierge.phase == ConciergePhase::Terminating
            &&& turn.actions == exits(concierge.workers).push(ConciergeActionView::SaveState)
            &&& forall|i: int, j: int|
                0 <= i < j < concierge.workers.len() ==> (#[trigger] turn.actions[i])
                    != #[trigger] turn.actions[j]
            &&& saved.concierge.phase == ConciergePhase::Stopped
            &&& saved.actions == seq![ConciergeActionView::Return(reason)]
        }),
{
    let turn = concierge_turn(
        concierge,
        state,
        configured,
        ConciergeEventView::Interrupted(reason),
    );
    let workers = concierge.workers;
    assert(turn.actions =~= exits(workers).push(ConciergeActionView::SaveState));
    assert forall|i: int, j: int| 0 <= i < j < workers.len() implies (#[trigger] turn.actions[i])
        != #[trigger] turn.actions[j] by {
        assert(turn.actions[i] == exits(workers)[i]);
        assert(turn.actions[j] == exits(workers)[j]);
        assert(workers[i] != workers[j]);
    }
}

} // verus!
