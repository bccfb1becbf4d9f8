//! The agent of one model: it brings the model's identities to life, takes
//! the messages that reach them, and stops when it is told to.
//!
//! The agent itself only decides. Its runtime tells it what has happened and
//! does what the agent asks for.

use crate::agents::state_management::{
    agent_for, agent_views, ensure_channel_state, find_agent, with_channel, ChannelState,
    DIDCommAgentView, OllamaModel, OllamaModelView,
};
use crate::chat_messages::{handle_message, handled, Channels};
use crate::didcomm_messages::{
    action_views, kind_of, Action, ActionView, HandleError, InboundMessage, InboundMessageView,
};
use crate::text::opt_text;
use vstd::prelude::*;

verus! {

/// The commands that a model agent takes.
#[derive(Debug, PartialEq, Eq, Clone, Copy)]
pub enum ModelAction {
    Exit,
}

/// Where a model agent stands in its life.
#[derive(Debug, PartialEq, Eq, Clone, Copy)]
pub enum ModelPhase {
    /// The identities are being brought to life.
    Starting,
    /// Commands and messages are taken.
    Active,
    /// The agent has been told to stop and takes no new work.
    Draining,
    /// The agent has stopped.
    Stopped,
}

/// What has happened to a model agent.
#[derive(Debug, PartialEq, Eq)]
pub enum ModelEvent {
    /// All identities have been brought to life.
    Activated,
    /// An identity could not be brought to life.
    ActivationFailed,
    /// A command has come in.
    Command(ModelAction),
    /// A message has come in.
    Message(InboundMessage),
}

/// What a `ModelEvent` holds.
pub ghost enum ModelEventView {
    Activated,
    ActivationFailed,
    Command(ModelAction),
    Message(InboundMessageView),
}

impl View for ModelEvent {
    type V = ModelEventView;

    open spec fn view(&self) -> ModelEventView {
        match self {
            ModelEvent::Activated => ModelEventView::Activated,
            ModelEvent::ActivationFailed => ModelEventView::ActivationFailed,
            ModelEvent::Command(action) => ModelEventView::Command(*action),
            ModelEvent::Message(message) => ModelEventView::Message(message@),
        }
    }
}

/// One step in bringing an identity to life.
#[derive(Debug, PartialEq, Eq)]
pub enum SetupStep {
    /// Register the identity with the transport.
    Activate { did: String },
    /// Discard the messages that have queued up for the identity.
    ClearInbound { did: String },
    /// Discard the messages of the identity that have not been fetched.
    ClearOutbound { did: String },
    /// Ask for messages to be delivered as they come.
    EnableLiveDelivery { did: String },
    /// Lead the messages of the identity to the agent.
    EnableChannel { did: String },
}

/// What a `SetupStep` holds.
pub ghost enum SetupStepView {
    Activate { did: Seq<char> },
    ClearInbound { did: Seq<char> },
    ClearOutbound { did: Seq<char> },
    EnableLiveDelivery { did: Seq<char> },
    EnableChannel { did: Seq<char> },
}

impl View for SetupStep {
    type V = SetupStepView;

    open spec fn view(&self) -> SetupStepView {
        match self {
            SetupStep::Activate { did } => SetupStepView::Activate { did: did@ },
            SetupStep::ClearInbound { did } => SetupStepView::ClearInbound { did: did@ },
            SetupStep::ClearOutbound { did } => SetupStepView::ClearOutbound { did: did@ },
            SetupStep::EnableLiveDelivery { did } => SetupStepView::EnableLiveDelivery {
                did: did@,
            },
            SetupStep::EnableChannel { did } => SetupStepView::EnableChannel { did: did@ },
        }
    }
}

/// The views of a list of steps.
pub open spec fn step_views(steps: Seq<SetupStep>) -> Seq<SetupStepView> {
    Seq::new(steps.len(), |i: int| steps[i]@)
}

/// The steps that bring the identity `did` to life: the backlog is cleared
/// before the identity goes live, so that no stale message is answered.
pub open spec fn setup_of(did: Seq<char>) -> Seq<SetupStepView> {
    seq![
        SetupStepView::Activate { did },
        SetupStepView::ClearInbound { did },
        SetupStepView::ClearOutbound { did },
        SetupStepView::EnableLiveDelivery { did },
        SetupStepView::EnableChannel { did },
    ]
}

/// The steps that bring the identities `dids` to life, one identity after
/// the other.
pub open spec fn setup_steps(dids: Seq<DIDCommAgentView>) -> Seq<SetupStepView>
    decreases dids.len(),
{
    if dids.len() == 0 {
        Seq::empty()
    } else {
        setup_steps(dids.drop_last()) + setup_of(dids.last().did)
    }
}

/// What a model agent has made of an event.
#[derive(Debug, PartialEq, Eq)]
pub struct ModelTurn {
    /// The identity of the model that the actions are to be done under,
    /// where there are any
    pub via: Option<String>,
    /// Whether the event could be handled
    pub outcome: Result<(), HandleError>,
    /// What is to be done, in this order
    pub actions: Vec<Action>,
}

/// What a model agent makes of an event: where it stands afterwards, the
/// conversations of its model afterwards, and what is to be done.
pub ghost struct ModelTurnView {
    pub phase: ModelPhase,
    pub channels: Channels,
    pub via: Option<Seq<char>>,
    pub outcome: Result<(), HandleError>,
    pub actions: Seq<ActionView>,
}

/// The identity of the model that a message is addressed to.
pub open spec fn recipient(dids: Seq<DIDCommAgentView>, to: Option<Seq<char>>) -> Option<
    DIDCommAgentView,
> {
    match to {
        Some(did) => agent_for(dids, did),
        None => None,
    }
}

/// What an active model agent makes of a message.
///
/// A message without a sender is dropped. Otherwise a conversation is filed
/// for the sender, unless there is one. A message to an identity that the
/// model does not have is then dropped. Any other message is handled in the
/// name of the identity that it is addressed to, and deleted from the
/// transport afterwards, whatever came of it.
pub open spec fn message_turn(model: OllamaModelView, message: InboundMessageView) -> ModelTurnView {
    match message.from {
        None => ModelTurnView {
            phase: ModelPhase::Active,
            channels: model.channel_state,
            via: None,
            outcome: Err(HandleError::NoSender),
            actions: Seq::empty(),
        },
        Some(from) => {
            let known = with_channel(model.channel_state, from);
            match recipient(model.dids, message.to) {
                None => ModelTurnView {
                    phase: ModelPhase::Active,
                    channels: known,
                    via: None,
                    outcome: Err(HandleError::UnknownRecipient),
                    actions: Seq::empty(),
                },
                Some(agent) => {
                    let result = handled(known, agent, message);
                    ModelTurnView {
                        phase: ModelPhase::Active,
                        channels: result.channels,
                        via: Some(agent.did),
                        outcome: result.outcome,
                        actions: result.actions.push(
                            ActionView::Acknowledge { sha256_hash: message.sha256_hash },
                        ),
                    }
                },
            }
        },
    }
}

/// A turn in which nothing is done and only the phase may change.
pub open spec fn quiet_turn(phase: ModelPhase, model: OllamaModelView) -> ModelTurnView {
    ModelTurnView {
        phase,
        channels: model.channel_state,
        via: None,
        outcome: Ok(()),
        actions: Seq::empty(),
    }
}

/// What a model agent in `phase` makes of `event`.
///
/// While it starts, the agent waits to hear whether its identities have come
/// to life: if so it becomes active, if not it stops. While it is active, the
/// command to exit makes it drain, and a message is handled. While it drains
/// and once it has stopped, nothing is taken any more.
pub open spec fn model_turn(phase: ModelPhase, model: OllamaModelView, event: ModelEventView) -> ModelTurnView {
    match phase {
        ModelPhase::Starting => match event {
            ModelEventView::Activated => quiet_turn(ModelPhase::Active, model),
            ModelEventView::ActivationFailed => quiet_turn(ModelPhase::Stopped, model),
            _ => quiet_turn(ModelPhase::Starting, model),
        },
        ModelPhase::Active => match event {
            ModelEventView::Command(ModelAction::Exit) => quiet_turn(ModelPhase::Draining, model),
            ModelEventView::Message(message) => message_turn(model, message),
            _ => quiet_turn(ModelPhase::Active, model),
        },
        ModelPhase::Draining => quiet_turn(ModelPhase::Draining, model),
        ModelPhase::Stopped => quiet_turn(ModelPhase::Stopped, model),
    }
}

/// The agent of one model.
#[derive(Debug)]
pub struct ModelAgent {
    phase: ModelPhase,
}

impl ModelAgent {
    /// Where the agent stands.
    pub closed spec fn phase_view(&self) -> ModelPhase {
        self.phase
    }

    /// An agent that has yet to bring its identities to life.
    pub fn new() -> (agent: Self)
        ensures
            agent.phase_view() == ModelPhase::Starting,
    {
        ModelAgent { phase: ModelPhase::Starting }
    }

    /// Where the agent stands.
    pub fn phase(&self) -> (phase: ModelPhase)
        ensures
            phase == self.phase_view(),
    {
        self.phase
    }

    /// The steps that bring the identities of `model` to life. When they are
    /// done the agent is to be told `Activated`, and `ActivationFailed` when
    /// one of them fails.
    pub fn start(&self, model: &OllamaModel) -> (steps: Vec<SetupStep>)
        ensures
            step_views(steps@) == setup_steps(model@.dids),
    {
        let mut steps: Vec<SetupStep> = Vec::new();
        let ghost dids = agent_views(model.dids@);
        let mut i: usize = 0;
        assert(step_views(steps@) =~= setup_steps(dids.take(0)));
        while i < model.dids.len()
            invariant
                i <= model.dids@.len(),
                dids == agent_views(model.dids@),
                step_views(steps@) == setup_steps(dids.take(i as int)),
            decreases model.dids@.len() - i,
        {
            let ghost before = step_views(steps@);
            let did = &model.dids[i].did;
            steps.push(SetupStep::Activate { did: did.clone() });
            steps.push(SetupStep::ClearInbound { did: did.clone() });
            steps.push(SetupStep::ClearOutbound { did: did.clone() });
            steps.push(SetupStep::EnableLiveDelivery { did: did.clone() });
            steps.push(SetupStep::EnableChannel { did: did.clone() });
            proof {
                let next = dids.take(i + 1);
                assert(next.drop_last() =~= dids.take(i as int));
                assert(next.last().did == did@);
                assert(step_views(steps@) =~= before + setup_of(did@));
            }
            i += 1;
        }
        assert(dids.take(i as int) =~= dids);
        steps
    }

    /// Takes a message while the agent is active.
    fn on_message(model: &mut OllamaModel, message: &InboundMessage) -> (turn: ModelTurn)
        ensures
            final(model)@ == (OllamaModelView {
                channel_state: message_turn(old(model)@, message@).channels,
                ..old(model)@
            }),
            opt_text(turn.via) == message_turn(old(model)@, message@).via,
            turn.outcome == message_turn(old(model)@, message@).outcome,
            action_views(turn.actions@) == message_turn(old(model)@, message@).actions,
    {
        let mut actions: Vec<Action> = Vec::new();
        assert(action_views(actions@) =~= Seq::<ActionView>::empty());
        let from = match &message.from {
            Some(from) => from,
            None => {
                return ModelTurn { via: None, outcome: Err(HandleError::NoSender), actions };
            },
        };
        ensure_channel_state(model, from.as_str());
        assert(model.owner() == old(model).owner());
        let found = match &message.to {
            Some(to) => match find_agent(&model.dids, to.as_str()) {
                Some(agent) => Some(agent.clone()),
                None => None,
            },
            None => None,
        };
        let agent = match found {
            Some(agent) => agent,
            None => {
                return ModelTurn {
                    via: None,
                    outcome: Err(HandleError::UnknownRecipient),
                    actions,
                };
            },
        };
        let result = handle_message(model, &agent, message);
        assert(model.owner() == old(model).owner());
        let mut actions = result.actions;
        let ghost before = action_views(actions@);
        actions.push(Action::Acknowledge { sha256_hash: message.sha256_hash.clone() });
        assert(action_views(actions@) =~= before.push(
            ActionView::Acknowledge { sha256_hash: message@.sha256_hash },
        ));
        ModelTurn { via: Some(agent.did), outcome: result.outcome, actions }
    }

    /// Takes an event and hands back what is to be done about it.
    pub fn run(&mut self, model: &mut OllamaModel, event: &ModelEvent) -> (turn: ModelTurn)
        ensures
            final(self).phase_view() == model_turn(
                old(self).phase_view(),
                old(model)@,
                event@,
            ).phase,
            final(model)@ == (OllamaModelView {
                channel_state: model_turn(old(self).phase_view(), old(model)@, event@).channels,
                ..old(model)@
            }),
            opt_text(turn.via) == model_turn(old(self).phase_view(), old(model)@, event@).via,
            turn.outcome == model_turn(old(self).phase_view(), old(model)@, event@).outcome,
            action_views(turn.actions@) == model_turn(
                old(self).phase_view(),
                old(model)@,
                event@,
            ).actions,
    {
        match self.phase {
            ModelPhase::Starting => match event {
                ModelEvent::Activated => {
                    self.phase = ModelPhase::Active;
                },
                ModelEvent::ActivationFailed => {
                    self.phase = ModelPhase::Stopped;
                },
                _ => {},
            },
            ModelPhase::Active => match event {
                ModelEvent::Command(ModelAction::Exit) => {
                    self.phase = ModelPhase::Draining;
                },
                ModelEvent::Message(message) => {
                    return Self::on_message(model, message);
                },
                _ => {},
            },
            ModelPhase::Draining => {},
            ModelPhase::Stopped => {},
        }
        let actions: Vec<Action> = Vec::new();
        assert(action_views(actions@) =~= Seq::<ActionView>::empty());
        ModelTurn { via: None, outcome: Ok(()), actions }
    }

    /// Ends the draining: the agent stops. An agent that is not draining
    /// stays as it is.
    pub fn finish(&mut self)
        ensures
            final(self).phase_view() == if old(self).phase_view() == ModelPhase::Draining {
                ModelPhase::Stopped
            } else {
                old(self).phase_view()
            },
    {
        match self.phase {
            ModelPhase::Draining => {
                self.phase = ModelPhase::Stopped;
            },
            _ => {},
        }
    }
}

// ---------------------------------------------------------------------------
//  What holds of every message
// ---------------------------------------------------------------------------
/// Whether `action` sends something that the remote party sees as an
/// answer: a chat message, the answer to a connection request, or a prompt
/// whose answer will be sent.
pub open spec fn is_reply(action: ActionView) -> bool {
    action is Chat || action is ConnectionAccepted || action is Generate
}

/// A message whose type is known but whose body cannot be read is deleted
/// from the transport exactly once and is not answered. For a connection
/// request the deletion is all that is done; for a chat message the sender
/// has been sent the receipt before the body was read. Nothing changes in
/// the conversations but that the sender is known afterwards.
pub proof fn lemma_unreadable_body_is_acknowledged_once(
    model: OllamaModelView,
    message: InboundMessageView,
)
    requires
        message.from is Some,
        recipient(model.dids, message.to) is Some,
        (kind_of(message.type_) is ConnectionSetup && (message.body.channel_did is None
            || message.thid is None || message.pthid is None)) || (kind_of(message.type_)
            is ChatMessage && message.body.text is None),
    ensures
        message_turn(model, message).outcome == Err::<(), HandleError>(
            HandleError::MalformedBody,
        ),
        message_turn(model, message).channels == with_channel(
            model.channel_state,
            message.from->0,
        ),
        message_turn(model, message).actions == if kind_of(message.type_) is ConnectionSetup {
            seq![ActionView::Acknowledge { sha256_hash: message.sha256_hash }]
        } else {
            seq![
                ActionView::Delivered { to: message.from->0, message_id: message.id },
                ActionView::Acknowledge { sha256_hash: message.sha256_hash },
            ]
        },
        forall|i: int|
            0 <= i < message_turn(model, message).actions.len() ==> !is_reply(
                #[trigger] message_turn(model, message).actions[i],
            ),
{
    let turn = message_turn(model, message);
    if kind_of(message.type_) is ConnectionSetup {
        assert(turn.actions =~= seq![ActionView::Acknowledge { sha256_hash: message.sha256_hash }]);
    } else {
        assert(turn.actions =~= seq![
            ActionView::Delivered { to: message.from->0, message_id: message.id },
            ActionView::Acknowledge { sha256_hash: message.sha256_hash },
        ]);
    }
}

/// Presence messages, receipts and activity signals never end in an error,
/// whatever their body holds, and are deleted from the transport exactly
/// once. Only a presence message is answered, with a presence message.
pub proof fn lemma_informational_never_fails(model: OllamaModelView, message: InboundMessageView)
    requires
        message.from is Some,
        recipient(model.dids, message.to) is Some,
        kind_of(message.type_) is Presence || kind_of(message.type_) is ChatDelivered || kind_of(
            message.type_,
        ) is ChatActivity,
    ensures
        message_turn(model, message).outcome is Ok,
        message_turn(model, message).actions == if kind_of(message.type_) is Presence {
            seq![
                ActionView::Presence { to: message.from->0 },
                ActionView::Acknowledge { sha256_hash: message.sha256_hash },
            ]
        } else {
            seq![ActionView::Acknowledge { sha256_hash: message.sha256_hash }]
        },
{
    let turn = message_turn(model, message);
    if kind_of(message.type_) is Presence {
        assert(turn.actions =~= seq![
            ActionView::Presence { to: message.from->0 },
            ActionView::Acknowledge { sha256_hash: message.sha256_hash },
        ]);
    } else {
        assert(turn.actions =~= seq![ActionView::Acknowledge { sha256_hash: message.sha256_hash }]);
    }
}

/// Every message that is handled is deleted from the transport exactly once,
/// as the last thing that is done about it.
pub proof fn lemma_handled_is_acknowledged_last(model: OllamaModelView, message: InboundMessageView)
    requires
        message.from is Some,
        recipient(model.dids, message.to) is Some,
    ensures
        message_turn(model, message).actions.len() > 0,
        message_turn(model, message).actions.last() == (ActionView::Acknowledge {
            sha256_hash: message.sha256_hash,
        }),
        forall|i: int|
            0 <= i < message_turn(model, message).actions.len() - 1 ==> !(#[trigger] message_turn(
                model,
                message,
            ).actions[i] is Acknowledge),
{
    let known = with_channel(model.channel_state, message.from->0);
    let agent = recipient(model.dids, message.to)->0;
    crate::chat_messages::lemma_handling_never_acknowledges(known, agent, message);
    let result = handled(known, agent, message);
    let turn = message_turn(model, message);
    assert forall|i: int| 0 <= i < turn.actions.len() - 1 implies !(#[trigger] turn.actions[i]
        is Acknowledge) by {
        assert(turn.actions[i] == result.actions[i]);
    }
}

} // verus!
