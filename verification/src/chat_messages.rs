//! What an agent does with a received message: the answers it sends, the
//! prompts it hands to the generation backend, and the conversation state it
//! changes on the way.

use crate::agents::state_management::{
    activity_seq, after_activity_seq, after_handshake, after_message_seq, message_seq,
    next_activity_seq, next_message_seq, replace_channel_state, sha256_hex, ChannelState,
    ChatChannelStateView, DIDCommAgent, DIDCommAgentView, SequenceError,
};
use crate::chunker::{
    after_event, chunker_start, emission_views, emitted, Chunker, Emission, EmissionView,
    StreamEvent,
};
use crate::didcomm_messages::oob_connection::{connection_response, send_connection_response};
use crate::didcomm_messages::{
    action_views, classify, handle_presence, kind_of, Action, ActionView, HandleError,
    InboundMessage, InboundMessageView, MessageKind, MessageKindView,
};
use crate::text::{lowercase, starts_with_char, str_eq, to_lowercase};
use vstd::prelude::*;
use vstd::string::*;

verus! {

/// The answer to a chat message that carries attachments.
pub const ATTACHMENTS_REPLY: &'static str =
    "Unfortunately I can't handle attachments yet.. Hopefully one day I will be able to!";

/// The answer to the command that asks for help.
pub const HELP_REPLY: &'static str =
    "Help:\n          /help - Display this help message\n          /think - Status of the think tokens being displayed\n          /think on|off - Turn think tokens on or off\n          /dids - Display the DID's for this chat\n        ";

/// The character that a command begins with.
pub const COMMAND_PREFIX: char = '/';

/// The conversations by the digest of the remote identity.
pub type Channels = Map<Seq<char>, ChatChannelStateView>;

// ---------------------------------------------------------------------------
//  Single messages
// ---------------------------------------------------------------------------
/// The chat message that carries `text` to `to`: it gets the next number of
/// the conversation with `to`. There is none where no conversation with `to`
/// is filed, or its counter is exhausted.
pub open spec fn chat_sent(channels: Channels, to: Seq<char>, text: Seq<char>) -> Result<
    ActionView,
    SequenceError,
> {
    match message_seq(channels, sha256_hex(to)) {
        Ok(seq_no) => Ok(ActionView::Chat { to, text, seq_no }),
        Err(e) => Err(e),
    }
}

/// The conversations once a chat message to `to` has been asked for.
pub open spec fn after_chat(channels: Channels, to: Seq<char>) -> Channels {
    after_message_seq(channels, sha256_hex(to))
}

/// The activity signal to `to`: it gets the next activity number of the
/// conversation with `to`.
pub open spec fn activity_sent(channels: Channels, to: Seq<char>) -> Result<
    ActionView,
    SequenceError,
> {
    match activity_seq(channels, sha256_hex(to)) {
        Ok(activity_seq_no) => Ok(ActionView::Activity { to, activity_seq_no }),
        Err(e) => Err(e),
    }
}

/// The conversations once an activity signal to `to` has been asked for.
pub open spec fn after_activity(channels: Channels, to: Seq<char>) -> Channels {
    after_activity_seq(channels, sha256_hex(to))
}

/// The view of an action that may have failed for want of a number.
pub open spec fn sent_view(sent: Result<Action, SequenceError>) -> Result<
    ActionView,
    SequenceError,
> {
    match sent {
        Ok(action) => Ok(action@),
        Err(e) => Err(e),
    }
}

/// The actions that come of a message that may have failed: the message, or
/// nothing.
pub open spec fn sent_actions(sent: Result<ActionView, SequenceError>) -> Seq<ActionView> {
    match sent {
        Ok(action) => seq![action],
        Err(_) => Seq::empty(),
    }
}

/// Asks for the chat message `text` to be sent to `to_did`, under the next
/// number of the conversation with `to_did`.
pub fn send_message<T: ChannelState>(text: &str, to_did: &str, channel_state: &mut T) -> (sent:
    Result<Action, SequenceError>)
    ensures
        sent_view(sent) == chat_sent(old(channel_state).channels(), to_did@, text@),
        final(channel_state).channels() == after_chat(old(channel_state).channels(), to_did@),
        final(channel_state).owner() == old(channel_state).owner(),
{
    let did_hash = crate::agents::state_management::digest(to_did);
    match next_message_seq(channel_state, did_hash.as_str()) {
        Ok(seq_no) => Ok(Action::Chat { to: to_did.to_string(), text: text.to_string(), seq_no }),
        Err(e) => Err(e),
    }
}

/// Asks for `to_did` to be told that the agent is composing, under the next
/// activity number of the conversation with `to_did`.
pub fn i_am_thinking<T: ChannelState>(channel_state: &mut T, to_did: &str) -> (sent: Result<
    Action,
    SequenceError,
>)
    ensures
        sent_view(sent) == activity_sent(old(channel_state).channels(), to_did@),
        final(channel_state).channels() == after_activity(old(channel_state).channels(), to_did@),
        final(channel_state).owner() == old(channel_state).owner(),
{
    let did_hash = crate::agents::state_management::digest(to_did);
    match next_activity_seq(channel_state, did_hash.as_str()) {
        Ok(activity_seq_no) => Ok(Action::Activity { to: to_did.to_string(), activity_seq_no }),
        Err(e) => Err(e),
    }
}

/// The receipt for the chat message `message`, for its sender.
pub open spec fn receipt_for(message: InboundMessageView) -> Result<ActionView, HandleError> {
    match message.from {
        Some(from) => Ok(ActionView::Delivered { to: from, message_id: message.id }),
        None => Err(HandleError::NoSender),
    }
}

/// The view of a receipt that may have failed for want of a sender.
pub open spec fn receipt_view(receipt: Result<Action, HandleError>) -> Result<
    ActionView,
    HandleError,
> {
    match receipt {
        Ok(action) => Ok(action@),
        Err(e) => Err(e),
    }
}

/// Asks for the sender of `message` to be told that the message has arrived.
pub fn ack_message(message: &InboundMessage) -> (receipt: Result<Action, HandleError>)
    ensures
        receipt_view(receipt) == receipt_for(message@),
{
    match &message.from {
        Some(from) => Ok(Action::Delivered { to: from.clone(), message_id: message.id.clone() }),
        None => Err(HandleError::NoSender),
    }
}

// ---------------------------------------------------------------------------
//  Commands
// ---------------------------------------------------------------------------
/// The answer to the command `text`, whose lowercase form is `lowered`:
/// the help text, the identities of the two parties, or a complaint about an
/// unknown command.
pub open spec fn command_reply(
    lowered: Seq<char>,
    text: Seq<char>,
    agent_did: Seq<char>,
    remote_did: Seq<char>,
) -> Seq<char> {
    if lowered == "/help"@ {
        HELP_REPLY@
    } else if lowered == "/dids"@ {
        "DIDs:\nAgent: "@ + agent_did + "\nClient: "@ + remote_did
    } else {
        "ERROR: unknown command: "@ + text + "\nUse /help to show commands"@
    }
}

/// The answer to the command `text`, whose lowercase form is `lowered`.
pub fn command_reply_for(lowered: &str, text: &str, agent_did: &str, remote_did: &str) -> (reply:
    String)
    ensures
        reply@ == command_reply(lowered@, text@, agent_did@, remote_did@),
{
    if str_eq(lowered, "/help") {
        HELP_REPLY.to_string()
    } else if str_eq(lowered, "/dids") {
        "DIDs:\nAgent: ".to_string().concat(agent_did).concat("\nClient: ").concat(remote_did)
    } else {
        "ERROR: unknown command: ".to_string().concat(text).concat("\nUse /help to show commands")
    }
}

/// Answers the command `text` of `remote_did`: the command is looked up
/// without regard to case, and its answer is sent as a chat message.
pub fn handle_command<T: ChannelState>(
    text: &str,
    agent_did: &str,
    channel_state: &mut T,
    remote_did: &str,
) -> (sent: Result<Action, SequenceError>)
    ensures
        sent_view(sent) == chat_sent(
            old(channel_state).channels(),
            remote_did@,
            command_reply(lowercase(text@), text@, agent_did@, remote_did@),
        ),
        final(channel_state).channels() == after_chat(old(channel_state).channels(), remote_did@),
        final(channel_state).owner() == old(channel_state).owner(),
{
    let lowered = to_lowercase(text);
    let reply = command_reply_for(lowered.as_str(), text, agent_did, remote_did);
    send_message(reply.as_str(), remote_did, channel_state)
}

// ---------------------------------------------------------------------------
//  Chat effects
// ---------------------------------------------------------------------------
/// The prompt that stands for a chat effect.
pub open spec fn effect_prompt(effect: Seq<char>) -> Seq<char> {
    if effect == "balloons"@ {
        "I give you a balloon"@
    } else if effect == "confetti"@ {
        "Let's celebrate"@
    } else {
        "I don't know what to do with this"@
    }
}

/// What comes of a chat effect from `from`: a prompt for the generation
/// backend where the body names the effect, and nothing otherwise.
pub open spec fn chat_effect_actions(from: Seq<char>, effect: Option<Seq<char>>) -> Seq<
    ActionView,
> {
    match effect {
        Some(e) => seq![ActionView::Generate { to: from, prompt: effect_prompt(e) }],
        None => Seq::empty(),
    }
}

/// Turns the chat effect of `message`, sent by `from`, into a prompt for the
/// generation backend. A body that names no effect is passed over.
pub fn handle_chat_effect(message: &InboundMessage, from: &str) -> (actions: Vec<Action>)
    ensures
        action_views(actions@) == chat_effect_actions(from@, message@.body.effect),
{
    let mut actions: Vec<Action> = Vec::new();
    match &message.body.effect {
        Some(effect) => {
            let prompt = if str_eq(effect.as_str(), "balloons") {
                "I give you a balloon".to_string()
            } else if str_eq(effect.as_str(), "confetti") {
                "Let's celebrate".to_string()
            } else {
                "I don't know what to do with this".to_string()
            };
            actions.push(Action::Generate { to: from.to_string(), prompt });
            assert(action_views(actions@) =~= chat_effect_actions(from@, message@.body.effect));
        },
        None => {
            assert(action_views(actions@) =~= chat_effect_actions(from@, message@.body.effect));
        },
    }
    actions
}

// ---------------------------------------------------------------------------
//  Prompts
// ---------------------------------------------------------------------------
/// The conversations once the chunker's emission for `to` has been turned
/// into a message.
pub open spec fn after_emission(channels: Channels, to: Seq<char>, emission: EmissionView) -> Channels {
    match emission {
        EmissionView::Chat(_) => after_chat(channels, to),
        EmissionView::Typing => after_activity(channels, to),
        EmissionView::Presence => channels,
    }
}

/// The message that the chunker's emission for `to` turns into: a chat
/// message or an activity signal under the next number of the conversation,
/// or a presence message. An emission for which no number can be drawn is
/// dropped.
pub open spec fn emission_actions(channels: Channels, to: Seq<char>, emission: EmissionView) -> Seq<
    ActionView,
> {
    match emission {
        EmissionView::Chat(text) => sent_actions(chat_sent(channels, to, text)),
        EmissionView::Typing => sent_actions(activity_sent(channels, to)),
        EmissionView::Presence => seq![ActionView::Presence { to }],
    }
}

/// The conversations once a run of emissions for `to` has been turned into
/// messages.
pub open spec fn after_emissions(channels: Channels, to: Seq<char>, emissions: Seq<EmissionView>) -> Channels
    decreases emissions.len(),
{
    if emissions.len() == 0 {
        channels
    } else {
        after_emission(
            after_emissions(channels, to, emissions.drop_last()),
            to,
            emissions.last(),
        )
    }
}

/// The messages that a run of emissions for `to` turns into, in order.
pub open spec fn actions_of(channels: Channels, to: Seq<char>, emissions: Seq<EmissionView>) -> Seq<
    ActionView,
>
    decreases emissions.len(),
{
    if emissions.len() == 0 {
        Seq::empty()
    } else {
        actions_of(channels, to, emissions.drop_last()) + emission_actions(
            after_emissions(channels, to, emissions.drop_last()),
            to,
            emissions.last(),
        )
    }
}

/// Turns what the chunker emits into messages for `to_did`, each under the
/// next number of the conversation.
pub fn deliver<T: ChannelState>(emissions: &Vec<Emission>, channel_state: &mut T, to_did: &str) -> (actions:
    Vec<Action>)
    ensures
        action_views(actions@) == actions_of(
            old(channel_state).channels(),
            to_did@,
            emission_views(emissions@),
        ),
        final(channel_state).channels() == after_emissions(
            old(channel_state).channels(),
            to_did@,
            emission_views(emissions@),
        ),
        final(channel_state).owner() == old(channel_state).owner(),
{
    let mut actions: Vec<Action> = Vec::new();
    let ghost start = channel_state.channels();
    let ghost all = emission_views(emissions@);
    let mut i: usize = 0;
    assert(action_views(actions@) =~= actions_of(start, to_did@, all.take(0)));
    while i < emissions.len()
        invariant
            i <= emissions@.len(),
            all == emission_views(emissions@),
            action_views(actions@) == actions_of(start, to_did@, all.take(i as int)),
            channel_state.channels() == after_emissions(start, to_did@, all.take(i as int)),
            channel_state.owner() == old(channel_state).owner(),
        decreases emissions@.len() - i,
    {
        proof {
            let next = all.take(i + 1);
            assert(next.drop_last() =~= all.take(i as int));
            assert(next.last() == emissions@[i as int]@);
        }
        match &emissions[i] {
            Emission::Chat(text) => {
                let sent = send_message(text.as_str(), to_did, channel_state);
                push_sent(&mut actions, sent);
            },
            Emission::Typing => {
                let sent = i_am_thinking(channel_state, to_did);
                push_sent(&mut actions, sent);
            },
            Emission::Presence => {
                let ghost before = action_views(actions@);
                let presence = handle_presence(to_did);
                actions.push(presence);
                assert(action_views(actions@) =~= before + seq![presence@]);
            },
        }
        i += 1;
    }
    assert(all.take(i as int) =~= all);
    actions
}

/// Opens the answer to a prompt of `to_did`: the remote party is told at
/// once that the agent is composing, and a chunker is set up for the stream.
pub fn begin_prompt<T: ChannelState>(channel_state: &mut T, to_did: &str) -> (opened: (
    Chunker,
    Vec<Action>,
))
    ensures
        opened.0@ == chunker_start(),
        action_views(opened.1@) == sent_actions(
            activity_sent(old(channel_state).channels(), to_did@),
        ),
        final(channel_state).channels() == after_activity(old(channel_state).channels(), to_did@),
        final(channel_state).owner() == old(channel_state).owner(),
{
    let mut actions: Vec<Action> = Vec::new();
    assert(action_views(actions@) =~= Seq::<ActionView>::empty());
    let sent = i_am_thinking(channel_state, to_did);
    push_sent(&mut actions, sent);
    (Chunker::new(), actions)
}

/// Takes an event of the stream that answers a prompt of `to_did`: the
/// chunker decides what goes out, and each emission becomes a message under
/// the next number of the conversation.
pub fn handle_prompt<T: ChannelState>(
    chunker: &mut Chunker,
    event: &StreamEvent,
    channel_state: &mut T,
    to_did: &str,
) -> (actions: Vec<Action>)
    ensures
        final(chunker)@ == after_event(old(chunker)@, event@),
        action_views(actions@) == actions_of(
            old(channel_state).channels(),
            to_did@,
            emitted(old(chunker)@, event@),
        ),
        final(channel_state).channels() == after_emissions(
            old(channel_state).channels(),
            to_did@,
            emitted(old(chunker)@, event@),
        ),
        final(channel_state).owner() == old(channel_state).owner(),
{
    let emissions = chunker.on_event(event);
    deliver(&emissions, channel_state, to_did)
}

/// The chat emissions that carry `texts`, in order.
pub open spec fn chats_of(texts: Seq<Seq<char>>) -> Seq<EmissionView> {
    Seq::new(texts.len(), |i: int| EmissionView::Chat(texts[i]))
}

/// Chat messages to one party are numbered in the order in which they are
/// sent, without gap or repetition: with the counter of the conversation at
/// `first`, a run of chat messages to `to` gets the numbers `first`,
/// `first + 1` and so on, and leaves the counter behind the last of them. The
/// run must not exhaust the counter.
pub proof fn lemma_chats_numbered_in_order(channels: Channels, to: Seq<char>, texts: Seq<Seq<char>>)
    requires
        channels.contains_key(sha256_hex(to)),
        channels[sha256_hex(to)].seq_no + texts.len() <= u64::MAX,
    ensures
        actions_of(channels, to, chats_of(texts)) == Seq::new(
            texts.len(),
            |i: int|
                ActionView::Chat {
                    to,
                    text: texts[i],
                    seq_no: (channels[sha256_hex(to)].seq_no + i) as u64,
                },
        ),
        after_emissions(channels, to, chats_of(texts)).contains_key(sha256_hex(to)),
        after_emissions(channels, to, chats_of(texts))[sha256_hex(to)].seq_no
            == channels[sha256_hex(to)].seq_no + texts.len(),
    decreases texts.len(),
{
    let first = channels[sha256_hex(to)].seq_no;
    let numbered = Seq::new(
        texts.len(),
        |i: int| ActionView::Chat { to, text: texts[i], seq_no: (first + i) as u64 },
    );
    if texts.len() == 0 {
        assert(actions_of(channels, to, chats_of(texts)) =~= numbered);
    } else {
        let before = texts.drop_last();
        lemma_chats_numbered_in_order(channels, to, before);
        assert(chats_of(texts).drop_last() =~= chats_of(before));
        assert(chats_of(texts).last() == EmissionView::Chat(texts.last()));
        let reached = after_emissions(channels, to, chats_of(before));
        assert(chat_sent(reached, to, texts.last()) == Ok::<ActionView, SequenceError>(
            ActionView::Chat { to, text: texts.last(), seq_no: (first + before.len()) as u64 },
        ));
        assert(actions_of(channels, to, chats_of(texts)) =~= numbered);
    }
}

// ---------------------------------------------------------------------------
//  Received messages
// ---------------------------------------------------------------------------
/// What an agent has made of a received message.
#[derive(Debug, PartialEq, Eq)]
pub struct Handled {
    /// Whether the message could be handled
    pub outcome: Result<(), HandleError>,
    /// What is to be done, in this order
    pub actions: Vec<Action>,
}

/// What an agent makes of a received message: the conversations afterwards,
/// whether the message could be handled, and what is to be done.
pub ghost struct HandledView {
    pub channels: Channels,
    pub outcome: Result<(), HandleError>,
    pub actions: Seq<ActionView>,
}

/// Whether `text` is a command: it begins with the command prefix.
pub open spec fn is_command(text: Seq<char>) -> bool {
    text.len() > 0 && text[0] == COMMAND_PREFIX
}

/// What comes of a connection request. A request that is in order is
/// answered, the conversation of its sender is replaced by a fresh one under
/// the identity that the request proposes, and the greeting of `agent` is
/// sent there. A request that is not in order changes nothing and is not
/// answered.
pub open spec fn connection_handled(
    channels: Channels,
    agent: DIDCommAgentView,
    message: InboundMessageView,
) -> HandledView {
    match connection_response(message, agent) {
        Ok((accepted, new_did)) => {
            let replaced = after_handshake(channels, message.from->0, new_did);
            HandledView {
                channels: after_chat(replaced, new_did),
                outcome: Ok(()),
                actions: seq![accepted] + sent_actions(
                    chat_sent(replaced, new_did, agent.greeting),
                ),
            }
        },
        Err(e) => HandledView { channels, outcome: Err(e), actions: Seq::empty() },
    }
}

/// What comes of a chat message from `from`. Its sender gets a receipt. A
/// body without a text ends the matter with an error. A message with
/// attachments is refused with a fixed answer, a command is answered, and
/// any other text goes to the generation backend as a prompt.
pub open spec fn chat_message_handled(
    channels: Channels,
    agent: DIDCommAgentView,
    message: InboundMessageView,
    from: Seq<char>,
) -> HandledView {
    let receipt = ActionView::Delivered { to: from, message_id: message.id };
    match message.body.text {
        None => HandledView {
            channels,
            outcome: Err(HandleError::MalformedBody),
            actions: seq![receipt],
        },
        Some(text) => {
            if message.has_attachments {
                HandledView {
                    channels: after_chat(channels, from),
                    outcome: Ok(()),
                    actions: seq![receipt] + sent_actions(
                        chat_sent(channels, from, ATTACHMENTS_REPLY@),
                    ),
                }
            } else if is_command(text) {
                HandledView {
                    channels: after_chat(channels, from),
                    outcome: Ok(()),
                    actions: seq![receipt] + sent_actions(
                        chat_sent(
                            channels,
                            from,
                            command_reply(lowercase(text), text, agent.did, from),
                        ),
                    ),
                }
            } else {
                HandledView {
                    channels,
                    outcome: Ok(()),
                    actions: seq![receipt, ActionView::Generate { to: from, prompt: text }],
                }
            }
        },
    }
}

/// What the agent with the identity `agent` makes of `message`.
///
/// A message without a sender cannot be answered: it is an error whatever
/// its type. Otherwise the type of the message decides. Receipts, activity
/// signals and messages of unknown type are passed over; a status report is
/// only checked for its form.
pub open spec fn handled(channels: Channels, agent: DIDCommAgentView, message: InboundMessageView) -> HandledView {
    match message.from {
        None => HandledView {
            channels,
            outcome: Err(HandleError::NoSender),
            actions: Seq::empty(),
        },
        Some(from) => match kind_of(message.type_) {
            MessageKindView::ProtocolStatus => HandledView {
                channels,
                outcome: if message.body.status is Some {
                    Ok(())
                } else {
                    Err(HandleError::MalformedBody)
                },
                actions: Seq::empty(),
            },
            MessageKindView::ConnectionSetup => connection_handled(channels, agent, message),
            MessageKindView::Presence => HandledView {
                channels,
                outcome: Ok(()),
                actions: seq![ActionView::Presence { to: from }],
            },
            MessageKindView::ChatEffect => HandledView {
                channels,
                outcome: Ok(()),
                actions: chat_effect_actions(from, message.body.effect),
            },
            MessageKindView::ChatMessage => chat_message_handled(channels, agent, message, from),
            MessageKindView::ChatDelivered => HandledView {
                channels,
                outcome: Ok(()),
                actions: Seq::empty(),
            },
            MessageKindView::ChatActivity => HandledView {
                channels,
                outcome: Ok(()),
                actions: Seq::empty(),
            },
            MessageKindView::Unknown(_) => HandledView {
                channels,
                outcome: Ok(()),
                actions: Seq::empty(),
            },
        },
    }
}

/// Adds the message `sent` to `actions`, unless it failed.
pub fn push_sent(actions: &mut Vec<Action>, sent: Result<Action, SequenceError>)
    ensures
        action_views(final(actions)@) == action_views(old(actions)@) + sent_actions(
            sent_view(sent),
        ),
{
    match sent {
        Ok(action) => {
            actions.push(action);
            assert(action_views(actions@) =~= action_views(old(actions)@) + sent_actions(
                sent_view(sent),
            ));
        },
        Err(_) => {
            assert(action_views(actions@) =~= action_views(old(actions)@) + sent_actions(
                sent_view(sent),
            ));
        },
    }
}

/// Handles a connection request: see `connection_handled`.
pub fn handle_connection_setup<T: ChannelState>(
    channel_state: &mut T,
    agent: &DIDCommAgent,
    message: &InboundMessage,
) -> (result: Handled)
    ensures
        final(channel_state).channels() == connection_handled(
            old(channel_state).channels(),
            agent@,
            message@,
        ).channels,
        result.outcome == connection_handled(
            old(channel_state).channels(),
            agent@,
            message@,
        ).outcome,
        action_views(result.actions@) == connection_handled(
            old(channel_state).channels(),
            agent@,
            message@,
        ).actions,
        final(channel_state).owner() == old(channel_state).owner(),
{
    let mut actions: Vec<Action> = Vec::new();
    match send_connection_response(message, agent) {
        Ok((accepted, new_did)) => {
            let from = match &message.from {
                Some(from) => from,
                None => {
                    proof {
                        assert(false);
                    }
                    return Handled { outcome: Err(HandleError::NoSender), actions };
                },
            };
            replace_channel_state(channel_state, from.as_str(), new_did.as_str());
            actions.push(accepted);
            assert(action_views(actions@) =~= seq![accepted@]);
            let greeting = send_message(agent.greeting.as_str(), new_did.as_str(), channel_state);
            push_sent(&mut actions, greeting);
            Handled { outcome: Ok(()), actions }
        },
        Err(e) => {
            assert(action_views(actions@) =~= Seq::<ActionView>::empty());
            Handled { outcome: Err(e), actions }
        },
    }
}

/// Handles a chat message from `from`: see `chat_message_handled`.
pub fn handle_chat_message<T: ChannelState>(
    channel_state: &mut T,
    agent: &DIDCommAgent,
    message: &InboundMessage,
    from: &str,
) -> (result: Handled)
    ensures
        final(channel_state).channels() == chat_message_handled(
            old(channel_state).channels(),
            agent@,
            message@,
            from@,
        ).channels,
        result.outcome == chat_message_handled(
            old(channel_state).channels(),
            agent@,
            message@,
            from@,
        ).outcome,
        action_views(result.actions@) == chat_message_handled(
            old(channel_state).channels(),
            agent@,
            message@,
            from@,
        ).actions,
        final(channel_state).owner() == old(channel_state).owner(),
{
    let mut actions: Vec<Action> = Vec::new();
    let receipt = Action::Delivered { to: from.to_string(), message_id: message.id.clone() };
    actions.push(receipt);
    assert(action_views(actions@) =~= seq![receipt@]);
    match &message.body.text {
        None => Handled { outcome: Err(HandleError::MalformedBody), actions },
        Some(text) => {
            if message.has_attachments {
                let refusal = send_message(ATTACHMENTS_REPLY, from, channel_state);
                push_sent(&mut actions, refusal);
            } else if starts_with_char(text.as_str(), COMMAND_PREFIX) {
                let answer = handle_command(text.as_str(), agent.did.as_str(), channel_state, from);
                push_sent(&mut actions, answer);
            } else {
                let prompt = Action::Generate { to: from.to_string(), prompt: text.clone() };
                actions.push(prompt);
                assert(action_views(actions@) =~= seq![receipt@, prompt@]);
            }
            Handled { outcome: Ok(()), actions }
        },
    }
}

/// Handles a received message in the name of the identity `agent`, which
/// received it: see `handled`.
pub fn handle_message<T: ChannelState>(
    channel_state: &mut T,
    agent: &DIDCommAgent,
    message: &InboundMessage,
) -> (result: Handled)
    ensures
        final(channel_state).channels() == handled(
            old(channel_state).channels(),
            agent@,
            message@,
        ).channels,
        result.outcome == handled(old(channel_state).channels(), agent@, message@).outcome,
        action_views(result.actions@) == handled(
            old(channel_state).channels(),
            agent@,
            message@,
        ).actions,
        final(channel_state).owner() == old(channel_state).owner(),
{
    let from = match &message.from {
        Some(from) => from,
        None => {
            let actions: Vec<Action> = Vec::new();
            assert(action_views(actions@) =~= Seq::<ActionView>::empty());
            return Handled { outcome: Err(HandleError::NoSender), actions };
        },
    };
    match classify(message.type_.as_str()) {
        MessageKind::ProtocolStatus => {
            let actions: Vec<Action> = Vec::new();
            assert(action_views(actions@) =~= Seq::<ActionView>::empty());
            let outcome = if message.body.status.is_some() {
                Ok(())
            } else {
                Err(HandleError::MalformedBody)
            };
            Handled { outcome, actions }
        },
        MessageKind::ConnectionSetup => handle_connection_setup(channel_state, agent, message),
        MessageKind::Presence => {
            let mut actions: Vec<Action> = Vec::new();
            let presence = handle_presence(from.as_str());
            actions.push(presence);
            assert(action_views(actions@) =~= seq![presence@]);
            Handled { outcome: Ok(()), actions }
        },
        MessageKind::ChatEffect => {
            let actions = handle_chat_effect(message, from.as_str());
            Handled { outcome: Ok(()), actions }
        },
        MessageKind::ChatMessage => handle_chat_message(
            channel_state,
            agent,
            message,
            from.as_str(),
        ),
        MessageKind::ChatDelivered => {
            let actions: Vec<Action> = Vec::new();
            assert(action_views(actions@) =~= Seq::<ActionView>::empty());
            Handled { outcome: Ok(()), actions }
        },
        MessageKind::ChatActivity => {
            let actions: Vec<Action> = Vec::new();
            assert(action_views(actions@) =~= Seq::<ActionView>::empty());
            Handled { outcome: Ok(()), actions }
        },
        MessageKind::Unknown(_) => {
            let actions: Vec<Action> = Vec::new();
            assert(action_views(actions@) =~= Seq::<ActionView>::empty());
            Handled { outcome: Ok(()), actions }
        },
    }
}

// ---------------------------------------------------------------------------
//  What holds of every message
// ---------------------------------------------------------------------------
/// A chat message with attachments never reaches the generation backend, and
/// the only chat message that it is answered with is the fixed refusal, sent
/// to its sender. Where the message names its sender, its body holds a text
/// and a number can be drawn for the answer, exactly the receipt and the
/// refusal go out.
pub proof fn lemma_attachments_are_refused(
    channels: Channels,
    agent: DIDCommAgentView,
    message: InboundMessageView,
)
    requires
        kind_of(message.type_) is ChatMessage,
        message.has_attachments,
    ensures
        forall|i: int|
            0 <= i < handled(channels, agent, message).actions.len() ==> !(#[trigger] handled(
                channels,
                agent,
                message,
            ).actions[i] is Generate),
        forall|i: int|
            0 <= i < handled(channels, agent, message).actions.len() && (#[trigger] handled(
                channels,
                agent,
                message,
            ).actions[i]) is Chat ==> {
                &&& message.from is Some
                &&& handled(channels, agent, message).actions[i]->Chat_to == message.from->0
                &&& handled(channels, agent, message).actions[i]->Chat_text == ATTACHMENTS_REPLY@
            },
        message.from is Some && message.body.text is Some && message_seq(
            channels,
            sha256_hex(message.from->0),
        ) is Ok ==> handled(channels, agent, message).actions == seq![
            ActionView::Delivered { to: message.from->0, message_id: message.id },
            ActionView::Chat {
                to: message.from->0,
                text: ATTACHMENTS_REPLY@,
                seq_no: channels[sha256_hex(message.from->0)].seq_no,
            },
        ],
{
    let result = handled(channels, agent, message);
    if message.from is Some && message.body.text is Some {
        let from = message.from->0;
        let receipt = ActionView::Delivered { to: from, message_id: message.id };
        let refusal = sent_actions(chat_sent(channels, from, ATTACHMENTS_REPLY@));
        assert(result.actions == seq![receipt] + refusal);
        if message_seq(channels, sha256_hex(from)) is Ok {
            assert(result.actions =~= seq![
                receipt,
                ActionView::Chat {
                    to: from,
                    text: ATTACHMENTS_REPLY@,
                    seq_no: channels[sha256_hex(from)].seq_no,
                },
            ]);
        }
    }
}

/// Whether every conversation of `before` is still there in `after`, with
/// the same party and with counters that have not gone back.
pub open spec fn counters_kept(before: Channels, after: Channels) -> bool {
    forall|key: Seq<char>| #[trigger]
        before.contains_key(key) ==> {
            &&& after.contains_key(key)
            &&& after[key].remote_did == before[key].remote_did
            &&& after[key].remote_did_hash == before[key].remote_did_hash
            &&& after[key].seq_no >= before[key].seq_no
            &&& after[key].activity_seq_no >= before[key].activity_seq_no
        }
}

/// Only a handshake takes a conversation away or sets its counters back:
/// whatever else is handled, every conversation stays, and its counters only
/// ever go up.
pub proof fn lemma_counters_only_go_up(
    channels: Channels,
    agent: DIDCommAgentView,
    message: InboundMessageView,
)
    requires
        !(kind_of(message.type_) is ConnectionSetup),
    ensures
        counters_kept(channels, handled(channels, agent, message).channels),
{
}

/// Turning what the chunker emits into messages takes no conversation away,
/// and the counters only ever go up.
pub proof fn lemma_emissions_keep_counters(
    channels: Channels,
    to: Seq<char>,
    emissions: Seq<EmissionView>,
)
    ensures
        counters_kept(channels, after_emissions(channels, to, emissions)),
    decreases emissions.len(),
{
    if emissions.len() > 0 {
        lemma_emissions_keep_counters(channels, to, emissions.drop_last());
    }
}

/// Handling a message never asks for its deletion from the transport: that
/// is left to the agent that took the message.
pub proof fn lemma_handling_never_acknowledges(
    channels: Channels,
    agent: DIDCommAgentView,
    message: InboundMessageView,
)
    ensures
        forall|i: int|
            0 <= i < handled(channels, agent, message).actions.len() ==> !(#[trigger] handled(
                channels,
                agent,
                message,
            ).actions[i] is Acknowledge),
{
}

/// A connection request that is in order is answered to its sender, and the
/// greeting goes to the identity agreed for the conversation as the first
/// chat message there, under the number zero, whatever the counters of the
/// sender's conversation were.
pub proof fn lemma_handshake_greets_afresh(
    channels: Channels,
    agent: DIDCommAgentView,
    message: InboundMessageView,
)
    requires
        kind_of(message.type_) is ConnectionSetup,
        message.from is Some,
        message.body.channel_did is Some,
        message.thid is Some,
        message.pthid is Some,
    ensures
        handled(channels, agent, message).outcome is Ok,
        handled(channels, agent, message).actions == seq![
            ActionView::ConnectionAccepted {
                to: message.from->0,
                thid: message.thid->0,
                pthid: message.pthid->0,
                agent,
            },
            ActionView::Chat { to: message.body.channel_did->0, text: agent.greeting, seq_no: 0 },
        ],
        handled(channels, agent, message).channels.contains_key(
            sha256_hex(message.body.channel_did->0),
        ),
        handled(channels, agent, message).channels[sha256_hex(
            message.body.channel_did->0,
        )].seq_no == 1,
        sha256_hex(message.from->0) != sha256_hex(message.body.channel_did->0) ==> !handled(
            channels,
            agent,
            message,
        ).channels.contains_key(sha256_hex(message.from->0)),
{
    let new_did = message.body.channel_did->0;
    let replaced = after_handshake(channels, message.from->0, new_did);
    assert(chat_sent(replaced, new_did, agent.greeting) == Ok::<ActionView, SequenceError>(
        ActionView::Chat { to: new_did, text: agent.greeting, seq_no: 0 },
    ));
    assert(handled(channels, agent, message).actions =~= seq![
        ActionView::ConnectionAccepted {
            to: message.from->0,
            thid: message.thid->0,
            pthid: message.pthid->0,
            agent,
        },
        ActionView::Chat { to: new_did, text: agent.greeting, seq_no: 0 },
    ]);
}

} // verus!
