//! The logical messages that the agents receive and send, and the intents
//! that a received message can carry.
//!
//! Packing, encryption and delivery lie outside this library: a received
//! message comes in as an `InboundMessage`, and what is to be sent goes out
//! as an `Action`.

use crate::agents::state_management::{DIDCommAgent, DIDCommAgentView};
use crate::text::{opt_text, str_eq};
use vstd::prelude::*;

pub mod clear_messages;
pub mod oob_connection;

verus! {

/// Type of a request to set up a connection.
pub const CONNECTION_SETUP: &'static str =
    "https://affinidi.com/atm/client-actions/connection-setup";

/// Type of the answer to a request to set up a connection.
pub const CONNECTION_ACCEPTED: &'static str =
    "https://affinidi.com/atm/client-actions/connection-accepted";

/// Type of a presence message.
pub const CHAT_PRESENCE: &'static str = "https://affinidi.com/atm/client-actions/chat-presence";

/// Type of a chat effect.
pub const CHAT_EFFECT: &'static str = "https://affinidi.com/atm/client-actions/chat-effect";

/// Type of a chat message.
pub const CHAT_MESSAGE: &'static str = "https://affinidi.com/atm/client-actions/chat-message";

/// Type of a receipt for chat messages.
pub const CHAT_DELIVERED: &'static str = "https://affinidi.com/atm/client-actions/chat-delivered";

/// Type of an activity signal.
pub const CHAT_ACTIVITY: &'static str = "https://affinidi.com/atm/client-actions/chat-activity";

/// Type of the mediator's status report on the pickup queue.
pub const PICKUP_STATUS: &'static str = "https://didcomm.org/messagepickup/3.0/status";

// ---------------------------------------------------------------------------
//  Intents
// ---------------------------------------------------------------------------
/// What a received message is about, going by its type alone.
#[derive(Debug, PartialEq, Eq)]
pub enum MessageKind {
    ConnectionSetup,
    Presence,
    ChatEffect,
    ChatMessage,
    ChatDelivered,
    ChatActivity,
    ProtocolStatus,
    Unknown(String),
}

/// What a `MessageKind` holds.
pub ghost enum MessageKindView {
    ConnectionSetup,
    Presence,
    ChatEffect,
    ChatMessage,
    ChatDelivered,
    ChatActivity,
    ProtocolStatus,
    Unknown(Seq<char>),
}

impl View for MessageKind {
    type V = MessageKindView;

    open spec fn view(&self) -> MessageKindView {
        match self {
            MessageKind::ConnectionSetup => MessageKindView::ConnectionSetup,
            MessageKind::Presence => MessageKindView::Presence,
            MessageKind::ChatEffect => MessageKindView::ChatEffect,
            MessageKind::ChatMessage => MessageKindView::ChatMessage,
            MessageKind::ChatDelivered => MessageKindView::ChatDelivered,
            MessageKind::ChatActivity => MessageKindView::ChatActivity,
            MessageKind::ProtocolStatus => MessageKindView::ProtocolStatus,
            MessageKind::Unknown(tag) => MessageKindView::Unknown(tag@),
        }
    }
}

/// The intent of a message of type `tag`: one of the seven known intents
/// where the type is exactly the one that stands for it, and `Unknown` with
/// the type otherwise.
pub open spec fn kind_of(tag: Seq<char>) -> MessageKindView {
    if tag == PICKUP_STATUS@ {
        MessageKindView::ProtocolStatus
    } else if tag == CONNECTION_SETUP@ {
        MessageKindView::ConnectionSetup
    } else if tag == CHAT_PRESENCE@ {
        MessageKindView::Presence
    } else if tag == CHAT_EFFECT@ {
        MessageKindView::ChatEffect
    } else if tag == CHAT_MESSAGE@ {
        MessageKindView::ChatMessage
    } else if tag == CHAT_DELIVERED@ {
        MessageKindView::ChatDelivered
    } else if tag == CHAT_ACTIVITY@ {
        MessageKindView::ChatActivity
    } else {
        MessageKindView::Unknown(tag)
    }
}

/// The intent of a message of type `tag`.
pub fn classify(tag: &str) -> (kind: MessageKind)
    ensures
        kind@ == kind_of(tag@),
{
    if str_eq(tag, PICKUP_STATUS) {
        MessageKind::ProtocolStatus
    } else if str_eq(tag, CONNECTION_SETUP) {
        MessageKind::ConnectionSetup
    } else if str_eq(tag, CHAT_PRESENCE) {
        MessageKind::Presence
    } else if str_eq(tag, CHAT_EFFECT) {
        MessageKind::ChatEffect
    } else if str_eq(tag, CHAT_MESSAGE) {
        MessageKind::ChatMessage
    } else if str_eq(tag, CHAT_DELIVERED) {
        MessageKind::ChatDelivered
    } else if str_eq(tag, CHAT_ACTIVITY) {
        MessageKind::ChatActivity
    } else {
        MessageKind::Unknown(tag.to_string())
    }
}

// ---------------------------------------------------------------------------
//  Received messages
// ---------------------------------------------------------------------------
/// The mediator's report on the pickup queue.
#[derive(Debug, PartialEq, Eq, Clone, Copy)]
pub struct PickupStatus {
    pub message_count: u32,
    pub live_delivery: bool,
}

/// What the agents read of the body of a received message. A member is
/// `None` where the body does not hold it in the form that its reader asks
/// for.
#[derive(Debug, PartialEq, Eq)]
pub struct MessageBody {
    /// The text of a chat message
    pub text: Option<String>,
    /// The name of a chat effect
    pub effect: Option<String>,
    /// The identity that the sender proposes for the conversation
    pub channel_did: Option<String>,
    /// The report on the pickup queue
    pub status: Option<PickupStatus>,
}

/// What a `MessageBody` holds.
pub ghost struct MessageBodyView {
    pub text: Option<Seq<char>>,
    pub effect: Option<Seq<char>>,
    pub channel_did: Option<Seq<char>>,
    pub status: Option<PickupStatus>,
}

impl View for MessageBody {
    type V = MessageBodyView;

    open spec fn view(&self) -> MessageBodyView {
        MessageBodyView {
            text: opt_text(self.text),
            effect: opt_text(self.effect),
            channel_did: opt_text(self.channel_did),
            status: self.status,
        }
    }
}

/// A received message, as far as the agents read it.
#[derive(Debug, PartialEq, Eq)]
pub struct InboundMessage {
    /// Identifier of the message
    pub id: String,
    /// Type of the message
    pub type_: String,
    /// Identity of the sender, where the message names one
    pub from: Option<String>,
    /// Identity that the message is addressed to: the first of its
    /// recipients, where it names any
    pub to: Option<String>,
    /// Thread of the message
    pub thid: Option<String>,
    /// Parent thread of the message
    pub pthid: Option<String>,
    /// Body of the message
    pub body: MessageBody,
    /// Whether the message carries attachments
    pub has_attachments: bool,
    /// Digest under which the transport holds the packed message
    pub sha256_hash: String,
}

/// What an `InboundMessage` holds.
pub ghost struct InboundMessageView {
    pub id: Seq<char>,
    pub type_: Seq<char>,
    pub from: Option<Seq<char>>,
    pub to: Option<Seq<char>>,
    pub thid: Option<Seq<char>>,
    pub pthid: Option<Seq<char>>,
    pub body: MessageBodyView,
    pub has_attachments: bool,
    pub sha256_hash: Seq<char>,
}

impl View for InboundMessage {
    type V = InboundMessageView;

    open spec fn view(&self) -> InboundMessageView {
        InboundMessageView {
            id: self.id@,
            type_: self.type_@,
            from: opt_text(self.from),
            to: opt_text(self.to),
            thid: opt_text(self.thid),
            pthid: opt_text(self.pthid),
            body: self.body@,
            has_attachments: self.has_attachments,
            sha256_hash: self.sha256_hash@,
        }
    }
}

/// Why a received message could not be handled.
#[derive(Debug, PartialEq, Eq, Clone, Copy)]
pub enum HandleError {
    /// The message names no sender, so there is nobody to answer.
    NoSender,
    /// The body does not hold what a message of this type has to hold.
    MalformedBody,
    /// The message is addressed to none of the agent's identities.
    UnknownRecipient,
}

// ---------------------------------------------------------------------------
//  What an agent asks to be done
// ---------------------------------------------------------------------------
/// One thing that an agent asks its runtime to do. The messages are sent
/// from the identity that received the message at hand.
#[derive(Debug, PartialEq, Eq)]
pub enum Action {
    /// Send the answer to a connection request, with the contact card of
    /// `agent`.
    ConnectionAccepted { to: String, thid: String, pthid: String, agent: DIDCommAgent },
    /// Send a chat message.
    Chat { to: String, text: String, seq_no: u64 },
    /// Send a receipt for the chat message `message_id`.
    Delivered { to: String, message_id: String },
    /// Send an activity signal: the agent is composing.
    Activity { to: String, activity_seq_no: u64 },
    /// Send a presence message.
    Presence { to: String },
    /// Hand `prompt` to the generation backend and send what it streams,
    /// chunked, to `to`.
    Generate { to: String, prompt: String },
    /// Delete the received message from the transport.
    Acknowledge { sha256_hash: String },
}

/// What an `Action` holds.
pub ghost enum ActionView {
    ConnectionAccepted { to: Seq<char>, thid: Seq<char>, pthid: Seq<char>, agent: DIDCommAgentView },
    Chat { to: Seq<char>, text: Seq<char>, seq_no: u64 },
    Delivered { to: Seq<char>, message_id: Seq<char> },
    Activity { to: Seq<char>, activity_seq_no: u64 },
    Presence { to: Seq<char> },
    Generate { to: Seq<char>, prompt: Seq<char> },
    Acknowledge { sha256_hash: Seq<char> },
}

impl View for Action {
    type V = ActionView;

    open spec fn view(&self) -> ActionView {
        match self {
            Action::ConnectionAccepted { to, thid, pthid, agent } => {
                ActionView::ConnectionAccepted { to: to@, thid: thid@, pthid: pthid@, agent: agent@ }
            },
            Action::Chat { to, text, seq_no } => {
                ActionView::Chat { to: to@, text: text@, seq_no: *seq_no }
            },
            Action::Delivered { to, message_id } => {
                ActionView::Delivered { to: to@, message_id: message_id@ }
            },
            Action::Activity { to, activity_seq_no } => {
                ActionView::Activity { to: to@, activity_seq_no: *activity_seq_no }
            },
            Action::Presence { to } => ActionView::Presence { to: to@ },
            Action::Generate { to, prompt } => ActionView::Generate { to: to@, prompt: prompt@ },
            Action::Acknowledge { sha256_hash } => {
                ActionView::Acknowledge { sha256_hash: sha256_hash@ }
            },
        }
    }
}

/// The views of a list of actions.
pub open spec fn action_views(actions: Seq<Action>) -> Seq<ActionView> {
    Seq::new(actions.len(), |i: int| actions[i]@)
}

/// The type of the message that an action sends, where it sends one.
pub open spec fn message_type_of(action: ActionView) -> Option<Seq<char>> {
    match action {
        ActionView::ConnectionAccepted { .. } => Some(CONNECTION_ACCEPTED@),
        ActionView::Chat { .. } => Some(CHAT_MESSAGE@),
        ActionView::Delivered { .. } => Some(CHAT_DELIVERED@),
        ActionView::Activity { .. } => Some(CHAT_ACTIVITY@),
        ActionView::Presence { .. } => Some(CHAT_PRESENCE@),
        ActionView::Generate { .. } => None,
        ActionView::Acknowledge { .. } => None,
    }
}

/// Seconds for which an activity signal is worth delivering.
pub const ACTIVITY_LIFETIME_SECS: u64 = 10;

/// The seconds after which the message that an action sends is no longer
/// worth delivering: an activity signal goes stale, nothing else does.
pub open spec fn lifetime_of(action: ActionView) -> Option<u64> {
    match action {
        ActionView::Activity { .. } => Some(ACTIVITY_LIFETIME_SECS),
        _ => None,
    }
}

impl Action {
    /// The seconds after which the message that this action sends is no
    /// longer worth delivering, where there is such a limit.
    pub fn lifetime_secs(&self) -> (lifetime: Option<u64>)
        ensures
            lifetime == lifetime_of(self@),
    {
        match self {
            Action::Activity { .. } => Some(ACTIVITY_LIFETIME_SECS),
            _ => None,
        }
    }

    /// The type of the message that this action sends, where it sends one.
    pub fn message_type(&self) -> (tag: Option<&'static str>)
        ensures
            opt_str(tag) == message_type_of(self@),
    {
        match self {
            Action::ConnectionAccepted { .. } => Some(CONNECTION_ACCEPTED),
            Action::Chat { .. } => Some(CHAT_MESSAGE),
            Action::Delivered { .. } => Some(CHAT_DELIVERED),
            Action::Activity { .. } => Some(CHAT_ACTIVITY),
            Action::Presence { .. } => Some(CHAT_PRESENCE),
            Action::Generate { .. } => None,
            Action::Acknowledge { .. } => None,
        }
    }
}

/// The characters of an optional string slice.
pub open spec fn opt_str(text: Option<&str>) -> Option<Seq<char>> {
    match text {
        Some(t) => Some(t@),
        None => None,
    }
}

/// Answers a presence message: `to_did` is told that the agent is there.
pub fn handle_presence(to_did: &str) -> (action: Action)
    ensures
        action@ == (ActionView::Presence { to: to_did@ }),
{
    Action::Presence { to: to_did.to_string() }
}

} // verus!
