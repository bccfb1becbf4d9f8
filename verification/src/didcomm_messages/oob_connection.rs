//! The handshake that gives a conversation an identity of its own: a remote
//! party proposes a channel identity, and the agent answers with its contact
//! card.

use crate::agents::state_management::{DIDCommAgent, DIDCommAgentView};
use crate::didcomm_messages::{Action, ActionView, HandleError, InboundMessage, InboundMessageView};
use crate::text::opt_text;
use vstd::prelude::*;

verus! {

/// The name on a contact card.
#[derive(Debug, PartialEq, Eq)]
pub struct Name {
    pub given: Option<String>,
    pub surname: Option<String>,
}

/// An entry of a contact card that has a kind.
#[derive(Debug, PartialEq, Eq)]
pub struct VcardType {
    pub type_: VcardTypes,
}

/// The kinds of entry on a contact card.
#[derive(Debug, PartialEq, Eq)]
pub enum VcardTypes {
    Work(String),
    Cell(String),
}

/// A contact card.
#[derive(Debug, PartialEq, Eq)]
pub struct VCard {
    pub n: Name,
    pub email: Option<VcardType>,
    pub tel: Option<VcardType>,
    pub photo: Option<String>,
    pub x_meetingplace_contact_attributes: u8,
    pub x_meetingplace_verification_id: Option<String>,
}

/// What an entry of a contact card holds.
pub ghost enum VcardTypesView {
    Work(Seq<char>),
    Cell(Seq<char>),
}

/// What a `VCard` holds.
pub ghost struct VCardView {
    pub given: Option<Seq<char>>,
    pub surname: Option<Seq<char>>,
    pub email: Option<VcardTypesView>,
    pub tel: Option<VcardTypesView>,
    pub photo: Option<Seq<char>>,
    pub x_meetingplace_contact_attributes: u8,
    pub x_meetingplace_verification_id: Option<Seq<char>>,
}

impl View for VcardTypes {
    type V = VcardTypesView;

    open spec fn view(&self) -> VcardTypesView {
        match self {
            VcardTypes::Work(value) => VcardTypesView::Work(value@),
            VcardTypes::Cell(value) => VcardTypesView::Cell(value@),
        }
    }
}

/// The view of an optional entry.
pub open spec fn entry_view(entry: Option<VcardType>) -> Option<VcardTypesView> {
    match entry {
        Some(e) => Some(e.type_@),
        None => None,
    }
}

impl View for VCard {
    type V = VCardView;

    open spec fn view(&self) -> VCardView {
        VCardView {
            given: opt_text(self.n.given),
            surname: opt_text(self.n.surname),
            email: entry_view(self.email),
            tel: entry_view(self.tel),
            photo: opt_text(self.photo),
            x_meetingplace_contact_attributes: self.x_meetingplace_contact_attributes,
            x_meetingplace_verification_id: opt_text(self.x_meetingplace_verification_id),
        }
    }
}

/// The contact card of `agent` with the picture `photo`: it gives the
/// agent's name as the given name, and an empty surname, work address and
/// cell number.
pub open spec fn contact_card_of(agent: DIDCommAgentView, photo: Seq<char>) -> VCardView {
    VCardView {
        given: Some(agent.name),
        surname: Some(Seq::empty()),
        email: Some(VcardTypesView::Work(Seq::empty())),
        tel: Some(VcardTypesView::Cell(Seq::empty())),
        photo: Some(photo),
        x_meetingplace_contact_attributes: agent.x_meetingplace_contact_attributes,
        x_meetingplace_verification_id: agent.x_meetingplace_verification_id,
    }
}

/// The contact card that `agent` presents; `photo` is its picture, encoded
/// for the card.
pub fn contact_card(agent: &DIDCommAgent, photo: String) -> (card: VCard)
    ensures
        card@ == contact_card_of(agent@, photo@),
{
    VCard {
        n: Name { given: Some(agent.name.clone()), surname: Some(String::new()) },
        email: Some(VcardType { type_: VcardTypes::Work(String::new()) }),
        tel: Some(VcardType { type_: VcardTypes::Cell(String::new()) }),
        photo: Some(photo),
        x_meetingplace_contact_attributes: agent.x_meetingplace_contact_attributes,
        x_meetingplace_verification_id: match &agent.x_meetingplace_verification_id {
            Some(id) => Some(id.clone()),
            None => None,
        },
    }
}

/// The answer to the connection request `message` and the identity agreed
/// for the conversation. The request has to name its sender, and to hold the
/// proposed identity, its thread and its parent thread.
pub open spec fn connection_response(message: InboundMessageView, agent: DIDCommAgentView) -> Result<
    (ActionView, Seq<char>),
    HandleError,
> {
    if message.from is None {
        Err(HandleError::NoSender)
    } else if message.body.channel_did is None || message.thid is None || message.pthid is None {
        Err(HandleError::MalformedBody)
    } else {
        Ok(
            (
                ActionView::ConnectionAccepted {
                    to: message.from->0,
                    thid: message.thid->0,
                    pthid: message.pthid->0,
                    agent,
                },
                message.body.channel_did->0,
            ),
        )
    }
}

/// The view of the result of `send_connection_response`.
pub open spec fn response_view(response: Result<(Action, String), HandleError>) -> Result<
    (ActionView, Seq<char>),
    HandleError,
> {
    match response {
        Ok((action, new_did)) => Ok((action@, new_did@)),
        Err(e) => Err(e),
    }
}

/// Answers the connection request `message` in the name of `agent`: hands
/// back the answer to send to the sender and the identity that the
/// conversation goes on under.
pub fn send_connection_response(message: &InboundMessage, agent: &DIDCommAgent) -> (response:
    Result<(Action, String), HandleError>)
    ensures
        response_view(response) == connection_response(message@, agent@),
{
    let from = match &message.from {
        Some(from) => from,
        None => {
            return Err(HandleError::NoSender);
        },
    };
    match (&message.body.channel_did, &message.thid, &message.pthid) {
        (Some(new_did), Some(thid), Some(pthid)) => Ok(
            (
                Action::ConnectionAccepted {
                    to: from.clone(),
                    thid: thid.clone(),
                    pthid: pthid.clone(),
                    agent: agent.clone(),
                },
                new_did.clone(),
            ),
        ),
        _ => Err(HandleError::MalformedBody),
    }
}

} // verus!
