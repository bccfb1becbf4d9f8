//! A bridge between locally hosted language models and remote chat parties:
//! the decisions of its agents, the conversation state they keep and the
//! chunking of a streamed answer into chat messages.

use vstd::prelude::*;

pub mod agents;
pub mod chat_messages;
pub mod chunker;
pub mod didcomm_messages;
pub mod setup_wizard;
pub mod string_map;
pub mod termination;
pub mod text;

verus! {

/// The methods by which the identity of an agent can be created.
#[derive(Debug, PartialEq, Eq, Clone, Copy)]
pub enum DIDMethods {
    Key,
    Peer,
}

} // verus!
