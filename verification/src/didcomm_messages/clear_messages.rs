//! Clearing the queues of an identity before it goes live, so that no stale
//! message is answered. A queue is cleared in rounds: the runtime fetches or
//! lists what is there, and the functions here say how to go on.

use crate::agents::state_management::string_views;
use vstd::prelude::*;

verus! {

/// How to go on after a round of clearing the inbound queue.
#[derive(Debug, PartialEq, Eq, Clone, Copy)]
pub enum InboundSweep {
    /// The queue is empty: `deleted` messages have been cleared in all.
    Finished { deleted: usize },
    /// Fetch again: `deleted` messages have been cleared so far.
    Again { deleted: usize },
}

/// How to go on after a round of clearing the outbound queue.
#[derive(Debug, PartialEq, Eq)]
pub enum OutboundSweep {
    /// The queue is empty: `deleted` messages have been cleared in all.
    Finished { deleted: usize },
    /// Delete the messages `message_ids` and list again: with them `deleted`
    /// messages have been cleared so far.
    Delete { message_ids: Vec<String>, deleted: usize },
}

/// What an `OutboundSweep` holds.
pub ghost enum OutboundSweepView {
    Finished { deleted: usize },
    Delete { message_ids: Seq<Seq<char>>, deleted: usize },
}

impl View for OutboundSweep {
    type V = OutboundSweepView;

    open spec fn view(&self) -> OutboundSweepView {
        match self {
            OutboundSweep::Finished { deleted } => OutboundSweepView::Finished {
                deleted: *deleted,
            },
            OutboundSweep::Delete { message_ids, deleted } => OutboundSweepView::Delete {
                message_ids: string_views(message_ids@),
                deleted: *deleted,
            },
        }
    }
}

/// Goes on with the clearing of the inbound queue after a round that fetched,
/// and with that deleted, `fetched` messages: the clearing is finished when
/// a round fetches nothing. `deleted` counts the messages cleared before.
pub fn clear_inbound_messages(deleted: usize, fetched: usize) -> (step: InboundSweep)
    requires
        deleted + fetched <= usize::MAX,
    ensures
        step == if fetched == 0 {
            InboundSweep::Finished { deleted }
        } else {
            InboundSweep::Again { deleted: (deleted + fetched) as usize }
        },
{
    if fetched == 0 {
        InboundSweep::Finished { deleted }
    } else {
        InboundSweep::Again { deleted: deleted + fetched }
    }
}

/// Goes on with the clearing of the outbound queue after a round that listed
/// the messages `listed`: all of them are to be deleted, and the clearing is
/// finished when a round lists nothing. `deleted` counts the messages cleared
/// before.
pub fn clear_outbound_messages(deleted: usize, listed: Vec<String>) -> (step: OutboundSweep)
    requires
        deleted + listed@.len() <= usize::MAX,
    ensures
        step@ == if listed@.len() == 0 {
            OutboundSweepView::Finished { deleted }
        } else {
            OutboundSweepView::Delete {
                message_ids: string_views(listed@),
                deleted: (deleted + listed@.len()) as usize,
            }
        },
{
    if listed.len() == 0 {
        OutboundSweep::Finished { deleted }
    } else {
        let count: usize = listed.len();
        OutboundSweep::Delete { message_ids: listed, deleted: deleted + count }
    }
}

} // verus!
