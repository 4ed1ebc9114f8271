//! What follows once the messages between two users were wiped.
use vstd::prelude::*;

verus! {

/// What is known so far after the messages between two users were wiped.
#[derive(Clone, Copy, Debug)]
pub struct SettleFacts {
    /// How many messages are there; an error if that could not be found out.
    pub remaining: Option<Result<u64, ()>>,
    /// Whether the newest message was made the last one of the conversation.
    pub tip_restored: bool,
    /// How many messages there are on a second look.
    pub recount: Option<Result<u64, ()>>,
    /// Whether a third look found none.
    pub still_empty: Option<bool>,
    /// How many messages the one who wiped has not read, if that could be stored.
    pub synced_viewer: Option<Option<u64>>,
    /// How many messages the other one has not read, if that could be stored.
    pub synced_peer: Option<Option<u64>>,
    /// Whether both were told how many there are, or that it has to be asked for again.
    pub unread_told: bool,
    /// Whether both were told that the conversation is gone.
    pub deletion_told: bool,
}

/// What to do next after the messages between two users were wiped.
#[derive(Clone, Copy, Debug, PartialEq, Eq, Structural)]
pub enum SettleNext {
    /// Count the messages of
    /// [`MessageFilter::conversation`](crate::model::messages::MessageFilter::conversation); so do
    /// [`SettleNext::Recount`] and [`SettleNext::CountAgain`].
    Count,
    /// They could not be counted.
    CountFailed,
    /// Make the newest message, found by
    /// [`newest_query`](crate::model::messages::newest_query), the last one of the conversation.
    RestoreTip,
    Recount,
    CountAgain,
    SyncViewer,
    SyncPeer,
    /// Tell both how many messages they have not read.
    /// The counts are those of [`both_keys`](crate::ws::unread::both_keys).
    EmitUnread { viewer: u64, peer: u64 },
    /// Have both ask again how many messages they have not read.
    InvalidateUnread,
    /// Tell both that the conversation is gone, as
    /// [`conversation_deleted`](crate::controllers::notices::conversation_deleted) says.
    TellDeleted,
    Done,
}

/// What to do next about how many messages the two have not read; `gone`: they are told
/// afterwards that the conversation is gone.
pub open spec fn settle_unread_next(facts: SettleFacts, gone: bool) -> SettleNext {
    match (facts.synced_viewer, facts.synced_peer) {
        (None, _) => SettleNext::SyncViewer,
        (Some(_), None) => SettleNext::SyncPeer,
        (Some(viewer), Some(peer)) => if !facts.unread_told {
            match (viewer, peer) {
                (Some(nv), Some(np)) => SettleNext::EmitUnread { viewer: nv, peer: np },
                _ => SettleNext::InvalidateUnread,
            }
        } else if gone && !facts.deletion_told {
            SettleNext::TellDeleted
        } else {
            SettleNext::Done
        },
    }
}

/// What to do next about how many messages the two have not read; `gone`: they are told
/// afterwards that the conversation is gone.
pub fn settle_unread(facts: SettleFacts, gone: bool) -> (r: SettleNext)
    ensures
        r == settle_unread_next(facts, gone),
{
    match (facts.synced_viewer, facts.synced_peer) {
        (None, _) => SettleNext::SyncViewer,
        (Some(_), None) => SettleNext::SyncPeer,
        (Some(viewer), Some(peer)) => if !facts.unread_told {
            match (viewer, peer) {
                (Some(nv), Some(np)) => SettleNext::EmitUnread { viewer: nv, peer: np },
                _ => SettleNext::InvalidateUnread,
            }
        } else if gone && !facts.deletion_told {
            SettleNext::TellDeleted
        } else {
            SettleNext::Done
        },
    }
}

/// What to do next after the messages between two users were wiped. New ones may arrive
/// meanwhile, so that there are none is looked at three times before anybody is told.
pub open spec fn settle_conversation_next(facts: SettleFacts) -> SettleNext {
    match facts.remaining {
        None => SettleNext::Count,
        Some(Err(_)) => SettleNext::CountFailed,
        Some(Ok(n)) => if n > 0 {
            if !facts.tip_restored {
                SettleNext::RestoreTip
            } else {
                settle_unread_next(facts, false)
            }
        } else {
            match facts.recount {
                None => SettleNext::Recount,
                Some(Err(_)) => if facts.unread_told {
                    SettleNext::Done
                } else {
                    SettleNext::InvalidateUnread
                },
                Some(Ok(m)) => if m > 0 {
                    settle_unread_next(facts, false)
                } else {
                    match facts.still_empty {
                        None => SettleNext::CountAgain,
                        Some(empty) => settle_unread_next(facts, empty),
                    }
                },
            }
        },
    }
}

/// What to do next after the messages between two users were wiped. New ones may arrive
/// meanwhile, so that there are none is looked at three times before anybody is told.
#[verifier::when_used_as_spec(settle_conversation_next)]
pub fn settle_conversation(facts: SettleFacts) -> (r: SettleNext)
    ensures
        r == settle_conversation_next(facts),
{
    match facts.remaining {
        None => SettleNext::Count,
        Some(Err(_)) => SettleNext::CountFailed,
        Some(Ok(n)) => if n > 0 {
            if !facts.tip_restored {
                SettleNext::RestoreTip
            } else {
                settle_unread(facts, false)
            }
        } else {
            match facts.recount {
                None => SettleNext::Recount,
                Some(Err(_)) => if facts.unread_told {
                    SettleNext::Done
                } else {
                    SettleNext::InvalidateUnread
                },
                Some(Ok(m)) => if m > 0 {
                    settle_unread(facts, false)
                } else {
                    match facts.still_empty {
                        None => SettleNext::CountAgain,
                        Some(empty) => settle_unread(facts, empty),
                    }
                },
            }
        },
    }
}

/// The two are told that the conversation is gone only if no message was there at three looks,
/// and after they were told what is unread.
pub proof fn gone_means_empty_three_times(facts: SettleFacts)
    ensures
        settle_conversation_next(facts) is TellDeleted ==> {
            &&& facts.remaining == Some(Ok::<u64, ()>(0))
            &&& facts.recount == Some(Ok::<u64, ()>(0))
            &&& facts.still_empty == Some(true)
            &&& facts.unread_told
        },
{
}

/// The two are told numbers of unread messages only if both numbers were stored.
pub proof fn unread_is_told_for_both_or_none(facts: SettleFacts)
    ensures
        settle_conversation_next(facts) matches SettleNext::EmitUnread { viewer, peer }
            ==> facts.synced_viewer == Some(Some(viewer)) && facts.synced_peer == Some(Some(peer)),
{
}

/// It ends only after the two were told what is unread, or that they have to ask again.
pub proof fn settling_tells_what_is_unread(facts: SettleFacts)
    ensures
        settle_conversation_next(facts) is Done ==> facts.unread_told,
{
}

/// What follows a wiped conversation, outcome by outcome: the messages are counted; if there are some
/// the newest becomes the last one; if there are none that is looked at twice more; then the unread
/// counts of both are stored and told, or asked for again; and that the conversation is gone is told
/// exactly if no message was there at any look.
pub proof fn wiped_conversations_are_settled(facts: SettleFacts, viewer: u64, peer: u64)
    ensures
        ({
            let next = settle_conversation_next(facts);
            let counted = facts.remaining is Some && facts.remaining->0 is Ok;
            let some = counted && facts.remaining->0->Ok_0 > 0;
            let none = counted && facts.remaining->0->Ok_0 == 0;
            let again = none && facts.recount is Some && facts.recount->0 is Ok;
            let lost = none && facts.recount is Some && facts.recount->0 is Err;
            let empty = again && facts.recount->0->Ok_0 == 0;
            let settling = (some && facts.tip_restored) || (again && facts.recount->0->Ok_0 > 0) || (
            empty && facts.still_empty is Some);
            let gone = empty && facts.still_empty == Some(true);
            let stored = settling && facts.synced_viewer is Some && facts.synced_peer is Some;
            let both = facts.synced_viewer == Some(Some(viewer)) && facts.synced_peer == Some(
                Some(peer),
            );
            let known = facts.synced_viewer->0 is Some && facts.synced_peer->0 is Some;
            &&& next is Count <==> facts.remaining is None
            &&& next is CountFailed <==> facts.remaining is Some && facts.remaining->0 is Err
            &&& next is RestoreTip <==> some && !facts.tip_restored
            &&& next is Recount <==> none && facts.recount is None
            &&& next is CountAgain <==> empty && facts.still_empty is None
            &&& next is SyncViewer <==> settling && facts.synced_viewer is None
            &&& next is SyncPeer <==> settling && facts.synced_viewer is Some && facts.synced_peer
                is None
            &&& next == (SettleNext::EmitUnread { viewer, peer }) <==> stored && !facts.unread_told
                && both
            &&& next is InvalidateUnread <==> !facts.unread_told && (lost || (stored && !known))
            &&& next is TellDeleted <==> stored && facts.unread_told && gone && !facts.deletion_told
            &&& next is Done <==> facts.unread_told && (lost || (stored && (!gone
                || facts.deletion_told)))
        }),
{
    assert(facts.still_empty is Some ==> facts.still_empty == Some(facts.still_empty->0));
}

} // verus!
