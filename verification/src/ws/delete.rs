//! Deleting a message.
use vstd::prelude::*;
use crate::answers::Access;
use crate::ids::{parsed_id, ObjectId};
use crate::lists::{all_but, contains_id, distinct, distinct_ids, distinct_keeps_each_once, filter_ends,
    filter_keeps_what_fits, filter_step, hex_all, hex_ids, ids_but, other_than, texts};
use crate::text;
use crate::ws::channel::{channel_recipient_ids, channel_recipients, recipients_of, unread_for, unread_targets, Channel};
use crate::ws::direct::{is_connected_user, speaks_for};
use crate::ws::events::FailureText;
use crate::ws::frames::{empty_frame, one_text, plain_frame, text_field, two_texts, Frame, FrameView};

verus! {

/// A request to delete a message.
pub struct DeleteMessagePayload {
    pub message_id: Option<String>,
    pub user_id: Option<String>,
}

/// A stored message, as far as deleting depends on it.
#[derive(Clone, Copy, Debug, PartialEq, Eq, Structural)]
pub struct DeleteTarget {
    pub sender: ObjectId,
    pub channel: Option<ObjectId>,
    pub recipient: Option<ObjectId>,
}

/// What a lookup of the message said.
#[derive(Clone, Copy, Debug, PartialEq, Eq, Structural)]
pub enum DeleteLookup {
    Found(DeleteTarget),
    Missing,
    Failed,
}

/// What became of deleting a message.
#[derive(Clone, Copy, Debug, PartialEq, Eq, Structural)]
pub enum Deletion {
    Deleted { was_unread: bool },
    /// It had been deleted before.
    NotActive,
    Failed,
}

/// What is known so far about deleting a message.
#[derive(Clone, Copy, Debug)]
pub struct DeleteFacts {
    pub found: Option<DeleteLookup>,
    pub participant: Option<Access>,
    pub deletion: Option<Deletion>,
    /// Whether the attached file was cleaned up.
    pub cleaned: bool,
    /// Whether the channel of a channel message was found.
    pub channel_found: Option<bool>,
}

/// What to do next about deleting a message.
#[derive(Clone, Copy, Debug, PartialEq, Eq, Structural)]
pub enum DeleteNext {
    Ignore,
    FindMessage(ObjectId),
    Fail,
    RequireParticipant,
    Delete(ObjectId),
    CleanUp,
    FindChannel(ObjectId),
    /// Tell the people of the channel, and take the counts of [`affected_members`] anew. What is
    /// told, here and below, is in [`deletion_frame`].
    TellChannel(ObjectId),
    /// The channel is out of reach: tell the sender and, as [`tell_readers`] says, those who have
    /// read the channel, and take their counts anew if the message was unread.
    TellReaders { channel: ObjectId, recount: bool },
    /// Tell the recipient and the sender, and take the recipient's count anew, as
    /// [`recount_deleted`] says, if the message was unread.
    TellPair { recipient: ObjectId, recount: bool },
    TellSender,
}

/// What to do next once the message is deleted.
pub open spec fn deleted_next(msg: DeleteTarget, was_unread: bool, facts: DeleteFacts) -> DeleteNext {
    if !facts.cleaned {
        DeleteNext::CleanUp
    } else {
        match (msg.channel, msg.recipient) {
            (Some(channel), _) => match facts.channel_found {
                None => DeleteNext::FindChannel(channel),
                Some(true) => DeleteNext::TellChannel(channel),
                Some(false) => DeleteNext::TellReaders { channel, recount: was_unread },
            },
            (None, Some(recipient)) => DeleteNext::TellPair { recipient, recount: was_unread },
            (None, None) => DeleteNext::TellSender,
        }
    }
}

/// What to do next once the message is deleted.
pub fn deleted(msg: DeleteTarget, was_unread: bool, facts: &DeleteFacts) -> (r: DeleteNext)
    ensures
        r == deleted_next(msg, was_unread, *facts),
{
    if !facts.cleaned {
        DeleteNext::CleanUp
    } else {
        match (msg.channel, msg.recipient) {
            (Some(channel), _) => match facts.channel_found {
                None => DeleteNext::FindChannel(channel),
                Some(true) => DeleteNext::TellChannel(channel),
                Some(false) => DeleteNext::TellReaders { channel, recount: was_unread },
            },
            (None, Some(recipient)) => DeleteNext::TellPair { recipient, recount: was_unread },
            (None, None) => DeleteNext::TellSender,
        }
    }
}

/// What to do next about a request to delete a message.
pub open spec fn handle_delete_message_next(connected: Seq<char>, payload: DeleteMessagePayload, facts: DeleteFacts) -> DeleteNext {
    match (payload.message_id, payload.user_id) {
        (Some(message_id), Some(user_id)) => if !speaks_for(connected, user_id@) {
            DeleteNext::Ignore
        } else {
            match (parsed_id(message_id@), facts.found) {
                (None, _) => DeleteNext::Ignore,
                (Some(mid), None) => DeleteNext::FindMessage(mid),
                (Some(_), Some(DeleteLookup::Missing)) => DeleteNext::Ignore,
                (Some(_), Some(DeleteLookup::Failed)) => DeleteNext::Fail,
                (Some(mid), Some(DeleteLookup::Found(msg))) => if msg.sender.hex() != user_id@ {
                    DeleteNext::Ignore
                } else {
                    match (facts.participant, facts.deletion) {
                        (None, _) => DeleteNext::RequireParticipant,
                        (Some(Access::Unavailable), _) => DeleteNext::Fail,
                        (Some(Access::Denied), _) => DeleteNext::Ignore,
                        (Some(Access::Granted), None) => DeleteNext::Delete(mid),
                        (Some(Access::Granted), Some(Deletion::Failed)) => DeleteNext::Fail,
                        (Some(Access::Granted), Some(Deletion::NotActive)) => DeleteNext::Ignore,
                        (Some(Access::Granted), Some(Deletion::Deleted { was_unread })) =>
                            deleted_next(msg, was_unread, facts),
                    }
                },
            }
        },
        _ => DeleteNext::Ignore,
    }
}

/// What to do next about a request to delete a message.
pub fn handle_delete_message(connected: &str, payload: &DeleteMessagePayload, facts: &DeleteFacts) -> (r: DeleteNext)
    ensures
        r == handle_delete_message_next(connected@, *payload, *facts),
{
    match (&payload.message_id, &payload.user_id) {
        (Some(message_id), Some(user_id)) => if !is_connected_user(connected, user_id) {
            DeleteNext::Ignore
        } else {
            match (ObjectId::parse_str(message_id), facts.found) {
                (None, _) => DeleteNext::Ignore,
                (Some(mid), None) => DeleteNext::FindMessage(mid),
                (Some(_), Some(DeleteLookup::Missing)) => DeleteNext::Ignore,
                (Some(_), Some(DeleteLookup::Failed)) => DeleteNext::Fail,
                (Some(mid), Some(DeleteLookup::Found(msg))) => if !text::same_text(
                    &msg.sender.to_hex(),
                    user_id,
                ) {
                    DeleteNext::Ignore
                } else {
                    match (facts.participant, facts.deletion) {
                        (None, _) => DeleteNext::RequireParticipant,
                        (Some(Access::Unavailable), _) => DeleteNext::Fail,
                        (Some(Access::Denied), _) => DeleteNext::Ignore,
                        (Some(Access::Granted), None) => DeleteNext::Delete(mid),
                        (Some(Access::Granted), Some(Deletion::Failed)) => DeleteNext::Fail,
                        (Some(Access::Granted), Some(Deletion::NotActive)) => DeleteNext::Ignore,
                        (Some(Access::Granted), Some(Deletion::Deleted { was_unread })) =>
                            deleted(msg, was_unread, facts),
                    }
                },
            }
        },
        _ => DeleteNext::Ignore,
    }
}

/// Whether a request to delete comes from somebody who speaks for themselves and names a message.
pub open spec fn asks_to_delete(
    connected: Seq<char>,
    payload: DeleteMessagePayload,
    mid: ObjectId,
) -> bool {
    &&& payload.message_id is Some && payload.user_id is Some
    &&& connected.len() > 0 && connected == payload.user_id->0@
    &&& parsed_id(payload.message_id->0@) == Some(mid)
}

/// Whether a request to delete comes from the sender of the message, who still takes part in the
/// conversation.
pub open spec fn may_delete(connected: Seq<char>, msg: DeleteTarget, facts: DeleteFacts) -> bool {
    &&& facts.found == Some(DeleteLookup::Found(msg))
    &&& msg.sender.hex() == connected
    &&& facts.participant == Some(Access::Granted)
}

/// Once a message is deleted and its file cleaned up, a deletion in a channel that is found is told
/// to that channel, one in a channel that is not found to those who have read it, one in a
/// conversation to the two of it, and one that belongs to neither to its sender alone: each in its
/// own case and in no other.
pub proof fn deletions_are_told_where_the_message_was(
    connected: Seq<char>,
    payload: DeleteMessagePayload,
    facts: DeleteFacts,
    mid: ObjectId,
    msg: DeleteTarget,
    was_unread: bool,
    c: ObjectId,
    r: ObjectId,
)
    requires
        asks_to_delete(connected, payload, mid),
        may_delete(connected, msg, facts),
        facts.deletion == Some(Deletion::Deleted { was_unread }),
    ensures
        ({
            let next = handle_delete_message_next(connected, payload, facts);
            let clean = facts.cleaned;
            &&& next is CleanUp <==> !clean
            &&& next == DeleteNext::FindChannel(c) <==> clean && msg.channel == Some(c)
                && facts.channel_found is None
            &&& next == DeleteNext::TellChannel(c) <==> clean && msg.channel == Some(c)
                && facts.channel_found == Some(true)
            &&& next == (DeleteNext::TellReaders { channel: c, recount: was_unread }) <==> clean
                && msg.channel == Some(c) && facts.channel_found == Some(false)
            &&& next == (DeleteNext::TellPair { recipient: r, recount: was_unread }) <==> clean
                && msg.channel is None && msg.recipient == Some(r)
            &&& next is TellSender <==> clean && msg.channel is None && msg.recipient is None
            &&& next is CleanUp || next is FindChannel || next is TellChannel || next is TellReaders
                || next is TellPair || next is TellSender
        }),
{
}

/// A message is deleted, once, exactly if its sender asks for it and takes part; what was deleted
/// before and what others sent is left alone, and a store that fails is told.
pub proof fn senders_delete_their_messages(
    connected: Seq<char>,
    payload: DeleteMessagePayload,
    facts: DeleteFacts,
    mid: ObjectId,
    msg: DeleteTarget,
)
    requires
        asks_to_delete(connected, payload, mid),
        facts.found matches Some(DeleteLookup::Found(m)) ==> m == msg,
    ensures
        ({
            let next = handle_delete_message_next(connected, payload, facts);
            let own = facts.found == Some(DeleteLookup::Found(msg)) && msg.sender.hex()
                == connected;
            let may = may_delete(connected, msg, facts);
            &&& next is FindMessage <==> facts.found is None
            &&& next is FindMessage ==> next == DeleteNext::FindMessage(mid)
            &&& next is RequireParticipant <==> own && facts.participant is None
            &&& next is Delete <==> may && facts.deletion is None
            &&& next is Delete ==> next == DeleteNext::Delete(mid)
            &&& next is Fail <==> facts.found == Some(DeleteLookup::Failed) || (own
                && facts.participant == Some(Access::Unavailable)) || (may && facts.deletion == Some(
                Deletion::Failed,
            ))
            &&& next is Ignore <==> facts.found == Some(DeleteLookup::Missing) || (facts.found
                == Some(DeleteLookup::Found(msg)) && msg.sender.hex() != connected) || (own
                && facts.participant == Some(Access::Denied)) || (may && facts.deletion == Some(
                Deletion::NotActive,
            ))
        }),
{
}

/// A request to delete that names no message, or comes from somebody who does not speak for
/// themselves, is dropped.
pub proof fn other_deletions_are_dropped(
    connected: Seq<char>,
    payload: DeleteMessagePayload,
    facts: DeleteFacts,
)
    requires
        forall|mid: ObjectId| !#[trigger] asks_to_delete(connected, payload, mid),
    ensures
        handle_delete_message_next(connected, payload, facts) is Ignore,
{
    if payload.message_id is Some {
        if let Some(mid) = parsed_id(payload.message_id->0@) {
            assert(!asks_to_delete(connected, payload, mid));
        }
    }
}

/// Only the sender deletes a message, and only while they take part in the conversation;
/// others are told only after it was deleted.
pub proof fn only_senders_delete(
    connected: Seq<char>,
    payload: DeleteMessagePayload,
    facts: DeleteFacts,
)
    ensures
        match handle_delete_message_next(connected, payload, facts) {
            DeleteNext::Delete(mid) => {
                &&& parsed_id(payload.message_id->0@) == Some(mid)
                &&& facts.found matches Some(DeleteLookup::Found(msg)) && msg.sender.hex()
                    == connected
                &&& facts.participant == Some(Access::Granted)
                &&& facts.deletion is None
            },
            DeleteNext::TellChannel(_)
            | DeleteNext::TellReaders { .. }
            | DeleteNext::TellPair { .. }
            | DeleteNext::TellSender => {
                &&& facts.deletion matches Some(Deletion::Deleted { .. })
                &&& facts.cleaned
                &&& facts.found matches Some(DeleteLookup::Found(msg)) && msg.sender.hex()
                    == connected
            },
            _ => true,
        },
{
}

/// What a user is told whose deletion failed, or, `degraded`, could not be told to all.
pub open spec fn delete_failure_text_of(degraded: bool) -> FailureText {
    if degraded {
        FailureText {
            code: "DELETE_FANOUT_DEGRADED",
            message: "Wiadomość usunięta, ale synchronizacja z kanałem może być niepełna. Odśwież czat.",
            retryable: true,
        }
    } else {
        FailureText {
            code: "DELETE_FAILED",
            message: "Nie udało się usunąć wiadomości. Spróbuj ponownie.",
            retryable: true,
        }
    }
}

/// What a user is told whose deletion failed, or, `degraded`, could not be told to all.
pub fn delete_failure_text(degraded: bool) -> (r: FailureText)
    ensures
        r == delete_failure_text_of(degraded),
{
    if degraded {
        FailureText {
            code: "DELETE_FANOUT_DEGRADED",
            message: "Wiadomość usunięta, ale synchronizacja z kanałem może być niepełna. Odśwież czat.",
            retryable: true,
        }
    } else {
        FailureText {
            code: "DELETE_FAILED",
            message: "Nie udało się usunąć wiadomości. Spróbuj ponownie.",
            retryable: true,
        }
    }
}

/// A deletion that failed and one that was made but not told to all are told apart, and both may be
/// tried again.
pub proof fn failed_deletions_say_what_failed(degraded: bool)
    ensures
        delete_failure_text_of(degraded).code == (if degraded {
            "DELETE_FANOUT_DEGRADED"
        } else {
            "DELETE_FAILED"
        }),
        delete_failure_text_of(degraded).retryable,
{
}

/// How far somebody has read a channel, in milliseconds.
#[derive(Clone, Copy, Debug, PartialEq, Eq, Structural)]
pub struct ReadState {
    pub user: ObjectId,
    pub last_read_at: i64,
    pub created_at: i64,
}

/// How far a user has read: the last state of the list for this user.
pub open spec fn read_state_of(states: Seq<ReadState>, user: ObjectId) -> Option<ReadState>
    decreases states.len(),
{
    if states.len() == 0 {
        None
    } else if states.last().user == user {
        Some(states.last())
    } else {
        read_state_of(states.drop_last(), user)
    }
}

/// The time up to which a channel counts as read: when it was read last, or, if never, when
/// the state was made.
pub open spec fn read_up_to(s: ReadState) -> i64 {
    if s.last_read_at <= 0 {
        s.created_at
    } else {
        s.last_read_at
    }
}

/// Whether a deleted message may have counted as unread for a user: unless it is known that
/// they had read up to it. Where it is not known how far they read, it may have.
pub open spec fn may_be_unread(
    states: Option<Seq<ReadState>>,
    user: ObjectId,
    sent_at: i64,
) -> bool {
    match states {
        None => true,
        Some(list) => match read_state_of(list, user) {
            None => true,
            Some(s) => read_up_to(s) > 0 && sent_at > read_up_to(s),
        },
    }
}

fn find_read_state(states: &Vec<ReadState>, user: ObjectId) -> (r: Option<ReadState>)
    ensures
        r == read_state_of(states@, user),
{
    let mut i: usize = states.len();
    proof {
        assert(states@.take(i as int) =~= states@);
    }
    while i > 0
        invariant
            i <= states.len(),
            read_state_of(states@, user) == read_state_of(states@.take(i as int), user),
        decreases i,
    {
        let s = states[i - 1];
        proof {
            assert(states@.take(i as int).drop_last() =~= states@.take(i - 1));
        }
        if s.user == user {
            return Some(s);
        }
        i = i - 1;
    }
    None
}

/// Being one for whom a deleted message may have counted as unread.
pub open spec fn affected_by(states: Option<Seq<ReadState>>, sent_at: i64) -> spec_fn(
    ObjectId,
) -> bool {
    |x: ObjectId| may_be_unread(states, x, sent_at)
}

/// What is known of how far people have read.
pub open spec fn known_states(states: Option<Vec<ReadState>>) -> Option<Seq<ReadState>> {
    match states {
        Some(v) => Some(v@),
        None => None,
    }
}

/// The people of a channel, but for the sender, whose unread count a deleted message may
/// change.
pub fn affected_members(
    channel: &Channel,
    sender: ObjectId,
    states: &Option<Vec<ReadState>>,
    sent_at: i64,
) -> (r: Vec<ObjectId>)
    ensures
        r@ == unread_for(channel.members@, channel.admin, sender).filter(
            affected_by(known_states(*states), sent_at),
        ),
{
    let targets = unread_targets(channel, sender);
    let ghost p = affected_by(known_states(*states), sent_at);
    let mut out: Vec<ObjectId> = Vec::new();
    let mut i: usize = 0;
    proof {
        filter_ends(targets@, p);
    }
    while i < targets.len()
        invariant
            i <= targets.len(),
            p == affected_by(known_states(*states), sent_at),
            out@ == targets@.take(i as int).filter(p),
        decreases targets.len() - i,
    {
        proof {
            filter_step(targets@, p, i as int);
        }
        let id = targets[i];
        let affected = match states {
            None => true,
            Some(list) => match find_read_state(list, id) {
                None => true,
                Some(s) => {
                    let upto: i64 = if s.last_read_at <= 0 {
                        s.created_at
                    } else {
                        s.last_read_at
                    };
                    upto > 0 && sent_at > upto
                },
            },
        };
        if affected {
            out.push(id);
        }
        i = i + 1;
    }
    proof {
        filter_ends(targets@, p);
    }
    out
}

/// A deletion never changes the count of its sender.
pub proof fn sender_is_never_affected(
    members: Seq<ObjectId>,
    admin: ObjectId,
    sender: ObjectId,
    states: Option<Seq<ReadState>>,
    sent_at: i64,
)
    ensures
        !unread_for(members, admin, sender).filter(affected_by(states, sent_at)).contains(sender),
{
    crate::ws::channel::everyone_is_told_once(members, admin, sender);
    filter_keeps_what_fits(unread_for(members, admin, sender), affected_by(states, sent_at));
}

/// The people who have read a channel, each once, but for the sender.
pub open spec fn readers_but(readers: Seq<ObjectId>, sender: ObjectId) -> Seq<ObjectId> {
    all_but(distinct(readers), sender)
}

/// The people who have read a channel, each once, but for the sender.
pub fn fallback_recipients(readers: &Vec<ObjectId>, sender: ObjectId) -> (r: Vec<ObjectId>)
    ensures
        r@ == readers_but(readers@, sender),
{
    ids_but(&distinct_ids(readers), sender)
}

/// Each reader but the sender is told of a deletion exactly once.
pub proof fn readers_are_told_once(readers: Seq<ObjectId>, sender: ObjectId)
    ensures
        readers_but(readers, sender).no_duplicates(),
        forall|x: ObjectId| #[trigger]
            readers_but(readers, sender).contains(x) <==> readers.contains(x) && x != sender,
{
    distinct_keeps_each_once(readers);
    filter_keeps_what_fits(distinct(readers), other_than(sender));
    assert forall|x: ObjectId| #[trigger]
        readers_but(readers, sender).contains(x) <==> readers.contains(x) && x != sender by {
        assert(distinct(readers).contains(x) <==> readers.contains(x));
    }
}

/// The frame that tells of a deletion. The message goes by the text under which the request named
/// it.
pub open spec fn told_deleted(to: Seq<Seq<char>>, message_id: Seq<char>) -> FrameView {
    plain_frame(to, "message-deleted"@, seq![text_field("_id"@, message_id)])
}

fn tells_deleted(to: Vec<String>, message_id: &str) -> (r: Frame)
    ensures
        r@ == told_deleted(texts(to@), message_id@),
{
    let r = empty_frame(to, "message-deleted").with_text("_id", message_id);
    proof {
        assert(r@.fields =~= seq![text_field("_id"@, message_id@)]);
    }
    r
}

/// Who is told of a deletion first: everybody in the channel, or the recipient and then the
/// sender, or the sender alone.
pub open spec fn told_first(next: DeleteNext, sender: ObjectId, channel: Option<Channel>) -> Option<
    Seq<Seq<char>>,
> {
    match next {
        DeleteNext::TellChannel(_) => match channel {
            Some(c) => Some(hex_all(recipients_of(c.members@, c.admin))),
            None => None,
        },
        DeleteNext::TellReaders { .. } => Some(seq![sender.hex()]),
        DeleteNext::TellPair { recipient, .. } => Some(seq![recipient.hex(), sender.hex()]),
        DeleteNext::TellSender => Some(seq![sender.hex()]),
        _ => None,
    }
}

/// The frame that tells of a deletion, for each step that tells somebody. `sender` is who sent
/// the message, `channel` its channel if it was found.
pub fn deletion_frame(
    next: DeleteNext,
    sender: ObjectId,
    channel: &Option<Channel>,
    message_id: &str,
) -> (r: Option<Frame>)
    ensures
        match (r, told_first(next, sender, *channel)) {
            (Some(f), Some(to)) => f@ == told_deleted(to, message_id@),
            (None, None) => true,
            _ => false,
        },
{
    match next {
        DeleteNext::TellChannel(_) => match channel {
            Some(c) => Some(tells_deleted(channel_recipient_ids(c), message_id)),
            None => None,
        },
        DeleteNext::TellReaders { .. } => Some(
            tells_deleted(one_text(&sender.to_hex()), message_id),
        ),
        DeleteNext::TellPair { recipient, .. } => Some(
            tells_deleted(two_texts(&recipient.to_hex(), &sender.to_hex()), message_id),
        ),
        DeleteNext::TellSender => Some(tells_deleted(one_text(&sender.to_hex()), message_id)),
        _ => None,
    }
}

/// The frame for those who have read a channel that is out of reach: each once, but for the
/// sender.
pub fn readers_frame(readers: &Vec<ObjectId>, sender: ObjectId, message_id: &str) -> (r: Frame)
    ensures
        r@ == told_deleted(hex_all(readers_but(readers@, sender)), message_id@),
{
    tells_deleted(hex_ids(&fallback_recipients(readers, sender)), message_id)
}

/// Whoever deletes a message is told that it is deleted, except by a channel in which they are
/// no longer.
pub proof fn senders_are_told_of_deletions(
    connected: Seq<char>,
    payload: DeleteMessagePayload,
    facts: DeleteFacts,
    msg: DeleteTarget,
    channel: Option<Channel>,
)
    requires
        facts.found == Some(DeleteLookup::Found(msg)),
        facts.channel_found == Some(true) ==> channel is Some,
        channel matches Some(c) ==> c.members@.contains(msg.sender) || c.admin == msg.sender,
    ensures
        match handle_delete_message_next(connected, payload, facts) {
            DeleteNext::TellChannel(_)
            | DeleteNext::TellReaders { .. }
            | DeleteNext::TellPair { .. }
            | DeleteNext::TellSender => told_first(
                handle_delete_message_next(connected, payload, facts),
                msg.sender,
                channel,
            ) matches Some(to) && to.contains(connected),
            _ => true,
        },
{
    let next = handle_delete_message_next(connected, payload, facts);
    if let Some(to) = told_first(next, msg.sender, channel) {
        assert(msg.sender.hex() == connected);
        match next {
            DeleteNext::TellChannel(_) => {
                let c = channel->0;
                let ids = recipients_of(c.members@, c.admin);
                crate::ws::channel::recipients_are_members_and_admin(c.members@, c.admin);
                assert(ids.contains(msg.sender));
                let i = choose|i: int| 0 <= i < ids.len() && ids[i] == msg.sender;
                assert(to[i] == connected);
            },
            DeleteNext::TellPair { .. } => {
                assert(to[1] == connected);
            },
            _ => {
                assert(to[0] == connected);
            },
        }
    }
}

/// What a lookup of those who have read a channel said.
#[derive(Clone, Copy, Debug, PartialEq, Eq, Structural)]
pub enum ReaderLookup {
    Listed,
    /// The store broke off before it had named them all.
    Broken,
    Failed,
}

/// What to do next about those who have read a channel that is out of reach.
#[derive(Clone, Copy, Debug, PartialEq, Eq, Structural)]
pub enum ReadersNext {
    Ask,
    /// Tell them, in [`readers_frame`].
    Tell,
    /// Tell the sender once more that not everybody could be told.
    FailAgain,
    Stop,
}

/// What to do next about those who have read a channel that is out of reach.
pub open spec fn tell_readers_next(reply: Option<ReaderLookup>) -> ReadersNext {
    match reply {
        None => ReadersNext::Ask,
        Some(ReaderLookup::Listed) => ReadersNext::Tell,
        Some(ReaderLookup::Broken) => ReadersNext::FailAgain,
        Some(ReaderLookup::Failed) => ReadersNext::Stop,
    }
}

/// What to do next about those who have read a channel that is out of reach.
pub fn tell_readers(reply: Option<ReaderLookup>) -> (r: ReadersNext)
    ensures
        r == tell_readers_next(reply),
{
    match reply {
        None => ReadersNext::Ask,
        Some(ReaderLookup::Listed) => ReadersNext::Tell,
        Some(ReaderLookup::Broken) => ReadersNext::FailAgain,
        Some(ReaderLookup::Failed) => ReadersNext::Stop,
    }
}

/// Those who have read a channel are asked for first, and told exactly if all of them are known; if
/// some are, the sender hears of it again.
pub proof fn known_readers_are_told(reply: Option<ReaderLookup>)
    ensures
        tell_readers_next(reply) is Ask <==> reply is None,
        tell_readers_next(reply) is Tell <==> reply == Some(ReaderLookup::Listed),
        tell_readers_next(reply) is FailAgain <==> reply == Some(ReaderLookup::Broken),
        tell_readers_next(reply) is Stop <==> reply == Some(ReaderLookup::Failed),
{
}

/// What to do next about the unread count of the recipient of a deleted message.
#[derive(Clone, Copy, Debug, PartialEq, Eq, Structural)]
pub enum RecountNext {
    /// Count the unread messages.
    Count,
    /// Count them anew and store that.
    Sync,
    /// Tell the recipient how many there are.
    Tell(u64),
    Stop,
}

/// What to do next about the unread count of the recipient of a deleted message. `counted` says
/// whether a first count worked: without one nothing is stored. `synced` is what was stored, if
/// that worked.
pub open spec fn recount_deleted_next(recount: bool, counted: Option<bool>, synced: Option<Option<u64>>) -> RecountNext {
    if !recount {
        RecountNext::Stop
    } else {
        match (counted, synced) {
            (None, _) => RecountNext::Count,
            (Some(false), _) => RecountNext::Stop,
            (Some(true), None) => RecountNext::Sync,
            (Some(true), Some(Some(n))) => RecountNext::Tell(n),
            (Some(true), Some(None)) => RecountNext::Stop,
        }
    }
}

/// What to do next about the unread count of the recipient of a deleted message. `counted` says
/// whether a first count worked: without one nothing is stored. `synced` is what was stored, if
/// that worked.
pub fn recount_deleted(recount: bool, counted: Option<bool>, synced: Option<Option<u64>>) -> (r: RecountNext)
    ensures
        r == recount_deleted_next(recount, counted, synced),
{
    if !recount {
        RecountNext::Stop
    } else {
        match (counted, synced) {
            (None, _) => RecountNext::Count,
            (Some(false), _) => RecountNext::Stop,
            (Some(true), None) => RecountNext::Sync,
            (Some(true), Some(Some(n))) => RecountNext::Tell(n),
            (Some(true), Some(None)) => RecountNext::Stop,
        }
    }
}

/// The count of an unread message's recipient is taken, stored and told, in this order, and told is
/// exactly what was stored; what does not work ends it, and a message that was read changes nothing.
pub proof fn stored_counts_are_told(
    recount: bool,
    counted: Option<bool>,
    synced: Option<Option<u64>>,
    n: u64,
)
    ensures
        ({
            let next = recount_deleted_next(recount, counted, synced);
            &&& next is Count <==> recount && counted is None
            &&& next is Sync <==> recount && counted == Some(true) && synced is None
            &&& next == RecountNext::Tell(n) <==> recount && counted == Some(true) && synced
                == Some(Some(n))
            &&& next is Stop <==> !recount || counted == Some(false) || (counted == Some(true)
                && synced == Some(None::<u64>))
        }),
{
}

/// A count is stored and told only after a first count that worked, and only for a message that
/// was unread.
pub proof fn recounts_need_a_first_count(
    recount: bool,
    counted: Option<bool>,
    synced: Option<Option<u64>>,
)
    ensures
        recount_deleted_next(recount, counted, synced) is Sync ==> recount && counted == Some(true),
        recount_deleted_next(recount, counted, synced) matches RecountNext::Tell(n) ==> recount
            && counted == Some(true) && synced == Some(Some(n)),
{
}

/// Which read states are looked for: those of a channel, of these users or of everybody.
pub struct ReadStateFilter {
    pub channel: ObjectId,
    pub users: Option<Vec<ObjectId>>,
}

impl ReadStateFilter {
    /// Whether the state of a user in a channel is meant.
    pub open spec fn fits(self, channel: ObjectId, s: ReadState) -> bool {
        channel == self.channel && match self.users {
            Some(v) => v@.contains(s.user),
            None => true,
        }
    }

    /// Whether the state of a user in a channel is meant.
    pub fn selects(&self, channel: ObjectId, s: &ReadState) -> (r: bool)
        ensures
            r == self.fits(channel, *s),
    {
        channel == self.channel && match &self.users {
            Some(v) => contains_id(v, s.user),
            None => true,
        }
    }
}

/// How far the people of a channel have read it, for [`affected_members`].
pub fn states_of_people(channel: &Channel, channel_oid: ObjectId) -> (r: ReadStateFilter)
    ensures
        r.channel == channel_oid,
        r.users matches Some(v) && v@ == recipients_of(channel.members@, channel.admin),
{
    ReadStateFilter { channel: channel_oid, users: Some(channel_recipients(channel)) }
}

/// Everybody who has read a channel.
pub fn states_of_readers(channel_oid: ObjectId) -> (r: ReadStateFilter)
    ensures
        r == (ReadStateFilter { channel: channel_oid, users: None }),
{
    ReadStateFilter { channel: channel_oid, users: None }
}

/// A deleted message may have counted as unread for somebody in the channel unless it is known that
/// they had read up to it: an unknown state counts as unread, a state that was never read counts from
/// when it was made, and one without any time counts as read.
pub proof fn unread_deletions_change_counts(
    members: Seq<ObjectId>,
    admin: ObjectId,
    sender: ObjectId,
    states: Option<Seq<ReadState>>,
    sent_at: i64,
    x: ObjectId,
)
    ensures
        ({
            let affected = unread_for(members, admin, sender).filter(affected_by(states, sent_at));
            let concerned = (members.contains(x) || x == admin) && x != sender;
            let known = states is Some && read_state_of(states->0, x) is Some;
            let s = read_state_of(states->0, x)->0;
            let upto = if s.last_read_at > 0 {
                s.last_read_at
            } else {
                s.created_at
            };
            &&& affected.no_duplicates()
            &&& !known ==> (affected.contains(x) <==> concerned)
            &&& known ==> (affected.contains(x) <==> concerned && 0 < upto && upto < sent_at)
        }),
{
    let targets = unread_for(members, admin, sender);
    let p = affected_by(states, sent_at);
    crate::ws::channel::everyone_is_told_once(members, admin, sender);
    filter_keeps_what_fits(targets, p);
    assert(targets.filter(p).contains(x) <==> targets.contains(x) && p(x));
    assert(targets.contains(x) <==> (members.contains(x) || x == admin) && x != sender);
}

/// The state of a user is one of theirs in the list, the last of them, and there is one unless none
/// in the list is theirs.
pub proof fn the_last_state_counts(states: Seq<ReadState>, user: ObjectId)
    ensures
        read_state_of(states, user) is None <==> forall|i: int|
            0 <= i < states.len() ==> (#[trigger] states[i]).user != user,
        read_state_of(states, user) matches Some(s) ==> exists|i: int|
            0 <= i < states.len() && #[trigger] states[i] == s && s.user == user && forall|j: int|
                i < j < states.len() ==> (#[trigger] states[j]).user != user,
    decreases states.len(),
{
    if states.len() > 0 {
        let rest = states.drop_last();
        if states.last().user == user {
            assert(states[states.len() - 1] == states.last());
        } else {
            the_last_state_counts(rest, user);
            assert forall|i: int| 0 <= i < states.len() implies (#[trigger] states[i]).user != user
                || i < rest.len() && rest[i].user == user by {
                if i < rest.len() {
                    assert(rest[i] == states[i]);
                }
            }
            if let Some(s) = read_state_of(rest, user) {
                let i = choose|i: int|
                    0 <= i < rest.len() && #[trigger] rest[i] == s && s.user == user && forall|
                        j: int,
                    |
                        i < j < rest.len() ==> (#[trigger] rest[j]).user != user;
                assert(states[i] == s);
                assert forall|j: int| i < j < states.len() implies (#[trigger] states[j]).user
                    != user by {
                    if j < rest.len() {
                        assert(rest[j] == states[j]);
                    }
                }
            }
        }
    }
}

/// Who is told of a deletion is who has to do with the message: everybody in its channel, or the two
/// of the conversation, or else its sender.
pub proof fn deletions_reach_who_is_concerned(
    sender: ObjectId,
    channel: Channel,
    c: ObjectId,
    r: ObjectId,
    recount: bool,
    id: Seq<char>,
)
    ensures
        told_first(DeleteNext::TellChannel(c), sender, Some(channel)) == Some(
            hex_all(recipients_of(channel.members@, channel.admin)),
        ),
        told_first(DeleteNext::TellReaders { channel: c, recount }, sender, None) == Some(
            seq![sender.hex()],
        ),
        told_first(DeleteNext::TellPair { recipient: r, recount }, sender, None) == Some(
            seq![r.hex(), sender.hex()],
        ),
        told_first(DeleteNext::TellSender, sender, None) == Some(seq![sender.hex()]),
        told_deleted(seq![sender.hex()], id).event == "message-deleted"@,
        told_deleted(seq![sender.hex()], id).to == seq![sender.hex()],
        told_deleted(seq![sender.hex()], id).fields == seq![text_field("_id"@, id)],
        !told_deleted(seq![sender.hex()], id).message,
{
}

/// States that are not known stay unknown, and known ones are taken as they are.
pub proof fn known_states_are_taken_over(states: Option<Vec<ReadState>>)
    ensures
        states is None <==> known_states(states) is None,
        states is Some ==> known_states(states) == Some(states->0@),
{
}

/// Read states are looked for in one channel, and there of those users that are named, or of all if
/// none are.
pub proof fn read_states_are_looked_for_in_one_channel(
    f: ReadStateFilter,
    channel: ObjectId,
    s: ReadState,
)
    ensures
        channel != f.channel ==> !f.fits(channel, s),
        channel == f.channel && f.users is None ==> f.fits(channel, s),
        channel == f.channel && f.users is Some ==> (f.fits(channel, s) <==> f.users->0@.contains(
            s.user,
        )),
{
}

/// Whoever fails to delete a message is told so in these words.
pub proof fn delete_failures_are_worded(degraded: bool)
    ensures
        degraded ==> delete_failure_text_of(degraded).message == "Wiadomość usunięta, ale synchronizacja z kanałem może być niepełna. Odśwież czat.",
        !degraded ==> delete_failure_text_of(degraded).message == "Nie udało się usunąć wiadomości. Spróbuj ponownie.",
{
}

} // verus!
