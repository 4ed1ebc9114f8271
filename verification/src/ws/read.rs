//! Marking messages, conversations and channels as read.
use vstd::prelude::*;
use crate::answers::{Access, Answer, Change};
use crate::ids::{parsed_id, ObjectId};
use crate::lists::{hex_all, hex_ids, texts};
use crate::text;
use crate::ws::direct::{is_connected_user, speaks_for};
use crate::ws::events::FailureText;
use crate::ws::frames::{empty_frame, flag_field, one_text, plain_frame, text_field, texts_field, Frame,
    FrameValue, FrameView};

verus! {

/// A request to mark one message as read.
pub struct MarkMessageReadPayload {
    pub message_id: Option<String>,
    pub user_id: Option<String>,
}

/// The message to be marked, and who sent it.
#[derive(Clone, Copy, Debug, PartialEq, Eq, Structural)]
pub enum FoundSender {
    Found(ObjectId),
    Missing,
    Failed,
}

/// What is known so far about marking a message.
#[derive(Clone, Copy, Debug)]
pub struct MarkMessageFacts {
    pub found: Option<FoundSender>,
    /// Whether the user may mark it.
    pub allowed: Option<Answer>,
    /// Whether it was unread before.
    pub marked: Option<Change>,
}

/// What to do next about marking a message.
#[derive(Clone, Copy, Debug, PartialEq, Eq, Structural)]
pub enum MarkMessageNext {
    Ignore,
    FindMessage(ObjectId),
    /// Tell the user that it failed.
    Fail,
    AskAllowed,
    Mark(ObjectId),
    /// Tell the sender; then, if the user is an identifier, take the unread count anew.
    TellSender { sender: ObjectId, viewer: Option<ObjectId> },
}

/// What to do next about marking one message as read.
pub open spec fn handle_mark_message_read_next(connected: Seq<char>, payload: MarkMessageReadPayload, facts: MarkMessageFacts) -> MarkMessageNext {
    match (payload.message_id, payload.user_id) {
        (Some(message_id), Some(user_id)) => if !speaks_for(connected, user_id@) {
            MarkMessageNext::Ignore
        } else {
            match (parsed_id(message_id@), facts.found) {
                (None, _) => MarkMessageNext::Ignore,
                (Some(mid), None) => MarkMessageNext::FindMessage(mid),
                (Some(_), Some(FoundSender::Missing)) => MarkMessageNext::Ignore,
                (Some(_), Some(FoundSender::Failed)) => MarkMessageNext::Fail,
                (Some(mid), Some(FoundSender::Found(sender))) => match (
                    facts.allowed,
                    facts.marked,
                ) {
                    (None, _) => MarkMessageNext::AskAllowed,
                    (Some(Answer::No), _) => MarkMessageNext::Ignore,
                    (Some(Answer::Failed), _) => MarkMessageNext::Fail,
                    (Some(Answer::Yes), None) => MarkMessageNext::Mark(mid),
                    (Some(Answer::Yes), Some(Change::Failed)) => MarkMessageNext::Fail,
                    (Some(Answer::Yes), Some(Change::Unchanged)) => MarkMessageNext::Ignore,
                    (Some(Answer::Yes), Some(Change::Changed)) => MarkMessageNext::TellSender {
                        sender,
                        viewer: parsed_id(user_id@),
                    },
                },
            }
        },
        _ => MarkMessageNext::Ignore,
    }
}

/// What to do next about marking one message as read.
pub fn handle_mark_message_read(connected: &str, payload: &MarkMessageReadPayload, facts: &MarkMessageFacts) -> (r: MarkMessageNext)
    ensures
        r == handle_mark_message_read_next(connected@, *payload, *facts),
{
    match (&payload.message_id, &payload.user_id) {
        (Some(message_id), Some(user_id)) => if !is_connected_user(connected, user_id) {
            MarkMessageNext::Ignore
        } else {
            match (ObjectId::parse_str(message_id), facts.found) {
                (None, _) => MarkMessageNext::Ignore,
                (Some(mid), None) => MarkMessageNext::FindMessage(mid),
                (Some(_), Some(FoundSender::Missing)) => MarkMessageNext::Ignore,
                (Some(_), Some(FoundSender::Failed)) => MarkMessageNext::Fail,
                (Some(mid), Some(FoundSender::Found(sender))) => match (
                    facts.allowed,
                    facts.marked,
                ) {
                    (None, _) => MarkMessageNext::AskAllowed,
                    (Some(Answer::No), _) => MarkMessageNext::Ignore,
                    (Some(Answer::Failed), _) => MarkMessageNext::Fail,
                    (Some(Answer::Yes), None) => MarkMessageNext::Mark(mid),
                    (Some(Answer::Yes), Some(Change::Failed)) => MarkMessageNext::Fail,
                    (Some(Answer::Yes), Some(Change::Unchanged)) => MarkMessageNext::Ignore,
                    (Some(Answer::Yes), Some(Change::Changed)) => MarkMessageNext::TellSender {
                        sender,
                        viewer: ObjectId::parse_str(user_id),
                    },
                },
            }
        },
        _ => MarkMessageNext::Ignore,
    }
}

/// What becomes of marking a message, outcome by outcome, for a user who speaks for themselves: it is
/// looked for, the right is asked for, it is marked, and its sender is told exactly if it was unread;
/// a store that fails is told to the user, and everything else is dropped.
pub proof fn read_messages_are_marked_and_told(
    connected: Seq<char>,
    payload: MarkMessageReadPayload,
    facts: MarkMessageFacts,
    mid: ObjectId,
    sender: ObjectId,
    viewer: Option<ObjectId>,
)
    ensures
        ({
            let next = handle_mark_message_read_next(connected, payload, facts);
            let asks = payload.message_id is Some && payload.user_id is Some && connected.len() > 0
                && connected == payload.user_id->0@ && parsed_id(payload.message_id->0@) is Some;
            let found = asks && facts.found is Some && facts.found->0 is Found;
            let may = found && facts.allowed == Some(Answer::Yes);
            &&& next == MarkMessageNext::FindMessage(mid) <==> asks && parsed_id(
                payload.message_id->0@,
            ) == Some(mid) && facts.found is None
            &&& next is AskAllowed <==> found && facts.allowed is None
            &&& next == MarkMessageNext::Mark(mid) <==> may && parsed_id(payload.message_id->0@)
                == Some(mid) && facts.marked is None
            &&& next == (MarkMessageNext::TellSender { sender, viewer }) <==> may && facts.found
                == Some(FoundSender::Found(sender)) && facts.marked == Some(Change::Changed)
                && viewer == parsed_id(connected)
            &&& next is Fail <==> (asks && facts.found == Some(FoundSender::Failed)) || (found
                && facts.allowed == Some(Answer::Failed)) || (may && facts.marked == Some(
                Change::Failed,
            ))
            &&& next is Ignore <==> !asks || facts.found == Some(FoundSender::Missing) || (found
                && facts.allowed == Some(Answer::No)) || (may && facts.marked == Some(
                Change::Unchanged,
            ))
        }),
{
}

/// A message is marked, and its sender told, only for a user who speaks for themselves and
/// may mark it; the sender is told only of a message that was unread before.
pub proof fn only_readers_mark_messages(
    connected: Seq<char>,
    payload: MarkMessageReadPayload,
    facts: MarkMessageFacts,
)
    ensures
        match handle_mark_message_read_next(connected, payload, facts) {
            MarkMessageNext::Mark(_) => facts.allowed == Some(Answer::Yes) && connected
                == payload.user_id->0@,
            MarkMessageNext::TellSender { sender, .. } => facts.allowed == Some(Answer::Yes)
                && facts.marked == Some(Change::Changed) && facts.found == Some(
                FoundSender::Found(sender),
            ),
            _ => true,
        },
{
}

/// A request to mark a conversation as read.
pub struct MarkConversationReadPayload {
    pub user_id: Option<String>,
    pub contact_id: Option<String>,
}

/// The most messages that are named one by one when a conversation is read.
pub const MAX_EMIT_IDS: usize = 500;

/// The unread messages of a conversation: how many were found, one more than the most that
/// are named at the utmost.
#[derive(Clone, Copy, Debug, PartialEq, Eq, Structural)]
pub enum Unread {
    Count(usize),
    Failed,
}

/// What is known so far about marking a conversation.
#[derive(Clone, Copy, Debug)]
pub struct MarkConversationFacts {
    pub unread: Option<Unread>,
    pub marked: Option<bool>,
}

/// What to do next about marking a conversation.
#[derive(Clone, Copy, Debug, PartialEq, Eq, Structural)]
pub enum MarkConversationNext {
    Ignore,
    /// Look for at most `limit` messages of
    /// [`MessageFilter::unread_from`](crate::model::messages::MessageFilter::unread_from).
    CollectUnread { user: ObjectId, contact: ObjectId, limit: i64 },
    Fail,
    /// Mark every unread message of the conversation.
    MarkAll,
    /// Mark the messages that were found.
    MarkFound,
    /// Tell the contact, in [`messages_read_frame`], and take the unread count anew.
    TellContact { user: ObjectId, contact: ObjectId, conversation_read: bool },
    /// There was nothing unread: take the unread count anew.
    Recount { user: ObjectId, contact: ObjectId },
}

/// What to do next about marking a conversation as read.
pub open spec fn handle_mark_conversation_read_next(connected: Seq<char>, payload: MarkConversationReadPayload, facts: MarkConversationFacts) -> MarkConversationNext {
    match (payload.user_id, payload.contact_id) {
        (Some(user_id), Some(contact_id)) => if !speaks_for(connected, user_id@) {
            MarkConversationNext::Ignore
        } else {
            match (parsed_id(user_id@), parsed_id(contact_id@)) {
                (Some(user), Some(contact)) => match (facts.unread, facts.marked) {
                    (None, _) => MarkConversationNext::CollectUnread { user, contact, limit: 501 },
                    (Some(Unread::Failed), _) => MarkConversationNext::Fail,
                    (Some(Unread::Count(0)), _) => MarkConversationNext::Recount { user, contact },
                    (Some(Unread::Count(n)), None) => if n > MAX_EMIT_IDS {
                        MarkConversationNext::MarkAll
                    } else {
                        MarkConversationNext::MarkFound
                    },
                    (Some(Unread::Count(_)), Some(false)) => MarkConversationNext::Fail,
                    (Some(Unread::Count(n)), Some(true)) => MarkConversationNext::TellContact {
                        user,
                        contact,
                        conversation_read: n > MAX_EMIT_IDS,
                    },
                },
                _ => MarkConversationNext::Ignore,
            }
        },
        _ => MarkConversationNext::Ignore,
    }
}

/// What to do next about marking a conversation as read.
pub fn handle_mark_conversation_read(connected: &str, payload: &MarkConversationReadPayload, facts: &MarkConversationFacts) -> (r: MarkConversationNext)
    ensures
        r == handle_mark_conversation_read_next(connected@, *payload, *facts),
{
    match (&payload.user_id, &payload.contact_id) {
        (Some(user_id), Some(contact_id)) => if !is_connected_user(connected, user_id) {
            MarkConversationNext::Ignore
        } else {
            match (ObjectId::parse_str(user_id), ObjectId::parse_str(contact_id)) {
                (Some(user), Some(contact)) => match (facts.unread, facts.marked) {
                    (None, _) => MarkConversationNext::CollectUnread { user, contact, limit: 501 },
                    (Some(Unread::Failed), _) => MarkConversationNext::Fail,
                    (Some(Unread::Count(0)), _) => MarkConversationNext::Recount { user, contact },
                    (Some(Unread::Count(n)), None) => if n > MAX_EMIT_IDS {
                        MarkConversationNext::MarkAll
                    } else {
                        MarkConversationNext::MarkFound
                    },
                    (Some(Unread::Count(_)), Some(false)) => MarkConversationNext::Fail,
                    (Some(Unread::Count(n)), Some(true)) => MarkConversationNext::TellContact {
                        user,
                        contact,
                        conversation_read: n > MAX_EMIT_IDS,
                    },
                },
                _ => MarkConversationNext::Ignore,
            }
        },
        _ => MarkConversationNext::Ignore,
    }
}

/// What becomes of marking a conversation, outcome by outcome: at most 501 unread messages are looked
/// for; up to 500 are marked one by one and more of them all at once; the contact is told of what was
/// marked, and where nothing was unread only the count is taken anew.
pub proof fn read_conversations_are_marked_and_told(
    connected: Seq<char>,
    payload: MarkConversationReadPayload,
    facts: MarkConversationFacts,
    user: ObjectId,
    contact: ObjectId,
    n: usize,
)
    requires
        payload.user_id is Some,
        payload.contact_id is Some,
        connected.len() > 0,
        connected == payload.user_id->0@,
        parsed_id(connected) == Some(user),
        parsed_id(payload.contact_id->0@) == Some(contact),
        facts.unread matches Some(Unread::Count(k)) ==> k == n,
    ensures
        ({
            let next = handle_mark_conversation_read_next(connected, payload, facts);
            let some = facts.unread == Some(Unread::Count(n)) && n > 0;
            &&& next == (MarkConversationNext::CollectUnread { user, contact, limit: 501 })
                <==> facts.unread is None
            &&& next == (MarkConversationNext::Recount { user, contact }) <==> facts.unread == Some(
                Unread::Count(0),
            )
            &&& next is MarkFound <==> some && n <= 500 && facts.marked is None
            &&& next is MarkAll <==> some && n > 500 && facts.marked is None
            &&& next == (MarkConversationNext::TellContact {
                user,
                contact,
                conversation_read: n > 500,
            }) <==> some && facts.marked == Some(true)
            &&& next is Fail <==> facts.unread == Some(Unread::Failed) || (some && facts.marked
                == Some(false))
            &&& !(next is Ignore)
        }),
{
}

/// A request to mark a conversation is dropped if and only if it comes from somebody who does not
/// speak for themselves, or one of the two is not named by an identifier.
pub proof fn other_conversations_are_not_marked(
    connected: Seq<char>,
    payload: MarkConversationReadPayload,
    facts: MarkConversationFacts,
)
    ensures
        handle_mark_conversation_read_next(connected, payload, facts) is Ignore <==> !(
        payload.user_id is Some && payload.contact_id is Some && connected.len() > 0 && connected
            == payload.user_id->0@ && parsed_id(connected) is Some && parsed_id(
            payload.contact_id->0@,
        ) is Some),
{
}

/// A contact is told only of messages that could be marked, and of the whole conversation
/// exactly when there are too many to name.
pub proof fn contact_is_told_of_marked_messages(
    connected: Seq<char>,
    payload: MarkConversationReadPayload,
    facts: MarkConversationFacts,
)
    ensures
        match handle_mark_conversation_read_next(connected, payload, facts) {
            MarkConversationNext::TellContact { user, conversation_read, .. } => {
                &&& facts.marked == Some(true)
                &&& parsed_id(connected) == Some(user)
                &&& facts.unread matches Some(Unread::Count(n)) && n > 0 && (conversation_read <==> n
                    > MAX_EMIT_IDS)
            },
            _ => true,
        },
{
}

/// The messages that a contact is told about one by one: none if there are too many.
pub open spec fn receipt_of(ids: Seq<ObjectId>) -> Seq<Seq<char>> {
    if ids.len() > MAX_EMIT_IDS {
        Seq::empty()
    } else {
        hex_all(ids)
    }
}

/// The messages that a contact is told about one by one.
pub fn read_receipt_ids(ids: &Vec<ObjectId>) -> (r: Vec<String>)
    ensures
        texts(r@) == receipt_of(ids@),
{
    if ids.len() > MAX_EMIT_IDS {
        let out: Vec<String> = Vec::new();
        proof {
            assert(texts(out@) =~= Seq::empty());
        }
        out
    } else {
        hex_ids(ids)
    }
}

/// A receipt never names more than 500 messages.
pub proof fn receipts_are_short(ids: Seq<ObjectId>)
    ensures
        receipt_of(ids).len() <= MAX_EMIT_IDS,
{
}

/// A request to mark a channel as read.
pub struct MarkChannelReadPayload {
    pub user_id: Option<String>,
    pub channel_id: Option<String>,
}

/// What to do next about marking a channel.
#[derive(Clone, Copy, Debug, PartialEq, Eq, Structural)]
pub enum MarkChannelNext {
    Ignore,
    RequireAccess,
    Fail,
    Mark,
    /// Take the unread count anew.
    Recount { user: ObjectId, channel: ObjectId },
}

/// What to do next about marking a channel as read. `access` is what the access check said,
/// `marked` whether marking worked.
pub open spec fn handle_mark_channel_read_next(connected: Seq<char>, payload: MarkChannelReadPayload, access: Option<Access>, marked: Option<bool>) -> MarkChannelNext {
    match (payload.user_id, payload.channel_id) {
        (Some(user_id), Some(channel_id)) => if !speaks_for(connected, user_id@) {
            MarkChannelNext::Ignore
        } else {
            match (access, marked) {
                (None, _) => MarkChannelNext::RequireAccess,
                (Some(Access::Unavailable), _) => MarkChannelNext::Fail,
                (Some(Access::Denied), _) => MarkChannelNext::Ignore,
                (Some(Access::Granted), None) => MarkChannelNext::Mark,
                (Some(Access::Granted), Some(false)) => MarkChannelNext::Fail,
                (Some(Access::Granted), Some(true)) => match (
                    parsed_id(user_id@),
                    parsed_id(channel_id@),
                ) {
                    (Some(user), Some(channel)) => MarkChannelNext::Recount { user, channel },
                    _ => MarkChannelNext::Ignore,
                },
            }
        },
        _ => MarkChannelNext::Ignore,
    }
}

/// What to do next about marking a channel as read. `access` is what the access check said,
/// `marked` whether marking worked.
pub fn handle_mark_channel_read(connected: &str, payload: &MarkChannelReadPayload, access: Option<Access>, marked: Option<bool>) -> (r: MarkChannelNext)
    ensures
        r == handle_mark_channel_read_next(connected@, *payload, access, marked),
{
    match (&payload.user_id, &payload.channel_id) {
        (Some(user_id), Some(channel_id)) => if !is_connected_user(connected, user_id) {
            MarkChannelNext::Ignore
        } else {
            match (access, marked) {
                (None, _) => MarkChannelNext::RequireAccess,
                (Some(Access::Unavailable), _) => MarkChannelNext::Fail,
                (Some(Access::Denied), _) => MarkChannelNext::Ignore,
                (Some(Access::Granted), None) => MarkChannelNext::Mark,
                (Some(Access::Granted), Some(false)) => MarkChannelNext::Fail,
                (Some(Access::Granted), Some(true)) => match (
                    ObjectId::parse_str(user_id),
                    ObjectId::parse_str(channel_id),
                ) {
                    (Some(user), Some(channel)) => MarkChannelNext::Recount { user, channel },
                    _ => MarkChannelNext::Ignore,
                },
            }
        },
        _ => MarkChannelNext::Ignore,
    }
}

/// What becomes of marking a channel, outcome by outcome: access is asked for, the channel is marked
/// with access only, and the count is taken anew for the user and the channel that were named.
pub proof fn read_channels_are_marked(
    connected: Seq<char>,
    payload: MarkChannelReadPayload,
    access: Option<Access>,
    marked: Option<bool>,
    user: ObjectId,
    channel: ObjectId,
)
    ensures
        ({
            let next = handle_mark_channel_read_next(connected, payload, access, marked);
            let asks = payload.user_id is Some && payload.channel_id is Some && connected.len() > 0
                && connected == payload.user_id->0@;
            let may = asks && access == Some(Access::Granted);
            let named = parsed_id(connected) is Some && parsed_id(payload.channel_id->0@) is Some;
            &&& next is RequireAccess <==> asks && access is None
            &&& next is Mark <==> may && marked is None
            &&& next == (MarkChannelNext::Recount { user, channel }) <==> may && marked == Some(true)
                && parsed_id(connected) == Some(user) && parsed_id(payload.channel_id->0@) == Some(
                channel,
            )
            &&& next is Fail <==> (asks && access == Some(Access::Unavailable)) || (may && marked
                == Some(false))
            &&& next is Ignore <==> !asks || access == Some(Access::Denied) || (may && marked
                == Some(true) && !named)
        }),
{
}

/// What cannot be marked as read.
#[derive(Clone, Copy, Debug, PartialEq, Eq, Structural)]
pub enum MarkSubject {
    Message,
    Conversation,
    Channel,
}

/// What a user is told if marking failed.
pub open spec fn mark_failure_text_of(what: MarkSubject) -> FailureText {
    match what {
        MarkSubject::Message => FailureText {
            code: "MARK_READ_FAILED",
            message: "Nie udało się oznaczyć wiadomości jako przeczytanej. Spróbuj ponownie.",
            retryable: true,
        },
        MarkSubject::Conversation => FailureText {
            code: "MARK_READ_FAILED",
            message: "Nie udało się oznaczyć rozmowy jako przeczytanej. Spróbuj ponownie.",
            retryable: true,
        },
        MarkSubject::Channel => FailureText {
            code: "MARK_READ_FAILED",
            message: "Nie udało się oznaczyć kanału jako przeczytanego. Spróbuj ponownie.",
            retryable: true,
        },
    }
}

/// What a user is told if marking failed.
pub fn mark_failure_text(what: MarkSubject) -> (r: FailureText)
    ensures
        r == mark_failure_text_of(what),
{
    match what {
        MarkSubject::Message => FailureText {
            code: "MARK_READ_FAILED",
            message: "Nie udało się oznaczyć wiadomości jako przeczytanej. Spróbuj ponownie.",
            retryable: true,
        },
        MarkSubject::Conversation => FailureText {
            code: "MARK_READ_FAILED",
            message: "Nie udało się oznaczyć rozmowy jako przeczytanej. Spróbuj ponownie.",
            retryable: true,
        },
        MarkSubject::Channel => FailureText {
            code: "MARK_READ_FAILED",
            message: "Nie udało się oznaczyć kanału jako przeczytanego. Spróbuj ponownie.",
            retryable: true,
        },
    }
}

/// How often an unread count is taken again after marking.
pub const HEAL_TRIES: u8 = 3;

/// The course of taking an unread count again after marking.
#[derive(Clone, Copy, Debug, PartialEq, Eq, Structural)]
pub struct Heal {
    /// How many more times at the utmost.
    pub left: u8,
    /// The count that was announced last; none if none could be taken at first.
    pub announced: Option<u64>,
    /// Whether the course looks for a count that stays the same, or for zero.
    pub settling: bool,
}

/// One step of taking an unread count again.
#[derive(Clone, Copy, Debug, PartialEq, Eq, Structural)]
pub struct HealStep {
    /// The count to announce.
    pub announce: Option<u64>,
    /// Whether to let go of the generation of the count.
    pub invalidate: bool,
    /// How to go on; the end if none.
    pub next: Option<Heal>,
}

/// What follows the first count after marking: a count is announced and watched until it
/// stays the same; without one the generation is let go of and a count is looked for.
pub open spec fn heal_dm_unread_after_mark_next(first: Option<u64>) -> HealStep {
    match first {
        Some(n) => HealStep {
            announce: Some(n),
            invalidate: false,
            next: Some(Heal { left: HEAL_TRIES, announced: Some(n), settling: true }),
        },
        None => HealStep {
            announce: None,
            invalidate: true,
            next: Some(Heal { left: HEAL_TRIES, announced: None, settling: false }),
        },
    }
}

/// What follows the first count after marking: a count is announced and watched until it
/// stays the same; without one the generation is let go of and a count is looked for.
pub fn heal_dm_unread_after_mark(first: Option<u64>) -> (r: HealStep)
    ensures
        r == heal_dm_unread_after_mark_next(first),
{
    match first {
        Some(n) => HealStep {
            announce: Some(n),
            invalidate: false,
            next: Some(Heal { left: HEAL_TRIES, announced: Some(n), settling: true }),
        },
        None => HealStep {
            announce: None,
            invalidate: true,
            next: Some(Heal { left: HEAL_TRIES, announced: None, settling: false }),
        },
    }
}

/// After marking, a count that could be taken is announced at once and watched, three more times at
/// the utmost, until it stays; without one the generation is let go of and a count is looked for.
pub proof fn first_counts_are_announced(first: Option<u64>)
    ensures
        ({
            let step = heal_dm_unread_after_mark_next(first);
            &&& step.announce == first
            &&& step.invalidate <==> first is None
            &&& step.next == Some(
                Heal { left: 3, announced: first, settling: first is Some },
            )
        }),
{
}

/// How the course goes on after one more try.
pub open spec fn heal_left(h: Heal, announced: Option<u64>) -> Option<Heal> {
    if h.left <= 1 {
        None
    } else {
        Some(Heal { left: (h.left - 1) as u8, announced, settling: h.settling })
    }
}

fn heal_on(h: Heal, announced: Option<u64>) -> (r: Option<Heal>)
    ensures
        r == heal_left(h, announced),
{
    if h.left <= 1 {
        None
    } else {
        Some(Heal { left: h.left - 1, announced, settling: h.settling })
    }
}

/// What follows a further count. A settling course ends without a count or with the one
/// that was announced last; a searching one ends with zero.
pub open spec fn heal_step_next(h: Heal, count: Option<u64>) -> HealStep {
    match count {
        None => HealStep {
            announce: None,
            invalidate: false,
            next: if h.settling {
                None
            } else {
                heal_left(h, h.announced)
            },
        },
        Some(n) => if h.settling && h.announced == Some(n) {
            HealStep { announce: None, invalidate: false, next: None }
        } else {
            HealStep {
                announce: Some(n),
                invalidate: false,
                next: if !h.settling && n == 0 {
                    None
                } else {
                    heal_left(h, Some(n))
                },
            }
        },
    }
}

/// What follows a further count. A settling course ends without a count or with the one
/// that was announced last; a searching one ends with zero.
pub fn heal_step(h: Heal, count: Option<u64>) -> (r: HealStep)
    ensures
        r == heal_step_next(h, count),
{
    match count {
        None => HealStep {
            announce: None,
            invalidate: false,
            next: if h.settling {
                None
            } else {
                heal_on(h, h.announced)
            },
        },
        Some(n) => if h.settling && match h.announced {
            Some(m) => m == n,
            None => false,
        } {
            HealStep { announce: None, invalidate: false, next: None }
        } else {
            HealStep {
                announce: Some(n),
                invalidate: false,
                next: if !h.settling && n == 0 {
                    None
                } else {
                    heal_on(h, Some(n))
                },
            }
        },
    }
}

/// A further count is announced exactly if there is one and it is not the one that a settling course
/// announced last. A settling course goes on exactly if it announced a change, a searching one unless
/// it found zero, and both only while tries are left; what was announced last is remembered.
pub proof fn further_counts_are_announced(h: Heal, count: Option<u64>)
    ensures
        ({
            let step = heal_step_next(h, count);
            let goes_on = h.left > 1 && if h.settling {
                count is Some && h.announced != count
            } else {
                count != Some(0u64)
            };
            &&& step.announce == if count is Some && !(h.settling && h.announced == count) {
                count
            } else {
                None
            }
            &&& !step.invalidate
            &&& step.next is Some <==> goes_on
            &&& goes_on ==> step.next->0.left == h.left - 1 && step.next->0.settling == h.settling
                && step.next->0.announced == if count is Some {
                count
            } else {
                h.announced
            }
        }),
{
}

/// The course ends: each further step has one try less, and none follows the last.
pub proof fn healing_ends(h: Heal, count: Option<u64>)
    requires
        h.left >= 1,
    ensures
        heal_step_next(h, count).next matches Some(n) ==> n.left < h.left && n.left >= 1,
        h.left == 1 ==> heal_step_next(h, count).next is None,
{
}

/// A settling course never announces the same count twice in a row.
pub proof fn settling_announces_changes_only(h: Heal, count: Option<u64>)
    requires
        h.settling,
    ensures
        heal_step_next(h, count).announce matches Some(n) ==> h.announced != Some(n),
{
}

/// The frame that tells a sender that their message was read. The message goes by the text under
/// which the request named it.
pub open spec fn message_read_frame_of(sender: ObjectId, message_id: Seq<char>) -> FrameView {
    plain_frame(
        seq![sender.hex()],
        "message-read"@,
        seq![text_field("messageId"@, message_id), flag_field("read"@, true)],
    )
}

/// The frame that tells a sender that their message was read.
pub fn message_read_frame(sender: ObjectId, message_id: &str) -> (r: Frame)
    ensures
        r@ == message_read_frame_of(sender, message_id@),
{
    let r = empty_frame(one_text(&sender.to_hex()), "message-read").with_text(
        "messageId",
        message_id,
    ).with_flag("read", true);
    proof {
        assert(r@.fields =~= message_read_frame_of(sender, message_id@).fields);
    }
    r
}

/// The frame that tells a contact which of their messages were read, and by whom. Both go by the
/// texts under which the request named them.
pub open spec fn messages_read_frame_of(
    payload: MarkConversationReadPayload,
    ids: Seq<ObjectId>,
) -> FrameView {
    plain_frame(
        seq![text::text_or_empty(payload.contact_id)],
        "messages-read"@,
        seq![
            texts_field("messageIds"@, receipt_of(ids)),
            flag_field("read"@, true),
            text_field("readerId"@, text::text_or_empty(payload.user_id)),
            flag_field("conversationRead"@, ids.len() > MAX_EMIT_IDS),
        ],
    )
}

/// The frame that tells a contact which of their messages were read, and by whom. `ids` are those
/// that were found.
pub fn messages_read_frame(payload: &MarkConversationReadPayload, ids: &Vec<ObjectId>) -> (r: Frame)
    ensures
        r@ == messages_read_frame_of(*payload, ids@),
{
    let r = empty_frame(one_text(text::or_empty(&payload.contact_id)), "messages-read").with(
        "messageIds",
        FrameValue::Texts(read_receipt_ids(ids)),
    ).with_flag("read", true).with_text("readerId", text::or_empty(&payload.user_id)).with_flag(
        "conversationRead",
        ids.len() > MAX_EMIT_IDS,
    );
    proof {
        assert(r@.fields =~= messages_read_frame_of(*payload, ids@).fields);
    }
    r
}

/// A contact is told of the conversation, without naming messages, exactly when there are more
/// than can be named; else each message that was found is named.
pub proof fn receipts_name_messages_or_the_conversation(
    connected: Seq<char>,
    payload: MarkConversationReadPayload,
    facts: MarkConversationFacts,
    ids: Seq<ObjectId>,
)
    requires
        facts.unread == Some(Unread::Count(ids.len() as usize)),
        ids.len() <= usize::MAX,
    ensures
        match handle_mark_conversation_read_next(connected, payload, facts) {
            MarkConversationNext::TellContact { conversation_read, .. } => {
                let f = messages_read_frame_of(payload, ids);
                &&& f.to == seq![payload.contact_id->0@]
                &&& f.fields[3] == flag_field("conversationRead"@, conversation_read)
                &&& f.fields[2] == text_field("readerId"@, connected)
                &&& f.fields[0] == texts_field(
                    "messageIds"@,
                    if conversation_read {
                        Seq::empty()
                    } else {
                        hex_all(ids)
                    },
                )
            },
            _ => true,
        },
{
}

/// A failure to mark says what could not be marked, under one code, and may be tried again.
pub proof fn failed_marks_may_be_tried_again(what: MarkSubject, other: MarkSubject)
    ensures
        mark_failure_text_of(what).code == "MARK_READ_FAILED",
        mark_failure_text_of(what).retryable,
        what == MarkSubject::Message ==> mark_failure_text_of(what).message
            == "Nie udało się oznaczyć wiadomości jako przeczytanej. Spróbuj ponownie.",
        what == MarkSubject::Conversation ==> mark_failure_text_of(what).message
            == "Nie udało się oznaczyć rozmowy jako przeczytanej. Spróbuj ponownie.",
        what == MarkSubject::Channel ==> mark_failure_text_of(what).message
            == "Nie udało się oznaczyć kanału jako przeczytanego. Spróbuj ponownie.",
{
}

/// A receipt names each message that was read, up to 500 of them, and none if there are more.
pub proof fn receipts_name_each_message(ids: Seq<ObjectId>, i: int)
    ensures
        ids.len() <= 500 ==> receipt_of(ids).len() == ids.len(),
        ids.len() <= 500 && 0 <= i < ids.len() ==> receipt_of(ids)[i] == ids[i].hex(),
        ids.len() > 500 ==> receipt_of(ids).len() == 0,
{
}

/// A sender is told which message was read.
pub proof fn senders_are_told_what_was_read(sender: ObjectId, message_id: Seq<char>)
    ensures
        ({
            let f = message_read_frame_of(sender, message_id);
            &&& f.to == seq![sender.hex()] && f.event == "message-read"@ && !f.message
            &&& f.fields == seq![text_field("messageId"@, message_id), flag_field("read"@, true)]
        }),
{
}

/// A contact is told who read their messages and which.
pub proof fn contacts_are_told_who_read(payload: MarkConversationReadPayload, ids: Seq<ObjectId>)
    requires
        payload.contact_id is Some,
        payload.user_id is Some,
    ensures
        ({
            let f = messages_read_frame_of(payload, ids);
            &&& f.to == seq![payload.contact_id->0@] && f.event == "messages-read"@ && !f.message
            &&& f.fields.len() == 4
            &&& f.fields[0] == texts_field("messageIds"@, receipt_of(ids))
            &&& f.fields[1] == flag_field("read"@, true)
            &&& f.fields[2] == text_field("readerId"@, payload.user_id->0@)
            &&& f.fields[3] == flag_field("conversationRead"@, ids.len() > 500)
        }),
{
}

/// At most 500 messages are named at once, and a count is mended three times.
pub proof fn reading_has_limits()
    ensures
        MAX_EMIT_IDS == 500,
        HEAL_TRIES == 3,
{
}

/// Whoever fails to mark something as read is told what in these words.
pub proof fn mark_failure_text_is_worded(what: MarkSubject)
    ensures
        what is Message ==> mark_failure_text_of(what).message == "Nie udało się oznaczyć wiadomości jako przeczytanej. Spróbuj ponownie.",
        what is Conversation ==> mark_failure_text_of(what).message == "Nie udało się oznaczyć rozmowy jako przeczytanej. Spróbuj ponownie.",
        what is Channel ==> mark_failure_text_of(what).message == "Nie udało się oznaczyć kanału jako przeczytanego. Spróbuj ponownie.",
{
}

} // verus!
