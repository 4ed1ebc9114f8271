//! Sending a message to a channel and telling its members.
use vstd::prelude::*;
use crate::ids::{hex_identifies, parsed_id, ObjectId};
use crate::lists::{all_but, contains_id, copy_ids, distinct, distinct_ids,
    distinct_keeps_each_once, filter_ends, filter_keeps_what_fits, filter_step, hex_all, hex_ids, ids_but, ids_with, other_than,
    texts, with_id};
use crate::model::users::User;
use crate::text;
use crate::ws::direct::{is_connected_user, speaks_for, QuoteAnswer};
use crate::ws::events::{clean_nonce_field, clean_nonce_view, Refusal, RefusalText};
use crate::ws::frames::{emit_mention, maybe_field, mention_frame_of, refusal_frame, refusal_frame_of, shown_frame,
    text_field, Frame, FrameFieldView, FrameValue, FrameValueView, FrameView, MentionNews, MentionView};
use crate::ws::message::{mention_preview_of, CreateMessageInput, CreateMessageView, Creation, MessageType,
    ScanStatus};

verus! {

/// A channel, as far as handing out a message depends on it.
pub struct Channel {
    pub name: String,
    pub members: Vec<ObjectId>,
    pub admin: ObjectId,
}

/// The people of a channel: its members in order, and its admin if they are not among them.
pub open spec fn recipients_of(members: Seq<ObjectId>, admin: ObjectId) -> Seq<ObjectId> {
    with_id(members, admin)
}

/// The people of a channel.
pub fn channel_recipients(channel: &Channel) -> (r: Vec<ObjectId>)
    ensures
        r@ == recipients_of(channel.members@, channel.admin),
{
    ids_with(&channel.members, channel.admin)
}

/// The people of a channel, as texts.
pub fn channel_recipient_ids(channel: &Channel) -> (r: Vec<String>)
    ensures
        texts(r@) == hex_all(recipients_of(channel.members@, channel.admin)),
{
    hex_ids(&channel_recipients(channel))
}

/// The admin of a channel and each of its members are among its people, and nobody else is.
pub proof fn recipients_are_members_and_admin(members: Seq<ObjectId>, admin: ObjectId)
    ensures
        recipients_of(members, admin).contains(admin),
        forall|x: ObjectId|
            recipients_of(members, admin).contains(x) <==> members.contains(x) || x == admin,
{
    let r = recipients_of(members, admin);
    if !members.contains(admin) {
        assert(r[members.len() as int] == admin);
    }
    assert forall|x: ObjectId| r.contains(x) <==> members.contains(x) || x == admin by {
        if members.contains(x) {
            let i = choose|i: int| 0 <= i < members.len() && members[i] == x;
            assert(r[i] == x);
        }
        if r.contains(x) && x != admin {
            let i = choose|i: int| 0 <= i < r.len() && r[i] == x;
            assert(members[i] == x);
        }
    }
}

/// A request to send a message to a channel.
pub struct ChannelMessagePayload {
    pub channel_id: String,
    pub sender: String,
    pub content: Option<String>,
    pub message_type: Option<String>,
    pub file_url: Option<String>,
    pub file_type: Option<String>,
    pub file_size: Option<u64>,
    pub file_name: Option<String>,
    pub duration_ms: Option<u32>,
    pub quoted_message: Option<String>,
    pub client_nonce: Option<String>,
}

/// Whether the sender may write to the channel.
#[derive(Clone, Copy, Debug, PartialEq, Eq, Structural)]
pub enum ChannelAccess {
    Denied,
    /// `locked`: the chat is closed for this sender.
    Granted { locked: bool },
}

/// Whether the slow mode of a channel lets the sender write now.
#[derive(Clone, Copy, Debug, PartialEq, Eq, Structural)]
pub enum Slowmode {
    Clear,
    /// Not before this many seconds have passed.
    Wait(u64),
}

/// What is known so far about a channel message to be sent.
#[derive(Clone, Copy, Debug)]
pub struct ChannelMessageFacts {
    pub access: Option<ChannelAccess>,
    pub slowmode: Option<Slowmode>,
    pub attachment_ok: Option<bool>,
    pub quote: Option<QuoteAnswer>,
    pub broadcast: Option<Creation>,
}

/// Why a channel message is refused.
#[derive(Clone, Copy, Debug, PartialEq, Eq, Structural)]
pub enum ChannelRefusal {
    /// The access check denied it; it gives the text.
    Forbidden,
    ChatLocked,
    Slowmode { retry_after: u64 },
    InvalidFile,
    QuoteFailed,
    NonceConflict,
    CreateFailed,
}

/// What to do next about a channel message.
#[derive(Clone, Copy, Debug, PartialEq, Eq, Structural)]
pub enum ChannelMessageNext {
    Ignore,
    RequireAccess,
    CheckSlowmode,
    ValidateAttachment,
    CheckQuote,
    Broadcast { channel: ObjectId, sender: ObjectId, quoted: Option<ObjectId> },
    Refuse(ChannelRefusal),
    /// The message is out; the slow mode starts to count.
    RecordSlowmode,
    Done,
}

/// What to do next about a request to send a message to a channel.
pub open spec fn handle_send_channel_message_next(connected: Seq<char>, payload: ChannelMessagePayload, facts: ChannelMessageFacts) -> ChannelMessageNext {
    if !speaks_for(connected, payload.sender@)
        || payload.channel_id@.len() == 0 {
        ChannelMessageNext::Ignore
    } else {
        match (facts.access, facts.slowmode) {
            (None, _) => ChannelMessageNext::RequireAccess,
            (Some(ChannelAccess::Denied), _) => ChannelMessageNext::Refuse(
                ChannelRefusal::Forbidden,
            ),
            (Some(ChannelAccess::Granted { locked: true }), _) => ChannelMessageNext::Refuse(
                ChannelRefusal::ChatLocked,
            ),
            (Some(ChannelAccess::Granted { locked: false }), None) =>
                ChannelMessageNext::CheckSlowmode,
            (Some(ChannelAccess::Granted { locked: false }), Some(Slowmode::Wait(retry_after))) =>
                ChannelMessageNext::Refuse(ChannelRefusal::Slowmode { retry_after }),
            (Some(ChannelAccess::Granted { locked: false }), Some(Slowmode::Clear)) =>
                channel_write_allowed_next(payload, facts),
        }
    }
}

/// What to do next about a request to send a message to a channel.
pub fn handle_send_channel_message(connected: &str, payload: &ChannelMessagePayload, facts: &ChannelMessageFacts) -> (r: ChannelMessageNext)
    ensures
        r == handle_send_channel_message_next(connected@, *payload, *facts),
{
    if !is_connected_user(connected, &payload.sender)
        || payload.channel_id.as_str().is_empty() {
        ChannelMessageNext::Ignore
    } else {
        match (facts.access, facts.slowmode) {
            (None, _) => ChannelMessageNext::RequireAccess,
            (Some(ChannelAccess::Denied), _) => ChannelMessageNext::Refuse(
                ChannelRefusal::Forbidden,
            ),
            (Some(ChannelAccess::Granted { locked: true }), _) => ChannelMessageNext::Refuse(
                ChannelRefusal::ChatLocked,
            ),
            (Some(ChannelAccess::Granted { locked: false }), None) =>
                ChannelMessageNext::CheckSlowmode,
            (Some(ChannelAccess::Granted { locked: false }), Some(Slowmode::Wait(retry_after))) =>
                ChannelMessageNext::Refuse(ChannelRefusal::Slowmode { retry_after }),
            (Some(ChannelAccess::Granted { locked: false }), Some(Slowmode::Clear)) =>
                channel_write_allowed(payload, facts),
        }
    }
}

/// What to do next once the sender may write to the channel now.
pub open spec fn channel_write_allowed_next(payload: ChannelMessagePayload, facts: ChannelMessageFacts) -> ChannelMessageNext {
    match (facts.attachment_ok, parsed_id(payload.channel_id@)) {
        (None, _) => ChannelMessageNext::ValidateAttachment,
        (Some(false), _) => ChannelMessageNext::Refuse(ChannelRefusal::InvalidFile),
        (Some(true), None) => ChannelMessageNext::Ignore,
        (Some(true), Some(channel)) => {
            let quote = if payload.quoted_message is Some {
                facts.quote
            } else {
                Some(QuoteAnswer::Found(None))
            };
            match (quote, parsed_id(payload.sender@)) {
                (None, _) => ChannelMessageNext::CheckQuote,
                (Some(QuoteAnswer::Failed), _) => ChannelMessageNext::Refuse(
                    ChannelRefusal::QuoteFailed,
                ),
                (Some(QuoteAnswer::Found(_)), None) => ChannelMessageNext::Ignore,
                (Some(QuoteAnswer::Found(quoted)), Some(sender)) => match facts.broadcast {
                    None => ChannelMessageNext::Broadcast { channel, sender, quoted },
                    Some(Creation::Created) => ChannelMessageNext::RecordSlowmode,
                    Some(Creation::Replay) => ChannelMessageNext::Done,
                    Some(Creation::NonceConflict) => ChannelMessageNext::Refuse(
                        ChannelRefusal::NonceConflict,
                    ),
                    Some(Creation::Failed) => ChannelMessageNext::Refuse(
                        ChannelRefusal::CreateFailed,
                    ),
                },
            }
        },
    }
}

/// What to do next once the sender may write to the channel now.
pub fn channel_write_allowed(payload: &ChannelMessagePayload, facts: &ChannelMessageFacts) -> (r: ChannelMessageNext)
    ensures
        r == channel_write_allowed_next(*payload, *facts),
{
    match (facts.attachment_ok, ObjectId::parse_str(&payload.channel_id)) {
        (None, _) => ChannelMessageNext::ValidateAttachment,
        (Some(false), _) => ChannelMessageNext::Refuse(ChannelRefusal::InvalidFile),
        (Some(true), None) => ChannelMessageNext::Ignore,
        (Some(true), Some(channel)) => {
            let quote = if payload.quoted_message.is_some() {
                facts.quote
            } else {
                Some(QuoteAnswer::Found(None))
            };
            match (quote, ObjectId::parse_str(&payload.sender)) {
                (None, _) => ChannelMessageNext::CheckQuote,
                (Some(QuoteAnswer::Failed), _) => ChannelMessageNext::Refuse(
                    ChannelRefusal::QuoteFailed,
                ),
                (Some(QuoteAnswer::Found(_)), None) => ChannelMessageNext::Ignore,
                (Some(QuoteAnswer::Found(quoted)), Some(sender)) => match facts.broadcast {
                    None => ChannelMessageNext::Broadcast { channel, sender, quoted },
                    Some(Creation::Created) => ChannelMessageNext::RecordSlowmode,
                    Some(Creation::Replay) => ChannelMessageNext::Done,
                    Some(Creation::NonceConflict) => ChannelMessageNext::Refuse(
                        ChannelRefusal::NonceConflict,
                    ),
                    Some(Creation::Failed) => ChannelMessageNext::Refuse(
                        ChannelRefusal::CreateFailed,
                    ),
                },
            }
        },
    }
}

/// Whether somebody asks for themselves to write in some channel.
pub open spec fn asks_to_write(connected: Seq<char>, payload: ChannelMessagePayload) -> bool {
    connected.len() > 0 && connected == payload.sender@ && payload.channel_id@.len() > 0
}

/// Whether a sender may write in a channel now: they have access, the chat is not locked, and slow
/// mode does not hold them back.
pub open spec fn may_write_now(facts: ChannelMessageFacts) -> bool {
    facts.access == Some(ChannelAccess::Granted { locked: false }) && facts.slowmode == Some(
        Slowmode::Clear,
    )
}

/// Whether the quote of a channel message is settled, and as what.
pub open spec fn quotes_in_channel(
    payload: ChannelMessagePayload,
    facts: ChannelMessageFacts,
    quoted: Option<ObjectId>,
) -> bool {
    if payload.quoted_message is None {
        quoted is None
    } else {
        facts.quote == Some(QuoteAnswer::Found(quoted))
    }
}

/// A channel message goes out if and only if its sender speaks for themselves and may write now,
/// the attachment is in order, the quote is settled, and channel and sender are known by
/// identifiers; and it goes out into that channel, from that sender, with exactly the quote that
/// was found.
pub proof fn allowed_channel_messages_go_out(
    connected: Seq<char>,
    payload: ChannelMessagePayload,
    facts: ChannelMessageFacts,
    channel: ObjectId,
    sender: ObjectId,
    quoted: Option<ObjectId>,
)
    ensures
        handle_send_channel_message_next(connected, payload, facts) == (
        ChannelMessageNext::Broadcast { channel, sender, quoted }) <==> {
            &&& asks_to_write(connected, payload)
            &&& may_write_now(facts)
            &&& facts.attachment_ok == Some(true)
            &&& quotes_in_channel(payload, facts, quoted)
            &&& parsed_id(payload.channel_id@) == Some(channel)
            &&& parsed_id(connected) == Some(sender)
            &&& facts.broadcast is None
        },
{
}

/// Each refusal of a channel message comes for its own reason and no other, and a message that is
/// out starts slow mode exactly if it is new.
pub proof fn channel_messages_are_refused_for_a_reason(
    connected: Seq<char>,
    payload: ChannelMessagePayload,
    facts: ChannelMessageFacts,
    retry_after: u64,
)
    requires
        asks_to_write(connected, payload),
    ensures
        ({
            let next = handle_send_channel_message_next(connected, payload, facts);
            let open = facts.access == Some(ChannelAccess::Granted { locked: false });
            let file_ok = may_write_now(facts) && facts.attachment_ok == Some(true);
            let placed = file_ok && parsed_id(payload.channel_id@) is Some;
            let quote_ok = placed && exists|q: Option<ObjectId>| #[trigger]
                quotes_in_channel(payload, facts, q);
            let ready = quote_ok && parsed_id(connected) is Some;
            &&& next is RequireAccess <==> facts.access is None
            &&& next == ChannelMessageNext::Refuse(ChannelRefusal::Forbidden) <==> facts.access
                == Some(ChannelAccess::Denied)
            &&& next == ChannelMessageNext::Refuse(ChannelRefusal::ChatLocked) <==> facts.access
                == Some(ChannelAccess::Granted { locked: true })
            &&& next is CheckSlowmode <==> open && facts.slowmode is None
            &&& next == ChannelMessageNext::Refuse(ChannelRefusal::Slowmode { retry_after })
                <==> open && facts.slowmode == Some(Slowmode::Wait(retry_after))
            &&& next is ValidateAttachment <==> may_write_now(facts) && facts.attachment_ok is None
            &&& next == ChannelMessageNext::Refuse(ChannelRefusal::InvalidFile) <==> may_write_now(
                facts,
            ) && facts.attachment_ok == Some(false)
            &&& next is CheckQuote <==> placed && payload.quoted_message is Some && facts.quote
                is None
            &&& next == ChannelMessageNext::Refuse(ChannelRefusal::QuoteFailed) <==> placed
                && payload.quoted_message is Some && facts.quote == Some(QuoteAnswer::Failed)
            &&& next is Ignore <==> (file_ok && !placed) || (quote_ok && !ready)
            &&& next is RecordSlowmode <==> ready && facts.broadcast == Some(Creation::Created)
            &&& next is Done <==> ready && facts.broadcast == Some(Creation::Replay)
            &&& next == ChannelMessageNext::Refuse(ChannelRefusal::NonceConflict) <==> ready
                && facts.broadcast == Some(Creation::NonceConflict)
            &&& next == ChannelMessageNext::Refuse(ChannelRefusal::CreateFailed) <==> ready
                && facts.broadcast == Some(Creation::Failed)
        }),
{
    assert(payload.quoted_message is None ==> quotes_in_channel(payload, facts, None));
    if let Some(QuoteAnswer::Found(q)) = facts.quote {
        assert(payload.quoted_message is Some ==> quotes_in_channel(payload, facts, q));
    }
}

/// A request of somebody who does not speak for themselves, or that names no channel, is dropped,
/// whatever is known.
pub proof fn others_write_nothing(
    connected: Seq<char>,
    payload: ChannelMessagePayload,
    facts: ChannelMessageFacts,
)
    requires
        !asks_to_write(connected, payload),
    ensures
        handle_send_channel_message_next(connected, payload, facts) is Ignore,
{
}

/// A channel message goes out only for a sender who speaks for themselves, has access to an
/// unlocked chat, is not held back by slow mode and has a valid attachment.
pub proof fn only_allowed_channel_messages_go_out(
    connected: Seq<char>,
    payload: ChannelMessagePayload,
    facts: ChannelMessageFacts,
)
    ensures
        match handle_send_channel_message_next(connected, payload, facts) {
            ChannelMessageNext::Broadcast { channel, sender, .. } => {
                &&& connected == payload.sender@
                &&& parsed_id(connected) == Some(sender)
                &&& parsed_id(payload.channel_id@) == Some(channel)
                &&& facts.access == Some(ChannelAccess::Granted { locked: false })
                &&& facts.slowmode == Some(Slowmode::Clear)
                &&& facts.attachment_ok == Some(true)
            },
            _ => true,
        },
{
}

/// Slow mode counts only messages that are new: a replay does not start it anew.
pub proof fn slowmode_counts_new_messages_only(
    connected: Seq<char>,
    payload: ChannelMessagePayload,
    facts: ChannelMessageFacts,
)
    ensures
        handle_send_channel_message_next(connected, payload, facts) is RecordSlowmode
            ==> facts.broadcast == Some(Creation::Created),
{
}

/// What a refused sender is told; `reason` is the text of the access check.
pub open spec fn channel_refusal_text_of(why: ChannelRefusal, reason: &'static str) -> RefusalText {
    match why {
        ChannelRefusal::Forbidden => RefusalText {
            event: "error",
            code: "FORBIDDEN",
            message: reason,
        },
        ChannelRefusal::ChatLocked => RefusalText {
            event: "error",
            code: "CHAT_LOCKED",
            message: "Czat na tym kanale jest zablokowany.",
        },
        ChannelRefusal::Slowmode { .. } => RefusalText {
            event: "error",
            code: "SLOWMODE",
            message: "Slowmode is enabled for this channel.",
        },
        ChannelRefusal::InvalidFile => RefusalText {
            event: "error",
            code: "INVALID_FILE",
            message: "Nie udało się wysłać załącznika. Spróbuj ponownie.",
        },
        ChannelRefusal::QuoteFailed => RefusalText {
            event: "error",
            code: "SEND_FAILED",
            message: "Nie udało się wysłać wiadomości. Spróbuj ponownie.",
        },
        ChannelRefusal::NonceConflict => RefusalText {
            event: "error",
            code: "NONCE_CONFLICT",
            message: "Message nonce conflict. Retry with a new nonce.",
        },
        ChannelRefusal::CreateFailed => RefusalText {
            event: "error",
            code: "SEND_FAILED",
            message: "Failed to send message.",
        },
    }
}

/// What a refused sender is told; `reason` is the text of the access check.
pub fn channel_refusal_text(why: ChannelRefusal, reason: &'static str) -> (r: RefusalText)
    ensures
        r == channel_refusal_text_of(why, reason),
{
    match why {
        ChannelRefusal::Forbidden => RefusalText {
            event: "error",
            code: "FORBIDDEN",
            message: reason,
        },
        ChannelRefusal::ChatLocked => RefusalText {
            event: "error",
            code: "CHAT_LOCKED",
            message: "Czat na tym kanale jest zablokowany.",
        },
        ChannelRefusal::Slowmode { .. } => RefusalText {
            event: "error",
            code: "SLOWMODE",
            message: "Slowmode is enabled for this channel.",
        },
        ChannelRefusal::InvalidFile => RefusalText {
            event: "error",
            code: "INVALID_FILE",
            message: "Nie udało się wysłać załącznika. Spróbuj ponownie.",
        },
        ChannelRefusal::QuoteFailed => RefusalText {
            event: "error",
            code: "SEND_FAILED",
            message: "Nie udało się wysłać wiadomości. Spróbuj ponownie.",
        },
        ChannelRefusal::NonceConflict => RefusalText {
            event: "error",
            code: "NONCE_CONFLICT",
            message: "Message nonce conflict. Retry with a new nonce.",
        },
        ChannelRefusal::CreateFailed => RefusalText {
            event: "error",
            code: "SEND_FAILED",
            message: "Failed to send message.",
        },
    }
}

/// The answer to a refused sender, with the cleaned nonce.
pub fn channel_refusal(
    why: ChannelRefusal,
    reason: &'static str,
    client_nonce: &Option<String>,
) -> (r: Refusal)
    ensures
        r.text == channel_refusal_text_of(why, reason),
        r.client_nonce@ == clean_nonce_view(text::opt_text(*client_nonce)),
{
    Refusal {
        text: channel_refusal_text(why, reason),
        client_nonce: clean_nonce_field(client_nonce),
    }
}

/// A message for a channel.
pub struct ChannelBroadcastInput {
    pub channel: Channel,
    pub channel_oid: ObjectId,
    pub sender: ObjectId,
    pub content: String,
    pub message_type: MessageType,
    pub file_url: Option<String>,
    pub file_type: Option<String>,
    pub file_size: Option<u64>,
    pub file_name: Option<String>,
    pub duration_ms: Option<u32>,
    pub quoted_message: Option<ObjectId>,
    pub client_nonce: Option<String>,
}

/// How a channel message went out.
#[derive(Clone, Copy, Debug, PartialEq, Eq, Structural)]
pub enum ChannelBroadcastOutcome {
    Created,
    IdempotentReplay,
}

/// What to do next about a message for a channel.
#[derive(Clone, Copy, Debug, PartialEq, Eq, Structural)]
pub enum BroadcastNext {
    ResolveMentions,
    Create,
    /// Give up: the mentions could not be looked up.
    FailMentions,
    /// Give up with what the store said.
    FailCreate(Creation),
    /// Hand the message out, in the frame that [`hand_out`] gives.
    HandOut(ChannelBroadcastOutcome),
}

/// What to do next about a message for a channel: look up its mentions, store it, hand it
/// out.
pub open spec fn create_and_broadcast_channel_message_next(mentions_ok: Option<bool>, creation: Option<Creation>) -> BroadcastNext {
    match (mentions_ok, creation) {
        (None, _) => BroadcastNext::ResolveMentions,
        (Some(false), _) => BroadcastNext::FailMentions,
        (Some(true), None) => BroadcastNext::Create,
        (Some(true), Some(Creation::Created)) => BroadcastNext::HandOut(
            ChannelBroadcastOutcome::Created,
        ),
        (Some(true), Some(Creation::Replay)) => BroadcastNext::HandOut(
            ChannelBroadcastOutcome::IdempotentReplay,
        ),
        (Some(true), Some(Creation::NonceConflict)) => BroadcastNext::FailCreate(
            Creation::NonceConflict,
        ),
        (Some(true), Some(Creation::Failed)) => BroadcastNext::FailCreate(Creation::Failed),
    }
}

/// What to do next about a message for a channel: look up its mentions, store it, hand it
/// out.
pub fn create_and_broadcast_channel_message(mentions_ok: Option<bool>, creation: Option<Creation>) -> (r: BroadcastNext)
    ensures
        r == create_and_broadcast_channel_message_next(mentions_ok, creation),
{
    match (mentions_ok, creation) {
        (None, _) => BroadcastNext::ResolveMentions,
        (Some(false), _) => BroadcastNext::FailMentions,
        (Some(true), None) => BroadcastNext::Create,
        (Some(true), Some(Creation::Created)) => BroadcastNext::HandOut(
            ChannelBroadcastOutcome::Created,
        ),
        (Some(true), Some(Creation::Replay)) => BroadcastNext::HandOut(
            ChannelBroadcastOutcome::IdempotentReplay,
        ),
        (Some(true), Some(Creation::NonceConflict)) => BroadcastNext::FailCreate(
            Creation::NonceConflict,
        ),
        (Some(true), Some(Creation::Failed)) => BroadcastNext::FailCreate(Creation::Failed),
    }
}

/// A message for a channel is stored once its mentions are known, and handed out exactly if it was
/// stored, now or before; a store that refuses it gives its own reason, and without mentions
/// nothing is stored.
pub proof fn stored_channel_messages_are_handed_out(
    mentions_ok: Option<bool>,
    creation: Option<Creation>,
    c: Creation,
)
    ensures
        ({
            let next = create_and_broadcast_channel_message_next(mentions_ok, creation);
            let known = mentions_ok == Some(true);
            &&& next is ResolveMentions <==> mentions_ok is None
            &&& next is FailMentions <==> mentions_ok == Some(false)
            &&& next is Create <==> known && creation is None
            &&& next == BroadcastNext::HandOut(ChannelBroadcastOutcome::Created) <==> known
                && creation == Some(Creation::Created)
            &&& next == BroadcastNext::HandOut(ChannelBroadcastOutcome::IdempotentReplay) <==> known
                && creation == Some(Creation::Replay)
            &&& next == BroadcastNext::FailCreate(c) <==> known && creation == Some(c) && (c
                == Creation::NonceConflict || c == Creation::Failed)
        }),
{
}

/// The people whose names a channel message may mention: the members and then the admin.
pub open spec fn mentionable(members: Seq<ObjectId>, admin: ObjectId) -> Seq<ObjectId> {
    members.push(admin)
}

/// The people whose names a channel message may mention.
pub fn mentionable_ids(channel: &Channel) -> (r: Vec<ObjectId>)
    ensures
        r@ == mentionable(channel.members@, channel.admin),
{
    let mut ids = copy_ids(&channel.members);
    ids.push(channel.admin);
    ids
}

/// The message to be stored. `content` is the cleaned content, the last arguments are what
/// the lookups gave.
pub fn channel_message_input(
    input: &ChannelBroadcastInput,
    content: String,
    scan_status: ScanStatus,
    mentions: Vec<ObjectId>,
    mentions_everyone: bool,
) -> (r: CreateMessageInput)
    ensures
        r@ == (CreateMessageView {
            sender: input.sender,
            recipient: None,
            channel: Some(input.channel_oid),
            content: content@,
            message_type: input.message_type,
            file_url: text::opt_text(input.file_url),
            file_type: text::opt_text(input.file_type),
            file_size: input.file_size,
            file_name: text::opt_text(input.file_name),
            scan_status,
            duration_ms: input.duration_ms,
            quoted_message: input.quoted_message,
            mentions: Some(mentions@),
            mentions_everyone: Some(mentions_everyone),
            client_nonce: text::opt_text(input.client_nonce),
            read: None,
        }),
{
    CreateMessageInput {
        sender: input.sender,
        recipient: None,
        channel: Some(input.channel_oid),
        content,
        message_type: input.message_type,
        file_url: text::copy_opt(&input.file_url),
        file_type: text::copy_opt(&input.file_type),
        file_size: input.file_size,
        file_name: text::copy_opt(&input.file_name),
        scan_status,
        duration_ms: input.duration_ms,
        quoted_message: input.quoted_message,
        mentions: Some(mentions),
        mentions_everyone: Some(mentions_everyone),
        client_nonce: text::copy_opt(&input.client_nonce),
        read: None,
    }
}

/// The people that a channel message is sent to: each member and the admin, once.
pub open spec fn broadcast_to(members: Seq<ObjectId>, admin: ObjectId) -> Seq<ObjectId> {
    distinct(mentionable(members, admin))
}

/// The people for whom a channel message counts as unread: all but its sender.
pub open spec fn unread_for(
    members: Seq<ObjectId>,
    admin: ObjectId,
    sender: ObjectId,
) -> Seq<ObjectId> {
    all_but(broadcast_to(members, admin), sender)
}

/// The people that a channel message is sent to.
pub fn broadcast_recipients(channel: &Channel) -> (r: Vec<ObjectId>)
    ensures
        r@ == broadcast_to(channel.members@, channel.admin),
{
    distinct_ids(&mentionable_ids(channel))
}

/// The people for whom a channel message counts as unread.
pub fn unread_targets(channel: &Channel, sender: ObjectId) -> (r: Vec<ObjectId>)
    ensures
        r@ == unread_for(channel.members@, channel.admin, sender),
        r@.no_duplicates(),
{
    proof {
        everyone_is_told_once(channel.members@, channel.admin, sender);
    }
    ids_but(&broadcast_recipients(channel), sender)
}

/// Each member and the admin gets a channel message exactly once, nobody else does, and it
/// counts as unread for exactly those of them who did not send it.
pub proof fn everyone_is_told_once(members: Seq<ObjectId>, admin: ObjectId, sender: ObjectId)
    ensures
        broadcast_to(members, admin).no_duplicates(),
        forall|x: ObjectId|
            broadcast_to(members, admin).contains(x) <==> members.contains(x) || x == admin,
        unread_for(members, admin, sender).no_duplicates(),
        forall|x: ObjectId|
            unread_for(members, admin, sender).contains(x) <==> (members.contains(x) || x == admin)
                && x != sender,
{
    let all = mentionable(members, admin);
    let to = broadcast_to(members, admin);
    distinct_keeps_each_once(all);
    assert forall|x: ObjectId| all.contains(x) <==> members.contains(x) || x == admin by {
        if members.contains(x) {
            let i = choose|i: int| 0 <= i < members.len() && members[i] == x;
            assert(all[i] == x);
        }
        assert(all[members.len() as int] == admin);
        if all.contains(x) && x != admin {
            let i = choose|i: int| 0 <= i < all.len() && all[i] == x;
            assert(members[i] == x);
        }
    }
    filter_keeps_what_fits(to, other_than(sender));
}

/// A member whose unread count is to be raised, with the generation that the count had
/// before the message and the one that it has now.
#[derive(Clone, Copy, Debug, PartialEq, Eq, Structural)]
pub struct UnreadTarget {
    pub id: ObjectId,
    pub before: u64,
    pub now: u64,
}

/// Whether nobody changed the count in between.
pub open spec fn undisturbed(t: UnreadTarget) -> bool {
    t.before == t.now
}

/// Having a count that nobody changed in between.
pub open spec fn same_generation() -> spec_fn(UnreadTarget) -> bool {
    |t: UnreadTarget| undisturbed(t)
}

/// Having a count that somebody changed in between.
pub open spec fn other_generation() -> spec_fn(UnreadTarget) -> bool {
    |t: UnreadTarget| !undisturbed(t)
}

/// The members whose count nobody changed in between.
pub open spec fn undisturbed_in(s: Seq<UnreadTarget>) -> Seq<UnreadTarget> {
    s.filter(same_generation())
}

/// The members whose count somebody changed in between.
pub open spec fn disturbed_in(s: Seq<UnreadTarget>) -> Seq<UnreadTarget> {
    s.filter(other_generation())
}

/// Parts the members whose count may be raised from those whose count is taken anew.
pub fn split_by_generation(v: &Vec<UnreadTarget>) -> (r: (Vec<UnreadTarget>, Vec<UnreadTarget>))
    ensures
        r.0@ == undisturbed_in(v@),
        r.1@ == disturbed_in(v@),
{
    let ghost p = same_generation();
    let ghost q = other_generation();
    let mut same: Vec<UnreadTarget> = Vec::new();
    let mut moved: Vec<UnreadTarget> = Vec::new();
    let mut i: usize = 0;
    proof {
        filter_ends(v@, p);
        filter_ends(v@, q);
    }
    while i < v.len()
        invariant
            i <= v.len(),
            p == same_generation(),
            q == other_generation(),
            same@ == v@.take(i as int).filter(p),
            moved@ == v@.take(i as int).filter(q),
        decreases v.len() - i,
    {
        proof {
            filter_step(v@, p, i as int);
            filter_step(v@, q, i as int);
        }
        let t = v[i];
        if t.before == t.now {
            same.push(t);
        } else {
            moved.push(t);
        }
        i = i + 1;
    }
    proof {
        filter_ends(v@, p);
        filter_ends(v@, q);
    }
    (same, moved)
}

/// Not having muted the channel, and being mentioned, alone or with everyone.
pub open spec fn mention_reaches(
    muted: Seq<ObjectId>,
    mentioned: Seq<ObjectId>,
    everyone: bool,
) -> spec_fn(ObjectId) -> bool {
    |x: ObjectId| !muted.contains(x) && (everyone || mentioned.contains(x))
}

/// Who is told of a mention: those for whom the message counts as unread, who have not muted
/// the channel and are mentioned, alone or with everyone. Without the list of who muted the
/// channel nobody is told.
pub open spec fn told_of_mention(
    targets: Seq<ObjectId>,
    muted: Option<Seq<ObjectId>>,
    mentioned: Seq<ObjectId>,
    everyone: bool,
) -> Seq<ObjectId> {
    match muted {
        Some(m) => targets.filter(mention_reaches(m, mentioned, everyone)),
        None => Seq::empty(),
    }
}

/// Who is told of a mention.
pub fn mention_targets(
    targets: &Vec<ObjectId>,
    muted: &Option<Vec<ObjectId>>,
    mentioned: &Vec<ObjectId>,
    everyone: bool,
) -> (r: Vec<ObjectId>)
    ensures
        r@ == told_of_mention(
            targets@,
            match *muted {
                Some(m) => Some(m@),
                None => None,
            },
            mentioned@,
            everyone,
        ),
{
    let mut out: Vec<ObjectId> = Vec::new();
    match muted {
        Some(m) => {
            let ghost p = mention_reaches(m@, mentioned@, everyone);
            let mut i: usize = 0;
            proof {
                filter_ends(targets@, p);
            }
            while i < targets.len()
                invariant
                    i <= targets.len(),
                    p == mention_reaches(m@, mentioned@, everyone),
                    out@ == targets@.take(i as int).filter(p),
                decreases targets.len() - i,
            {
                proof {
                    filter_step(targets@, p, i as int);
                }
                let id = targets[i];
                if !contains_id(m, id) && (everyone || contains_id(mentioned, id)) {
                    out.push(id);
                }
                i = i + 1;
            }
            proof {
                filter_ends(targets@, p);
            }
            out
        },
        None => out,
    }
}

/// Nobody who muted the channel is told of a mention, nor is the sender.
pub proof fn muted_and_sender_are_not_told(
    members: Seq<ObjectId>,
    admin: ObjectId,
    sender: ObjectId,
    muted: Seq<ObjectId>,
    mentioned: Seq<ObjectId>,
    everyone: bool,
    x: ObjectId,
)
    ensures
        told_of_mention(unread_for(members, admin, sender), Some(muted), mentioned, everyone).contains(
            x,
        ) ==> !muted.contains(x) && x != sender && (everyone || mentioned.contains(x)),
{
    everyone_is_told_once(members, admin, sender);
    filter_keeps_what_fits(
        unread_for(members, admin, sender),
        mention_reaches(muted, mentioned, everyone),
    );
}

/// After the counts were raised: who is told that there is one more, and whose count is taken
/// anew.
pub struct Bumped {
    pub one_more: Vec<UnreadTarget>,
    pub recount: Vec<ObjectId>,
}

/// Whether a raised count can be announced as one more.
pub open spec fn announces_one_more(
    t: UnreadTarget,
    failed: Seq<ObjectId>,
    active: Option<bool>,
) -> bool {
    !failed.contains(t.id) && active != Some(false) && undisturbed(t)
}

/// Having a raised count that can be announced as one more.
pub open spec fn one_more_for(failed: Seq<ObjectId>, active: Option<bool>) -> spec_fn(
    UnreadTarget,
) -> bool {
    |t: UnreadTarget| announces_one_more(t, failed, active)
}

/// Having a raised count that cannot be announced.
pub open spec fn needs_recount(failed: Seq<ObjectId>, active: Option<bool>) -> spec_fn(
    UnreadTarget,
) -> bool {
    |t: UnreadTarget| !failed.contains(t.id) && (active == Some(false) || !undisturbed(t))
}

/// The member of a count.
pub open spec fn target_id() -> spec_fn(UnreadTarget) -> ObjectId {
    |t: UnreadTarget| t.id
}

/// The identifiers of those whose raised count was disturbed.
pub open spec fn disturbed_after(
    s: Seq<UnreadTarget>,
    failed: Seq<ObjectId>,
    active: Option<bool>,
) -> Seq<ObjectId> {
    s.filter(needs_recount(failed, active)).map_values(target_id())
}

/// Who is told of one more, and whose count is taken anew: those for whom raising it failed,
/// and, if the message is gone or somebody else changed the count, the others. `raised` holds
/// each member once.
pub fn after_bump(raised: &Vec<UnreadTarget>, failed: &Vec<ObjectId>, active: Option<bool>) -> (r:
    Bumped)
    ensures
        r.one_more@ == raised@.filter(one_more_for(failed@, active)),
        r.recount@ == failed@ + disturbed_after(raised@, failed@, active),
{
    let ghost p = one_more_for(failed@, active);
    let ghost q = needs_recount(failed@, active);
    let ghost id_of = target_id();
    let gone = active == Some(false);
    let mut one_more: Vec<UnreadTarget> = Vec::new();
    let mut recount: Vec<ObjectId> = copy_ids(failed);
    let mut i: usize = 0;
    proof {
        filter_ends(raised@, p);
        filter_ends(raised@, q);
        assert(recount@ =~= failed@ + Seq::<UnreadTarget>::empty().map_values(id_of));
    }
    while i < raised.len()
        invariant
            i <= raised.len(),
            gone == (active == Some(false)),
            p == one_more_for(failed@, active),
            q == needs_recount(failed@, active),
            id_of == target_id(),
            one_more@ == raised@.take(i as int).filter(p),
            recount@ == failed@ + raised@.take(i as int).filter(q).map_values(id_of),
        decreases raised.len() - i,
    {
        proof {
            filter_step(raised@, p, i as int);
            filter_step(raised@, q, i as int);
        }
        let t = raised[i];
        if !contains_id(failed, t.id) {
            if gone || t.before != t.now {
                proof {
                    let f = raised@.take(i as int).filter(q);
                    assert(f.push(t).map_values(id_of) =~= f.map_values(id_of).push(t.id));
                    assert(failed@ + f.push(t).map_values(id_of) =~= (failed@ + f.map_values(
                        id_of,
                    )).push(t.id));
                }
                recount.push(t.id);
            } else {
                one_more.push(t);
            }
        }
        i = i + 1;
    }
    proof {
        filter_ends(raised@, p);
        filter_ends(raised@, q);
    }
    Bumped { one_more, recount }
}

/// Every member whose count was raised is either told of one more or has it taken anew, and
/// never both.
pub proof fn each_raised_count_is_settled_once(
    raised: Seq<UnreadTarget>,
    failed: Seq<ObjectId>,
    active: Option<bool>,
    t: UnreadTarget,
)
    requires
        raised.contains(t),
        forall|a: UnreadTarget, b: UnreadTarget|
            raised.contains(a) && raised.contains(b) && a.id == b.id ==> a == b,
    ensures
        raised.filter(one_more_for(failed, active)).contains(t) <==> !(failed + disturbed_after(
            raised,
            failed,
            active,
        )).contains(t.id),
{
    let p = one_more_for(failed, active);
    let q = needs_recount(failed, active);
    filter_keeps_what_fits(raised, p);
    filter_keeps_what_fits(raised, q);
    let d = raised.filter(q);
    let all = failed + disturbed_after(raised, failed, active);
    assert(raised.filter(p).contains(t) <==> p(t));
    assert(d.contains(t) <==> q(t));
    if failed.contains(t.id) {
        let k = choose|k: int| 0 <= k < failed.len() && failed[k] == t.id;
        assert(all[k] == t.id);
    } else if q(t) {
        let k = choose|k: int| 0 <= k < d.len() && d[k] == t;
        assert(all[failed.len() + k] == t.id);
    } else {
        assert(p(t));
        if all.contains(t.id) {
            let k = choose|k: int| 0 <= k < all.len() && all[k] == t.id;
            if k < failed.len() {
                assert(failed[k] == t.id);
            } else {
                let u = d[k - failed.len()];
                assert(u.id == t.id);
                assert(d.contains(u) <==> raised.contains(u) && q(u));
                assert(d.contains(u));
            }
        }
    }
}

/// The members of a list of counts fall into those whose count is undisturbed and those whose
/// count is not.
pub proof fn generations_part_the_targets(s: Seq<UnreadTarget>, t: UnreadTarget)
    requires
        s.contains(t),
    ensures
        undisturbed_in(s).contains(t) <==> !disturbed_in(s).contains(t),
{
    filter_keeps_what_fits(s, same_generation());
    filter_keeps_what_fits(s, other_generation());
}

/// What is known so far about the unread counts of a new channel message.
#[derive(Clone, Copy, Debug)]
pub struct ChannelUnreadFacts {
    pub tip_saved: bool,
    /// Whether the message is still there; `Some(None)` if that could not be found out.
    pub active: Option<Option<bool>>,
    /// Whether the first split by generation left any count to raise.
    pub some_to_raise: Option<bool>,
    /// Whether the second split did.
    pub some_still_to_raise: Option<bool>,
    /// Whether the message was still there before the counts were raised.
    pub active_before_bump: Option<Option<bool>>,
    pub bumped: bool,
    /// Whether the message was still there after the counts were raised.
    pub active_after_bump: Option<Option<bool>>,
    pub settled: bool,
}

/// What to do next about the unread counts of a new channel message.
#[derive(Clone, Copy, Debug, PartialEq, Eq, Structural)]
pub enum ChannelUnreadNext {
    SaveTip,
    CheckActive,
    /// Take every count anew and end. The counts are those of
    /// [`member_key`](crate::ws::unread::member_key).
    RecountAll,
    /// Split all targets by generation, tell of mentions, take the disturbed counts anew.
    SplitTargets,
    /// Split what is left once more and take the disturbed counts anew.
    SplitAgain,
    CheckActiveBeforeBump,
    /// Take the counts that are left anew and end.
    RecountLeft,
    Bump,
    CheckActiveAfterBump,
    /// Announce one more or take the counts anew, as [`after_bump`] says.
    Settle,
    Stop,
}

/// What to do next about the unread counts of a channel message that had been stored before:
/// its tip is written again and every count is taken anew.
pub open spec fn channel_replay_unread_next(facts: ChannelUnreadFacts) -> ChannelUnreadNext {
    if !facts.tip_saved {
        ChannelUnreadNext::SaveTip
    } else if !facts.settled {
        ChannelUnreadNext::RecountAll
    } else {
        ChannelUnreadNext::Stop
    }
}

/// What to do next about the unread counts of a channel message that had been stored before:
/// its tip is written again and every count is taken anew.
pub fn channel_replay_unread(facts: &ChannelUnreadFacts) -> (r: ChannelUnreadNext)
    ensures
        r == channel_replay_unread_next(*facts),
{
    if !facts.tip_saved {
        ChannelUnreadNext::SaveTip
    } else if !facts.settled {
        ChannelUnreadNext::RecountAll
    } else {
        ChannelUnreadNext::Stop
    }
}

/// A channel message that is handed out again has its tip written first, then every count taken
/// anew, once.
pub proof fn channel_replays_are_counted_anew(facts: ChannelUnreadFacts)
    ensures
        channel_replay_unread_next(facts) is SaveTip <==> !facts.tip_saved,
        channel_replay_unread_next(facts) is RecountAll <==> facts.tip_saved && !facts.settled,
        channel_replay_unread_next(facts) is Stop <==> facts.tip_saved && facts.settled,
{
}

/// A channel message that is handed out again raises no count, announces no one more and tells
/// nobody of a mention: counts are only taken anew.
pub proof fn channel_replay_never_counts_twice(facts: ChannelUnreadFacts)
    ensures
        !(channel_replay_unread_next(facts) is Bump),
        !(channel_replay_unread_next(facts) is Settle),
        !(channel_replay_unread_next(facts) is SplitTargets),
        facts.tip_saved && !facts.settled ==> channel_replay_unread_next(facts) is RecountAll,
{
}

/// The frame with a channel message as it is shown, with the channel it is in: everybody in the
/// channel gets it.
pub open spec fn channel_frame_of(
    members: Seq<ObjectId>,
    admin: ObjectId,
    channel_oid: ObjectId,
) -> FrameView {
    FrameView {
        to: hex_all(broadcast_to(members, admin)),
        event: "receive-channel-message"@,
        message: true,
        fields: seq![text_field("channelId"@, channel_oid.hex())],
    }
}

/// The frame with a channel message, whether the message is new or had been stored before.
pub fn channel_frame(channel: &Channel, channel_oid: ObjectId) -> (r: Frame)
    ensures
        r@ == channel_frame_of(channel.members@, channel.admin, channel_oid),
        r.event@ == "receive-channel-message"@,
        texts(r.to@) == hex_all(broadcast_to(channel.members@, channel.admin)),
        r@.says("channelId"@, FrameValueView::Text(channel_oid.hex())),
{
    let r = shown_frame(
        hex_ids(&broadcast_recipients(channel)),
        "receive-channel-message",
    ).with_text("channelId", &channel_oid.to_hex());
    proof {
        assert(r@.fields =~= seq![text_field("channelId"@, channel_oid.hex())]);
        assert(r@.fields[0] == text_field("channelId"@, channel_oid.hex()));
    }
    r
}

/// A message goes to a channel as one frame with the channel's identifier: to every member and
/// the admin, each once and to nobody else, whoever of them sent it.
pub proof fn a_channel_message_reaches_each_once(
    members: Seq<ObjectId>,
    admin: ObjectId,
    channel_oid: ObjectId,
)
    ensures
        channel_frame_of(members, admin, channel_oid).says(
            "channelId"@,
            FrameValueView::Text(channel_oid.hex()),
        ),
        channel_frame_of(members, admin, channel_oid).to.no_duplicates(),
        forall|x: ObjectId| #[trigger]
            channel_frame_of(members, admin, channel_oid).to.contains(x.hex()) <==> members.contains(
                x,
            ) || x == admin,
{
    let f = channel_frame_of(members, admin, channel_oid);
    let ids = broadcast_to(members, admin);
    assert(f.fields[0] == text_field("channelId"@, channel_oid.hex()));
    everyone_is_told_once(members, admin, admin);
    assert forall|i: int, j: int| 0 <= i < f.to.len() && 0 <= j < f.to.len() && i != j implies f.to[i]
        != f.to[j] by {
        if f.to[i] == f.to[j] {
            hex_identifies(ids[i], ids[j]);
        }
    }
    assert forall|x: ObjectId| #[trigger] f.to.contains(x.hex()) <==> members.contains(x) || x
        == admin by {
        if f.to.contains(x.hex()) {
            let i = choose|i: int| 0 <= i < f.to.len() && f.to[i] == x.hex();
            hex_identifies(ids[i], x);
            assert(ids.contains(ids[i]));
        }
        if members.contains(x) || x == admin {
            assert(ids.contains(x));
            let i = choose|i: int| 0 <= i < ids.len() && ids[i] == x;
            assert(f.to[i] == x.hex());
        }
    }
}

/// A channel message that was stored before is handed out again as such: no second one is
/// stored, and the frame is the one of the first time, `receive-channel-message` to the same
/// people. No count is raised and nobody is told of a mention; counts are only taken anew.
pub proof fn replays_are_handed_out_again(
    input: ChannelBroadcastInput,
    mentions_ok: Option<bool>,
    creation: Option<Creation>,
    facts: ChannelUnreadFacts,
)
    ensures
        mentions_ok == Some(true) && creation == Some(Creation::Replay)
            ==> create_and_broadcast_channel_message_next(mentions_ok, creation)
            == BroadcastNext::HandOut(ChannelBroadcastOutcome::IdempotentReplay),
        create_and_broadcast_channel_message_next(mentions_ok, creation) is Create
            ==> creation is None,
        handed_out(input, ChannelBroadcastOutcome::IdempotentReplay) == handed_out(
            input,
            ChannelBroadcastOutcome::Created,
        ),
        handed_out(input, ChannelBroadcastOutcome::IdempotentReplay).event
            == "receive-channel-message"@,
        !(channel_replay_unread_next(facts) is Bump),
        !(channel_replay_unread_next(facts) is Settle),
        !(channel_replay_unread_next(facts) is SplitTargets),
        facts.tip_saved && !facts.settled ==> channel_replay_unread_next(facts) is RecountAll,
{
}

/// The one frame that [`BroadcastNext::HandOut`] sends, whether the message is new or had been
/// stored before.
pub open spec fn handed_out(
    input: ChannelBroadcastInput,
    outcome: ChannelBroadcastOutcome,
) -> FrameView {
    match outcome {
        ChannelBroadcastOutcome::Created | ChannelBroadcastOutcome::IdempotentReplay =>
            channel_frame_of(input.channel.members@, input.channel.admin, input.channel_oid),
    }
}

/// The one frame that [`BroadcastNext::HandOut`] sends.
pub fn hand_out(input: &ChannelBroadcastInput, outcome: ChannelBroadcastOutcome) -> (r: Frame)
    ensures
        r@ == handed_out(*input, outcome),
        r.event@ == "receive-channel-message"@,
        texts(r.to@) == hex_all(broadcast_to(input.channel.members@, input.channel.admin)),
        r@.says("channelId"@, FrameValueView::Text(input.channel_oid.hex())),
{
    channel_frame(&input.channel, input.channel_oid)
}

/// What somebody in a channel is told who is mentioned in a message.
pub open spec fn channel_mention_of(
    name: Seq<char>,
    channel_oid: ObjectId,
    message: ObjectId,
) -> MentionView {
    MentionView {
        scope: "channel"@,
        source: channel_oid.hex(),
        source_name: Some(name),
        message: message.hex(),
        sender: None,
    }
}

/// The frame for somebody in a channel who is mentioned in a message, for each of
/// [`mention_targets`]. `content` is the cleaned content.
pub fn channel_mention(
    to: ObjectId,
    name: &str,
    channel_oid: ObjectId,
    message: ObjectId,
    content: &str,
) -> (r: Frame)
    ensures
        r@ == mention_frame_of(
            to.hex(),
            channel_mention_of(name@, channel_oid, message),
            content@,
        ),
{
    let news = MentionNews {
        scope: "channel",
        source: channel_oid.to_hex(),
        source_name: Some(name.to_owned()),
        message: message.to_hex(),
        sender: None,
    };
    proof {
        assert(news@ =~= channel_mention_of(name@, channel_oid, message));
    }
    emit_mention(&to.to_hex(), &news, content)
}

/// What to do next about the unread counts of a new channel message. Counts are raised only
/// after two looks at their generations and only while the message is not known to be gone.
pub open spec fn channel_unread_next(facts: ChannelUnreadFacts) -> ChannelUnreadNext {
    if !facts.tip_saved {
        ChannelUnreadNext::SaveTip
    } else {
        match (facts.active, facts.some_to_raise, facts.some_still_to_raise) {
            (None, _, _) => ChannelUnreadNext::CheckActive,
            (Some(Some(false)), _, _) => ChannelUnreadNext::RecountAll,
            (Some(_), None, _) => ChannelUnreadNext::SplitTargets,
            (Some(_), Some(false), _) => ChannelUnreadNext::Stop,
            (Some(_), Some(true), None) => ChannelUnreadNext::SplitAgain,
            (Some(_), Some(true), Some(false)) => ChannelUnreadNext::Stop,
            (Some(_), Some(true), Some(true)) => match facts.active_before_bump {
                None => ChannelUnreadNext::CheckActiveBeforeBump,
                Some(Some(false)) => ChannelUnreadNext::RecountLeft,
                Some(_) => if !facts.bumped {
                    ChannelUnreadNext::Bump
                } else {
                    match facts.active_after_bump {
                        None => ChannelUnreadNext::CheckActiveAfterBump,
                        Some(_) => if facts.settled {
                            ChannelUnreadNext::Stop
                        } else {
                            ChannelUnreadNext::Settle
                        },
                    }
                },
            },
        }
    }
}

/// What to do next about the unread counts of a new channel message. Counts are raised only
/// after two looks at their generations and only while the message is not known to be gone.
pub fn channel_unread(facts: &ChannelUnreadFacts) -> (r: ChannelUnreadNext)
    ensures
        r == channel_unread_next(*facts),
{
    if !facts.tip_saved {
        ChannelUnreadNext::SaveTip
    } else {
        match (facts.active, facts.some_to_raise, facts.some_still_to_raise) {
            (None, _, _) => ChannelUnreadNext::CheckActive,
            (Some(Some(false)), _, _) => ChannelUnreadNext::RecountAll,
            (Some(_), None, _) => ChannelUnreadNext::SplitTargets,
            (Some(_), Some(false), _) => ChannelUnreadNext::Stop,
            (Some(_), Some(true), None) => ChannelUnreadNext::SplitAgain,
            (Some(_), Some(true), Some(false)) => ChannelUnreadNext::Stop,
            (Some(_), Some(true), Some(true)) => match facts.active_before_bump {
                None => ChannelUnreadNext::CheckActiveBeforeBump,
                Some(Some(false)) => ChannelUnreadNext::RecountLeft,
                Some(_) => if !facts.bumped {
                    ChannelUnreadNext::Bump
                } else {
                    match facts.active_after_bump {
                        None => ChannelUnreadNext::CheckActiveAfterBump,
                        Some(_) => if facts.settled {
                            ChannelUnreadNext::Stop
                        } else {
                            ChannelUnreadNext::Settle
                        },
                    }
                },
            },
        }
    }
}

/// The counts of a new channel message are settled in one of two ways: of a message that is found
/// gone before anything is raised, every count that is left is taken anew; of any other, the counts
/// that nobody else changed are raised once, looked at again, and settled.
pub proof fn channel_counts_are_raised_or_taken_anew(facts: ChannelUnreadFacts)
    ensures
        ({
            let next = channel_unread_next(facts);
            let live = facts.tip_saved && facts.active is Some && facts.active != Some(Some(false));
            let left = live && facts.some_to_raise == Some(true) && facts.some_still_to_raise
                == Some(true);
            let raising = left && facts.active_before_bump is Some && facts.active_before_bump
                != Some(Some(false));
            &&& next is SaveTip <==> !facts.tip_saved
            &&& next is CheckActive <==> facts.tip_saved && facts.active is None
            &&& next is RecountAll <==> facts.tip_saved && facts.active == Some(Some(false))
            &&& next is SplitTargets <==> live && facts.some_to_raise is None
            &&& next is SplitAgain <==> live && facts.some_to_raise == Some(true)
                && facts.some_still_to_raise is None
            &&& next is CheckActiveBeforeBump <==> left && facts.active_before_bump is None
            &&& next is RecountLeft <==> left && facts.active_before_bump == Some(Some(false))
            &&& next is Bump <==> raising && !facts.bumped
            &&& next is CheckActiveAfterBump <==> raising && facts.bumped && facts.active_after_bump
                is None
            &&& next is Settle <==> raising && facts.bumped && facts.active_after_bump is Some
                && !facts.settled
            &&& next is Stop <==> live && (facts.some_to_raise == Some(false) || (
            facts.some_to_raise == Some(true) && facts.some_still_to_raise == Some(false)) || (
            raising && facts.bumped && facts.active_after_bump is Some && facts.settled))
        }),
{
}

/// Counts are raised only for a message that was looked up twice and not found to be gone.
pub proof fn counts_are_raised_for_live_messages(facts: ChannelUnreadFacts)
    ensures
        channel_unread_next(facts) is Bump ==> {
            &&& facts.active is Some && facts.active != Some(Some(false))
            &&& facts.active_before_bump is Some && facts.active_before_bump != Some(Some(false))
            &&& facts.some_still_to_raise == Some(true)
            &&& !facts.bumped
        },
{
}

/// How often a count that could not be taken anew is tried again.
pub const RECOUNT_RETRIES: u8 = 3;

/// Whether to try once more to take a count anew, after `tries` tries; `counted` says whether
/// the last one gave a count.
pub fn retries_recount(tries: u8, counted: bool) -> (r: bool)
    ensures
        r == (!counted && tries < RECOUNT_RETRIES),
{
    !counted && tries < RECOUNT_RETRIES
}

/// Which users are looked for: those of a list who muted a channel.
pub struct MutedFilter {
    pub people: Vec<ObjectId>,
    pub channel: ObjectId,
}

impl MutedFilter {
    /// Whether a user is meant.
    pub open spec fn fits(self, u: User) -> bool {
        match u.id {
            Some(id) => self.people@.contains(id) && u.muted_channels@.contains(self.channel),
            None => false,
        }
    }

    /// Whether a user is meant.
    pub fn selects(&self, u: &User) -> (r: bool)
        ensures
            r == self.fits(*u),
    {
        match u.id {
            Some(id) => contains_id(&self.people, id) && contains_id(
                &u.muted_channels,
                self.channel,
            ),
            None => false,
        }
    }
}

/// The people of a channel who muted it: they are told of no mention in it.
pub fn muted_in(channel: &Channel, channel_oid: ObjectId) -> (r: MutedFilter)
    ensures
        r.people@ == recipients_of(channel.members@, channel.admin),
        r.channel == channel_oid,
{
    MutedFilter { people: channel_recipients(channel), channel: channel_oid }
}

/// The field that says how long to wait, in a refusal because of that.
pub open spec fn wait_fields(why: ChannelRefusal) -> Seq<FrameFieldView> {
    match why {
        ChannelRefusal::Slowmode { retry_after } => seq![
            FrameFieldView { key: "retryAfter"@, value: FrameValueView::Number(retry_after) },
        ],
        _ => Seq::empty(),
    }
}

/// The frame that refuses a channel message.
pub open spec fn channel_refusal_frame_of(
    user: Seq<char>,
    why: ChannelRefusal,
    reason: &'static str,
    client_nonce: Option<Seq<char>>,
) -> FrameView {
    let f = refusal_frame_of(
        user,
        channel_refusal_text_of(why, reason),
        clean_nonce_view(client_nonce),
    );
    FrameView { fields: f.fields + wait_fields(why), ..f }
}

/// The frame that refuses a channel message. `reason` is what the access check said.
pub fn channel_refusal_frame(
    user: &str,
    why: ChannelRefusal,
    reason: &'static str,
    client_nonce: &Option<String>,
) -> (r: Frame)
    ensures
        r@ == channel_refusal_frame_of(user@, why, reason, text::opt_text(*client_nonce)),
{
    let start = refusal_frame(user, &channel_refusal(why, reason, client_nonce));
    let r = match why {
        ChannelRefusal::Slowmode { retry_after } => start.with(
            "retryAfter",
            FrameValue::Number(retry_after),
        ),
        _ => start,
    };
    proof {
        assert(r@.fields =~= channel_refusal_frame_of(
            user@,
            why,
            reason,
            text::opt_text(*client_nonce),
        ).fields);
    }
    r
}

/// A member for whom a channel message counts as unread is told of a mention if and only if it is
/// known who muted the channel, they did not, and they are mentioned by name or with everyone; who
/// sent it and who is not in the channel is never told; and nobody is told twice.
pub proof fn mentions_reach_whom_they_name(
    members: Seq<ObjectId>,
    admin: ObjectId,
    sender: ObjectId,
    muted: Option<Seq<ObjectId>>,
    mentioned: Seq<ObjectId>,
    everyone: bool,
    x: ObjectId,
)
    ensures
        told_of_mention(unread_for(members, admin, sender), muted, mentioned, everyone).contains(x)
            <==> {
            &&& members.contains(x) || x == admin
            &&& x != sender
            &&& muted is Some && !muted->0.contains(x)
            &&& everyone || mentioned.contains(x)
        },
        told_of_mention(
            unread_for(members, admin, sender),
            muted,
            mentioned,
            everyone,
        ).no_duplicates(),
{
    everyone_is_told_once(members, admin, sender);
    if let Some(m) = muted {
        let targets = unread_for(members, admin, sender);
        let reached = mention_reaches(m, mentioned, everyone);
        filter_keeps_what_fits(targets, reached);
        assert(targets.filter(reached).contains(x) <==> targets.contains(x) && reached(x));
        assert(targets.contains(x) <==> (members.contains(x) || x == admin) && x != sender);
    }
}

/// Of any list of members, those are told of a mention whom it reaches, whoever they are: being
/// mentioned by name is as good as being mentioned with everyone.
pub proof fn everyone_means_everyone(
    targets: Seq<ObjectId>,
    muted: Seq<ObjectId>,
    mentioned: Seq<ObjectId>,
    x: ObjectId,
)
    ensures
        told_of_mention(targets, Some(muted), mentioned, true).contains(x) <==> targets.contains(x)
            && !muted.contains(x),
        told_of_mention(targets, Some(muted), mentioned, false).contains(x) <==> targets.contains(x)
            && !muted.contains(x) && mentioned.contains(x),
        !told_of_mention(targets, None, mentioned, true).contains(x),
{
    filter_keeps_what_fits(targets, mention_reaches(muted, mentioned, true));
    filter_keeps_what_fits(targets, mention_reaches(muted, mentioned, false));
}

/// A count that was raised is announced as one more if and only if raising it worked, the message
/// was not found gone, and nobody changed the count meanwhile; otherwise it is taken anew.
pub proof fn one_more_is_announced_of_undisturbed_counts(
    raised: Seq<UnreadTarget>,
    failed: Seq<ObjectId>,
    active: Option<bool>,
    t: UnreadTarget,
)
    requires
        raised.contains(t),
    ensures
        raised.filter(one_more_for(failed, active)).contains(t) <==> !failed.contains(t.id)
            && active != Some(false) && t.before == t.now,
        (failed + disturbed_after(raised, failed, active)).contains(t.id) <== failed.contains(t.id)
            || active == Some(false) || t.before != t.now,
{
    let q = needs_recount(failed, active);
    filter_keeps_what_fits(raised, one_more_for(failed, active));
    filter_keeps_what_fits(raised, q);
    let d = raised.filter(q);
    let all = failed + disturbed_after(raised, failed, active);
    if failed.contains(t.id) {
        let k = choose|k: int| 0 <= k < failed.len() && failed[k] == t.id;
        assert(all[k] == t.id);
    } else if active == Some(false) || t.before != t.now {
        assert(d.contains(t) <==> q(t));
        let k = choose|k: int| 0 <= k < d.len() && d[k] == t;
        assert(all[failed.len() + k] == t.id);
    }
}

/// A count may be raised if and only if it has the generation that it had before the message.
pub proof fn undisturbed_counts_are_raised(s: Seq<UnreadTarget>, t: UnreadTarget)
    ensures
        undisturbed_in(s).contains(t) <==> s.contains(t) && t.before == t.now,
        disturbed_in(s).contains(t) <==> s.contains(t) && t.before != t.now,
{
    filter_keeps_what_fits(s, same_generation());
    filter_keeps_what_fits(s, other_generation());
}

/// A refused sender is told by its code why: each code stands for one kind of reason. What the
/// access check says is passed on, and how long to wait is said exactly where that is the reason.
pub proof fn channel_refusals_tell_their_reason(
    user: Seq<char>,
    why: ChannelRefusal,
    reason: &'static str,
    client_nonce: Option<Seq<char>>,
)
    ensures
        ({
            let t = channel_refusal_text_of(why, reason);
            let f = channel_refusal_frame_of(user, why, reason, client_nonce);
            &&& t.event == "error"
            &&& why is Forbidden ==> t.code == "FORBIDDEN" && t.message == reason
            &&& why is ChatLocked ==> t.code == "CHAT_LOCKED"
            &&& why is Slowmode ==> t.code == "SLOWMODE"
            &&& why is InvalidFile ==> t.code == "INVALID_FILE"
            &&& why is NonceConflict ==> t.code == "NONCE_CONFLICT"
            &&& why is QuoteFailed || why is CreateFailed ==> t.code == "SEND_FAILED"
            &&& f.to == seq![user] && f.event == "error"@ && !f.message
            &&& f.fields[0] == text_field("code"@, t.code@)
            &&& f.fields[1] == text_field("message"@, t.message@)
            &&& why matches ChannelRefusal::Slowmode { retry_after } ==> f.fields.last()
                == (FrameFieldView {
                key: "retryAfter"@,
                value: FrameValueView::Number(retry_after),
            })
            &&& !(why is Slowmode) ==> f.fields.len() <= 3
        }),
{
}

/// A member is told of a mention in a channel with the channel, its name, the message and a preview
/// of it.
pub proof fn channel_mentions_name_their_message(
    to: ObjectId,
    name: Seq<char>,
    channel_oid: ObjectId,
    message: ObjectId,
    content: Seq<char>,
)
    ensures
        ({
            let f = mention_frame_of(
                to.hex(),
                channel_mention_of(name, channel_oid, message),
                content,
            );
            &&& f.to == seq![to.hex()]
            &&& f.event == "message-mention"@
            &&& f.fields[0] == text_field("scope"@, "channel"@)
            &&& f.fields[1] == text_field("sourceId"@, channel_oid.hex())
            &&& f.fields[2] == maybe_field("sourceName"@, Some(name))
            &&& f.fields[3] == text_field("messageId"@, message.hex())
            &&& f.fields[5] == text_field("preview"@, mention_preview_of(content))
            &&& f.fields.len() == 6
        }),
{
}

/// Whoever is in a channel may be mentioned in it, and nobody else.
pub proof fn members_may_be_mentioned(members: Seq<ObjectId>, admin: ObjectId, x: ObjectId)
    ensures
        mentionable(members, admin).contains(x) <==> members.contains(x) || x == admin,
{
    let all = mentionable(members, admin);
    assert(all[members.len() as int] == admin);
    if members.contains(x) {
        let i = choose|i: int| 0 <= i < members.len() && members[i] == x;
        assert(all[i] == x);
    }
    if all.contains(x) && x != admin {
        let i = choose|i: int| 0 <= i < all.len() && all[i] == x;
        assert(members[i] == x);
    }
}

/// A count that fails is tried three times.
pub proof fn recounts_are_tried_three_times()
    ensures
        RECOUNT_RETRIES == 3,
{
}

/// A channel message that is handed out goes to everybody in the channel and names that channel.
pub proof fn channel_messages_name_their_channel(
    input: ChannelBroadcastInput,
    outcome: ChannelBroadcastOutcome,
)
    ensures
        ({
            let f = handed_out(input, outcome);
            &&& f == channel_frame_of(input.channel.members@, input.channel.admin, input.channel_oid)
            &&& f.event == "receive-channel-message"@
            &&& f.to == hex_all(broadcast_to(input.channel.members@, input.channel.admin))
        }),
{
}

/// Whoever may not write to a channel is told why in these words.
pub proof fn channel_refusal_text_is_worded(why: ChannelRefusal, reason: &'static str)
    ensures
        why is ChatLocked ==> channel_refusal_text_of(why, reason).message == "Czat na tym kanale jest zablokowany.",
        why is Slowmode ==> channel_refusal_text_of(why, reason).message == "Slowmode is enabled for this channel.",
        why is InvalidFile ==> channel_refusal_text_of(why, reason).message == "Nie udało się wysłać załącznika. Spróbuj ponownie.",
        why is QuoteFailed ==> channel_refusal_text_of(why, reason).message == "Nie udało się wysłać wiadomości. Spróbuj ponownie.",
        why is NonceConflict ==> channel_refusal_text_of(why, reason).message == "Message nonce conflict. Retry with a new nonce.",
        why is CreateFailed ==> channel_refusal_text_of(why, reason).message == "Failed to send message.",
{
}

} // verus!
