//! Sending a direct message.
//!
//! The store, the friend lists and the file checks are asked from outside. What is known so
//! far stands in [`SendMessageFacts`]; [`handle_send_message`] says what to do next.
use vstd::prelude::*;
use crate::answers::Answer;
use crate::ids::{parsed_id, ObjectId};
use crate::lists::contains_id;
use crate::model::users::User;
use crate::text;
use crate::ws::events::{clean_nonce_field, clean_nonce_view, NonceField, NonceView, Refusal,
    RefusalText};
use crate::ws::frames::{emit_mention, flag_field, maybe_field, mention_frame_of, message_frame, refusal_frame,
    refusal_frame_of, shown_frame, text_field, two_texts, Frame, FrameFieldView, FrameView, MentionNews, MentionView};
use crate::ws::message::{mention_preview_of, message_type_or_text, parse_message_type_or_text, CreateMessageInput,
    CreateMessageView, Creation, ScanStatus};

verus! {

/// A request to send a direct message.
pub struct SendMessagePayload {
    pub sender: String,
    pub recipient: String,
    pub content: Option<String>,
    pub message_type: Option<String>,
    pub file_url: Option<String>,
    pub file_type: Option<String>,
    pub file_size: Option<u64>,
    pub file_name: Option<String>,
    pub duration_ms: Option<u32>,
    pub quoted_message: Option<String>,
    pub client_nonce: Option<String>,
}

/// Who blocks whom in a direct conversation.
#[derive(Clone, Copy, Debug, PartialEq, Eq, Structural)]
pub enum BlockAnswer {
    Flags { by_me: bool, by_other: bool },
    Failed,
}

/// The message that a quote refers to, if it may be quoted.
#[derive(Clone, Copy, Debug, PartialEq, Eq, Structural)]
pub enum QuoteAnswer {
    Found(Option<ObjectId>),
    Failed,
}

/// What is known so far about a direct message to be sent.
#[derive(Clone, Copy, Debug)]
pub struct SendMessageFacts {
    /// Whether sender and recipient are friends.
    pub friends: Option<Answer>,
    pub blocks: Option<BlockAnswer>,
    /// Whether the attached file, or its absence, is in order.
    pub attachment_ok: Option<bool>,
    pub quote: Option<QuoteAnswer>,
    /// Whether the mentions in the content could be looked up.
    pub mentions_ok: Option<bool>,
    pub creation: Option<Creation>,
}

/// Why a direct message is refused.
#[derive(Clone, Copy, Debug, PartialEq, Eq, Structural)]
pub enum SendRefusal {
    NotFriends,
    RelationUnknown,
    Blocked { by_me: bool, by_other: bool },
    InvalidFile,
    QuoteFailed,
    MentionsFailed,
    NonceConflict,
    CreateFailed,
}

/// What to do next about a direct message.
#[derive(Clone, Copy, Debug, PartialEq, Eq, Structural)]
pub enum SendMessageNext {
    /// Drop the request without an answer.
    Ignore,
    /// Ask whether the two are friends and who blocks whom.
    LookUpRelation,
    ValidateAttachment,
    CheckQuote,
    ResolveMentions,
    /// Store the message.
    Create { sender: ObjectId, recipient: ObjectId, quoted: Option<ObjectId> },
    Refuse(SendRefusal),
    /// Hand out a message that is new.
    Deliver { sender: ObjectId, recipient: ObjectId },
    /// Hand out a message that had been stored before.
    DeliverAgain { sender: ObjectId, recipient: ObjectId },
}

/// Whether a user speaks for themselves.
pub open spec fn speaks_for(connected: Seq<char>, claimed: Seq<char>) -> bool {
    claimed.len() > 0 && connected == claimed
}

/// Whether a user speaks for themselves.
pub fn is_connected_user(connected: &str, claimed: &str) -> (r: bool)
    ensures
        r == speaks_for(connected@, claimed@),
{
    !claimed.is_empty() && text::same_text(connected, claimed)
}

/// The message that is quoted, once a quote has been looked up; no quote needs no lookup.
pub open spec fn quote_of(payload: SendMessagePayload, facts: SendMessageFacts) -> Option<
    QuoteAnswer,
> {
    if payload.quoted_message is Some {
        facts.quote
    } else {
        Some(QuoteAnswer::Found(None))
    }
}

/// What to do next about a request to send a direct message.
///
/// The checks come in a fixed order: the sender speaks for themselves and names a recipient,
/// the two are friends, neither blocks the other, the attachment is in order, the quoted
/// message may be quoted, both names are identifiers, the mentions can be looked up.
pub open spec fn handle_send_message_next(connected: Seq<char>, payload: SendMessagePayload, facts: SendMessageFacts) -> SendMessageNext {
    if !speaks_for(connected, payload.sender@) || payload.recipient@.len() == 0 {
        SendMessageNext::Ignore
    } else {
        match (facts.friends, facts.blocks) {
            (None, _) | (_, None) => SendMessageNext::LookUpRelation,
            (Some(Answer::No), _) => SendMessageNext::Refuse(SendRefusal::NotFriends),
            (Some(Answer::Failed), _) => SendMessageNext::Refuse(SendRefusal::RelationUnknown),
            (Some(Answer::Yes), Some(BlockAnswer::Failed)) => SendMessageNext::Refuse(
                SendRefusal::RelationUnknown,
            ),
            (Some(Answer::Yes), Some(BlockAnswer::Flags { by_me, by_other })) => if by_me
                || by_other {
                SendMessageNext::Refuse(SendRefusal::Blocked { by_me, by_other })
            } else {
                send_allowed_next(payload, facts)
            },
        }
    }
}

/// What to do next about a request to send a direct message.
///
/// The checks come in a fixed order: the sender speaks for themselves and names a recipient,
/// the two are friends, neither blocks the other, the attachment is in order, the quoted
/// message may be quoted, both names are identifiers, the mentions can be looked up.
pub fn handle_send_message(connected: &str, payload: &SendMessagePayload, facts: &SendMessageFacts) -> (r: SendMessageNext)
    ensures
        r == handle_send_message_next(connected@, *payload, *facts),
{
    if !is_connected_user(connected, &payload.sender) || payload.recipient.as_str().is_empty() {
        SendMessageNext::Ignore
    } else {
        match (facts.friends, facts.blocks) {
            (None, _) | (_, None) => SendMessageNext::LookUpRelation,
            (Some(Answer::No), _) => SendMessageNext::Refuse(SendRefusal::NotFriends),
            (Some(Answer::Failed), _) => SendMessageNext::Refuse(SendRefusal::RelationUnknown),
            (Some(Answer::Yes), Some(BlockAnswer::Failed)) => SendMessageNext::Refuse(
                SendRefusal::RelationUnknown,
            ),
            (Some(Answer::Yes), Some(BlockAnswer::Flags { by_me, by_other })) => if by_me
                || by_other {
                SendMessageNext::Refuse(SendRefusal::Blocked { by_me, by_other })
            } else {
                send_allowed(payload, facts)
            },
        }
    }
}

/// What to do next once the two may write to each other.
pub open spec fn send_allowed_next(payload: SendMessagePayload, facts: SendMessageFacts) -> SendMessageNext {
    let quote = quote_of(payload, facts);
    match (facts.attachment_ok, quote) {
        (None, _) => SendMessageNext::ValidateAttachment,
        (Some(false), _) => SendMessageNext::Refuse(SendRefusal::InvalidFile),
        (Some(true), None) => SendMessageNext::CheckQuote,
        (Some(true), Some(QuoteAnswer::Failed)) => SendMessageNext::Refuse(
            SendRefusal::QuoteFailed,
        ),
        (Some(true), Some(QuoteAnswer::Found(quoted))) => match (
            parsed_id(payload.sender@),
            parsed_id(payload.recipient@),
        ) {
            (Some(sender), Some(recipient)) => match facts.mentions_ok {
                None => SendMessageNext::ResolveMentions,
                Some(false) => SendMessageNext::Refuse(SendRefusal::MentionsFailed),
                Some(true) => match facts.creation {
                    None => SendMessageNext::Create { sender, recipient, quoted },
                    Some(Creation::Created) => SendMessageNext::Deliver { sender, recipient },
                    Some(Creation::Replay) => SendMessageNext::DeliverAgain { sender, recipient },
                    Some(Creation::NonceConflict) => SendMessageNext::Refuse(
                        SendRefusal::NonceConflict,
                    ),
                    Some(Creation::Failed) => SendMessageNext::Refuse(SendRefusal::CreateFailed),
                },
            },
            _ => SendMessageNext::Ignore,
        },
    }
}

/// What to do next once the two may write to each other.
pub fn send_allowed(payload: &SendMessagePayload, facts: &SendMessageFacts) -> (r: SendMessageNext)
    ensures
        r == send_allowed_next(*payload, *facts),
{
    let quote = if payload.quoted_message.is_some() {
        facts.quote
    } else {
        Some(QuoteAnswer::Found(None))
    };
    match (facts.attachment_ok, quote) {
        (None, _) => SendMessageNext::ValidateAttachment,
        (Some(false), _) => SendMessageNext::Refuse(SendRefusal::InvalidFile),
        (Some(true), None) => SendMessageNext::CheckQuote,
        (Some(true), Some(QuoteAnswer::Failed)) => SendMessageNext::Refuse(
            SendRefusal::QuoteFailed,
        ),
        (Some(true), Some(QuoteAnswer::Found(quoted))) => match (
            ObjectId::parse_str(&payload.sender),
            ObjectId::parse_str(&payload.recipient),
        ) {
            (Some(sender), Some(recipient)) => match facts.mentions_ok {
                None => SendMessageNext::ResolveMentions,
                Some(false) => SendMessageNext::Refuse(SendRefusal::MentionsFailed),
                Some(true) => match facts.creation {
                    None => SendMessageNext::Create { sender, recipient, quoted },
                    Some(Creation::Created) => SendMessageNext::Deliver { sender, recipient },
                    Some(Creation::Replay) => SendMessageNext::DeliverAgain { sender, recipient },
                    Some(Creation::NonceConflict) => SendMessageNext::Refuse(
                        SendRefusal::NonceConflict,
                    ),
                    Some(Creation::Failed) => SendMessageNext::Refuse(SendRefusal::CreateFailed),
                },
            },
            _ => SendMessageNext::Ignore,
        },
    }
}

/// Whether somebody asks for themselves to send something to somebody.
pub open spec fn asks_to_send(connected: Seq<char>, payload: SendMessagePayload) -> bool {
    connected.len() > 0 && connected == payload.sender@ && payload.recipient@.len() > 0
}

/// Whether two people may write to each other: they are friends, and neither blocks the other.
pub open spec fn may_write(facts: SendMessageFacts) -> bool {
    facts.friends == Some(Answer::Yes) && facts.blocks == Some(
        BlockAnswer::Flags { by_me: false, by_other: false },
    )
}

/// Whether the quote of a message is settled, and as what: a message that quotes nothing has no
/// quote, any other has the one that was looked up.
pub open spec fn quotes(
    payload: SendMessagePayload,
    facts: SendMessageFacts,
    quoted: Option<ObjectId>,
) -> bool {
    if payload.quoted_message is None {
        quoted is None
    } else {
        facts.quote == Some(QuoteAnswer::Found(quoted))
    }
}

/// A message of somebody who speaks for themselves is stored if and only if the two may write to
/// each other, the attachment is in order, the quote is settled, both are known by identifiers and
/// the mentions were looked up; and it is stored from the one to the other with exactly the quote
/// that was found.
pub proof fn replies_are_stored_with_their_quote(
    connected: Seq<char>,
    payload: SendMessagePayload,
    facts: SendMessageFacts,
    sender: ObjectId,
    recipient: ObjectId,
    quoted: Option<ObjectId>,
)
    ensures
        handle_send_message_next(connected, payload, facts) == (SendMessageNext::Create {
            sender,
            recipient,
            quoted,
        }) <==> {
            &&& asks_to_send(connected, payload)
            &&& may_write(facts)
            &&& facts.attachment_ok == Some(true)
            &&& quotes(payload, facts, quoted)
            &&& parsed_id(connected) == Some(sender)
            &&& parsed_id(payload.recipient@) == Some(recipient)
            &&& facts.mentions_ok == Some(true)
            &&& facts.creation is None
        },
{
}

/// A message that is stored is handed out, as new or again, to the two whom it was stored for.
pub proof fn stored_messages_are_handed_out(
    connected: Seq<char>,
    payload: SendMessagePayload,
    facts: SendMessageFacts,
    sender: ObjectId,
    recipient: ObjectId,
)
    ensures
        handle_send_message_next(connected, payload, facts) == (SendMessageNext::Deliver {
            sender,
            recipient,
        }) <==> facts.creation == Some(Creation::Created) && exists|q: Option<ObjectId>|
            handle_send_message_next(
                connected,
                payload,
                SendMessageFacts { creation: None, ..facts },
            ) == (SendMessageNext::Create { sender, recipient, quoted: q }),
        handle_send_message_next(connected, payload, facts) == (SendMessageNext::DeliverAgain {
            sender,
            recipient,
        }) <==> facts.creation == Some(Creation::Replay) && exists|q: Option<ObjectId>|
            handle_send_message_next(
                connected,
                payload,
                SendMessageFacts { creation: None, ..facts },
            ) == (SendMessageNext::Create { sender, recipient, quoted: q }),
{
    let before = SendMessageFacts { creation: None, ..facts };
    let step = handle_send_message_next(connected, payload, before);
    if let SendMessageNext::Create { sender: s, recipient: r, quoted: q } = step {
        assert(step == (SendMessageNext::Create { sender: s, recipient: r, quoted: q }));
    }
}

/// Each refusal comes for its own reason and no other: the first check that goes against the
/// message decides.
pub proof fn messages_are_refused_for_a_reason(
    connected: Seq<char>,
    payload: SendMessagePayload,
    facts: SendMessageFacts,
    by_me: bool,
    by_other: bool,
)
    requires
        asks_to_send(connected, payload),
    ensures
        ({
            let next = handle_send_message_next(connected, payload, facts);
            let known = facts.friends is Some && facts.blocks is Some;
            let file_ok = may_write(facts) && facts.attachment_ok == Some(true);
            let quote_ok = file_ok && exists|q: Option<ObjectId>| #[trigger]
                quotes(payload, facts, q);
            let named = parsed_id(connected) is Some && parsed_id(payload.recipient@) is Some;
            let ready = quote_ok && named && facts.mentions_ok == Some(true);
            &&& next is LookUpRelation <==> !known
            &&& next == SendMessageNext::Refuse(SendRefusal::NotFriends) <==> known && facts.friends
                == Some(Answer::No)
            &&& next == SendMessageNext::Refuse(SendRefusal::RelationUnknown) <==> known && (
            facts.friends == Some(Answer::Failed) || (facts.friends == Some(Answer::Yes)
                && facts.blocks == Some(BlockAnswer::Failed)))
            &&& next == SendMessageNext::Refuse(SendRefusal::Blocked { by_me, by_other }) <==> (by_me
                || by_other) && facts.friends == Some(Answer::Yes) && facts.blocks == Some(
                BlockAnswer::Flags { by_me, by_other },
            )
            &&& next is ValidateAttachment <==> may_write(facts) && facts.attachment_ok is None
            &&& next == SendMessageNext::Refuse(SendRefusal::InvalidFile) <==> may_write(facts)
                && facts.attachment_ok == Some(false)
            &&& next is CheckQuote <==> file_ok && payload.quoted_message is Some && facts.quote
                is None
            &&& next == SendMessageNext::Refuse(SendRefusal::QuoteFailed) <==> file_ok
                && payload.quoted_message is Some && facts.quote == Some(QuoteAnswer::Failed)
            &&& next is Ignore <==> quote_ok && !named
            &&& next is ResolveMentions <==> quote_ok && named && facts.mentions_ok is None
            &&& next == SendMessageNext::Refuse(SendRefusal::MentionsFailed) <==> quote_ok && named
                && facts.mentions_ok == Some(false)
            &&& next == SendMessageNext::Refuse(SendRefusal::NonceConflict) <==> ready
                && facts.creation == Some(Creation::NonceConflict)
            &&& next == SendMessageNext::Refuse(SendRefusal::CreateFailed) <==> ready
                && facts.creation == Some(Creation::Failed)
        }),
{
    assert(payload.quoted_message is None ==> quotes(payload, facts, None));
    if let Some(QuoteAnswer::Found(q)) = facts.quote {
        assert(payload.quoted_message is Some ==> quotes(payload, facts, q));
    }
}

/// A request of somebody who does not speak for themselves, or that names nobody, is dropped,
/// whatever is known.
pub proof fn others_send_nothing(
    connected: Seq<char>,
    payload: SendMessagePayload,
    facts: SendMessageFacts,
)
    requires
        !asks_to_send(connected, payload),
    ensures
        handle_send_message_next(connected, payload, facts) is Ignore,
{
}

/// A message is stored or handed out only for a sender who speaks for themselves, to a
/// friend, with no block on either side, with a valid attachment and resolved mentions.
pub proof fn only_allowed_messages_are_sent(
    connected: Seq<char>,
    payload: SendMessagePayload,
    facts: SendMessageFacts,
)
    ensures
        match handle_send_message_next(connected, payload, facts) {
            SendMessageNext::Create { sender, recipient, .. }
            | SendMessageNext::Deliver { sender, recipient }
            | SendMessageNext::DeliverAgain { sender, recipient } => {
                &&& connected == payload.sender@
                &&& parsed_id(connected) == Some(sender)
                &&& parsed_id(payload.recipient@) == Some(recipient)
                &&& facts.friends == Some(Answer::Yes)
                &&& facts.blocks == Some(BlockAnswer::Flags { by_me: false, by_other: false })
                &&& facts.attachment_ok == Some(true)
                &&& facts.mentions_ok == Some(true)
            },
            _ => true,
        },
{
}

/// With every answer in favour, a message between two identifiers is stored.
pub proof fn an_allowed_message_is_stored(
    connected: Seq<char>,
    payload: SendMessagePayload,
    facts: SendMessageFacts,
    sender: ObjectId,
    recipient: ObjectId,
)
    requires
        speaks_for(connected, payload.sender@),
        parsed_id(payload.sender@) == Some(sender),
        parsed_id(payload.recipient@) == Some(recipient),
        facts.friends == Some(Answer::Yes),
        facts.blocks == Some(BlockAnswer::Flags { by_me: false, by_other: false }),
        facts.attachment_ok == Some(true),
        payload.quoted_message is None,
        facts.mentions_ok == Some(true),
        facts.creation is None,
    ensures
        handle_send_message_next(connected, payload, facts) == (SendMessageNext::Create {
            sender,
            recipient,
            quoted: None,
        }),
{
}

/// Nothing is asked twice: each question is about a fact that is not known yet.
pub proof fn send_message_asks_once(
    connected: Seq<char>,
    payload: SendMessagePayload,
    facts: SendMessageFacts,
)
    ensures
        match handle_send_message_next(connected, payload, facts) {
            SendMessageNext::LookUpRelation => facts.friends is None || facts.blocks is None,
            SendMessageNext::ValidateAttachment => facts.attachment_ok is None,
            SendMessageNext::CheckQuote => facts.quote is None,
            SendMessageNext::ResolveMentions => facts.mentions_ok is None,
            SendMessageNext::Create { .. } => facts.creation is None,
            _ => true,
        },
{
}

/// What a refused sender is told.
pub open spec fn refusal_text_of(why: SendRefusal) -> RefusalText {
    match why {
        SendRefusal::NotFriends => RefusalText {
            event: "dm-error",
            code: "NOT_FRIENDS",
            message: "Możesz pisać tylko do znajomych. Wyślij zaproszenie, aby dodać kontakt.",
        },
        SendRefusal::RelationUnknown | SendRefusal::QuoteFailed => RefusalText {
            event: "error",
            code: "SEND_FAILED",
            message: "Nie udało się wysłać wiadomości. Spróbuj ponownie.",
        },
        SendRefusal::Blocked { .. } => RefusalText {
            event: "dm-error",
            code: "USER_BLOCKED",
            message: "Nie możesz wysłać wiadomości — użytkownik jest zablokowany lub zablokował Cię.",
        },
        SendRefusal::InvalidFile => RefusalText {
            event: "dm-error",
            code: "INVALID_FILE",
            message: "Nie można dołączyć tego pliku do wiadomości.",
        },
        SendRefusal::MentionsFailed | SendRefusal::CreateFailed => RefusalText {
            event: "error",
            code: "SEND_FAILED",
            message: "Failed to send message.",
        },
        SendRefusal::NonceConflict => RefusalText {
            event: "error",
            code: "NONCE_CONFLICT",
            message: "Message nonce conflict. Retry with a new nonce.",
        },
    }
}

/// What a refused sender is told.
pub fn refusal_text(why: SendRefusal) -> (r: RefusalText)
    ensures
        r == refusal_text_of(why),
{
    match why {
        SendRefusal::NotFriends => RefusalText {
            event: "dm-error",
            code: "NOT_FRIENDS",
            message: "Możesz pisać tylko do znajomych. Wyślij zaproszenie, aby dodać kontakt.",
        },
        SendRefusal::RelationUnknown | SendRefusal::QuoteFailed => RefusalText {
            event: "error",
            code: "SEND_FAILED",
            message: "Nie udało się wysłać wiadomości. Spróbuj ponownie.",
        },
        SendRefusal::Blocked { .. } => RefusalText {
            event: "dm-error",
            code: "USER_BLOCKED",
            message: "Nie możesz wysłać wiadomości — użytkownik jest zablokowany lub zablokował Cię.",
        },
        SendRefusal::InvalidFile => RefusalText {
            event: "dm-error",
            code: "INVALID_FILE",
            message: "Nie można dołączyć tego pliku do wiadomości.",
        },
        SendRefusal::MentionsFailed | SendRefusal::CreateFailed => RefusalText {
            event: "error",
            code: "SEND_FAILED",
            message: "Failed to send message.",
        },
        SendRefusal::NonceConflict => RefusalText {
            event: "error",
            code: "NONCE_CONFLICT",
            message: "Message nonce conflict. Retry with a new nonce.",
        },
    }
}

/// Whether a refusal repeats the nonce as the client sent it.
pub open spec fn repeats_nonce_as_sent(why: SendRefusal) -> bool {
    why is NotFriends || why is Blocked || why is InvalidFile
}

/// The nonce that a refusal repeats.
pub open spec fn refused_nonce(why: SendRefusal, client_nonce: Option<Seq<char>>) -> NonceView {
    if repeats_nonce_as_sent(why) {
        NonceView::Sent(client_nonce)
    } else {
        clean_nonce_view(client_nonce)
    }
}

/// The answer to a refused sender. A refusal over the relation or the file repeats the nonce
/// as it was sent; any other repeats the cleaned nonce.
pub fn send_refusal(why: SendRefusal, client_nonce: &Option<String>) -> (r: Refusal)
    ensures
        r.text == refusal_text_of(why),
        r.client_nonce@ == refused_nonce(why, text::opt_text(*client_nonce)),
{
    let client_nonce = match why {
        SendRefusal::NotFriends | SendRefusal::Blocked { .. } | SendRefusal::InvalidFile =>
            NonceField::Sent(text::copy_opt(client_nonce)),
        _ => clean_nonce_field(client_nonce),
    };
    Refusal { text: refusal_text(why), client_nonce }
}

/// The message to be stored. `content` is the cleaned content, `file_url` the attachment as
/// it was accepted, and the other arguments are what the lookups gave.
pub fn send_message_input(
    payload: &SendMessagePayload,
    sender: ObjectId,
    recipient: ObjectId,
    content: String,
    file_url: Option<String>,
    scan_status: ScanStatus,
    quoted: Option<ObjectId>,
    mentions: Vec<ObjectId>,
) -> (r: CreateMessageInput)
    ensures
        r@ == (CreateMessageView {
            sender,
            recipient: Some(recipient),
            channel: None,
            content: content@,
            message_type: message_type_or_text(payload.message_type),
            file_url: text::opt_text(file_url),
            file_type: text::opt_text(payload.file_type),
            file_size: payload.file_size,
            file_name: text::opt_text(payload.file_name),
            scan_status,
            duration_ms: payload.duration_ms,
            quoted_message: quoted,
            mentions: Some(mentions@),
            mentions_everyone: Some(false),
            client_nonce: text::opt_text(payload.client_nonce),
            read: None,
        }),
{
    CreateMessageInput {
        sender,
        recipient: Some(recipient),
        channel: None,
        content,
        message_type: parse_message_type_or_text(&payload.message_type),
        file_url,
        file_type: text::copy_opt(&payload.file_type),
        file_size: payload.file_size,
        file_name: text::copy_opt(&payload.file_name),
        scan_status,
        duration_ms: payload.duration_ms,
        quoted_message: quoted,
        mentions: Some(mentions),
        mentions_everyone: Some(false),
        client_nonce: text::copy_opt(&payload.client_nonce),
        read: None,
    }
}

/// Whether a message counts as unread for its recipient: not where people write to
/// themselves.
pub fn counts_as_unread(payload: &SendMessagePayload) -> (r: bool)
    ensures
        r == (payload.sender@ != payload.recipient@),
{
    !text::same_text(&payload.sender, &payload.recipient)
}

/// Whether an identifier with this text is among some.
pub open spec fn mentions_text(mentions: Seq<ObjectId>, id: Seq<char>) -> bool {
    exists|i: int| 0 <= i < mentions.len() && (#[trigger] mentions[i]).hex() == id
}

/// Whether an identifier with this text is among some.
pub fn is_mentioned(mentions: &Vec<ObjectId>, id: &str) -> (r: bool)
    ensures
        r == mentions_text(mentions@, id@),
{
    let mut i: usize = 0;
    while i < mentions.len()
        invariant
            i <= mentions.len(),
            forall|k: int| 0 <= k < i ==> (#[trigger] mentions@[k]).hex() != id@,
        decreases mentions.len() - i,
    {
        let h = mentions[i].to_hex();
        if text::same_text(&h, id) {
            return true;
        }
        i = i + 1;
    }
    false
}

/// Whether a recipient muted a sender, out of what the lookup of the recipient found: it is not
/// known of one who could not be found.
pub open spec fn sender_muted_of(recipient: Option<User>, sender: ObjectId) -> Answer {
    match recipient {
        Some(u) => if u.muted_contacts@.contains(sender) {
            Answer::Yes
        } else {
            Answer::No
        },
        None => Answer::Failed,
    }
}

/// Whether a recipient muted a sender.
pub fn sender_muted(recipient: &Option<User>, sender: ObjectId) -> (r: Answer)
    ensures
        r == sender_muted_of(*recipient, sender),
{
    match recipient {
        Some(u) => if contains_id(&u.muted_contacts, sender) {
            Answer::Yes
        } else {
            Answer::No
        },
        None => Answer::Failed,
    }
}

/// Whether the recipient is told of a mention: [`sender_muted`] says that they did not mute the
/// sender, the message is not to themselves, and they are mentioned.
pub fn notifies_recipient(
    payload: &SendMessagePayload,
    sender_muted: Answer,
    mentions: &Vec<ObjectId>,
) -> (r: bool)
    ensures
        r == (sender_muted == Answer::No && payload.sender@ != payload.recipient@ && mentions_text(
            mentions@,
            payload.recipient@,
        )),
{
    sender_muted == Answer::No && counts_as_unread(payload) && is_mentioned(
        mentions,
        &payload.recipient,
    )
}

/// What is known so far about the unread count of a stored message.
#[derive(Clone, Copy, Debug)]
pub struct DmUnreadFacts {
    /// Whether the tip of the conversation has been written.
    pub tip_saved: bool,
    /// Whether the message is still there; `Some(None)` if that could not be found out.
    pub active: Option<Option<bool>>,
    /// Whether the unread count still has the generation it had before the message.
    pub same_generation: Option<bool>,
    /// Whether the count was raised.
    pub bumped: Option<bool>,
    /// Whether the message is still there after that.
    pub active_after: Option<Option<bool>>,
    /// Whether the generation is the same after that.
    pub same_generation_after: Option<bool>,
    /// The count as recounted; `Some(None)` if that failed.
    pub recounted: Option<Option<u64>>,
}

/// What to do next about the unread count of a stored message.
#[derive(Clone, Copy, Debug, PartialEq, Eq, Structural)]
pub enum DmUnreadNext {
    SaveTip,
    CheckActive,
    PeekGeneration,
    Bump,
    CheckActiveAfter,
    PeekGenerationAfter,
    /// Tell the recipient that there is one more. The count, here and below, is that of
    /// [`sent_key`](crate::ws::unread::sent_key) or [`call_key`](crate::ws::unread::call_key).
    EmitDelta,
    Recount,
    /// Tell the recipient how many there are.
    EmitAbsolute(u64),
    Stop,
}

/// Recounts, and hands out the count if there is one.
pub open spec fn recount_next(facts: DmUnreadFacts) -> DmUnreadNext {
    match facts.recounted {
        None => DmUnreadNext::Recount,
        Some(Some(n)) => DmUnreadNext::EmitAbsolute(n),
        Some(None) => DmUnreadNext::Stop,
    }
}

/// Recounts, and hands out the count if there is one.
pub fn recount(facts: &DmUnreadFacts) -> (r: DmUnreadNext)
    ensures
        r == recount_next(*facts),
{
    match facts.recounted {
        None => DmUnreadNext::Recount,
        Some(Some(n)) => DmUnreadNext::EmitAbsolute(n),
        Some(None) => DmUnreadNext::Stop,
    }
}

/// What to do next about the unread count of a stored direct message. `bump` says whether
/// the message counts as unread.
///
/// One more is announced only for a message that is still there and while nobody else
/// changed the count; in every other case the count is taken anew.
pub open spec fn dm_unread_next(bump: bool, facts: DmUnreadFacts) -> DmUnreadNext {
    if !facts.tip_saved {
        DmUnreadNext::SaveTip
    } else if !bump {
        DmUnreadNext::Stop
    } else {
        match (facts.active, facts.same_generation) {
            (None, _) => DmUnreadNext::CheckActive,
            (Some(Some(false)), _) => recount_next(facts),
            (Some(_), None) => DmUnreadNext::PeekGeneration,
            (Some(_), Some(false)) => recount_next(facts),
            (Some(_), Some(true)) => match (
                facts.bumped,
                facts.active_after,
                facts.same_generation_after,
            ) {
                (None, _, _) => DmUnreadNext::Bump,
                (Some(_), None, _) => DmUnreadNext::CheckActiveAfter,
                (Some(false), Some(_), _) => recount_next(facts),
                (Some(true), Some(Some(false)), _) => recount_next(facts),
                (Some(true), Some(_), None) => DmUnreadNext::PeekGenerationAfter,
                (Some(true), Some(_), Some(true)) => DmUnreadNext::EmitDelta,
                (Some(true), Some(_), Some(false)) => recount_next(facts),
            },
        }
    }
}

/// What to do next about the unread count of a stored direct message. `bump` says whether
/// the message counts as unread.
///
/// One more is announced only for a message that is still there and while nobody else
/// changed the count; in every other case the count is taken anew.
pub fn dm_unread(bump: bool, facts: &DmUnreadFacts) -> (r: DmUnreadNext)
    ensures
        r == dm_unread_next(bump, *facts),
{
    if !facts.tip_saved {
        DmUnreadNext::SaveTip
    } else if !bump {
        DmUnreadNext::Stop
    } else {
        match (facts.active, facts.same_generation) {
            (None, _) => DmUnreadNext::CheckActive,
            (Some(Some(false)), _) => recount(facts),
            (Some(_), None) => DmUnreadNext::PeekGeneration,
            (Some(_), Some(false)) => recount(facts),
            (Some(_), Some(true)) => match (
                facts.bumped,
                facts.active_after,
                facts.same_generation_after,
            ) {
                (None, _, _) => DmUnreadNext::Bump,
                (Some(_), None, _) => DmUnreadNext::CheckActiveAfter,
                (Some(false), Some(_), _) => recount(facts),
                (Some(true), Some(Some(false)), _) => recount(facts),
                (Some(true), Some(_), None) => DmUnreadNext::PeekGenerationAfter,
                (Some(true), Some(_), Some(true)) => DmUnreadNext::EmitDelta,
                (Some(true), Some(_), Some(false)) => recount(facts),
            },
        }
    }
}

/// The unread count of a message that counts is settled in one of two ways: one more is announced
/// exactly if the count was raised while the message was there and nobody else changed the count,
/// before and after; in every other case the count is taken anew.
pub proof fn counts_are_raised_or_taken_anew(facts: DmUnreadFacts)
    requires
        facts.tip_saved,
    ensures
        ({
            let next = dm_unread_next(true, facts);
            let gone = facts.active == Some(Some(false));
            let raising = facts.active is Some && !gone && facts.same_generation == Some(true);
            let raised = raising && facts.bumped == Some(true) && facts.active_after is Some
                && facts.active_after != Some(Some(false));
            let anew = gone || (facts.active is Some && facts.same_generation == Some(false)) || (
            raising && facts.bumped is Some && facts.active_after is Some && (facts.bumped == Some(
                false,
            ) || facts.active_after == Some(Some(false)))) || (raised && facts.same_generation_after
                == Some(false));
            &&& next is CheckActive <==> facts.active is None
            &&& next is PeekGeneration <==> facts.active is Some && !gone && facts.same_generation
                is None
            &&& next is Bump <==> raising && facts.bumped is None
            &&& next is CheckActiveAfter <==> raising && facts.bumped is Some && facts.active_after
                is None
            &&& next is PeekGenerationAfter <==> raised && facts.same_generation_after is None
            &&& next is EmitDelta <==> raised && facts.same_generation_after == Some(true)
            &&& next is Recount <==> anew && facts.recounted is None
            &&& forall|n: u64| #[trigger]
                dm_unread_next(true, facts) == DmUnreadNext::EmitAbsolute(n) <==> anew
                    && facts.recounted == Some(Some(n))
            &&& next is Stop <==> anew && facts.recounted == Some(None::<u64>)
        }),
{
}

/// The tip is written first, and written once; a message to oneself then changes nothing.
pub proof fn tips_are_written_first(bump: bool, facts: DmUnreadFacts)
    ensures
        dm_unread_next(bump, facts) is SaveTip <==> !facts.tip_saved,
        facts.tip_saved && !bump ==> dm_unread_next(bump, facts) is Stop,
{
}

/// One more is announced only if the count was raised, the message was not found to be gone
/// before or after, and the generation stayed the same throughout.
pub proof fn delta_only_when_undisturbed(bump: bool, facts: DmUnreadFacts)
    ensures
        dm_unread_next(bump, facts) is EmitDelta ==> {
            &&& bump
            &&& facts.bumped == Some(true)
            &&& facts.active != Some(Some(false))
            &&& facts.active_after != Some(Some(false))
            &&& facts.same_generation == Some(true)
            &&& facts.same_generation_after == Some(true)
        },
{
}

/// A message that does not count as unread changes no count.
pub proof fn own_messages_change_no_count(facts: DmUnreadFacts)
    ensures
        dm_unread_next(false, facts) is SaveTip || dm_unread_next(false, facts) is Stop,
{
}

/// Whatever the answers are, there is always an unanswered question, an announcement or the
/// end: no question comes back once it is answered.
pub proof fn dm_unread_asks_once(bump: bool, facts: DmUnreadFacts)
    ensures
        match dm_unread_next(bump, facts) {
            DmUnreadNext::SaveTip => !facts.tip_saved,
            DmUnreadNext::CheckActive => facts.active is None,
            DmUnreadNext::PeekGeneration => facts.same_generation is None,
            DmUnreadNext::Bump => facts.bumped is None,
            DmUnreadNext::CheckActiveAfter => facts.active_after is None,
            DmUnreadNext::PeekGenerationAfter => facts.same_generation_after is None,
            DmUnreadNext::Recount => facts.recounted is None,
            _ => true,
        },
{
}

/// What to do next about the unread count of a message that had been stored before: its tip
/// is written again and the count is taken anew.
pub open spec fn dm_replay_unread_next(bump: bool, facts: DmUnreadFacts) -> DmUnreadNext {
    if !facts.tip_saved {
        DmUnreadNext::SaveTip
    } else if !bump {
        DmUnreadNext::Stop
    } else {
        recount_next(facts)
    }
}

/// What to do next about the unread count of a message that had been stored before: its tip
/// is written again and the count is taken anew.
pub fn dm_replay_unread(bump: bool, facts: &DmUnreadFacts) -> (r: DmUnreadNext)
    ensures
        r == dm_replay_unread_next(bump, *facts),
{
    if !facts.tip_saved {
        DmUnreadNext::SaveTip
    } else if !bump {
        DmUnreadNext::Stop
    } else {
        recount(facts)
    }
}

/// A message that is handed out again has its tip written, its count taken anew, and that count
/// told, and nothing else happens to the count.
pub proof fn replays_are_counted_anew(bump: bool, facts: DmUnreadFacts)
    ensures
        ({
            let next = dm_replay_unread_next(bump, facts);
            &&& next is SaveTip <==> !facts.tip_saved
            &&& next is Recount <==> facts.tip_saved && bump && facts.recounted is None
            &&& forall|n: u64| #[trigger]
                dm_replay_unread_next(bump, facts) == DmUnreadNext::EmitAbsolute(n)
                    <==> facts.tip_saved && bump && facts.recounted == Some(Some(n))
            &&& next is Stop <==> facts.tip_saved && (!bump || facts.recounted == Some(
                None::<u64>,
            ))
        }),
{
}

/// A message that is handed out again never announces one more.
pub proof fn replay_never_counts_twice(bump: bool, facts: DmUnreadFacts)
    ensures
        !(dm_replay_unread_next(bump, facts) is EmitDelta),
        !(dm_replay_unread_next(bump, facts) is Bump),
{
}

/// The frame with a direct message as it is shown: the recipient gets it, and then the sender.
pub open spec fn direct_frame_of(payload: SendMessagePayload) -> FrameView {
    message_frame(seq![payload.recipient@, payload.sender@], "receiveMessage"@)
}

/// The frame with a direct message, for [`SendMessageNext::Deliver`] and
/// [`SendMessageNext::DeliverAgain`] alike.
pub fn direct_frame(payload: &SendMessagePayload) -> (r: Frame)
    ensures
        r@ == direct_frame_of(*payload),
{
    shown_frame(two_texts(&payload.recipient, &payload.sender), "receiveMessage")
}

/// A direct message that is handed out, for the first time or again, goes to the recipient that
/// the request names and to the one who sent it.
pub proof fn both_get_a_direct_message(
    connected: Seq<char>,
    payload: SendMessagePayload,
    facts: SendMessageFacts,
)
    ensures
        match handle_send_message_next(connected, payload, facts) {
            SendMessageNext::Deliver { sender, recipient }
            | SendMessageNext::DeliverAgain { sender, recipient } => {
                &&& direct_frame_of(payload).event == "receiveMessage"@
                &&& direct_frame_of(payload).message
                &&& direct_frame_of(payload).to == seq![payload.recipient@, connected]
                &&& parsed_id(payload.recipient@) == Some(recipient)
                &&& parsed_id(connected) == Some(sender)
            },
            _ => true,
        },
{
}

/// What the recipient of a direct message is told who is mentioned in it.
pub open spec fn dm_mention_of(payload: SendMessagePayload, message: ObjectId) -> MentionView {
    MentionView {
        scope: "dm"@,
        source: payload.sender@,
        source_name: None,
        message: message.hex(),
        sender: None,
    }
}

/// The frame for the recipient of a direct message who is mentioned in it, if
/// [`notifies_recipient`] says so. `content` is the cleaned content.
pub fn dm_mention(payload: &SendMessagePayload, message: ObjectId, content: &str) -> (r: Frame)
    ensures
        r@ == mention_frame_of(payload.recipient@, dm_mention_of(*payload, message), content@),
{
    let news = MentionNews {
        scope: "dm",
        source: payload.sender.clone(),
        source_name: None,
        message: message.to_hex(),
        sender: None,
    };
    proof {
        assert(news@ =~= dm_mention_of(*payload, message));
    }
    emit_mention(&payload.recipient, &news, content)
}

/// The fields that say who blocks whom, in a refusal because of that.
pub open spec fn block_fields(why: SendRefusal) -> Seq<FrameFieldView> {
    match why {
        SendRefusal::Blocked { by_me, by_other } => seq![
            flag_field("blockedByMe"@, by_me),
            flag_field("blockedByOther"@, by_other),
        ],
        _ => Seq::empty(),
    }
}

/// The frame that refuses a direct message.
pub open spec fn send_refusal_frame_of(
    user: Seq<char>,
    why: SendRefusal,
    client_nonce: Option<Seq<char>>,
) -> FrameView {
    let f = refusal_frame_of(user, refusal_text_of(why), refused_nonce(why, client_nonce));
    FrameView { fields: f.fields + block_fields(why), ..f }
}

/// The frame that refuses a direct message.
pub fn send_refusal_frame(user: &str, why: SendRefusal, client_nonce: &Option<String>) -> (r: Frame)
    ensures
        r@ == send_refusal_frame_of(user@, why, text::opt_text(*client_nonce)),
{
    let start = refusal_frame(user, &send_refusal(why, client_nonce));
    let r = match why {
        SendRefusal::Blocked { by_me, by_other } => start.with_flag("blockedByMe", by_me).with_flag(
            "blockedByOther",
            by_other,
        ),
        _ => start,
    };
    proof {
        assert(r@.fields =~= send_refusal_frame_of(
            user@,
            why,
            text::opt_text(*client_nonce),
        ).fields);
    }
    r
}

/// A refused sender is told which refusal it is: no two refusals with different codes are told
/// alike, and what the relation or the file is refused for comes as `dm-error`.
pub proof fn refusals_tell_their_reason(why: SendRefusal, nonce: Option<Seq<char>>)
    ensures
        ({
            let t = refusal_text_of(why);
            &&& t.code == "NOT_FRIENDS" <== why is NotFriends
            &&& t.code == "USER_BLOCKED" <== why is Blocked
            &&& t.code == "INVALID_FILE" <== why is InvalidFile
            &&& t.code == "NONCE_CONFLICT" <== why is NonceConflict
            &&& t.code == "SEND_FAILED" <== why is RelationUnknown || why is QuoteFailed || why
                is MentionsFailed || why is CreateFailed
            &&& t.event == (if why is NotFriends || why is Blocked || why is InvalidFile {
                "dm-error"
            } else {
                "error"
            })
        }),
        why is NotFriends || why is Blocked || why is InvalidFile ==> refused_nonce(why, nonce)
            == NonceView::Sent(nonce),
        !(why is NotFriends || why is Blocked || why is InvalidFile) ==> refused_nonce(why, nonce)
            == clean_nonce_view(nonce),
{
}

/// The frame that refuses a message goes to the one who sent it, says the code and the text, and
/// says who blocks whom exactly where that is the reason.
pub proof fn refusals_reach_the_sender(
    user: Seq<char>,
    why: SendRefusal,
    client_nonce: Option<Seq<char>>,
)
    ensures
        ({
            let f = send_refusal_frame_of(user, why, client_nonce);
            let t = refusal_text_of(why);
            &&& f.to == seq![user]
            &&& f.event == t.event@
            &&& !f.message
            &&& f.fields[0] == text_field("code"@, t.code@)
            &&& f.fields[1] == text_field("message"@, t.message@)
            &&& why matches SendRefusal::Blocked { by_me, by_other } ==> f.fields.len() == 5
                && f.fields[3] == flag_field("blockedByMe"@, by_me) && f.fields[4] == flag_field(
                "blockedByOther"@,
                by_other,
            )
            &&& !(why is Blocked) ==> f.fields.len() <= 3
        }),
{
}

/// A recipient is told of a mention in a direct message by the sender's name, with the message and
/// a preview of it.
pub proof fn dm_mentions_name_their_message(
    payload: SendMessagePayload,
    message: ObjectId,
    content: Seq<char>,
)
    ensures
        ({
            let f = mention_frame_of(payload.recipient@, dm_mention_of(payload, message), content);
            &&& f.to == seq![payload.recipient@]
            &&& f.event == "message-mention"@
            &&& f.fields[0] == text_field("scope"@, "dm"@)
            &&& f.fields[1] == text_field("sourceId"@, payload.sender@)
            &&& f.fields[2] == maybe_field("sourceName"@, None)
            &&& f.fields[3] == text_field("messageId"@, message.hex())
            &&& f.fields[5] == text_field("preview"@, mention_preview_of(content))
            &&& f.fields.len() == 6
        }),
{
}

/// Whether a recipient muted a sender is known exactly of one who was found, and is then what
/// stands in their list.
pub proof fn mutes_are_those_of_the_recipient(recipient: Option<User>, sender: ObjectId)
    ensures
        sender_muted_of(recipient, sender) == Answer::Failed <==> recipient is None,
        recipient is Some ==> (sender_muted_of(recipient, sender) == Answer::Yes
            <==> recipient->0.muted_contacts@.contains(sender)),
{
}

/// Somebody is mentioned exactly if one of the mentions is written like them.
pub proof fn mentions_are_read_by_their_text(s: Seq<ObjectId>, x: ObjectId, id: Seq<char>)
    ensures
        !mentions_text(Seq::empty(), id),
        mentions_text(s.push(x), id) <==> mentions_text(s, id) || x.hex() == id,
        mentions_text(s, x.hex()) <==> s.contains(x),
{
    if mentions_text(s, id) {
        let i = choose|i: int| 0 <= i < s.len() && (#[trigger] s[i]).hex() == id;
        assert(s.push(x)[i].hex() == id);
    }
    if x.hex() == id {
        assert(s.push(x)[s.len() as int].hex() == id);
    }
    if mentions_text(s.push(x), id) {
        let i = choose|i: int| 0 <= i < s.push(x).len() && (#[trigger] s.push(x)[i]).hex() == id;
        if i < s.len() {
            assert(s[i].hex() == id);
        }
    }
    if mentions_text(s, x.hex()) {
        let i = choose|i: int| 0 <= i < s.len() && (#[trigger] s[i]).hex() == x.hex();
        crate::ids::hex_identifies(s[i], x);
    }
    if s.contains(x) {
        let i = choose|i: int| 0 <= i < s.len() && s[i] == x;
        assert(s[i].hex() == x.hex());
    }
}

/// A user speaks for themselves only, and never under an empty name.
pub proof fn nobody_speaks_for_another(connected: Seq<char>, claimed: Seq<char>)
    ensures
        speaks_for(connected, claimed) ==> connected == claimed,
        connected == claimed && claimed.len() > 0 ==> speaks_for(connected, claimed),
        claimed.len() == 0 ==> !speaks_for(connected, claimed),
{
}

/// Whoever may not write to somebody is told why in these words.
pub proof fn refusal_text_is_worded(why: SendRefusal)
    ensures
        why is NotFriends ==> refusal_text_of(why).message == "Możesz pisać tylko do znajomych. Wyślij zaproszenie, aby dodać kontakt.",
        why is RelationUnknown || why is QuoteFailed ==> refusal_text_of(why).message == "Nie udało się wysłać wiadomości. Spróbuj ponownie.",
        why is Blocked ==> refusal_text_of(why).message == "Nie możesz wysłać wiadomości — użytkownik jest zablokowany lub zablokował Cię.",
        why is InvalidFile ==> refusal_text_of(why).message == "Nie można dołączyć tego pliku do wiadomości.",
        why is MentionsFailed || why is CreateFailed ==> refusal_text_of(why).message == "Failed to send message.",
        why is NonceConflict ==> refusal_text_of(why).message == "Message nonce conflict. Retry with a new nonce.",
{
}

} // verus!
