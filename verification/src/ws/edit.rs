//! Editing a message.
use vstd::prelude::*;
use crate::answers::{Access, Answer, Change, Lookup};
use crate::ids::{parsed_id, ObjectId};
use crate::lists::{contains_id, filter_ends, filter_keeps_what_fits, filter_step, hex_all};
use crate::text;
use crate::ws::channel::{channel_recipient_ids, channel_recipients, recipients_of, Channel};
use crate::ws::direct::{is_connected_user, speaks_for};
use crate::ws::events::FailureText;
use crate::ws::frames::{emit_mention, mention_frame_of, message_frame, shown_frame, two_texts, Frame,
    FrameView, MentionNews, MentionView};
use crate::ws::message::MessageType;

verus! {

/// A request to change the text of a message.
pub struct EditMessagePayload {
    pub message_id: Option<String>,
    pub content: Option<String>,
    pub user_id: Option<String>,
}

/// A stored message, as far as editing depends on it.
#[derive(Clone, Copy, Debug, PartialEq, Eq, Structural)]
pub struct EditTarget {
    pub sender: ObjectId,
    pub message_type: MessageType,
    pub channel: Option<ObjectId>,
    pub recipient: Option<ObjectId>,
}

/// What a lookup of the message said.
#[derive(Clone, Copy, Debug, PartialEq, Eq, Structural)]
pub enum EditLookup {
    Found(EditTarget),
    Missing,
    Failed,
}

/// What the cleaned new text is like.
#[derive(Clone, Copy, Debug, PartialEq, Eq, Structural)]
pub enum ContentCheck {
    Empty,
    TooLong,
    Fits,
}

/// What is known so far about an edit.
#[derive(Clone, Copy, Debug)]
pub struct EditFacts {
    /// The first look for the message, and the second after a failed first.
    pub found: Option<EditLookup>,
    pub found_again: Option<EditLookup>,
    pub participant: Option<Access>,
    pub content: Option<ContentCheck>,
    /// Whether the channel of a channel message was found.
    pub channel_found: Option<bool>,
    pub mentions_ok: Option<bool>,
    /// Whether the new text could be prepared for the store.
    pub prepared: Option<bool>,
    pub written: Option<Change>,
    /// The first look for the changed message, and the second.
    pub updated: Option<Lookup>,
    pub updated_again: Option<Lookup>,
}

/// Why an edit fails.
#[derive(Clone, Copy, Debug, PartialEq, Eq, Structural)]
pub enum EditFailure {
    Failed,
    NotText,
    TooLong,
    NotReadBack,
}

/// What to do next about an edit.
#[derive(Clone, Copy, Debug, PartialEq, Eq, Structural)]
pub enum EditNext {
    Ignore,
    FindMessage(ObjectId),
    FindMessageAgain(ObjectId),
    Fail(EditFailure),
    RequireParticipant,
    /// Look at the cleaned new text, as [`content_check`] says.
    CheckContent,
    FindChannel(ObjectId),
    /// Look up the mentions among the people of the channel.
    ResolveInChannel,
    /// Look up the mentions among the two of the conversation.
    ResolveInPair { sender: ObjectId, recipient: ObjectId },
    /// Prepare [`edit_text`] for the store.
    Prepare,
    /// Change the stored message, as [`edit_update`](crate::model::messages::edit_update) says.
    Write(ObjectId),
    FindUpdated,
    FindUpdatedAgain,
    /// Hand the changed message out, in [`edited_frame`], and tell those whom it newly mentions.
    HandOut,
}

/// What to do next once it is clear what to write: write, and read back at most twice.
pub open spec fn edit_written_next(mid: ObjectId, facts: EditFacts) -> EditNext {
    match (facts.mentions_ok, facts.prepared, facts.written) {
        (Some(true), None, _) => EditNext::Prepare,
        (Some(true), Some(true), None) => EditNext::Write(mid),
        (Some(true), Some(true), Some(Change::Unchanged)) => EditNext::Ignore,
        (Some(true), Some(true), Some(Change::Changed)) => match (
            facts.updated,
            facts.updated_again,
        ) {
            (None, _) => EditNext::FindUpdated,
            (Some(Lookup::Found), _) => EditNext::HandOut,
            (Some(_), None) => EditNext::FindUpdatedAgain,
            (Some(_), Some(Lookup::Found)) => EditNext::HandOut,
            (Some(_), Some(_)) => EditNext::Fail(EditFailure::NotReadBack),
        },
        _ => EditNext::Fail(EditFailure::Failed),
    }
}

/// What to do next once it is clear what to write: write, and read back at most twice.
pub fn edit_written(mid: ObjectId, facts: &EditFacts) -> (r: EditNext)
    ensures
        r == edit_written_next(mid, *facts),
{
    match (facts.mentions_ok, facts.prepared, facts.written) {
        (Some(true), None, _) => EditNext::Prepare,
        (Some(true), Some(true), None) => EditNext::Write(mid),
        (Some(true), Some(true), Some(Change::Unchanged)) => EditNext::Ignore,
        (Some(true), Some(true), Some(Change::Changed)) => match (
            facts.updated,
            facts.updated_again,
        ) {
            (None, _) => EditNext::FindUpdated,
            (Some(Lookup::Found), _) => EditNext::HandOut,
            (Some(_), None) => EditNext::FindUpdatedAgain,
            (Some(_), Some(Lookup::Found)) => EditNext::HandOut,
            (Some(_), Some(_)) => EditNext::Fail(EditFailure::NotReadBack),
        },
        _ => EditNext::Fail(EditFailure::Failed),
    }
}

/// What to do next once the message is found.
pub open spec fn edit_found_next(user_id: Seq<char>, mid: ObjectId, msg: EditTarget, facts: EditFacts) -> EditNext {
    if msg.sender.hex() != user_id {
        EditNext::Ignore
    } else if msg.message_type != MessageType::Text {
        EditNext::Fail(EditFailure::NotText)
    } else {
        match (facts.participant, facts.content) {
            (None, _) => EditNext::RequireParticipant,
            (Some(Access::Unavailable), _) => EditNext::Fail(EditFailure::Failed),
            (Some(Access::Denied), _) => EditNext::Ignore,
            (Some(Access::Granted), None) => EditNext::CheckContent,
            (Some(Access::Granted), Some(ContentCheck::Empty)) => EditNext::Ignore,
            (Some(Access::Granted), Some(ContentCheck::TooLong)) => EditNext::Fail(
                EditFailure::TooLong,
            ),
            (Some(Access::Granted), Some(ContentCheck::Fits)) => match (
                msg.channel,
                msg.recipient,
            ) {
                (Some(channel), _) => match (facts.channel_found, facts.mentions_ok) {
                    (None, _) => EditNext::FindChannel(channel),
                    (Some(false), _) => EditNext::Fail(EditFailure::Failed),
                    (Some(true), None) => EditNext::ResolveInChannel,
                    (Some(true), Some(_)) => edit_written_next(mid, facts),
                },
                (None, Some(recipient)) => match facts.mentions_ok {
                    None => EditNext::ResolveInPair { sender: msg.sender, recipient },
                    Some(_) => edit_written_next(mid, facts),
                },
                (None, None) => EditNext::Ignore,
            },
        }
    }
}

/// What to do next once the message is found.
pub fn edit_found(user_id: &str, mid: ObjectId, msg: EditTarget, facts: &EditFacts) -> (r: EditNext)
    ensures
        r == edit_found_next(user_id@, mid, msg, *facts),
{
    if !text::same_text(&msg.sender.to_hex(), user_id) {
        EditNext::Ignore
    } else if msg.message_type != MessageType::Text {
        EditNext::Fail(EditFailure::NotText)
    } else {
        match (facts.participant, facts.content) {
            (None, _) => EditNext::RequireParticipant,
            (Some(Access::Unavailable), _) => EditNext::Fail(EditFailure::Failed),
            (Some(Access::Denied), _) => EditNext::Ignore,
            (Some(Access::Granted), None) => EditNext::CheckContent,
            (Some(Access::Granted), Some(ContentCheck::Empty)) => EditNext::Ignore,
            (Some(Access::Granted), Some(ContentCheck::TooLong)) => EditNext::Fail(
                EditFailure::TooLong,
            ),
            (Some(Access::Granted), Some(ContentCheck::Fits)) => match (
                msg.channel,
                msg.recipient,
            ) {
                (Some(channel), _) => match (facts.channel_found, facts.mentions_ok) {
                    (None, _) => EditNext::FindChannel(channel),
                    (Some(false), _) => EditNext::Fail(EditFailure::Failed),
                    (Some(true), None) => EditNext::ResolveInChannel,
                    (Some(true), Some(_)) => edit_written(mid, facts),
                },
                (None, Some(recipient)) => match facts.mentions_ok {
                    None => EditNext::ResolveInPair { sender: msg.sender, recipient },
                    Some(_) => edit_written(mid, facts),
                },
                (None, None) => EditNext::Ignore,
            },
        }
    }
}

/// What to do next about a request to edit a message.
pub open spec fn handle_edit_message_next(connected: Seq<char>, payload: EditMessagePayload, facts: EditFacts) -> EditNext {
    match (payload.message_id, payload.content, payload.user_id) {
        (Some(message_id), Some(_), Some(user_id)) => if !speaks_for(connected, user_id@) {
            EditNext::Ignore
        } else {
            match (parsed_id(message_id@), facts.found, facts.found_again) {
                (None, _, _) => EditNext::Ignore,
                (Some(mid), None, _) => EditNext::FindMessage(mid),
                (Some(_), Some(EditLookup::Missing), _) => EditNext::Ignore,
                (Some(mid), Some(EditLookup::Failed), None) => EditNext::FindMessageAgain(mid),
                (Some(_), Some(EditLookup::Failed), Some(EditLookup::Missing)) => EditNext::Ignore,
                (Some(_), Some(EditLookup::Failed), Some(EditLookup::Failed)) => EditNext::Fail(
                    EditFailure::Failed,
                ),
                (Some(mid), Some(EditLookup::Failed), Some(EditLookup::Found(msg))) =>
                    edit_found_next(user_id@, mid, msg, facts),
                (Some(mid), Some(EditLookup::Found(msg)), _) =>
                    edit_found_next(user_id@, mid, msg, facts),
            }
        },
        _ => EditNext::Ignore,
    }
}

/// What to do next about a request to edit a message.
pub fn handle_edit_message(connected: &str, payload: &EditMessagePayload, facts: &EditFacts) -> (r: EditNext)
    ensures
        r == handle_edit_message_next(connected@, *payload, *facts),
{
    match (&payload.message_id, &payload.content, &payload.user_id) {
        (Some(message_id), Some(_), Some(user_id)) => if !is_connected_user(connected, user_id) {
            EditNext::Ignore
        } else {
            match (ObjectId::parse_str(message_id), facts.found, facts.found_again) {
                (None, _, _) => EditNext::Ignore,
                (Some(mid), None, _) => EditNext::FindMessage(mid),
                (Some(_), Some(EditLookup::Missing), _) => EditNext::Ignore,
                (Some(mid), Some(EditLookup::Failed), None) => EditNext::FindMessageAgain(mid),
                (Some(_), Some(EditLookup::Failed), Some(EditLookup::Missing)) => EditNext::Ignore,
                (Some(_), Some(EditLookup::Failed), Some(EditLookup::Failed)) => EditNext::Fail(
                    EditFailure::Failed,
                ),
                (Some(mid), Some(EditLookup::Failed), Some(EditLookup::Found(msg))) =>
                    edit_found(user_id, mid, msg, facts),
                (Some(mid), Some(EditLookup::Found(msg)), _) =>
                    edit_found(user_id, mid, msg, facts),
            }
        },
        _ => EditNext::Ignore,
    }
}

/// The message that an edit found.
pub open spec fn edited_message(facts: EditFacts) -> Option<EditTarget> {
    match (facts.found, facts.found_again) {
        (Some(EditLookup::Found(msg)), _) => Some(msg),
        (Some(EditLookup::Failed), Some(EditLookup::Found(msg))) => Some(msg),
        _ => None,
    }
}

/// Only the sender edits a message, only a text message is edited, and only to a text that
/// fits, by somebody who still takes part in the conversation.
pub proof fn only_senders_edit_texts(
    connected: Seq<char>,
    payload: EditMessagePayload,
    facts: EditFacts,
)
    ensures
        match handle_edit_message_next(connected, payload, facts) {
            EditNext::Write(mid) => {
                &&& parsed_id(payload.message_id->0@) == Some(mid)
                &&& edited_message(facts) matches Some(msg) && msg.sender.hex() == connected
                    && msg.message_type == MessageType::Text
                &&& facts.participant == Some(Access::Granted)
                &&& facts.content == Some(ContentCheck::Fits)
                &&& facts.mentions_ok == Some(true)
                &&& facts.prepared == Some(true)
            },
            EditNext::HandOut => {
                &&& facts.written == Some(Change::Changed)
                &&& edited_message(facts) matches Some(msg) && msg.sender.hex() == connected
            },
            _ => true,
        },
{
}

/// An edit asks nothing twice.
pub proof fn edit_asks_once(connected: Seq<char>, payload: EditMessagePayload, facts: EditFacts)
    ensures
        match handle_edit_message_next(connected, payload, facts) {
            EditNext::FindMessage(_) => facts.found is None,
            EditNext::FindMessageAgain(_) => facts.found_again is None,
            EditNext::RequireParticipant => facts.participant is None,
            EditNext::CheckContent => facts.content is None,
            EditNext::FindChannel(_) => facts.channel_found is None,
            EditNext::ResolveInChannel | EditNext::ResolveInPair { .. } => facts.mentions_ok is None,
            EditNext::Prepare => facts.prepared is None,
            EditNext::Write(_) => facts.written is None,
            EditNext::FindUpdated => facts.updated is None,
            EditNext::FindUpdatedAgain => facts.updated_again is None,
            _ => true,
        },
{
}

/// What a user is told whose edit fails.
pub open spec fn edit_failure_text_of(why: EditFailure) -> FailureText {
    match why {
        EditFailure::Failed => FailureText {
            code: "EDIT_FAILED",
            message: "Nie udało się edytować wiadomości. Spróbuj ponownie.",
            retryable: true,
        },
        EditFailure::NotText => FailureText {
            code: "EDIT_FORBIDDEN",
            message: "Only text messages can be edited.",
            retryable: false,
        },
        EditFailure::TooLong => FailureText {
            code: "CONTENT_TOO_LONG",
            message: "Wiadomość nie może przekraczać 2000 znaków",
            retryable: false,
        },
        EditFailure::NotReadBack => FailureText {
            code: "EDIT_FAILED",
            message: "Nie udało się odświeżyć edycji. Spróbuj ponownie.",
            retryable: true,
        },
    }
}

/// What a user is told whose edit fails.
pub fn edit_failure_text(why: EditFailure) -> (r: FailureText)
    ensures
        r == edit_failure_text_of(why),
{
    match why {
        EditFailure::Failed => FailureText {
            code: "EDIT_FAILED",
            message: "Nie udało się edytować wiadomości. Spróbuj ponownie.",
            retryable: true,
        },
        EditFailure::NotText => FailureText {
            code: "EDIT_FORBIDDEN",
            message: "Only text messages can be edited.",
            retryable: false,
        },
        EditFailure::TooLong => FailureText {
            code: "CONTENT_TOO_LONG",
            message: "Wiadomość nie może przekraczać 2000 znaków",
            retryable: false,
        },
        EditFailure::NotReadBack => FailureText {
            code: "EDIT_FAILED",
            message: "Nie udało się odświeżyć edycji. Spróbuj ponownie.",
            retryable: true,
        },
    }
}

/// The mentions of a message before and after an edit.
pub struct MentionChange {
    pub previous: Vec<ObjectId>,
    pub previous_everyone: bool,
    pub mentions: Vec<ObjectId>,
    pub everyone: bool,
}

/// Whether an edit mentions somebody who was not mentioned before, alone or with everyone.
pub open spec fn newly_mentioned(c: MentionChange, x: ObjectId) -> bool {
    (c.mentions@.contains(x) && !c.previous@.contains(x)) || (c.everyone && !c.previous_everyone)
}

/// Not being the sender, not having muted the conversation, and being newly mentioned.
pub open spec fn ping_reaches(c: MentionChange, sender: ObjectId, muted: Seq<ObjectId>) -> spec_fn(
    ObjectId,
) -> bool {
    |x: ObjectId| x != sender && !muted.contains(x) && newly_mentioned(c, x)
}

/// Who is told of a mention after an edit; nobody if it is not known who muted the
/// conversation.
pub open spec fn pinged(
    recipients: Seq<ObjectId>,
    c: MentionChange,
    sender: ObjectId,
    muted: Option<Seq<ObjectId>>,
) -> Seq<ObjectId> {
    match muted {
        Some(m) => recipients.filter(ping_reaches(c, sender, m)),
        None => Seq::empty(),
    }
}

/// Who is told of a mention after an edit.
pub fn edit_pings(
    recipients: &Vec<ObjectId>,
    c: &MentionChange,
    sender: ObjectId,
    muted: &Option<Vec<ObjectId>>,
) -> (r: Vec<ObjectId>)
    ensures
        r@ == pinged(
            recipients@,
            *c,
            sender,
            match *muted {
                Some(m) => Some(m@),
                None => None,
            },
        ),
{
    let mut out: Vec<ObjectId> = Vec::new();
    match muted {
        Some(m) => {
            let ghost p = ping_reaches(*c, sender, m@);
            let mut i: usize = 0;
            proof {
                filter_ends(recipients@, p);
            }
            while i < recipients.len()
                invariant
                    i <= recipients.len(),
                    p == ping_reaches(*c, sender, m@),
                    out@ == recipients@.take(i as int).filter(p),
                decreases recipients.len() - i,
            {
                proof {
                    filter_step(recipients@, p, i as int);
                }
                let id = recipients[i];
                if id != sender && !contains_id(m, id) && ((contains_id(&c.mentions, id)
                    && !contains_id(&c.previous, id)) || (c.everyone && !c.previous_everyone)) {
                    out.push(id);
                }
                i = i + 1;
            }
            proof {
                filter_ends(recipients@, p);
            }
            out
        },
        None => out,
    }
}

/// An edit that mentions nobody new tells nobody of a mention.
pub proof fn unchanged_mentions_ping_nobody(
    recipients: Seq<ObjectId>,
    c: MentionChange,
    sender: ObjectId,
    muted: Option<Seq<ObjectId>>,
)
    requires
        c.previous@ == c.mentions@,
        c.previous_everyone == c.everyone,
    ensures
        pinged(recipients, c, sender, muted).len() == 0,
{
    if let Some(m) = muted {
        let f = recipients.filter(ping_reaches(c, sender, m));
        filter_keeps_what_fits(recipients, ping_reaches(c, sender, m));
        if f.len() > 0 {
            assert(f.contains(f[0]));
        }
    }
}

/// Who an edited message is shown to.
#[derive(Clone, Copy, Debug, PartialEq, Eq, Structural)]
pub enum EditAudience {
    /// The members of the channel and its admin.
    ChannelMembers,
    /// The recipient and then the sender.
    Pair,
    Nobody,
}

/// Who an edited message is shown to.
pub open spec fn edit_audience_of(in_channel: bool, channel_found: bool, has_recipient: bool) -> EditAudience {
    if in_channel {
        if channel_found {
            EditAudience::ChannelMembers
        } else {
            EditAudience::Nobody
        }
    } else if has_recipient {
        EditAudience::Pair
    } else {
        EditAudience::Nobody
    }
}

/// Who an edited message is shown to.
pub fn edit_audience(in_channel: bool, channel_found: bool, has_recipient: bool) -> (r: EditAudience)
    ensures
        r == edit_audience_of(in_channel, channel_found, has_recipient),
{
    if in_channel {
        if channel_found {
            EditAudience::ChannelMembers
        } else {
            EditAudience::Nobody
        }
    } else if has_recipient {
        EditAudience::Pair
    } else {
        EditAudience::Nobody
    }
}

/// Who muted a direct conversation, out of what
/// [`sender_muted`](crate::ws::direct::sender_muted) said of the recipient: the recipient if they
/// muted the sender. It is not known where that is not.
pub fn dm_muted(recipient: ObjectId, muted: Answer) -> (r: Option<Vec<ObjectId>>)
    ensures
        match muted {
            Answer::Yes => r matches Some(v) && v@ == seq![recipient],
            Answer::No => r matches Some(v) && v@.len() == 0,
            Answer::Failed => r is None,
        },
{
    let mut v: Vec<ObjectId> = Vec::new();
    match muted {
        Answer::Yes => {
            v.push(recipient);
            Some(v)
        },
        Answer::No => Some(v),
        Answer::Failed => None,
    }
}

/// What the cleaned new text of a message is like. `fits`: it is not longer than a message may be.
pub open spec fn content_check_of(content: Seq<char>, fits: bool) -> ContentCheck {
    if content.len() == 0 {
        ContentCheck::Empty
    } else if fits {
        ContentCheck::Fits
    } else {
        ContentCheck::TooLong
    }
}

/// What the cleaned new text of a message is like. `fits`: it is not longer than a message may be.
pub fn content_check(content: &str, fits: bool) -> (r: ContentCheck)
    ensures
        r == content_check_of(content@, fits),
{
    if content.is_empty() {
        ContentCheck::Empty
    } else if fits {
        ContentCheck::Fits
    } else {
        ContentCheck::TooLong
    }
}

/// The text that is prepared for the store: the cleaned new text without white space around it.
pub fn edit_text(content: &str) -> (r: &str)
    ensures
        r@ == text::trimmed(content@),
{
    text::trim(content)
}

/// The frame with an edited message as it is shown: for everybody in its channel, or for the
/// recipient and then the sender. There is none where it is for nobody.
pub open spec fn edited_frame_of(updated: EditTarget, channel: Option<Channel>) -> Option<FrameView> {
    match (updated.channel, updated.recipient, channel) {
        (Some(_), _, Some(c)) => Some(
            message_frame(hex_all(recipients_of(c.members@, c.admin)), "message-edited"@),
        ),
        (Some(_), _, None) => None,
        (None, Some(recipient), _) => Some(
            message_frame(seq![recipient.hex(), updated.sender.hex()], "message-edited"@),
        ),
        (None, None, _) => None,
    }
}

/// The frame with an edited message. `channel` is the channel of a channel message, if it was
/// found.
pub fn edited_frame(updated: &EditTarget, channel: &Option<Channel>) -> (r: Option<Frame>)
    ensures
        match (r, edited_frame_of(*updated, *channel)) {
            (Some(f), Some(v)) => f@ == v,
            (None, None) => true,
            _ => false,
        },
{
    match (updated.channel, updated.recipient, channel) {
        (Some(_), _, Some(c)) => Some(shown_frame(channel_recipient_ids(c), "message-edited")),
        (Some(_), _, None) => None,
        (None, Some(recipient), _) => Some(
            shown_frame(
                two_texts(&recipient.to_hex(), &updated.sender.to_hex()),
                "message-edited",
            ),
        ),
        (None, None, _) => None,
    }
}

/// Who may be told of a mention after an edit: everybody in the channel, or the recipient.
pub open spec fn ping_candidates_of(updated: EditTarget, channel: Option<Channel>) -> Seq<ObjectId> {
    match (updated.channel, updated.recipient, channel) {
        (Some(_), _, Some(c)) => recipients_of(c.members@, c.admin),
        (None, Some(recipient), _) => seq![recipient],
        _ => Seq::empty(),
    }
}

/// Who may be told of a mention after an edit; [`edit_pings`] says who of them is.
pub fn ping_candidates(updated: &EditTarget, channel: &Option<Channel>) -> (r: Vec<ObjectId>)
    ensures
        r@ == ping_candidates_of(*updated, *channel),
{
    let mut out: Vec<ObjectId> = Vec::new();
    match (updated.channel, updated.recipient, channel) {
        (Some(_), _, Some(c)) => channel_recipients(c),
        (None, Some(recipient), _) => {
            out.push(recipient);
            out
        },
        _ => out,
    }
}

/// What somebody is told who is mentioned by an edit. The message goes by the text under which
/// the edit named it.
pub open spec fn edit_mention_of(
    updated: EditTarget,
    channel: Option<Channel>,
    message_id: Seq<char>,
) -> MentionView {
    match updated.channel {
        Some(id) => MentionView {
            scope: "channel"@,
            source: id.hex(),
            source_name: match channel {
                Some(c) => Some(c.name@),
                None => None,
            },
            message: message_id,
            sender: Some(updated.sender.hex()),
        },
        None => MentionView {
            scope: "dm"@,
            source: updated.sender.hex(),
            source_name: None,
            message: message_id,
            sender: Some(updated.sender.hex()),
        },
    }
}

/// The frame for somebody who is mentioned by an edit. `content` is the cleaned new text.
pub fn edit_mention(
    to: ObjectId,
    updated: &EditTarget,
    channel: &Option<Channel>,
    message_id: &str,
    content: &str,
) -> (r: Frame)
    ensures
        r@ == mention_frame_of(
            to.hex(),
            edit_mention_of(*updated, *channel, message_id@),
            content@,
        ),
{
    let news = match updated.channel {
        Some(id) => MentionNews {
            scope: "channel",
            source: id.to_hex(),
            source_name: match channel {
                Some(c) => Some(c.name.clone()),
                None => None,
            },
            message: message_id.to_owned(),
            sender: Some(updated.sender.to_hex()),
        },
        None => MentionNews {
            scope: "dm",
            source: updated.sender.to_hex(),
            source_name: None,
            message: message_id.to_owned(),
            sender: Some(updated.sender.to_hex()),
        },
    };
    proof {
        assert(news@ =~= edit_mention_of(*updated, *channel, message_id@));
    }
    emit_mention(&to.to_hex(), &news, content)
}

/// An edited message is shown as [`edit_audience`] says: to both of a pair, to everybody in a
/// channel, and to nobody else; and only those it is shown to may be told of a mention.
pub proof fn edits_are_shown_to_their_audience(updated: EditTarget, channel: Option<Channel>)
    ensures
        match edit_audience_of(
            updated.channel is Some,
            channel is Some,
            updated.recipient is Some,
        ) {
            EditAudience::ChannelMembers => edited_frame_of(updated, channel) matches Some(f)
                && f.event == "message-edited"@ && f.message && f.to == hex_all(
                recipients_of(channel->0.members@, channel->0.admin),
            ),
            EditAudience::Pair => edited_frame_of(updated, channel) matches Some(f) && f.event
                == "message-edited"@ && f.message && f.to == seq![
                updated.recipient->0.hex(),
                updated.sender.hex(),
            ],
            EditAudience::Nobody => edited_frame_of(updated, channel) is None,
        },
        forall|x: ObjectId| #[trigger]
            ping_candidates_of(updated, channel).contains(x) ==> edited_frame_of(updated, channel)
                is Some && edited_frame_of(updated, channel)->0.to.contains(x.hex()),
{
    assert forall|x: ObjectId| #[trigger]
        ping_candidates_of(updated, channel).contains(x) implies edited_frame_of(updated, channel)
        is Some && edited_frame_of(updated, channel)->0.to.contains(x.hex()) by {
        let ids = ping_candidates_of(updated, channel);
        let i = choose|i: int| 0 <= i < ids.len() && ids[i] == x;
        assert(edited_frame_of(updated, channel)->0.to[i] == x.hex());
    }
}

/// Whether a request to edit comes from somebody who speaks for themselves, names a message and
/// gives a new text.
pub open spec fn asks_to_edit(
    connected: Seq<char>,
    payload: EditMessagePayload,
    mid: ObjectId,
) -> bool {
    &&& payload.message_id is Some && payload.content is Some && payload.user_id is Some
    &&& connected.len() > 0 && connected == payload.user_id->0@
    &&& parsed_id(payload.message_id->0@) == Some(mid)
}

/// Whether an edit found the message, at the first or at the second look.
pub open spec fn edit_finds(facts: EditFacts, msg: EditTarget) -> bool {
    facts.found == Some(EditLookup::Found(msg)) || (facts.found == Some(EditLookup::Failed)
        && facts.found_again == Some(EditLookup::Found(msg)))
}

/// Whether a message may be edited to a text that fits: by its sender, who takes part, and only if
/// it is a text.
pub open spec fn may_edit(connected: Seq<char>, facts: EditFacts, msg: EditTarget) -> bool {
    &&& edit_finds(facts, msg)
    &&& msg.sender.hex() == connected
    &&& msg.message_type == MessageType::Text
    &&& facts.participant == Some(Access::Granted)
    &&& facts.content == Some(ContentCheck::Fits)
}

/// The message is looked for at most twice, the second time only after the store failed; what is
/// missing is left alone, and what fails twice is told.
pub proof fn edits_look_twice_for_the_message(
    connected: Seq<char>,
    payload: EditMessagePayload,
    facts: EditFacts,
    mid: ObjectId,
)
    requires
        asks_to_edit(connected, payload, mid),
        forall|msg: EditTarget| !#[trigger] edit_finds(facts, msg),
    ensures
        ({
            let next = handle_edit_message_next(connected, payload, facts);
            &&& next == EditNext::FindMessage(mid) <==> facts.found is None
            &&& next == EditNext::FindMessageAgain(mid) <==> facts.found == Some(EditLookup::Failed)
                && facts.found_again is None
            &&& next == EditNext::Fail(EditFailure::Failed) <==> facts.found == Some(
                EditLookup::Failed,
            ) && facts.found_again == Some(EditLookup::Failed)
            &&& next is Ignore <==> facts.found == Some(EditLookup::Missing) || (facts.found
                == Some(EditLookup::Failed) && facts.found_again == Some(EditLookup::Missing))
        }),
{
    if let Some(EditLookup::Found(msg)) = facts.found {
        assert(edit_finds(facts, msg));
    }
    if let Some(EditLookup::Found(msg)) = facts.found_again {
        assert(!edit_finds(facts, msg));
    }
}

/// Of a message that was found: only its sender goes on, only with a text, only while they take
/// part, and only with a new text that fits; each of the others gets its own answer.
pub proof fn edits_are_checked_in_order(
    connected: Seq<char>,
    payload: EditMessagePayload,
    facts: EditFacts,
    mid: ObjectId,
    msg: EditTarget,
)
    requires
        asks_to_edit(connected, payload, mid),
        edit_finds(facts, msg),
        !may_edit(connected, facts, msg),
    ensures
        ({
            let next = handle_edit_message_next(connected, payload, facts);
            let own = msg.sender.hex() == connected;
            let text = own && msg.message_type == MessageType::Text;
            let granted = text && facts.participant == Some(Access::Granted);
            &&& next == EditNext::Fail(EditFailure::NotText) <==> own && msg.message_type
                != MessageType::Text
            &&& next is RequireParticipant <==> text && facts.participant is None
            &&& next == EditNext::Fail(EditFailure::Failed) <==> text && facts.participant == Some(
                Access::Unavailable,
            )
            &&& next is CheckContent <==> granted && facts.content is None
            &&& next == EditNext::Fail(EditFailure::TooLong) <==> granted && facts.content == Some(
                ContentCheck::TooLong,
            )
            &&& next is Ignore <==> !own || (text && facts.participant == Some(Access::Denied)) || (
            granted && facts.content == Some(ContentCheck::Empty))
        }),
{
}

/// Of a message that may be edited: its mentions are looked up where it was sent, the new text is
/// prepared, written, read back at most twice and handed out, exactly if each of these worked; what
/// changed nothing is dropped, and what did not work is told.
pub proof fn permitted_edits_are_written_and_handed_out(
    connected: Seq<char>,
    payload: EditMessagePayload,
    facts: EditFacts,
    mid: ObjectId,
    msg: EditTarget,
    c: ObjectId,
    r: ObjectId,
)
    requires
        asks_to_edit(connected, payload, mid),
        may_edit(connected, facts, msg),
    ensures
        ({
            let next = handle_edit_message_next(connected, payload, facts);
            let in_channel = msg.channel is Some;
            let in_pair = msg.channel is None && msg.recipient is Some;
            let placed = in_pair || (in_channel && facts.channel_found == Some(true));
            let resolved = placed && facts.mentions_ok == Some(true);
            let prepared = resolved && facts.prepared == Some(true);
            let changed = prepared && facts.written == Some(Change::Changed);
            let read_twice = facts.updated is Some && facts.updated != Some(Lookup::Found);
            &&& next == EditNext::FindChannel(c) <==> msg.channel == Some(c) && facts.channel_found
                is None
            &&& next is ResolveInChannel <==> in_channel && facts.channel_found == Some(true)
                && facts.mentions_ok is None
            &&& next == (EditNext::ResolveInPair { sender: msg.sender, recipient: r })
                <==> msg.channel is None && msg.recipient == Some(r) && facts.mentions_ok is None
            &&& next is ResolveInPair ==> next->sender == msg.sender
            &&& next is Prepare <==> resolved && facts.prepared is None
            &&& next == EditNext::Write(mid) <==> prepared && facts.written is None
            &&& next is FindUpdated <==> changed && facts.updated is None
            &&& next is FindUpdatedAgain <==> changed && read_twice && facts.updated_again is None
            &&& next is HandOut <==> changed && (facts.updated == Some(Lookup::Found) || (read_twice
                && facts.updated_again == Some(Lookup::Found)))
            &&& next == EditNext::Fail(EditFailure::NotReadBack) <==> changed && read_twice
                && facts.updated_again is Some && facts.updated_again != Some(Lookup::Found)
            &&& next == EditNext::Fail(EditFailure::Failed) <==> (in_channel && facts.channel_found
                == Some(false)) || (placed && facts.mentions_ok == Some(false)) || (resolved
                && facts.prepared == Some(false)) || (prepared && facts.written == Some(
                Change::Failed,
            ))
            &&& next is Ignore <==> (!in_channel && !in_pair) || (prepared && facts.written == Some(
                Change::Unchanged,
            ))
        }),
{
}

/// A request to edit that names no message or gives no text, or that comes from somebody who does
/// not speak for themselves, is dropped.
pub proof fn other_edits_are_dropped(
    connected: Seq<char>,
    payload: EditMessagePayload,
    facts: EditFacts,
)
    requires
        forall|mid: ObjectId| !#[trigger] asks_to_edit(connected, payload, mid),
    ensures
        handle_edit_message_next(connected, payload, facts) is Ignore,
{
    if payload.message_id is Some {
        if let Some(mid) = parsed_id(payload.message_id->0@) {
            assert(!asks_to_edit(connected, payload, mid));
        }
    }
}

/// A new text is looked at by its length alone: an empty one is empty whether or not it would fit,
/// and any other fits or is too long.
pub proof fn new_texts_are_told_apart(content: Seq<char>, fits: bool)
    ensures
        content_check_of(content, fits) == ContentCheck::Empty <==> content.len() == 0,
        content_check_of(content, fits) == ContentCheck::Fits <==> content.len() > 0 && fits,
        content_check_of(content, fits) == ContentCheck::TooLong <==> content.len() > 0 && !fits,
{
}

/// A failed edit says by its code why it failed; it may be tried again exactly if neither the message
/// nor the text was at fault.
pub proof fn failed_edits_say_why(why: EditFailure)
    ensures
        why == EditFailure::Failed || why == EditFailure::NotReadBack ==> edit_failure_text_of(
            why,
        ).code == "EDIT_FAILED",
        why == EditFailure::NotText ==> edit_failure_text_of(why).code == "EDIT_FORBIDDEN",
        why == EditFailure::TooLong ==> edit_failure_text_of(why).code == "CONTENT_TOO_LONG",
        edit_failure_text_of(why).retryable <==> why == EditFailure::Failed || why
            == EditFailure::NotReadBack,
{
}

/// Somebody is told of a mention after an edit if and only if they are among those it is shown to,
/// did not send it, are known not to have muted the conversation, and are mentioned now and were not
/// before, by name or with everyone.
pub proof fn new_mentions_are_told(
    recipients: Seq<ObjectId>,
    c: MentionChange,
    sender: ObjectId,
    muted: Option<Seq<ObjectId>>,
    x: ObjectId,
)
    ensures
        pinged(recipients, c, sender, muted).contains(x) <==> {
            &&& recipients.contains(x)
            &&& x != sender
            &&& muted is Some && !muted->0.contains(x)
            &&& (c.mentions@.contains(x) && !c.previous@.contains(x)) || (c.everyone
                && !c.previous_everyone)
        },
        recipients.no_duplicates() ==> pinged(recipients, c, sender, muted).no_duplicates(),
{
    if let Some(m) = muted {
        let p = ping_reaches(c, sender, m);
        filter_keeps_what_fits(recipients, p);
        assert(recipients.filter(p).contains(x) <==> recipients.contains(x) && p(x));
    }
}

/// Who may be told of a mention by an edit: everybody in the channel of a channel message that is
/// found, and of a direct message the recipient alone.
pub proof fn mentions_stay_where_the_message_is(updated: EditTarget, channel: Option<Channel>)
    ensures
        ({
            let to = ping_candidates_of(updated, channel);
            &&& updated.channel is Some && channel is Some ==> to == recipients_of(
                channel->0.members@,
                channel->0.admin,
            )
            &&& updated.channel is Some && channel is None ==> to.len() == 0
            &&& updated.channel is None && updated.recipient is Some ==> to
                == seq![updated.recipient->0]
            &&& updated.channel is None && updated.recipient is None ==> to.len() == 0
        }),
{
}

/// A mention by an edit names the channel, or, in a direct conversation, its sender, the message and
/// who sent it.
pub proof fn edit_mentions_name_their_message(
    updated: EditTarget,
    channel: Option<Channel>,
    message_id: Seq<char>,
)
    ensures
        ({
            let m = edit_mention_of(updated, channel, message_id);
            &&& m.message == message_id && m.sender == Some(updated.sender.hex())
            &&& updated.channel is Some ==> m.scope == "channel"@ && m.source
                == updated.channel->0.hex()
            &&& updated.channel is Some && channel is Some ==> m.source_name == Some(
                channel->0.name@,
            )
            &&& updated.channel is None ==> m.scope == "dm"@ && m.source == updated.sender.hex()
            &&& updated.channel is None || channel is None ==> m.source_name is None
        }),
{
}

/// An edited message is for everybody in its channel, for the two of its conversation, or for
/// nobody.
pub proof fn edits_have_one_audience(in_channel: bool, channel_found: bool, has_recipient: bool)
    ensures
        ({
            let a = edit_audience_of(in_channel, channel_found, has_recipient);
            &&& a == EditAudience::ChannelMembers <==> in_channel && channel_found
            &&& a == EditAudience::Pair <==> !in_channel && has_recipient
            &&& a == EditAudience::Nobody <==> (in_channel && !channel_found) || (!in_channel
                && !has_recipient)
        }),
{
}

/// Whoever fails to edit a message is told why in these words.
pub proof fn edit_failure_text_is_worded(why: EditFailure)
    ensures
        why is Failed ==> edit_failure_text_of(why).message == "Nie udało się edytować wiadomości. Spróbuj ponownie.",
        why is NotText ==> edit_failure_text_of(why).message == "Only text messages can be edited.",
        why is TooLong ==> edit_failure_text_of(why).message == "Wiadomość nie może przekraczać 2000 znaków",
        why is NotReadBack ==> edit_failure_text_of(why).message == "Nie udało się odświeżyć edycji. Spróbuj ponownie.",
{
}

} // verus!
