//! Which unread count is meant: whose it is, and of what.
use vstd::prelude::*;
use crate::ids::ObjectId;
use crate::text;
use crate::ws::direct::SendMessagePayload;
use crate::ws::read::{MarkChannelReadPayload, MarkConversationReadPayload};

verus! {

/// The unread count of a user: of what somebody wrote to them (`dm`), or of a channel
/// (`channel`). What it is of stands in `source`.
pub struct UnreadKey {
    pub user: String,
    pub scope: &'static str,
    pub source: String,
}

/// The unread count of a user.
#[verifier::ext_equal]
pub struct UnreadKeyView {
    pub user: Seq<char>,
    pub scope: Seq<char>,
    pub source: Seq<char>,
}

impl View for UnreadKey {
    type V = UnreadKeyView;

    open spec fn view(&self) -> UnreadKeyView {
        UnreadKeyView { user: self.user@, scope: self.scope@, source: self.source@ }
    }
}

/// What a user has not read of another.
pub open spec fn dm_key(user: Seq<char>, other: Seq<char>) -> UnreadKeyView {
    UnreadKeyView { user, scope: "dm"@, source: other }
}

/// What a user has not read in a channel.
pub open spec fn channel_key(user: Seq<char>, channel: Seq<char>) -> UnreadKeyView {
    UnreadKeyView { user, scope: "channel"@, source: channel }
}

fn key(user: &str, scope: &'static str, source: &str) -> (r: UnreadKey)
    ensures
        r@ == (UnreadKeyView { user: user@, scope: scope@, source: source@ }),
{
    UnreadKey { user: user.to_owned(), scope, source: source.to_owned() }
}

/// The count that a direct message raises: the recipient's, of the sender.
pub fn sent_key(payload: &SendMessagePayload) -> (r: UnreadKey)
    ensures
        r@ == dm_key(payload.recipient@, payload.sender@),
{
    key(&payload.recipient, "dm", &payload.sender)
}

/// The count that a missed call raises: the callee's, of the caller.
pub fn call_key(caller_id: &str, callee_id: &str) -> (r: UnreadKey)
    ensures
        r@ == dm_key(callee_id@, caller_id@),
{
    key(callee_id, "dm", caller_id)
}

/// The count of a user of another one.
pub fn pair_key(user: ObjectId, other: ObjectId) -> (r: UnreadKey)
    ensures
        r@ == dm_key(user.hex(), other.hex()),
{
    key(&user.to_hex(), "dm", &other.to_hex())
}

/// The count of a user of a channel.
pub fn member_key(user: ObjectId, channel: ObjectId) -> (r: UnreadKey)
    ensures
        r@ == channel_key(user.hex(), channel.hex()),
{
    key(&user.to_hex(), "channel", &channel.to_hex())
}

/// The count that reading a message changes: the reader's, of the sender. The reader goes by the
/// text of the request.
pub fn read_message_key(user_id: &Option<String>, sender: ObjectId) -> (r: UnreadKey)
    ensures
        r@ == dm_key(text::text_or_empty(*user_id), sender.hex()),
{
    key(text::or_empty(user_id), "dm", &sender.to_hex())
}

/// The count that reading a conversation changes: the reader's, of the contact.
pub fn read_conversation_key(payload: &MarkConversationReadPayload) -> (r: UnreadKey)
    ensures
        r@ == dm_key(
            text::text_or_empty(payload.user_id),
            text::text_or_empty(payload.contact_id),
        ),
{
    key(text::or_empty(&payload.user_id), "dm", text::or_empty(&payload.contact_id))
}

/// The count that reading a channel changes: the reader's, of the channel.
pub fn read_channel_key(payload: &MarkChannelReadPayload) -> (r: UnreadKey)
    ensures
        r@ == channel_key(
            text::text_or_empty(payload.user_id),
            text::text_or_empty(payload.channel_id),
        ),
{
    key(text::or_empty(&payload.user_id), "channel", text::or_empty(&payload.channel_id))
}

/// The counts of two users of each other, that of the first one first: those that are told once
/// the messages between them are wiped.
pub fn both_keys(user_id: &str, contact_id: &str) -> (r: (UnreadKey, UnreadKey))
    ensures
        r.0@ == dm_key(user_id@, contact_id@),
        r.1@ == dm_key(contact_id@, user_id@),
{
    (key(user_id, "dm", contact_id), key(contact_id, "dm", user_id))
}

/// Reading a conversation changes the count that the contact's messages raised: where both name
/// each other by the same texts, the two counts are one.
pub proof fn reading_settles_what_sending_raised(
    sent: SendMessagePayload,
    read: MarkConversationReadPayload,
)
    requires
        text::opt_text(read.user_id) == Some(sent.recipient@),
        text::opt_text(read.contact_id) == Some(sent.sender@),
    ensures
        dm_key(sent.recipient@, sent.sender@) == dm_key(
            text::text_or_empty(read.user_id),
            text::text_or_empty(read.contact_id),
        ),
{
}

/// Two counts are the same exactly if they are of the same user and of the same source, and a count of
/// a person is never one of a channel.
pub proof fn counts_are_told_apart(
    user: Seq<char>,
    source: Seq<char>,
    other_user: Seq<char>,
    other_source: Seq<char>,
)
    ensures
        dm_key(user, source) == dm_key(other_user, other_source) <==> user == other_user && source
            == other_source,
        channel_key(user, source) == channel_key(other_user, other_source) <==> user == other_user
            && source == other_source,
        dm_key(user, source) != channel_key(other_user, other_source),
        dm_key(user, source).scope == "dm"@,
        channel_key(user, source).scope == "channel"@,
{
    reveal_strlit("dm");
    reveal_strlit("channel");
    assert("dm"@.len() == 2);
    assert(dm_key(user, source).user == user && dm_key(user, source).source == source);
    assert(dm_key(other_user, other_source).user == other_user);
    assert(channel_key(user, source).user == user && channel_key(user, source).source == source);
}

} // verus!
