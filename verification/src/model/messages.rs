//! Stored messages: which of them are meant, and what is changed of them.
use vstd::prelude::*;
use crate::ids::ObjectId;
use crate::lists::{contains_id, copy_ids};
use crate::ws::message::MessageType;

verus! {

/// A stored message, as far as it decides which messages are meant.
#[derive(Clone, Copy, Debug, PartialEq, Eq, Structural)]
pub struct MessageRecord {
    pub id: ObjectId,
    pub sender: ObjectId,
    pub recipient: Option<ObjectId>,
    /// Whether the store takes it for a message between two users.
    pub direct: bool,
    pub message_type: MessageType,
    pub duration_ms: Option<u32>,
    pub read: bool,
    pub deleted: bool,
    pub sent_at: i64,
}

impl MessageRecord {
    /// Whether it is the log of a call in which the two talked.
    pub open spec fn is_talk(self) -> bool {
        self.message_type == MessageType::Call && match self.duration_ms {
            Some(d) => d > 0,
            None => false,
        }
    }

    /// Whether one of two users sent it to the other.
    pub open spec fn is_between(self, a: ObjectId, b: ObjectId) -> bool {
        (self.sender == a && self.recipient == Some(b)) || (self.sender == b && self.recipient
            == Some(a))
    }

    /// Whether a user sent it to one of some others, or one of them to the user.
    pub open spec fn is_with_any(self, user: ObjectId, others: Seq<ObjectId>) -> bool {
        (self.sender == user && match self.recipient {
            Some(b) => others.contains(b),
            None => false,
        }) || (self.recipient == Some(user) && others.contains(self.sender))
    }

    /// Who is the other one of a conversation of a user.
    pub open spec fn other(self, user: ObjectId) -> Option<ObjectId> {
        if self.sender == user {
            self.recipient
        } else {
            Some(self.sender)
        }
    }

    /// Who is the other one of a conversation of a user: the recipient of what they sent, and
    /// the sender of anything else.
    pub fn peer(&self, user: ObjectId) -> (r: Option<ObjectId>)
        ensures
            r == self.other(user),
    {
        if self.sender == user {
            self.recipient
        } else {
            Some(self.sender)
        }
    }
}

/// Who has to have sent a message, and to whom.
pub enum MessageParties {
    Anybody,
    /// One of the two sent it to the other.
    Between(ObjectId, ObjectId),
    /// The first one sent it to the second.
    FromTo(ObjectId, ObjectId),
    /// One of these sent it to this user.
    FromAnyTo(Vec<ObjectId>, ObjectId),
    /// This user sent it to one of the others, or one of them to this user.
    BetweenAny(ObjectId, Vec<ObjectId>),
}

/// Which stored messages are meant: all that meet every condition.
pub struct MessageFilter {
    pub ids: Option<Vec<ObjectId>>,
    pub parties: MessageParties,
    /// Only what is not read.
    pub unread: bool,
    /// Only what is not deleted.
    pub live: bool,
    /// Only what is between two users.
    pub direct: bool,
    /// Not the logs of calls in which the two talked.
    pub no_talks: bool,
}

impl MessageFilter {
    /// Whether a message is meant.
    pub open spec fn fits(self, m: MessageRecord) -> bool {
        &&& match self.ids {
            Some(v) => v@.contains(m.id),
            None => true,
        }
        &&& match self.parties {
            MessageParties::Anybody => true,
            MessageParties::Between(a, b) => m.is_between(a, b),
            MessageParties::FromTo(a, b) => m.sender == a && m.recipient == Some(b),
            MessageParties::FromAnyTo(v, b) => v@.contains(m.sender) && m.recipient == Some(b),
            MessageParties::BetweenAny(a, v) => m.is_with_any(a, v@),
        }
        &&& self.unread ==> !m.read
        &&& self.live ==> !m.deleted
        &&& self.direct ==> m.direct
        &&& self.no_talks ==> !m.is_talk()
    }

    /// Whether a message is meant.
    pub fn selects(&self, m: &MessageRecord) -> (r: bool)
        ensures
            r == self.fits(*m),
    {
        let id_fits = match &self.ids {
            Some(v) => contains_id(v, m.id),
            None => true,
        };
        let parties_fit = match &self.parties {
            MessageParties::Anybody => true,
            MessageParties::Between(a, b) => (m.sender == *a && m.recipient == Some(*b)) || (
            m.sender == *b && m.recipient == Some(*a)),
            MessageParties::FromTo(a, b) => m.sender == *a && m.recipient == Some(*b),
            MessageParties::FromAnyTo(v, b) => contains_id(v, m.sender) && m.recipient == Some(*b),
            MessageParties::BetweenAny(a, v) => {
                let sent = match m.recipient {
                    Some(b) => m.sender == *a && contains_id(v, b),
                    None => false,
                };
                sent || (m.recipient == Some(*a) && contains_id(v, m.sender))
            },
        };
        let talked = match m.duration_ms {
            Some(d) => m.message_type == MessageType::Call && d > 0,
            None => false,
        };
        id_fits && parties_fit && (!self.unread || !m.read) && (!self.live || !m.deleted) && (
        !self.direct || m.direct) && (!self.no_talks || !talked)
    }

    /// The messages between two users that are not deleted: those that are wiped with their
    /// conversation, and counted afterwards.
    pub fn conversation(a: ObjectId, b: ObjectId) -> (r: MessageFilter)
        ensures
            forall|m: MessageRecord| #[trigger] r.fits(m) <==> m.is_between(a, b) && !m.deleted,
    {
        MessageFilter {
            ids: None,
            parties: MessageParties::Between(a, b),
            unread: false,
            live: true,
            direct: false,
            no_talks: false,
        }
    }

    /// The messages of a contact that a user has not read: those that are marked with the
    /// conversation.
    pub fn unread_from(user: ObjectId, contact: ObjectId) -> (r: MessageFilter)
        ensures
            forall|m: MessageRecord|
                #[trigger] r.fits(m) <==> m.sender == contact && m.recipient == Some(user) && !m.read
                    && !m.deleted && m.direct,
    {
        MessageFilter {
            ids: None,
            parties: MessageParties::FromTo(contact, user),
            unread: true,
            live: true,
            direct: true,
            no_talks: false,
        }
    }

    /// The messages of friends that count as unread for a user. The log of a call in which they
    /// talked does not.
    pub fn counted_as_unread(user: ObjectId, friends: &Vec<ObjectId>) -> (r: MessageFilter)
        ensures
            forall|m: MessageRecord|
                #[trigger] r.fits(m) <==> friends@.contains(m.sender) && m.recipient == Some(user)
                    && !m.read && !m.deleted && m.direct && !m.is_talk(),
    {
        MessageFilter {
            ids: None,
            parties: MessageParties::FromAnyTo(copy_ids(friends), user),
            unread: true,
            live: true,
            direct: true,
            no_talks: true,
        }
    }

    /// The messages between a user and some friends, among which the last ones are looked for.
    pub fn with_friends(user: ObjectId, friends: &Vec<ObjectId>) -> (r: MessageFilter)
        ensures
            forall|m: MessageRecord|
                #[trigger] r.fits(m) <==> m.is_with_any(user, friends@) && !m.deleted && m.direct,
    {
        MessageFilter {
            ids: None,
            parties: MessageParties::BetweenAny(user, copy_ids(friends)),
            unread: false,
            live: true,
            direct: true,
            no_talks: false,
        }
    }

    /// One message, unless it is deleted.
    pub fn live(id: ObjectId) -> (r: MessageFilter)
        ensures
            forall|m: MessageRecord| #[trigger] r.fits(m) <==> m.id == id && !m.deleted,
    {
        let mut ids: Vec<ObjectId> = Vec::new();
        ids.push(id);
        proof {
            assert(ids@[0] == id);
        }
        MessageFilter {
            ids: Some(ids),
            parties: MessageParties::Anybody,
            unread: false,
            live: true,
            direct: false,
            no_talks: false,
        }
    }

    /// One message, unless it is read.
    pub fn unread(id: ObjectId) -> (r: MessageFilter)
        ensures
            forall|m: MessageRecord| #[trigger] r.fits(m) <==> m.id == id && !m.read,
    {
        let mut ids: Vec<ObjectId> = Vec::new();
        ids.push(id);
        proof {
            assert(ids@[0] == id);
        }
        MessageFilter {
            ids: Some(ids),
            parties: MessageParties::Anybody,
            unread: true,
            live: false,
            direct: false,
            no_talks: false,
        }
    }

    /// The messages with these identifiers.
    pub fn among(ids: &Vec<ObjectId>) -> (r: MessageFilter)
        ensures
            forall|m: MessageRecord| #[trigger] r.fits(m) <==> ids@.contains(m.id),
    {
        MessageFilter {
            ids: Some(copy_ids(ids)),
            parties: MessageParties::Anybody,
            unread: false,
            live: false,
            direct: false,
            no_talks: false,
        }
    }
}

/// By what messages are put together.
#[derive(Clone, Copy, Debug, PartialEq, Eq, Structural)]
pub enum GroupBy {
    Sender,
    /// The other one of a conversation of this user.
    Other(ObjectId),
}

impl GroupBy {
    /// Where a message belongs.
    pub open spec fn key_of(self, m: MessageRecord) -> Option<ObjectId> {
        match self {
            GroupBy::Sender => Some(m.sender),
            GroupBy::Other(user) => m.other(user),
        }
    }

    /// Where a message belongs.
    pub fn key(&self, m: &MessageRecord) -> (r: Option<ObjectId>)
        ensures
            r == self.key_of(*m),
    {
        match *self {
            GroupBy::Sender => Some(m.sender),
            GroupBy::Other(user) => m.peer(user),
        }
    }
}

/// Whether an identifier comes after another.
pub open spec fn id_after(a: ObjectId, b: ObjectId) -> bool {
    a.hi > b.hi || (a.hi == b.hi && (a.mid > b.mid || (a.mid == b.mid && a.lo > b.lo)))
}

/// Whether a message is newer than another: it was sent later, or at the same time under a
/// greater identifier.
pub open spec fn newer(a: MessageRecord, b: MessageRecord) -> bool {
    a.sent_at > b.sent_at || (a.sent_at == b.sent_at && id_after(a.id, b.id))
}

/// Whether a message is newer than another.
pub fn is_newer(a: &MessageRecord, b: &MessageRecord) -> (r: bool)
    ensures
        r == newer(*a, *b),
{
    a.sent_at > b.sent_at || (a.sent_at == b.sent_at && (a.id.hi > b.id.hi || (a.id.hi == b.id.hi
        && (a.id.mid > b.id.mid || (a.id.mid == b.id.mid && a.id.lo > b.id.lo)))))
}

/// A question about stored messages: those of the filter, put together by the key if there is
/// one. `newest_first`: the newest comes first, and stands for its group.
pub struct MessageQuery {
    pub filter: MessageFilter,
    pub newest_first: bool,
    pub limit: Option<i64>,
    pub group: Option<GroupBy>,
}

/// The messages that count as unread for a user, counted by their senders.
pub fn unread_counts_query(user: ObjectId, friends: &Vec<ObjectId>) -> (r: MessageQuery)
    ensures
        forall|m: MessageRecord|
            #[trigger] r.filter.fits(m) <==> friends@.contains(m.sender) && m.recipient == Some(user)
                && !m.read && !m.deleted && m.direct && !m.is_talk(),
        r.limit is None,
        r.group == Some(GroupBy::Sender),
{
    MessageQuery {
        filter: MessageFilter::counted_as_unread(user, friends),
        newest_first: false,
        limit: None,
        group: Some(GroupBy::Sender),
    }
}

/// The last message between a user and each of some friends.
pub fn last_messages_query(user: ObjectId, friends: &Vec<ObjectId>) -> (r: MessageQuery)
    ensures
        forall|m: MessageRecord|
            #[trigger] r.filter.fits(m) <==> m.is_with_any(user, friends@) && !m.deleted && m.direct,
        r.newest_first,
        r.limit is None,
        r.group == Some(GroupBy::Other(user)),
{
    MessageQuery {
        filter: MessageFilter::with_friends(user, friends),
        newest_first: true,
        limit: None,
        group: Some(GroupBy::Other(user)),
    }
}

/// The newest message between two users: it becomes the last one of their conversation again.
pub fn newest_query(a: ObjectId, b: ObjectId) -> (r: MessageQuery)
    ensures
        forall|m: MessageRecord| #[trigger] r.filter.fits(m) <==> m.is_between(a, b) && !m.deleted,
        r.newest_first,
        r.limit == Some(1i64),
        r.group is None,
{
    MessageQuery {
        filter: MessageFilter::conversation(a, b),
        newest_first: true,
        limit: Some(1),
        group: None,
    }
}

/// How many messages of a filter belong under a key.
pub open spec fn count_under(
    messages: Seq<MessageRecord>,
    filter: MessageFilter,
    group: GroupBy,
    key: ObjectId,
) -> nat {
    messages.filter(
        |m: MessageRecord| filter.fits(m) && group.key_of(m) == Some(key),
    ).len()
}

/// Whether a message is the last one under a key: it belongs there, and none that does is newer.
pub open spec fn is_last_under(
    messages: Seq<MessageRecord>,
    filter: MessageFilter,
    group: GroupBy,
    key: ObjectId,
    last: MessageRecord,
) -> bool {
    &&& messages.contains(last)
    &&& filter.fits(last)
    &&& group.key_of(last) == Some(key)
    &&& forall|m: MessageRecord| #[trigger]
        messages.contains(m) && filter.fits(m) && group.key_of(m) == Some(key) ==> !newer(m, last)
}

/// The messages between two users do not depend on who of them asks.
pub proof fn conversations_have_no_direction(a: ObjectId, b: ObjectId, m: MessageRecord)
    ensures
        m.is_between(a, b) <==> m.is_between(b, a),
{
}

/// Of two different messages one is newer, and not both are: there is one last message.
pub proof fn messages_have_an_order(a: MessageRecord, b: MessageRecord)
    ensures
        !(newer(a, b) && newer(b, a)),
        a.id != b.id ==> newer(a, b) || newer(b, a),
{
}

/// What a user marks as read with a conversation covers whatever counts as unread from that
/// contact.
pub proof fn marking_covers_what_counts(
    counted: MessageFilter,
    marked: MessageFilter,
    user: ObjectId,
    contact: ObjectId,
    friends: Seq<ObjectId>,
    m: MessageRecord,
)
    requires
        forall|x: MessageRecord|
            #[trigger] counted.fits(x) <==> friends.contains(x.sender) && x.recipient == Some(user)
                && !x.read && !x.deleted && x.direct && !x.is_talk(),
        forall|x: MessageRecord|
            #[trigger] marked.fits(x) <==> x.sender == contact && x.recipient == Some(user)
                && !x.read && !x.deleted && x.direct,
        counted.fits(m),
        GroupBy::Sender.key_of(m) == Some(contact),
    ensures
        marked.fits(m),
{
}

/// A field of a stored message that is changed.
#[derive(Clone, Copy, Debug, PartialEq, Eq, Structural)]
pub enum MessageField {
    Content,
    SearchText,
    SearchTokens,
    Mentions,
    MentionsEveryone,
    Edited,
    EditedAt,
    Read,
    UpdatedAt,
}

/// The name under which a field is stored.
pub open spec fn message_field_name_of(f: MessageField) -> &'static str {
    match f {
        MessageField::Content => "content",
        MessageField::SearchText => "searchText",
        MessageField::SearchTokens => "searchTokens",
        MessageField::Mentions => "mentions",
        MessageField::MentionsEveryone => "mentionsEveryone",
        MessageField::Edited => "edited",
        MessageField::EditedAt => "editedAt",
        MessageField::Read => "read",
        MessageField::UpdatedAt => "updatedAt",
    }
}

/// The name under which a field is stored.
pub fn message_field_name(f: MessageField) -> (r: &'static str)
    ensures
        r == message_field_name_of(f),
{
    match f {
        MessageField::Content => "content",
        MessageField::SearchText => "searchText",
        MessageField::SearchTokens => "searchTokens",
        MessageField::Mentions => "mentions",
        MessageField::MentionsEveryone => "mentionsEveryone",
        MessageField::Edited => "edited",
        MessageField::EditedAt => "editedAt",
        MessageField::Read => "read",
        MessageField::UpdatedAt => "updatedAt",
    }
}

/// What a field of a message is set to.
pub enum MessageValue {
    /// What the new text was prepared to for this field.
    Prepared,
    Ids(Vec<ObjectId>),
    Flag(bool),
    Time(i64),
}

/// What a field of a message is set to.
#[verifier::ext_equal]
pub enum MessageValueView {
    Prepared,
    Ids(Seq<ObjectId>),
    Flag(bool),
    Time(i64),
}

impl View for MessageValue {
    type V = MessageValueView;

    open spec fn view(&self) -> MessageValueView {
        match *self {
            MessageValue::Prepared => MessageValueView::Prepared,
            MessageValue::Ids(v) => MessageValueView::Ids(v@),
            MessageValue::Flag(b) => MessageValueView::Flag(b),
            MessageValue::Time(t) => MessageValueView::Time(t),
        }
    }
}

/// A field of a message and what it is set to.
pub struct MessageSetting {
    pub field: MessageField,
    pub value: MessageValue,
}

/// What is set of a message, in order.
pub open spec fn message_settings(v: Seq<MessageSetting>) -> Seq<(MessageField, MessageValueView)> {
    v.map_values(|s: MessageSetting| (s.field, s.value@))
}

/// A change of stored messages.
pub struct MessageUpdate {
    pub filter: MessageFilter,
    pub set: Vec<MessageSetting>,
}

/// What an edit stores: the prepared text with what it is searched by, the mentions in it, and
/// that and when it was edited.
pub open spec fn edit_settings(mentions: Seq<ObjectId>, everyone: bool, now: i64) -> Seq<
    (MessageField, MessageValueView),
> {
    seq![
        (MessageField::Content, MessageValueView::Prepared),
        (MessageField::SearchText, MessageValueView::Prepared),
        (MessageField::SearchTokens, MessageValueView::Prepared),
        (MessageField::Mentions, MessageValueView::Ids(mentions)),
        (MessageField::MentionsEveryone, MessageValueView::Flag(everyone)),
        (MessageField::Edited, MessageValueView::Flag(true)),
        (MessageField::EditedAt, MessageValueView::Time(now)),
        (MessageField::UpdatedAt, MessageValueView::Time(now)),
    ]
}

/// What an edit stores, unless the message is deleted meanwhile.
pub fn edit_update(id: ObjectId, mentions: Vec<ObjectId>, everyone: bool, now: i64) -> (r:
    MessageUpdate)
    ensures
        forall|m: MessageRecord| #[trigger] r.filter.fits(m) <==> m.id == id && !m.deleted,
        message_settings(r.set@) == edit_settings(mentions@, everyone, now),
{
    let mut set: Vec<MessageSetting> = Vec::new();
    set.push(MessageSetting { field: MessageField::Content, value: MessageValue::Prepared });
    set.push(MessageSetting { field: MessageField::SearchText, value: MessageValue::Prepared });
    set.push(MessageSetting { field: MessageField::SearchTokens, value: MessageValue::Prepared });
    set.push(MessageSetting { field: MessageField::Mentions, value: MessageValue::Ids(mentions) });
    set.push(
        MessageSetting { field: MessageField::MentionsEveryone, value: MessageValue::Flag(everyone) },
    );
    set.push(MessageSetting { field: MessageField::Edited, value: MessageValue::Flag(true) });
    set.push(MessageSetting { field: MessageField::EditedAt, value: MessageValue::Time(now) });
    set.push(MessageSetting { field: MessageField::UpdatedAt, value: MessageValue::Time(now) });
    proof {
        assert(message_settings(set@) =~= edit_settings(mentions@, everyone, now));
    }
    MessageUpdate { filter: MessageFilter::live(id), set }
}

/// What is stored of messages that are read.
pub open spec fn read_settings(now: i64) -> Seq<(MessageField, MessageValueView)> {
    seq![
        (MessageField::Read, MessageValueView::Flag(true)),
        (MessageField::UpdatedAt, MessageValueView::Time(now)),
    ]
}

/// Marks the messages of a filter as read.
pub fn read_update(filter: MessageFilter, now: i64) -> (r: MessageUpdate)
    ensures
        r.filter == filter,
        message_settings(r.set@) == read_settings(now),
{
    let mut set: Vec<MessageSetting> = Vec::new();
    set.push(MessageSetting { field: MessageField::Read, value: MessageValue::Flag(true) });
    set.push(MessageSetting { field: MessageField::UpdatedAt, value: MessageValue::Time(now) });
    proof {
        assert(message_settings(set@) =~= read_settings(now));
    }
    MessageUpdate { filter, set }
}

/// Only the log of a call that lasted is the log of a talk.
pub proof fn talks_are_calls_that_lasted(m: MessageRecord)
    ensures
        m.is_talk() <==> m.message_type == MessageType::Call && m.duration_ms is Some
            && m.duration_ms->0 != 0,
{
}

/// A message is between two users exactly if one of them sent it to the other; it is with any of
/// some others exactly if it is between the user and one of them.
pub proof fn messages_are_between_their_two_ends(
    m: MessageRecord,
    a: ObjectId,
    b: ObjectId,
    others: Seq<ObjectId>,
)
    ensures
        m.is_between(a, b) <==> m.recipient is Some && ((m.sender == a && m.recipient->0 == b) || (
        m.sender == b && m.recipient->0 == a)),
        m.is_with_any(a, others) <==> exists|x: ObjectId| others.contains(x) && #[trigger]
            m.is_between(a, x),
        m.sender == a ==> m.other(a) == m.recipient,
        m.sender != a ==> m.other(a) == Some(m.sender),
        m.is_between(a, b) ==> m.other(a) == Some(b) && m.other(b) == Some(a),
{
    if m.is_with_any(a, others) {
        if m.sender == a && m.recipient is Some && others.contains(m.recipient->0) {
            assert(m.is_between(a, m.recipient->0));
        } else {
            assert(m.is_between(a, m.sender));
        }
    }
}

/// A message is meant exactly if nothing that is asked speaks against it, and a message belongs
/// under its sender or under the other one of the conversation.
pub proof fn every_condition_of_a_filter_counts(f: MessageFilter, m: MessageRecord, user: ObjectId)
    ensures
        f.fits(m) ==> !(f.unread && m.read) && !(f.live && m.deleted) && !(f.direct && !m.direct)
            && !(f.no_talks && m.is_talk()),
        f.fits(m) && f.ids is Some ==> f.ids->0@.contains(m.id),
        f.parties is Anybody && f.ids is None ==> (f.fits(m) <==> (f.unread ==> !m.read) && (f.live
            ==> !m.deleted) && (f.direct ==> m.direct) && (f.no_talks ==> !m.is_talk())),
        GroupBy::Sender.key_of(m) == Some(m.sender),
        m.sender == user ==> GroupBy::Other(user).key_of(m) == m.recipient,
        m.sender != user ==> GroupBy::Other(user).key_of(m) == Some(m.sender),
{
}

/// A message that was sent later is newer whatever its identifier; of two that were sent at once,
/// the one with the greater identifier is. Being newer passes on.
pub proof fn later_messages_are_newer(a: MessageRecord, b: MessageRecord, c: MessageRecord)
    ensures
        a.sent_at > b.sent_at ==> newer(a, b),
        a.sent_at < b.sent_at ==> !newer(a, b),
        a.sent_at == b.sent_at && a.id.hi > b.id.hi ==> newer(a, b),
        a.sent_at == b.sent_at && a.id.hi == b.id.hi && a.id.mid > b.id.mid ==> newer(a, b),
        a.sent_at == b.sent_at && a.id.hi == b.id.hi && a.id.mid == b.id.mid && a.id.lo > b.id.lo
            ==> newer(a, b),
        newer(a, b) && newer(b, c) ==> newer(a, c),
        !newer(a, a),
{
}

/// One more message under a key raises its count by one, and any other message leaves it.
pub proof fn counts_grow_with_what_fits(
    s: Seq<MessageRecord>,
    f: MessageFilter,
    g: GroupBy,
    key: ObjectId,
    m: MessageRecord,
)
    ensures
        count_under(Seq::empty(), f, g, key) == 0,
        f.fits(m) && g.key_of(m) == Some(key) ==> count_under(s.push(m), f, g, key) == count_under(
            s,
            f,
            g,
            key,
        ) + 1,
        !(f.fits(m) && g.key_of(m) == Some(key)) ==> count_under(s.push(m), f, g, key)
            == count_under(s, f, g, key),
{
    reveal(Seq::filter);
    assert(s.push(m).drop_last() =~= s);
}

/// The last message under a key belongs there, and of all that do it is the newest.
pub proof fn the_last_message_is_the_newest(
    s: Seq<MessageRecord>,
    f: MessageFilter,
    g: GroupBy,
    key: ObjectId,
    last: MessageRecord,
    m: MessageRecord,
)
    requires
        is_last_under(s, f, g, key, last),
    ensures
        s.contains(last) && f.fits(last) && g.key_of(last) == Some(key),
        s.contains(m) && f.fits(m) && g.key_of(m) == Some(key) && m.id != last.id ==> newer(last, m),
{
}

/// Each field of a message is stored under a name of its own.
pub proof fn message_fields_have_their_names(f: MessageField)
    ensures
        f is Content ==> message_field_name_of(f) == "content",
        f is SearchText ==> message_field_name_of(f) == "searchText",
        f is SearchTokens ==> message_field_name_of(f) == "searchTokens",
        f is Mentions ==> message_field_name_of(f) == "mentions",
        f is MentionsEveryone ==> message_field_name_of(f) == "mentionsEveryone",
        f is Edited ==> message_field_name_of(f) == "edited",
        f is EditedAt ==> message_field_name_of(f) == "editedAt",
        f is Read ==> message_field_name_of(f) == "read",
        f is UpdatedAt ==> message_field_name_of(f) == "updatedAt",
{
}

/// An edit stores the prepared text in three forms, exactly these mentions, and that it was
/// edited now; reading stores that the message is read. Neither touches what the other does.
pub proof fn edits_and_reads_store_what_they_say(mentions: Seq<ObjectId>, everyone: bool, now: i64)
    ensures
        ({
            let s = edit_settings(mentions, everyone, now);
            &&& s.len() == 8
            &&& s.contains((MessageField::Content, MessageValueView::Prepared))
            &&& s.contains((MessageField::SearchText, MessageValueView::Prepared))
            &&& s.contains((MessageField::SearchTokens, MessageValueView::Prepared))
            &&& s.contains((MessageField::Mentions, MessageValueView::Ids(mentions)))
            &&& s.contains((MessageField::MentionsEveryone, MessageValueView::Flag(everyone)))
            &&& s.contains((MessageField::Edited, MessageValueView::Flag(true)))
            &&& s.contains((MessageField::EditedAt, MessageValueView::Time(now)))
            &&& s.contains((MessageField::UpdatedAt, MessageValueView::Time(now)))
        }),
        read_settings(now).len() == 2,
        read_settings(now).contains((MessageField::Read, MessageValueView::Flag(true))),
        read_settings(now).contains((MessageField::UpdatedAt, MessageValueView::Time(now))),
{
    let s = edit_settings(mentions, everyone, now);
    assert(s[0] == (MessageField::Content, MessageValueView::Prepared));
    assert(s[1] == (MessageField::SearchText, MessageValueView::Prepared));
    assert(s[2] == (MessageField::SearchTokens, MessageValueView::Prepared));
    assert(s[3] == (MessageField::Mentions, MessageValueView::Ids(mentions)));
    assert(s[4] == (MessageField::MentionsEveryone, MessageValueView::Flag(everyone)));
    assert(s[5] == (MessageField::Edited, MessageValueView::Flag(true)));
    assert(s[6] == (MessageField::EditedAt, MessageValueView::Time(now)));
    assert(s[7] == (MessageField::UpdatedAt, MessageValueView::Time(now)));
    let r = read_settings(now);
    assert(r[0] == (MessageField::Read, MessageValueView::Flag(true)));
    assert(r[1] == (MessageField::UpdatedAt, MessageValueView::Time(now)));
}

/// What is set of a message is taken over one by one.
pub proof fn message_settings_keep_their_order(v: Seq<MessageSetting>, i: int)
    requires
        0 <= i < v.len(),
    ensures
        message_settings(v).len() == v.len(),
        message_settings(v)[i].0 == v[i].field,
        message_settings(v)[i].1 == v[i].value@,
{
}

} // verus!
