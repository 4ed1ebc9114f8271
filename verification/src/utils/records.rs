//! Which stored records go with an account.
use vstd::prelude::*;
use crate::ids::ObjectId;
use crate::lists::{copy_ids, filter_keeps_what_fits, other_than};
use crate::utils::admin::{purge_user_data_next, step_number, PurgeStep};

verus! {

/// The kinds of stored record.
#[derive(Clone, Copy, Debug, PartialEq, Eq, Structural)]
pub enum RecordKind {
    Users,
    Messages,
    FriendRequests,
    Invites,
    Channels,
    ReadStates,
    ConversationTips,
}

/// The collection that holds the records of a kind.
pub open spec fn collection_name_of(kind: RecordKind) -> &'static str {
    match kind {
        RecordKind::Users => "users",
        RecordKind::Messages => "messages",
        RecordKind::FriendRequests => "friend_requests",
        RecordKind::Invites => "invites",
        RecordKind::Channels => "channels",
        RecordKind::ReadStates => "channel_read_states",
        RecordKind::ConversationTips => "dm_conversation_tips",
    }
}

/// The collection that holds the records of a kind.
pub fn collection_name(kind: RecordKind) -> (r: &'static str)
    ensures
        r == collection_name_of(kind),
{
    match kind {
        RecordKind::Users => "users",
        RecordKind::Messages => "messages",
        RecordKind::FriendRequests => "friend_requests",
        RecordKind::Invites => "invites",
        RecordKind::Channels => "channels",
        RecordKind::ReadStates => "channel_read_states",
        RecordKind::ConversationTips => "dm_conversation_tips",
    }
}

/// The fields of stored records that hold identifiers.
#[derive(Clone, Copy, Debug, PartialEq, Eq, Structural)]
pub enum RecordField {
    Id,
    Sender,
    Recipient,
    Channel,
    From,
    To,
    CreatedBy,
    ChannelId,
    UserA,
    UserB,
    Members,
    Admin,
}

/// The name under which a field is stored.
pub open spec fn record_field_name_of(f: RecordField) -> &'static str {
    match f {
        RecordField::Id => "_id",
        RecordField::Sender => "sender",
        RecordField::Recipient => "recipient",
        RecordField::Channel => "channel",
        RecordField::From => "from",
        RecordField::To => "to",
        RecordField::CreatedBy => "createdBy",
        RecordField::ChannelId => "channelId",
        RecordField::UserA => "userA",
        RecordField::UserB => "userB",
        RecordField::Members => "members",
        RecordField::Admin => "admin",
    }
}

/// The name under which a field is stored.
pub fn record_field_name(f: RecordField) -> (r: &'static str)
    ensures
        r == record_field_name_of(f),
{
    match f {
        RecordField::Id => "_id",
        RecordField::Sender => "sender",
        RecordField::Recipient => "recipient",
        RecordField::Channel => "channel",
        RecordField::From => "from",
        RecordField::To => "to",
        RecordField::CreatedBy => "createdBy",
        RecordField::ChannelId => "channelId",
        RecordField::UserA => "userA",
        RecordField::UserB => "userB",
        RecordField::Members => "members",
        RecordField::Admin => "admin",
    }
}

/// A stored record, as far as it holds identifiers: what stands in each of its fields, one
/// identifier or a list of them.
pub type StoredRecord = Map<RecordField, Seq<ObjectId>>;

/// All that is stored.
pub type Stored = spec_fn(RecordKind) -> Seq<StoredRecord>;

/// Whether an identifier stands in a field of a record.
pub open spec fn holds(r: StoredRecord, field: RecordField, id: ObjectId) -> bool {
    r.dom().contains(field) && r[field].contains(id)
}

/// What a record has to hold.
pub enum Matching {
    Is { field: RecordField, id: ObjectId },
    Either { first: RecordField, second: RecordField, id: ObjectId },
    AnyOf { field: RecordField, ids: Vec<ObjectId> },
}

/// What a record has to hold.
#[verifier::ext_equal]
pub enum MatchingView {
    Is { field: RecordField, id: ObjectId },
    Either { first: RecordField, second: RecordField, id: ObjectId },
    AnyOf { field: RecordField, ids: Seq<ObjectId> },
}

impl View for Matching {
    type V = MatchingView;

    open spec fn view(&self) -> MatchingView {
        match self {
            Matching::Is { field, id } => MatchingView::Is { field: *field, id: *id },
            Matching::Either { first, second, id } => MatchingView::Either {
                first: *first,
                second: *second,
                id: *id,
            },
            Matching::AnyOf { field, ids } => MatchingView::AnyOf { field: *field, ids: ids@ },
        }
    }
}

impl MatchingView {
    /// Whether a record is meant.
    pub open spec fn fits(self, r: StoredRecord) -> bool {
        match self {
            MatchingView::Is { field, id } => holds(r, field, id),
            MatchingView::Either { first, second, id } => holds(r, first, id) || holds(
                r,
                second,
                id,
            ),
            MatchingView::AnyOf { field, ids } => exists|id: ObjectId|
                ids.contains(id) && #[trigger] holds(r, field, id),
        }
    }
}

/// The channels that a user owns.
pub open spec fn owned_by(user: ObjectId) -> MatchingView {
    MatchingView::Is { field: RecordField::Admin, id: user }
}

/// The channels that a user owns.
pub fn owned_channels(user: ObjectId) -> (r: Matching)
    ensures
        r@ == owned_by(user),
{
    Matching::Is { field: RecordField::Admin, id: user }
}

/// The channels that a user is a member of.
pub fn member_channels(user: ObjectId) -> (r: Matching)
    ensures
        r@ == (MatchingView::Is { field: RecordField::Members, id: user }),
{
    Matching::Is { field: RecordField::Members, id: user }
}

/// What a step of deleting an account does to what is stored.
pub enum PurgeAction {
    /// It changes nothing.
    Nothing,
    /// It deletes the records of a kind that fit.
    Delete { kind: RecordKind, matching: Matching },
    /// It takes a user out of the members of every channel.
    LeaveAll(ObjectId),
}

/// What a step of deleting an account does to what is stored.
#[verifier::ext_equal]
pub enum PurgeActionView {
    Nothing,
    Delete { kind: RecordKind, matching: MatchingView },
    LeaveAll(ObjectId),
}

impl View for PurgeAction {
    type V = PurgeActionView;

    open spec fn view(&self) -> PurgeActionView {
        match self {
            PurgeAction::Nothing => PurgeActionView::Nothing,
            PurgeAction::Delete { kind, matching } => PurgeActionView::Delete {
                kind: *kind,
                matching: matching@,
            },
            PurgeAction::LeaveAll(user) => PurgeActionView::LeaveAll(*user),
        }
    }
}

/// What a step of deleting the account of `user`, who owns the channels `owned`, does to what
/// is stored.
pub open spec fn purge_action_of(at: PurgeStep, user: ObjectId, owned: Seq<ObjectId>) -> PurgeActionView {
    match at {
        PurgeStep::DeleteTips => PurgeActionView::Delete {
            kind: RecordKind::ConversationTips,
            matching: MatchingView::Either {
                first: RecordField::UserA,
                second: RecordField::UserB,
                id: user,
            },
        },
        PurgeStep::DeleteMessages => PurgeActionView::Delete {
            kind: RecordKind::Messages,
            matching: MatchingView::Either {
                first: RecordField::Sender,
                second: RecordField::Recipient,
                id: user,
            },
        },
        PurgeStep::DeleteFriendRequests => PurgeActionView::Delete {
            kind: RecordKind::FriendRequests,
            matching: MatchingView::Either {
                first: RecordField::From,
                second: RecordField::To,
                id: user,
            },
        },
        PurgeStep::DeleteInvites => PurgeActionView::Delete {
            kind: RecordKind::Invites,
            matching: MatchingView::Is { field: RecordField::CreatedBy, id: user },
        },
        PurgeStep::LeaveChannels => PurgeActionView::LeaveAll(user),
        PurgeStep::DeleteChannelMessages => PurgeActionView::Delete {
            kind: RecordKind::Messages,
            matching: MatchingView::AnyOf { field: RecordField::Channel, ids: owned },
        },
        PurgeStep::DeleteChannelInvites => PurgeActionView::Delete {
            kind: RecordKind::Invites,
            matching: MatchingView::AnyOf { field: RecordField::ChannelId, ids: owned },
        },
        PurgeStep::DeleteReadStates => PurgeActionView::Delete {
            kind: RecordKind::ReadStates,
            matching: MatchingView::AnyOf { field: RecordField::ChannelId, ids: owned },
        },
        PurgeStep::DeleteChannels => PurgeActionView::Delete {
            kind: RecordKind::Channels,
            matching: MatchingView::AnyOf { field: RecordField::Id, ids: owned },
        },
        PurgeStep::DeleteUser => PurgeActionView::Delete {
            kind: RecordKind::Users,
            matching: MatchingView::Is { field: RecordField::Id, id: user },
        },
        _ => PurgeActionView::Nothing,
    }
}

/// What a step of deleting an account does to what is stored.
pub fn purge_action(at: PurgeStep, user: ObjectId, owned: &Vec<ObjectId>) -> (r: PurgeAction)
    ensures
        r@ == purge_action_of(at, user, owned@),
{
    match at {
        PurgeStep::DeleteTips => PurgeAction::Delete {
            kind: RecordKind::ConversationTips,
            matching: Matching::Either {
                first: RecordField::UserA,
                second: RecordField::UserB,
                id: user,
            },
        },
        PurgeStep::DeleteMessages => PurgeAction::Delete {
            kind: RecordKind::Messages,
            matching: Matching::Either {
                first: RecordField::Sender,
                second: RecordField::Recipient,
                id: user,
            },
        },
        PurgeStep::DeleteFriendRequests => PurgeAction::Delete {
            kind: RecordKind::FriendRequests,
            matching: Matching::Either {
                first: RecordField::From,
                second: RecordField::To,
                id: user,
            },
        },
        PurgeStep::DeleteInvites => PurgeAction::Delete {
            kind: RecordKind::Invites,
            matching: Matching::Is { field: RecordField::CreatedBy, id: user },
        },
        PurgeStep::LeaveChannels => PurgeAction::LeaveAll(user),
        PurgeStep::DeleteChannelMessages => PurgeAction::Delete {
            kind: RecordKind::Messages,
            matching: Matching::AnyOf { field: RecordField::Channel, ids: copy_ids(owned) },
        },
        PurgeStep::DeleteChannelInvites => PurgeAction::Delete {
            kind: RecordKind::Invites,
            matching: Matching::AnyOf { field: RecordField::ChannelId, ids: copy_ids(owned) },
        },
        PurgeStep::DeleteReadStates => PurgeAction::Delete {
            kind: RecordKind::ReadStates,
            matching: Matching::AnyOf { field: RecordField::ChannelId, ids: copy_ids(owned) },
        },
        PurgeStep::DeleteChannels => PurgeAction::Delete {
            kind: RecordKind::Channels,
            matching: Matching::AnyOf { field: RecordField::Id, ids: copy_ids(owned) },
        },
        PurgeStep::DeleteUser => PurgeAction::Delete {
            kind: RecordKind::Users,
            matching: Matching::Is { field: RecordField::Id, id: user },
        },
        _ => PurgeAction::Nothing,
    }
}

/// Not being meant.
pub open spec fn unlike(m: MatchingView) -> spec_fn(StoredRecord) -> bool {
    |r: StoredRecord| !m.fits(r)
}

/// A channel without a user among its members.
pub open spec fn without_member(c: StoredRecord, user: ObjectId) -> StoredRecord {
    if holds(c, RecordField::Members, user) {
        c.insert(RecordField::Members, c[RecordField::Members].filter(other_than(user)))
    } else {
        c
    }
}

/// Taking a user out of the members of a channel.
pub open spec fn leaving(user: ObjectId) -> spec_fn(StoredRecord) -> StoredRecord {
    |c: StoredRecord| without_member(c, user)
}

/// The records of a kind after an action.
pub open spec fn after_action(action: PurgeActionView, kind: RecordKind, s: Seq<StoredRecord>) -> Seq<
    StoredRecord,
> {
    match action {
        PurgeActionView::Nothing => s,
        PurgeActionView::Delete { kind: k, matching } => if k == kind {
            s.filter(unlike(matching))
        } else {
            s
        },
        PurgeActionView::LeaveAll(user) => if kind == RecordKind::Channels {
            s.map_values(leaving(user))
        } else {
            s
        },
    }
}

/// The records of a kind after an account was deleted, from a step on, where every step works.
pub open spec fn after_purge(
    at: PurgeStep,
    user: ObjectId,
    owned: Seq<ObjectId>,
    kind: RecordKind,
    s: Seq<StoredRecord>,
) -> Seq<StoredRecord>
    decreases 20 - step_number(at),
{
    if at is Done || at is Failed {
        s
    } else {
        after_purge(
            purge_user_data_next(at, true, owned.len() > 0),
            user,
            owned,
            kind,
            after_action(purge_action_of(at, user, owned), kind, s),
        )
    }
}

/// Whether a record of a kind other than channels goes with the account of `user`, who owns the
/// channels `owned`.
pub open spec fn goes_with(
    kind: RecordKind,
    r: StoredRecord,
    user: ObjectId,
    owned: Seq<ObjectId>,
) -> bool {
    let in_owned = |field: RecordField|
        exists|c: ObjectId| owned.contains(c) && #[trigger] holds(r, field, c);
    match kind {
        RecordKind::Users => holds(r, RecordField::Id, user),
        RecordKind::Messages => holds(r, RecordField::Sender, user) || holds(
            r,
            RecordField::Recipient,
            user,
        ) || in_owned(RecordField::Channel),
        RecordKind::FriendRequests => holds(r, RecordField::From, user) || holds(
            r,
            RecordField::To,
            user,
        ),
        RecordKind::Invites => holds(r, RecordField::CreatedBy, user) || in_owned(
            RecordField::ChannelId,
        ),
        RecordKind::ReadStates => in_owned(RecordField::ChannelId),
        RecordKind::ConversationTips => holds(r, RecordField::UserA, user) || holds(
            r,
            RecordField::UserB,
            user,
        ),
        RecordKind::Channels => false,
    }
}

/// Where every step of deleting an account works, what is left of each kind of record but
/// channels is exactly what does not go with the account: no user with its identifier, no
/// message that it sent or got or that stands in a channel it owned, no invitation to a
/// friendship from or to it, no invitation to a channel that it made or into a channel it
/// owned, and no conversation of it.
pub proof fn deleted_accounts_leave_nothing(
    user: ObjectId,
    owned: Seq<ObjectId>,
    kind: RecordKind,
    s: Seq<StoredRecord>,
    r: StoredRecord,
)
    requires
        kind != RecordKind::Channels,
    ensures
        after_purge(PurgeStep::FindFriendships, user, owned, kind, s).contains(r) <==> s.contains(r)
            && !goes_with(kind, r, user, owned),
{
    reveal_with_fuel(after_purge, 21);
    let tips = MatchingView::Either {
        first: RecordField::UserA,
        second: RecordField::UserB,
        id: user,
    };
    let own_messages = MatchingView::Either {
        first: RecordField::Sender,
        second: RecordField::Recipient,
        id: user,
    };
    let requests = MatchingView::Either {
        first: RecordField::From,
        second: RecordField::To,
        id: user,
    };
    let own_invites = MatchingView::Is { field: RecordField::CreatedBy, id: user };
    let messages_in = MatchingView::AnyOf { field: RecordField::Channel, ids: owned };
    let in_channels = MatchingView::AnyOf { field: RecordField::ChannelId, ids: owned };
    let own = MatchingView::Is { field: RecordField::Id, id: user };
    filter_keeps_what_fits(s, unlike(tips));
    filter_keeps_what_fits(s, unlike(own_messages));
    filter_keeps_what_fits(s.filter(unlike(own_messages)), unlike(messages_in));
    filter_keeps_what_fits(s, unlike(requests));
    filter_keeps_what_fits(s, unlike(own_invites));
    filter_keeps_what_fits(s.filter(unlike(own_invites)), unlike(in_channels));
    filter_keeps_what_fits(s, unlike(in_channels));
    filter_keeps_what_fits(s, unlike(own));
    assert(s.filter(unlike(own_messages)).contains(r) <==> s.contains(r) && unlike(own_messages)(r));
    assert(s.filter(unlike(own_invites)).contains(r) <==> s.contains(r) && unlike(own_invites)(r));
}

/// The identifier of a channel.
pub open spec fn channel_key() -> spec_fn(StoredRecord) -> ObjectId {
    |c: StoredRecord| c[RecordField::Id][0]
}

/// Whether stored channels have one identifier each, and no two the same.
pub open spec fn channels_differ(s: Seq<StoredRecord>) -> bool {
    &&& forall|i: int|
        0 <= i < s.len() ==> (#[trigger] s[i]).dom().contains(RecordField::Id)
            && s[i][RecordField::Id].len() == 1
    &&& forall|i: int, j: int|
        0 <= i < j < s.len() ==> channel_key()(#[trigger] s[i]) != channel_key()(#[trigger] s[j])
}

/// The identifiers of the channels that a user owns, in order.
pub open spec fn owned_ids(s: Seq<StoredRecord>, user: ObjectId) -> Seq<ObjectId> {
    s.filter(|c: StoredRecord| owned_by(user).fits(c)).map_values(channel_key())
}

/// Where every step of deleting an account works, every channel that it owned is gone, and every
/// other one is still there and has lost nothing but this member.
pub proof fn other_channels_stay(
    user: ObjectId,
    channels: Seq<StoredRecord>,
    i: int,
)
    requires
        channels_differ(channels),
        0 <= i < channels.len(),
    ensures
        !owned_by(user).fits(channels[i]) ==> after_purge(
            PurgeStep::FindFriendships,
            user,
            owned_ids(channels, user),
            RecordKind::Channels,
            channels,
        ).contains(without_member(channels[i], user)),
        forall|c: StoredRecord| #[trigger]
            after_purge(
                PurgeStep::FindFriendships,
                user,
                owned_ids(channels, user),
                RecordKind::Channels,
                channels,
            ).contains(c) ==> !owned_by(user).fits(c) && !holds(c, RecordField::Members, user)
                && exists|j: int|
                0 <= j < channels.len() && c == #[trigger] without_member(channels[j], user),
{
    reveal_with_fuel(after_purge, 21);
    let owned = owned_ids(channels, user);
    let mine = |c: StoredRecord| owned_by(user).fits(c);
    let f = channels.filter(mine);
    let left = channels.map_values(leaving(user));
    let gone = MatchingView::AnyOf { field: RecordField::Id, ids: owned };
    let result = after_purge(
        PurgeStep::FindFriendships,
        user,
        owned,
        RecordKind::Channels,
        channels,
    );
    filter_keeps_what_fits(channels, mine);
    filter_keeps_what_fits(left, unlike(gone));
    assert forall|j: int| 0 <= j < channels.len() implies {
        let c = #[trigger] channels[j];
        let w = without_member(c, user);
        &&& owned.contains(channel_key()(c)) <==> mine(c)
        &&& channel_key()(w) == channel_key()(c)
        &&& gone.fits(w) <==> mine(c)
        &&& owned_by(user).fits(w) <==> mine(c)
        &&& !holds(w, RecordField::Members, user)
    } by {
        let c = channels[j];
        let w = without_member(c, user);
        let key = channel_key()(c);
        if mine(c) {
            assert(f.contains(c) <==> channels.contains(c) && mine(c));
            assert(channels.contains(c));
            let k = choose|k: int| 0 <= k < f.len() && f[k] == c;
            assert(owned[k] == key);
        }
        if owned.contains(key) {
            let k = choose|k: int| 0 <= k < owned.len() && owned[k] == key;
            let d = f[k];
            assert(f.contains(d) <==> channels.contains(d) && mine(d));
            assert(f.contains(d));
            let l = choose|l: int| 0 <= l < channels.len() && channels[l] == d;
            assert(channel_key()(channels[l]) == channel_key()(channels[j]));
            assert(l == j);
        }
        assert(w[RecordField::Id] == c[RecordField::Id]);
        assert(c[RecordField::Id][0] == key);
        assert forall|x: ObjectId| holds(w, RecordField::Id, x) <==> x == key by {
            if x == key {
                assert(w[RecordField::Id][0] == x);
            }
        }
        if owned.contains(key) {
            assert(holds(w, RecordField::Id, key));
        }
        if holds(c, RecordField::Members, user) {
            filter_keeps_what_fits(c[RecordField::Members], other_than(user));
            let m = c[RecordField::Members].filter(other_than(user));
            assert(w[RecordField::Members] == m);
            assert(m.contains(user) <==> c[RecordField::Members].contains(user) && other_than(user)(
                user,
            ));
        }
    }
    if owned.len() == 0 {
        assert(result == left);
        assert forall|j: int| 0 <= j < channels.len() implies !mine(#[trigger] channels[j]) by {
            assert(owned.contains(channel_key()(channels[j])) <==> mine(channels[j]));
        }
    } else {
        assert(result == left.filter(unlike(gone)));
    }
    assert(left[i] == without_member(channels[i], user));
    assert(left.contains(left[i]));
    assert(channels[i] == channels[i]);
    if owned.len() > 0 {
        assert(result.contains(left[i]) <==> left.contains(left[i]) && unlike(gone)(left[i]));
    }
    assert forall|c: StoredRecord| #[trigger] result.contains(c) implies !owned_by(user).fits(c)
        && !holds(c, RecordField::Members, user) && exists|j: int|
        0 <= j < channels.len() && c == #[trigger] without_member(channels[j], user) by {
        if owned.len() > 0 {
            assert(result.contains(c) <==> left.contains(c) && unlike(gone)(c));
        }
        let j = choose|j: int| 0 <= j < left.len() && left[j] == c;
        assert(c == without_member(channels[j], user));
    }
}

/// How many fields of users are no longer used.
pub const REMOVED_USER_FIELDS: usize = 8;

/// The fields of users that are no longer used.
pub open spec fn removed_user_field_of(i: usize) -> Option<&'static str> {
    match i {
        0 => Some("e2eEnabled"),
        1 => Some("role"),
        2 => Some("isAdmin"),
        3 => Some("listeningActivity"),
        4 => Some("shareListening"),
        5 => Some("connectedAccounts"),
        6 => Some("badges"),
        7 => Some("featuredBadgeIds"),
        _ => None,
    }
}

/// The fields of users that are no longer used.
pub fn removed_user_field(i: usize) -> (r: Option<&'static str>)
    ensures
        r == removed_user_field_of(i),
{
    match i {
        0 => Some("e2eEnabled"),
        1 => Some("role"),
        2 => Some("isAdmin"),
        3 => Some("listeningActivity"),
        4 => Some("shareListening"),
        5 => Some("connectedAccounts"),
        6 => Some("badges"),
        7 => Some("featuredBadgeIds"),
        _ => None,
    }
}

/// How many fields of messages are no longer used.
pub const REMOVED_MESSAGE_FIELDS: usize = 2;

/// The fields of messages that are no longer used.
pub open spec fn removed_message_field_of(i: usize) -> Option<&'static str> {
    match i {
        0 => Some("e2eEncrypted"),
        1 => Some("e2eVersion"),
        _ => None,
    }
}

/// The fields of messages that are no longer used.
pub fn removed_message_field(i: usize) -> (r: Option<&'static str>)
    ensures
        r == removed_message_field_of(i),
{
    match i {
        0 => Some("e2eEncrypted"),
        1 => Some("e2eVersion"),
        _ => None,
    }
}

/// The fields are numbered without a gap.
pub proof fn removed_fields_are_numbered(i: usize)
    ensures
        removed_user_field_of(i) is Some <==> i < REMOVED_USER_FIELDS,
        removed_message_field_of(i) is Some <==> i < REMOVED_MESSAGE_FIELDS,
{
}

/// Each kind of record lies in its collection, and each field has its name there.
pub proof fn records_have_their_place(k: RecordKind, f: RecordField)
    ensures
        k is Users ==> collection_name_of(k) == "users",
        k is Messages ==> collection_name_of(k) == "messages",
        k is FriendRequests ==> collection_name_of(k) == "friend_requests",
        k is Invites ==> collection_name_of(k) == "invites",
        k is Channels ==> collection_name_of(k) == "channels",
        k is ReadStates ==> collection_name_of(k) == "channel_read_states",
        k is ConversationTips ==> collection_name_of(k) == "dm_conversation_tips",
        f is Id ==> record_field_name_of(f) == "_id",
        f is Sender ==> record_field_name_of(f) == "sender",
        f is Recipient ==> record_field_name_of(f) == "recipient",
        f is Channel ==> record_field_name_of(f) == "channel",
        f is From ==> record_field_name_of(f) == "from",
        f is To ==> record_field_name_of(f) == "to",
        f is CreatedBy ==> record_field_name_of(f) == "createdBy",
        f is ChannelId ==> record_field_name_of(f) == "channelId",
        f is UserA ==> record_field_name_of(f) == "userA",
        f is UserB ==> record_field_name_of(f) == "userB",
        f is Members ==> record_field_name_of(f) == "members",
        f is Admin ==> record_field_name_of(f) == "admin",
{
}

/// The fields that are no longer used are these, one for each number.
pub proof fn unused_fields_have_their_names(i: usize)
    ensures
        REMOVED_USER_FIELDS == 8,
        REMOVED_MESSAGE_FIELDS == 2,
        i == 0 ==> removed_user_field_of(i) == Some("e2eEnabled"),
        i == 1 ==> removed_user_field_of(i) == Some("role"),
        i == 2 ==> removed_user_field_of(i) == Some("isAdmin"),
        i == 3 ==> removed_user_field_of(i) == Some("listeningActivity"),
        i == 4 ==> removed_user_field_of(i) == Some("shareListening"),
        i == 5 ==> removed_user_field_of(i) == Some("connectedAccounts"),
        i == 6 ==> removed_user_field_of(i) == Some("badges"),
        i == 7 ==> removed_user_field_of(i) == Some("featuredBadgeIds"),
        i == 0 ==> removed_message_field_of(i) == Some("e2eEncrypted"),
        i == 1 ==> removed_message_field_of(i) == Some("e2eVersion"),
{
}

/// A step of deleting an account deletes exactly the records of one kind that name the user, or one
/// of their channels, in the fields that say so; a step that only looks or tells deletes nothing.
pub proof fn steps_delete_what_names_the_user(
    at: PurgeStep,
    user: ObjectId,
    owned: Seq<ObjectId>,
    kind: RecordKind,
    s: Seq<StoredRecord>,
    r: StoredRecord,
)
    requires
        s.contains(r),
        !(at is LeaveChannels),
    ensures
        ({
            let gone = !after_action(purge_action_of(at, user, owned), kind, s).contains(r);
            let here = |field: RecordField|
                r.dom().contains(field) && exists|c: ObjectId|
                    owned.contains(c) && #[trigger] r[field].contains(c);
            let names = |field: RecordField| r.dom().contains(field) && r[field].contains(user);
            gone <==> {
                ||| at is DeleteTips && kind is ConversationTips && (names(RecordField::UserA)
                    || names(RecordField::UserB))
                ||| at is DeleteMessages && kind is Messages && (names(RecordField::Sender) || names(
                    RecordField::Recipient,
                ))
                ||| at is DeleteFriendRequests && kind is FriendRequests && (names(
                    RecordField::From,
                ) || names(RecordField::To))
                ||| at is DeleteInvites && kind is Invites && names(RecordField::CreatedBy)
                ||| at is DeleteChannelMessages && kind is Messages && here(RecordField::Channel)
                ||| at is DeleteChannelInvites && kind is Invites && here(RecordField::ChannelId)
                ||| at is DeleteReadStates && kind is ReadStates && here(RecordField::ChannelId)
                ||| at is DeleteChannels && kind is Channels && here(RecordField::Id)
                ||| at is DeleteUser && kind is Users && names(RecordField::Id)
            }
        }),
{
    match purge_action_of(at, user, owned) {
        PurgeActionView::Delete { kind: k, matching } => {
            filter_keeps_what_fits(s, unlike(matching));
            assert(s.filter(unlike(matching)).contains(r) <==> s.contains(r) && unlike(matching)(r));
            match matching {
                MatchingView::AnyOf { field, ids } => {
                    if matching.fits(r) {
                        let c = choose|id: ObjectId| ids.contains(id) && #[trigger] holds(r, field, id);
                        assert(owned.contains(c) && r[field].contains(c));
                    }
                    assert forall|c: ObjectId| owned.contains(c) && r.dom().contains(field)
                        && #[trigger] r[field].contains(c) implies matching.fits(r) by {
                        assert(holds(r, field, c));
                    }
                },
                _ => {},
            }
        },
        _ => {},
    }
}

/// Leaving all channels takes the user out of each list of members and changes nothing else.
pub proof fn leaving_takes_out_one_member(
    user: ObjectId,
    owned: Seq<ObjectId>,
    kind: RecordKind,
    s: Seq<StoredRecord>,
    i: int,
    x: ObjectId,
    f: RecordField,
)
    requires
        0 <= i < s.len(),
    ensures
        ({
            let after = after_action(
                purge_action_of(PurgeStep::LeaveChannels, user, owned),
                kind,
                s,
            );
            &&& after.len() == s.len()
            &&& !(kind is Channels) ==> after == s
            &&& f != RecordField::Members ==> after[i][f] == s[i][f]
            &&& after[i].dom().contains(f) <==> s[i].dom().contains(f)
            &&& kind is Channels && s[i].dom().contains(RecordField::Members) ==> (
            after[i][RecordField::Members].contains(x) <==> s[i][RecordField::Members].contains(x)
                && x != user)
        }),
{
    let m = s[i][RecordField::Members];
    filter_keeps_what_fits(m, other_than(user));
    assert(m.filter(other_than(user)).contains(x) <==> m.contains(x) && other_than(user)(x));
    if kind is Channels {
        let after = after_action(purge_action_of(PurgeStep::LeaveChannels, user, owned), kind, s);
        assert(after[i] == without_member(s[i], user));
    }
}

/// A channel is owned by a user exactly if they are its admin.
pub proof fn admins_own_their_channels(user: ObjectId, c: StoredRecord)
    ensures
        owned_by(user).fits(c) <==> c.dom().contains(RecordField::Admin)
            && c[RecordField::Admin].contains(user),
{
}

} // verus!
