//! Deleting accounts with everything that belongs to them, and tidying stored records.
use vstd::prelude::*;
use crate::ids::ObjectId;
use crate::lists::{all_but, contains_id, copy_ids, hex_all, hex_ids, filter_keeps_what_fits, ids_but, ids_missing_from, missing_from,
    other_than, outside, texts};
use crate::model::update::{deletion_time, is_update, settings, FieldSet, FieldValue, FieldView, Update, UserField};
use crate::model::users::User;
use crate::text;
use crate::ws::calls::{cut_off_call, cut_off_notices, notices, CallNotice, CallSession};
use crate::ws::channel::{channel_recipient_ids, channel_recipients, recipients_of, Channel};
use crate::ws::frames::{empty_frame, plain_frame, text_field, Frame, FrameFieldView, FrameValue,
    FrameValueView, FrameView};

verus! {

/// How many days pass between the wish to delete an account and its deletion.
pub const DELETION_GRACE_DAYS: i64 = 7;

/// What tidying away fields and collections that are no longer used changed.
#[derive(Clone, Copy, Debug, PartialEq, Eq, Structural)]
pub struct PurgeRemovedSchemaReport {
    pub users_modified: u64,
    pub messages_modified: u64,
    pub e2e_keys_dropped: bool,
}

impl Default for PurgeRemovedSchemaReport {
    fn default() -> (r: PurgeRemovedSchemaReport)
        ensures
            r == (PurgeRemovedSchemaReport {
                users_modified: 0,
                messages_modified: 0,
                e2e_keys_dropped: false,
            }),
    {
        PurgeRemovedSchemaReport {
            users_modified: 0,
            messages_modified: 0,
            e2e_keys_dropped: false,
        }
    }
}

/// Whether an error over dropping a collection only says that it was not there.
pub open spec fn says_not_there(message: Seq<char>) -> bool {
    text::occurs_in(message, "NamespaceNotFound"@) || text::occurs_in(message, "ns not found"@)
}

/// Whether an error over dropping a collection only says that it was not there.
pub fn drop_error_tolerated(message: &str) -> (r: bool)
    ensures
        r == says_not_there(message@),
{
    text::contains_text(message, "NamespaceNotFound") || text::contains_text(
        message,
        "ns not found",
    )
}

/// How many collections are no longer used.
pub const DROPPED_COLLECTIONS: u8 = 4;

/// The collections that are no longer used, in the order in which they are dropped.
pub open spec fn dropped_collection_of(i: u8) -> &'static str {
    if i == 0 {
        "e2e_keys"
    } else if i == 1 {
        "oauth_tokens"
    } else if i == 2 {
        "push_tokens"
    } else {
        "badges"
    }
}

/// The collections that are no longer used, in the order in which they are dropped.
pub fn dropped_collection(i: u8) -> (r: &'static str)
    ensures
        r == dropped_collection_of(i),
{
    if i == 0 {
        "e2e_keys"
    } else if i == 1 {
        "oauth_tokens"
    } else if i == 2 {
        "push_tokens"
    } else {
        "badges"
    }
}

/// What became of dropping a collection.
#[derive(Clone, Copy, Debug, PartialEq, Eq, Structural)]
pub enum DropReply {
    Dropped,
    /// It was not there, as [`drop_error_tolerated`] says.
    NotThere,
    Failed,
}

/// How far tidying has come.
#[derive(Clone, Copy, Debug, PartialEq, Eq, Structural)]
pub enum SchemaPurge {
    /// Take the fields that are no longer used from users, as
    /// [`removed_user_field`](crate::utils::records::removed_user_field) names them.
    CleanUsers,
    /// Take the fields that are no longer used from messages.
    CleanMessages { users_modified: u64 },
    /// Drop the collection with this number.
    Drop { number: u8, report: PurgeRemovedSchemaReport },
    Failed,
    Done(PurgeRemovedSchemaReport),
}

/// What the last step of tidying said.
#[derive(Clone, Copy, Debug, PartialEq, Eq, Structural)]
pub enum SchemaReply {
    /// How many records were changed.
    Modified(u64),
    Dropped(DropReply),
    Failed,
}

/// How tidying goes on after a step. It ends with the first error, but for a collection that
/// was not there.
pub open spec fn purge_removed_schema_fields_next(at: SchemaPurge, reply: SchemaReply) -> SchemaPurge {
    match (at, reply) {
        (SchemaPurge::CleanUsers, SchemaReply::Modified(n)) => SchemaPurge::CleanMessages {
            users_modified: n,
        },
        (SchemaPurge::CleanMessages { users_modified }, SchemaReply::Modified(n)) =>
            SchemaPurge::Drop {
            number: 0,
            report: PurgeRemovedSchemaReport {
                users_modified,
                messages_modified: n,
                e2e_keys_dropped: false,
            },
        },
        (SchemaPurge::Drop { number, report }, SchemaReply::Dropped(d)) => if d
            == DropReply::Failed {
            SchemaPurge::Failed
        } else {
            let now = PurgeRemovedSchemaReport {
                users_modified: report.users_modified,
                messages_modified: report.messages_modified,
                e2e_keys_dropped: report.e2e_keys_dropped || (number == 0 && d
                    == DropReply::Dropped),
            };
            if number >= DROPPED_COLLECTIONS - 1 {
                SchemaPurge::Done(now)
            } else {
                SchemaPurge::Drop { number: (number + 1) as u8, report: now }
            }
        },
        (SchemaPurge::Done(report), _) => SchemaPurge::Done(report),
        _ => SchemaPurge::Failed,
    }
}

/// How tidying goes on after a step. It ends with the first error, but for a collection that
/// was not there.
pub fn purge_removed_schema_fields(at: SchemaPurge, reply: SchemaReply) -> (r: SchemaPurge)
    ensures
        r == purge_removed_schema_fields_next(at, reply),
{
    match (at, reply) {
        (SchemaPurge::CleanUsers, SchemaReply::Modified(n)) => SchemaPurge::CleanMessages {
            users_modified: n,
        },
        (SchemaPurge::CleanMessages { users_modified }, SchemaReply::Modified(n)) =>
            SchemaPurge::Drop {
            number: 0,
            report: PurgeRemovedSchemaReport {
                users_modified,
                messages_modified: n,
                e2e_keys_dropped: false,
            },
        },
        (SchemaPurge::Drop { number, report }, SchemaReply::Dropped(d)) => if d
            == DropReply::Failed {
            SchemaPurge::Failed
        } else {
            let now = PurgeRemovedSchemaReport {
                users_modified: report.users_modified,
                messages_modified: report.messages_modified,
                e2e_keys_dropped: report.e2e_keys_dropped || (number == 0 && d
                    == DropReply::Dropped),
            };
            if number >= DROPPED_COLLECTIONS - 1 {
                SchemaPurge::Done(now)
            } else {
                SchemaPurge::Drop { number: (number + 1) as u8, report: now }
            }
        },
        (SchemaPurge::Done(report), _) => SchemaPurge::Done(report),
        _ => SchemaPurge::Failed,
    }
}

/// The keys under which the file of a message may be stored: its path, and its path without
/// the slash that it starts with.
pub open spec fn attachment_keys_of(path: Seq<char>) -> Seq<Seq<char>> {
    if path.len() > 0 && path[0] == '/' {
        seq![path, path.skip(1)]
    } else {
        seq![path]
    }
}

/// The keys under which the file of a message may be stored.
pub fn delete_message_attachment(path: &str) -> (r: Vec<String>)
    ensures
        texts(r@) == attachment_keys_of(path@),
{
    let mut out: Vec<String> = Vec::new();
    out.push(path.to_owned());
    let n: usize = path.unicode_len();
    if n > 0 && path.get_char(0) == '/' {
        let rest = path.substring_char(1, n);
        proof {
            assert(path@.subrange(1, n as int) =~= path@.skip(1));
        }
        out.push(rest.to_owned());
    }
    proof {
        assert(texts(out@) =~= attachment_keys_of(path@));
    }
    out
}

/// Whether the picture of a channel is deleted with the account of its admin: there is one,
/// and it belongs to the channel.
pub fn deletes_channel_picture(image: &str, owned_by_channel: bool) -> (r: bool)
    ensures
        r == (image@.len() > 0 && owned_by_channel),
{
    !image.is_empty() && owned_by_channel
}

/// Which messages the files of a deleted account are looked for in.
#[derive(Clone, Copy, Debug, PartialEq, Eq, Structural)]
pub enum AttachmentScope {
    /// Those that they sent or got.
    Own,
    /// Those, and the messages of the channels that they own.
    OwnAndChannels,
}

/// Which messages the files of a deleted account are looked for in.
pub fn attachment_scope(owned_channels: &Vec<ObjectId>) -> (r: AttachmentScope)
    ensures
        r == (if owned_channels@.len() == 0 {
            AttachmentScope::Own
        } else {
            AttachmentScope::OwnAndChannels
        }),
{
    if owned_channels.len() == 0 {
        AttachmentScope::Own
    } else {
        AttachmentScope::OwnAndChannels
    }
}

/// A stored message, as far as its file goes with an account.
#[derive(Clone, Copy, Debug, PartialEq, Eq, Structural)]
pub struct FileRecord {
    pub sender: ObjectId,
    pub recipient: Option<ObjectId>,
    pub channel: Option<ObjectId>,
    pub has_file: bool,
}

/// Which messages are meant: those with a file that a user sent or got, or that are in one of
/// these channels.
pub struct AttachmentFilter {
    pub user: ObjectId,
    pub channels: Vec<ObjectId>,
}

impl AttachmentFilter {
    /// Whether a message is meant.
    pub open spec fn fits(self, m: FileRecord) -> bool {
        m.has_file && (m.sender == self.user || m.recipient == Some(self.user) || match m.channel {
            Some(c) => self.channels@.contains(c),
            None => false,
        })
    }

    /// Whether a message is meant.
    pub fn selects(&self, m: &FileRecord) -> (r: bool)
        ensures
            r == self.fits(*m),
    {
        let in_channel = match m.channel {
            Some(c) => contains_id(&self.channels, c),
            None => false,
        };
        m.has_file && (m.sender == self.user || m.recipient == Some(self.user) || in_channel)
    }
}

/// The messages whose files are deleted with an account: those that the user sent or got, and
/// those in the channels that they own.
pub fn attachments_of(user: ObjectId, owned: &Vec<ObjectId>) -> (r: AttachmentFilter)
    ensures
        r.user == user,
        r.channels@ == owned@,
{
    AttachmentFilter { user, channels: copy_ids(owned) }
}

/// Without channels of their own, only the files of messages that a user sent or got go with the
/// account; [`attachment_scope`] says so too.
pub proof fn files_of_others_stay(filter: AttachmentFilter, m: FileRecord)
    requires
        filter.channels@.len() == 0,
        m.sender != filter.user,
        m.recipient != Some(filter.user),
    ensures
        !filter.fits(m),
{
}

/// What both sides of a call are told when the account of one of them is deleted.
pub fn end_call_of_deleted(s: &CallSession, user_hex: &str) -> (r: Vec<CallNotice>)
    ensures
        notices(r@) == cut_off_notices(*s, user_hex@, "ACCOUNT_DELETED"),
{
    cut_off_call(s, user_hex, "ACCOUNT_DELETED")
}

/// The people of a channel who remain when one leaves. Their number is the new member count.
pub open spec fn remaining_in(
    members: Seq<ObjectId>,
    admin: ObjectId,
    user: ObjectId,
) -> Seq<ObjectId> {
    all_but(recipients_of(members, admin), user)
}

/// The people of a channel who remain when one leaves.
pub fn remaining_recipients(channel: &Channel, user: ObjectId) -> (r: Vec<ObjectId>)
    ensures
        r@ == remaining_in(channel.members@, channel.admin, user),
{
    ids_but(&channel_recipients(channel), user)
}

/// Who left a channel is not told of anything in it any more; everybody else is.
pub proof fn leavers_are_not_told(
    members: Seq<ObjectId>,
    admin: ObjectId,
    user: ObjectId,
    x: ObjectId,
)
    ensures
        remaining_in(members, admin, user).contains(x) <==> (members.contains(x) || x == admin) && x
            != user,
{
    crate::ws::channel::recipients_are_members_and_admin(members, admin);
    filter_keeps_what_fits(recipients_of(members, admin), other_than(user));
    assert(recipients_of(members, admin).contains(x) <==> members.contains(x) || x == admin);
}

/// The channels whose latest message has to be found anew: those that the user wrote to, but
/// for their own, which are deleted.
pub fn tips_to_recompute(written: &Vec<ObjectId>, owned: &Vec<ObjectId>) -> (r: Vec<ObjectId>)
    ensures
        r@ == missing_from(written@, owned@),
{
    ids_missing_from(written, owned)
}

/// A channel that is deleted gets no new latest message.
pub proof fn deleted_channels_get_no_tip(written: Seq<ObjectId>, owned: Seq<ObjectId>, c: ObjectId)
    ensures
        missing_from(written, owned).contains(c) <==> written.contains(c) && !owned.contains(c),
{
    filter_keeps_what_fits(written, outside(owned));
}

/// The steps of deleting the data of an account. What each of them does to what is stored is
/// said by [`purge_action`](crate::utils::records::purge_action).
#[derive(Clone, Copy, Debug, PartialEq, Eq, Structural)]
pub enum PurgeStep {
    FindFriendships,
    /// Forget each friendship, its tip and its call.
    EndFriendships,
    EndCalls,
    LeaveVoice,
    DeleteTips,
    /// Find the channels that the user wrote to.
    FindWrittenChannels,
    DeleteMessages,
    DeleteFriendRequests,
    DeleteInvites,
    FindMemberChannels,
    LeaveChannels,
    /// Tell those who remain in each channel.
    TellChannels,
    FindOwnedChannels,
    RecomputeTips,
    /// Tell the people of each channel that is deleted.
    TellOwnedChannels,
    DeleteChannelMessages,
    DeleteChannelInvites,
    DeleteReadStates,
    DeleteChannels,
    DeleteUser,
    Failed,
    Done,
}

/// Whether deleting an account ends when a step fails.
pub open spec fn must_succeed(s: PurgeStep) -> bool {
    match s {
        PurgeStep::FindFriendships
        | PurgeStep::DeleteMessages
        | PurgeStep::DeleteFriendRequests
        | PurgeStep::DeleteInvites
        | PurgeStep::LeaveChannels
        | PurgeStep::FindOwnedChannels
        | PurgeStep::DeleteChannelMessages
        | PurgeStep::DeleteChannelInvites
        | PurgeStep::DeleteChannels
        | PurgeStep::DeleteUser => true,
        _ => false,
    }
}

/// Whether deleting an account ends when a step fails.
pub fn must_succeed_step(s: PurgeStep) -> (r: bool)
    ensures
        r == must_succeed(s),
{
    match s {
        PurgeStep::FindFriendships
        | PurgeStep::DeleteMessages
        | PurgeStep::DeleteFriendRequests
        | PurgeStep::DeleteInvites
        | PurgeStep::LeaveChannels
        | PurgeStep::FindOwnedChannels
        | PurgeStep::DeleteChannelMessages
        | PurgeStep::DeleteChannelInvites
        | PurgeStep::DeleteChannels
        | PurgeStep::DeleteUser => true,
        _ => false,
    }
}

/// The step that follows a step of deleting the data of an account. `ok` says whether the step
/// worked, `owns_channels` whether the user owns channels.
pub open spec fn purge_user_data_next(at: PurgeStep, ok: bool, owns_channels: bool) -> PurgeStep {
    if !ok && must_succeed(at) {
        PurgeStep::Failed
    } else {
        match at {
            PurgeStep::FindFriendships => PurgeStep::EndFriendships,
            PurgeStep::EndFriendships => PurgeStep::EndCalls,
            PurgeStep::EndCalls => PurgeStep::LeaveVoice,
            PurgeStep::LeaveVoice => PurgeStep::DeleteTips,
            PurgeStep::DeleteTips => PurgeStep::FindWrittenChannels,
            PurgeStep::FindWrittenChannels => PurgeStep::DeleteMessages,
            PurgeStep::DeleteMessages => PurgeStep::DeleteFriendRequests,
            PurgeStep::DeleteFriendRequests => PurgeStep::DeleteInvites,
            PurgeStep::DeleteInvites => PurgeStep::FindMemberChannels,
            PurgeStep::FindMemberChannels => PurgeStep::LeaveChannels,
            PurgeStep::LeaveChannels => PurgeStep::TellChannels,
            PurgeStep::TellChannels => PurgeStep::FindOwnedChannels,
            PurgeStep::FindOwnedChannels => PurgeStep::RecomputeTips,
            PurgeStep::RecomputeTips => if owns_channels {
                PurgeStep::TellOwnedChannels
            } else {
                PurgeStep::DeleteUser
            },
            PurgeStep::TellOwnedChannels => PurgeStep::DeleteChannelMessages,
            PurgeStep::DeleteChannelMessages => PurgeStep::DeleteChannelInvites,
            PurgeStep::DeleteChannelInvites => PurgeStep::DeleteReadStates,
            PurgeStep::DeleteReadStates => PurgeStep::DeleteChannels,
            PurgeStep::DeleteChannels => PurgeStep::DeleteUser,
            PurgeStep::DeleteUser => PurgeStep::Done,
            PurgeStep::Failed => PurgeStep::Failed,
            PurgeStep::Done => PurgeStep::Done,
        }
    }
}

/// The step that follows a step of deleting the data of an account. `ok` says whether the step
/// worked, `owns_channels` whether the user owns channels.
pub fn purge_user_data(at: PurgeStep, ok: bool, owns_channels: bool) -> (r: PurgeStep)
    ensures
        r == purge_user_data_next(at, ok, owns_channels),
{
    if !ok && must_succeed_step(at) {
        PurgeStep::Failed
    } else {
        match at {
            PurgeStep::FindFriendships => PurgeStep::EndFriendships,
            PurgeStep::EndFriendships => PurgeStep::EndCalls,
            PurgeStep::EndCalls => PurgeStep::LeaveVoice,
            PurgeStep::LeaveVoice => PurgeStep::DeleteTips,
            PurgeStep::DeleteTips => PurgeStep::FindWrittenChannels,
            PurgeStep::FindWrittenChannels => PurgeStep::DeleteMessages,
            PurgeStep::DeleteMessages => PurgeStep::DeleteFriendRequests,
            PurgeStep::DeleteFriendRequests => PurgeStep::DeleteInvites,
            PurgeStep::DeleteInvites => PurgeStep::FindMemberChannels,
            PurgeStep::FindMemberChannels => PurgeStep::LeaveChannels,
            PurgeStep::LeaveChannels => PurgeStep::TellChannels,
            PurgeStep::TellChannels => PurgeStep::FindOwnedChannels,
            PurgeStep::FindOwnedChannels => PurgeStep::RecomputeTips,
            PurgeStep::RecomputeTips => if owns_channels {
                PurgeStep::TellOwnedChannels
            } else {
                PurgeStep::DeleteUser
            },
            PurgeStep::TellOwnedChannels => PurgeStep::DeleteChannelMessages,
            PurgeStep::DeleteChannelMessages => PurgeStep::DeleteChannelInvites,
            PurgeStep::DeleteChannelInvites => PurgeStep::DeleteReadStates,
            PurgeStep::DeleteReadStates => PurgeStep::DeleteChannels,
            PurgeStep::DeleteChannels => PurgeStep::DeleteUser,
            PurgeStep::DeleteUser => PurgeStep::Done,
            PurgeStep::Failed => PurgeStep::Failed,
            PurgeStep::Done => PurgeStep::Done,
        }
    }
}

/// The number of a step in their order.
pub open spec fn step_number(s: PurgeStep) -> int {
    match s {
        PurgeStep::FindFriendships => 0,
        PurgeStep::EndFriendships => 1,
        PurgeStep::EndCalls => 2,
        PurgeStep::LeaveVoice => 3,
        PurgeStep::DeleteTips => 4,
        PurgeStep::FindWrittenChannels => 5,
        PurgeStep::DeleteMessages => 6,
        PurgeStep::DeleteFriendRequests => 7,
        PurgeStep::DeleteInvites => 8,
        PurgeStep::FindMemberChannels => 9,
        PurgeStep::LeaveChannels => 10,
        PurgeStep::TellChannels => 11,
        PurgeStep::FindOwnedChannels => 12,
        PurgeStep::RecomputeTips => 13,
        PurgeStep::TellOwnedChannels => 14,
        PurgeStep::DeleteChannelMessages => 15,
        PurgeStep::DeleteChannelInvites => 16,
        PurgeStep::DeleteReadStates => 17,
        PurgeStep::DeleteChannels => 18,
        PurgeStep::DeleteUser => 19,
        PurgeStep::Failed => 20,
        PurgeStep::Done => 20,
    }
}

/// Deleting an account goes forward with each step, and so comes to an end; the account itself
/// is the last thing to go, and it is gone only if that worked. Where the account owns
/// channels, they are deleted before it.
pub proof fn deleting_an_account_goes_forward(at: PurgeStep, ok: bool, owns_channels: bool)
    ensures
        !(at is Failed || at is Done) ==> step_number(purge_user_data_next(at, ok, owns_channels))
            > step_number(at),
        purge_user_data_next(at, ok, owns_channels) is Done ==> at is Done || (at is DeleteUser
            && ok),
        purge_user_data_next(at, ok, owns_channels) is DeleteUser && owns_channels ==> at
            is DeleteChannels && ok,
        must_succeed(at) && !ok ==> purge_user_data_next(at, ok, owns_channels) is Failed,
{
}

/// How many channels go with an account: those that it owns.
pub fn channels_deleted(owned: &Vec<ObjectId>) -> (r: u64)
    ensures
        r == owned@.len(),
{
    owned.len() as u64
}

/// The steps of deleting an account completely.
#[derive(Clone, Copy, Debug, PartialEq, Eq, Structural)]
pub enum PurgeAccount {
    FindUser,
    DeleteFiles,
    DeleteRelated,
    Disconnect,
    DeleteData,
    /// There is no such account, or the store could not be reached.
    Failed,
}

/// The step that follows a step of deleting an account completely; the last one is deleting
/// its data. `ok` says whether the step worked: only the first one has to.
pub open spec fn purge_user_completely_next(at: PurgeAccount, ok: bool) -> PurgeAccount {
    match at {
        PurgeAccount::FindUser => if ok {
            PurgeAccount::DeleteFiles
        } else {
            PurgeAccount::Failed
        },
        PurgeAccount::DeleteFiles => PurgeAccount::DeleteRelated,
        PurgeAccount::DeleteRelated => PurgeAccount::Disconnect,
        PurgeAccount::Disconnect => PurgeAccount::DeleteData,
        PurgeAccount::DeleteData => PurgeAccount::DeleteData,
        PurgeAccount::Failed => PurgeAccount::Failed,
    }
}

/// The step that follows a step of deleting an account completely; the last one is deleting
/// its data. `ok` says whether the step worked: only the first one has to.
pub fn purge_user_completely(at: PurgeAccount, ok: bool) -> (r: PurgeAccount)
    ensures
        r == purge_user_completely_next(at, ok),
{
    match at {
        PurgeAccount::FindUser => if ok {
            PurgeAccount::DeleteFiles
        } else {
            PurgeAccount::Failed
        },
        PurgeAccount::DeleteFiles => PurgeAccount::DeleteRelated,
        PurgeAccount::DeleteRelated => PurgeAccount::Disconnect,
        PurgeAccount::Disconnect => PurgeAccount::DeleteData,
        PurgeAccount::DeleteData => PurgeAccount::DeleteData,
        PurgeAccount::Failed => PurgeAccount::Failed,
    }
}

/// How many of some deletions worked.
pub open spec fn worked(results: Seq<bool>) -> nat
    decreases results.len(),
{
    if results.len() == 0 {
        0
    } else if results.last() {
        worked(results.drop_last()) + 1
    } else {
        worked(results.drop_last())
    }
}

/// How many accounts were deleted, out of what became of each that was due.
pub fn process_scheduled_deletions(results: &Vec<bool>) -> (r: u64)
    ensures
        r == worked(results@),
        r <= results@.len(),
{
    let mut deleted: u64 = 0;
    let mut i: usize = 0;
    while i < results.len()
        invariant
            i <= results.len(),
            deleted == worked(results@.take(i as int)),
            deleted <= i,
        decreases results.len() - i,
    {
        proof {
            assert(results@.take(i + 1).drop_last() =~= results@.take(i as int));
        }
        if results[i] {
            deleted = deleted + 1;
        }
        i = i + 1;
    }
    proof {
        assert(results@.take(results@.len() as int) =~= results@);
    }
    deleted
}

/// Whether an account is due to be deleted: its deletion is scheduled, and the time has come.
pub open spec fn is_due(scheduled_at: Option<i64>, now: i64) -> bool {
    match scheduled_at {
        Some(t) => t <= now,
        None => false,
    }
}

/// Whether an account is due to be deleted: its deletion is scheduled, and the time has come.
pub fn deletion_due(scheduled_at: Option<i64>, now: i64) -> (r: bool)
    ensures
        r == is_due(scheduled_at, now),
{
    match scheduled_at {
        Some(t) => t <= now,
        None => false,
    }
}

/// Which accounts are looked for to be deleted: those whose field says at most this time.
#[derive(Clone, Copy, Debug, PartialEq, Eq, Structural)]
pub struct DueFilter {
    pub field: UserField,
    pub at_most: i64,
}

impl DueFilter {
    /// Whether an account is meant.
    pub open spec fn fits(self, u: User) -> bool {
        self.field == UserField::DeletionScheduledAt && is_due(u.deletion_scheduled_at, self.at_most)
    }

    /// Whether an account is meant.
    pub fn selects(&self, u: &User) -> (r: bool)
        ensures
            r == self.fits(*u),
    {
        match self.field {
            UserField::DeletionScheduledAt => deletion_due(u.deletion_scheduled_at, self.at_most),
            _ => false,
        }
    }
}

/// The accounts that are due to be deleted now.
pub fn due_accounts(now: i64) -> (r: DueFilter)
    ensures
        forall|u: User| #[trigger] r.fits(u) <==> is_due(u.deletion_scheduled_at, now),
{
    DueFilter { field: UserField::DeletionScheduledAt, at_most: now }
}

/// The identifiers of accounts that have one, in order.
pub open spec fn account_ids(users: Seq<User>) -> Seq<ObjectId>
    decreases users.len(),
{
    if users.len() == 0 {
        Seq::empty()
    } else {
        match users.last().id {
            Some(id) => account_ids(users.drop_last()).push(id),
            None => account_ids(users.drop_last()),
        }
    }
}

/// The accounts that are deleted, out of those that were found to be due: in order, and each
/// that has an identifier.
pub fn ids_to_purge(users: &Vec<User>) -> (r: Vec<ObjectId>)
    ensures
        r@ == account_ids(users@),
{
    let mut out: Vec<ObjectId> = Vec::new();
    let mut i: usize = 0;
    while i < users.len()
        invariant
            i <= users.len(),
            out@ == account_ids(users@.take(i as int)),
        decreases users.len() - i,
    {
        proof {
            assert(users@.take(i + 1).drop_last() =~= users@.take(i as int));
        }
        match users[i].id {
            Some(id) => out.push(id),
            None => {},
        }
        i = i + 1;
    }
    proof {
        assert(users@.take(users@.len() as int) =~= users@);
    }
    out
}

/// An account falls due exactly when the days of grace after the wish have passed, and one whose
/// deletion is not scheduled never does.
pub proof fn accounts_fall_due_after_their_grace(wished: i64, now: i64)
    requires
        deletion_time(wished as int) <= i64::MAX,
    ensures
        is_due(Some(deletion_time(wished as int) as i64), now) <==> now - wished
            >= DELETION_GRACE_DAYS * 86_400_000,
        !is_due(None, now),
{
}

/// What belongs to an account and is removed before the account itself.
#[derive(Clone, Copy, Debug, PartialEq, Eq, Structural)]
pub enum RelatedRecords {
    /// Refresh tokens are revoked; all else is deleted.
    RefreshTokens,
    Warnings,
    PendingUploads,
    StorageUsage,
    ChannelReadStates,
    ChannelReports,
}

/// What is removed next of what belongs to an account; `done` is what was removed last, whether
/// or not that worked.
pub open spec fn purge_user_related_records_next(done: Option<RelatedRecords>) -> Option<RelatedRecords> {
    match done {
        None => Some(RelatedRecords::RefreshTokens),
        Some(RelatedRecords::RefreshTokens) => Some(RelatedRecords::Warnings),
        Some(RelatedRecords::Warnings) => Some(RelatedRecords::PendingUploads),
        Some(RelatedRecords::PendingUploads) => Some(RelatedRecords::StorageUsage),
        Some(RelatedRecords::StorageUsage) => Some(RelatedRecords::ChannelReadStates),
        Some(RelatedRecords::ChannelReadStates) => Some(RelatedRecords::ChannelReports),
        Some(RelatedRecords::ChannelReports) => None,
    }
}

/// What is removed next of what belongs to an account; `done` is what was removed last, whether
/// or not that worked.
pub fn purge_user_related_records(done: Option<RelatedRecords>) -> (r: Option<RelatedRecords>)
    ensures
        r == purge_user_related_records_next(done),
{
    match done {
        None => Some(RelatedRecords::RefreshTokens),
        Some(RelatedRecords::RefreshTokens) => Some(RelatedRecords::Warnings),
        Some(RelatedRecords::Warnings) => Some(RelatedRecords::PendingUploads),
        Some(RelatedRecords::PendingUploads) => Some(RelatedRecords::StorageUsage),
        Some(RelatedRecords::StorageUsage) => Some(RelatedRecords::ChannelReadStates),
        Some(RelatedRecords::ChannelReadStates) => Some(RelatedRecords::ChannelReports),
        Some(RelatedRecords::ChannelReports) => None,
    }
}

/// The collection that holds further records of an account.
pub open spec fn related_collection_of(records: RelatedRecords) -> &'static str {
    match records {
        RelatedRecords::RefreshTokens => "refresh_tokens",
        RelatedRecords::Warnings => "warnings",
        RelatedRecords::PendingUploads => "pending_uploads",
        RelatedRecords::StorageUsage => "user_storage_usage",
        RelatedRecords::ChannelReadStates => "channel_read_states",
        RelatedRecords::ChannelReports => "channel_reports",
    }
}

/// The collection that holds further records of an account.
pub fn related_collection(records: RelatedRecords) -> (r: &'static str)
    ensures
        r == related_collection_of(records),
{
    match records {
        RelatedRecords::RefreshTokens => "refresh_tokens",
        RelatedRecords::Warnings => "warnings",
        RelatedRecords::PendingUploads => "pending_uploads",
        RelatedRecords::StorageUsage => "user_storage_usage",
        RelatedRecords::ChannelReadStates => "channel_read_states",
        RelatedRecords::ChannelReports => "channel_reports",
    }
}

/// The field by which what belongs to an account names it.
pub open spec fn owner_field_of(records: RelatedRecords) -> &'static str {
    match records {
        RelatedRecords::ChannelReports => "reportedBy",
        _ => "userId",
    }
}

/// The field by which what belongs to an account names it.
pub fn owner_field(records: RelatedRecords) -> (r: &'static str)
    ensures
        r == owner_field_of(records),
{
    match records {
        RelatedRecords::ChannelReports => "reportedBy",
        _ => "userId",
    }
}

/// Which part of the file store a file is in.
#[derive(Clone, Copy, Debug, PartialEq, Eq, Structural)]
pub enum FileKind {
    Avatar,
    PublicMedia,
    Attachment,
}

/// A file that is deleted with an account.
pub struct StoredFile {
    pub kind: FileKind,
    pub key: String,
}

/// A channel that an account owns. `owns_picture`: its picture belongs to the channel.
pub struct OwnedChannel {
    pub image: String,
    pub owns_picture: bool,
}

/// The files as kinds and keys.
pub open spec fn files(v: Seq<StoredFile>) -> Seq<(FileKind, Seq<char>)> {
    v.map_values(|f: StoredFile| (f.kind, f.key@))
}

/// The file under an optional key.
pub open spec fn optional_file(kind: FileKind, key: Option<String>) -> Seq<(FileKind, Seq<char>)> {
    match key {
        Some(k) => seq![(kind, k@)],
        None => Seq::empty(),
    }
}

/// The pictures of channels that are deleted, in order.
pub open spec fn channel_pictures(channels: Seq<OwnedChannel>) -> Seq<(FileKind, Seq<char>)>
    decreases channels.len(),
{
    if channels.len() == 0 {
        Seq::empty()
    } else {
        let before = channel_pictures(channels.drop_last());
        let last = channels.last();
        if last.image@.len() > 0 && last.owns_picture {
            before.push((FileKind::Avatar, last.image@))
        } else {
            before
        }
    }
}

/// The files of uploads that no message has taken yet, in order.
pub open spec fn upload_files(paths: Seq<String>) -> Seq<(FileKind, Seq<char>)> {
    paths.map_values(|p: String| (FileKind::Attachment, p@))
}

/// Attachments under these keys.
pub open spec fn as_attachments(keys: Seq<Seq<char>>) -> Seq<(FileKind, Seq<char>)> {
    keys.map_values(|k: Seq<char>| (FileKind::Attachment, k))
}

/// The files of messages, in order: under the path, and under the path without a leading slash
/// where it has one.
pub open spec fn message_files(paths: Seq<String>) -> Seq<(FileKind, Seq<char>)>
    decreases paths.len(),
{
    if paths.len() == 0 {
        Seq::empty()
    } else {
        message_files(paths.drop_last()) + as_attachments(attachment_keys_of(paths.last()@))
    }
}

fn put_file(v: &mut Vec<StoredFile>, kind: FileKind, key: &str)
    ensures
        files(final(v)@) == files(old(v)@).push((kind, key@)),
{
    let ghost before = v@;
    v.push(StoredFile { kind, key: key.to_owned() });
    proof {
        assert(files(v@) =~= files(before).push((kind, key@)));
    }
}

/// All files that are deleted with an account: its pictures, those of its channels, its uploads,
/// and the attachments of its messages.
pub fn delete_user_storage_files(
    user: &User,
    channels: &Vec<OwnedChannel>,
    uploads: &Vec<String>,
    attachments: &Vec<String>,
) -> (r: Vec<StoredFile>)
    ensures
        files(r@) == optional_file(FileKind::Avatar, user.image) + optional_file(
            FileKind::PublicMedia,
            user.banner,
        ) + channel_pictures(channels@) + upload_files(uploads@) + message_files(attachments@),
{
    let mut out: Vec<StoredFile> = Vec::new();
    proof {
        assert(files(out@) =~= Seq::empty());
    }
    match &user.image {
        Some(k) => put_file(&mut out, FileKind::Avatar, k),
        None => {},
    }
    proof {
        assert(files(out@) =~= optional_file(FileKind::Avatar, user.image));
    }
    let ghost start = files(out@);
    match &user.banner {
        Some(k) => put_file(&mut out, FileKind::PublicMedia, k),
        None => {},
    }
    proof {
        assert(files(out@) =~= start + optional_file(FileKind::PublicMedia, user.banner));
    }
    let ghost own = files(out@);
    let mut i: usize = 0;
    proof {
        assert(own + channel_pictures(channels@.take(0)) =~= own);
    }
    while i < channels.len()
        invariant
            i <= channels.len(),
            files(out@) == own + channel_pictures(channels@.take(i as int)),
        decreases channels.len() - i,
    {
        proof {
            assert(channels@.take(i + 1).drop_last() =~= channels@.take(i as int));
        }
        let ghost before = channel_pictures(channels@.take(i as int));
        if deletes_channel_picture(&channels[i].image, channels[i].owns_picture) {
            put_file(&mut out, FileKind::Avatar, &channels[i].image);
            proof {
                let x = (FileKind::Avatar, channels@[i as int].image@);
                assert((own + before).push(x) =~= own + before.push(x));
            }
        }
        i = i + 1;
    }
    proof {
        assert(channels@.take(channels@.len() as int) =~= channels@);
    }
    let ghost pictures = files(out@);
    let mut j: usize = 0;
    proof {
        assert(pictures + upload_files(uploads@.take(0)) =~= pictures);
    }
    while j < uploads.len()
        invariant
            j <= uploads.len(),
            files(out@) == pictures + upload_files(uploads@.take(j as int)),
        decreases uploads.len() - j,
    {
        put_file(&mut out, FileKind::Attachment, &uploads[j]);
        proof {
            let x = (FileKind::Attachment, uploads@[j as int]@);
            assert((pictures + upload_files(uploads@.take(j as int))).push(x) =~= pictures
                + upload_files(uploads@.take(j + 1)));
        }
        j = j + 1;
    }
    proof {
        assert(uploads@.take(uploads@.len() as int) =~= uploads@);
    }
    let ghost uploaded = files(out@);
    let mut k: usize = 0;
    proof {
        assert(uploaded + message_files(attachments@.take(0)) =~= uploaded);
    }
    while k < attachments.len()
        invariant
            k <= attachments.len(),
            files(out@) == uploaded + message_files(attachments@.take(k as int)),
        decreases attachments.len() - k,
    {
        proof {
            assert(attachments@.take(k + 1).drop_last() =~= attachments@.take(k as int));
        }
        let ghost before = files(out@);
        let keys = delete_message_attachment(&attachments[k]);
        let mut m: usize = 0;
        let ghost all = attachment_keys_of(attachments@[k as int]@);
        proof {
            assert(before + as_attachments(all.take(0)) =~= before);
        }
        while m < keys.len()
            invariant
                m <= keys.len(),
                texts(keys@) == all,
                files(out@) == before + as_attachments(all.take(m as int)),
            decreases keys.len() - m,
        {
            put_file(&mut out, FileKind::Attachment, &keys[m]);
            proof {
                assert(all[m as int] == keys@[m as int]@);
                let x = (FileKind::Attachment, all[m as int]);
                assert((before + as_attachments(all.take(m as int))).push(x) =~= before + as_attachments(all.take(m + 1)));
            }
            m = m + 1;
        }
        proof {
            assert(all.take(all.len() as int) =~= all);
            assert(before + as_attachments(all) =~= uploaded
                + message_files(attachments@.take(k + 1)));
        }
        k = k + 1;
    }
    proof {
        assert(attachments@.take(attachments@.len() as int) =~= attachments@);
    }
    out
}

/// What mends an account whose switch is neither on nor off: it is not switched off.
pub fn repair_broken_account_status_fields() -> (r: Update)
    ensures
        is_update(
            r,
            seq![(UserField::IsDisabled, FieldView::Flag(false))],
            seq![UserField::DisabledAt],
            false,
        ),
{
    let mut set: Vec<FieldSet> = Vec::new();
    set.push(FieldSet { field: UserField::IsDisabled, value: FieldValue::Flag(false) });
    let mut unset: Vec<UserField> = Vec::new();
    unset.push(UserField::DisabledAt);
    proof {
        assert(settings(set@) =~= seq![(UserField::IsDisabled, FieldView::Flag(false))]);
        assert(unset@ =~= seq![UserField::DisabledAt]);
    }
    Update { set, unset, next_version: false }
}

/// The frame that tells those who remain in a channel that somebody left, and how many they are.
pub open spec fn member_left_frame_of(
    members: Seq<ObjectId>,
    admin: ObjectId,
    channel_oid: ObjectId,
    user: ObjectId,
) -> FrameView {
    let left = remaining_in(members, admin, user);
    plain_frame(
        hex_all(left),
        "channel-member-left"@,
        seq![
            text_field("channelId"@, channel_oid.hex()),
            text_field("userId"@, user.hex()),
            FrameFieldView {
                key: "memberCount"@,
                value: FrameValueView::Number(left.len() as u64),
            },
        ],
    )
}

/// The frame that tells those who remain in a channel that somebody left.
pub fn member_left_frame(channel: &Channel, channel_oid: ObjectId, user: ObjectId) -> (r: Frame)
    ensures
        r@ == member_left_frame_of(channel.members@, channel.admin, channel_oid, user),
{
    let left = remaining_recipients(channel, user);
    let n: u64 = left.len() as u64;
    let r = empty_frame(hex_ids(&left), "channel-member-left").with_text(
        "channelId",
        &channel_oid.to_hex(),
    ).with_text("userId", &user.to_hex()).with("memberCount", FrameValue::Number(n));
    proof {
        assert(r@.fields =~= member_left_frame_of(
            channel.members@,
            channel.admin,
            channel_oid,
            user,
        ).fields);
    }
    r
}

/// The frame that tells everybody in a channel that it is deleted.
pub open spec fn channel_deleted_frame_of(
    members: Seq<ObjectId>,
    admin: ObjectId,
    channel_oid: ObjectId,
) -> FrameView {
    plain_frame(
        hex_all(recipients_of(members, admin)),
        "channel-deleted"@,
        seq![text_field("channelId"@, channel_oid.hex())],
    )
}

/// The frame that tells everybody in a channel that it is deleted.
pub fn channel_deleted_frame(channel: &Channel, channel_oid: ObjectId) -> (r: Frame)
    ensures
        r@ == channel_deleted_frame_of(channel.members@, channel.admin, channel_oid),
{
    let r = empty_frame(channel_recipient_ids(channel), "channel-deleted").with_text(
        "channelId",
        &channel_oid.to_hex(),
    );
    proof {
        assert(r@.fields =~= channel_deleted_frame_of(
            channel.members@,
            channel.admin,
            channel_oid,
        ).fields);
    }
    r
}

/// Four collections are dropped, each once and in a fixed order, and only an error that names one
/// of two known reasons is passed over.
pub proof fn unused_collections_are_dropped(i: u8, message: Seq<char>)
    ensures
        DROPPED_COLLECTIONS == 4,
        i == 0 ==> dropped_collection_of(i) == "e2e_keys",
        i == 1 ==> dropped_collection_of(i) == "oauth_tokens",
        i == 2 ==> dropped_collection_of(i) == "push_tokens",
        i == 3 ==> dropped_collection_of(i) == "badges",
        says_not_there(message) <==> text::occurs_in(message, "NamespaceNotFound"@)
            || text::occurs_in(message, "ns not found"@),
{
}

/// Tidying cleans users, then messages, then drops the collections one after the other; it reports
/// the numbers that it was told and whether the first collection was there.
pub proof fn tidying_reports_what_it_did(
    at: SchemaPurge,
    n: u64,
    d: DropReply,
    reply: SchemaReply,
    users: u64,
    number: u8,
    report: PurgeRemovedSchemaReport,
)
    ensures
        purge_removed_schema_fields_next(SchemaPurge::CleanUsers, SchemaReply::Modified(n)) == (
        SchemaPurge::CleanMessages { users_modified: n }),
        ({
            let next = purge_removed_schema_fields_next(
                SchemaPurge::CleanMessages { users_modified: users },
                SchemaReply::Modified(n),
            );
            next matches SchemaPurge::Drop { number: first, report: r } && first == 0
                && r.users_modified == users && r.messages_modified == n && !r.e2e_keys_dropped
        }),
        ({
            let next = purge_removed_schema_fields_next(
                SchemaPurge::Drop { number, report },
                SchemaReply::Dropped(d),
            );
            let kept = |r: PurgeRemovedSchemaReport|
                r.users_modified == report.users_modified && r.messages_modified
                    == report.messages_modified && (r.e2e_keys_dropped <==> report.e2e_keys_dropped
                    || (number == 0 && d is Dropped));
            &&& next is Failed <==> d is Failed
            &&& next is Done <==> !(d is Failed) && number >= 3
            &&& next is Drop <==> !(d is Failed) && number < 3
            &&& next matches SchemaPurge::Done(r) ==> kept(r)
            &&& next matches SchemaPurge::Drop { number: m, report: r } ==> m == number + 1 && kept(
                r,
            )
        }),
        !(at is Done) && reply is Failed ==> purge_removed_schema_fields_next(at, reply) is Failed,
        purge_removed_schema_fields_next(SchemaPurge::Done(report), reply) == SchemaPurge::Done(
            report,
        ),
{
}

/// A file is looked for under its path as it is, and once more without a slash at the start.
pub proof fn files_are_looked_for_under_their_path(path: Seq<char>)
    ensures
        attachment_keys_of(path).len() >= 1,
        attachment_keys_of(path)[0] == path,
        attachment_keys_of(path).len() == 2 <==> path.len() > 0 && path[0] == '/',
        attachment_keys_of(path).len() <= 2,
        attachment_keys_of(path).len() == 2 ==> seq!['/'] + attachment_keys_of(path)[1] == path,
        attachment_keys_of(seq!['/'] + path).contains(path),
{
    if path.len() > 0 && path[0] == '/' {
        assert(seq!['/'] + path.skip(1) =~= path);
    }
    let slashed = seq!['/'] + path;
    assert(slashed[0] == '/');
    assert(slashed.skip(1) =~= path);
    assert(attachment_keys_of(slashed)[1] == path);
}

/// The file of a message goes with an account exactly if there is one and the user sent or got it
/// or owns the channel it stands in.
pub proof fn files_go_with_their_people(f: AttachmentFilter, m: FileRecord)
    ensures
        !m.has_file ==> !f.fits(m),
        m.has_file ==> (f.fits(m) <==> m.sender == f.user || (m.recipient is Some && m.recipient->0
            == f.user) || (m.channel is Some && f.channels@.contains(m.channel->0))),
{
}

/// Deleting an account stops at a step that fails exactly if that step is one of those without
/// which the account must stay.
pub proof fn essential_steps_stop_the_deletion(at: PurgeStep, owns: bool)
    ensures
        at is FindFriendships || at is DeleteMessages || at is DeleteFriendRequests || at
            is DeleteInvites || at is LeaveChannels || at is FindOwnedChannels || at
            is DeleteChannelMessages || at is DeleteChannelInvites || at is DeleteChannels || at
            is DeleteUser || at is Failed <==> purge_user_data_next(at, false, owns) is Failed,
        purge_user_data_next(at, true, owns) is Failed <==> at is Failed,
{
}

/// The steps of deleting an account follow each other without a gap: each one but the last is
/// followed by the next, and only where there are no channels of its own are those about them
/// left out.
pub proof fn no_step_of_a_deletion_is_left_out(at: PurgeStep, ok: bool, owns: bool)
    ensures
        ({
            let next = purge_user_data_next(at, true, owns);
            &&& next is EndFriendships <==> at is FindFriendships
            &&& next is EndCalls <==> at is EndFriendships
            &&& next is LeaveVoice <==> at is EndCalls
            &&& next is DeleteTips <==> at is LeaveVoice
            &&& next is FindWrittenChannels <==> at is DeleteTips
            &&& next is DeleteMessages <==> at is FindWrittenChannels
            &&& next is DeleteFriendRequests <==> at is DeleteMessages
            &&& next is DeleteInvites <==> at is DeleteFriendRequests
            &&& next is FindMemberChannels <==> at is DeleteInvites
            &&& next is LeaveChannels <==> at is FindMemberChannels
            &&& next is TellChannels <==> at is LeaveChannels
            &&& next is FindOwnedChannels <==> at is TellChannels
            &&& next is RecomputeTips <==> at is FindOwnedChannels
            &&& next is TellOwnedChannels <==> at is RecomputeTips && owns
            &&& next is DeleteChannelMessages <==> at is TellOwnedChannels
            &&& next is DeleteChannelInvites <==> at is DeleteChannelMessages
            &&& next is DeleteReadStates <==> at is DeleteChannelInvites
            &&& next is DeleteChannels <==> at is DeleteReadStates
            &&& next is DeleteUser <==> at is DeleteChannels || (at is RecomputeTips && !owns)
            &&& next is Done <==> at is DeleteUser || at is Done
            &&& purge_user_data_next(at, ok, owns) is Failed || purge_user_data_next(at, ok, owns)
                == next
        }),
{
}

/// Only an account that is found is deleted; then its files go first, then what belongs to it,
/// then its connections, and its data last, whatever fails on the way.
pub proof fn whole_accounts_are_deleted_in_order(at: PurgeAccount, ok: bool)
    ensures
        ({
            let next = purge_user_completely_next(at, ok);
            &&& next is DeleteFiles <==> at is FindUser && ok
            &&& next is Failed <==> at is Failed || (at is FindUser && !ok)
            &&& next is DeleteRelated <==> at is DeleteFiles
            &&& next is Disconnect <==> at is DeleteRelated
            &&& next is DeleteData <==> at is Disconnect || at is DeleteData
        }),
{
}

/// Each deletion that worked counts once, and one that did not counts not at all.
pub proof fn successes_are_counted(results: Seq<bool>)
    ensures
        worked(Seq::empty()) == 0,
        worked(results.push(true)) == worked(results) + 1,
        worked(results.push(false)) == worked(results),
{
    assert(results.push(true).drop_last() =~= results);
    assert(results.push(false).drop_last() =~= results);
}

/// An account falls due the moment its time comes and stays so, and never without a time.
pub proof fn due_means_the_time_has_come(at: Option<i64>, now: i64, field: UserField, u: User)
    ensures
        is_due(at, now) <==> at is Some && now >= at->0,
        (DueFilter { field, at_most: now }).fits(u) <==> field == UserField::DeletionScheduledAt
            && u.deletion_scheduled_at is Some && now >= u.deletion_scheduled_at->0,
{
}

/// Every account with an identifier is deleted, in order.
pub proof fn accounts_are_purged_by_their_identifier(users: Seq<User>, u: User)
    ensures
        account_ids(Seq::empty()).len() == 0,
        u.id is Some ==> account_ids(users.push(u)) == account_ids(users).push(u.id->0),
        u.id is None ==> account_ids(users.push(u)) == account_ids(users),
{
    assert(users.push(u).drop_last() =~= users);
}

/// Six kinds of record are removed with an account, each in its turn and none twice.
pub proof fn related_records_are_removed_in_turn(done: Option<RelatedRecords>)
    ensures
        ({
            let next = purge_user_related_records_next(done);
            &&& next == Some(RelatedRecords::RefreshTokens) <==> done is None
            &&& next == Some(RelatedRecords::Warnings) <==> done == Some(
                RelatedRecords::RefreshTokens,
            )
            &&& next == Some(RelatedRecords::PendingUploads) <==> done == Some(
                RelatedRecords::Warnings,
            )
            &&& next == Some(RelatedRecords::StorageUsage) <==> done == Some(
                RelatedRecords::PendingUploads,
            )
            &&& next == Some(RelatedRecords::ChannelReadStates) <==> done == Some(
                RelatedRecords::StorageUsage,
            )
            &&& next == Some(RelatedRecords::ChannelReports) <==> done == Some(
                RelatedRecords::ChannelReadStates,
            )
            &&& next is None <==> done == Some(RelatedRecords::ChannelReports)
        }),
{
}

/// What belongs to an account lies in the collection of its kind and names the account as its
/// user, but for reports, which name who reported.
pub proof fn related_records_name_their_account(k: RelatedRecords)
    ensures
        k is RefreshTokens ==> related_collection_of(k) == "refresh_tokens",
        k is Warnings ==> related_collection_of(k) == "warnings",
        k is PendingUploads ==> related_collection_of(k) == "pending_uploads",
        k is StorageUsage ==> related_collection_of(k) == "user_storage_usage",
        k is ChannelReadStates ==> related_collection_of(k) == "channel_read_states",
        k is ChannelReports ==> related_collection_of(k) == "channel_reports",
        k is ChannelReports ==> owner_field_of(k) == "reportedBy",
        !(k is ChannelReports) ==> owner_field_of(k) == "userId",
{
}

/// An account loses its own pictures, the pictures that belong to its channels, its uploads, and
/// each file of its messages under every key that it may have.
pub proof fn every_file_of_an_account_goes(
    kind: FileKind,
    key: Option<String>,
    channels: Seq<OwnedChannel>,
    c: OwnedChannel,
    paths: Seq<String>,
    p: String,
)
    ensures
        key is None ==> optional_file(kind, key).len() == 0,
        key is Some ==> optional_file(kind, key) == seq![(kind, key->0@)],
        channel_pictures(Seq::empty()).len() == 0,
        c.image@.len() > 0 && c.owns_picture ==> channel_pictures(channels.push(c))
            == channel_pictures(channels).push((FileKind::Avatar, c.image@)),
        c.image@.len() == 0 || !c.owns_picture ==> channel_pictures(channels.push(c))
            == channel_pictures(channels),
        upload_files(paths.push(p)) == upload_files(paths).push((FileKind::Attachment, p@)),
        message_files(Seq::empty()).len() == 0,
        p@.len() > 0 && p@[0] == '/' ==> message_files(paths.push(p)) == message_files(paths).push(
            (FileKind::Attachment, p@),
        ).push((FileKind::Attachment, p@.skip(1))),
        p@.len() == 0 || p@[0] != '/' ==> message_files(paths.push(p)) == message_files(paths).push(
            (FileKind::Attachment, p@),
        ),
{
    assert(channels.push(c).drop_last() =~= channels);
    assert(upload_files(paths.push(p)) =~= upload_files(paths).push((FileKind::Attachment, p@)));
    assert(paths.push(p).drop_last() =~= paths);
    let keys = attachment_keys_of(p@);
    if p@.len() > 0 && p@[0] == '/' {
        assert(message_files(paths) + as_attachments(keys) =~= message_files(paths).push(
            (FileKind::Attachment, p@),
        ).push((FileKind::Attachment, p@.skip(1))));
    } else {
        assert(message_files(paths) + as_attachments(keys) =~= message_files(paths).push(
            (FileKind::Attachment, p@),
        ));
    }
}

/// Those who stay in a channel are told who left and how many they are now, and those of a
/// deleted channel which one it was.
pub proof fn channels_are_told_who_left(
    members: Seq<ObjectId>,
    admin: ObjectId,
    channel: ObjectId,
    user: ObjectId,
)
    ensures
        ({
            let left = member_left_frame_of(members, admin, channel, user);
            let stay = crate::lists::all_but(recipients_of(members, admin), user);
            &&& left.event == "channel-member-left"@
            &&& left.to == hex_all(stay)
            &&& left.fields.len() == 3
            &&& left.fields[0] == text_field("channelId"@, channel.hex())
            &&& left.fields[1] == text_field("userId"@, user.hex())
            &&& left.fields[2].key == "memberCount"@
            &&& left.fields[2].value == FrameValueView::Number(stay.len() as u64)
        }),
        ({
            let gone = channel_deleted_frame_of(members, admin, channel);
            &&& gone.event == "channel-deleted"@
            &&& gone.to == hex_all(recipients_of(members, admin))
            &&& gone.fields == seq![text_field("channelId"@, channel.hex())]
        }),
{
}

/// A week passes between the wish to delete an account and its deletion.
pub proof fn accounts_have_a_week_of_grace()
    ensures
        DELETION_GRACE_DAYS == 7,
{
}

} // verus!
