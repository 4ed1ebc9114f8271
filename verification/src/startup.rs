//! What happens when the server starts, and what it does again and again afterwards.
use vstd::prelude::*;
use crate::utils::admin::PurgeRemovedSchemaReport;

verus! {

/// Something that the server does again and again.
#[derive(Clone, Copy, Debug, PartialEq, Eq, Structural)]
pub enum Job {
    /// Remove uploads that no message took.
    CleanUploads,
    /// Delete accounts whose time has come.
    DeleteAccounts,
    /// End calls that rang for too long.
    SweepCalls,
    /// Compare the file store with what is stored about it.
    ReconcileFiles,
}

/// How many seconds lie between two times that something is done.
pub open spec fn interval_secs_of(job: Job) -> u64 {
    match job {
        Job::CleanUploads => 21_600,
        Job::DeleteAccounts => 3_600,
        Job::SweepCalls => 15,
        Job::ReconcileFiles => 86_400,
    }
}

/// How many seconds lie between two times that something is done.
pub fn interval_secs(job: Job) -> (r: u64)
    ensures
        r == interval_secs_of(job),
{
    match job {
        Job::CleanUploads => 21_600,
        Job::DeleteAccounts => 3_600,
        Job::SweepCalls => 15,
        Job::ReconcileFiles => 86_400,
    }
}

/// How many collections get indexes.
pub const INDEXED_COLLECTIONS: usize = 16;

/// The collections that get indexes, in order.
pub open spec fn indexed_collection_of(i: usize) -> Option<&'static str> {
    match i {
        0 => Some("users"),
        1 => Some("signup_quotas"),
        2 => Some("channels"),
        3 => Some("messages"),
        4 => Some("friend_requests"),
        5 => Some("invites"),
        6 => Some("channel_read_states"),
        7 => Some("dm_conversation_tips"),
        8 => Some("channel_reports"),
        9 => Some("refresh_tokens"),
        10 => Some("pending_uploads"),
        11 => Some("attachment_scan_cache"),
        12 => Some("user_storage_usage"),
        13 => Some("audit_logs"),
        14 => Some("warnings"),
        15 => Some("announcements"),
        _ => None,
    }
}

/// The collections that get indexes, in order.
pub fn indexed_collection(i: usize) -> (r: Option<&'static str>)
    ensures
        r == indexed_collection_of(i),
{
    match i {
        0 => Some("users"),
        1 => Some("signup_quotas"),
        2 => Some("channels"),
        3 => Some("messages"),
        4 => Some("friend_requests"),
        5 => Some("invites"),
        6 => Some("channel_read_states"),
        7 => Some("dm_conversation_tips"),
        8 => Some("channel_reports"),
        9 => Some("refresh_tokens"),
        10 => Some("pending_uploads"),
        11 => Some("attachment_scan_cache"),
        12 => Some("user_storage_usage"),
        13 => Some("audit_logs"),
        14 => Some("warnings"),
        15 => Some("announcements"),
        _ => None,
    }
}

/// Whether the server cannot start because indexes could not be made: in production, and then
/// over the first collection for which it failed.
pub fn ensure_indexes(made: &Vec<bool>, production: bool) -> (r: Option<usize>)
    ensures
        match r {
            Some(i) => production && i < made@.len() && !made@[i as int] && forall|k: int|
                0 <= k < i ==> made@[k],
            None => !production || forall|k: int| 0 <= k < made@.len() ==> made@[k],
        },
{
    let mut i: usize = 0;
    while i < made.len()
        invariant
            i <= made.len(),
            production ==> forall|k: int| 0 <= k < i ==> made@[k],
        decreases made.len() - i,
    {
        if !made[i] && production {
            return Some(i);
        }
        i = i + 1;
    }
    None
}

/// Whether tidying stored records is worth a note: if it changed anything.
pub fn purge_is_noted(report: PurgeRemovedSchemaReport) -> (r: bool)
    ensures
        r == (report.users_modified > 0 || report.messages_modified > 0
            || report.e2e_keys_dropped),
{
    report.users_modified > 0 || report.messages_modified > 0 || report.e2e_keys_dropped
}

/// What comparing the file store with what is stored about it is worth.
#[derive(Clone, Copy, Debug, PartialEq, Eq, Structural)]
pub enum ReconcileNote {
    Nothing,
    /// Files were deleted or are missing.
    Files,
    /// Only how much is used was counted anew.
    Usage,
}

/// What comparing the file store with what is stored about it is worth noting of.
pub open spec fn reconcile_note_of(deleted: u64, missing: u64, usage_updated: u64) -> ReconcileNote {
    if deleted > 0 || missing > 0 {
        ReconcileNote::Files
    } else if usage_updated > 0 {
        ReconcileNote::Usage
    } else {
        ReconcileNote::Nothing
    }
}

/// What comparing the file store with what is stored about it is worth noting of.
pub fn reconcile_note(deleted: u64, missing: u64, usage_updated: u64) -> (r: ReconcileNote)
    ensures
        r == reconcile_note_of(deleted, missing, usage_updated),
{
    if deleted > 0 || missing > 0 {
        ReconcileNote::Files
    } else if usage_updated > 0 {
        ReconcileNote::Usage
    } else {
        ReconcileNote::Nothing
    }
}

/// Uploads are cleaned four times a day, accounts deleted every hour, calls looked after every
/// quarter of a minute, and files compared once a day.
pub proof fn jobs_run_at_their_pace(job: Job)
    ensures
        job is CleanUploads ==> 4 * interval_secs_of(job) == 24 * 60 * 60,
        job is DeleteAccounts ==> interval_secs_of(job) == 60 * 60,
        job is SweepCalls ==> 4 * interval_secs_of(job) == 60,
        job is ReconcileFiles ==> interval_secs_of(job) == 24 * 60 * 60,
{
}

/// Sixteen collections get indexes, each at its place.
pub proof fn collections_get_their_indexes(i: usize)
    ensures
        INDEXED_COLLECTIONS == 16,
        indexed_collection_of(i) is Some <==> i < 16,
        i == 0 ==> indexed_collection_of(i) == Some("users"),
        i == 1 ==> indexed_collection_of(i) == Some("signup_quotas"),
        i == 2 ==> indexed_collection_of(i) == Some("channels"),
        i == 3 ==> indexed_collection_of(i) == Some("messages"),
        i == 4 ==> indexed_collection_of(i) == Some("friend_requests"),
        i == 5 ==> indexed_collection_of(i) == Some("invites"),
        i == 6 ==> indexed_collection_of(i) == Some("channel_read_states"),
        i == 7 ==> indexed_collection_of(i) == Some("dm_conversation_tips"),
        i == 8 ==> indexed_collection_of(i) == Some("channel_reports"),
        i == 9 ==> indexed_collection_of(i) == Some("refresh_tokens"),
        i == 10 ==> indexed_collection_of(i) == Some("pending_uploads"),
        i == 11 ==> indexed_collection_of(i) == Some("attachment_scan_cache"),
        i == 12 ==> indexed_collection_of(i) == Some("user_storage_usage"),
        i == 13 ==> indexed_collection_of(i) == Some("audit_logs"),
        i == 14 ==> indexed_collection_of(i) == Some("warnings"),
        i == 15 ==> indexed_collection_of(i) == Some("announcements"),
{
}

/// Files that were deleted or are missing are noted whatever else happened; a new count of what is
/// used only if nothing else did.
pub proof fn losses_are_noted_first(deleted: u64, missing: u64, usage: u64)
    ensures
        reconcile_note_of(deleted, missing, usage) is Files <==> deleted != 0 || missing != 0,
        reconcile_note_of(deleted, missing, usage) is Usage <==> deleted == 0 && missing == 0
            && usage != 0,
        reconcile_note_of(deleted, missing, usage) is Nothing <==> deleted == 0 && missing == 0
            && usage == 0,
{
}

} // verus!
