use klovy_chat_server::controllers::account::Picture;
use klovy_chat_server::controllers::contacts::normalize_text;
use klovy_chat_server::controllers::notices::{
    accepted_friend, contact_block_updated, conversation_deleted, friendship_added,
    friendship_removed, NewFriend,
};
use klovy_chat_server::ids::ObjectId;
use klovy_chat_server::middlewares::{body_limit, read_body_bytes};
use klovy_chat_server::model::friend_requests::{FriendRequest, FriendRequestStatus, RequestFilter};
use klovy_chat_server::model::refresh_tokens::{in_order_of_use, RefreshToken};
use klovy_chat_server::model::users::{new_account_password, NewPasswordNext};
use klovy_chat_server::model::users::AvailabilityStatus;
use klovy_chat_server::routes::auth::form_limit_bytes;
use klovy_chat_server::utils::admin::{related_collection, PurgeStep, RelatedRecords};
use klovy_chat_server::utils::auth::refresh::{
    alarm_of, generate_family_id, rotate_refresh_token, stored_token, RefreshAuthError, RotateFacts,
    RotateNext, StoredReply,
};
use klovy_chat_server::utils::records::{
    collection_name, member_channels, owned_channels, purge_action, record_field_name,
    removed_message_field, removed_user_field, Matching, PurgeAction, RecordField, RecordKind,
};
use klovy_chat_server::ws::calls::{log_after, CallAction, CallLog, CallPhase, CallSession};
use klovy_chat_server::ws::channel::{channel_replay_unread, ChannelUnreadFacts, ChannelUnreadNext};
use klovy_chat_server::ws::presence::{
    counts_as_back, counts_as_here, set_status, StatusNext, StoredPresence,
};
use klovy_chat_server::ws::reaction::{reaction_emoji, ReactionPayload};
use klovy_chat_server::ws::voice::{voice_room, ChannelVoicePayload};

const ME: &str = "507f1f77bcf86cd799439011";
const A: &str = "507f191e810c19729de860ea";
const B: &str = "507f191e810c19729de860eb";

fn id(s: &str) -> ObjectId {
    ObjectId::parse_str(s).unwrap()
}

fn some(s: &str) -> Option<String> {
    Some(s.to_string())
}

#[test]
fn both_hear_of_the_end_of_a_friendship() {
    let n = friendship_removed(ME, A);
    assert_eq!((n.own.to.as_str(), n.own.event, n.own.key, n.own.about.as_str()), (ME, "friendship-removed", "userId", A));
    assert_eq!((n.other.to.as_str(), n.other.event, n.other.key, n.other.about.as_str()), (A, "friendship-removed", "userId", ME));
    let n = conversation_deleted(ME, A);
    assert_eq!((n.own.event, n.own.key, n.own.about.as_str()), ("conversation-deleted", "contactId", A));
    assert_eq!((n.other.to.as_str(), n.other.about.as_str()), (A, ME));
    assert_eq!(n.own.flag, None);
}

#[test]
fn both_hear_of_a_block() {
    let n = contact_block_updated(ME, A, true);
    assert_eq!(n.own.flag, Some(("isBlockedByMe", true)));
    assert_eq!(n.other.flag, Some(("isBlockedByOther", true)));
    assert_eq!((n.own.to.as_str(), n.other.to.as_str()), (ME, A));
    assert_eq!(n.own.event, "contact-block-updated");
}

#[test]
fn new_friends_are_shown_to_each_other() {
    let (own, other) = friendship_added(ME, id(A), true);
    assert_eq!((own.to.as_str(), other.to.as_str()), (ME, A));
    assert!(matches!(own.contact, NewFriend::Shown(x) if x == id(A)));
    assert!(matches!(other.contact, NewFriend::Shown(x) if x == id(ME)));
    let (own, other) = friendship_added(ME, id(A), false);
    assert!(matches!(own.contact, NewFriend::Named(x) if x == A));
    assert!(matches!(other.contact, NewFriend::Named(x) if x == ME));
    assert!(matches!(accepted_friend(id(A), false), NewFriend::Named(x) if x == A));
}

#[test]
fn friendships_are_found_either_way() {
    let r = |from: &str, to: &str, status: FriendRequestStatus| FriendRequest {
        id: None,
        from: id(from),
        to: id(to),
        status,
        created_at: 0,
        updated_at: 0,
    };
    let f = RequestFilter::friendship(id(ME), id(A));
    assert!(f.selects(&r(ME, A, FriendRequestStatus::Accepted)));
    assert!(f.selects(&r(A, ME, FriendRequestStatus::Accepted)));
    assert!(!f.selects(&r(A, ME, FriendRequestStatus::Pending)));
    assert!(!f.selects(&r(B, ME, FriendRequestStatus::Accepted)));
    assert!(RequestFilter::between(id(ME), id(A)).selects(&r(A, ME, FriendRequestStatus::Rejected)));
    assert!(!RequestFilter::waiting(id(ME), id(A)).selects(&r(A, ME, FriendRequestStatus::Pending)));
    assert!(RequestFilter::received(id(ME)).selects(&r(A, ME, FriendRequestStatus::Pending)));
    assert!(!RequestFilter::sent(id(ME)).selects(&r(A, ME, FriendRequestStatus::Pending)));
    assert!(RequestFilter::friendships(id(ME)).selects(&r(A, ME, FriendRequestStatus::Accepted)));
    assert!(RequestFilter::concerning(id(ME)).selects(&r(ME, B, FriendRequestStatus::Rejected)));
}

#[test]
fn steps_of_a_deletion_name_their_records() {
    let owned = vec![id(B)];
    assert!(matches!(
        purge_action(PurgeStep::DeleteMessages, id(ME), &owned),
        PurgeAction::Delete {
            kind: RecordKind::Messages,
            matching: Matching::Either { first: RecordField::Sender, second: RecordField::Recipient, id: u },
        } if u == id(ME)
    ));
    assert!(matches!(
        purge_action(PurgeStep::DeleteChannelInvites, id(ME), &owned),
        PurgeAction::Delete {
            kind: RecordKind::Invites,
            matching: Matching::AnyOf { field: RecordField::ChannelId, ids },
        } if ids == owned
    ));
    assert!(matches!(purge_action(PurgeStep::LeaveChannels, id(ME), &owned), PurgeAction::LeaveAll(u) if u == id(ME)));
    assert!(matches!(purge_action(PurgeStep::TellChannels, id(ME), &owned), PurgeAction::Nothing));
    assert!(matches!(owned_channels(id(ME)), Matching::Is { field: RecordField::Admin, .. }));
    assert!(matches!(member_channels(id(ME)), Matching::Is { field: RecordField::Members, .. }));
    assert_eq!(collection_name(RecordKind::ConversationTips), "dm_conversation_tips");
    assert_eq!(record_field_name(RecordField::CreatedBy), "createdBy");
    assert_eq!(related_collection(RelatedRecords::StorageUsage), "user_storage_usage");
}

#[test]
fn removed_fields_are_named() {
    assert_eq!(removed_user_field(0), Some("e2eEnabled"));
    assert_eq!(removed_user_field(7), Some("featuredBadgeIds"));
    assert_eq!(removed_user_field(8), None);
    assert_eq!(removed_message_field(1), Some("e2eVersion"));
    assert_eq!(removed_message_field(2), None);
}

fn token(hash: &str, last_used_at: Option<i64>, created_at: i64) -> RefreshToken {
    RefreshToken {
        id: Some(id(A)),
        user_id: id(ME),
        token_hash: hash.to_string(),
        family_id: "fam".to_string(),
        expires_at: 100,
        created_at,
        revoked: true,
        client_fingerprint: some("fp"),
        client_user_agent: None,
        client_browser: None,
        client_os: None,
        client_label: None,
        last_used_at,
    }
}

#[test]
fn reused_tokens_take_their_family_along() {
    let old = token("h", None, 0);
    let facts = RotateFacts {
        stored: Some(StoredReply::Found(stored_token(&old, true))),
        alarm_raised: false,
        unbound_revoked: false,
        now: 1,
        user: None,
        old_revoked: None,
        hashed: None,
        inserted: None,
    };
    assert!(matches!(rotate_refresh_token("raw", &facts), RotateNext::RaiseAlarm));
    let after = RotateFacts { alarm_raised: true, ..facts };
    assert!(matches!(rotate_refresh_token("raw", &after), RotateNext::Refuse(RefreshAuthError::Denied)));
    let alarm = alarm_of(&old, 7);
    assert!(alarm.tokens.selects(&token("other", None, 3)));
    assert_eq!(alarm.user, id(ME));
    assert!(alarm.change.next_version);
    assert_eq!((alarm.closed_user.as_str(), alarm.closed_family.as_str()), (ME, "fam"));
}

#[test]
fn sessions_stand_in_the_order_of_their_use() {
    let v = in_order_of_use(vec![token("a", None, 9), token("b", Some(5), 1), token("c", Some(7), 0), token("d", Some(5), 2)]);
    let order: Vec<&str> = v.iter().map(|t| t.token_hash.as_str()).collect();
    assert_eq!(order, vec!["c", "d", "b", "a"]);
}

#[test]
fn families_have_random_identifiers() {
    let f: Vec<char> = generate_family_id().chars().collect();
    assert_eq!(f.len(), 36);
    for (i, c) in f.iter().enumerate() {
        if [8, 13, 18, 23].contains(&i) {
            assert_eq!(*c, '-');
        } else {
            assert!(c.is_ascii_digit() || ('a'..='f').contains(c));
        }
    }
    assert_eq!(f[14], '4');
    assert!(['8', '9', 'a', 'b'].contains(&f[19]));
}

#[test]
fn calls_leave_their_entries() {
    let s = CallSession { caller_id: ME.to_string(), callee_id: A.to_string(), phase: CallPhase::Ringing, talked_secs: None };
    let held = Some(s);
    let l = log_after(CallAction::Reject, false, &None, A, ME).unwrap();
    assert!(l.first && matches!(l.log, CallLog::Missed));
    assert_eq!((l.caller.as_str(), l.callee.as_str()), (ME, A));
    let l = log_after(CallAction::Cancel, true, &None, ME, A).unwrap();
    assert!(!l.first && l.caller == ME && l.callee == A);
    assert!(log_after(CallAction::Cancel, false, &held, ME, A).is_none());
    assert!(log_after(CallAction::Accept, false, &held, A, ME).is_none());
    assert!(matches!(log_after(CallAction::End, false, &held, A, ME).unwrap().log, CallLog::Missed));
    assert!(matches!(log_after(CallAction::End, false, &held, ME, A).unwrap().log, CallLog::Nothing));
}

#[test]
fn replays_in_channels_are_only_recounted() {
    let mut f = ChannelUnreadFacts {
        tip_saved: false,
        active: None,
        some_to_raise: None,
        some_still_to_raise: None,
        active_before_bump: None,
        bumped: false,
        active_after_bump: None,
        settled: false,
    };
    assert!(matches!(channel_replay_unread(&f), ChannelUnreadNext::SaveTip));
    f.tip_saved = true;
    assert!(matches!(channel_replay_unread(&f), ChannelUnreadNext::RecountAll));
    f.settled = true;
    assert!(matches!(channel_replay_unread(&f), ChannelUnreadNext::Stop));
}

#[test]
fn presence_is_counted_by_connections() {
    assert!(counts_as_here(true, true, 1));
    assert!(!counts_as_here(true, false, 1));
    assert!(counts_as_here(false, false, 1));
    assert!(counts_as_back(true, false, 1));
    assert!(!counts_as_back(false, true, 1));
    assert!(counts_as_back(false, true, 2));
}

#[test]
fn new_statuses_are_stored_and_told() {
    let s = AvailabilityStatus::Away;
    assert!(matches!(set_status(ME, s, None, false, None), StatusNext::Write(u) if u == id(ME)));
    assert!(matches!(set_status(ME, s, Some(false), false, None), StatusNext::Stop));
    assert!(matches!(set_status(ME, s, Some(true), false, None), StatusNext::Remember));
    assert!(matches!(set_status(ME, s, Some(true), true, None), StatusNext::FindUser(_)));
    let p = StoredPresence { is_online: true, last_seen: Some(5) };
    match set_status(ME, s, Some(true), true, Some(Some(p))) {
        StatusNext::Tell(n) => assert_eq!((n.is_online, n.status, n.last_seen), (true, s, None)),
        _ => panic!("not told"),
    }
    assert!(matches!(set_status(ME, s, Some(true), true, Some(None)), StatusNext::Stop));
}

#[test]
fn passwords_are_hashed_once() {
    assert!(matches!(new_account_password(true, None), NewPasswordNext::KeepGiven));
    assert!(matches!(new_account_password(false, None), NewPasswordNext::Hash));
    assert!(matches!(new_account_password(false, Some(true)), NewPasswordNext::UseHashed));
    assert!(matches!(new_account_password(false, Some(false)), NewPasswordNext::Fail));
}

#[test]
fn uploads_fit_into_the_body_limit() {
    assert_eq!(body_limit(0), 7_340_032);
    assert_eq!(body_limit(8 * 1024 * 1024), 8 * 1024 * 1024);
    assert!(form_limit_bytes(Picture::Image) <= body_limit(0) as u64);
    let mut body: Vec<u8> = Vec::new();
    assert!(read_body_bytes(&mut body, &vec![1, 2], body_limit(0)).is_ok());
    assert_eq!(body, vec![1, 2]);
}

#[test]
fn searches_are_normalized_once() {
    let once = normalize_text("  Łódź \t Żółta\nGęś ");
    assert_eq!(once, "lodz zolta ges");
    assert_eq!(normalize_text(&once), once);
}

#[test]
fn payloads_are_trimmed() {
    assert_eq!(reaction_emoji(&ReactionPayload { message_id: None, emoji: some(" x ") }), "x");
    assert_eq!(voice_room(&ChannelVoicePayload { channel_id: some(" AB ") }), "AB");
    assert_eq!(voice_room(&ChannelVoicePayload { channel_id: None }), "");
}
