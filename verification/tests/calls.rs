use klovy_chat_server::answers::{Answer, Lookup, Written};
use klovy_chat_server::controllers::account::{remove_profile_banner, PictureLookup, RemoveNext};
use klovy_chat_server::ids::ObjectId;
use klovy_chat_server::model::update::{
    availability_update, banner_update, field_name, image_update, muted_update, username_update,
    FieldValue,
};
use klovy_chat_server::model::users::AvailabilityStatus;
use klovy_chat_server::utils::admin::{
    attachment_scope, deletes_channel_picture, end_call_of_deleted, must_succeed_step,
    remaining_recipients, tips_to_recompute, AttachmentScope, PurgeStep,
};
use klovy_chat_server::ws::calls::{
    call_millis, ended_log, finalize_expired_ringing_sessions, finalize_taken_call_sessions,
    unavailable_for, unavailable_is_retryable, CallLog, CallPhase, CallSession, CallSessionError,
    Unavailable,
};
use klovy_chat_server::ws::channel::{mentionable_ids, retries_recount, Channel};
use klovy_chat_server::ws::delete::{delete_failure_text, fallback_recipients};
use klovy_chat_server::ws::direct::{notifies_recipient, SendMessagePayload};
use klovy_chat_server::ws::dispatch::{refusal_has_nonce, FrameKind};
use klovy_chat_server::ws::edit::{edit_audience, EditAudience};
use klovy_chat_server::ws::events::{emit_send_error, NonceField};
use klovy_chat_server::ws::message::{parse_message_type_or_text, MessageType};
use klovy_chat_server::ws::presence::{
    availability_status_for_user, set_availability, set_offline, set_online, set_user_offline,
    AvailabilityNext, MarkNext, OfflineFacts, OfflineNext, OnlineFacts, OnlineNext,
};
use klovy_chat_server::ws::reaction::{
    degraded_audience, reaction_audience, reaction_emoji_path, reaction_path, reader_recipients,
    ReactionAudience,
};
use klovy_chat_server::ws::read::read_receipt_ids;
use klovy_chat_server::ws::typing::{chat_channel_id, typing_action, typing_key, TypingPayload};
use klovy_chat_server::ws::voice::{
    handle_channel_voice_state_request, voice_failure_text, ChannelVoicePayload, VoiceFacts,
    VoiceNext,
};

const ME: &str = "507f1f77bcf86cd799439011";
const A: &str = "507f191e810c19729de860ea";
const B: &str = "507f191e810c19729de860eb";

fn id(s: &str) -> ObjectId {
    ObjectId::parse_str(s).unwrap()
}

fn some(s: &str) -> Option<String> {
    Some(s.to_string())
}

fn call(phase: CallPhase, talked_secs: Option<u64>) -> CallSession {
    CallSession { caller_id: ME.to_string(), callee_id: A.to_string(), phase, talked_secs }
}

#[test]
fn expired_calls_end_each_in_its_way() {
    let ends = finalize_expired_ringing_sessions(&vec![
        call(CallPhase::Ringing, None),
        call(CallPhase::Accepted, Some(61)),
    ]);
    assert_eq!(ends.len(), 2);
    assert_eq!(ends[0].notices[0].event, "call:cancelled");
    assert_eq!(ends[0].notices[0].to, A);
    assert_eq!(ends[0].notices[0].reason, None);
    assert_eq!(ends[0].notices[1].to, ME);
    assert_eq!(ends[0].notices[1].reason, Some("TIMEOUT"));
    assert!(matches!(ends[0].log, CallLog::Missed));
    assert_eq!(ends[1].notices[1].event, "call:ended");
    assert!(matches!(ends[1].log, CallLog::Talked(61)));
}

#[test]
fn calls_of_those_who_leave_end() {
    let mine = finalize_taken_call_sessions(ME, &vec![call(CallPhase::Ringing, None)]);
    assert_eq!(mine[0].notices.len(), 2);
    assert_eq!(mine[0].notices[1].reason, Some("TAB_CLOSED"));
    assert!(matches!(mine[0].log, CallLog::Nothing));
    let theirs = finalize_taken_call_sessions(A, &vec![call(CallPhase::Ringing, None)]);
    assert_eq!(theirs[0].notices.len(), 1);
    assert_eq!(theirs[0].notices[0].event, "call:rejected");
    assert_eq!(theirs[0].notices[0].to, ME);
    assert!(matches!(theirs[0].log, CallLog::Missed));
}

#[test]
fn ended_calls_are_logged() {
    assert!(matches!(ended_log(&call(CallPhase::Accepted, Some(5)), ME), CallLog::Talked(5)));
    assert!(matches!(ended_log(&call(CallPhase::Ringing, None), A), CallLog::Missed));
    assert!(matches!(ended_log(&call(CallPhase::Ringing, None), ME), CallLog::Nothing));
    assert_eq!(call_millis(90), 90_000);
    assert_eq!(call_millis(4_294_967), 4_294_967_000);
    assert_eq!(call_millis(4_294_968), u32::MAX);
}

#[test]
fn refused_calls_say_why() {
    assert!(matches!(unavailable_for(CallSessionError::InProgress), Unavailable::Busy));
    assert!(matches!(unavailable_for(CallSessionError::Expired), Unavailable::Expired));
    assert!(unavailable_is_retryable(Unavailable::Temporarily));
    assert!(!unavailable_is_retryable(Unavailable::Busy));
}

#[test]
fn deleted_accounts_cut_their_calls_off() {
    let v = end_call_of_deleted(&call(CallPhase::Accepted, Some(5)), A);
    assert_eq!(v.len(), 2);
    assert_eq!(v[0].to, A);
    assert_eq!(v[1].to, ME);
    assert!(v.iter().all(|n| n.event == "call:ended" && n.from == A));
    assert!(v.iter().all(|n| n.reason == Some("ACCOUNT_DELETED")));
}

fn channel() -> Channel {
    Channel { name: "c".to_string(), members: vec![id(A), id(B)], admin: id(ME) }
}

#[test]
fn channels_without_a_user_keep_the_others() {
    assert_eq!(remaining_recipients(&channel(), id(A)), vec![id(B), id(ME)]);
    assert_eq!(mentionable_ids(&channel()), vec![id(A), id(B), id(ME)]);
    assert_eq!(tips_to_recompute(&vec![id(A), id(B)], &vec![id(B)]), vec![id(A)]);
    assert!(deletes_channel_picture("k", true));
    assert!(!deletes_channel_picture("", true));
    assert_eq!(attachment_scope(&vec![]), AttachmentScope::Own);
    assert_eq!(attachment_scope(&vec![id(A)]), AttachmentScope::OwnAndChannels);
    assert!(must_succeed_step(PurgeStep::DeleteMessages));
    assert!(!must_succeed_step(PurgeStep::DeleteTips));
    assert!(retries_recount(0, false));
    assert!(!retries_recount(0, true));
}

#[test]
fn refusals_repeat_clean_nonces() {
    let r = emit_send_error("CODE", "text", &some(" n-1 "));
    assert_eq!((r.text.event, r.text.code, r.text.message), ("error", "CODE", "text"));
    assert!(matches!(r.client_nonce, NonceField::Clean(n) if n == "n-1"));
    let long = emit_send_error("CODE", "text", &Some("x".repeat(65)));
    assert!(matches!(long.client_nonce, NonceField::Omitted));
    assert!(refusal_has_nonce(FrameKind::SendChannelMessage));
    assert!(!refusal_has_nonce(FrameKind::Typing));
}

#[test]
fn reactions_are_stored_under_their_emoji() {
    assert_eq!(reaction_path("👍"), "reactions.👍");
    assert_eq!(reaction_emoji_path("👍"), "reactions.👍.emoji");
    assert_eq!(reader_recipients(ME, &vec![id(A), id(ME), id(A)]), vec![ME, A]);
    assert_eq!(reaction_audience(true, false, Some(false)), ReactionAudience::ChannelReaders);
    assert_eq!(degraded_audience(true, false, Some(false)), ReactionAudience::UserOnly);
    assert_eq!(degraded_audience(true, true, Some(false)), ReactionAudience::Pair);
    assert_eq!(reaction_audience(false, false, None), ReactionAudience::Nobody);
}

#[test]
fn statuses_come_from_memory_or_from_the_store() {
    let away = AvailabilityStatus::Away;
    assert!(matches!(availability_status_for_user(ME, None, None), AvailabilityNext::LookUpCache));
    assert!(matches!(
        availability_status_for_user(ME, Some(Some(away)), None),
        AvailabilityNext::Known { remember: false, .. }
    ));
    assert!(matches!(
        availability_status_for_user(ME, Some(None), None),
        AvailabilityNext::FindUser(u) if u == id(ME)
    ));
    assert!(matches!(
        availability_status_for_user(ME, Some(None), Some(Some(away))),
        AvailabilityNext::Known { remember: true, .. }
    ));
    assert!(matches!(availability_status_for_user("x", Some(None), None), AvailabilityNext::Unknown));
    assert!(matches!(set_user_offline("x", None), MarkNext::NotMarked));
    assert!(matches!(set_availability(ME, Some(true)), MarkNext::Marked));
}

#[test]
fn users_come_and_go_on_their_word() {
    let mut on = OnlineFacts {
        swept: false,
        here: Some(true),
        marked: Some(true),
        here_after_mark: Some(true),
        availability: Some(Some(AvailabilityStatus::Dnd)),
        here_before_telling: Some(false),
        told: false,
    };
    assert!(matches!(set_online(&on), OnlineNext::TakeBack));
    on.here_before_telling = Some(true);
    assert!(matches!(set_online(&on), OnlineNext::Tell(AvailabilityStatus::Dnd)));
    on.told = true;
    assert!(matches!(set_online(&on), OnlineNext::Stop));
    let off = OfflineFacts {
        back: Some(true),
        calls_taken: false,
        back_after_take: None,
        calls_ended: false,
        back_after_calls: None,
        rooms_left: false,
        back_after_rooms: None,
        availability: None,
        back_after_availability: None,
        marked: None,
        back_after_mark: None,
    };
    assert!(matches!(set_offline(&off), OfflineNext::Stop));
    assert!(matches!(
        set_offline(&OfflineFacts { back: Some(false), ..off }),
        OfflineNext::AskAvailability
    ));
}

#[test]
fn typing_is_counted_by_chat() {
    let p = |chat: Option<String>| TypingPayload { chat_id: chat, is_typing: Some(true) };
    assert_eq!(typing_key(&p(None)), "unknown");
    assert_eq!(typing_key(&p(some(""))), "unknown");
    assert_eq!(typing_action(&p(some("channel_7"))), "typing:channel_7");
    assert_eq!(chat_channel_id("channel_7"), "7");
    assert_eq!(chat_channel_id("7"), "7");
}

#[test]
fn rooms_are_shown_to_those_with_access() {
    let p = ChannelVoicePayload { channel_id: some(A) };
    let f = VoiceFacts { found: Some(Lookup::Found), found_again: None, access: Some(true) };
    assert!(matches!(handle_channel_voice_state_request(&p, &f), VoiceNext::Proceed(c) if c == id(A)));
    let f = VoiceFacts { found: Some(Lookup::Found), found_again: None, access: Some(false) };
    assert!(matches!(handle_channel_voice_state_request(&p, &f), VoiceNext::Ignore));
    assert_eq!(voice_failure_text(true).code, "VOICE_STATE_FAILED");
    assert_eq!(voice_failure_text(false).code, "VOICE_JOIN_FAILED");
}

#[test]
fn edits_and_deletions_reach_their_people() {
    assert_eq!(edit_audience(true, true, false), EditAudience::ChannelMembers);
    assert_eq!(edit_audience(true, false, true), EditAudience::Nobody);
    assert_eq!(edit_audience(false, false, true), EditAudience::Pair);
    assert_eq!(fallback_recipients(&vec![id(A), id(B), id(A), id(ME)], id(ME)), vec![id(A), id(B)]);
    assert_eq!(delete_failure_text(true).code, "DELETE_FANOUT_DEGRADED");
    assert_eq!(delete_failure_text(false).code, "DELETE_FAILED");
    assert_eq!(read_receipt_ids(&vec![id(A)]), vec![A]);
}

#[test]
fn mentions_reach_those_who_listen() {
    let p = SendMessagePayload {
        sender: ME.to_string(),
        recipient: A.to_string(),
        content: some("@a"),
        message_type: None,
        file_url: None,
        file_type: None,
        file_size: None,
        file_name: None,
        duration_ms: None,
        quoted_message: None,
        client_nonce: None,
    };
    assert!(notifies_recipient(&p, Answer::No, &vec![id(A)]));
    assert!(!notifies_recipient(&p, Answer::Yes, &vec![id(A)]));
    assert!(!notifies_recipient(&p, Answer::Failed, &vec![id(A)]));
    assert!(!notifies_recipient(&p, Answer::No, &vec![id(B)]));
    assert!(matches!(parse_message_type_or_text(&None), MessageType::Text));
}

#[test]
fn banners_are_removed() {
    let me = some(ME);
    let found = Some(PictureLookup::Found { has_picture: true, owned: true });
    assert!(matches!(remove_profile_banner(&me, None, None, false), RemoveNext::FindAccount(u) if u == id(ME)));
    assert!(matches!(remove_profile_banner(&me, found, None, false), RemoveNext::Save(_)));
    assert!(matches!(
        remove_profile_banner(&me, found, Some(Written::Failed), false),
        RemoveNext::Reply(r) if r.status == 500
    ));
}

#[test]
fn single_fields_are_stored() {
    let u = muted_update(vec![id(A)], 7);
    assert_eq!(field_name(u.set[0].field), "mutedContacts");
    assert!(matches!(&u.set[0].value, FieldValue::Ids(v) if v == &vec![id(A)]));
    assert!(matches!(u.set[1].value, FieldValue::Time(7)));
    let u = availability_update("away".to_string(), 7);
    assert!(matches!(&u.set[0].value, FieldValue::Text(t) if t == "away"));
    assert!(matches!(u.set[1].value, FieldValue::Flag(true)));
    assert_eq!(field_name(username_update("anna".to_string(), 7).set[0].field), "username");
    assert_eq!(field_name(image_update(some("k"), 7).set[0].field), "image");
    assert_eq!(field_name(banner_update(None, 7).set[0].field), "banner");
}
