use klovy_chat_server::answers::{Access, Answer, Change, Lookup};
use klovy_chat_server::ids::ObjectId;
use klovy_chat_server::model::users::AvailabilityStatus;
use klovy_chat_server::ws::calls::{
    call_action, call_log_content, create_call_log_message, create_missed_call_log_message,
    finalize_expired_session, format_call_duration, handle_call_invite, handle_call_simple,
    handle_call_timeout, tell_both, unavailable_reason, CallAction, CallFacts, CallLog, CallMode,
    CallNext, CallPayload, CallPhase, CallSession, CallSessionError, InviteNext, InviteReply,
    SessionReply, Unavailable,
};
use klovy_chat_server::ws::channel::{
    after_bump, broadcast_recipients, channel_message_input, channel_recipient_ids,
    channel_refusal, channel_unread, create_and_broadcast_channel_message,
    handle_send_channel_message, mention_targets, split_by_generation, unread_targets,
    BroadcastNext, Channel, ChannelAccess, ChannelBroadcastInput, ChannelBroadcastOutcome,
    ChannelMessageFacts, ChannelMessageNext, ChannelMessagePayload, ChannelRefusal,
    ChannelUnreadFacts, ChannelUnreadNext, Slowmode, UnreadTarget,
};
use klovy_chat_server::ws::delete::{
    affected_members, handle_delete_message, DeleteFacts, DeleteLookup, DeleteMessagePayload,
    DeleteNext, DeleteTarget, Deletion, ReadState,
};
use klovy_chat_server::ws::direct::{
    counts_as_unread, dm_unread, handle_send_message, is_connected_user, is_mentioned,
    send_message_input, send_refusal, BlockAnswer, DmUnreadFacts, DmUnreadNext, QuoteAnswer,
    SendMessageFacts, SendMessageNext, SendMessagePayload, SendRefusal,
};
use klovy_chat_server::ws::dispatch::{
    dispatch_message, frame_kind, frame_limit, frame_queue, DispatchFacts, DispatchNext, FrameKind,
    Queue,
};
use klovy_chat_server::ws::edit::{
    edit_failure_text, edit_pings, handle_edit_message, ContentCheck, EditFacts, EditFailure,
    EditLookup, EditMessagePayload, EditNext, EditTarget, MentionChange,
};
use klovy_chat_server::ws::events::{
    emit_queue_full_error, emit_rate_limit_error, payload_client_nonce, NonceField,
};
use klovy_chat_server::ws::message::{
    mention_preview, needs_scan, parse_message_type, Creation, MessageType, ScanStatus,
};
use klovy_chat_server::ws::presence::{
    normalize_availability_status, on_user_connected, on_user_disconnected,
    parse_availability_status, set_user_online, status_news, MarkNext, OfflineFacts, OfflineNext,
    OnlineFacts, OnlineNext,
};
use klovy_chat_server::ws::reaction::{
    handle_reaction, reaction_users_path, reactions_json, valid_emoji, Reaction, ReactionFacts,
    ReactionNext, ReactionPayload,
};
use klovy_chat_server::ws::read::{
    handle_mark_channel_read, handle_mark_conversation_read, handle_mark_message_read,
    heal_dm_unread_after_mark, heal_step, FoundSender, MarkChannelNext, MarkChannelReadPayload,
    MarkConversationFacts, MarkConversationNext, MarkConversationReadPayload, MarkMessageFacts,
    MarkMessageNext, MarkMessageReadPayload, Unread,
};
use klovy_chat_server::ws::registry::{
    enqueue_frame, is_critical_event, ConnectionRegistry, FrameFate, Offer,
};
use klovy_chat_server::ws::session::{
    gone_after_grace, handle_socket, open_socket, process_incoming_text, recheck_disconnects,
    rejection_reply, socket_event, voice_left_recipients, ws_handler, HandshakeFacts,
    HandshakeNext, HandshakeRate, Incoming, LifeFacts, LifeNext, LoginReply, OpenFacts, OpenNext,
    RecheckReply, Rejection, SocketAction, SocketEvent,
};
use klovy_chat_server::ws::typing::{
    handle_typing, typing_recipients, TypingAccess, TypingFacts, TypingNext, TypingPayload,
};
use klovy_chat_server::ws::voice::{
    emit_channel_voice_state, handle_channel_voice_join, handle_channel_voice_leave,
    ChannelVoicePayload, VoiceFacts, VoiceLeaveNext, VoiceNext,
};

const ME: &str = "507f1f77bcf86cd799439011";
const A: &str = "507f191e810c19729de860ea";
const B: &str = "507f191e810c19729de860eb";
const M: &str = "507f191e810c19729de860ff";

fn id(s: &str) -> ObjectId {
    ObjectId::parse_str(s).unwrap()
}

fn some(s: &str) -> Option<String> {
    Some(s.to_string())
}

fn message() -> SendMessagePayload {
    SendMessagePayload {
        sender: ME.to_string(),
        recipient: A.to_string(),
        content: some("hello"),
        message_type: None,
        file_url: None,
        file_type: None,
        file_size: None,
        file_name: None,
        duration_ms: None,
        quoted_message: None,
        client_nonce: some("n-1"),
    }
}

fn message_facts() -> SendMessageFacts {
    SendMessageFacts {
        friends: Some(Answer::Yes),
        blocks: Some(BlockAnswer::Flags { by_me: false, by_other: false }),
        attachment_ok: Some(true),
        quote: None,
        mentions_ok: Some(true),
        creation: None,
    }
}

#[test]
fn direct_messages_go_to_friends() {
    let mut f = message_facts();
    assert!(matches!(
        handle_send_message(ME, &message(), &f),
        SendMessageNext::Create { sender, recipient, quoted: None } if sender == id(ME) && recipient == id(A)
    ));
    f.creation = Some(Creation::Created);
    assert!(matches!(handle_send_message(ME, &message(), &f), SendMessageNext::Deliver { .. }));
    f.creation = Some(Creation::Replay);
    assert!(matches!(handle_send_message(ME, &message(), &f), SendMessageNext::DeliverAgain { .. }));
    assert!(matches!(handle_send_message(A, &message(), &f), SendMessageNext::Ignore));
    f.friends = Some(Answer::No);
    assert!(matches!(
        handle_send_message(ME, &message(), &f),
        SendMessageNext::Refuse(SendRefusal::NotFriends)
    ));
    f.friends = Some(Answer::Yes);
    f.blocks = Some(BlockAnswer::Flags { by_me: false, by_other: true });
    assert!(matches!(
        handle_send_message(ME, &message(), &f),
        SendMessageNext::Refuse(SendRefusal::Blocked { by_me: false, by_other: true })
    ));
    f.blocks = Some(BlockAnswer::Failed);
    assert!(matches!(
        handle_send_message(ME, &message(), &f),
        SendMessageNext::Refuse(SendRefusal::RelationUnknown)
    ));
    assert!(is_connected_user(ME, ME));
    assert!(!is_connected_user(ME, A));
}

#[test]
fn direct_messages_are_checked_in_order() {
    let mut f = message_facts();
    f.attachment_ok = None;
    assert!(matches!(handle_send_message(ME, &message(), &f), SendMessageNext::ValidateAttachment));
    f.attachment_ok = Some(false);
    assert!(matches!(
        handle_send_message(ME, &message(), &f),
        SendMessageNext::Refuse(SendRefusal::InvalidFile)
    ));
    f.attachment_ok = Some(true);
    let quoting = SendMessagePayload { quoted_message: some(M), ..message() };
    assert!(matches!(handle_send_message(ME, &quoting, &f), SendMessageNext::CheckQuote));
    f.quote = Some(QuoteAnswer::Failed);
    assert!(matches!(
        handle_send_message(ME, &quoting, &f),
        SendMessageNext::Refuse(SendRefusal::QuoteFailed)
    ));
    f.mentions_ok = Some(false);
    assert!(matches!(
        handle_send_message(ME, &message(), &f),
        SendMessageNext::Refuse(SendRefusal::MentionsFailed)
    ));
    f.mentions_ok = Some(true);
    f.creation = Some(Creation::NonceConflict);
    assert!(matches!(
        handle_send_message(ME, &message(), &f),
        SendMessageNext::Refuse(SendRefusal::NonceConflict)
    ));
    let r = send_refusal(SendRefusal::CreateFailed, &some("n-1"));
    assert!(!r.text.message.is_empty());
}

#[test]
fn direct_messages_are_stored_as_they_were_sent() {
    let input = send_message_input(
        &message(),
        id(ME),
        id(A),
        "hello".to_string(),
        None,
        ScanStatus::Clean,
        Some(id(M)),
        vec![id(A)],
    );
    assert_eq!(input.sender, id(ME));
    assert_eq!(input.recipient, Some(id(A)));
    assert_eq!(input.channel, None);
    assert_eq!(input.message_type, MessageType::Text);
    assert_eq!(input.quoted_message, Some(id(M)));
    assert_eq!(input.client_nonce.as_deref(), Some("n-1"));
    assert!(counts_as_unread(&message()));
    assert!(is_mentioned(&vec![id(A)], A));
    assert!(!is_mentioned(&vec![id(A)], B));
}

fn dm_facts() -> DmUnreadFacts {
    DmUnreadFacts {
        tip_saved: true,
        active: Some(Some(true)),
        same_generation: Some(true),
        bumped: Some(true),
        active_after: Some(Some(true)),
        same_generation_after: Some(true),
        recounted: None,
    }
}

#[test]
fn one_more_is_told_only_if_nothing_changed() {
    assert!(matches!(dm_unread(true, &dm_facts()), DmUnreadNext::EmitDelta));
    let mut gone = dm_facts();
    gone.active_after = Some(Some(false));
    assert!(matches!(dm_unread(true, &gone), DmUnreadNext::Recount));
    gone.recounted = Some(Some(4));
    assert!(matches!(dm_unread(true, &gone), DmUnreadNext::EmitAbsolute(4)));
    let mut raced = dm_facts();
    raced.same_generation_after = Some(false);
    assert!(matches!(dm_unread(true, &raced), DmUnreadNext::Recount));
    assert!(matches!(dm_unread(false, &dm_facts()), DmUnreadNext::Stop));
}

#[test]
fn kinds_of_messages_are_named_in_any_case() {
    assert_eq!(parse_message_type("image"), MessageType::Image);
    assert_eq!(parse_message_type("Sticker"), MessageType::Sticker);
    assert_eq!(parse_message_type("call"), MessageType::Text);
    assert_eq!(parse_message_type(""), MessageType::Text);
    assert!(needs_scan(ScanStatus::Pending, true));
    assert!(!needs_scan(ScanStatus::Clean, true));
}

#[test]
fn long_mentions_are_cut() {
    assert_eq!(mention_preview("  hi "), "hi");
    let long = "ż".repeat(141);
    let cut = mention_preview(&long);
    assert_eq!(cut.chars().count(), 141);
    assert!(cut.ends_with('…'));
    assert_eq!(mention_preview(&"ż".repeat(140)), "ż".repeat(140));
}

fn channel() -> Channel {
    Channel { name: "room".to_string(), members: vec![id(A), id(B)], admin: id(ME) }
}

fn channel_payload() -> ChannelMessagePayload {
    ChannelMessagePayload {
        channel_id: M.to_string(),
        sender: ME.to_string(),
        content: some("hi"),
        message_type: None,
        file_url: None,
        file_type: None,
        file_size: None,
        file_name: None,
        duration_ms: None,
        quoted_message: None,
        client_nonce: None,
    }
}

#[test]
fn channel_messages_need_access_and_patience() {
    let mut f = ChannelMessageFacts {
        access: Some(ChannelAccess::Granted { locked: false }),
        slowmode: Some(Slowmode::Clear),
        attachment_ok: Some(true),
        quote: None,
        broadcast: None,
    };
    assert!(matches!(
        handle_send_channel_message(ME, &channel_payload(), &f),
        ChannelMessageNext::Broadcast { channel, sender, quoted: None } if channel == id(M) && sender == id(ME)
    ));
    f.broadcast = Some(Creation::Created);
    assert!(matches!(
        handle_send_channel_message(ME, &channel_payload(), &f),
        ChannelMessageNext::RecordSlowmode
    ));
    f.broadcast = Some(Creation::Replay);
    assert!(matches!(
        handle_send_channel_message(ME, &channel_payload(), &f),
        ChannelMessageNext::Done
    ));
    f.slowmode = Some(Slowmode::Wait(7));
    assert!(matches!(
        handle_send_channel_message(ME, &channel_payload(), &f),
        ChannelMessageNext::Refuse(ChannelRefusal::Slowmode { retry_after: 7 })
    ));
    f.access = Some(ChannelAccess::Granted { locked: true });
    assert!(matches!(
        handle_send_channel_message(ME, &channel_payload(), &f),
        ChannelMessageNext::Refuse(ChannelRefusal::ChatLocked)
    ));
    f.access = Some(ChannelAccess::Denied);
    assert!(matches!(
        handle_send_channel_message(ME, &channel_payload(), &f),
        ChannelMessageNext::Refuse(ChannelRefusal::Forbidden)
    ));
    let _ = channel_refusal(ChannelRefusal::InvalidFile, "bad", &None);
}

#[test]
fn channel_messages_reach_everybody() {
    assert_eq!(channel_recipient_ids(&channel()), vec![A, B, ME]);
    let own = Channel { name: "x".into(), members: vec![id(ME)], admin: id(ME) };
    assert_eq!(channel_recipient_ids(&own), vec![ME]);
    assert_eq!(broadcast_recipients(&channel()), vec![id(A), id(B), id(ME)]);
    assert_eq!(unread_targets(&channel(), id(A)), vec![id(B), id(ME)]);
    assert!(matches!(
        create_and_broadcast_channel_message(None, None),
        BroadcastNext::ResolveMentions
    ));
    assert!(matches!(
        create_and_broadcast_channel_message(Some(false), None),
        BroadcastNext::FailMentions
    ));
    assert!(matches!(create_and_broadcast_channel_message(Some(true), None), BroadcastNext::Create));
    assert!(matches!(
        create_and_broadcast_channel_message(Some(true), Some(Creation::Replay)),
        BroadcastNext::HandOut(ChannelBroadcastOutcome::IdempotentReplay)
    ));
    assert!(matches!(
        create_and_broadcast_channel_message(Some(true), Some(Creation::Failed)),
        BroadcastNext::FailCreate(Creation::Failed)
    ));
}

#[test]
fn channel_messages_are_stored_with_their_channel() {
    let input = ChannelBroadcastInput {
        channel: channel(),
        channel_oid: id(M),
        sender: id(ME),
        content: "raw".to_string(),
        message_type: MessageType::Text,
        file_url: None,
        file_type: None,
        file_size: None,
        file_name: None,
        duration_ms: None,
        quoted_message: None,
        client_nonce: None,
    };
    let m = channel_message_input(&input, "clean".to_string(), ScanStatus::Clean, vec![id(A)], false);
    assert_eq!(m.channel, Some(id(M)));
    assert_eq!(m.recipient, None);
    assert_eq!(m.content, "clean");
    assert_eq!(m.mentions, Some(vec![id(A)]));
}

#[test]
fn unread_counts_of_channels_are_raised_with_care() {
    let raced = UnreadTarget { id: id(A), before: 1, now: 2 };
    let calm = UnreadTarget { id: id(B), before: 1, now: 1 };
    let (same, changed) = split_by_generation(&vec![raced, calm]);
    assert_eq!(same.len() + changed.len(), 2);
    assert!(same.iter().all(|t| t.before == t.now));
    assert!(changed.iter().all(|t| t.before != t.now));
    let gone = after_bump(&vec![calm], &vec![], Some(false));
    assert!(gone.one_more.is_empty());
    assert_eq!(gone.recount, vec![id(B)]);
    let f = ChannelUnreadFacts {
        tip_saved: true,
        active: Some(Some(true)),
        some_to_raise: Some(true),
        some_still_to_raise: Some(true),
        active_before_bump: Some(Some(true)),
        bumped: false,
        active_after_bump: None,
        settled: false,
    };
    assert!(matches!(channel_unread(&f), ChannelUnreadNext::Bump));
    let deleted = ChannelUnreadFacts { active: Some(Some(false)), ..f };
    assert!(matches!(channel_unread(&deleted), ChannelUnreadNext::RecountAll));
    assert_eq!(
        mention_targets(&vec![id(A), id(B)], &Some(vec![]), &vec![id(B)], false),
        vec![id(B)]
    );
}

fn edit_facts(sender: &str) -> EditFacts {
    EditFacts {
        found: Some(EditLookup::Found(EditTarget {
            sender: id(sender),
            message_type: MessageType::Text,
            channel: None,
            recipient: Some(id(A)),
        })),
        found_again: None,
        participant: Some(Access::Granted),
        content: Some(ContentCheck::Fits),
        channel_found: None,
        mentions_ok: Some(true),
        prepared: Some(true),
        written: None,
        updated: None,
        updated_again: None,
    }
}

#[test]
fn messages_are_edited_by_their_senders() {
    let p = EditMessagePayload { message_id: some(M), content: some("new"), user_id: some(ME) };
    let mut f = edit_facts(ME);
    assert!(matches!(handle_edit_message(ME, &p, &f), EditNext::Write(m) if m == id(M)));
    f.written = Some(Change::Changed);
    assert!(matches!(handle_edit_message(ME, &p, &f), EditNext::FindUpdated));
    f.updated = Some(Lookup::Failed);
    assert!(matches!(handle_edit_message(ME, &p, &f), EditNext::FindUpdatedAgain));
    f.updated_again = Some(Lookup::Found);
    assert!(matches!(handle_edit_message(ME, &p, &f), EditNext::HandOut));
    f.written = Some(Change::Unchanged);
    assert!(matches!(handle_edit_message(ME, &p, &f), EditNext::Ignore));
    assert!(matches!(handle_edit_message(ME, &p, &edit_facts(A)), EditNext::Ignore));
    assert!(matches!(handle_edit_message(A, &p, &edit_facts(ME)), EditNext::Ignore));
    let long = EditFacts { content: Some(ContentCheck::TooLong), ..edit_facts(ME) };
    assert!(matches!(handle_edit_message(ME, &p, &long), EditNext::Fail(EditFailure::TooLong)));
    let lost = EditFacts {
        found: Some(EditLookup::Failed),
        found_again: Some(EditLookup::Failed),
        ..edit_facts(ME)
    };
    assert!(matches!(handle_edit_message(ME, &p, &lost), EditNext::Fail(EditFailure::Failed)));
    assert!(!edit_failure_text(EditFailure::NotText).message.is_empty());
}

#[test]
fn edits_call_only_those_who_were_not_called_before() {
    let change = MentionChange {
        previous: vec![id(A)],
        previous_everyone: false,
        mentions: vec![id(A), id(B)],
        everyone: false,
    };
    assert_eq!(edit_pings(&vec![id(A), id(B), id(ME)], &change, id(ME), &Some(vec![])), vec![id(B)]);
}

#[test]
fn messages_are_deleted_by_their_senders() {
    let p = DeleteMessagePayload { message_id: some(M), user_id: some(ME) };
    let target = DeleteTarget { sender: id(ME), channel: None, recipient: Some(id(A)) };
    let mut f = DeleteFacts {
        found: Some(DeleteLookup::Found(target)),
        participant: Some(Access::Granted),
        deletion: None,
        cleaned: false,
        channel_found: None,
    };
    assert!(matches!(handle_delete_message(ME, &p, &f), DeleteNext::Delete(m) if m == id(M)));
    f.deletion = Some(Deletion::Deleted { was_unread: true });
    assert!(matches!(handle_delete_message(ME, &p, &f), DeleteNext::CleanUp));
    f.cleaned = true;
    assert!(matches!(
        handle_delete_message(ME, &p, &f),
        DeleteNext::TellPair { recipient, recount: true } if recipient == id(A)
    ));
    f.deletion = Some(Deletion::NotActive);
    assert!(matches!(handle_delete_message(ME, &p, &f), DeleteNext::Ignore));
    f.found = Some(DeleteLookup::Found(DeleteTarget { sender: id(A), ..target }));
    assert!(matches!(handle_delete_message(ME, &p, &f), DeleteNext::Ignore));
}

#[test]
fn deletions_change_the_counts_of_those_who_had_not_read() {
    let states = vec![
        ReadState { user: id(A), last_read_at: 100, created_at: 0 },
        ReadState { user: id(B), last_read_at: 10, created_at: 0 },
    ];
    let hit = affected_members(&channel(), id(ME), &Some(states), 50);
    assert!(hit.contains(&id(B)));
    assert!(!hit.contains(&id(ME)));
}

#[test]
fn reactions_are_given_and_taken_back() {
    let p = ReactionPayload { message_id: some(M), emoji: some("👍") };
    let mut f = ReactionFacts {
        found: Some(Lookup::Found),
        found_again: None,
        participant: Some(Access::Granted),
        pulled: None,
        cleared: false,
        added: None,
        fresh: None,
        fresh_again: None,
    };
    assert!(matches!(handle_reaction(ME, &p, &f), ReactionNext::Pull));
    f.pulled = Some(Change::Unchanged);
    assert!(matches!(handle_reaction(ME, &p, &f), ReactionNext::Add));
    f.added = Some(true);
    f.fresh = Some(Lookup::Found);
    assert!(matches!(handle_reaction(ME, &p, &f), ReactionNext::HandOut));
    f.pulled = Some(Change::Changed);
    assert!(matches!(handle_reaction(ME, &p, &f), ReactionNext::ClearEmpty));
    f.participant = Some(Access::Denied);
    assert!(matches!(handle_reaction(ME, &p, &f), ReactionNext::ShowCurrent));
    assert!(valid_emoji("👍"));
    assert!(!valid_emoji(""));
    assert!(!valid_emoji("a.b"));
    assert!(!valid_emoji("$x"));
    assert_eq!(reaction_users_path("👍"), "reactions.👍.users");
    let shown = reactions_json(&vec![Reaction { emoji: "x".into(), users: vec![id(A)] }]);
    assert_eq!(shown[0].users, vec![A]);
}

#[test]
fn messages_are_marked_as_read() {
    let p = MarkMessageReadPayload { message_id: some(M), user_id: some(ME) };
    let mut f = MarkMessageFacts { found: None, allowed: None, marked: None };
    assert!(matches!(handle_mark_message_read(ME, &p, &f), MarkMessageNext::FindMessage(_)));
    f.found = Some(FoundSender::Found(id(A)));
    assert!(matches!(handle_mark_message_read(ME, &p, &f), MarkMessageNext::AskAllowed));
    f.allowed = Some(Answer::Yes);
    assert!(matches!(handle_mark_message_read(ME, &p, &f), MarkMessageNext::Mark(_)));
    f.marked = Some(Change::Changed);
    assert!(matches!(
        handle_mark_message_read(ME, &p, &f),
        MarkMessageNext::TellSender { sender, .. } if sender == id(A)
    ));
    assert!(matches!(handle_mark_message_read(A, &p, &f), MarkMessageNext::Ignore));
}

#[test]
fn conversations_and_channels_are_marked_as_read() {
    let p = MarkConversationReadPayload { user_id: some(ME), contact_id: some(A) };
    let f = MarkConversationFacts { unread: None, marked: None };
    assert!(matches!(
        handle_mark_conversation_read(ME, &p, &f),
        MarkConversationNext::CollectUnread { limit: 501, .. }
    ));
    let few = MarkConversationFacts { unread: Some(Unread::Count(3)), marked: None };
    assert!(matches!(handle_mark_conversation_read(ME, &p, &few), MarkConversationNext::MarkFound));
    let many = MarkConversationFacts { unread: Some(Unread::Count(501)), marked: None };
    assert!(matches!(handle_mark_conversation_read(ME, &p, &many), MarkConversationNext::MarkAll));
    let none = MarkConversationFacts { unread: Some(Unread::Count(0)), marked: None };
    assert!(matches!(
        handle_mark_conversation_read(ME, &p, &none),
        MarkConversationNext::Recount { .. }
    ));
    let c = MarkChannelReadPayload { user_id: some(ME), channel_id: some(M) };
    assert!(matches!(
        handle_mark_channel_read(ME, &c, Some(Access::Granted), None),
        MarkChannelNext::Mark
    ));
    assert!(matches!(
        handle_mark_channel_read(ME, &c, Some(Access::Granted), Some(true)),
        MarkChannelNext::Recount { .. }
    ));
}

#[test]
fn counts_settle_after_marking() {
    let first = heal_dm_unread_after_mark(Some(2));
    assert_eq!(first.announce, Some(2));
    let again = heal_step(first.next.unwrap(), Some(2));
    assert_eq!(again.announce, None);
    assert!(again.next.is_none());
    let changed = heal_step(first.next.unwrap(), Some(1));
    assert_eq!(changed.announce, Some(1));
    let lost = heal_dm_unread_after_mark(None);
    assert!(lost.invalidate);
    let mut h = lost.next;
    let mut steps: u32 = 0;
    while let Some(x) = h {
        h = heal_step(x, None).next;
        steps += 1;
        assert!(steps < 100);
    }
}

#[test]
fn typing_is_told_to_those_who_may_know() {
    let p = TypingPayload { chat_id: some(A), is_typing: Some(true) };
    let mut f = TypingFacts { cached: None, access: None };
    assert!(matches!(handle_typing(&p, &f), TypingNext::LookUpCache));
    f.cached = Some(None);
    assert!(matches!(handle_typing(&p, &f), TypingNext::RequireDmAccess));
    f.access = Some(Access::Granted);
    assert!(matches!(handle_typing(&p, &f), TypingNext::TellDm { remember: true }));
    f.access = Some(Access::Denied);
    assert!(matches!(handle_typing(&p, &f), TypingNext::RememberDenied));
    f.cached = Some(Some(TypingAccess::Denied));
    assert!(matches!(handle_typing(&p, &f), TypingNext::Ignore));
    assert_eq!(typing_recipients(&vec![ME.to_string(), A.to_string()], ME), vec![A]);
}

fn call() -> CallPayload {
    CallPayload { from: some(ME), to: some(A), mode: some("video") }
}

#[test]
fn calls_are_made_between_friends() {
    let mut f = CallFacts { swept: false, friends: None, blocked: None };
    assert!(matches!(handle_call_invite(ME, &call(), &f, None), InviteNext::Sweep));
    f.swept = true;
    assert!(matches!(handle_call_invite(ME, &call(), &f, None), InviteNext::AskFriends));
    f.friends = Some(Answer::Yes);
    assert!(matches!(handle_call_invite(ME, &call(), &f, None), InviteNext::AskBlocked));
    f.blocked = Some(Answer::No);
    assert!(matches!(handle_call_invite(ME, &call(), &f, None), InviteNext::Create(CallMode::Video)));
    assert!(matches!(
        handle_call_invite(ME, &call(), &f, Some(InviteReply::Created)),
        InviteNext::Ring
    ));
    assert!(matches!(
        handle_call_invite(ME, &call(), &f, Some(InviteReply::Refused(CallSessionError::InProgress))),
        InviteNext::Unavailable(Unavailable::Busy)
    ));
    f.blocked = Some(Answer::Yes);
    assert!(matches!(
        handle_call_invite(ME, &call(), &f, None),
        InviteNext::Unavailable(Unavailable::Blocked)
    ));
    assert!(matches!(handle_call_invite(A, &call(), &f, None), InviteNext::Ignore));
    assert_eq!(unavailable_reason(Unavailable::NotFriends), "NOT_FRIENDS");
}

#[test]
fn calls_are_accepted_and_ended() {
    let f = CallFacts { swept: true, friends: Some(Answer::Yes), blocked: Some(Answer::No) };
    assert_eq!(call_action("call:accept"), Some(CallAction::Accept));
    assert_eq!(call_action("call:x"), None);
    assert!(matches!(
        handle_call_simple(ME, "call:accept", &call(), &f, None),
        CallNext::Act(CallAction::Accept)
    ));
    assert!(matches!(
        handle_call_simple(ME, "call:end", &call(), &f, Some(SessionReply::Done)),
        CallNext::TellBoth(CallAction::End)
    ));
    assert!(matches!(
        handle_call_simple(
            ME,
            "call:accept",
            &call(),
            &f,
            Some(SessionReply::Refused(CallSessionError::Expired))
        ),
        CallNext::FinalizeExpired
    ));
    assert!(matches!(handle_call_timeout(ME, &call(), false, None), CallNext::Sweep));
    let told = tell_both(ME, A, "call:ended");
    assert_eq!(told.len(), 2);
}

#[test]
fn calls_leave_a_log() {
    assert_eq!(format_call_duration(5), "0:05");
    assert_eq!(format_call_duration(65), "1:05");
    assert_eq!(format_call_duration(3_661), "1:01:01");
    assert_eq!(call_log_content(65), "Voice call · 1:05");
    let log = create_call_log_message(ME, A, 65).unwrap();
    assert_eq!(log.message_type, MessageType::Call);
    assert_eq!(log.duration_ms, Some(65_000));
    assert!(create_missed_call_log_message("x", A).is_none());
    let s = CallSession {
        caller_id: ME.to_string(),
        callee_id: A.to_string(),
        phase: CallPhase::Ringing,
        talked_secs: None,
    };
    assert_eq!(finalize_expired_session(&s).log, CallLog::Missed);
}

#[test]
fn voice_rooms_are_for_members() {
    let p = ChannelVoicePayload { channel_id: some(M) };
    let mut f = VoiceFacts { found: None, found_again: None, access: None };
    assert!(matches!(handle_channel_voice_join(&p, &f), VoiceNext::FindChannel(_)));
    f.found = Some(Lookup::Found);
    assert!(matches!(handle_channel_voice_join(&p, &f), VoiceNext::CheckAccess));
    f.access = Some(true);
    assert!(matches!(handle_channel_voice_join(&p, &f), VoiceNext::Proceed(c) if c == id(M)));
    f.access = Some(false);
    assert!(matches!(handle_channel_voice_join(&p, &f), VoiceNext::Ignore));
    assert!(matches!(
        handle_channel_voice_leave(&p, Some(true), None, None),
        VoiceLeaveNext::Leave(_)
    ));
    let people = Some(vec![A.to_string()]);
    assert_eq!(emit_channel_voice_state(&people, &vec![B.to_string()]), vec![A, B]);
}

#[test]
fn presence_follows_connections() {
    assert_eq!(normalize_availability_status("AWAY"), "away");
    assert_eq!(normalize_availability_status("x"), "online");
    assert_eq!(parse_availability_status("dnd"), AvailabilityStatus::Dnd);
    assert!(matches!(set_user_online("x", None), MarkNext::NotMarked));
    assert!(matches!(set_user_online(ME, None), MarkNext::Write(_)));
    let mut on = OnlineFacts {
        swept: true,
        here: Some(true),
        marked: Some(true),
        here_after_mark: Some(false),
        availability: None,
        here_before_telling: None,
        told: false,
    };
    assert!(matches!(on_user_connected(&on), OnlineNext::TakeBack));
    on.here_after_mark = Some(true);
    assert!(matches!(on_user_connected(&on), OnlineNext::AskAvailability));
    let off = OfflineFacts {
        back: Some(false),
        calls_taken: true,
        back_after_take: Some(true),
        calls_ended: false,
        back_after_calls: None,
        rooms_left: false,
        back_after_rooms: None,
        availability: None,
        back_after_availability: None,
        marked: None,
        back_after_mark: None,
    };
    assert!(matches!(on_user_disconnected(&off), OfflineNext::RestoreCalls));
    assert_eq!(status_news(true, AvailabilityStatus::Away, Some(5)).last_seen, None);
}

#[test]
fn connections_are_registered_and_reached() {
    let mut r = ConnectionRegistry::new();
    let a = r.register(ME, some("fam"));
    let b = r.register(ME, None);
    let c = r.register(A, some("fam"));
    assert_ne!(a, b);
    assert_eq!(r.send_prebuilt_to_user(ME), vec![a, b]);
    assert_eq!(r.send_to_family(ME, "fam"), vec![a]);
    assert_eq!(r.send_prebuilt_to_users(&vec![A.to_string(), ME.to_string()]), vec![c, a, b]);
    assert_eq!(r.broadcast_to_all().len(), 3);
    assert_eq!(r.revoke_session_remotely(ME, "fam"), vec![a]);
    assert_eq!(r.send_prebuilt_to_user(ME), vec![b]);
    r.unregister(ME, b);
    assert!(r.send_prebuilt_to_user(ME).is_empty());
    assert_eq!(r.disconnect_user(A), vec![c]);
    assert!(r.broadcast_to_all().is_empty());
}

#[test]
fn slow_connections_wait_for_what_matters() {
    assert!(is_critical_event("receiveMessage"));
    assert!(is_critical_event("call:ended"));
    assert!(is_critical_event("channel-voice:state"));
    assert!(!is_critical_event("typing"));
    assert_eq!(enqueue_frame(Offer::Taken, false), FrameFate::Sent);
    assert_eq!(enqueue_frame(Offer::Full, true), FrameFate::Wait(50));
    assert_eq!(enqueue_frame(Offer::Full, false), FrameFate::Dropped);
    assert_eq!(enqueue_frame(Offer::Closed, true), FrameFate::Dropped);
}

fn handshake() -> HandshakeFacts {
    HandshakeFacts {
        is_upgrade: true,
        query_too_long: false,
        origin_allowed: true,
        secure: true,
        address_blocked: Some(false),
        client_known: true,
        rate: Some(HandshakeRate::Allowed),
        room: Some(true),
        login: Some(LoginReply::Checked { names_user: true }),
        family_available: Some(true),
        encryption_required: true,
        has_key_token: true,
        key: Some(true),
    }
}

#[test]
fn sockets_open_after_all_checks() {
    assert!(matches!(ws_handler(&handshake()), HandshakeNext::Open { encrypted: true }));
    let reject = |f: HandshakeFacts, why: Rejection, status: u16| {
        assert_eq!(ws_handler(&f), HandshakeNext::Reject(why));
        assert_eq!(rejection_reply(why).status, status);
    };
    reject(HandshakeFacts { origin_allowed: false, ..handshake() }, Rejection::WrongOrigin, 403);
    reject(
        HandshakeFacts { rate: Some(HandshakeRate::RetryAfter(3)), ..handshake() },
        Rejection::TooManyHandshakes { retry_after: 3 },
        429,
    );
    reject(
        HandshakeFacts { login: Some(LoginReply::Checked { names_user: false }), ..handshake() },
        Rejection::NotLoggedIn,
        401,
    );
    assert!(matches!(
        ws_handler(&HandshakeFacts { has_key_token: false, ..handshake() }),
        HandshakeNext::Reject(Rejection::KeyMissing)
    ));
    assert!(matches!(
        ws_handler(&HandshakeFacts { key: Some(false), ..handshake() }),
        HandshakeNext::Reject(Rejection::KeyInvalid)
    ));
}

fn open_facts() -> OpenFacts {
    OpenFacts {
        address_counted: Some(true),
        user_counted: Some(Some(true)),
        registered: true,
        has_key: true,
        key_usable: Some(true),
    }
}

#[test]
fn sockets_that_are_dropped_are_not_counted() {
    assert!(matches!(open_socket(&open_facts()), OpenNext::Serve { encrypted: true }));
    let full = OpenFacts { user_counted: Some(None), ..open_facts() };
    assert!(matches!(open_socket(&full), OpenNext::Drop { undo_address: true }));
    let crowded = OpenFacts { address_counted: Some(false), ..open_facts() };
    assert!(matches!(open_socket(&crowded), OpenNext::Drop { undo_address: false }));
    let broken = OpenFacts { key_usable: Some(false), ..open_facts() };
    assert!(matches!(open_socket(&broken), OpenNext::DropAll));
}

#[test]
fn sockets_live_and_end() {
    let mut f = LifeFacts {
        open: open_facts(),
        ended: false,
        unregistered: false,
        user_uncounted: false,
        address_uncounted: false,
        user_connected: None,
        rooms_left: false,
        calls_ended: false,
        gone: None,
        cleared: false,
    };
    assert_eq!(handle_socket(&f), LifeNext::Serve { encrypted: true });
    f.ended = true;
    assert_eq!(handle_socket(&f), LifeNext::Unregister);
    f.unregistered = true;
    assert_eq!(handle_socket(&f), LifeNext::UncountUser);
    f.user_uncounted = true;
    assert_eq!(handle_socket(&f), LifeNext::UncountAddress);
    f.address_uncounted = true;
    assert_eq!(handle_socket(&f), LifeNext::AskConnected);
    f.user_connected = Some(true);
    assert_eq!(handle_socket(&f), LifeNext::LeaveRooms);
    f.user_connected = Some(false);
    assert_eq!(handle_socket(&f), LifeNext::WaitAndCheck(400));
    f.gone = Some(true);
    assert_eq!(handle_socket(&f), LifeNext::Clear);
    f.cleared = true;
    assert_eq!(handle_socket(&f), LifeNext::Done);
    assert!(gone_after_grace(false, 0));
    assert!(!gone_after_grace(false, 1));
}

#[test]
fn frames_are_handled_by_their_kind() {
    assert_eq!(socket_event(true, SocketEvent::Text { len: 1 }), SocketAction::Continue);
    assert_eq!(socket_event(false, SocketEvent::Text { len: 1 }), SocketAction::Process);
    assert_eq!(socket_event(false, SocketEvent::Text { len: 65_537 }), SocketAction::Continue);
    assert_eq!(socket_event(true, SocketEvent::Binary { len: 65_536 }), SocketAction::Decrypt);
    assert_eq!(socket_event(false, SocketEvent::Binary { len: 1 }), SocketAction::Continue);
    assert_eq!(
        socket_event(true, SocketEvent::PingDue { silent_nanos: 90_000_000_001 }),
        SocketAction::CloseAndEnd
    );
    assert_eq!(
        socket_event(true, SocketEvent::PingDue { silent_nanos: 90_000_000_000 }),
        SocketAction::SendPing
    );
    assert_eq!(socket_event(true, SocketEvent::Ping { len: 1_025 }), SocketAction::Continue);
    assert_eq!(socket_event(true, SocketEvent::Outbound { open: false }), SocketAction::End);
    assert_eq!(
        socket_event(true, SocketEvent::RevokeSignal { revoked: true }),
        SocketAction::CloseAndEnd
    );
    assert_eq!(process_incoming_text(&some("ping")), Incoming::Ping);
    assert_eq!(process_incoming_text(&some("typing")), Incoming::Dispatch);
    assert_eq!(process_incoming_text(&None), Incoming::Malformed);
    assert!(recheck_disconnects(RecheckReply::Denied));
    assert!(!recheck_disconnects(RecheckReply::Unavailable));
    let left = voice_left_recipients(&None, ME, &vec![A.to_string()]);
    assert_eq!(left, vec![A, ME]);
}

#[test]
fn frames_are_limited_and_queued() {
    assert_eq!(frame_kind("sendMessage"), Some(FrameKind::SendMessage));
    assert_eq!(frame_kind("nothing"), None);
    assert_eq!(frame_limit(FrameKind::Typing), 20);
    assert_eq!(frame_queue(FrameKind::SendMessage), Queue::Ordered);
    let mut f = DispatchFacts { readable: None, says_typing: false, within_limit: None, queued: None };
    assert!(matches!(
        dispatch_message("sendMessage", &f),
        DispatchNext::CheckRate { limit: 60, window_ms: 60_000 }
    ));
    f.within_limit = Some(false);
    assert!(matches!(dispatch_message("sendMessage", &f), DispatchNext::RefuseRate));
    f.within_limit = Some(true);
    assert!(matches!(dispatch_message("sendMessage", &f), DispatchNext::Read));
    f.readable = Some(true);
    assert!(matches!(
        dispatch_message("sendMessage", &f),
        DispatchNext::Enqueue(Queue::Ordered)
    ));
    f.queued = Some(false);
    assert!(matches!(dispatch_message("sendMessage", &f), DispatchNext::RefuseFull));
    assert!(matches!(dispatch_message("nothing", &f), DispatchNext::Ignore));
}

#[test]
fn refusals_carry_the_nonce() {
    assert_eq!(payload_client_nonce(&some(" n ")).as_deref(), Some("n"));
    assert_eq!(payload_client_nonce(&some("  ")), None);
    let r = emit_rate_limit_error(&some("n"));
    assert!(!r.text.code.is_empty());
    assert!(!matches!(emit_queue_full_error(&some("n")).client_nonce, NonceField::Omitted));
}
