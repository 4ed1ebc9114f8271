use klovy_chat_server::answers::Answer;
use klovy_chat_server::controllers::account::{picture_news, Picture, PROFILE_UPDATED};
use klovy_chat_server::ids::ObjectId;
use klovy_chat_server::model::messages::{
    edit_update, is_newer, last_messages_query, message_field_name, newest_query, read_update,
    unread_counts_query, GroupBy, MessageField, MessageFilter, MessageRecord, MessageValue,
};
use klovy_chat_server::model::update::{presence_update, status_update, FieldValue, UserField};
use klovy_chat_server::model::users::{CreateUserInput, User};
use klovy_chat_server::utils::admin::{
    attachments_of, channel_deleted_frame, due_accounts, ids_to_purge, member_left_frame, FileRecord,
};
use klovy_chat_server::utils::auth::refresh::{
    issue_refresh_token, issuing, rotated_session, IssueNext, SessionClientMetadata,
};
use klovy_chat_server::ws::calls::{
    call_log_frame, finalize_expired_ringing_session, finalize_stale_accepted_session,
    incoming_frame, mode_name, notice_frame, tell_both, unavailable_frame, CallLog, CallMode,
    CallPayload, CallPhase, CallSession, Unavailable,
};
use klovy_chat_server::ws::channel::{
    channel_frame, channel_mention, channel_refusal_frame, hand_out, muted_in, Channel,
    ChannelBroadcastInput, ChannelBroadcastOutcome, ChannelRefusal,
};
use klovy_chat_server::ws::delete::{
    deletion_frame, readers_frame, recount_deleted, states_of_people, states_of_readers,
    tell_readers, DeleteNext, ReadState, ReaderLookup, ReadersNext, RecountNext,
};
use klovy_chat_server::ws::direct::{
    direct_frame, dm_mention, send_refusal_frame, sender_muted, SendMessagePayload, SendRefusal,
};
use klovy_chat_server::ws::edit::{
    content_check, dm_muted, edit_mention, edit_text, edited_frame, ping_candidates, ContentCheck, EditTarget,
};
use klovy_chat_server::ws::events::{emit_rate_limit_error, FailureText};
use klovy_chat_server::ws::frames::{failure_frame, refusal_frame, Frame, FrameValue};
use klovy_chat_server::ws::message::MessageType;
use klovy_chat_server::ws::reaction::{
    reaction_frame, reaction_recipients, reaction_update, Reaction, ReactionAudience, ReactionNext,
    ReactionTarget, ReactionUpdate,
};
use klovy_chat_server::ws::read::{
    message_read_frame, messages_read_frame, MarkChannelReadPayload, MarkConversationReadPayload,
};
use klovy_chat_server::ws::typing::{typing_frame, TypingNext, TypingPayload};
use klovy_chat_server::ws::unread::{
    both_keys, call_key, member_key, pair_key, read_channel_key, read_conversation_key,
    read_message_key, sent_key,
};
use klovy_chat_server::ws::voice::voice_frame;

const A: &str = "507f1f77bcf86cd799439011";
const B: &str = "507f1f77bcf86cd799439012";
const C: &str = "507f1f77bcf86cd799439013";

fn id(s: &str) -> ObjectId {
    ObjectId::parse_str(s).unwrap()
}

fn channel() -> Channel {
    Channel { name: "general".into(), members: vec![id(A), id(B)], admin: id(A) }
}

fn show(v: &FrameValue) -> String {
    match v {
        FrameValue::Text(s) => s.clone(),
        FrameValue::MaybeText(s) => format!("{s:?}"),
        FrameValue::Flag(b) => format!("{b}"),
        FrameValue::Number(n) => format!("{n}"),
        FrameValue::Texts(v) => v.join("+"),
        FrameValue::Reactions(v) => {
            v.iter().map(|r| format!("{}={}", r.emoji, r.users.join("+"))).collect()
        }
        FrameValue::Sender(s) => format!("sender or {s:?}"),
        FrameValue::Person(p) => match &p.names {
            Some(n) => format!("{} {} {:?} {:?}", p.id, n.username, n.display_name, n.color),
            None => p.id.clone(),
        },
    }
}

fn said(f: &Frame) -> Vec<(&'static str, String)> {
    f.fields.iter().map(|x| (x.key, show(&x.value))).collect()
}

fn text(s: &str) -> Option<String> {
    Some(s.to_string())
}

fn user() -> User {
    let input =
        CreateUserInput { username: "ewa".into(), password: "long enough".into(), language: None };
    User::create(&input, "ewa".into(), "hash".into(), 0).unwrap()
}

fn payload() -> SendMessagePayload {
    SendMessagePayload {
        sender: A.into(),
        recipient: B.into(),
        content: text("hi"),
        message_type: None,
        file_url: None,
        file_type: None,
        file_size: None,
        file_name: None,
        duration_ms: None,
        quoted_message: None,
        client_nonce: text(" n "),
    }
}

#[test]
fn channel_messages_name_their_channel() {
    let f = channel_frame(&channel(), id(C));
    assert_eq!(f.event, "receive-channel-message");
    assert_eq!(f.to, vec![A, B]);
    assert!(f.message);
    assert_eq!(said(&f), vec![("channelId", C.to_string())]);
    let input = ChannelBroadcastInput {
        channel: channel(),
        channel_oid: id(C),
        sender: id(B),
        content: "hi".into(),
        message_type: MessageType::Text,
        file_url: None,
        file_type: None,
        file_size: None,
        file_name: None,
        duration_ms: None,
        quoted_message: None,
        client_nonce: None,
    };
    for outcome in [ChannelBroadcastOutcome::Created, ChannelBroadcastOutcome::IdempotentReplay] {
        let g = hand_out(&input, outcome);
        assert_eq!((g.event, g.to.clone(), said(&g)), (f.event, f.to.clone(), said(&f)));
    }
    let m = channel_mention(id(B), "general", id(C), id(A), "  hi all ");
    assert_eq!((m.event, m.to), ("message-mention", vec![B.to_string()]));
    assert_eq!(show(&m.fields[0].value), "channel");
    assert_eq!(show(&m.fields[2].value), "Some(\"general\")");
    assert_eq!(show(&m.fields[5].value), "hi all");
    let refused = channel_refusal_frame(A, ChannelRefusal::Slowmode { retry_after: 9 }, "", &text(" n "));
    assert_eq!(refused.event, "error");
    assert_eq!(said(&refused)[2..], [("clientNonce", "n".to_string()), ("retryAfter", "9".to_string())]);
    let muted = muted_in(&channel(), id(C));
    let mut u = User { id: Some(id(B)), muted_channels: vec![id(C)], ..user() };
    assert!(muted.selects(&u));
    u.muted_channels = vec![id(A)];
    assert!(!muted.selects(&u));
}

#[test]
fn direct_messages_go_to_both() {
    let f = direct_frame(&payload());
    assert_eq!((f.event, f.message), ("receiveMessage", true));
    assert_eq!(f.to, vec![B, A]);
    assert!(f.fields.is_empty());
    let m = dm_mention(&payload(), id(C), "hi");
    assert_eq!(m.to, vec![B]);
    let all = said(&m);
    assert_eq!(all[0], ("scope", "dm".to_string()));
    assert_eq!(all[1], ("sourceId", A.to_string()));
    assert_eq!(all[3], ("messageId", C.to_string()));
    assert_eq!(all[4], ("from", "sender or None".to_string()));
    let blocked = send_refusal_frame(A, SendRefusal::Blocked { by_me: false, by_other: true }, &text(" n "));
    assert_eq!(blocked.event, "dm-error");
    assert_eq!(
        said(&blocked)[2..],
        [
            ("clientNonce", "Some(\" n \")".to_string()),
            ("blockedByMe", "false".to_string()),
            ("blockedByOther", "true".to_string()),
        ]
    );
    let slow = refusal_frame(A, &emit_rate_limit_error(&None));
    assert_eq!((slow.event, slow.fields.len()), ("error", 2));
    let failed = failure_frame(A, FailureText { code: "X", message: "m", retryable: true }, Some("1"));
    assert_eq!(failed.event, "error");
    assert_eq!(said(&failed)[2..], [("retryable", "true".to_string()), ("messageId", "1".to_string())]);
}

#[test]
fn edits_are_checked_stored_and_shown() {
    assert_eq!(content_check("", true), ContentCheck::Empty);
    assert_eq!(content_check("x", true), ContentCheck::Fits);
    assert_eq!(content_check("x", false), ContentCheck::TooLong);
    assert_eq!(edit_text(" x "), "x");
    let u = edit_update(id(C), vec![id(B)], true, 77);
    let live = record(C, A, Some(B));
    assert!(u.filter.selects(&live));
    assert!(!u.filter.selects(&MessageRecord { deleted: true, ..live }));
    let names: Vec<&str> = u.set.iter().map(|s| message_field_name(s.field)).collect();
    assert_eq!(
        names,
        vec![
            "content", "searchText", "searchTokens", "mentions", "mentionsEveryone", "edited",
            "editedAt", "updatedAt"
        ]
    );
    assert!(matches!(&u.set[3].value, MessageValue::Ids(v) if *v == vec![id(B)]));
    assert!(matches!(u.set[4].value, MessageValue::Flag(true)));
    assert!(matches!(u.set[6].value, MessageValue::Time(77)));
    let pair = EditTarget { sender: id(A), message_type: MessageType::Text, channel: None, recipient: Some(id(B)) };
    let f = edited_frame(&pair, &None).unwrap();
    assert_eq!((f.event, f.message), ("message-edited", true));
    assert_eq!(f.to, vec![B, A]);
    assert_eq!(ping_candidates(&pair, &None), vec![id(B)]);
    let ping = edit_mention(id(B), &pair, &None, "the-id", "hi");
    assert_eq!(said(&ping)[1], ("sourceId", A.to_string()));
    assert_eq!(said(&ping)[3], ("messageId", "the-id".to_string()));
    let within = EditTarget { channel: Some(id(C)), recipient: None, ..pair };
    assert_eq!(edited_frame(&within, &Some(channel())).unwrap().to, vec![A, B]);
    assert!(edited_frame(&within, &None).is_none());
    let ping = edit_mention(id(B), &within, &Some(channel()), "the-id", "hi");
    assert_eq!(said(&ping)[0], ("scope", "channel".to_string()));
    assert_eq!(said(&ping)[1], ("sourceId", C.to_string()));
}

#[test]
fn deletions_are_told() {
    let pair = deletion_frame(DeleteNext::TellPair { recipient: id(B), recount: true }, id(A), &None, "m");
    let pair = pair.unwrap();
    assert_eq!((pair.event, pair.to.clone()), ("message-deleted", vec![B.to_string(), A.to_string()]));
    assert_eq!(said(&pair), vec![("_id", "m".to_string())]);
    let all = deletion_frame(DeleteNext::TellChannel(id(C)), id(B), &Some(channel()), "m").unwrap();
    assert_eq!(all.to, vec![A, B]);
    let alone = deletion_frame(DeleteNext::TellSender, id(A), &None, "m").unwrap();
    assert_eq!(alone.to, vec![A]);
    assert!(deletion_frame(DeleteNext::Ignore, id(A), &None, "m").is_none());
    assert_eq!(readers_frame(&vec![id(B), id(A), id(B)], id(A), "m").to, vec![B]);
    assert_eq!(tell_readers(None), ReadersNext::Ask);
    assert_eq!(tell_readers(Some(ReaderLookup::Listed)), ReadersNext::Tell);
    assert_eq!(tell_readers(Some(ReaderLookup::Broken)), ReadersNext::FailAgain);
    assert_eq!(tell_readers(Some(ReaderLookup::Failed)), ReadersNext::Stop);
    assert_eq!(recount_deleted(false, None, None), RecountNext::Stop);
    assert_eq!(recount_deleted(true, None, None), RecountNext::Count);
    assert_eq!(recount_deleted(true, Some(false), None), RecountNext::Stop);
    assert_eq!(recount_deleted(true, Some(true), None), RecountNext::Sync);
    assert_eq!(recount_deleted(true, Some(true), Some(Some(4))), RecountNext::Tell(4));
    let state = ReadState { user: id(B), last_read_at: 1, created_at: 1 };
    assert!(states_of_people(&channel(), id(C)).selects(id(C), &state));
    assert!(!states_of_people(&channel(), id(C)).selects(id(C), &ReadState { user: id(C), ..state }));
    assert!(states_of_readers(id(C)).selects(id(C), &ReadState { user: id(C), ..state }));
    assert!(!states_of_readers(id(C)).selects(id(A), &state));
}

#[test]
fn reactions_are_stored_and_shown() {
    let list = vec![Reaction { emoji: "👍".into(), users: vec![id(A), id(B)] }];
    let f = reaction_frame(vec![A.into()], "m", &list, Some(id(C)), true);
    assert_eq!((f.event, f.message), ("message-reaction", false));
    assert_eq!(
        said(&f),
        vec![
            ("messageId", "m".to_string()),
            ("reactions", format!("👍={A}+{B}")),
            ("channelId", format!("Some(\"{C}\")")),
            ("degraded", "true".to_string()),
        ]
    );
    assert_eq!(reaction_frame(vec![], "m", &list, None, false).fields.len(), 3);
    let msg = ReactionTarget { sender: id(A), recipient: Some(id(B)), channel: None };
    let to = |a| reaction_recipients(a, C, &msg, &Some(channel()), &vec![id(B), id(B)]);
    assert_eq!(to(ReactionAudience::Pair), vec![A, B]);
    assert_eq!(to(ReactionAudience::ChannelMembers), vec![A, B]);
    assert_eq!(to(ReactionAudience::ChannelReaders), vec![C, B]);
    assert_eq!(to(ReactionAudience::UserOnly), vec![C]);
    assert!(to(ReactionAudience::Nobody).is_empty());
    assert!(matches!(reaction_update(ReactionNext::Pull, "x"),
        Some(ReactionUpdate::Pull { users }) if users == "reactions.x.users"));
    assert!(matches!(reaction_update(ReactionNext::ClearEmpty, "x"),
        Some(ReactionUpdate::Clear { users, entry }) if users == "reactions.x.users" && entry == "reactions.x"));
    assert!(matches!(reaction_update(ReactionNext::Add, "x"),
        Some(ReactionUpdate::Add { users, name }) if users == "reactions.x.users" && name == "reactions.x.emoji"));
    assert!(reaction_update(ReactionNext::HandOut, "x").is_none());
}

#[test]
fn receipts_say_what_was_read() {
    let f = message_read_frame(id(A), "m");
    assert_eq!((f.event, f.to.clone()), ("message-read", vec![A.to_string()]));
    assert_eq!(said(&f), vec![("messageId", "m".to_string()), ("read", "true".to_string())]);
    let p = MarkConversationReadPayload { user_id: text(A), contact_id: text(B) };
    let few = messages_read_frame(&p, &vec![id(C)]);
    assert_eq!((few.event, few.to.clone()), ("messages-read", vec![B.to_string()]));
    assert_eq!(
        said(&few),
        vec![
            ("messageIds", C.to_string()),
            ("read", "true".to_string()),
            ("readerId", A.to_string()),
            ("conversationRead", "false".to_string()),
        ]
    );
    let many = messages_read_frame(&p, &vec![id(C); 501]);
    assert_eq!(said(&many)[0], ("messageIds", String::new()));
    assert_eq!(said(&many)[3], ("conversationRead", "true".to_string()));
}

#[test]
fn typing_is_told_to_the_others() {
    let p = TypingPayload { chat_id: text(B), is_typing: Some(true) };
    let people = vec![A.to_string(), B.to_string()];
    let dm = typing_frame(TypingNext::TellDm { remember: false }, &p, A, &people).unwrap();
    assert_eq!((dm.event, dm.to.clone()), ("typing", vec![B.to_string()]));
    assert_eq!(
        said(&dm),
        vec![("chatId", B.to_string()), ("userId", A.to_string()), ("isTyping", "true".to_string())]
    );
    let within = typing_frame(TypingNext::TellChannel { remember: true }, &p, A, &people).unwrap();
    assert_eq!(within.to, vec![B]);
    let stopped = typing_frame(TypingNext::StopInChannel, &p, A, &people).unwrap();
    assert_eq!(said(&stopped)[2], ("isTyping", "false".to_string()));
    assert!(typing_frame(TypingNext::Ignore, &p, A, &people).is_none());
}

#[test]
fn calls_are_offered_and_ended() {
    let s = CallSession {
        caller_id: A.into(),
        callee_id: B.into(),
        phase: CallPhase::Accepted,
        talked_secs: Some(3),
    };
    assert_eq!(finalize_expired_ringing_session(&s).log, CallLog::Missed);
    assert_eq!(finalize_stale_accepted_session(&s).log, CallLog::Talked(3));
    let f = notice_frame(&finalize_stale_accepted_session(&s).notices[1]);
    assert_eq!((f.event, f.to.clone()), ("call:ended", vec![B.to_string()]));
    assert_eq!(said(&f), vec![("from", A.to_string()), ("reason", "TIMEOUT".to_string())]);
    assert_eq!(said(&notice_frame(&tell_both(A, B, "call:accepted")[0])), vec![("from", A.to_string())]);
    let p = CallPayload { from: text(A), to: text(B), mode: None };
    let busy = unavailable_frame(&p, Unavailable::Busy);
    assert_eq!((busy.event, busy.to.clone()), ("call:unavailable", vec![A.to_string()]));
    assert_eq!(said(&busy), vec![("to", B.to_string()), ("reason", "BUSY".to_string())]);
    assert_eq!(said(&unavailable_frame(&p, Unavailable::Temporarily))[2], ("retryable", "true".to_string()));
    let log = call_log_frame(A, B);
    assert_eq!((log.event, log.to, log.message), ("receiveMessage", vec![A.to_string(), B.to_string()], true));
    let known = incoming_frame(B, A, mode_name(CallMode::Video), &Some(user()), "s1");
    assert_eq!((known.event, known.to.clone()), ("call:incoming", vec![B.to_string()]));
    assert_eq!(said(&known)[1], ("mode", "video".to_string()));
    assert!(said(&known)[2].1.starts_with(&format!("{A} ewa")));
    assert_eq!(said(&known)[3], ("callSessionId", "s1".to_string()));
    assert_eq!(said(&incoming_frame(B, A, "audio", &None, "s1"))[2], ("caller", A.to_string()));
    let room = voice_frame(vec![B.into()], "r", &vec![A.into(), B.into()]);
    assert_eq!((room.event, said(&room)[1].1.clone()), ("channel-voice:state", format!("{A}+{B}")));
}

fn record(own: &str, sender: &str, recipient: Option<&str>) -> MessageRecord {
    MessageRecord {
        id: id(own),
        sender: id(sender),
        recipient: recipient.map(id),
        direct: true,
        message_type: MessageType::Text,
        duration_ms: None,
        read: false,
        deleted: false,
        sent_at: 10,
    }
}

#[test]
fn messages_are_selected() {
    let m = record(C, A, Some(B));
    assert!(MessageFilter::conversation(id(B), id(A)).selects(&m));
    assert!(!MessageFilter::conversation(id(B), id(A)).selects(&MessageRecord { deleted: true, ..m }));
    assert!(!MessageFilter::conversation(id(B), id(C)).selects(&m));
    assert!(MessageFilter::unread_from(id(B), id(A)).selects(&m));
    assert!(!MessageFilter::unread_from(id(A), id(B)).selects(&m));
    assert!(!MessageFilter::unread_from(id(B), id(A)).selects(&MessageRecord { read: true, ..m }));
    let q = unread_counts_query(id(B), &vec![id(A)]);
    assert!(q.filter.selects(&m));
    assert_eq!(q.group, Some(GroupBy::Sender));
    let talk = MessageRecord { message_type: MessageType::Call, duration_ms: Some(9), ..m };
    assert!(!q.filter.selects(&talk));
    assert!(q.filter.selects(&MessageRecord { duration_ms: Some(0), ..talk }));
    assert!(MessageFilter::unread_from(id(B), id(A)).selects(&talk));
    let last = last_messages_query(id(A), &vec![id(B)]);
    assert!(last.newest_first && last.filter.selects(&m));
    assert!(!last.filter.selects(&record(C, A, Some(C))));
    assert_eq!(GroupBy::Other(id(A)).key(&m), Some(id(B)));
    assert_eq!(GroupBy::Other(id(B)).key(&m), Some(id(A)));
    assert_eq!(newest_query(id(A), id(B)).limit, Some(1));
    assert!(is_newer(&MessageRecord { sent_at: 11, ..m }, &m));
    assert!(is_newer(&m, &record(B, A, Some(B))));
    assert!(!is_newer(&m, &m));
    assert!(!MessageFilter::unread(id(C)).selects(&MessageRecord { read: true, ..m }));
    assert!(MessageFilter::among(&vec![id(C)]).selects(&MessageRecord { read: true, ..m }));
    let marked = read_update(MessageFilter::unread(id(C)), 8);
    assert_eq!(marked.set.len(), 2);
    assert_eq!(marked.set[0].field, MessageField::Read);
}

#[test]
fn presence_is_stored() {
    assert_eq!(PROFILE_UPDATED, "profile-updated");
    assert_eq!(picture_news(Picture::Image).event, "profile-image-updated");
    assert_eq!(picture_news(Picture::Banner).field, "banner");
    let here = presence_update(true, 9);
    assert_eq!(here.set.len(), 2);
    let gone = presence_update(false, 9);
    assert_eq!(gone.set[1].field, UserField::LastSeen);
    assert!(matches!(gone.set[1].value, FieldValue::Time(9)));
    let away = status_update("away".into(), 9);
    assert!(matches!(&away.set[0].value, FieldValue::Text(s) if s == "away"));
}

#[test]
fn due_accounts_go() {
    let due = due_accounts(100);
    let mut u = user();
    assert!(!due.selects(&u));
    u.deletion_scheduled_at = Some(100);
    assert!(due.selects(&u));
    u.deletion_scheduled_at = Some(101);
    assert!(!due.selects(&u));
    let named = User { id: Some(id(B)), ..user() };
    assert_eq!(ids_to_purge(&vec![user(), named]), vec![id(B)]);
    let files = attachments_of(id(A), &vec![id(C)]);
    let m = FileRecord { sender: id(B), recipient: None, channel: Some(id(C)), has_file: true };
    assert!(files.selects(&m));
    assert!(!files.selects(&FileRecord { has_file: false, ..m }));
    assert!(!files.selects(&FileRecord { channel: Some(id(B)), ..m }));
    let left = member_left_frame(&channel(), id(C), id(A));
    assert_eq!((left.event, left.to.clone()), ("channel-member-left", vec![B.to_string()]));
    assert_eq!(said(&left)[2], ("memberCount", "1".to_string()));
    assert_eq!(channel_deleted_frame(&channel(), id(C)).to, vec![A, B]);
}

#[test]
fn sessions_keep_the_raw_token_out_of_the_store() {
    assert_eq!(issuing(None, None), IssueNext::Hash);
    assert_eq!(issuing(Some(true), None), IssueNext::Insert);
    assert_eq!(issuing(Some(true), Some(true)), IssueNext::Issued);
    assert_eq!(issuing(Some(true), Some(false)), IssueNext::Failed);
    assert_eq!(issuing(Some(false), None), IssueNext::Failed);
    let client = || SessionClientMetadata {
        fingerprint: None,
        user_agent: String::new(),
        browser: "Firefox".into(),
        os: "Linux".into(),
        label: "l".into(),
    };
    let (stored, issued) = issue_refresh_token(id(A), client(), "raw".into(), "hash".into(), 100, 50);
    assert_eq!(issued.raw_token, "raw");
    assert_eq!(issued.family_id, stored.family_id);
    assert_eq!(stored.token_hash, "hash");
    assert_eq!(stored.expires_at, 150);
    let (next, session) = rotated_session(&stored, user(), &client(), "raw2".into(), "hash2".into(), 200, 50);
    assert_eq!(session.new_refresh_token, "raw2");
    assert_eq!(session.family_id, stored.family_id);
    assert_eq!(next.family_id, stored.family_id);
    assert_eq!(next.token_hash, "hash2");
    assert_eq!(session.user.username, "ewa");
}

#[test]
fn counts_belong_to_somebody() {
    let k = sent_key(&payload());
    assert_eq!((k.user.as_str(), k.scope, k.source.as_str()), (B, "dm", A));
    let p = MarkConversationReadPayload { user_id: text(B), contact_id: text(A) };
    let r = read_conversation_key(&p);
    assert_eq!((r.user, r.scope, r.source), (k.user, k.scope, k.source));
    assert_eq!(call_key(A, B).user, B);
    assert_eq!(pair_key(id(A), id(B)).source, B);
    let m = member_key(id(A), id(C));
    assert_eq!((m.scope, m.source.as_str()), ("channel", C));
    let p = MarkChannelReadPayload { user_id: text(A), channel_id: text(C) };
    assert_eq!(read_channel_key(&p).source, m.source);
    assert_eq!(read_message_key(&text(A), id(B)).source, B);
    let (own, other) = both_keys(A, B);
    assert_eq!((own.user.as_str(), other.user.as_str()), (A, B));
}

#[test]
fn muted_senders_are_known() {
    let mut u = user();
    assert_eq!(sender_muted(&None, id(A)), Answer::Failed);
    assert_eq!(sender_muted(&Some(user()), id(A)), Answer::No);
    u.muted_contacts = vec![id(A)];
    assert_eq!(sender_muted(&Some(u), id(A)), Answer::Yes);
    assert_eq!(dm_muted(id(B), Answer::Yes), Some(vec![id(B)]));
    assert_eq!(dm_muted(id(B), Answer::No), Some(vec![]));
    assert_eq!(dm_muted(id(B), Answer::Failed), None);
}
