use klovy_chat_server::answers::{Answer, Change, Lookup};
use klovy_chat_server::controllers::contacts::{
    active_friends, blocked_rows, contact_list, delete_conversation, dm_last_messages_batch,
    dm_unread_counts_batch, end_call_of_blocked, end_call_of_unfriended, end_call_of_wiped,
    friend_profile_json, get_blocked_contacts, get_contact_profile, get_contacts_for_list,
    missing_tips, need_unread, require_friends_or_503, search_contacts, search_contacts_for, search_results, search_term,
    search_users_by_term, toggle_contact_block, toggle_contact_mute, toggle_id, BlockedNext,
    Condition, ContactNext, ContactsFacts, ContactsNext, CountRow, ListParts, SearchBody,
    SearchFacts, SearchNext, Tip, TipRow, ToggleFacts, ToggleNext, WipeFacts, WipeNext,
};
use klovy_chat_server::controllers::conversation::{settle_conversation, SettleFacts, SettleNext};
use klovy_chat_server::controllers::friends::{
    accept_friend_request, cancel_friend_request, check_friendship, direction_name,
    fetch_users_map, get_friends, get_received_requests, get_sent_requests, known_places,
    recipient_available, reject_friend_request, remove_friend, request_rows, send_friend_request,
    status_str, BlockFlags, CheckFacts, CheckNext, Listing, ListingNext, RecipientLookup,
    RemoveFacts, RemoveFriendNext, RequestFacts, RequestLookup, RequestNext,
    SendFriendRequestBody, SendFacts, SendNext, FRIEND_REQUEST_UNAVAILABLE,
};
use klovy_chat_server::ids::ObjectId;
use klovy_chat_server::model::friend_requests::{peers, FriendRequest, FriendRequestStatus};
use klovy_chat_server::model::users::{CreateUserInput, User};
use klovy_chat_server::reply::{text_reply, Reply, ReplyBody};
use klovy_chat_server::table::IdTable;
use klovy_chat_server::ws::calls::{CallPhase, CallSession};

const ME: &str = "507f1f77bcf86cd799439011";
const A: &str = "507f191e810c19729de860ea";
const B: &str = "507f191e810c19729de860eb";
const C: &str = "507f191e810c19729de860ec";

fn id(s: &str) -> ObjectId {
    ObjectId::parse_str(s).unwrap()
}

fn me() -> Option<String> {
    Some(ME.to_string())
}

fn user(hex: &str, name: &str) -> User {
    let input = CreateUserInput {
        username: name.to_string(),
        password: "long enough".to_string(),
        language: None,
    };
    let mut u = User::create(&input, name.to_string(), "hash".to_string(), 0).unwrap();
    u.id = ObjectId::parse_str(hex);
    u
}

fn request(from: &str, to: &str, status: FriendRequestStatus) -> FriendRequest {
    FriendRequest {
        id: Some(id(C)),
        from: id(from),
        to: id(to),
        status,
        created_at: 0,
        updated_at: 0,
    }
}

fn body_text(r: &Reply) -> &'static str {
    match r.body {
        ReplyBody::Text(t) => t,
        ReplyBody::Message { message, .. } => message,
        ReplyBody::Error(e) => e,
        ReplyBody::RetryableError(e) => e,
    }
}

fn send_facts(recipient: Option<RecipientLookup>) -> SendFacts {
    SendFacts {
        recipient,
        friends: None,
        existing: None,
        accepted: None,
        invalidated: false,
        renewed: None,
        created: None,
    }
}

fn invite() -> SendFriendRequestBody {
    SendFriendRequestBody { username: Some("@ewa".to_string()) }
}

#[test]
fn invitations_are_sent_to_strangers() {
    let found = Some(RecipientLookup::Found { id: Some(id(A)), available: true });
    let mut f = send_facts(None);
    assert!(matches!(send_friend_request(&me(), &invite(), "ewa", &f), SendNext::FindRecipient));
    f.recipient = found;
    assert!(matches!(send_friend_request(&me(), &invite(), "ewa", &f), SendNext::AskFriends { .. }));
    f.friends = Some(Answer::No);
    assert!(matches!(
        send_friend_request(&me(), &invite(), "ewa", &f),
        SendNext::FindExisting { .. }
    ));
    f.existing = Some(RequestLookup::Missing);
    assert!(matches!(
        send_friend_request(&me(), &invite(), "ewa", &f),
        SendNext::Create { sender, recipient } if sender == id(ME) && recipient == id(A)
    ));
    f.created = Some(true);
    assert!(matches!(
        send_friend_request(&me(), &invite(), "ewa", &f),
        SendNext::Created(r) if r.status == 201
    ));
}

#[test]
fn invitations_that_cannot_be_sent_are_answered_alike() {
    let unavailable = |f: &SendFacts| match send_friend_request(&me(), &invite(), "ewa", f) {
        SendNext::Reply(r) => {
            assert_eq!(r.status, 400);
            assert_eq!(body_text(&r), FRIEND_REQUEST_UNAVAILABLE);
        }
        _ => panic!("sent"),
    };
    unavailable(&send_facts(Some(RecipientLookup::Missing)));
    unavailable(&send_facts(Some(RecipientLookup::Found { id: Some(id(A)), available: false })));
    unavailable(&send_facts(Some(RecipientLookup::Found { id: Some(id(ME)), available: true })));
    let mut friends = send_facts(Some(RecipientLookup::Found { id: Some(id(A)), available: true }));
    friends.friends = Some(Answer::Yes);
    unavailable(&friends);
    let mut waiting = friends;
    waiting.friends = Some(Answer::No);
    waiting.existing = Some(RequestLookup::Found(request(ME, A, FriendRequestStatus::Pending)));
    unavailable(&waiting);
    let empty = SendFriendRequestBody { username: Some(" ".into()) };
    match send_friend_request(&me(), &empty, "", &waiting) {
        SendNext::Reply(r) => assert_eq!(body_text(&r), "Podaj nazwę użytkownika (@username)."),
        _ => panic!("sent"),
    }
    assert!(matches!(
        send_friend_request(&None, &invite(), "ewa", &waiting),
        SendNext::Reply(r) if r.status == 401
    ));
}

#[test]
fn invitations_that_meet_make_friends() {
    let mut f = send_facts(Some(RecipientLookup::Found { id: Some(id(A)), available: true }));
    f.friends = Some(Answer::No);
    f.existing = Some(RequestLookup::Found(request(A, ME, FriendRequestStatus::Pending)));
    assert!(matches!(
        send_friend_request(&me(), &invite(), "ewa", &f),
        SendNext::Accept { request: Some(x) } if x == id(C)
    ));
    f.accepted = Some(Change::Changed);
    assert!(matches!(send_friend_request(&me(), &invite(), "ewa", &f), SendNext::Invalidate { .. }));
    f.invalidated = true;
    assert!(matches!(send_friend_request(&me(), &invite(), "ewa", &f), SendNext::AutoAccepted(_)));
    f.existing = Some(RequestLookup::Found(request(A, ME, FriendRequestStatus::Rejected)));
    assert!(matches!(send_friend_request(&me(), &invite(), "ewa", &f), SendNext::Renew { .. }));
    f.renewed = Some(true);
    assert!(matches!(
        send_friend_request(&me(), &invite(), "ewa", &f),
        SendNext::Renewed { reply, .. } if reply.status == 200
    ));
}

fn answer_facts(q: FriendRequest, changed: Option<Change>) -> RequestFacts {
    RequestFacts {
        request: Some(RequestLookup::Found(q)),
        changed,
        invalidated: false,
        both_found: None,
        told: false,
    }
}

#[test]
fn invitations_are_accepted_by_those_who_got_them() {
    let mut f = answer_facts(request(A, ME, FriendRequestStatus::Pending), None);
    assert!(matches!(
        accept_friend_request(&me(), C, &f),
        RequestNext::Change { status: FriendRequestStatus::Accepted, .. }
    ));
    assert!(matches!(
        reject_friend_request(&me(), C, &f),
        RequestNext::Change { status: FriendRequestStatus::Rejected, .. }
    ));
    assert!(matches!(cancel_friend_request(&me(), C, &f), RequestNext::Reply(r) if r.status == 403));
    f.changed = Some(Change::Changed);
    assert!(matches!(accept_friend_request(&me(), C, &f), RequestNext::Invalidate { .. }));
    f.invalidated = true;
    assert!(matches!(accept_friend_request(&me(), C, &f), RequestNext::FindBoth { .. }));
    f.both_found = Some(false);
    assert!(matches!(
        accept_friend_request(&me(), C, &f),
        RequestNext::Tell { full: false, .. }
    ));
    f.told = true;
    assert!(matches!(accept_friend_request(&me(), C, &f), RequestNext::Accepted { .. }));
    match reject_friend_request(&me(), C, &f) {
        RequestNext::Reply(r) => assert_eq!(body_text(&r), "Zaproszenie odrzucone."),
        _ => panic!("not done"),
    }
}

#[test]
fn invitations_are_taken_back_by_those_who_sent_them() {
    let f = answer_facts(request(ME, A, FriendRequestStatus::Pending), Some(Change::Changed));
    match cancel_friend_request(&me(), C, &f) {
        RequestNext::Reply(r) => assert_eq!(body_text(&r), "Zaproszenie anulowane."),
        _ => panic!("not done"),
    }
    assert!(matches!(accept_friend_request(&me(), C, &f), RequestNext::Reply(r) if r.status == 403));
    let old = answer_facts(request(ME, A, FriendRequestStatus::Rejected), None);
    match cancel_friend_request(&me(), C, &old) {
        RequestNext::Reply(r) => {
            assert_eq!(body_text(&r), "To zaproszenie nie jest już aktywne.")
        }
        _ => panic!("waiting"),
    }
    assert!(matches!(cancel_friend_request(&me(), "x", &old), RequestNext::Reply(r) if r.status == 400));
}

#[test]
fn invitations_are_listed_with_known_users_only() {
    let listed = Some(Listing::Listed { empty: false });
    assert!(matches!(get_received_requests(&me(), None, None), ListingNext::Ask(_)));
    assert!(matches!(get_sent_requests(&me(), listed, None), ListingNext::FetchUsers));
    assert!(matches!(get_friends(&me(), Some(Listing::Listed { empty: true }), None), ListingNext::Show));
    assert!(matches!(get_friends(&me(), listed, Some(false)), ListingNext::Reply(r) if r.status == 503));
    assert!(matches!(get_friends(&me(), Some(Listing::Failed), None), ListingNext::Reply(r) if r.status == 500));
    let users = vec![user(A, "ewa"), user(B, "jan")];
    let requests = vec![
        request(B, ME, FriendRequestStatus::Pending),
        request(C, ME, FriendRequestStatus::Pending),
        request(A, ME, FriendRequestStatus::Pending),
    ];
    let rows = request_rows(&requests, &users, true);
    assert_eq!(rows.iter().map(|r| r.user).collect::<Vec<_>>(), vec![1, 0]);
    assert_eq!(rows[0].status, "pending");
    assert_eq!(rows[0].id.as_deref(), Some(C));
    assert_eq!(rows[0].created_at.as_deref(), Some("1970-01-01T00:00:00Z"));
    assert!(request_rows(&requests, &users, false).is_empty());
    assert_eq!(known_places(&vec![id(C), id(B)], &users), vec![1]);
    assert_eq!(fetch_users_map(&users).get(id(A)), Some(&0));
    assert_eq!(status_str(&FriendRequestStatus::Accepted), "accepted");
    assert!(recipient_available(&users[0]));
}

fn check_facts(friends: Option<Answer>) -> CheckFacts {
    CheckFacts {
        other: Some(Lookup::Found),
        friends,
        blocks: None,
        incoming: None,
        outgoing: None,
    }
}

#[test]
fn friendships_are_looked_up() {
    let mut f = check_facts(Some(Answer::Yes));
    assert!(matches!(check_friendship(&me(), A, &f), CheckNext::AskBlocks));
    f.blocks = Some(BlockFlags::Known { by_me: false, by_other: true });
    match check_friendship(&me(), A, &f) {
        CheckNext::Show(s) => {
            assert!(s.is_friend && s.is_dm_blocked && !s.is_blocked_by_me);
            assert_eq!(s.pending_request, None);
        }
        _ => panic!("unknown"),
    }
    let mut g = check_facts(Some(Answer::No));
    assert!(matches!(check_friendship(&me(), A, &g), CheckNext::FindIncoming { .. }));
    g.incoming = Some(RequestLookup::Missing);
    assert!(matches!(check_friendship(&me(), A, &g), CheckNext::FindOutgoing { .. }));
    g.outgoing = Some(RequestLookup::Found(request(ME, A, FriendRequestStatus::Pending)));
    match check_friendship(&me(), A, &g) {
        CheckNext::Show(s) => assert_eq!(direction_name(s.pending_request.unwrap().incoming), "outgoing"),
        _ => panic!("unknown"),
    }
    let unknown = CheckFacts { other: Some(Lookup::Missing), ..g };
    assert!(matches!(check_friendship(&me(), A, &unknown), CheckNext::ShowUnknown));
    assert!(matches!(check_friendship(&me(), "x", &unknown), CheckNext::Reply(r) if r.status == 400));
}

fn settle() -> SettleFacts {
    SettleFacts {
        remaining: None,
        tip_restored: false,
        recount: None,
        still_empty: None,
        synced_viewer: None,
        synced_peer: None,
        unread_told: false,
        deletion_told: false,
    }
}

#[test]
fn wiped_conversations_are_counted_three_times() {
    let mut f = settle();
    assert_eq!(settle_conversation(f), SettleNext::Count);
    f.remaining = Some(Ok(0));
    assert_eq!(settle_conversation(f), SettleNext::Recount);
    f.recount = Some(Ok(0));
    assert_eq!(settle_conversation(f), SettleNext::CountAgain);
    f.still_empty = Some(true);
    assert_eq!(settle_conversation(f), SettleNext::SyncViewer);
    f.synced_viewer = Some(Some(0));
    assert_eq!(settle_conversation(f), SettleNext::SyncPeer);
    f.synced_peer = Some(Some(1));
    assert_eq!(settle_conversation(f), SettleNext::EmitUnread { viewer: 0, peer: 1 });
    f.unread_told = true;
    assert_eq!(settle_conversation(f), SettleNext::TellDeleted);
    f.deletion_told = true;
    assert_eq!(settle_conversation(f), SettleNext::Done);
}

#[test]
fn conversations_with_new_messages_are_not_called_gone() {
    let mut f = settle();
    f.remaining = Some(Ok(2));
    assert_eq!(settle_conversation(f), SettleNext::RestoreTip);
    f.tip_restored = true;
    f.synced_viewer = Some(None);
    f.synced_peer = Some(Some(1));
    assert_eq!(settle_conversation(f), SettleNext::InvalidateUnread);
    f.unread_told = true;
    assert_eq!(settle_conversation(f), SettleNext::Done);
    let failed = SettleFacts { remaining: Some(Ok(0)), recount: Some(Err(())), ..settle() };
    assert_eq!(settle_conversation(failed), SettleNext::InvalidateUnread);
    let down = SettleFacts { remaining: Some(Err(())), ..settle() };
    assert_eq!(settle_conversation(down), SettleNext::CountFailed);
    let refilled = SettleFacts { still_empty: Some(false), recount: Some(Ok(0)), remaining: Some(Ok(0)), synced_viewer: Some(Some(0)), synced_peer: Some(Some(0)), unread_told: true, ..settle() };
    assert_eq!(settle_conversation(refilled), SettleNext::Done);
}

fn remove_facts() -> RemoveFacts {
    RemoveFacts {
        friendship: Some(RequestLookup::Found(request(A, ME, FriendRequestStatus::Accepted))),
        deleted: None,
        invalidated: false,
        call_ended: false,
        wipe_at: None,
        told: false,
        wiped: None,
        files_cleaned: false,
        tip_cleared: false,
        settle: settle(),
    }
}

#[test]
fn friendships_end_for_both() {
    let mut f = remove_facts();
    assert!(matches!(remove_friend(&me(), A, &f), RemoveFriendNext::Delete { .. }));
    f.deleted = Some(Change::Changed);
    assert!(matches!(remove_friend(&me(), A, &f), RemoveFriendNext::Invalidate));
    f.invalidated = true;
    assert!(matches!(remove_friend(&me(), A, &f), RemoveFriendNext::EndCall));
    f.call_ended = true;
    assert!(matches!(remove_friend(&me(), A, &f), RemoveFriendNext::TakeTime));
    f.wipe_at = Some(500);
    assert!(matches!(remove_friend(&me(), A, &f), RemoveFriendNext::TellRemoved));
    f.told = true;
    assert!(matches!(remove_friend(&me(), A, &f), RemoveFriendNext::Wipe { .. }));
    f.wiped = Some(true);
    assert!(matches!(remove_friend(&me(), A, &f), RemoveFriendNext::CleanFiles));
    f.files_cleaned = true;
    assert!(matches!(remove_friend(&me(), A, &f), RemoveFriendNext::ClearTip { at_most: 500, .. }));
    f.tip_cleared = true;
    assert!(matches!(remove_friend(&me(), A, &f), RemoveFriendNext::Settle(SettleNext::Count)));
    f.settle.remaining = Some(Err(()));
    assert!(matches!(
        remove_friend(&me(), A, &f),
        RemoveFriendNext::Settle(SettleNext::InvalidateUnread)
    ));
    f.settle.unread_told = true;
    match remove_friend(&me(), A, &f) {
        RemoveFriendNext::Reply(r) => assert_eq!(body_text(&r), "Kontakt został usunięty."),
        _ => panic!("not done"),
    }
    f.wiped = Some(false);
    assert!(matches!(remove_friend(&me(), A, &f), RemoveFriendNext::Reply(r) if r.status == 200));
}

#[test]
fn friendships_that_do_not_exist_do_not_end() {
    let missing = RemoveFacts { friendship: Some(RequestLookup::Missing), ..remove_facts() };
    assert!(matches!(remove_friend(&me(), A, &missing), RemoveFriendNext::TellRemoved));
    let told = RemoveFacts { told: true, ..missing };
    assert!(matches!(remove_friend(&me(), A, &told), RemoveFriendNext::Reply(r) if r.status == 404));
    let gone = RemoveFacts { deleted: Some(Change::Unchanged), ..remove_facts() };
    assert!(matches!(remove_friend(&me(), A, &gone), RemoveFriendNext::TellRemoved));
    let told = RemoveFacts { told: true, ..gone };
    assert!(matches!(remove_friend(&me(), A, &told), RemoveFriendNext::Reply(r) if r.status == 404));
    let failed = RemoveFacts { friendship: Some(RequestLookup::Failed), ..remove_facts() };
    assert!(matches!(remove_friend(&me(), A, &failed), RemoveFriendNext::Reply(r) if r.status == 503));
    match remove_friend(&me(), ME, &remove_facts()) {
        RemoveFriendNext::Reply(r) => {
            assert_eq!(body_text(&r), "Nie możesz usunąć siebie z kontaktów.")
        }
        _ => panic!("removed"),
    }
}

#[test]
fn searches_need_three_to_64_characters() {
    let body = SearchBody { search_term: Some("ab".into()) };
    let f = SearchFacts { found: None, friends: None };
    match search_contacts_for(&me(), &body, "ab", &f) {
        SearchNext::Reply(r) => {
            assert_eq!(body_text(&r), "Search term must be at least 3 characters.")
        }
        _ => panic!("long enough"),
    }
    assert!(matches!(search_contacts_for(&me(), &body, "abc", &f), SearchNext::Search(_)));
    assert!(matches!(search_contacts_for(&me(), &body, &"a".repeat(64), &f), SearchNext::Search(_)));
    assert!(matches!(search_contacts_for(&me(), &body, &"a".repeat(65), &f), SearchNext::Reply(_)));
    let none = SearchBody { search_term: None };
    assert!(matches!(search_contacts_for(&me(), &none, "abc", &f), SearchNext::Reply(r) if r.status == 400));
    assert!(matches!(search_contacts_for(&None, &body, "abc", &f), SearchNext::Reply(r) if r.status == 500));
    let short = SearchBody { search_term: Some("  Ż\tÓ ".into()) };
    assert_eq!(search_term(&short), "z o");
    assert!(matches!(search_contacts(&me(), &short, &f), SearchNext::Search(_)));
    let shorter = SearchBody { search_term: Some("  ŻÓ ".into()) };
    assert!(matches!(search_contacts(&me(), &shorter, &f), SearchNext::Reply(r) if r.status == 400));
    let q = search_users_by_term(id(ME), "ewa");
    assert_eq!(q.pattern, "^ewa");
    assert_eq!(q.limit, 10);
    assert_eq!(q.conditions.len(), 5);
    assert_eq!(q.conditions[4].condition, Condition::IsAbsent);
}

#[test]
fn strangers_are_shown_less() {
    let mut ewa = user(A, "ewa");
    ewa.bio = Some("hi".to_string());
    let rows = search_results(&vec![ewa, user("x", "nobody"), user(B, "jan")], &vec![A.to_string()]);
    assert_eq!(rows.len(), 2);
    assert_eq!(rows[0].friend.as_ref().unwrap().bio.as_deref(), Some("hi"));
    assert!(rows[1].friend.is_none());
    assert_eq!(rows[1].id, B);
}

#[test]
fn profiles_are_shown_to_friends() {
    assert!(matches!(get_contact_profile(&me(), A, None, None), ContactNext::AskFriends));
    assert!(matches!(
        get_contact_profile(&me(), A, Some(Answer::No), None),
        ContactNext::Reply(r) if r.status == 404
    ));
    assert!(matches!(
        get_contact_profile(&me(), A, Some(Answer::Yes), Some(Lookup::Found)),
        ContactNext::Show
    ));
    assert!(require_friends_or_503(Answer::Yes, text_reply(404, "x")).is_ok());
    let failed = require_friends_or_503(Answer::Failed, text_reply(404, "x"));
    assert!(matches!(failed, Err(r) if r.status == 503));
    let p = friend_profile_json(&user(A, "ewa"));
    assert_eq!(p.id, A);
    assert_eq!(p.availability_status, "online");
    assert_eq!(p.last_seen, None);
}

fn tip(time: i64, preview: &str, unread: Option<u64>) -> Tip {
    Tip { time, preview: preview.to_string(), message: id(C), unread }
}

#[test]
fn last_messages_are_filled_in() {
    let mut tips: IdTable<Tip> = IdTable::new();
    tips.insert(id(A), tip(0, "", Some(4)));
    tips.insert(id(B), tip(9, "hey", Some(1)));
    assert_eq!(missing_tips(&vec![id(A), id(B), id(C)], &tips), vec![id(A), id(C)]);
    let rows = vec![
        TipRow { friend: Some(id(A)), time: Some(5), content: Some("x".into()), message: Some(id(B)) },
        TipRow { friend: None, time: Some(5), content: Some("y".into()), message: Some(id(B)) },
        TipRow { friend: Some(id(B)), time: None, content: Some("z".into()), message: Some(id(B)) },
    ];
    let tips = dm_last_messages_batch(Some(tips), &Ok(rows)).unwrap();
    let a = tips.get(id(A)).unwrap();
    assert_eq!((a.time, a.preview.as_str(), a.unread), (5, "x", Some(4)));
    assert_eq!(tips.get(id(B)).unwrap().preview, "hey");
    assert!(dm_last_messages_batch(Some(tips), &Err(())).is_none());
    assert!(dm_last_messages_batch(None, &Ok(vec![])).is_none());
}

#[test]
fn unread_messages_are_counted() {
    let rows = vec![
        CountRow { sender: Some(id(A)), count: Some(3) },
        CountRow { sender: Some(id(B)), count: Some(-1) },
        CountRow { sender: None, count: Some(7) },
        CountRow { sender: Some(id(C)), count: None },
    ];
    assert!(dm_unread_counts_batch(&Err(())).is_none());
    let t = dm_unread_counts_batch(&Ok(rows)).unwrap();
    assert_eq!(t.get(id(A)), Some(&3));
    assert_eq!(t.get(id(B)), Some(&0));
    assert_eq!(t.get(id(C)), Some(&0));
    let mut tips: IdTable<Tip> = IdTable::new();
    tips.insert(id(A), tip(0, "", Some(0)));
    tips.insert(id(B), tip(1, "x", Some(0)));
    assert_eq!(need_unread(&vec![id(A), id(B), id(C)], &tips), vec![id(B), id(C)]);
}

#[test]
fn conversations_are_listed_newest_first() {
    let accepted = FriendRequestStatus::Accepted;
    let friendships =
        vec![request(ME, A, accepted), request(B, ME, accepted), request(ME, C, accepted)];
    assert_eq!(peers(&friendships, id(ME)), vec![id(A), id(B), id(C)]);
    assert_eq!(active_friends(&friendships, id(ME), &vec![id(B)]), vec![id(A), id(C)]);
    let mut tips: IdTable<Tip> = IdTable::new();
    tips.insert(id(A), tip(5, "old", Some(2)));
    tips.insert(id(B), tip(7, "blocked", Some(2)));
    tips.insert(id(C), tip(9, "new", Some(2)));
    let mut unread: IdTable<u64> = IdTable::new();
    unread.insert(id(A), 2);
    unread.insert(id(B), 2);
    let parts = ListParts {
        user: id(ME),
        friendships,
        users: vec![user(A, "ewa"), user(B, "jan"), user(C, "ola")],
        muted: vec![id(A)],
        blocked: vec![id(B)],
        tips,
        unread,
    };
    let rows = contact_list(&parts);
    assert_eq!(rows.iter().map(|r| r.friend).collect::<Vec<_>>(), vec![2, 0, 1]);
    assert_eq!(rows[0].unread, 0);
    assert_eq!(rows[1].unread, 2);
    assert!(rows[1].is_muted && !rows[1].is_blocked_by_me);
    assert!(rows[2].is_blocked_by_me && rows[2].last.is_none());
    assert_eq!(rows[2].unread, 0);
    assert_eq!(rows[0].time_text().as_deref(), Some("1970-01-01T00:00:00.009Z"));
    assert_eq!(rows[2].time_text(), None);
}

#[test]
fn equally_new_conversations_keep_their_order() {
    let accepted = FriendRequestStatus::Accepted;
    let parts = ListParts {
        user: id(ME),
        friendships: vec![request(ME, B, accepted), request(ME, A, accepted), request(ME, C, accepted)],
        users: vec![user(A, "ewa"), user(B, "jan")],
        muted: vec![],
        blocked: vec![],
        tips: IdTable::new(),
        unread: IdTable::new(),
    };
    let rows = contact_list(&parts);
    assert_eq!(rows.iter().map(|r| r.position).collect::<Vec<_>>(), vec![0, 1]);
}

#[test]
fn lists_of_conversations_are_whole_or_refused() {
    let mut f = ContactsFacts {
        friendships: None,
        me: None,
        users: None,
        tips: None,
        nothing_to_count: false,
        unread: None,
    };
    assert!(matches!(get_contacts_for_list(&None, &f), ContactsNext::Reply(r) if r.status == 400));
    assert!(matches!(get_contacts_for_list(&me(), &f), ContactsNext::ListFriendships(_)));
    f.friendships = Some(Listing::Listed { empty: false });
    assert!(matches!(get_contacts_for_list(&me(), &f), ContactsNext::FindMe(_)));
    f.me = Some(Lookup::Found);
    assert!(matches!(get_contacts_for_list(&me(), &f), ContactsNext::FetchUsers));
    f.users = Some(true);
    assert!(matches!(get_contacts_for_list(&me(), &f), ContactsNext::FindTips));
    f.tips = Some(true);
    assert!(matches!(get_contacts_for_list(&me(), &f), ContactsNext::CountUnread));
    f.unread = Some(false);
    assert!(matches!(get_contacts_for_list(&me(), &f), ContactsNext::Reply(r) if r.status == 503));
    f.nothing_to_count = true;
    assert!(matches!(get_contacts_for_list(&me(), &f), ContactsNext::Show));
}

#[test]
fn toggling_twice_changes_nothing() {
    let start = vec![id(A), id(B)];
    let (with, on) = toggle_id(&start, id(C));
    assert!(on);
    assert_eq!(with, vec![id(A), id(B), id(C)]);
    let (back, off) = toggle_id(&with, id(C));
    assert!(!off);
    assert_eq!(back, start);
    assert_eq!(toggle_id(&start, id(A)).0, vec![id(B)]);
}

fn toggle_facts(on: bool) -> ToggleFacts {
    ToggleFacts {
        friends: Some(Answer::Yes),
        me: Some(Lookup::Found),
        on,
        saved: None,
        invalidated: false,
        call_ended: false,
        told: false,
    }
}

#[test]
fn contacts_are_silenced_and_blocked() {
    let mut f = toggle_facts(true);
    assert!(matches!(toggle_contact_mute(&me(), A, &f), ToggleNext::Save { .. }));
    f.saved = Some(true);
    match toggle_contact_mute(&me(), A, &f) {
        ToggleNext::Done { reply, on: true } => assert_eq!(body_text(&reply), "Konwersacja wyciszona"),
        _ => panic!("not done"),
    }
    assert!(matches!(toggle_contact_block(&me(), A, &f), ToggleNext::Invalidate));
    f.invalidated = true;
    assert!(matches!(toggle_contact_block(&me(), A, &f), ToggleNext::EndCall));
    f.call_ended = true;
    assert!(matches!(toggle_contact_block(&me(), A, &f), ToggleNext::Tell));
    f.told = true;
    match toggle_contact_block(&me(), A, &f) {
        ToggleNext::Done { reply, .. } => assert_eq!(body_text(&reply), "Użytkownik zablokowany"),
        _ => panic!("not done"),
    }
    let off = ToggleFacts { saved: Some(true), invalidated: true, ..toggle_facts(false) };
    assert!(matches!(toggle_contact_block(&me(), A, &off), ToggleNext::Tell));
    let stranger = ToggleFacts { friends: Some(Answer::No), ..toggle_facts(true) };
    assert!(matches!(toggle_contact_mute(&me(), A, &stranger), ToggleNext::Reply(r) if r.status == 404));
}

#[test]
fn blocked_contacts_are_listed() {
    assert!(matches!(get_blocked_contacts(&me(), None, false, None), BlockedNext::FindMe(_)));
    assert!(matches!(
        get_blocked_contacts(&me(), Some(Lookup::Found), true, None),
        BlockedNext::Show
    ));
    let rows = blocked_rows(&vec![id(B), id(C)], &vec![user(B, "jan")]);
    assert_eq!(rows.len(), 1);
    assert_eq!(rows[0].id, B);
    assert_eq!(rows[0].username, "jan");
}

#[test]
fn calls_end_with_a_reason() {
    let s = CallSession {
        caller_id: ME.to_string(),
        callee_id: A.to_string(),
        phase: CallPhase::Ringing,
        talked_secs: None,
    };
    let n = end_call_of_blocked(&s, ME);
    assert_eq!(n.len(), 2);
    assert_eq!((n[0].to.as_str(), n[0].event, n[0].reason), (A, "call:cancelled", Some("BLOCKED")));
    assert_eq!(n[1].to, ME);
    let talking = CallSession { phase: CallPhase::Accepted, talked_secs: Some(3), ..s };
    assert_eq!(end_call_of_wiped(&talking, ME)[0].event, "call:ended");
    assert_eq!(end_call_of_unfriended(&talking, ME)[0].reason, Some("UNFRIENDED"));
}

#[test]
fn conversations_are_wiped_by_friends() {
    let mut f = WipeFacts {
        friends: None,
        wipe_at: None,
        wiped: None,
        files_cleaned: false,
        call_ended: false,
        tip_cleared: false,
        settle: settle(),
    };
    assert!(matches!(delete_conversation(&me(), A, &f), WipeNext::AskFriends));
    f.friends = Some(Answer::No);
    assert!(matches!(delete_conversation(&me(), A, &f), WipeNext::Reply(r) if r.status == 403));
    f.friends = Some(Answer::Yes);
    assert!(matches!(delete_conversation(&me(), A, &f), WipeNext::TakeTime));
    f.wipe_at = Some(70);
    assert!(matches!(delete_conversation(&me(), A, &f), WipeNext::Wipe { .. }));
    f.wiped = Some(true);
    f.files_cleaned = true;
    assert!(matches!(delete_conversation(&me(), A, &f), WipeNext::EndCall));
    f.call_ended = true;
    assert!(matches!(delete_conversation(&me(), A, &f), WipeNext::ClearTip { at_most: 70, .. }));
    f.tip_cleared = true;
    f.settle.remaining = Some(Err(()));
    assert!(matches!(delete_conversation(&me(), A, &f), WipeNext::Reply(r) if r.status == 500));
    f.settle = SettleFacts {
        remaining: Some(Ok(0)),
        recount: Some(Err(())),
        unread_told: true,
        ..settle()
    };
    match delete_conversation(&me(), A, &f) {
        WipeNext::Reply(r) => assert_eq!(body_text(&r), "Conversation deleted"),
        _ => panic!("not done"),
    }
    assert!(matches!(delete_conversation(&None, A, &f), WipeNext::Reply(r) if r.status == 400));
}
