use klovy_chat_server::controllers::session::{
    ended_cookies, invalidate_user_session, issue_ws_crypto_key, list_sessions, logout,
    others_ended_message, refresh_session, revoke_other_devices, revoke_other_sessions,
    revoke_session, session_cookies, EndFacts, EndNext, InvalidateFacts, InvalidateNext, KeyNext,
    ListFacts, ListNext, LogoutFacts, LogoutNext, OtherDevicesNext, OthersFacts, OthersNext,
    RefreshNext, SessionEnd,
};
use klovy_chat_server::ids::ObjectId;
use klovy_chat_server::middlewares::read_body_bytes;
use klovy_chat_server::model::refresh_tokens::{
    active_family_ids_for_user, bson_expiry, RefreshToken,
};
use klovy_chat_server::model::update::{
    blocked_update, cancel_deletion_update, disable_account_update, disable_factor_update,
    enable_factor_update, field_name, language_update, pending_secret_update, profile_update,
    request_deletion_update, scheduled_deletion, FieldValue, Update, UserField,
};
use klovy_chat_server::model::users::User;
use klovy_chat_server::utils::auth::refresh::{
    family_id_from_refresh_token, find_stored_refresh_token, generate_family_id,
    first_token, generate_raw_token, is_plausible_token, list_user_sessions, raw_token_of,
    revoke_refresh_token_family, revoke_session_for_user, rotate_refresh_token, rotated_token,
    ClientNames, FamilyNext, FamilyReply, FindFacts, FindNext, RefreshAuthError, RevokeFamilyNext,
    RevokeSessionNext, RotateFacts, RotateNext, SessionClientMetadata, StoredReply, StoredToken,
    UserReply,
};
use klovy_chat_server::answers::Lookup;

const ME: &str = "507f1f77bcf86cd799439011";
const OTHER: &str = "507f191e810c19729de860ea";

fn id(s: &str) -> ObjectId {
    ObjectId::parse_str(s).unwrap()
}

fn me() -> Option<String> {
    Some(ME.to_string())
}

fn token(family: &str, revoked: bool, expires_at: i64) -> RefreshToken {
    RefreshToken {
        id: Some(id(OTHER)),
        user_id: id(ME),
        token_hash: "hash".to_string(),
        family_id: family.to_string(),
        expires_at,
        created_at: 0,
        revoked,
        client_fingerprint: None,
        client_user_agent: None,
        client_browser: Some("Firefox".to_string()),
        client_os: Some("Linux".to_string()),
        client_label: Some("Laptop".to_string()),
        last_used_at: None,
    }
}

#[test]
fn raw_tokens_are_hexadecimal() {
    assert_eq!(raw_token_of(&[0, 171, 255]), "00abff");
    let a = generate_raw_token();
    let b = generate_raw_token();
    assert_eq!(a.len() % 2, 0);
    assert!(a.chars().all(|c| c.is_ascii_hexdigit()));
    assert_ne!(a, b);
    assert!(is_plausible_token(&a));
    assert!(!is_plausible_token(""));
    assert!(!is_plausible_token(&"a".repeat(129)));
}

#[test]
fn family_identifiers_differ() {
    let a = generate_family_id();
    assert_eq!(a.len(), 36);
    assert_ne!(a, generate_family_id());
}

#[test]
fn filters_mean_the_right_tokens() {
    let active = token("f", false, 10);
    assert!(RefreshToken::family_is_active("f", 9).selects(&active));
    assert!(!RefreshToken::family_is_active("f", 10).selects(&active));
    assert!(!RefreshToken::family_is_active("g", 9).selects(&active));
    assert!(!RefreshToken::family_is_active("f", 9).selects(&token("f", true, 10)));
    assert!(RefreshToken::find_by_hash("hash").selects(&active));
    assert!(!RefreshToken::find_by_hash("other").selects(&active));
    assert!(RefreshToken::revoke_by_id(id(OTHER)).selects(&active));
    assert!(!RefreshToken::revoke_by_id(id(ME)).selects(&active));
    assert!(RefreshToken::revoke_family("f").selects(&token("f", true, 0)));
    assert!(RefreshToken::revoke_all_for_user(id(ME)).selects(&active));
    assert!(!RefreshToken::revoke_all_for_user(id(OTHER)).selects(&active));
    assert!(!RefreshToken::revoke_all_except_family(id(ME), "f").selects(&active));
    assert!(RefreshToken::revoke_all_except_family(id(ME), "g").selects(&active));
    assert!(RefreshToken::find_active_for_user(id(ME), 9).selects(&active));
    assert!(RefreshToken::family_belongs_to_user(id(ME), "f").selects(&token("f", true, 0)));
    assert!(!RefreshToken::active_family_ids_for_user_except(id(ME), "f", 0).selects(&active));
    let families = vec!["a".to_string(), "b".to_string(), "a".to_string()];
    assert_eq!(active_family_ids_for_user(&families), vec!["a", "b"]);
    assert_eq!(bson_expiry(5, 7), 12);
}

fn metadata() -> SessionClientMetadata {
    SessionClientMetadata {
        fingerprint: Some("fp".to_string()),
        user_agent: "UA".to_string(),
        browser: "Firefox".to_string(),
        os: "Linux".to_string(),
        label: "Firefox na Linux".to_string(),
    }
}

#[test]
fn tokens_are_issued_and_rotated_within_a_family() {
    let t = first_token(id(ME), metadata(), "h1".into(), "fam".into(), 100, 50);
    assert_eq!(t.expires_at, 150);
    assert_eq!(t.family_id, "fam");
    assert_eq!(t.client_fingerprint.as_deref(), Some("fp"));
    assert!(!t.revoked);
    let next = rotated_token(&t, &metadata(), "h2".into(), 200, 50);
    assert_eq!(next.family_id, "fam");
    assert_eq!(next.token_hash, "h2");
    assert_eq!(next.expires_at, 250);
}

fn rotate_facts(stored: Option<StoredReply>) -> RotateFacts {
    RotateFacts {
        stored,
        alarm_raised: false,
        unbound_revoked: false,
        now: 100,
        user: None,
        old_revoked: None,
        hashed: None,
        inserted: None,
    }
}

fn stored(revoked: bool, matches: bool, expires_at: i64) -> StoredToken {
    StoredToken {
        id: Some(id(OTHER)),
        revoked,
        has_fingerprint: true,
        fingerprint_matches: matches,
        expires_at,
    }
}

#[test]
fn rotating_replaces_a_token() {
    let mut f = rotate_facts(None);
    assert!(matches!(rotate_refresh_token("t", &f), RotateNext::FindToken));
    f.stored = Some(StoredReply::Found(stored(false, true, 100)));
    assert!(matches!(rotate_refresh_token("t", &f), RotateNext::FindUser));
    f.user = Some(UserReply::Found { may_log_in: true });
    assert!(matches!(rotate_refresh_token("t", &f), RotateNext::RevokeOld(_)));
    f.old_revoked = Some(true);
    assert!(matches!(rotate_refresh_token("t", &f), RotateNext::HashNew));
    f.hashed = Some(true);
    assert!(matches!(rotate_refresh_token("t", &f), RotateNext::InsertNew));
    f.inserted = Some(true);
    assert!(matches!(rotate_refresh_token("t", &f), RotateNext::Issue));
}

#[test]
fn stolen_tokens_raise_the_alarm() {
    let reused = rotate_facts(Some(StoredReply::Found(stored(true, true, 100))));
    assert!(matches!(rotate_refresh_token("t", &reused), RotateNext::RaiseAlarm));
    let elsewhere = rotate_facts(Some(StoredReply::Found(stored(false, false, 100))));
    assert!(matches!(rotate_refresh_token("t", &elsewhere), RotateNext::RaiseAlarm));
    let raised = RotateFacts { alarm_raised: true, ..reused };
    assert!(matches!(
        rotate_refresh_token("t", &raised),
        RotateNext::Refuse(RefreshAuthError::Denied)
    ));
    let expired = rotate_facts(Some(StoredReply::Found(stored(false, true, 99))));
    assert!(matches!(
        rotate_refresh_token("t", &expired),
        RotateNext::Refuse(RefreshAuthError::Denied)
    ));
    let down = rotate_facts(Some(StoredReply::Failed));
    assert!(matches!(
        rotate_refresh_token("t", &down),
        RotateNext::Refuse(RefreshAuthError::Unavailable)
    ));
    assert!(matches!(
        rotate_refresh_token("", &down),
        RotateNext::Refuse(RefreshAuthError::Denied)
    ));
}

#[test]
fn stored_tokens_are_looked_for_under_both_hashes() {
    let mut f = FindFacts { hashed: None, current: None, verified: None, legacy: None };
    assert!(matches!(find_stored_refresh_token(&f), FindNext::Hash));
    f.hashed = Some(true);
    assert!(matches!(find_stored_refresh_token(&f), FindNext::FindCurrent));
    f.current = Some(Lookup::Failed);
    assert!(matches!(find_stored_refresh_token(&f), FindNext::Failed));
}

#[test]
fn families_of_tokens_are_found_and_revoked() {
    assert!(matches!(family_id_from_refresh_token("", None), FamilyNext::Nothing));
    assert!(matches!(family_id_from_refresh_token("t", None), FamilyNext::FindToken));
    let found = Some(FamilyReply::Found { revoked: false });
    assert!(matches!(family_id_from_refresh_token("t", found), FamilyNext::OfToken));
    let revoked = Some(FamilyReply::Found { revoked: true });
    assert!(matches!(family_id_from_refresh_token("t", revoked), FamilyNext::Nothing));
    assert!(matches!(
        revoke_refresh_token_family("t", Some(Lookup::Found), None),
        RevokeFamilyNext::Revoke
    ));
    assert!(matches!(
        revoke_refresh_token_family("t", Some(Lookup::Found), Some(true)),
        RevokeFamilyNext::Revoked
    ));
    assert!(matches!(revoke_session_for_user(Some(Ok(false)), None), RevokeSessionNext::NotFound));
    assert!(matches!(revoke_session_for_user(Some(Ok(true)), Some(true)), RevokeSessionNext::Done));
}

#[test]
fn each_family_is_one_session() {
    let tokens = vec![token("a", false, 9), token("b", false, 9), token("a", false, 9)];
    let names = vec![
        ClientNames { browser: "Firefox".into(), os: "Linux".into() },
        ClientNames { browser: "Firefox".into(), os: "Linux".into() },
        ClientNames { browser: "Firefox".into(), os: "Linux".into() },
    ];
    let sessions = list_user_sessions(&tokens, &names, &Some("b".to_string()));
    assert_eq!(sessions.len(), 2);
    assert_eq!(sessions.iter().filter(|s| s.is_current).count(), 1);
    assert!(sessions.iter().any(|s| s.id == "b" && s.is_current));
}

#[test]
fn sessions_go_on_or_expire() {
    assert!(matches!(refresh_session(None, None), RefreshNext::Rotate));
    assert!(matches!(refresh_session(Some(Ok(true)), None), RefreshNext::MakeAccess));
    assert!(matches!(refresh_session(Some(Ok(true)), Some(true)), RefreshNext::Welcome));
    assert!(matches!(
        refresh_session(Some(Err(RefreshAuthError::Denied)), None),
        RefreshNext::Expire(r) if r.status == 401
    ));
    assert!(matches!(
        refresh_session(Some(Err(RefreshAuthError::Unavailable)), None),
        RefreshNext::Reply(r) if r.status == 503
    ));
}

#[test]
fn leaving_revokes_what_the_browser_carries() {
    let mut f = LogoutFacts {
        has_token: true,
        family: None,
        revoked: None,
        closed: false,
        user: None,
    };
    assert!(matches!(logout(&f), LogoutNext::LookUpFamily));
    f.family = Some(Err(RefreshAuthError::Denied));
    assert!(matches!(logout(&f), LogoutNext::RevokeFamily));
    f.revoked = Some(Ok(true));
    assert!(matches!(logout(&f), LogoutNext::CloseUserOfToken));
    f.family = Some(Ok(true));
    assert!(matches!(logout(&f), LogoutNext::CloseSession));
    f.closed = true;
    assert!(matches!(logout(&f), LogoutNext::Goodbye(r) if r.status == 200));
    let plain = LogoutFacts { has_token: false, closed: false, user: Some(id(ME)), ..f };
    assert!(matches!(logout(&plain), LogoutNext::CloseUser(u) if u == id(ME)));
}

#[test]
fn sessions_are_listed_and_ended() {
    let f = ListFacts {
        has_token: false,
        family: None,
        access_asked: false,
        has_access: true,
        listed: None,
    };
    assert!(matches!(list_sessions(&me(), &f), ListNext::FamilyOfAccess));
    let asked = ListFacts { access_asked: true, ..f };
    assert!(matches!(list_sessions(&me(), &asked), ListNext::List(_)));
    let listed = ListFacts { listed: Some(true), ..asked };
    assert!(matches!(list_sessions(&me(), &listed), ListNext::Show));

    let e = EndFacts { has_token: false, family_known: None, ended: None, closed: false };
    assert!(matches!(revoke_session(&me(), " ", &None, &e), EndNext::Reply(r) if r.status == 400));
    assert!(matches!(revoke_session(&me(), "f", &None, &e), EndNext::End(_)));
    let gone = EndFacts { ended: Some(SessionEnd::NotFound), ..e };
    assert!(matches!(revoke_session(&me(), "f", &None, &gone), EndNext::Reply(r) if r.status == 404));
    let done = EndFacts { ended: Some(SessionEnd::Ended), closed: true, ..e };
    let current = Some("f".to_string());
    assert!(matches!(revoke_session(&me(), " f ", &current, &done), EndNext::Done { current: true, .. }));
    assert!(matches!(revoke_session(&me(), "g", &current, &done), EndNext::Done { current: false, .. }));
}

#[test]
fn other_sessions_are_ended() {
    let mut f = OthersFacts {
        has_token: true,
        family: Some(Ok(true)),
        others: Some(true),
        revoked: None,
        closed: false,
    };
    assert!(matches!(revoke_other_sessions(&me(), &f), OthersNext::Revoke(_)));
    assert!(matches!(revoke_other_devices(&f), OtherDevicesNext::Revoke));
    f.revoked = Some(Ok(2));
    assert!(matches!(revoke_other_sessions(&me(), &f), OthersNext::CloseOthers(_)));
    f.closed = true;
    assert!(matches!(revoke_other_sessions(&me(), &f), OthersNext::Done(2)));
    f.family = Some(Ok(false));
    assert!(matches!(revoke_other_sessions(&me(), &f), OthersNext::Reply(r) if r.status == 400));
    assert!(matches!(revoke_other_devices(&f), OtherDevicesNext::Stop));
    assert_eq!(others_ended_message(2), "Wylogowano 2 innych sesji.");
    assert_eq!(others_ended_message(0), "Brak innych aktywnych sesji.");
}

#[test]
fn cookies_begin_and_end_a_session() {
    let c = session_cookies("acc", 10, "ref", 20, true);
    assert_eq!(c.len(), 3);
    assert_eq!((c[0].name, c[0].value.as_str(), c[0].max_age_ms), ("jwt", "acc", 10));
    assert_eq!((c[1].value.as_str(), c[1].path), ("ref", "/"));
    assert_eq!((c[2].value.as_str(), c[2].path), ("", "/api/auth/refresh"));
    assert!(c.iter().all(|x| x.secure));
    let e = ended_cookies(false);
    assert!(e.iter().all(|x| x.value.is_empty() && x.max_age_ms == 0 && !x.secure));
}

#[test]
fn invalidating_goes_on_after_failures() {
    let f = InvalidateFacts { tokens: Some(false), refresh: Some(false), disconnected: false };
    assert_eq!(invalidate_user_session(f), InvalidateNext::Disconnect);
    let done = InvalidateFacts { disconnected: true, ..f };
    assert_eq!(invalidate_user_session(done), InvalidateNext::Done);
}

#[test]
fn keys_are_for_users() {
    assert!(matches!(issue_ws_crypto_key(&None), KeyNext::Reply(r) if r.status == 401));
    assert!(matches!(issue_ws_crypto_key(&me()), KeyNext::Issue { expires_in: 30 }));
}

fn names(u: &Update) -> Vec<&'static str> {
    u.set.iter().map(|f| field_name(f.field)).collect()
}

#[test]
fn second_factors_are_stored_and_forgotten() {
    let p = pending_secret_update("enc".into(), 1);
    assert_eq!(names(&p), vec!["totpPendingSecret", "updatedAt"]);
    let on = enable_factor_update("enc".into(), vec!["c".into()], 1);
    assert_eq!(
        names(&on),
        vec!["twoFactorEnabled", "totpSecret", "totpPendingSecret", "backupCodes", "updatedAt"]
    );
    assert!(matches!(&on.set[1].value, FieldValue::Text(t) if t == "enc"));
    assert!(matches!(on.set[2].value, FieldValue::Null));
    let off = disable_factor_update(1);
    assert_eq!(names(&off), names(&on));
    assert!(matches!(off.set[0].value, FieldValue::Flag(false)));
    assert!(matches!(off.set[3].value, FieldValue::Null));
}

#[test]
fn profiles_are_stored() {
    let u = profile_update("Anna".into(), "".into(), None, 7);
    assert_eq!(names(&u), vec!["displayName", "bio", "color", "profileSetup", "updatedAt"]);
    assert!(matches!(u.set[1].value, FieldValue::Null));
    assert!(matches!(u.set[2].value, FieldValue::Null));
    assert!(matches!(u.set[4].value, FieldValue::Time(7)));
    assert_eq!(names(&language_update("pl".into(), 7)), vec!["language", "updatedAt"]);
    let b = blocked_update(vec![id(ME)], 7);
    assert!(matches!(&b.set[0].value, FieldValue::Ids(v) if v == &vec![id(ME)]));
}

#[test]
fn deletions_are_stored_and_undone() {
    let wish = request_deletion_update(1_000);
    assert_eq!(
        names(&wish),
        vec!["deletionRequestedAt", "deletionScheduledAt", "isDisabled", "updatedAt"]
    );
    assert!(matches!(wish.set[1].value, FieldValue::Time(604_801_000)));
    assert_eq!(wish.unset, vec![UserField::DisabledAt]);
    let cancel = cancel_deletion_update(2_000);
    assert_eq!(cancel.unset, vec![UserField::DeletionRequestedAt, UserField::DeletionScheduledAt]);
    assert_eq!(scheduled_deletion(0), 7 * 24 * 60 * 60 * 1000);
    assert_eq!(names(&disable_account_update(1)), vec!["isDisabled", "disabledAt", "updatedAt"]);
}

#[test]
fn new_passwords_raise_the_version_of_tokens() {
    let u = User::update_password("h".into(), 3);
    assert!(u.next_version);
    assert_eq!(names(&u), vec!["password", "updatedAt"]);
    assert!(User::invalidate_tokens(3).next_version);
    assert!(!language_update("en".into(), 3).next_version);
}

#[test]
fn bodies_stay_within_their_limit() {
    let mut body: Vec<u8> = Vec::new();
    assert!(read_body_bytes(&mut body, &vec![1, 2, 3], 5).is_ok());
    assert!(read_body_bytes(&mut body, &vec![4, 5], 5).is_ok());
    assert_eq!(body, vec![1, 2, 3, 4, 5]);
    let refused = read_body_bytes(&mut body, &vec![6], 5);
    assert!(matches!(refused, Err(r) if r.status == 413));
    assert_eq!(body.len(), 5);
}
