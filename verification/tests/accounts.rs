use klovy_chat_server::answers::{Answer, Lookup, Written};
use klovy_chat_server::controllers::account::{
    acknowledge_my_warnings, add_profile_banner, add_profile_image, allowed_image_ext,
    cancel_account_deletion, deletes_previous_picture, deletion_answer, disable_account,
    get_my_warnings, get_user_info, names_status, profile_event, remove_profile_image,
    removed_picture_text, request_account_deletion, requested_language, session_needs_refresh,
    update_availability_status, update_language, update_profile, warning_list, AccountActionBody,
    AccountEndFacts, AccountEndNext, AvailabilityBody, EndLookup, Picture, PictureFacts,
    PictureLookup, PictureNext, ProfileNext, RemoveNext, ShowNext, UpdateLanguageBody, Warning,
};
use klovy_chat_server::controllers::login::{
    account_status_response, challenge_user, check_code, login, login_response,
    verify_two_factor_login, AccountLookup, CodeFacts, CodeNext, EntryFacts, EntryNext, LoginFacts,
    LoginNext, SecondFacts, SecondNext, TwoFactorLoginBody,
};
use klovy_chat_server::controllers::signup::{
    quota_reply, registration_status, signup, CredentialsBody, PasswordBreachCheck, SignupFacts,
    SignupNext,
};
use klovy_chat_server::controllers::step_up::{
    backup_codes_after_consumption, login_delay_ms, password_matches, step_up,
    step_up_err_response, verify_account_action_credentials, CredentialFacts, CredentialNext,
    PasswordCheck, StepUp, StepUpFacts, StepUpNext,
};
use klovy_chat_server::controllers::two_factor::{
    change_password, change_username, disable_two_factor, enable_two_factor, setup_two_factor,
    ChangePasswordBody, ChangeUsernameBody, DisableFacts, DisableNext, EnableFacts, EnableNext,
    OwnLookup, PasswordFacts, PasswordNext, SetupFacts, SetupNext, SetupTwoFactorBody,
    TwoFactorCodeBody, TwoFactorDisableBody, UsernameFacts, UsernameLookup, UsernameNext,
};
use klovy_chat_server::ids::ObjectId;
use klovy_chat_server::model::users::{
    deserialize_bool_default_false, is_valid_username, login_check, normalize_language,
    validate_user, AvailabilityStatus, CreateUserInput, LoginCheck, User, UserValidationError,
};
use klovy_chat_server::reply::{Reply, ReplyBody};
use klovy_chat_server::utils::registration::SignupQuotaError;
use klovy_chat_server::utils::user::json::{
    availability_status_str, resolve_display_name, serialize_user, serialize_user_for_viewer,
};

const ME: &str = "507f1f77bcf86cd799439011";

fn me() -> Option<String> {
    Some(ME.to_string())
}

fn user() -> User {
    let input = CreateUserInput {
        username: "  anna_1 ".to_string(),
        password: "long enough".to_string(),
        language: Some(" PL ".to_string()),
    };
    User::create(&input, "anna_1".to_string(), "hash".to_string(), 5).unwrap()
}

fn message(r: &Reply) -> &'static str {
    match r.body {
        ReplyBody::Text(t) => t,
        ReplyBody::Message { message, .. } => message,
        ReplyBody::Error(e) => e,
        ReplyBody::RetryableError(e) => e,
    }
}

fn code(r: &Reply) -> Option<&'static str> {
    match r.body {
        ReplyBody::Message { code, .. } => code,
        _ => None,
    }
}

fn input(username: &str, password: &str) -> CreateUserInput {
    CreateUserInput {
        username: username.to_string(),
        password: password.to_string(),
        language: None,
    }
}

#[test]
fn accounts_need_valid_names_and_passwords() {
    assert_eq!(validate_user(&input(" ", "x")), Err(UserValidationError::UsernameRequired));
    assert_eq!(validate_user(&input("ab", "x")), Err(UserValidationError::UsernameTooShort));
    let long = "a".repeat(33);
    assert_eq!(validate_user(&input(&long, "x")), Err(UserValidationError::UsernameTooLong));
    assert_eq!(validate_user(&input("Anna", "x")), Err(UserValidationError::UsernameInvalidChars));
    assert_eq!(validate_user(&input("anna", "  ")), Err(UserValidationError::PasswordRequired));
    assert_eq!(validate_user(&input("anna", "1234567")), Err(UserValidationError::PasswordTooShort));
    assert_eq!(validate_user(&input("anna", "12345678")), Ok(()));
    assert_eq!(UserValidationError::PasswordTooShort.message(), "Password must be at least 8 characters");
}

#[test]
fn new_accounts_are_empty_and_may_be_used() {
    let u = user();
    assert_eq!(u.username, "anna_1");
    assert_eq!(u.language, "pl");
    assert_eq!(u.created_at, 5);
    assert!(u.is_login_allowed());
    assert!(!u.is_pending_deletion());
    assert_eq!(u.token_version, 0);
    assert!(User::create(&input("x", "12345678"), "x".into(), "h".into(), 0).is_err());
}

#[test]
fn languages_other_than_polish_are_english() {
    assert_eq!(normalize_language(" PL "), "pl");
    assert_eq!(normalize_language("de"), "en");
    assert_eq!(normalize_language(&normalize_language("Pl")), "pl");
    assert_eq!(requested_language(&UpdateLanguageBody { language: None }), "en");
    assert_eq!(requested_language(&UpdateLanguageBody { language: Some("PL".into()) }), "pl");
}

#[test]
fn missing_flags_are_off() {
    assert!(!deserialize_bool_default_false(None));
    assert!(deserialize_bool_default_false(Some(true)));
    assert!(!deserialize_bool_default_false(Some(false)));
}

#[test]
fn usernames_have_three_to_32_characters() {
    assert!(is_valid_username("a_1"));
    assert!(!is_valid_username("a1"));
    assert!(!is_valid_username("ą_1"));
    assert!(is_valid_username(&"z".repeat(32)));
    assert!(!is_valid_username(&"z".repeat(33)));
}

#[test]
fn password_logins_come_to_four_things() {
    assert_eq!(login_check(false, Ok(true)), LoginCheck::UnknownUser);
    assert_eq!(login_check(true, Ok(true)), LoginCheck::Passed);
    assert_eq!(login_check(true, Ok(false)), LoginCheck::WrongPassword);
    assert_eq!(login_check(true, Err(())), LoginCheck::Unavailable);
}

#[test]
fn users_are_shown_without_secrets() {
    let mut u = user();
    u.id = ObjectId::parse_str(ME);
    u.display_name = Some("  Anna ".to_string());
    u.bio = Some(" ".to_string());
    u.totp_secret = Some("secret".to_string());
    let own = serialize_user(&u);
    assert_eq!(own.id.as_deref(), Some(ME));
    assert_eq!(own.display_name.as_deref(), Some("Anna"));
    assert_eq!(own.bio, None);
    assert_eq!(own.availability_status, "online");
    assert_eq!(own.created_at.as_deref(), Some("1970-01-01T00:00:00.005Z"));
    assert!(own.own.is_some());
    assert!(serialize_user_for_viewer(&u, false).own.is_none());
    assert_eq!(resolve_display_name(&u).as_deref(), Some("Anna"));
    assert_eq!(availability_status_str(&AvailabilityStatus::Dnd), "dnd");
}

fn signup_body() -> CredentialsBody {
    CredentialsBody {
        username: Some("anna".to_string()),
        email: None,
        password: Some("12345678".to_string()),
        language: None,
    }
}

fn signup_facts() -> SignupFacts {
    SignupFacts {
        open: true,
        looks_like_email: false,
        taken: None,
        breach: None,
        slot: None,
        created: None,
        asked_again: None,
    }
}

#[test]
fn signups_go_step_by_step() {
    let body = signup_body();
    let mut f = signup_facts();
    assert!(matches!(signup(&body, "anna", &f), SignupNext::AskTaken));
    f.taken = Some(Answer::No);
    assert!(matches!(signup(&body, "anna", &f), SignupNext::CheckBreach));
    f.breach = Some(PasswordBreachCheck::Safe);
    assert!(matches!(signup(&body, "anna", &f), SignupNext::TakeSlot));
    f.slot = Some(Ok(()));
    assert!(matches!(signup(&body, "anna", &f), SignupNext::Create));
    f.created = Some(true);
    assert!(matches!(signup(&body, "anna", &f), SignupNext::Created(r) if r.status == 201 && message(&r) == "Konto utworzone. Możesz się zalogować."));
    f.created = Some(false);
    assert!(matches!(signup(&body, "anna", &f), SignupNext::AskTakenAgain));
}

#[test]
fn signups_are_refused_for_a_reason() {
    let body = signup_body();
    let closed = SignupFacts { open: false, ..signup_facts() };
    match signup(&body, "anna", &closed) {
        SignupNext::Reply(r) => {
            assert_eq!(r.status, 403);
            assert_eq!(code(&r), Some("REGISTRATION_DISABLED"));
        }
        _ => panic!("open"),
    }
    let taken = SignupFacts { taken: Some(Answer::Yes), ..signup_facts() };
    match signup(&body, "anna", &taken) {
        SignupNext::Reply(r) => {
            assert_eq!(r.status, 400);
            assert!(r.delayed);
            assert_eq!(r.report, Some("username_taken"));
        }
        _ => panic!("free"),
    }
    let mut leaked = SignupFacts { taken: Some(Answer::No), ..signup_facts() };
    leaked.breach = Some(PasswordBreachCheck::Breached);
    match signup(&body, "anna", &leaked) {
        SignupNext::Reply(r) => assert_eq!(code(&r), Some("PASSWORD_BREACHED")),
        _ => panic!("safe"),
    }
    let email = CredentialsBody { username: None, email: Some("a@b.pl".into()), ..signup_body() };
    match signup(&email, "", &signup_facts()) {
        SignupNext::Reply(r) => assert_eq!(
            message(&r),
            "Rejestracja odbywa się przez nazwę użytkownika, nie adres e-mail."
        ),
        _ => panic!("no address"),
    }
    match signup(&body, "Anna!", &signup_facts()) {
        SignupNext::Reply(r) => assert_eq!(r.status, 400),
        _ => panic!("valid"),
    }
    assert_eq!(quota_reply(SignupQuotaError::HourlyLimit).status, 429);
    assert_eq!(quota_reply(SignupQuotaError::Unavailable).status, 503);
    assert!(!registration_status(false).open);
    assert_eq!(registration_status(true).message, "Rejestracja jest otwarta.");
}

fn login_facts(account: Option<AccountLookup>, password: Option<PasswordCheck>) -> LoginFacts {
    LoginFacts { looks_like_email: false, account, password, challenge: None }
}

#[test]
fn logins_ask_for_the_password_before_saying_anything() {
    let body = signup_body();
    assert!(matches!(login(&body, "anna", &login_facts(None, None)), LoginNext::FindAccount));
    let found = Some(AccountLookup::Found { may_log_in: false, two_factor: false });
    assert!(matches!(login(&body, "anna", &login_facts(found, None)), LoginNext::CheckPassword));
    assert!(matches!(
        login(&body, "anna", &login_facts(found, Some(PasswordCheck::Matches))),
        LoginNext::RefuseAccount
    ));
    match login(&body, "anna", &login_facts(found, Some(PasswordCheck::Differs))) {
        LoginNext::Reply(r) => {
            assert_eq!(message(&r), "Invalid credentials");
            assert_eq!(r.report, Some("invalid_password"));
        }
        _ => panic!("right"),
    }
    match login(&body, "anna", &login_facts(Some(AccountLookup::Missing), None)) {
        LoginNext::Reply(r) => {
            assert_eq!(message(&r), "Invalid credentials");
            assert!(r.delayed);
        }
        _ => panic!("found"),
    }
}

#[test]
fn second_factors_are_asked_for() {
    let body = signup_body();
    let found = Some(AccountLookup::Found { may_log_in: true, two_factor: true });
    let mut f = login_facts(found, Some(PasswordCheck::Matches));
    assert!(matches!(login(&body, "anna", &f), LoginNext::MakeChallenge));
    f.challenge = Some(true);
    assert!(matches!(login(&body, "anna", &f), LoginNext::AskSecondFactor));
    let plain = Some(AccountLookup::Found { may_log_in: true, two_factor: false });
    assert!(matches!(
        login(&body, "anna", &login_facts(plain, Some(PasswordCheck::Matches))),
        LoginNext::Enter
    ));
}

#[test]
fn entering_issues_both_tokens() {
    let mut f = EntryFacts { has_id: true, refresh: None, access: None };
    assert!(matches!(login_response(&f), EntryNext::IssueRefresh));
    f.refresh = Some(true);
    assert!(matches!(login_response(&f), EntryNext::MakeAccess));
    f.access = Some(true);
    assert!(matches!(login_response(&f), EntryNext::Welcome));
    let no_id = EntryFacts { has_id: false, ..f };
    assert!(matches!(login_response(&no_id), EntryNext::Reply(r) if r.status == 500));
}

#[test]
fn unusable_accounts_are_told_why() {
    let mut u = user();
    assert!(account_status_response(&u).is_none());
    u.is_blocked = true;
    assert_eq!(account_status_response(&u).unwrap().message, "Konto jest zablokowane.");
    u.block_reason = Some("  spam ".to_string());
    let blocked = account_status_response(&u).unwrap();
    assert_eq!(blocked.message, "spam");
    assert_eq!(blocked.status, 403);
    assert_eq!(blocked.code, Some("ACCOUNT_BLOCKED"));
    u.is_banned = true;
    assert_eq!(account_status_response(&u).unwrap().code, Some("ACCOUNT_BANNED"));
    u.is_active = false;
    assert_eq!(account_status_response(&u).unwrap().code, None);
    u.is_disabled = true;
    assert_eq!(account_status_response(&u).unwrap().code, Some("ACCOUNT_DISABLED"));
}

fn totp(decrypted: Option<bool>, verdict: Option<Result<bool, ()>>) -> CodeFacts {
    CodeFacts {
        is_totp: true,
        has_secret: true,
        decrypted,
        totp: verdict,
        has_backup: false,
        backup: None,
    }
}

#[test]
fn codes_are_checked_against_the_secret_or_the_backup_codes() {
    assert!(matches!(check_code(totp(None, None)), CodeNext::Decrypt));
    assert!(matches!(check_code(totp(Some(true), None)), CodeNext::VerifyTotp));
    assert!(matches!(check_code(totp(Some(true), Some(Ok(true)))), CodeNext::Right { used: None }));
    assert!(matches!(check_code(totp(Some(true), Some(Ok(false)))), CodeNext::Wrong));
    assert!(matches!(check_code(totp(Some(false), None)), CodeNext::Unavailable));
    let backup = CodeFacts {
        is_totp: false,
        has_secret: true,
        decrypted: None,
        totp: None,
        has_backup: true,
        backup: None,
    };
    assert!(matches!(check_code(backup), CodeNext::VerifyBackup));
    let used = CodeFacts { backup: Some(Ok(Some(2))), ..backup };
    assert!(matches!(check_code(used), CodeNext::Right { used: Some(2) }));
    let none = CodeFacts { has_backup: false, ..backup };
    assert!(matches!(check_code(none), CodeNext::Wrong));
}

#[test]
fn second_steps_need_a_token_and_a_code() {
    let body = TwoFactorLoginBody { two_factor: Some("t".into()), code: Some("123456".into()) };
    let id = ObjectId::parse_str(ME).unwrap();
    let mut f = SecondFacts { token: None, account: None, code: totp(None, None), saved: None };
    assert!(matches!(verify_two_factor_login(&body, &f), SecondNext::ReadToken));
    f.token = Some(Ok(Some(id)));
    assert!(matches!(verify_two_factor_login(&body, &f), SecondNext::FindAccount(x) if x == id));
    f.account = Some(AccountLookup::Found { may_log_in: true, two_factor: true });
    assert!(matches!(verify_two_factor_login(&body, &f), SecondNext::Code(CodeNext::Decrypt)));
    f.code = totp(Some(true), Some(Ok(true)));
    assert!(matches!(verify_two_factor_login(&body, &f), SecondNext::Enter));
    f.code = totp(Some(true), Some(Ok(false)));
    assert!(matches!(verify_two_factor_login(&body, &f), SecondNext::Reply(r) if r.delayed));
    let empty = TwoFactorLoginBody { two_factor: None, code: None };
    assert!(matches!(verify_two_factor_login(&empty, &f), SecondNext::Reply(r) if r.status == 400));
    assert_eq!(challenge_user(ME), Some(id));
    assert_eq!(challenge_user("x"), None);
}

#[test]
fn step_ups_use_backup_codes_once() {
    let f = StepUpFacts { step_up: Some(StepUp::BackupConsumed { index: 1 }), saved: None };
    assert!(matches!(step_up(f), StepUpNext::SaveCodes { index: 1 }));
    assert!(matches!(step_up(StepUpFacts { saved: Some(true), ..f }), StepUpNext::Passed));
    assert!(matches!(step_up(StepUpFacts { saved: Some(false), ..f }), StepUpNext::Fail));
    assert_eq!(step_up_err_response("Temporarily unavailable. Retry."), 503);
    assert_eq!(step_up_err_response("Code required"), 400);
    let codes = vec!["a".to_string(), "b".to_string(), "c".to_string()];
    assert_eq!(backup_codes_after_consumption(&codes, 1).unwrap(), vec!["a", "c"]);
    assert_eq!(backup_codes_after_consumption(&vec!["a".to_string()], 0), None);
    assert_eq!(login_delay_ms(0), 100);
    assert_eq!(login_delay_ms(999_999_999), 499);
    assert!(matches!(password_matches(PasswordCheck::Unavailable), Err(r) if r.status == 503));
    assert!(matches!(password_matches(PasswordCheck::Differs), Ok(false)));
}

#[test]
fn credentials_need_a_password() {
    let f = CredentialFacts {
        password_empty: true,
        password: None,
        second: StepUpFacts { step_up: None, saved: None },
    };
    match verify_account_action_credentials(f) {
        CredentialNext::Reply(r) => assert_eq!(message(&r), "Hasło jest wymagane."),
        _ => panic!("given"),
    }
}

fn setup_facts() -> SetupFacts {
    SetupFacts { account: None, password: None, encrypted: None, saved: None }
}

#[test]
fn second_factors_are_set_up_in_steps() {
    let body = SetupTwoFactorBody { password: Some("pw".into()) };
    let mut f = setup_facts();
    assert!(matches!(setup_two_factor(&me(), &body, &f), SetupNext::FindAccount(_)));
    f.account = Some(OwnLookup::Found { enabled: false, pending: false });
    assert!(matches!(setup_two_factor(&me(), &body, &f), SetupNext::CheckPassword));
    f.password = Some(PasswordCheck::Matches);
    assert!(matches!(setup_two_factor(&me(), &body, &f), SetupNext::EncryptSecret));
    f.encrypted = Some(true);
    assert!(matches!(setup_two_factor(&me(), &body, &f), SetupNext::SavePending));
    f.saved = Some(Written::Done);
    assert!(matches!(setup_two_factor(&me(), &body, &f), SetupNext::ShowSecret));
    f.account = Some(OwnLookup::Found { enabled: true, pending: false });
    assert!(matches!(setup_two_factor(&me(), &body, &f), SetupNext::Reply(r) if r.status == 400));
    let blank = SetupTwoFactorBody { password: Some("  ".into()) };
    match setup_two_factor(&me(), &blank, &setup_facts()) {
        SetupNext::Reply(r) => {
            assert_eq!(message(&r), "Password is required to start two-factor setup.")
        }
        _ => panic!("given"),
    }
    assert!(matches!(setup_two_factor(&None, &body, &f), SetupNext::Reply(r) if r.status == 401));
    let bad = Some("x".to_string());
    assert!(matches!(setup_two_factor(&bad, &body, &f), SetupNext::Reply(r) if r.status == 404));
}

#[test]
fn second_factors_are_switched_on_and_off() {
    let body = TwoFactorCodeBody { password: Some("pw".into()), code: Some("123456".into()) };
    let mut f = EnableFacts {
        account: Some(OwnLookup::Found { enabled: false, pending: true }),
        password: Some(PasswordCheck::Matches),
        decrypted: None,
        code: None,
        hashed: None,
        saved: None,
        others_revoked: false,
    };
    assert!(matches!(enable_two_factor(&me(), &body, &f), EnableNext::DecryptPending));
    f.decrypted = Some(true);
    assert!(matches!(enable_two_factor(&me(), &body, &f), EnableNext::VerifyCode));
    f.code = Some(Ok(true));
    assert!(matches!(enable_two_factor(&me(), &body, &f), EnableNext::MakeBackupCodes));
    f.hashed = Some(true);
    assert!(matches!(enable_two_factor(&me(), &body, &f), EnableNext::Save));
    f.saved = Some(Written::Done);
    assert!(matches!(enable_two_factor(&me(), &body, &f), EnableNext::RevokeOthers(_)));
    f.others_revoked = true;
    match enable_two_factor(&me(), &body, &f) {
        EnableNext::ShowCodes(r) => assert_eq!(message(&r), "Two-factor authentication enabled."),
        _ => panic!("not done"),
    }
    f.account = Some(OwnLookup::Found { enabled: false, pending: false });
    match enable_two_factor(&me(), &body, &f) {
        EnableNext::Reply(r) => assert_eq!(message(&r), "Two-factor setup has not been started."),
        _ => panic!("started"),
    }

    let off = TwoFactorDisableBody { password: Some(" ".into()), code: Some("123456".into()) };
    let mut d = DisableFacts {
        account: Some(OwnLookup::Found { enabled: true, pending: false }),
        password: Some(PasswordCheck::Matches),
        code: totp(Some(true), Some(Ok(true))),
        saved: None,
        others_revoked: true,
    };
    assert!(matches!(disable_two_factor(&me(), &off, &d), DisableNext::Save));
    d.saved = Some(Written::Done);
    assert!(matches!(disable_two_factor(&me(), &off, &d), DisableNext::Disabled(_)));
    d.code = totp(Some(true), Some(Ok(false)));
    assert!(matches!(disable_two_factor(&me(), &off, &d), DisableNext::Reply(r) if r.delayed));
    d.account = Some(OwnLookup::Found { enabled: false, pending: false });
    match disable_two_factor(&me(), &off, &d) {
        DisableNext::Reply(r) => {
            assert_eq!(message(&r), "Two-factor authentication is not enabled.")
        }
        _ => panic!("enabled"),
    }
}

#[test]
fn new_passwords_differ_and_have_not_leaked() {
    let mut body = ChangePasswordBody {
        current_password: Some("old".into()),
        new_password: Some(" old ".into()),
        code: None,
    };
    let mut f = PasswordFacts {
        account: Some(Lookup::Found),
        password: Some(PasswordCheck::Matches),
        second: StepUpFacts { step_up: Some(StepUp::NotRequired), saved: None },
        breach: None,
        stored: None,
        invalidated: false,
        found_again: None,
    };
    match change_password(&me(), &body, &f) {
        PasswordNext::Reply(r) => {
            assert_eq!(message(&r), "New password must be different from the current password.")
        }
        _ => panic!("different"),
    }
    body.new_password = Some("new".into());
    assert!(matches!(change_password(&me(), &body, &f), PasswordNext::CheckBreach));
    f.breach = Some(PasswordBreachCheck::Safe);
    assert!(matches!(change_password(&me(), &body, &f), PasswordNext::Store(_)));
    f.stored = Some(true);
    assert!(matches!(change_password(&me(), &body, &f), PasswordNext::Invalidate(_)));
    f.invalidated = true;
    assert!(matches!(change_password(&me(), &body, &f), PasswordNext::FindAgain(_)));
    f.found_again = Some(true);
    assert!(matches!(change_password(&me(), &body, &f), PasswordNext::Enter));
    f.breach = Some(PasswordBreachCheck::Breached);
    match change_password(&me(), &body, &f) {
        PasswordNext::Reply(r) => assert_eq!(code(&r), Some("PASSWORD_BREACHED")),
        _ => panic!("safe"),
    }
}

#[test]
fn usernames_are_changed_to_free_ones() {
    let body = ChangeUsernameBody {
        username: Some("Ewa_2".into()),
        password: Some("pw".into()),
        code: None,
    };
    let mut f = UsernameFacts {
        account: Some(UsernameLookup::Found { same_name: false }),
        password: Some(PasswordCheck::Matches),
        second: StepUpFacts { step_up: Some(StepUp::Verified), saved: None },
        taken: None,
        saved: None,
        taken_again: None,
    };
    assert!(matches!(change_username(&me(), &body, "ewa_2", &f), UsernameNext::AskTaken(_)));
    f.taken = Some(Answer::No);
    assert!(matches!(change_username(&me(), &body, "ewa_2", &f), UsernameNext::Save(_)));
    f.saved = Some(Written::Failed);
    assert!(matches!(change_username(&me(), &body, "ewa_2", &f), UsernameNext::AskTakenAgain(_)));
    f.taken_again = Some(Answer::Yes);
    assert!(matches!(change_username(&me(), &body, "ewa_2", &f), UsernameNext::Reply(r) if r.status == 409));
    f.taken_again = Some(Answer::No);
    match change_username(&me(), &body, "ewa_2", &f) {
        UsernameNext::Reply(r) => assert_eq!(message(&r), "Internal Server Error."),
        _ => panic!("stored"),
    }
    assert!(matches!(change_username(&me(), &body, "e", &f), UsernameNext::Reply(r) if r.status == 400));
    f.account = Some(UsernameLookup::Found { same_name: true });
    match change_username(&me(), &body, "ewa_2", &f) {
        UsernameNext::Reply(r) => {
            assert_eq!(message(&r), "To jest już Twoja obecna nazwa użytkownika.")
        }
        _ => panic!("another"),
    }
}

#[test]
fn own_accounts_are_shown() {
    assert!(matches!(get_user_info(&me(), None), ShowNext::Ask(_)));
    assert!(matches!(get_user_info(&me(), Some(Lookup::Found)), ShowNext::Show));
    match get_user_info(&me(), Some(Lookup::Missing)) {
        ShowNext::Reply(r) => assert_eq!(message(&r), "User with the given id not found."),
        _ => panic!("found"),
    }
    assert!(session_needs_refresh(true, false));
    assert!(!session_needs_refresh(true, true));
    assert!(!session_needs_refresh(false, false));
    assert!(matches!(get_my_warnings(&me(), Some(false)), ShowNext::Reply(r) if r.status == 500));
    assert!(matches!(acknowledge_my_warnings(&me(), Some(true)), ShowNext::Confirmed(_)));
}

#[test]
fn warnings_are_counted() {
    let warning = |acknowledged: bool| Warning {
        id: None,
        reason: "r".to_string(),
        severity: "low",
        acknowledged,
        acknowledged_at: None,
        created_at: 0,
    };
    let list = warning_list(&vec![warning(true), warning(false), warning(false)]);
    assert_eq!(list.total, 3);
    assert_eq!(list.unacknowledged, 2);
    assert_eq!(list.warnings.len(), 3);
    assert_eq!(warning_list(&vec![]).unacknowledged, 0);
}

#[test]
fn profiles_have_limits() {
    assert!(matches!(update_profile(&me(), "Anna", "", None), ProfileNext::Save(_)));
    assert!(matches!(update_profile(&me(), "Anna", "", Some(Written::Done)), ProfileNext::Saved));
    match update_profile(&me(), "", "", None) {
        ProfileNext::Reply(r) => assert_eq!(message(&r), "Display name is required."),
        _ => panic!("given"),
    }
    match update_profile(&me(), &"ą".repeat(33), "", None) {
        ProfileNext::Reply(r) => {
            assert_eq!(message(&r), "Display name must be at most 32 characters.")
        }
        _ => panic!("short"),
    }
    assert!(matches!(update_profile(&me(), &"ą".repeat(32), "", None), ProfileNext::Save(_)));
    match update_profile(&me(), "Anna", &"x".repeat(501), None) {
        ProfileNext::Reply(r) => assert_eq!(message(&r), "Bio must be at most 500 characters."),
        _ => panic!("short"),
    }
    assert!(matches!(update_profile(&None, "Anna", "", None), ProfileNext::Reply(r) if r.status == 400));
    assert!(matches!(update_language(&me(), None), ProfileNext::Save(_)));
}

#[test]
fn only_exact_states_of_availability_are_taken() {
    assert!(names_status("dnd"));
    assert!(!names_status("DND"));
    let body = AvailabilityBody { availability_status: Some("away".into()) };
    assert!(matches!(update_availability_status(&me(), &body, None), ProfileNext::Save(_)));
    let bad = AvailabilityBody { availability_status: None };
    match update_availability_status(&me(), &bad, None) {
        ProfileNext::Reply(r) => assert_eq!(message(&r), "Invalid availability status."),
        _ => panic!("valid"),
    }
}

#[test]
fn changed_profiles_are_told() {
    let mut u = user();
    u.display_name = Some(" ".to_string());
    u.bio = Some(" hi ".to_string());
    u.color = Some(3);
    let e = profile_event(ME, &u, true);
    assert_eq!(e.user_id, ME);
    assert_eq!(e.username.as_deref(), Some("anna_1"));
    assert_eq!(e.display_name, None);
    assert_eq!(e.bio.as_deref(), Some("hi"));
    assert_eq!(e.color, Some(3));
    assert_eq!(profile_event(ME, &u, false).username, None);
}

#[test]
fn pictures_are_checked_and_encoded_anew() {
    let mut f = PictureFacts {
        content_ok: None,
        size_ok: None,
        account: None,
        encoded: None,
        uploaded: None,
        saved: None,
    };
    assert!(allowed_image_ext("webp"));
    assert!(!allowed_image_ext("gif"));
    assert!(matches!(add_profile_image(&me(), "gif", &f), PictureNext::Reply(r) if r.status == 400));
    assert!(matches!(add_profile_image(&me(), "png", &f), PictureNext::CheckContent));
    f.content_ok = Some(true);
    f.size_ok = Some(false);
    match add_profile_image(&me(), "png", &f) {
        PictureNext::Reply(r) => assert_eq!(message(&r), "File too large. Maximum size is 6 MB."),
        _ => panic!("small"),
    }
    match add_profile_banner(&me(), "png", &f) {
        PictureNext::Reply(r) => assert_eq!(message(&r), "File too large. Maximum size is 7 MB."),
        _ => panic!("small"),
    }
    f.size_ok = Some(true);
    assert!(matches!(add_profile_image(&me(), "png", &f), PictureNext::FindAccount(_)));
    f.account = Some(Lookup::Found);
    assert!(matches!(add_profile_image(&me(), "png", &f), PictureNext::Encode));
    f.encoded = Some(true);
    assert!(matches!(add_profile_image(&me(), "png", &f), PictureNext::Upload));
    f.uploaded = Some(true);
    assert!(matches!(add_profile_image(&me(), "png", &f), PictureNext::Save(_)));
    f.saved = Some(Written::Done);
    assert!(matches!(add_profile_image(&me(), "png", &f), PictureNext::Saved));
    assert!(deletes_previous_picture(&Some("old".into()), "new", true));
    assert!(!deletes_previous_picture(&Some("new".into()), "new", true));
    assert!(!deletes_previous_picture(&Some("old".into()), "new", false));
    assert!(!deletes_previous_picture(&None, "new", true));
}

#[test]
fn pictures_are_removed() {
    let found = Some(PictureLookup::Found { has_picture: true, owned: true });
    assert!(matches!(remove_profile_image(&me(), found, None, false), RemoveNext::Save(_)));
    assert!(matches!(
        remove_profile_image(&me(), found, Some(Written::Done), false),
        RemoveNext::CleanUp { delete: true }
    ));
    let foreign = Some(PictureLookup::Found { has_picture: true, owned: false });
    assert!(matches!(
        remove_profile_image(&me(), foreign, Some(Written::Done), false),
        RemoveNext::CleanUp { delete: false }
    ));
    assert!(matches!(remove_profile_image(&me(), found, Some(Written::Done), true), RemoveNext::Done));
    let none = Some(PictureLookup::Found { has_picture: false, owned: false });
    assert!(matches!(remove_profile_image(&me(), none, None, false), RemoveNext::Done));
    assert_eq!(message(&removed_picture_text(Picture::Banner)), "Profile banner removed successfully");
}

fn end_facts(disabled: bool, pending_deletion: bool) -> AccountEndFacts {
    AccountEndFacts {
        account: Some(EndLookup::Found { disabled, pending_deletion }),
        password: Some(PasswordCheck::Matches),
        second: StepUpFacts { step_up: Some(StepUp::NotRequired), saved: None },
        saved: None,
        invalidated: false,
    }
}

#[test]
fn accounts_are_switched_off() {
    let body = AccountActionBody { password: Some("pw".into()), code: None };
    let mut f = end_facts(false, false);
    assert!(matches!(disable_account(&me(), &body, &f), AccountEndNext::Save(_)));
    f.saved = Some(true);
    assert!(matches!(disable_account(&me(), &body, &f), AccountEndNext::Invalidate(_)));
    f.invalidated = true;
    match disable_account(&me(), &body, &f) {
        AccountEndNext::Done(r) => assert_eq!(code(&r), Some("ACCOUNT_DISABLED")),
        _ => panic!("not done"),
    }
    match disable_account(&me(), &body, &end_facts(true, false)) {
        AccountEndNext::Reply(r) => assert_eq!(code(&r), Some("ACCOUNT_ALREADY_DISABLED")),
        _ => panic!("on"),
    }
    let blank = AccountActionBody { password: Some("  ".into()), code: None };
    match disable_account(&me(), &blank, &end_facts(false, false)) {
        AccountEndNext::Reply(r) => assert_eq!(message(&r), "Hasło jest wymagane."),
        _ => panic!("given"),
    }
}

#[test]
fn deletions_are_asked_for_and_taken_back() {
    let body = AccountActionBody { password: Some("pw".into()), code: None };
    let mut f = end_facts(true, false);
    assert!(matches!(request_account_deletion(&me(), &body, &f), AccountEndNext::Save(_)));
    f.saved = Some(true);
    match request_account_deletion(&me(), &body, &f) {
        AccountEndNext::Done(r) => {
            assert_eq!(code(&r), Some("ACCOUNT_PENDING_DELETION"));
            assert!(message(&r).contains("przez 7 dni"));
        }
        _ => panic!("not done"),
    }
    match cancel_account_deletion(&me(), &body, &f) {
        AccountEndNext::Reply(r) => assert_eq!(code(&r), Some("ACCOUNT_NOT_PENDING_DELETION")),
        _ => panic!("pending"),
    }
    let pending = AccountEndFacts { saved: Some(true), ..end_facts(false, true) };
    match cancel_account_deletion(&me(), &body, &pending) {
        AccountEndNext::Done(r) => assert_eq!(code(&r), Some("ACCOUNT_DELETION_CANCELLED")),
        _ => panic!("not done"),
    }
    let answer = deletion_answer(0);
    assert_eq!(answer.scheduled_at.as_deref(), Some("1970-01-08T00:00:00Z"));
    assert_eq!(answer.grace_days, 7);
}
