use klovy_chat_server::controllers::account::Picture;
use klovy_chat_server::ids::ObjectId;
use klovy_chat_server::model::update::UserField;
use klovy_chat_server::model::users::{CreateUserInput, User};
use klovy_chat_server::routes::auth::{
    configure, form_field, form_limit_bytes, guards, Guard, Handler, Method, Protection,
};
use klovy_chat_server::startup::{
    ensure_indexes, indexed_collection, interval_secs, purge_is_noted, reconcile_note, Job,
    ReconcileNote,
};
use klovy_chat_server::utils::admin::{
    channels_deleted, delete_message_attachment, delete_user_storage_files, deletion_due,
    drop_error_tolerated, dropped_collection, owner_field, process_scheduled_deletions,
    purge_removed_schema_fields, purge_user_completely, purge_user_data,
    purge_user_related_records, repair_broken_account_status_fields, DropReply, FileKind,
    OwnedChannel, PurgeAccount, PurgeRemovedSchemaReport, PurgeStep, RelatedRecords, SchemaPurge,
    SchemaReply,
};
use klovy_chat_server::utils::config::{
    config_error_message, first_insecure_origin, origin_looks_like_production, trusts_proxy,
    validate_ports, validate_startup_config, ConfigError, R2Setting, StartupEnv,
};
use klovy_chat_server::utils::registration::{
    env_flag, env_u32, env_u64, is_registration_disabled, is_registration_open,
    signup_max_global_per_day, signup_max_global_per_hour, signup_max_per_ip_hour,
    try_consume_global_signup_slot, try_consume_window, utc_window_keys, window_has_room,
    SignupQuotaError, SlotFacts, SlotNext, WindowNext,
};

const ME: &str = "507f1f77bcf86cd799439011";

fn some(s: &str) -> Option<String> {
    Some(s.to_string())
}

#[test]
fn requests_about_accounts_are_guarded() {
    let routes = configure();
    assert_eq!(routes.len(), 44);
    let me = routes.iter().find(|r| r.path == "/me").unwrap();
    assert_eq!(me.method, Method::Get);
    assert_eq!(me.handler, Handler::GetUserInfo);
    let g = guards(me.protection);
    assert!(matches!(g[0], Guard::RequireActiveAccount));
    assert!(matches!(g[1], Guard::VerifyToken));
    let signup = guards(Protection::Signup);
    assert_eq!(signup.len(), 6);
    assert!(matches!(signup[5], Guard::LogActivity("signup")));
    assert!(guards(Protection::Open).is_empty());
    for r in &routes {
        if matches!(r.handler, Handler::ChangePassword) {
            assert!(guards(r.protection).iter().any(|x| matches!(x, Guard::ValidatePassword)));
        }
    }
}

#[test]
fn fixed_session_paths_are_tried_before_the_pattern() {
    let routes = configure();
    let at = |p: &str| routes.iter().position(|r| r.path == p).unwrap();
    assert!(at("/sessions/revoke-others") < at("/sessions/{sessionId}"));
    assert!(at("/sessions/revoke-all") < at("/sessions/{sessionId}"));
}

#[test]
fn forms_with_pictures_have_limits() {
    assert_eq!(form_limit_bytes(Picture::Image), 6 * 1024 * 1024);
    assert_eq!(form_limit_bytes(Picture::Banner), 7 * 1024 * 1024);
    assert_eq!(form_field(Picture::Image), "profile-image");
}

#[test]
fn servers_do_not_start_without_indexes_in_production() {
    assert_eq!(ensure_indexes(&vec![true, false, false], true), Some(1));
    assert_eq!(ensure_indexes(&vec![true, false], false), None);
    assert_eq!(ensure_indexes(&vec![true, true], true), None);
    assert_eq!(indexed_collection(0), Some("users"));
    assert_eq!(indexed_collection(15), Some("announcements"));
    assert_eq!(indexed_collection(16), None);
}

#[test]
fn jobs_are_done_again_and_again() {
    assert_eq!(interval_secs(Job::CleanUploads), 6 * 60 * 60);
    assert_eq!(interval_secs(Job::DeleteAccounts), 60 * 60);
    assert_eq!(interval_secs(Job::SweepCalls), 15);
    assert_eq!(interval_secs(Job::ReconcileFiles), 24 * 60 * 60);
    assert!(!purge_is_noted(PurgeRemovedSchemaReport::default()));
    assert_eq!(reconcile_note(0, 1, 5), ReconcileNote::Files);
    assert_eq!(reconcile_note(0, 0, 5), ReconcileNote::Usage);
    assert_eq!(reconcile_note(0, 0, 0), ReconcileNote::Nothing);
}

#[test]
fn settings_are_read() {
    assert!(env_flag(&some(" TRUE ")));
    assert!(!env_flag(&some("no")));
    assert!(!env_flag(&None));
    assert_eq!(env_u64(&some("12"), 5), 12);
    assert_eq!(env_u64(&some("x"), 5), 5);
    assert_eq!(env_u32(&None, 7), 7);
    assert!(is_registration_disabled(&some("1")));
    assert!(is_registration_open(&None));
    assert_eq!(signup_max_per_ip_hour(&some("3"), true), 3);
    assert_eq!(signup_max_global_per_hour(&some("4"), true), 4);
    assert_eq!(signup_max_global_per_day(&some("5"), true), 5);
}

#[test]
fn accounts_are_counted_by_hour_and_day() {
    assert_eq!(utc_window_keys(0), ("hour:0".to_string(), "day:0".to_string()));
    assert_eq!(utc_window_keys(90_000_000), ("hour:25".to_string(), "day:1".to_string()));
    assert_eq!(utc_window_keys(-3_600_000), ("hour:-1".to_string(), "day:0".to_string()));
    assert!(window_has_room(3, 3));
    assert!(!window_has_room(4, 3));
    assert_eq!(try_consume_window(None, 3, false), WindowNext::Count);
    assert_eq!(try_consume_window(Some(Ok(Some(4))), 3, false), WindowNext::GiveBack);
    assert_eq!(try_consume_window(Some(Ok(Some(4))), 3, true), WindowNext::Full);
    assert_eq!(try_consume_window(Some(Ok(Some(3))), 3, false), WindowNext::Taken);
    assert_eq!(try_consume_window(Some(Err(())), 3, false), WindowNext::Failed);
}

#[test]
fn slots_of_full_days_are_given_back() {
    let mut f = SlotFacts { hour: None, day: None, hour_given_back: false };
    assert_eq!(try_consume_global_signup_slot(&f), SlotNext::ConsumeHour);
    f.hour = Some(Ok(true));
    assert_eq!(try_consume_global_signup_slot(&f), SlotNext::ConsumeDay);
    f.day = Some(Ok(false));
    assert_eq!(try_consume_global_signup_slot(&f), SlotNext::GiveHourBack);
    f.hour_given_back = true;
    assert_eq!(
        try_consume_global_signup_slot(&f),
        SlotNext::Refuse(SignupQuotaError::DailyLimit)
    );
    f.day = Some(Ok(true));
    assert_eq!(try_consume_global_signup_slot(&f), SlotNext::Granted);
    let full = SlotFacts { hour: Some(Ok(false)), ..f };
    assert_eq!(
        try_consume_global_signup_slot(&full),
        SlotNext::Refuse(SignupQuotaError::HourlyLimit)
    );
    assert_eq!(SignupQuotaError::HourlyLimit.code(), "SIGNUP_HOURLY_LIMIT");
}

fn env() -> StartupEnv {
    StartupEnv {
        production: true,
        jwt_key_ok: true,
        livekit_url_allowed: true,
        origin: some("https://app.example.com"),
        token_hash_key: some(&"k".repeat(32)),
        turnstile_secret_key: some("t"),
        security_report_secret: some(&"s".repeat(16)),
        field_encryption_key: some(&"f".repeat(32)),
        database_url: some("mongodb://x"),
        trust_proxy: some("true"),
        internal_http_port: some("6702"),
        port: some("8080"),
        internal_proxy_secret: some(&"p".repeat(32)),
        frontend_url: some("https://app.example.com"),
        r2_account_id: some("a"),
        r2_access_key_id: some("a"),
        r2_secret_access_key: some("a"),
        r2_public_bucket: some("pub"),
        cdn_public_base_url: some("https://cdn"),
        r2_quarantine_bucket: some("quarantine"),
        clamav_host: some("127.0.0.1:3310"),
        livekit_url: None,
        livekit_api_key: None,
        livekit_api_secret: None,
        registration_disabled: None,
    }
}

fn refused(e: StartupEnv) -> ConfigError {
    match validate_startup_config(&e) {
        Err(c) => c,
        Ok(_) => panic!("accepted"),
    }
}

#[test]
fn complete_settings_are_accepted() {
    let w = match validate_startup_config(&env()) {
        Ok(w) => w,
        Err(_) => panic!("refused"),
    };
    assert!(!w.report_secret_short && !w.registration_disabled && !w.clamav_missing);
}

#[test]
fn incomplete_settings_are_refused() {
    let is = |e: StartupEnv, want: &str| assert_eq!(config_error_message(refused(e), ""), want);
    is(StartupEnv { jwt_key_ok: false, ..env() }, "Invalid JWT_KEY for production");
    is(
        StartupEnv { token_hash_key: some("x"), ..env() },
        "TOKEN_HASH_KEY must be at least 32 characters in production",
    );
    is(StartupEnv { turnstile_secret_key: None, ..env() }, "TURNSTILE_SECRET_KEY must be set in production");
    is(
        StartupEnv { field_encryption_key: None, ..env() },
        "FIELD_ENCRYPTION_KEY must be at least 32 characters in production",
    );
    is(
        StartupEnv { database_url: None, ..env() },
        "Database URL must be set in production (DATABASE_URL, MONGODB_URI, or MONGO_URI)",
    );
    is(
        StartupEnv { trust_proxy: None, ..env() },
        "TRUST_PROXY must be enabled (true) in production when behind a reverse proxy",
    );
    is(StartupEnv { internal_http_port: None, ..env() }, "INTERNAL_HTTP_PORT must be set in production");
    is(
        StartupEnv { internal_http_port: some("0"), ..env() },
        "INTERNAL_HTTP_PORT must be a valid port number (1-65535)",
    );
    is(
        StartupEnv { internal_proxy_secret: None, ..env() },
        "INTERNAL_PROXY_SECRET must be at least 32 characters in production",
    );
    is(StartupEnv { frontend_url: None, ..env() }, "FRONTEND_URL must be set in production");
    is(
        StartupEnv { frontend_url: some("http://x"), ..env() },
        "FRONTEND_URL must use HTTPS in production",
    );
    assert!(matches!(
        refused(StartupEnv { r2_access_key_id: None, ..env() }),
        ConfigError::MissingR2(R2Setting::AccessKeyId)
    ));
    assert!(matches!(
        refused(StartupEnv { r2_quarantine_bucket: some("pub"), ..env() }),
        ConfigError::SharedQuarantine
    ));
    assert!(matches!(
        refused(StartupEnv { clamav_host: None, ..env() }),
        ConfigError::MissingClamav
    ));
    assert!(matches!(
        refused(StartupEnv { livekit_url: some("wss://x"), ..env() }),
        ConfigError::IncompleteLivekit
    ));
    assert!(matches!(
        refused(StartupEnv { production: false, ..env() }),
        ConfigError::PublicOriginOutsideProduction
    ));
}

#[test]
fn insecure_origins_are_named() {
    let e = StartupEnv { origin: some("https://a.pl, http://b.pl/"), ..env() };
    let origin = e.origin.clone().unwrap();
    assert_eq!(
        config_error_message(refused(e), &origin),
        "ORIGIN entries must use HTTPS in production (got http://b.pl)"
    );
    assert_eq!(first_insecure_origin("https://a.pl,"), None);
    assert!(origin_looks_like_production("https://klovy.chat"));
    assert!(origin_looks_like_production("http://localhost:3000"));
    assert!(!origin_looks_like_production("http://127.0.0.1:3000"));
    assert!(!origin_looks_like_production("http://[::1]:3000"));
    assert!(trusts_proxy(&some("1")));
    assert!(!trusts_proxy(&some("no")));
}

#[test]
fn ports_differ() {
    assert!(validate_ports(&some("6702"), &some("8080")).is_none());
    let same = validate_ports(&some("8080"), &some("8080")).unwrap();
    assert_eq!(
        config_error_message(same, ""),
        "INTERNAL_HTTP_PORT (8080) must differ from PORT (8080) — the public server and the internal actix server cannot share a port"
    );
    assert!(matches!(
        validate_ports(&some("6701"), &some("8080")),
        Some(ConfigError::ReservedInternalPort { public_port: 8080 })
    ));
}

#[test]
fn records_that_are_no_longer_used_are_tidied_away() {
    assert!(drop_error_tolerated("NamespaceNotFound"));
    assert!(drop_error_tolerated("ns not found"));
    assert!(!drop_error_tolerated("timeout"));
    assert_eq!(dropped_collection(0), "e2e_keys");
    assert_eq!(dropped_collection(3), "badges");
    let at = SchemaPurge::Drop { number: 0, report: PurgeRemovedSchemaReport::default() };
    match purge_removed_schema_fields(at, SchemaReply::Dropped(DropReply::Dropped)) {
        SchemaPurge::Drop { number: 1, report } => assert!(report.e2e_keys_dropped),
        _ => panic!("not dropped"),
    }
}

#[test]
fn files_go_with_the_account() {
    let input = CreateUserInput {
        username: "anna".to_string(),
        password: "long enough".to_string(),
        language: None,
    };
    let mut u = User::create(&input, "anna".into(), "h".into(), 0).unwrap();
    u.image = some("avatars/1.webp");
    let channels = vec![
        OwnedChannel { image: "c1".into(), owns_picture: true },
        OwnedChannel { image: "".into(), owns_picture: true },
        OwnedChannel { image: "c3".into(), owns_picture: false },
    ];
    let files = delete_user_storage_files(&u, &channels, &vec!["up".into()], &vec!["/att".into()]);
    let got: Vec<(FileKind, &str)> = files.iter().map(|f| (f.kind, f.key.as_str())).collect();
    assert_eq!(
        got,
        vec![
            (FileKind::Avatar, "avatars/1.webp"),
            (FileKind::Avatar, "c1"),
            (FileKind::Attachment, "up"),
            (FileKind::Attachment, "/att"),
            (FileKind::Attachment, "att"),
        ]
    );
    assert_eq!(delete_message_attachment("x"), vec!["x"]);
}

#[test]
fn accounts_are_deleted_in_order() {
    let mut done = None;
    let mut steps = Vec::new();
    while let Some(next) = purge_user_related_records(done) {
        steps.push(next);
        done = Some(next);
    }
    assert_eq!(steps.len(), 6);
    assert_eq!(steps[0], RelatedRecords::RefreshTokens);
    assert_eq!(owner_field(RelatedRecords::ChannelReports), "reportedBy");
    assert_eq!(owner_field(RelatedRecords::Warnings), "userId");
    assert_eq!(process_scheduled_deletions(&vec![true, false, true]), 2);
    assert!(deletion_due(Some(5), 5));
    assert!(!deletion_due(Some(6), 5));
    assert!(!deletion_due(None, 5));
    assert_eq!(channels_deleted(&vec![ObjectId::parse_str(ME).unwrap()]), 1);
    assert!(matches!(
        purge_user_completely(PurgeAccount::FindUser, false),
        PurgeAccount::Failed
    ));
    assert!(matches!(purge_user_data(PurgeStep::DeleteUser, true, false), PurgeStep::Done));
}

#[test]
fn broken_switches_are_mended() {
    let u = repair_broken_account_status_fields();
    assert_eq!(u.set.len(), 1);
    assert_eq!(u.set[0].field, UserField::IsDisabled);
    assert_eq!(u.unset, vec![UserField::DisabledAt]);
}
