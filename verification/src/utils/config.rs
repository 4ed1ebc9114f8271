//! What has to be configured before the server starts.
use vstd::prelude::*;
use crate::text::{self, byte_len, number_in, opt_text, text_or_empty, trimmed};
use crate::utils::registration::{flag_on, is_registration_disabled};

verus! {

/// The settings that are looked at when the server starts.
pub struct StartupEnv {
    pub production: bool,
    /// Whether the key of the login tokens can be used.
    pub jwt_key_ok: bool,
    /// Whether the address of the voice server is an allowed one.
    pub livekit_url_allowed: bool,
    pub origin: Option<String>,
    pub token_hash_key: Option<String>,
    pub turnstile_secret_key: Option<String>,
    pub security_report_secret: Option<String>,
    pub field_encryption_key: Option<String>,
    pub database_url: Option<String>,
    pub trust_proxy: Option<String>,
    pub internal_http_port: Option<String>,
    pub port: Option<String>,
    pub internal_proxy_secret: Option<String>,
    pub frontend_url: Option<String>,
    pub r2_account_id: Option<String>,
    pub r2_access_key_id: Option<String>,
    pub r2_secret_access_key: Option<String>,
    pub r2_public_bucket: Option<String>,
    pub cdn_public_base_url: Option<String>,
    pub r2_quarantine_bucket: Option<String>,
    pub clamav_host: Option<String>,
    pub livekit_url: Option<String>,
    pub livekit_api_key: Option<String>,
    pub livekit_api_secret: Option<String>,
    pub registration_disabled: Option<String>,
}

/// The settings of the file store without which nothing works.
#[derive(Clone, Copy, Debug, PartialEq, Eq, Structural)]
pub enum R2Setting {
    AccountId,
    AccessKeyId,
    SecretAccessKey,
    PublicBucket,
    PublicBaseUrl,
}

/// Why the server does not start.
#[derive(Clone, Copy, Debug, PartialEq, Eq, Structural)]
pub enum ConfigError {
    PublicOriginOutsideProduction,
    InvalidJwtKey,
    ShortTokenHashKey,
    MissingOrigin,
    InsecureOrigin,
    MissingTurnstileKey,
    ShortFieldKey,
    MissingDatabaseUrl,
    ProxyNotTrusted,
    MissingInternalPort,
    InvalidInternalPort,
    InvalidPort,
    SamePorts { port: u16 },
    ReservedInternalPort { public_port: u16 },
    ShortProxySecret,
    MissingFrontendUrl,
    InsecureFrontendUrl,
    MissingR2(R2Setting),
    SharedQuarantine,
    IncompleteLivekit,
    ForbiddenLivekitUrl,
    MissingClamav,
}

/// What is worth a warning when the server starts.
#[derive(Clone, Copy, Debug, PartialEq, Eq, Structural)]
pub struct StartupWarnings {
    pub report_secret_short: bool,
    pub registration_disabled: bool,
    pub quarantine_shared: bool,
    pub clamav_missing: bool,
    pub jwt_key_missing: bool,
}

/// Whether an origin looks like that of a public server: it names no address of this machine.
pub open spec fn looks_public(origin: Seq<char>) -> bool {
    let lower = text::ascii_lower(origin);
    !text::occurs_in(lower, "127.0.0.1"@) && !text::occurs_in(lower, "::1"@)
}

/// Whether an origin looks like that of a public server.
pub fn origin_looks_like_production(origin: &str) -> (r: bool)
    ensures
        r == looks_public(origin@),
{
    let lower = text::to_ascii_lowercase(origin);
    !text::contains_text(&lower, "127.0.0.1") && !text::contains_text(&lower, "::1")
}

/// Whether a setting is missing or blank.
pub open spec fn blank(s: Option<String>) -> bool {
    trimmed(text_or_empty(s)).len() == 0
}

fn is_blank_setting(s: &Option<String>) -> (r: bool)
    ensures
        r == blank(*s),
{
    text::is_blank(text::or_empty(s))
}

/// The length of a trimmed setting in bytes.
pub open spec fn setting_len(s: Option<String>) -> nat {
    byte_len(trimmed(text_or_empty(s)))
}

fn len_of_setting(s: &Option<String>) -> (r: usize)
    ensures
        r == setting_len(*s),
{
    text::len_bytes(text::trim(text::or_empty(s)))
}

/// An entry of the list of origins, without white space and slashes at its end.
pub open spec fn origin_entry(part: Seq<char>) -> Seq<char> {
    text::without_trailing(trimmed(part), '/')
}

/// Whether an entry of the list of origins uses HTTPS, or is empty.
pub open spec fn entry_secure(part: Seq<char>) -> bool {
    origin_entry(part).len() == 0 || text::begins_with(origin_entry(part), "https://"@)
}

/// The first entry of a list of origins, from `i` on, that does not use HTTPS.
pub open spec fn insecure_from(list: Seq<Seq<char>>, i: int) -> Option<Seq<char>>
    decreases list.len() - i,
{
    if i < 0 || i >= list.len() {
        None
    } else if !entry_secure(list[i]) {
        Some(origin_entry(list[i]))
    } else {
        insecure_from(list, i + 1)
    }
}

/// The first origin that does not use HTTPS.
pub open spec fn insecure_origin(origin: Seq<char>) -> Option<Seq<char>> {
    insecure_from(text::parts(origin, ','), 0)
}

/// The first origin that does not use HTTPS.
pub fn first_insecure_origin(origin: &str) -> (r: Option<String>)
    ensures
        opt_text(r) == insecure_origin(origin@),
{
    let list = text::split_text(origin, ',');
    let ghost all = text::parts(origin@, ',');
    let mut i: usize = 0;
    while i < list.len()
        invariant
            i <= list.len(),
            all == text::parts(origin@, ','),
            list@.map_values(|t: String| t@) == all,
            insecure_from(all, i as int) == insecure_origin(origin@),
        decreases list.len() - i,
    {
        proof {
            assert(list@.map_values(|t: String| t@)[i as int] == list@[i as int]@);
        }
        let entry = text::trim_end_char(text::trim(&list[i]), '/');
        if !entry.is_empty() && !text::starts_with(entry, "https://") {
            return Some(entry.to_owned());
        }
        i = i + 1;
    }
    None
}

/// Every origin of a list without an insecure one uses HTTPS or is empty.
pub proof fn secure_lists_hold_secure_origins(list: Seq<Seq<char>>, i: int, k: int)
    requires
        insecure_from(list, i) is None,
        0 <= i <= k < list.len(),
    ensures
        entry_secure(list[k]),
    decreases k - i,
{
    if i < k {
        secure_lists_hold_secure_origins(list, i + 1, k);
    }
}

/// Whether the server may trust the proxy before it: `1`, or `true` or `yes` in any case.
pub open spec fn proxy_trusted(value: Option<Seq<char>>) -> bool {
    match value {
        Some(v) => {
            let t = trimmed(v);
            ||| t == "1"@
            ||| text::ascii_lower(t) == text::ascii_lower("true"@)
            ||| text::ascii_lower(t) == text::ascii_lower("yes"@)
        },
        None => false,
    }
}

/// Whether the server may trust the proxy before it.
pub fn trusts_proxy(value: &Option<String>) -> (r: bool)
    ensures
        r == proxy_trusted(opt_text(*value)),
{
    match value {
        Some(v) => {
            let t = text::trim(v);
            text::same_text(t, "1") || text::eq_ignore_ascii_case(t, "true")
                || text::eq_ignore_ascii_case(t, "yes")
        },
        None => false,
    }
}

/// The port that a setting writes.
pub open spec fn port_in(s: Option<String>) -> Option<u16> {
    match number_in(trimmed(text_or_empty(s)), 65535) {
        Some(n) => Some(n as u16),
        None => None,
    }
}

fn parse_port(s: &Option<String>) -> (r: Option<u16>)
    ensures
        r == port_in(*s),
{
    match text::parse_number(text::trim(text::or_empty(s)), 65535) {
        Some(n) => Some(n as u16),
        None => None,
    }
}

/// The port of the public server; 6700 unless the setting says otherwise.
pub open spec fn public_port(s: Option<String>) -> Option<u16> {
    if blank(s) {
        Some(6700u16)
    } else {
        port_in(s)
    }
}

/// What is wrong with the ports of a public server.
pub open spec fn ports_error(internal: Option<String>, public: Option<String>) -> Option<ConfigError> {
    if blank(internal) {
        Some(ConfigError::MissingInternalPort)
    } else {
        let public_one = public_port(public);
        match (port_in(internal), public_one) {
            (None, _) => Some(ConfigError::InvalidInternalPort),
            (Some(i), p) => if i == 0 {
                Some(ConfigError::InvalidInternalPort)
            } else {
                match p {
                    None => Some(ConfigError::InvalidPort),
                    Some(port) => if i == port {
                        Some(ConfigError::SamePorts { port })
                    } else if i == 6701 {
                        Some(ConfigError::ReservedInternalPort { public_port: port })
                    } else {
                        None
                    },
                }
            },
        }
    }
}

/// What is wrong with the ports of a public server.
pub fn validate_ports(internal: &Option<String>, public: &Option<String>) -> (r: Option<ConfigError>)
    ensures
        r == ports_error(*internal, *public),
{
    if is_blank_setting(internal) {
        Some(ConfigError::MissingInternalPort)
    } else {
        let public_one = if is_blank_setting(public) {
            Some(6700u16)
        } else {
            parse_port(public)
        };
        match (parse_port(internal), public_one) {
            (None, _) => Some(ConfigError::InvalidInternalPort),
            (Some(i), p) => if i == 0 {
                Some(ConfigError::InvalidInternalPort)
            } else {
                match p {
                    None => Some(ConfigError::InvalidPort),
                    Some(port) => if i == port {
                        Some(ConfigError::SamePorts { port })
                    } else if i == 6701 {
                        Some(ConfigError::ReservedInternalPort { public_port: port })
                    } else {
                        None
                    },
                }
            },
        }
    }
}

/// Ports that are in order are two different ones, and neither the internal one is zero.
pub proof fn accepted_ports_differ(internal: Option<String>, public: Option<String>)
    requires
        ports_error(internal, public) is None,
    ensures
        port_in(internal) is Some,
        public_port(public) is Some,
        port_in(internal) != public_port(public),
        port_in(internal) != Some(0u16),
{
}

/// Whether files that wait for their check would lie in the public bucket.
pub open spec fn quarantine_shared(env: StartupEnv) -> bool {
    let q = trimmed(text_or_empty(env.r2_quarantine_bucket));
    q.len() == 0 || q == trimmed(text_or_empty(env.r2_public_bucket))
}

fn shares_quarantine(env: &StartupEnv) -> (r: bool)
    ensures
        r == quarantine_shared(*env),
{
    let q = text::trim(text::or_empty(&env.r2_quarantine_bucket));
    q.is_empty() || text::same_text(q, text::trim(text::or_empty(&env.r2_public_bucket)))
}

/// What is wrong with the file store. In production the bucket for files that wait for their
/// check has to be one of its own.
pub open spec fn r2_error(env: StartupEnv) -> Option<ConfigError> {
    if blank(env.r2_account_id) {
        Some(ConfigError::MissingR2(R2Setting::AccountId))
    } else if blank(env.r2_access_key_id) {
        Some(ConfigError::MissingR2(R2Setting::AccessKeyId))
    } else if blank(env.r2_secret_access_key) {
        Some(ConfigError::MissingR2(R2Setting::SecretAccessKey))
    } else if blank(env.r2_public_bucket) {
        Some(ConfigError::MissingR2(R2Setting::PublicBucket))
    } else if blank(env.cdn_public_base_url) {
        Some(ConfigError::MissingR2(R2Setting::PublicBaseUrl))
    } else if quarantine_shared(env) && env.production {
        Some(ConfigError::SharedQuarantine)
    } else {
        None
    }
}

/// What is wrong with the file store. In production the bucket for files that wait for their
/// check has to be one of its own.
pub fn validate_r2_env(env: &StartupEnv) -> (r: Option<ConfigError>)
    ensures
        r == r2_error(*env),
{
    if is_blank_setting(&env.r2_account_id) {
        Some(ConfigError::MissingR2(R2Setting::AccountId))
    } else if is_blank_setting(&env.r2_access_key_id) {
        Some(ConfigError::MissingR2(R2Setting::AccessKeyId))
    } else if is_blank_setting(&env.r2_secret_access_key) {
        Some(ConfigError::MissingR2(R2Setting::SecretAccessKey))
    } else if is_blank_setting(&env.r2_public_bucket) {
        Some(ConfigError::MissingR2(R2Setting::PublicBucket))
    } else if is_blank_setting(&env.cdn_public_base_url) {
        Some(ConfigError::MissingR2(R2Setting::PublicBaseUrl))
    } else if shares_quarantine(env) && env.production {
        Some(ConfigError::SharedQuarantine)
    } else {
        None
    }
}

/// What is wrong with the virus scanner: it has to be there if it is required.
pub open spec fn clamav_error(host: Option<String>, require: bool) -> Option<ConfigError> {
    if blank(host) && require {
        Some(ConfigError::MissingClamav)
    } else {
        None
    }
}

/// What is wrong with the virus scanner: it has to be there if it is required.
pub fn validate_clamav_env(host: &Option<String>, require: bool) -> (r: Option<ConfigError>)
    ensures
        r == clamav_error(*host, require),
{
    if is_blank_setting(host) && require {
        Some(ConfigError::MissingClamav)
    } else {
        None
    }
}

/// What is wrong with the voice server: it is configured whole or not at all.
pub open spec fn livekit_error(env: StartupEnv) -> Option<ConfigError> {
    let no_url = blank(env.livekit_url);
    let no_key = blank(env.livekit_api_key);
    let no_secret = blank(env.livekit_api_secret);
    if no_url && no_key && no_secret {
        None
    } else if no_url || no_key || no_secret {
        Some(ConfigError::IncompleteLivekit)
    } else if !env.livekit_url_allowed {
        Some(ConfigError::ForbiddenLivekitUrl)
    } else {
        None
    }
}

/// What is wrong with the voice server: it is configured whole or not at all.
pub fn validate_livekit_env(env: &StartupEnv) -> (r: Option<ConfigError>)
    ensures
        r == livekit_error(*env),
{
    let no_url = is_blank_setting(&env.livekit_url);
    let no_key = is_blank_setting(&env.livekit_api_key);
    let no_secret = is_blank_setting(&env.livekit_api_secret);
    if no_url && no_key && no_secret {
        None
    } else if no_url || no_key || no_secret {
        Some(ConfigError::IncompleteLivekit)
    } else if !env.livekit_url_allowed {
        Some(ConfigError::ForbiddenLivekitUrl)
    } else {
        None
    }
}

/// What is wrong with the keys, the origins and the database of a public server, up to its
/// ports.
pub open spec fn secrets_error(env: StartupEnv) -> Option<ConfigError> {
    if !env.jwt_key_ok {
        Some(ConfigError::InvalidJwtKey)
    } else if setting_len(env.token_hash_key) < 32 {
        Some(ConfigError::ShortTokenHashKey)
    } else if blank(env.origin) {
        Some(ConfigError::MissingOrigin)
    } else if insecure_origin(text_or_empty(env.origin)) is Some {
        Some(ConfigError::InsecureOrigin)
    } else if blank(env.turnstile_secret_key) {
        Some(ConfigError::MissingTurnstileKey)
    } else if setting_len(env.field_encryption_key) < 32 {
        Some(ConfigError::ShortFieldKey)
    } else if blank(env.database_url) {
        Some(ConfigError::MissingDatabaseUrl)
    } else if !proxy_trusted(opt_text(env.trust_proxy)) {
        Some(ConfigError::ProxyNotTrusted)
    } else {
        None
    }
}

/// What is wrong with the keys, the origins and the database of a public server, up to its
/// ports.
pub fn validate_secrets(env: &StartupEnv) -> (r: Option<ConfigError>)
    ensures
        r == secrets_error(*env),
{
    if !env.jwt_key_ok {
        Some(ConfigError::InvalidJwtKey)
    } else if len_of_setting(&env.token_hash_key) < 32 {
        Some(ConfigError::ShortTokenHashKey)
    } else if is_blank_setting(&env.origin) {
        Some(ConfigError::MissingOrigin)
    } else if first_insecure_origin(text::or_empty(&env.origin)).is_some() {
        Some(ConfigError::InsecureOrigin)
    } else if is_blank_setting(&env.turnstile_secret_key) {
        Some(ConfigError::MissingTurnstileKey)
    } else if len_of_setting(&env.field_encryption_key) < 32 {
        Some(ConfigError::ShortFieldKey)
    } else if is_blank_setting(&env.database_url) {
        Some(ConfigError::MissingDatabaseUrl)
    } else if !trusts_proxy(&env.trust_proxy) {
        Some(ConfigError::ProxyNotTrusted)
    } else {
        None
    }
}

/// What is wrong with what comes after the ports of a public server.
pub open spec fn addresses_error(env: StartupEnv) -> Option<ConfigError> {
    if setting_len(env.internal_proxy_secret) < 32 {
        Some(ConfigError::ShortProxySecret)
    } else if blank(env.frontend_url) {
        Some(ConfigError::MissingFrontendUrl)
    } else if !text::begins_with(trimmed(text_or_empty(env.frontend_url)), "https://"@) {
        Some(ConfigError::InsecureFrontendUrl)
    } else {
        None
    }
}

/// What is wrong with what comes after the ports of a public server.
pub fn validate_addresses(env: &StartupEnv) -> (r: Option<ConfigError>)
    ensures
        r == addresses_error(*env),
{
    if len_of_setting(&env.internal_proxy_secret) < 32 {
        Some(ConfigError::ShortProxySecret)
    } else if is_blank_setting(&env.frontend_url) {
        Some(ConfigError::MissingFrontendUrl)
    } else if !text::starts_with(
        text::trim(text::or_empty(&env.frontend_url)),
        "https://",
    ) {
        Some(ConfigError::InsecureFrontendUrl)
    } else {
        None
    }
}

/// The first that there is.
pub open spec fn first_error(a: Option<ConfigError>, b: Option<ConfigError>) -> Option<ConfigError> {
    match a {
        Some(e) => Some(e),
        None => b,
    }
}

/// What is wrong with the settings of a public server: the first thing in a fixed order.
pub open spec fn production_error(env: StartupEnv) -> Option<ConfigError> {
    first_error(
        secrets_error(env),
        first_error(
            ports_error(env.internal_http_port, env.port),
            first_error(
                addresses_error(env),
                first_error(
                    r2_error(env),
                    first_error(livekit_error(env), clamav_error(env.clamav_host, true)),
                ),
            ),
        ),
    )
}

fn check_production(env: &StartupEnv) -> (r: Option<ConfigError>)
    ensures
        r == production_error(*env),
{
    if let Some(e) = validate_secrets(env) {
        return Some(e);
    }
    if let Some(e) = validate_ports(&env.internal_http_port, &env.port) {
        return Some(e);
    }
    if let Some(e) = validate_addresses(env) {
        return Some(e);
    }
    if let Some(e) = validate_r2_env(env) {
        return Some(e);
    }
    if let Some(e) = validate_livekit_env(env) {
        return Some(e);
    }
    validate_clamav_env(&env.clamav_host, true)
}

/// Whether the server may start with its settings, and what is worth a warning.
pub open spec fn startup_check(env: StartupEnv) -> Result<StartupWarnings, ConfigError> {
    if looks_public(text_or_empty(env.origin)) && !env.production {
        Err(ConfigError::PublicOriginOutsideProduction)
    } else if env.production {
        match production_error(env) {
            Some(e) => Err(e),
            None => Ok(
                StartupWarnings {
                    report_secret_short: setting_len(env.security_report_secret) < 16,
                    registration_disabled: flag_on(opt_text(env.registration_disabled)),
                    quarantine_shared: false,
                    clamav_missing: false,
                    jwt_key_missing: false,
                },
            ),
        }
    } else {
        match r2_error(env) {
            Some(e) => Err(e),
            None => Ok(
                StartupWarnings {
                    report_secret_short: false,
                    registration_disabled: false,
                    quarantine_shared: quarantine_shared(env),
                    clamav_missing: blank(env.clamav_host),
                    jwt_key_missing: !env.jwt_key_ok,
                },
            ),
        }
    }
}

/// Whether the server may start with its settings, and what is worth a warning.
pub fn validate_startup_config(env: &StartupEnv) -> (r: Result<StartupWarnings, ConfigError>)
    ensures
        r == startup_check(*env),
{
    if origin_looks_like_production(text::or_empty(&env.origin)) && !env.production {
        Err(ConfigError::PublicOriginOutsideProduction)
    } else if env.production {
        match check_production(env) {
            Some(e) => Err(e),
            None => Ok(
                StartupWarnings {
                    report_secret_short: len_of_setting(&env.security_report_secret) < 16,
                    registration_disabled: is_registration_disabled(
                        &env.registration_disabled,
                    ),
                    quarantine_shared: false,
                    clamav_missing: false,
                    jwt_key_missing: false,
                },
            ),
        }
    } else {
        match validate_r2_env(env) {
            Some(e) => Err(e),
            None => Ok(
                StartupWarnings {
                    report_secret_short: false,
                    registration_disabled: false,
                    quarantine_shared: shares_quarantine(env),
                    clamav_missing: is_blank_setting(&env.clamav_host),
                    jwt_key_missing: !env.jwt_key_ok,
                },
            ),
        }
    }
}

/// A public server starts only with keys of full length, HTTPS everywhere, a trusted proxy,
/// different ports, a bucket of its own for unchecked files and a virus scanner.
pub proof fn public_servers_start_safely(env: StartupEnv)
    requires
        env.production,
        startup_check(env) is Ok,
    ensures
        env.jwt_key_ok,
        setting_len(env.token_hash_key) >= 32,
        setting_len(env.field_encryption_key) >= 32,
        setting_len(env.internal_proxy_secret) >= 32,
        insecure_origin(text_or_empty(env.origin)) is None,
        text::begins_with(trimmed(text_or_empty(env.frontend_url)), "https://"@),
        proxy_trusted(opt_text(env.trust_proxy)),
        port_in(env.internal_http_port) != public_port(env.port),
        !quarantine_shared(env),
        !blank(env.clamav_host),
{
}

/// A server with a public origin starts only in production.
pub proof fn public_origins_need_production(env: StartupEnv)
    requires
        looks_public(text_or_empty(env.origin)),
        !env.production,
    ensures
        startup_check(env) == Err::<StartupWarnings, ConfigError>(
            ConfigError::PublicOriginOutsideProduction,
        ),
{
}

/// The name of a setting of the file store.
pub open spec fn r2_setting_name_of(s: R2Setting) -> &'static str {
    match s {
        R2Setting::AccountId => "R2_ACCOUNT_ID",
        R2Setting::AccessKeyId => "R2_ACCESS_KEY_ID",
        R2Setting::SecretAccessKey => "R2_SECRET_ACCESS_KEY",
        R2Setting::PublicBucket => "R2_PUBLIC_BUCKET",
        R2Setting::PublicBaseUrl => "CDN_PUBLIC_BASE_URL",
    }
}

/// The name of a setting of the file store.
pub fn r2_setting_name(s: R2Setting) -> (r: &'static str)
    ensures
        r == r2_setting_name_of(s),
{
    match s {
        R2Setting::AccountId => "R2_ACCOUNT_ID",
        R2Setting::AccessKeyId => "R2_ACCESS_KEY_ID",
        R2Setting::SecretAccessKey => "R2_SECRET_ACCESS_KEY",
        R2Setting::PublicBucket => "R2_PUBLIC_BUCKET",
        R2Setting::PublicBaseUrl => "CDN_PUBLIC_BASE_URL",
    }
}

/// What is said when the server does not start. `origin` is the setting of that name.
pub open spec fn config_error_text(e: ConfigError, origin: Seq<char>) -> Seq<char> {
    match e {
        ConfigError::PublicOriginOutsideProduction =>
            "NODE_ENV must be \"production\" when ORIGIN is set to a public URL ("@ + origin + ")"@,
        ConfigError::InvalidJwtKey => "Invalid JWT_KEY for production"@,
        ConfigError::ShortTokenHashKey =>
            "TOKEN_HASH_KEY must be at least 32 characters in production"@,
        ConfigError::MissingOrigin => "ORIGIN must be set in production"@,
        ConfigError::InsecureOrigin => "ORIGIN entries must use HTTPS in production (got "@ + (
        match insecure_origin(origin) {
            Some(part) => part,
            None => Seq::empty(),
        }) + ")"@,
        ConfigError::MissingTurnstileKey => "TURNSTILE_SECRET_KEY must be set in production"@,
        ConfigError::ShortFieldKey =>
            "FIELD_ENCRYPTION_KEY must be at least 32 characters in production"@,
        ConfigError::MissingDatabaseUrl =>
            "Database URL must be set in production (DATABASE_URL, MONGODB_URI, or MONGO_URI)"@,
        ConfigError::ProxyNotTrusted =>
            "TRUST_PROXY must be enabled (true) in production when behind a reverse proxy"@,
        ConfigError::MissingInternalPort => "INTERNAL_HTTP_PORT must be set in production"@,
        ConfigError::InvalidInternalPort =>
            "INTERNAL_HTTP_PORT must be a valid port number (1-65535)"@,
        ConfigError::InvalidPort => "PORT must be a valid port number (1-65535)"@,
        ConfigError::SamePorts { port } => "INTERNAL_HTTP_PORT ("@ + text::decimal(port as nat)
            + ") must differ from PORT ("@ + text::decimal(port as nat)
            + ") — the public server and the internal actix server cannot share a port"@,
        ConfigError::ReservedInternalPort { public_port } =>
            "INTERNAL_HTTP_PORT=6701 conflicts with Caddy on :6701 (tunnel → Caddy:6701 → Axum:"@
            + text::decimal(public_port as nat) + "). Set INTERNAL_HTTP_PORT=6702"@,
        ConfigError::ShortProxySecret =>
            "INTERNAL_PROXY_SECRET must be at least 32 characters in production"@,
        ConfigError::MissingFrontendUrl => "FRONTEND_URL must be set in production"@,
        ConfigError::InsecureFrontendUrl => "FRONTEND_URL must use HTTPS in production"@,
        ConfigError::MissingR2(s) => r2_setting_name_of(s)@
            + " must be set — uploads use Cloudflare R2 (see backend/docs/R2_SETUP.md)"@,
        ConfigError::SharedQuarantine =>
            "R2_QUARANTINE_BUCKET must be a separate private bucket in production (not the same as R2_PUBLIC_BUCKET) — otherwise pending files are on the CDN"@,
        ConfigError::IncompleteLivekit =>
            "LIVEKIT_URL, LIVEKIT_API_KEY, and LIVEKIT_API_SECRET must all be set when voice is enabled"@,
        ConfigError::ForbiddenLivekitUrl =>
            "LIVEKIT_URL is not allowed: must be wss:// or https:// with a public host"@,
        ConfigError::MissingClamav =>
            "CLAMAV_HOST must be set in production (e.g. 127.0.0.1:3310) — attachments stay in quarantine until clamd scans them"@,
    }
}

/// What is said when the server does not start.
pub fn config_error_message(e: ConfigError, origin: &str) -> (r: String)
    ensures
        r@ == config_error_text(e, origin@),
{
    match e {
        ConfigError::PublicOriginOutsideProduction =>
            "NODE_ENV must be \"production\" when ORIGIN is set to a public URL (".to_owned().concat(
            origin,
        ).concat(")"),
        ConfigError::InvalidJwtKey => "Invalid JWT_KEY for production".to_owned(),
        ConfigError::ShortTokenHashKey =>
            "TOKEN_HASH_KEY must be at least 32 characters in production".to_owned(),
        ConfigError::MissingOrigin => "ORIGIN must be set in production".to_owned(),
        ConfigError::InsecureOrigin => {
            let part = first_insecure_origin(origin);
            "ORIGIN entries must use HTTPS in production (got ".to_owned().concat(
                text::or_empty(&part),
            ).concat(")")
        },
        ConfigError::MissingTurnstileKey =>
            "TURNSTILE_SECRET_KEY must be set in production".to_owned(),
        ConfigError::ShortFieldKey =>
            "FIELD_ENCRYPTION_KEY must be at least 32 characters in production".to_owned(),
        ConfigError::MissingDatabaseUrl =>
            "Database URL must be set in production (DATABASE_URL, MONGODB_URI, or MONGO_URI)".to_owned(),
        ConfigError::ProxyNotTrusted =>
            "TRUST_PROXY must be enabled (true) in production when behind a reverse proxy".to_owned(),
        ConfigError::MissingInternalPort =>
            "INTERNAL_HTTP_PORT must be set in production".to_owned(),
        ConfigError::InvalidInternalPort =>
            "INTERNAL_HTTP_PORT must be a valid port number (1-65535)".to_owned(),
        ConfigError::InvalidPort => "PORT must be a valid port number (1-65535)".to_owned(),
        ConfigError::SamePorts { port } => {
            let mut out = "INTERNAL_HTTP_PORT (".to_owned();
            text::push_decimal(&mut out, port as u64);
            out = out.concat(") must differ from PORT (");
            text::push_decimal(&mut out, port as u64);
            out.concat(
                ") — the public server and the internal actix server cannot share a port",
            )
        },
        ConfigError::ReservedInternalPort { public_port } => {
            let mut out =
                "INTERNAL_HTTP_PORT=6701 conflicts with Caddy on :6701 (tunnel → Caddy:6701 → Axum:".to_owned();
            text::push_decimal(&mut out, public_port as u64);
            out.concat("). Set INTERNAL_HTTP_PORT=6702")
        },
        ConfigError::ShortProxySecret =>
            "INTERNAL_PROXY_SECRET must be at least 32 characters in production".to_owned(),
        ConfigError::MissingFrontendUrl => "FRONTEND_URL must be set in production".to_owned(),
        ConfigError::InsecureFrontendUrl =>
            "FRONTEND_URL must use HTTPS in production".to_owned(),
        ConfigError::MissingR2(s) => r2_setting_name(s).to_owned().concat(
            " must be set — uploads use Cloudflare R2 (see backend/docs/R2_SETUP.md)",
        ),
        ConfigError::SharedQuarantine =>
            "R2_QUARANTINE_BUCKET must be a separate private bucket in production (not the same as R2_PUBLIC_BUCKET) — otherwise pending files are on the CDN".to_owned(),
        ConfigError::IncompleteLivekit =>
            "LIVEKIT_URL, LIVEKIT_API_KEY, and LIVEKIT_API_SECRET must all be set when voice is enabled".to_owned(),
        ConfigError::ForbiddenLivekitUrl =>
            "LIVEKIT_URL is not allowed: must be wss:// or https:// with a public host".to_owned(),
        ConfigError::MissingClamav =>
            "CLAMAV_HOST must be set in production (e.g. 127.0.0.1:3310) — attachments stay in quarantine until clamd scans them".to_owned(),
    }
}

/// A setting is blank exactly if nothing but white space is in it, or it is not there.
pub proof fn settings_are_blank_without_text(s: Option<String>)
    ensures
        s is None ==> blank(s),
        s is Some ==> (blank(s) <==> trimmed(s->0@).len() == 0),
        s is Some ==> setting_len(s) == byte_len(trimmed(s->0@)),
        s is Some && trimmed(s->0@).len() > 0 ==> (public_port(s) is Some <==> number_in(
            trimmed(s->0@),
            65535,
        ) is Some),
        blank(s) ==> public_port(s) == Some(6700u16),
        !blank(s) ==> public_port(s) == port_in(s),
        s is Some && number_in(trimmed(s->0@), 65535) is Some ==> port_in(s) is Some && port_in(s)->0
            == number_in(trimmed(s->0@), 65535)->0,
        s is Some && number_in(trimmed(s->0@), 65535) is None ==> port_in(s) is None,
{
}

/// An origin looks public exactly if it names neither of the two addresses of this machine.
pub proof fn local_origins_are_not_public(origin: Seq<char>)
    ensures
        looks_public(origin) <==> !(text::occurs_in(text::ascii_lower(origin), "127.0.0.1"@)
            || text::occurs_in(text::ascii_lower(origin), "::1"@)),
{
}

/// An entry of the list of origins is in order if nothing is left of it without white space and
/// slashes at its end, or it begins with HTTPS; the first that is not is the one that is named.
pub proof fn the_first_insecure_origin_is_named(list: Seq<Seq<char>>, i: int, k: int)
    requires
        0 <= i <= k < list.len(),
        forall|j: int| i <= j < k ==> entry_secure(#[trigger] list[j]),
    ensures
        entry_secure(list[k]) <==> text::without_trailing(trimmed(list[k]), '/').len() == 0
            || text::begins_with(text::without_trailing(trimmed(list[k]), '/'), "https://"@),
        !entry_secure(list[k]) ==> insecure_from(list, i) == Some(
            text::without_trailing(trimmed(list[k]), '/'),
        ),
        entry_secure(list[k]) && k == list.len() - 1 ==> insecure_from(list, i) is None,
    decreases k - i,
{
    reveal_with_fuel(insecure_from, 2);
    if i < k {
        the_first_insecure_origin_is_named(list, i + 1, k);
        assert(entry_secure(list[i]));
    }
}

/// The proxy is trusted exactly if the setting says so in one of three ways.
pub proof fn only_three_words_trust_the_proxy(v: Option<Seq<char>>)
    ensures
        v is None ==> !proxy_trusted(v),
        v is Some ==> (proxy_trusted(v) <==> trimmed(v->0) == "1"@ || text::ascii_lower(
            trimmed(v->0),
        ) == text::ascii_lower("true"@) || text::ascii_lower(trimmed(v->0)) == text::ascii_lower(
            "yes"@,
        )),
{
}

/// Ports are in order exactly if the internal one is set, a number above zero, another one than the
/// public one and not the one that is reserved, and the public one is a number; each fault is named.
pub proof fn port_faults_are_named(internal: Option<String>, public: Option<String>)
    ensures
        ({
            let e = ports_error(internal, public);
            let given = port_in(internal);
            let bad = given is None || given->0 == 0;
            let other = public_port(public);
            &&& e == Some(ConfigError::MissingInternalPort) <==> blank(internal)
            &&& e == Some(ConfigError::InvalidInternalPort) <==> !blank(internal) && bad
            &&& e == Some(ConfigError::InvalidPort) <==> !blank(internal) && !bad && other is None
            &&& e is Some && e->0 is SamePorts <==> !blank(internal) && !bad && given == other
            &&& e is Some && e->0 is SamePorts ==> e->0->port == given->0
            &&& e is Some && e->0 is ReservedInternalPort <==> !blank(internal) && !bad && other
                is Some && given != other && given->0 == 6701
            &&& e is Some && e->0 is ReservedInternalPort ==> e->0->public_port == other->0
            &&& e is None <==> !blank(internal) && !bad && other is Some && given != other && given->0
                != 6701
        }),
{
}

/// The file store is in order exactly if all of its five settings are there and, in production,
/// unchecked files have a bucket of their own; the first fault is named.
pub proof fn file_store_faults_are_named(env: StartupEnv)
    ensures
        ({
            let e = r2_error(env);
            let a = blank(env.r2_account_id);
            let b = blank(env.r2_access_key_id);
            let c = blank(env.r2_secret_access_key);
            let d = blank(env.r2_public_bucket);
            let f = blank(env.cdn_public_base_url);
            let q = trimmed(text_or_empty(env.r2_quarantine_bucket));
            let shared = q.len() == 0 || q == trimmed(text_or_empty(env.r2_public_bucket));
            &&& e == Some(ConfigError::MissingR2(R2Setting::AccountId)) <==> a
            &&& e == Some(ConfigError::MissingR2(R2Setting::AccessKeyId)) <==> !a && b
            &&& e == Some(ConfigError::MissingR2(R2Setting::SecretAccessKey)) <==> !a && !b && c
            &&& e == Some(ConfigError::MissingR2(R2Setting::PublicBucket)) <==> !a && !b && !c && d
            &&& e == Some(ConfigError::MissingR2(R2Setting::PublicBaseUrl)) <==> !a && !b && !c && !d
                && f
            &&& e == Some(ConfigError::SharedQuarantine) <==> !(a || b || c || d || f) && shared
                && env.production
            &&& e is None <==> !(a || b || c || d || f) && !(shared && env.production)
            &&& quarantine_shared(env) <==> shared
        }),
{
}

/// The virus scanner may be missing only where it is not required, and the voice server is there
/// whole, under an address that is allowed, or not at all.
pub proof fn scanner_and_voice_faults_are_named(env: StartupEnv, required: bool)
    ensures
        clamav_error(env.clamav_host, required) == Some(ConfigError::MissingClamav) <==> required
            && blank(env.clamav_host),
        clamav_error(env.clamav_host, required) is None <==> !required || !blank(env.clamav_host),
        ({
            let e = livekit_error(env);
            let all = !blank(env.livekit_url) && !blank(env.livekit_api_key) && !blank(
                env.livekit_api_secret,
            );
            let none = blank(env.livekit_url) && blank(env.livekit_api_key) && blank(
                env.livekit_api_secret,
            );
            &&& e == Some(ConfigError::IncompleteLivekit) <==> !all && !none
            &&& e == Some(ConfigError::ForbiddenLivekitUrl) <==> all && !env.livekit_url_allowed
            &&& e is None <==> none || (all && env.livekit_url_allowed)
        }),
{
}

/// The keys, origins, database and proxy of a public server are in order exactly if each of them
/// is; the first fault is named.
pub proof fn secret_faults_are_named(env: StartupEnv)
    ensures
        ({
            let e = secrets_error(env);
            let a = !env.jwt_key_ok;
            let b = setting_len(env.token_hash_key) < 32;
            let c = blank(env.origin);
            let d = insecure_from(text::parts(text_or_empty(env.origin), ','), 0) is Some;
            let f = blank(env.turnstile_secret_key);
            let g = setting_len(env.field_encryption_key) < 32;
            let h = blank(env.database_url);
            let i = !proxy_trusted(opt_text(env.trust_proxy));
            &&& e == Some(ConfigError::InvalidJwtKey) <==> a
            &&& e == Some(ConfigError::ShortTokenHashKey) <==> !a && b
            &&& e == Some(ConfigError::MissingOrigin) <==> !a && !b && c
            &&& e == Some(ConfigError::InsecureOrigin) <==> !a && !b && !c && d
            &&& e == Some(ConfigError::MissingTurnstileKey) <==> !a && !b && !c && !d && f
            &&& e == Some(ConfigError::ShortFieldKey) <==> !a && !b && !c && !d && !f && g
            &&& e == Some(ConfigError::MissingDatabaseUrl) <==> !a && !b && !c && !d && !f && !g && h
            &&& e == Some(ConfigError::ProxyNotTrusted) <==> !a && !b && !c && !d && !f && !g && !h
                && i
            &&& e is None <==> !(a || b || c || d || f || g || h || i)
        }),
{
}

/// The secret of the internal proxy has at least 32 bytes and the address of the front end uses
/// HTTPS, or the first fault is named.
pub proof fn address_faults_are_named(env: StartupEnv)
    ensures
        ({
            let e = addresses_error(env);
            let short = setting_len(env.internal_proxy_secret) < 32;
            let missing = blank(env.frontend_url);
            let secure = text::begins_with(trimmed(text_or_empty(env.frontend_url)), "https://"@);
            &&& e == Some(ConfigError::ShortProxySecret) <==> short
            &&& e == Some(ConfigError::MissingFrontendUrl) <==> !short && missing
            &&& e == Some(ConfigError::InsecureFrontendUrl) <==> !short && !missing && !secure
            &&& e is None <==> !short && !missing && secure
        }),
{
}

/// A server for development with a local origin needs only its file store; a public one needs
/// everything. Whatever keeps it from starting is the first fault in a fixed order.
pub proof fn servers_start_if_nothing_is_wrong(env: StartupEnv)
    ensures
        ({
            let r = startup_check(env);
            let a = secrets_error(env);
            let b = ports_error(env.internal_http_port, env.port);
            let c = addresses_error(env);
            let d = r2_error(env);
            let e = livekit_error(env);
            let f = clamav_error(env.clamav_host, true);
            let public = looks_public(text_or_empty(env.origin));
            &&& !env.production ==> (r is Ok <==> !public && d is None)
            &&& env.production ==> (r is Ok <==> a is None && b is None && c is None && d is None && e
                is None && f is None)
            &&& !env.production && !public && d is Some ==> r->Err_0 == d->0
            &&& env.production && a is Some ==> r->Err_0 == a->0
            &&& env.production && a is None && b is Some ==> r->Err_0 == b->0
            &&& env.production && a is None && b is None && c is Some ==> r->Err_0 == c->0
            &&& env.production && a is None && b is None && c is None && d is Some ==> r->Err_0
                == d->0
            &&& env.production && a is None && b is None && c is None && d is None && e is Some
                ==> r->Err_0 == e->0
            &&& env.production && a is None && b is None && c is None && d is None && e is None && f
                is Some ==> r->Err_0 == f->0
        }),
{
}

/// A server that starts warns in production of a short secret for reports and of closed
/// registration, and in development of what a public server could not do without.
pub proof fn warnings_fit_the_server(env: StartupEnv)
    requires
        startup_check(env) is Ok,
    ensures
        ({
            let w = startup_check(env)->Ok_0;
            &&& w.report_secret_short <==> env.production && setting_len(env.security_report_secret)
                < 16
            &&& w.registration_disabled <==> env.production && flag_on(
                opt_text(env.registration_disabled),
            )
            &&& w.quarantine_shared <==> !env.production && quarantine_shared(env)
            &&& w.clamav_missing <==> !env.production && blank(env.clamav_host)
            &&& w.jwt_key_missing <==> !env.production && !env.jwt_key_ok
        }),
{
}

/// Each setting of the file store is named as it is set.
pub proof fn file_store_settings_have_their_names(s: R2Setting)
    ensures
        s is AccountId ==> r2_setting_name_of(s) == "R2_ACCOUNT_ID",
        s is AccessKeyId ==> r2_setting_name_of(s) == "R2_ACCESS_KEY_ID",
        s is SecretAccessKey ==> r2_setting_name_of(s) == "R2_SECRET_ACCESS_KEY",
        s is PublicBucket ==> r2_setting_name_of(s) == "R2_PUBLIC_BUCKET",
        s is PublicBaseUrl ==> r2_setting_name_of(s) == "CDN_PUBLIC_BASE_URL",
{
}

/// Each fault is told in words that name the setting it is about.
pub proof fn faults_name_their_setting(e: ConfigError, origin: Seq<char>)
    ensures
        e is InvalidJwtKey ==> config_error_text(e, origin) == "Invalid JWT_KEY for production"@,
        e is ShortTokenHashKey ==> config_error_text(e, origin) == "TOKEN_HASH_KEY must be at least 32 characters in production"@,
        e is MissingOrigin ==> config_error_text(e, origin) == "ORIGIN must be set in production"@,
        e is MissingTurnstileKey ==> config_error_text(e, origin) == "TURNSTILE_SECRET_KEY must be set in production"@,
        e is ShortFieldKey ==> config_error_text(e, origin) == "FIELD_ENCRYPTION_KEY must be at least 32 characters in production"@,
        e is MissingDatabaseUrl ==> config_error_text(e, origin) == "Database URL must be set in production (DATABASE_URL, MONGODB_URI, or MONGO_URI)"@,
        e is ProxyNotTrusted ==> config_error_text(e, origin) == "TRUST_PROXY must be enabled (true) in production when behind a reverse proxy"@,
        e is MissingInternalPort ==> config_error_text(e, origin) == "INTERNAL_HTTP_PORT must be set in production"@,
        e is InvalidInternalPort ==> config_error_text(e, origin) == "INTERNAL_HTTP_PORT must be a valid port number (1-65535)"@,
        e is InvalidPort ==> config_error_text(e, origin) == "PORT must be a valid port number (1-65535)"@,
        e is ShortProxySecret ==> config_error_text(e, origin) == "INTERNAL_PROXY_SECRET must be at least 32 characters in production"@,
        e is MissingFrontendUrl ==> config_error_text(e, origin) == "FRONTEND_URL must be set in production"@,
        e is InsecureFrontendUrl ==> config_error_text(e, origin) == "FRONTEND_URL must use HTTPS in production"@,
        e is SharedQuarantine ==> config_error_text(e, origin) == "R2_QUARANTINE_BUCKET must be a separate private bucket in production (not the same as R2_PUBLIC_BUCKET) — otherwise pending files are on the CDN"@,
        e is IncompleteLivekit ==> config_error_text(e, origin) == "LIVEKIT_URL, LIVEKIT_API_KEY, and LIVEKIT_API_SECRET must all be set when voice is enabled"@,
        e is ForbiddenLivekitUrl ==> config_error_text(e, origin) == "LIVEKIT_URL is not allowed: must be wss:// or https:// with a public host"@,
        e is MissingClamav ==> config_error_text(e, origin) == "CLAMAV_HOST must be set in production (e.g. 127.0.0.1:3310) — attachments stay in quarantine until clamd scans them"@,
        e is PublicOriginOutsideProduction ==> config_error_text(e, origin)
            == "NODE_ENV must be \"production\" when ORIGIN is set to a public URL ("@ + origin + ")"@,
        e is InsecureOrigin && insecure_origin(origin) is Some ==> config_error_text(e, origin)
            == "ORIGIN entries must use HTTPS in production (got "@ + insecure_origin(origin)->0
            + ")"@,
        e is SamePorts ==> config_error_text(e, origin) == "INTERNAL_HTTP_PORT ("@ + text::decimal(
            e->port as nat,
        ) + ") must differ from PORT ("@ + text::decimal(e->port as nat)
            + ") — the public server and the internal actix server cannot share a port"@,
        e is ReservedInternalPort ==> config_error_text(e, origin)
            == "INTERNAL_HTTP_PORT=6701 conflicts with Caddy on :6701 (tunnel → Caddy:6701 → Axum:"@
            + text::decimal(e->public_port as nat) + "). Set INTERNAL_HTTP_PORT=6702"@,
        e is MissingR2 ==> config_error_text(e, origin) == r2_setting_name_of(e->0)@
            + " must be set — uploads use Cloudflare R2 (see backend/docs/R2_SETUP.md)"@,
{
}

} // verus!
