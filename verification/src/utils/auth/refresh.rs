//! Refresh tokens: issuing, rotating, revoking, and the sessions that they stand for.
use vstd::prelude::*;
use crate::answers::Lookup;
use crate::ids::{hex_encode, hex_text, ObjectId};
use crate::model::refresh_tokens::{after_revoking, bson_expiry, family_active, RefreshToken,
    TokenFilter};
use crate::model::update::{is_update, FieldView, Update, UserField};
use crate::model::users::User;
use crate::text::{self, opt_text, trimmed};
use crate::time::{iso, iso_opt, iso_opt_of, rfc3339};

verus! {

/// The name of the cookie with the refresh token.
pub const REFRESH_COOKIE: &'static str = "refreshToken";

/// The longest refresh token that is looked up, in bytes.
pub const MAX_RAW_TOKEN_BYTES: usize = 128;

/// A refresh token that was issued.
pub struct IssuedRefreshToken {
    pub raw_token: String,
    pub family_id: String,
}

/// A session as it is shown to its user.
pub struct UserSessionInfo {
    pub id: String,
    pub label: String,
    pub browser: String,
    pub os: String,
    pub user_agent: Option<String>,
    pub is_known: bool,
    pub is_current: bool,
    pub created_at: Option<String>,
    pub last_used_at: Option<String>,
}

/// What a client tells about itself.
pub struct SessionClientMetadata {
    pub fingerprint: Option<String>,
    pub user_agent: String,
    pub browser: String,
    pub os: String,
    pub label: String,
}

/// Calls `rand::Rng::fill` of the generator of `rand::thread_rng` on 32 bytes. Nothing is
/// said of the bytes: they are random.
#[verifier::external_body]
fn random_bytes() -> [u8; 32] {
    let mut bytes = [0u8; 32];
    rand::Rng::fill(&mut rand::thread_rng(), &mut bytes);
    bytes
}

/// Whether a character is a lower-case hexadecimal digit.
pub open spec fn is_lower_hex(c: char) -> bool {
    ('0' <= c && c <= '9') || ('a' <= c && c <= 'f')
}

/// Whether a text has the form of a random identifier: 32 lower-case hexadecimal digits in
/// groups of 8, 4, 4, 4 and 12 with hyphens between them, where the third group starts with the
/// version 4 and the fourth with one of the digits of the variant.
pub open spec fn is_random_uuid(s: Seq<char>) -> bool {
    &&& s.len() == 36
    &&& forall|i: int|
        0 <= i < 36 ==> if i == 8 || i == 13 || i == 18 || i == 23 {
            #[trigger] s[i] == '-'
        } else {
            is_lower_hex(s[i])
        }
    &&& s[14] == '4'
    &&& s[19] == '8' || s[19] == '9' || s[19] == 'a' || s[19] == 'b'
}

/// Calls `uuid::Uuid::new_v4` and its `to_string`: a random identifier in its hyphenated
/// lower-case text. Which of them it is depends on chance.
#[verifier::external_body]
fn random_uuid() -> (r: String)
    ensures
        is_random_uuid(r@),
{
    uuid::Uuid::new_v4().to_string()
}

/// A refresh token made of random bytes.
pub fn raw_token_of(bytes: &[u8]) -> (r: String)
    ensures
        r@ == hex_text(bytes@),
{
    hex_encode(bytes)
}

/// A new refresh token: 64 hexadecimal digits.
pub fn generate_raw_token() -> (r: String)
    ensures
        r@.len() == 64,
        exists|bytes: Seq<u8>| bytes.len() == 32 && r@ == #[trigger] hex_text(bytes),
{
    let bytes = random_bytes();
    let r = raw_token_of(&bytes);
    proof {
        assert(bytes@.len() == 32);
        assert(r@ == hex_text(bytes@));
    }
    r
}

/// A new name for a family of tokens: a random identifier.
pub fn generate_family_id() -> (r: String)
    ensures
        is_random_uuid(r@),
{
    random_uuid()
}

/// Whether a text can be a refresh token at all: not empty and at most 128 bytes long.
pub open spec fn plausible_token(raw: Seq<char>) -> bool {
    raw.len() > 0 && text::byte_len(raw) <= MAX_RAW_TOKEN_BYTES
}

/// Whether a text can be a refresh token at all.
pub fn is_plausible_token(raw: &str) -> (r: bool)
    ensures
        r == plausible_token(raw@),
{
    !raw.is_empty() && text::len_bytes(raw) <= MAX_RAW_TOKEN_BYTES
}

/// The hash within a stored hash: what follows the version, if one is named.
pub open spec fn stored_hex_of(token_hash: Seq<char>) -> Seq<char> {
    if text::begins_with(token_hash, "v2:"@) {
        token_hash.skip("v2:"@.len() as int)
    } else {
        token_hash
    }
}

/// The hash within a stored hash.
pub fn stored_hex(token_hash: &str) -> (r: &str)
    ensures
        r@ == stored_hex_of(token_hash@),
{
    match text::strip_prefix(token_hash, "v2:") {
        Some(rest) => rest,
        None => token_hash,
    }
}

/// What is known so far about looking up a refresh token.
#[derive(Clone, Copy, Debug)]
pub struct FindFacts {
    /// Whether the token could be hashed.
    pub hashed: Option<bool>,
    /// What was found under the hash.
    pub current: Option<Lookup>,
    /// Whether what was found matches the token; none within it if that could not be checked.
    pub verified: Option<Option<bool>>,
    /// What was found under the old kind of hash.
    pub legacy: Option<Lookup>,
}

/// What to do next about looking up a refresh token.
#[derive(Clone, Copy, Debug, PartialEq, Eq, Structural)]
pub enum FindNext {
    Hash,
    FindCurrent,
    Verify,
    FindLegacy,
    /// It is the one that was found under the hash.
    Current,
    /// It is the one that was found under the old kind of hash.
    Legacy,
    NotFound,
    Failed,
}

/// What to do next about looking up a refresh token: under its hash, where it has to match,
/// and then under the old kind of hash.
pub open spec fn find_stored_refresh_token_next(facts: FindFacts) -> FindNext {
    match (facts.hashed, facts.current) {
        (None, _) => FindNext::Hash,
        (Some(false), _) => FindNext::Failed,
        (Some(true), None) => FindNext::FindCurrent,
        (Some(true), Some(Lookup::Failed)) => FindNext::Failed,
        (Some(true), Some(Lookup::Found)) => match facts.verified {
            None => FindNext::Verify,
            Some(None) => FindNext::Failed,
            Some(Some(true)) => FindNext::Current,
            Some(Some(false)) => FindNext::NotFound,
        },
        (Some(true), Some(Lookup::Missing)) => match facts.legacy {
            None => FindNext::FindLegacy,
            Some(Lookup::Found) => FindNext::Legacy,
            Some(Lookup::Missing) => FindNext::NotFound,
            Some(Lookup::Failed) => FindNext::Failed,
        },
    }
}

/// What to do next about looking up a refresh token: under its hash, where it has to match,
/// and then under the old kind of hash.
pub fn find_stored_refresh_token(facts: &FindFacts) -> (r: FindNext)
    ensures
        r == find_stored_refresh_token_next(*facts),
{
    match (facts.hashed, facts.current) {
        (None, _) => FindNext::Hash,
        (Some(false), _) => FindNext::Failed,
        (Some(true), None) => FindNext::FindCurrent,
        (Some(true), Some(Lookup::Failed)) => FindNext::Failed,
        (Some(true), Some(Lookup::Found)) => match facts.verified {
            None => FindNext::Verify,
            Some(None) => FindNext::Failed,
            Some(Some(true)) => FindNext::Current,
            Some(Some(false)) => FindNext::NotFound,
        },
        (Some(true), Some(Lookup::Missing)) => match facts.legacy {
            None => FindNext::FindLegacy,
            Some(Lookup::Found) => FindNext::Legacy,
            Some(Lookup::Missing) => FindNext::NotFound,
            Some(Lookup::Failed) => FindNext::Failed,
        },
    }
}

/// A token that could be hashed, is found under that hash and matches is the stored one; and only
/// such a token is. Only where nothing is stored under the hash, the old kind of hash decides. A
/// token counts as unknown only if the store said so, or if what is under its hash does not match;
/// whatever could not be found out makes the lookup fail.
pub proof fn a_token_is_found_where_it_is_stored(facts: FindFacts)
    ensures
        find_stored_refresh_token_next(facts) is Current <==> facts.hashed == Some(true)
            && facts.current == Some(Lookup::Found) && facts.verified == Some(Some(true)),
        find_stored_refresh_token_next(facts) is Legacy <==> facts.hashed == Some(true)
            && facts.current == Some(Lookup::Missing) && facts.legacy == Some(Lookup::Found),
        find_stored_refresh_token_next(facts) is NotFound <==> facts.hashed == Some(true) && ((
        facts.current == Some(Lookup::Found) && facts.verified == Some(Some(false))) || (
        facts.current == Some(Lookup::Missing) && facts.legacy == Some(Lookup::Missing))),
        find_stored_refresh_token_next(facts) is Failed <==> facts.hashed == Some(false) || (
        facts.hashed == Some(true) && (facts.current == Some(Lookup::Failed) || (facts.current
            == Some(Lookup::Found) && facts.verified == Some(None::<bool>)) || (facts.current == Some(
            Lookup::Missing,
        ) && facts.legacy == Some(Lookup::Failed)))),
{
}

/// A lookup asks for what is missing and decides the answer, in this order, and never asks twice:
/// the hash, the store, and then the match or the old kind of hash.
pub proof fn token_lookups_ask_in_order(facts: FindFacts)
    ensures
        find_stored_refresh_token_next(facts) is Hash <==> facts.hashed is None,
        find_stored_refresh_token_next(facts) is FindCurrent <==> facts.hashed == Some(true)
            && facts.current is None,
        find_stored_refresh_token_next(facts) is Verify <==> facts.hashed == Some(true)
            && facts.current == Some(Lookup::Found) && facts.verified is None,
        find_stored_refresh_token_next(facts) is FindLegacy <==> facts.hashed == Some(true)
            && facts.current == Some(Lookup::Missing) && facts.legacy is None,
{
}

/// A token that was found under its hash counts only if it matches.
pub proof fn found_tokens_match(facts: FindFacts)
    ensures
        find_stored_refresh_token_next(facts) is Current ==> facts.current == Some(Lookup::Found)
            && facts.verified == Some(Some(true)),
        facts.current == Some(Lookup::Found) && facts.verified == Some(Some(false)) ==> !(
        find_stored_refresh_token_next(facts) is Legacy),
{
}

/// The browser of sessions that do not name one.
pub open spec fn unknown_browser() -> Seq<char> {
    "Nieznana przeglądarka"@
}

/// The browser that a token names, before it is normalised.
pub fn named_browser(token: &RefreshToken) -> (r: String)
    ensures
        r@ == (match token.client_browser {
            Some(b) => b@,
            None => unknown_browser(),
        }),
{
    match &token.client_browser {
        Some(b) => b.clone(),
        None => "Nieznana przeglądarka".to_owned(),
    }
}

/// Whether the browser of a session is known; `browser` is its normalised name.
pub open spec fn browser_known(token: RefreshToken, browser: Seq<char>) -> bool {
    token.client_browser is Some && browser != unknown_browser()
}

/// What a session is called.
pub struct SessionLabel {
    pub label: String,
    pub browser: String,
    pub os: String,
    pub is_known: bool,
}

/// What a session is called: by its system. `browser` and `os` are the normalised names.
pub fn session_label(token: &RefreshToken, browser: &str, os: &str) -> (r: SessionLabel)
    ensures
        r.label@ == os@,
        r.browser@ == browser@,
        r.os@ == os@,
        r.is_known == browser_known(*token, browser@),
{
    SessionLabel {
        label: os.to_owned(),
        browser: browser.to_owned(),
        os: os.to_owned(),
        is_known: token.client_browser.is_some() && !text::same_text(
            browser,
            "Nieznana przeglądarka",
        ),
    }
}

/// The normalised names of the browser and the system of a session.
pub struct ClientNames {
    pub browser: String,
    pub os: String,
}

/// A text that is not blank.
pub open spec fn not_blank(s: Option<String>) -> Option<Seq<char>> {
    match s {
        Some(t) => if trimmed(t@).len() > 0 {
            Some(t@)
        } else {
            None
        },
        None => None,
    }
}

/// A text that is not blank, as it is.
pub fn keep_not_blank(s: &Option<String>) -> (r: Option<String>)
    ensures
        opt_text(r) == not_blank(*s),
{
    match s {
        Some(t) => if text::is_blank(t) {
            None
        } else {
            Some(t.clone())
        },
        None => None,
    }
}

/// Whether a session is shown as its token says.
pub open spec fn shows_session(
    info: UserSessionInfo,
    token: RefreshToken,
    names: ClientNames,
    current: Option<Seq<char>>,
) -> bool {
    &&& info.id@ == token.family_id@
    &&& info.label@ == names.os@
    &&& info.browser@ == names.browser@
    &&& info.os@ == names.os@
    &&& opt_text(info.user_agent) == not_blank(token.client_user_agent)
    &&& info.is_known == browser_known(token, names.browser@)
    &&& info.is_current == (current == Some(token.family_id@))
    &&& opt_text(info.created_at) == rfc3339(token.created_at)
    &&& opt_text(info.last_used_at) == (match iso_opt_of(token.last_used_at) {
        Some(t) => Some(t),
        None => rfc3339(token.created_at),
    })
}

/// The families of tokens.
pub open spec fn families(tokens: Seq<RefreshToken>) -> Seq<Seq<char>> {
    tokens.map_values(|t: RefreshToken| t.family_id@)
}

/// The positions at which texts come for the first time.
pub open spec fn firsts(s: Seq<Seq<char>>) -> Seq<int>
    decreases s.len(),
{
    if s.len() == 0 {
        Seq::empty()
    } else if s.drop_last().contains(s.last()) {
        firsts(s.drop_last())
    } else {
        firsts(s.drop_last()).push(s.len() - 1)
    }
}

fn family_seen(tokens: &Vec<RefreshToken>, upto: usize, family: &str) -> (r: bool)
    requires
        upto <= tokens.len(),
    ensures
        r == families(tokens@).take(upto as int).contains(family@),
{
    let ghost s = families(tokens@).take(upto as int);
    let mut i: usize = 0;
    while i < upto
        invariant
            i <= upto <= tokens.len(),
            s == families(tokens@).take(upto as int),
            forall|k: int| 0 <= k < i ==> s[k] != family@,
        decreases upto - i,
    {
        proof {
            assert(s[i as int] == tokens@[i as int].family_id@);
        }
        if text::same_text(&tokens[i].family_id, family) {
            return true;
        }
        i = i + 1;
    }
    false
}

fn or_created(last_used: Option<String>, created: &Option<String>) -> (r: Option<String>)
    ensures
        opt_text(r) == (match opt_text(last_used) {
            Some(t) => Some(t),
            None => opt_text(*created),
        }),
{
    match last_used {
        Some(t) => Some(t),
        None => text::copy_opt(created),
    }
}

fn is_family(current: &Option<String>, family: &str) -> (r: bool)
    ensures
        r == (opt_text(*current) == Some(family@)),
{
    match current {
        Some(c) => text::same_text(c, family),
        None => false,
    }
}

/// The sessions of a user: one for each family, by its first token. `tokens` are the active
/// tokens, `names` the normalised names for each of them.
pub fn list_user_sessions(
    tokens: &Vec<RefreshToken>,
    names: &Vec<ClientNames>,
    current_family_id: &Option<String>,
) -> (r: Vec<UserSessionInfo>)
    requires
        tokens.len() == names.len(),
    ensures
        r@.len() == firsts(families(tokens@)).len(),
        forall|k: int|
            0 <= k < r@.len() ==> shows_session(
                #[trigger] r@[k],
                tokens@[firsts(families(tokens@))[k]],
                names@[firsts(families(tokens@))[k]],
                opt_text(*current_family_id),
            ),
{
    let ghost fam = families(tokens@);
    let mut out: Vec<UserSessionInfo> = Vec::new();
    let mut i: usize = 0;
    while i < tokens.len()
        invariant
            i <= tokens.len() == names.len(),
            fam == families(tokens@),
            out@.len() == firsts(fam.take(i as int)).len(),
            forall|k: int|
                0 <= k < out@.len() ==> shows_session(
                    #[trigger] out@[k],
                    tokens@[firsts(fam.take(i as int))[k]],
                    names@[firsts(fam.take(i as int))[k]],
                    opt_text(*current_family_id),
                ),
        decreases tokens.len() - i,
    {
        let token = &tokens[i];
        proof {
            assert(fam.take(i + 1).drop_last() =~= fam.take(i as int));
            assert(fam.take(i + 1).last() == token.family_id@);
        }
        if !family_seen(tokens, i, &token.family_id) {
            let label = session_label(token, &names[i].browser, &names[i].os);
            let created_at = iso(token.created_at);
            let last_used_at = or_created(iso_opt(token.last_used_at), &created_at);
            let info = UserSessionInfo {
                id: token.family_id.clone(),
                label: label.label,
                browser: label.browser,
                os: label.os,
                user_agent: keep_not_blank(&token.client_user_agent),
                is_known: label.is_known,
                is_current: is_family(current_family_id, &token.family_id),
                created_at,
                last_used_at,
            };
            out.push(info);
        }
        i = i + 1;
    }
    proof {
        assert(fam.take(fam.len() as int) =~= fam);
    }
    out
}

proof fn lemma_firsts_in_range(s: Seq<Seq<char>>, k: int)
    requires
        0 <= k < firsts(s).len(),
    ensures
        0 <= firsts(s)[k] < s.len(),
    decreases s.len(),
{
    if s.len() > 0 && k < firsts(s.drop_last()).len() {
        lemma_firsts_in_range(s.drop_last(), k);
    }
}

/// No family has two sessions: two positions of first occurrences name different texts.
pub proof fn no_family_has_two_sessions(s: Seq<Seq<char>>, k: int, l: int)
    requires
        0 <= k < l < firsts(s).len(),
    ensures
        0 <= firsts(s)[k] < s.len(),
        0 <= firsts(s)[l] < s.len(),
        s[firsts(s)[k]] != s[firsts(s)[l]],
    decreases s.len(),
{
    lemma_firsts_in_range(s, k);
    lemma_firsts_in_range(s, l);
    let rest = s.drop_last();
    let f = firsts(rest);
    if l < f.len() {
        no_family_has_two_sessions(rest, k, l);
    } else {
        lemma_firsts_in_range(rest, k);
        assert(rest[f[k]] == s[f[k]]);
        assert(rest.contains(rest[f[k]]));
    }
}

/// Every family has a session: each text has a position of its first occurrence.
pub proof fn every_family_has_a_session(s: Seq<Seq<char>>, i: int) -> (k: int)
    requires
        0 <= i < s.len(),
    ensures
        0 <= k < firsts(s).len(),
        0 <= firsts(s)[k] < s.len(),
        s[firsts(s)[k]] == s[i],
    decreases s.len(),
{
    let rest = s.drop_last();
    let f = firsts(rest);
    if i < rest.len() {
        let k = every_family_has_a_session(rest, i);
        assert(firsts(s)[k] == f[k]);
        k
    } else if rest.contains(s.last()) {
        let j = choose|j: int| 0 <= j < rest.len() && rest[j] == s.last();
        let k = every_family_has_a_session(rest, j);
        assert(firsts(s)[k] == f[k]);
        k
    } else {
        f.len() as int
    }
}

/// A text, unless it is empty.
pub open spec fn non_empty(s: Seq<char>) -> Option<Seq<char>> {
    if s.len() == 0 {
        None
    } else {
        Some(s)
    }
}

/// Whether a token is the one that a new session starts with: of this user and family, with this
/// hash, bound to this client, and lasting for `max_age_ms` from now.
pub open spec fn starts_session(
    t: RefreshToken,
    user_id: ObjectId,
    metadata: SessionClientMetadata,
    token_hash: Seq<char>,
    family_id: Seq<char>,
    now: i64,
    max_age_ms: i64,
) -> bool {
    &&& t.id is None
    &&& t.user_id == user_id
    &&& t.token_hash@ == token_hash
    &&& t.family_id@ == family_id
    &&& t.expires_at == now + max_age_ms
    &&& t.created_at == now
    &&& !t.revoked
    &&& opt_text(t.client_fingerprint) == opt_text(metadata.fingerprint)
    &&& opt_text(t.client_user_agent) == non_empty(metadata.user_agent@)
    &&& opt_text(t.client_browser) == Some(metadata.browser@)
    &&& opt_text(t.client_os) == Some(metadata.os@)
    &&& opt_text(t.client_label) == Some(metadata.label@)
    &&& t.last_used_at == Some(now)
}

/// The token that a new session starts with. `max_age_ms` is how long it lasts.
pub fn first_token(
    user_id: ObjectId,
    metadata: SessionClientMetadata,
    token_hash: String,
    family_id: String,
    now: i64,
    max_age_ms: i64,
) -> (r: RefreshToken)
    requires
        i64::MIN <= now + max_age_ms <= i64::MAX,
    ensures
        starts_session(r, user_id, metadata, token_hash@, family_id@, now, max_age_ms),
{
    let user_agent = if metadata.user_agent.as_str().is_empty() {
        None
    } else {
        Some(metadata.user_agent)
    };
    RefreshToken {
        id: None,
        user_id,
        token_hash,
        family_id,
        expires_at: bson_expiry(now, max_age_ms),
        created_at: now,
        revoked: false,
        client_fingerprint: metadata.fingerprint,
        client_user_agent: user_agent,
        client_browser: Some(metadata.browser),
        client_os: Some(metadata.os),
        client_label: Some(metadata.label),
        last_used_at: Some(now),
    }
}

/// What to do next about issuing a token.
#[derive(Clone, Copy, Debug, PartialEq, Eq, Structural)]
pub enum IssueNext {
    /// Make a new token by [`generate_raw_token`] and hash it.
    Hash,
    /// Store what [`issue_refresh_token`] gives.
    Insert,
    /// Hand out what [`issue_refresh_token`] gave.
    Issued,
    Failed,
}

/// What to do next about issuing a token: it is hashed, and the hash is stored. `hashed` and
/// `inserted` say whether that worked.
pub open spec fn issuing_next(hashed: Option<bool>, inserted: Option<bool>) -> IssueNext {
    match (hashed, inserted) {
        (None, _) => IssueNext::Hash,
        (Some(false), _) => IssueNext::Failed,
        (Some(true), None) => IssueNext::Insert,
        (Some(true), Some(false)) => IssueNext::Failed,
        (Some(true), Some(true)) => IssueNext::Issued,
    }
}

/// What to do next about issuing a token: it is hashed, and the hash is stored. `hashed` and
/// `inserted` say whether that worked.
pub fn issuing(hashed: Option<bool>, inserted: Option<bool>) -> (r: IssueNext)
    ensures
        r == issuing_next(hashed, inserted),
{
    match (hashed, inserted) {
        (None, _) => IssueNext::Hash,
        (Some(false), _) => IssueNext::Failed,
        (Some(true), None) => IssueNext::Insert,
        (Some(true), Some(false)) => IssueNext::Failed,
        (Some(true), Some(true)) => IssueNext::Issued,
    }
}

/// A token is handed out if and only if it was hashed and its hash was stored; whatever fails
/// before that makes the login fail, and nothing is done twice.
pub proof fn tokens_are_handed_out_once_stored(hashed: Option<bool>, inserted: Option<bool>)
    ensures
        issuing_next(hashed, inserted) is Issued <==> hashed == Some(true) && inserted == Some(true),
        issuing_next(hashed, inserted) is Failed <==> hashed == Some(false) || (hashed == Some(true)
            && inserted == Some(false)),
        issuing_next(hashed, inserted) is Hash <==> hashed is None,
        issuing_next(hashed, inserted) is Insert <==> hashed == Some(true) && inserted is None,
{
}

/// A new session in a family of its own: the token that is stored, and the one that is handed
/// out. `token_hash` is the hash of the raw token.
pub fn issue_refresh_token(
    user_id: ObjectId,
    metadata: SessionClientMetadata,
    raw_token: String,
    token_hash: String,
    now: i64,
    max_age_ms: i64,
) -> (r: (RefreshToken, IssuedRefreshToken))
    requires
        i64::MIN <= now + max_age_ms <= i64::MAX,
    ensures
        r.1.raw_token@ == raw_token@,
        is_random_uuid(r.1.family_id@),
        starts_session(
            r.0,
            user_id,
            metadata,
            token_hash@,
            r.1.family_id@,
            now,
            max_age_ms,
        ),
{
    let family_id = generate_family_id();
    let stored = first_token(user_id, metadata, token_hash, family_id.clone(), now, max_age_ms);
    (stored, IssuedRefreshToken { raw_token, family_id })
}

/// Whether a text stands anywhere in a stored token.
pub open spec fn holds_text(t: RefreshToken, x: Seq<char>) -> bool {
    ||| t.token_hash@ == x
    ||| t.family_id@ == x
    ||| opt_text(t.client_fingerprint) == Some(x)
    ||| opt_text(t.client_user_agent) == Some(x)
    ||| opt_text(t.client_browser) == Some(x)
    ||| opt_text(t.client_os) == Some(x)
    ||| opt_text(t.client_label) == Some(x)
}

/// Whether a client tells a text of itself.
pub open spec fn tells_text(metadata: SessionClientMetadata, x: Seq<char>) -> bool {
    ||| opt_text(metadata.fingerprint) == Some(x)
    ||| metadata.user_agent@ == x
    ||| metadata.browser@ == x
    ||| metadata.os@ == x
    ||| metadata.label@ == x
}

/// A raw token is not stored, neither with a new session nor with one that goes on: whatever is
/// neither a hash nor the family nor told by the client is nowhere in the stored token.
pub proof fn raw_tokens_are_not_stored(
    first: RefreshToken,
    next: RefreshToken,
    user_id: ObjectId,
    metadata: SessionClientMetadata,
    token_hash: Seq<char>,
    new_hash: Seq<char>,
    family_id: Seq<char>,
    now: i64,
    max_age_ms: i64,
    raw: Seq<char>,
)
    requires
        starts_session(first, user_id, metadata, token_hash, family_id, now, max_age_ms),
        continues_session(next, first, metadata, new_hash, now, max_age_ms),
        raw != token_hash,
        raw != new_hash,
        raw != family_id,
        !tells_text(metadata, raw),
    ensures
        !holds_text(first, raw),
        !holds_text(next, raw),
{
}

/// Why a refresh token gives no session.
#[derive(Clone, Copy, Debug, PartialEq, Eq, Structural)]
pub enum RefreshAuthError {
    Denied,
    Unavailable,
}

/// A session that goes on under a new token.
pub struct RotatedSession {
    pub user: User,
    pub new_refresh_token: String,
    pub family_id: String,
}

/// A stored token, as far as rotating it depends on it.
#[derive(Clone, Copy, Debug, PartialEq, Eq, Structural)]
pub struct StoredToken {
    pub id: Option<ObjectId>,
    pub revoked: bool,
    /// Whether it is bound to a client.
    pub has_fingerprint: bool,
    /// Whether it is bound to the client that sent it.
    pub fingerprint_matches: bool,
    pub expires_at: i64,
}

/// What rotating a stored token depends on. `fingerprint_matches` says whether the fingerprint
/// that it is bound to is that of the client.
pub open spec fn stored_token_of(t: RefreshToken, fingerprint_matches: bool) -> StoredToken {
    StoredToken {
        id: t.id,
        revoked: t.revoked,
        has_fingerprint: t.client_fingerprint is Some,
        fingerprint_matches,
        expires_at: t.expires_at,
    }
}

/// What rotating a stored token depends on.
pub fn stored_token(t: &RefreshToken, fingerprint_matches: bool) -> (r: StoredToken)
    ensures
        r == stored_token_of(*t, fingerprint_matches),
{
    StoredToken {
        id: t.id,
        revoked: t.revoked,
        has_fingerprint: t.client_fingerprint.is_some(),
        fingerprint_matches,
        expires_at: t.expires_at,
    }
}

/// What a lookup of the token said.
#[derive(Clone, Copy, Debug, PartialEq, Eq, Structural)]
pub enum StoredReply {
    Found(StoredToken),
    Missing,
    Failed,
}

/// What a lookup of the user said.
#[derive(Clone, Copy, Debug, PartialEq, Eq, Structural)]
pub enum UserReply {
    /// `may_log_in`: whether the account may be used.
    Found { may_log_in: bool },
    Missing,
    Failed,
}

/// What is known so far about rotating a token.
#[derive(Clone, Copy, Debug)]
pub struct RotateFacts {
    pub stored: Option<StoredReply>,
    /// Whether the alarm over a stolen token was raised.
    pub alarm_raised: bool,
    /// Whether a token that is bound to no client was revoked.
    pub unbound_revoked: bool,
    pub now: i64,
    pub user: Option<UserReply>,
    /// Whether the old token could be revoked.
    pub old_revoked: Option<bool>,
    /// Whether the new token could be hashed.
    pub hashed: Option<bool>,
    /// Whether the new token could be stored.
    pub inserted: Option<bool>,
}

/// What to do next about rotating a token.
#[derive(Clone, Copy, Debug, PartialEq, Eq, Structural)]
pub enum RotateNext {
    FindToken,
    /// The token is or may be stolen: take the measures of [`alarm_of`].
    RaiseAlarm,
    /// Revoke a token that is bound to no client.
    RevokeUnbound(ObjectId),
    FindUser,
    RevokeOld(ObjectId),
    /// Make a new token and hash it.
    HashNew,
    /// Store the token of [`rotated_session`].
    InsertNew,
    Refuse(RefreshAuthError),
    /// Hand out the session of [`rotated_session`].
    Issue,
}

/// What to do next about a token that was accepted: the user has to be allowed, the old token
/// is revoked, and a new one is stored.
pub open spec fn rotate_accepted_next(token: StoredToken, facts: RotateFacts) -> RotateNext {
    match facts.user {
        None => RotateNext::FindUser,
        Some(UserReply::Missing) => RotateNext::Refuse(RefreshAuthError::Denied),
        Some(UserReply::Failed) => RotateNext::Refuse(RefreshAuthError::Unavailable),
        Some(UserReply::Found { may_log_in: false }) => RotateNext::Refuse(
            RefreshAuthError::Denied,
        ),
        Some(UserReply::Found { may_log_in: true }) => {
            let old_gone = match token.id {
                None => Some(true),
                Some(_) => facts.old_revoked,
            };
            match (token.id, old_gone, facts.hashed, facts.inserted) {
                (Some(id), None, _, _) => RotateNext::RevokeOld(id),
                (_, Some(true), None, _) => RotateNext::HashNew,
                (_, Some(true), Some(true), None) => RotateNext::InsertNew,
                (_, Some(true), Some(true), Some(true)) => RotateNext::Issue,
                _ => RotateNext::Refuse(RefreshAuthError::Unavailable),
            }
        },
    }
}

/// What to do next about a token that was accepted: the user has to be allowed, the old token
/// is revoked, and a new one is stored.
pub fn rotate_accepted(token: StoredToken, facts: &RotateFacts) -> (r: RotateNext)
    ensures
        r == rotate_accepted_next(token, *facts),
{
    match facts.user {
        None => RotateNext::FindUser,
        Some(UserReply::Missing) => RotateNext::Refuse(RefreshAuthError::Denied),
        Some(UserReply::Failed) => RotateNext::Refuse(RefreshAuthError::Unavailable),
        Some(UserReply::Found { may_log_in: false }) => RotateNext::Refuse(
            RefreshAuthError::Denied,
        ),
        Some(UserReply::Found { may_log_in: true }) => {
            let old_gone = match token.id {
                None => Some(true),
                Some(_) => facts.old_revoked,
            };
            match (token.id, old_gone, facts.hashed, facts.inserted) {
                (Some(id), None, _, _) => RotateNext::RevokeOld(id),
                (_, Some(true), None, _) => RotateNext::HashNew,
                (_, Some(true), Some(true), None) => RotateNext::InsertNew,
                (_, Some(true), Some(true), Some(true)) => RotateNext::Issue,
                _ => RotateNext::Refuse(RefreshAuthError::Unavailable),
            }
        },
    }
}

/// What to do next about rotating a refresh token. One that was revoked before, or comes from
/// another client than it was bound to, is taken for stolen.
pub open spec fn rotate_refresh_token_next(raw_token: Seq<char>, facts: RotateFacts) -> RotateNext {
    if !plausible_token(raw_token) {
        RotateNext::Refuse(RefreshAuthError::Denied)
    } else {
        match facts.stored {
            None => RotateNext::FindToken,
            Some(StoredReply::Missing) => RotateNext::Refuse(RefreshAuthError::Denied),
            Some(StoredReply::Failed) => RotateNext::Refuse(RefreshAuthError::Unavailable),
            Some(StoredReply::Found(token)) => if token.revoked || (token.has_fingerprint
                && !token.fingerprint_matches) {
                if facts.alarm_raised {
                    RotateNext::Refuse(RefreshAuthError::Denied)
                } else {
                    RotateNext::RaiseAlarm
                }
            } else if !token.has_fingerprint {
                match token.id {
                    Some(id) => if facts.unbound_revoked {
                        RotateNext::Refuse(RefreshAuthError::Denied)
                    } else {
                        RotateNext::RevokeUnbound(id)
                    },
                    None => RotateNext::Refuse(RefreshAuthError::Denied),
                }
            } else if token.expires_at < facts.now {
                RotateNext::Refuse(RefreshAuthError::Denied)
            } else {
                rotate_accepted_next(token, facts)
            },
        }
    }
}

/// What to do next about rotating a refresh token. One that was revoked before, or comes from
/// another client than it was bound to, is taken for stolen.
pub fn rotate_refresh_token(raw_token: &str, facts: &RotateFacts) -> (r: RotateNext)
    ensures
        r == rotate_refresh_token_next(raw_token@, *facts),
{
    if !is_plausible_token(raw_token) {
        RotateNext::Refuse(RefreshAuthError::Denied)
    } else {
        match facts.stored {
            None => RotateNext::FindToken,
            Some(StoredReply::Missing) => RotateNext::Refuse(RefreshAuthError::Denied),
            Some(StoredReply::Failed) => RotateNext::Refuse(RefreshAuthError::Unavailable),
            Some(StoredReply::Found(token)) => if token.revoked || (token.has_fingerprint
                && !token.fingerprint_matches) {
                if facts.alarm_raised {
                    RotateNext::Refuse(RefreshAuthError::Denied)
                } else {
                    RotateNext::RaiseAlarm
                }
            } else if !token.has_fingerprint {
                match token.id {
                    Some(id) => if facts.unbound_revoked {
                        RotateNext::Refuse(RefreshAuthError::Denied)
                    } else {
                        RotateNext::RevokeUnbound(id)
                    },
                    None => RotateNext::Refuse(RefreshAuthError::Denied),
                }
            } else if token.expires_at < facts.now {
                RotateNext::Refuse(RefreshAuthError::Denied)
            } else {
                rotate_accepted(token, facts)
            },
        }
    }
}

/// Whether a stored token may be exchanged for a new one: it is not revoked, it is bound to the
/// client that sent it, and its time is not over.
pub open spec fn exchangeable(token: StoredToken, now: i64) -> bool {
    !token.revoked && token.has_fingerprint && token.fingerprint_matches && now <= token.expires_at
}

/// A session goes on if and only if its token is stored and may be exchanged, the user may log in,
/// the old token is revoked (where it has an identifier) and the new one is hashed and stored.
pub proof fn sessions_go_on_for_valid_tokens(raw_token: Seq<char>, facts: RotateFacts)
    ensures
        rotate_refresh_token_next(raw_token, facts) is Issue <==> {
            &&& 0 < raw_token.len() && text::byte_len(raw_token) <= 128
            &&& facts.stored is Some && facts.stored->0 is Found && exchangeable(
                facts.stored->0->Found_0,
                facts.now,
            ) && (facts.stored->0->Found_0.id is None || facts.old_revoked == Some(true))
            &&& facts.user == Some(UserReply::Found { may_log_in: true })
            &&& facts.hashed == Some(true)
            &&& facts.inserted == Some(true)
        },
{
}

/// What is done about a token that may be exchanged comes in a fixed order: the user is looked up,
/// the old token is revoked, a new one is made and hashed, and stored. A user who is gone or may
/// not log in is refused for good; a store that fails refuses for now.
pub proof fn valid_tokens_are_exchanged_in_order(
    raw_token: Seq<char>,
    token: StoredToken,
    facts: RotateFacts,
)
    requires
        0 < raw_token.len() && text::byte_len(raw_token) <= 128,
        facts.stored == Some(StoredReply::Found(token)),
        exchangeable(token, facts.now),
    ensures
        ({
            let next = rotate_refresh_token_next(raw_token, facts);
            let allowed = facts.user == Some(UserReply::Found { may_log_in: true });
            let old_gone = token.id is None || facts.old_revoked == Some(true);
            &&& next is FindUser <==> facts.user is None
            &&& next == RotateNext::Refuse(RefreshAuthError::Denied) <==> facts.user == Some(
                UserReply::Missing,
            ) || facts.user == Some(UserReply::Found { may_log_in: false })
            &&& next is RevokeOld <==> allowed && token.id is Some && facts.old_revoked is None
            &&& next is RevokeOld ==> next == RotateNext::RevokeOld(token.id->0)
            &&& next is HashNew <==> allowed && old_gone && facts.hashed is None
            &&& next is InsertNew <==> allowed && old_gone && facts.hashed == Some(true)
                && facts.inserted is None
            &&& next == RotateNext::Refuse(RefreshAuthError::Unavailable) <==> facts.user == Some(
                UserReply::Failed,
            ) || (allowed && ((token.id is Some && facts.old_revoked == Some(false)) || (old_gone
                && facts.hashed == Some(false)) || (old_gone && facts.hashed == Some(true)
                && facts.inserted == Some(false))))
            &&& !(next is RaiseAlarm) && !(next is RevokeUnbound) && !(next is FindToken)
        }),
{
}

/// A token that may not be exchanged is refused for good, whatever is known of its user: after the
/// alarm if it was used before or comes from another client, after it is revoked if it is bound to
/// no client. A token that nobody could have been given, or that is not stored, is refused at
/// once; only a store that fails refuses for now.
pub proof fn other_tokens_are_refused(raw_token: Seq<char>, facts: RotateFacts)
    ensures
        ({
            let next = rotate_refresh_token_next(raw_token, facts);
            let denied = RotateNext::Refuse(RefreshAuthError::Denied);
            let plausible = 0 < raw_token.len() && text::byte_len(raw_token) <= 128;
            &&& !plausible ==> next == denied
            &&& plausible ==> (next is FindToken <==> facts.stored is None)
            &&& plausible && facts.stored == Some(StoredReply::Missing) ==> next == denied
            &&& plausible && facts.stored == Some(StoredReply::Failed) ==> next
                == RotateNext::Refuse(RefreshAuthError::Unavailable)
            &&& plausible && facts.stored is Some && facts.stored->0 is Found ==> {
                let token = facts.stored->0->Found_0;
                let stolen = token.revoked || (token.has_fingerprint && !token.fingerprint_matches);
                &&& next is RaiseAlarm <==> stolen && !facts.alarm_raised
                &&& stolen && facts.alarm_raised ==> next == denied
                &&& next is RevokeUnbound <==> !token.revoked && !token.has_fingerprint && token.id
                    is Some && !facts.unbound_revoked
                &&& next is RevokeUnbound ==> next == RotateNext::RevokeUnbound(token.id->0)
                &&& !token.revoked && !token.has_fingerprint && (token.id is None
                    || facts.unbound_revoked) ==> next == denied
                &&& !stolen && token.has_fingerprint && token.expires_at < facts.now ==> next
                    == denied
            }
        }),
{
}

/// Every token that is ever made can be looked up again.
pub proof fn made_tokens_are_plausible(bytes: Seq<u8>)
    requires
        bytes.len() == 32,
    ensures
        plausible_token(hex_text(bytes)),
{
    let s = hex_text(bytes);
    assert(s.len() == 64);
    assert forall|i: int| 0 <= i < s.len() implies (#[trigger] s[i]) as u32 <= 127 by {
        assert(0 <= bytes[i / 2] as int / 16 < 16);
        assert(0 <= bytes[i / 2] as int % 16 < 16);
    }
    vstd::utf8::is_ascii_chars_encode_utf8(s);
}

/// A text can be a token if and only if it has from 1 to 128 bytes.
pub proof fn tokens_are_neither_empty_nor_long(raw: Seq<char>)
    ensures
        plausible_token(raw) <==> 0 < raw.len() && text::byte_len(raw) <= 128,
{
}

/// What rotating a token goes by is what is stored of it.
pub proof fn rotation_goes_by_the_stored_token(t: RefreshToken, matches: bool, now: i64)
    ensures
        exchangeable(stored_token_of(t, matches), now) <==> !t.revoked && t.client_fingerprint
            is Some && matches && now <= t.expires_at,
        stored_token_of(t, matches).id == t.id,
        stored_token_of(t, matches).revoked == t.revoked,
        stored_token_of(t, matches).expires_at == t.expires_at,
{
}

/// A token that was used before, or comes from another client, raises the alarm and is
/// refused, whatever else is known.
pub proof fn reuse_raises_the_alarm(raw_token: Seq<char>, token: StoredToken, facts: RotateFacts)
    requires
        plausible_token(raw_token),
        facts.stored == Some(StoredReply::Found(token)),
        token.revoked || (token.has_fingerprint && !token.fingerprint_matches),
    ensures
        rotate_refresh_token_next(raw_token, facts) == (if facts.alarm_raised {
            RotateNext::Refuse(RefreshAuthError::Denied)
        } else {
            RotateNext::RaiseAlarm
        }),
{
}

/// A new token is issued only for a token that is stored, not revoked, not expired and bound
/// to the client that sent it, for a user who may log in, after the old token was revoked and
/// the new one stored.
pub proof fn tokens_are_issued_for_valid_tokens_only(raw_token: Seq<char>, facts: RotateFacts)
    ensures
        rotate_refresh_token_next(raw_token, facts) is Issue ==> {
            &&& plausible_token(raw_token)
            &&& facts.stored matches Some(StoredReply::Found(token)) && !token.revoked
                && token.has_fingerprint && token.fingerprint_matches && token.expires_at
                >= facts.now && (token.id is Some ==> facts.old_revoked == Some(true))
            &&& facts.user == Some(UserReply::Found { may_log_in: true })
            &&& facts.inserted == Some(true)
        },
{
}

/// The alarm is raised for nothing but a token that was revoked or comes from another client.
pub proof fn alarm_needs_a_reason(raw_token: Seq<char>, facts: RotateFacts)
    ensures
        rotate_refresh_token_next(raw_token, facts) is RaiseAlarm ==> (facts.stored matches Some(
            StoredReply::Found(token),
        ) && (token.revoked || !token.fingerprint_matches)),
{
}

/// What is done about a token that is or may be stolen.
pub struct Alarm {
    /// The tokens that are revoked.
    pub tokens: TokenFilter,
    /// Whose logins are made void.
    pub user: ObjectId,
    /// The change of that account.
    pub change: Update,
    /// The user whose connections are told and closed, and the family of those connections.
    pub closed_user: String,
    pub closed_family: String,
}

/// What is done about a token that is or may be stolen: every token of its family is revoked,
/// the version of the tokens of its user goes up by one, and the connections of the session
/// are closed.
pub fn alarm_of(stored: &RefreshToken, now: i64) -> (r: Alarm)
    ensures
        forall|t: RefreshToken| #[trigger] r.tokens.fits(t) <==> t.family_id@ == stored.family_id@,
        r.user == stored.user_id,
        is_update(
            r.change,
            seq![(UserField::UpdatedAt, FieldView::Time(now as int))],
            Seq::empty(),
            true,
        ),
        r.closed_user@ == stored.user_id.hex(),
        r.closed_family@ == stored.family_id@,
{
    Alarm {
        tokens: RefreshToken::revoke_family(&stored.family_id),
        user: stored.user_id,
        change: User::invalidate_tokens(now),
        closed_user: stored.user_id.to_hex(),
        closed_family: stored.family_id.clone(),
    }
}

/// Which texts about the client a rotated token holds: those of the client, if it tells its
/// name, and those of the old token otherwise.
pub open spec fn client_tells_name(metadata: SessionClientMetadata) -> bool {
    trimmed(metadata.user_agent@).len() > 0
}

/// Whether a token is the one that a session goes on with: in the same family, with this hash,
/// lasting for `max_age_ms` from now, and bound to what the client tells of itself or, where it
/// tells nothing, to what was known of it.
pub open spec fn continues_session(
    t: RefreshToken,
    stored: RefreshToken,
    metadata: SessionClientMetadata,
    new_hash: Seq<char>,
    now: i64,
    max_age_ms: i64,
) -> bool {
    &&& t.id is None
    &&& carries_on(stored, t)
    &&& t.token_hash@ == new_hash
    &&& t.expires_at == now + max_age_ms
    &&& opt_text(t.client_fingerprint) == (match metadata.fingerprint {
        Some(f) => Some(f@),
        None => opt_text(stored.client_fingerprint),
    })
    &&& opt_text(t.client_user_agent) == (if client_tells_name(metadata) {
        Some(metadata.user_agent@)
    } else {
        not_blank(stored.client_user_agent)
    })
    &&& opt_text(t.client_browser) == (if client_tells_name(metadata) {
        Some(metadata.browser@)
    } else {
        opt_text(stored.client_browser)
    })
    &&& opt_text(t.client_os) == (if client_tells_name(metadata) {
        Some(metadata.os@)
    } else {
        opt_text(stored.client_os)
    })
    &&& opt_text(t.client_label) == (if client_tells_name(metadata) {
        Some(metadata.label@)
    } else {
        opt_text(stored.client_label)
    })
    &&& t.last_used_at == Some(now)
}

/// The session of a user that goes on: the token that is stored, in the family of the one before
/// it, and what is handed out. `new_hash` is the hash of the new raw token.
pub fn rotated_session(
    stored: &RefreshToken,
    user: User,
    metadata: &SessionClientMetadata,
    new_raw: String,
    new_hash: String,
    now: i64,
    max_age_ms: i64,
) -> (r: (RefreshToken, RotatedSession))
    requires
        i64::MIN <= now + max_age_ms <= i64::MAX,
    ensures
        continues_session(r.0, *stored, *metadata, new_hash@, now, max_age_ms),
        r.1.user == user,
        r.1.new_refresh_token@ == new_raw@,
        r.1.family_id@ == stored.family_id@,
        r.1.family_id@ == r.0.family_id@,
{
    let token = rotated_token(stored, metadata, new_hash, now, max_age_ms);
    let session = RotatedSession {
        user,
        new_refresh_token: new_raw,
        family_id: stored.family_id.clone(),
    };
    (token, session)
}

/// The token that a session goes on with.
pub fn rotated_token(
    stored: &RefreshToken,
    metadata: &SessionClientMetadata,
    new_hash: String,
    now: i64,
    max_age_ms: i64,
) -> (r: RefreshToken)
    requires
        i64::MIN <= now + max_age_ms <= i64::MAX,
    ensures
        continues_session(r, *stored, *metadata, new_hash@, now, max_age_ms),
{
    let tells = !text::is_blank(&metadata.user_agent);
    let (user_agent, browser, os, label) = if tells {
        (
            Some(metadata.user_agent.clone()),
            Some(metadata.browser.clone()),
            Some(metadata.os.clone()),
            Some(metadata.label.clone()),
        )
    } else {
        (
            keep_not_blank(&stored.client_user_agent),
            text::copy_opt(&stored.client_browser),
            text::copy_opt(&stored.client_os),
            text::copy_opt(&stored.client_label),
        )
    };
    let fingerprint = match &metadata.fingerprint {
        Some(f) => Some(f.clone()),
        None => text::copy_opt(&stored.client_fingerprint),
    };
    RefreshToken {
        id: None,
        user_id: stored.user_id,
        token_hash: new_hash,
        family_id: stored.family_id.clone(),
        expires_at: bson_expiry(now, max_age_ms),
        created_at: stored.created_at,
        revoked: false,
        client_fingerprint: fingerprint,
        client_user_agent: user_agent,
        client_browser: browser,
        client_os: os,
        client_label: label,
        last_used_at: Some(now),
    }
}

/// Whether a token carries the session of another on: it is of the same user and family, holds
/// when the session began, and can be used.
pub open spec fn carries_on(old: RefreshToken, new: RefreshToken) -> bool {
    &&& new.user_id == old.user_id
    &&& new.family_id@ == old.family_id@
    &&& new.created_at == old.created_at
    &&& !new.revoked
}

/// The stored tokens after one of them was rotated: the tokens that `old` means are revoked,
/// and the new one is there.
pub open spec fn after_rotating(
    tokens: Seq<RefreshToken>,
    old: TokenFilter,
    new: RefreshToken,
) -> Seq<RefreshToken> {
    after_revoking(tokens, old).push(new)
}

/// Rotating a token leaves exactly one new token, and it carries the session on; a token that
/// is sent again after it was rotated is found revoked, raises the alarm and is refused; and
/// the alarm leaves no token of the family that can be used, the new one included.
///
/// `place` is where the token stands among the stored ones; `again` is what a lookup of the
/// same hash finds after the first rotation, where no two stored tokens have the same hash.
pub proof fn tokens_are_used_once(
    tokens: Seq<RefreshToken>,
    place: int,
    by_id: TokenFilter,
    new: RefreshToken,
    again: RefreshToken,
    family: TokenFilter,
    raw_token: Seq<char>,
    fingerprint_matches: bool,
    facts: RotateFacts,
    now: i64,
)
    requires
        0 <= place < tokens.len(),
        tokens[place].id is Some,
        forall|t: RefreshToken| #[trigger] by_id.fits(t) <==> t.id == tokens[place].id,
        carries_on(tokens[place], new),
        forall|i: int, j: int|
            0 <= i < j < after_rotating(tokens, by_id, new).len() ==> (#[trigger] after_rotating(
                tokens,
                by_id,
                new,
            )[i]).token_hash@ != (#[trigger] after_rotating(tokens, by_id, new)[j]).token_hash@,
        after_rotating(tokens, by_id, new).contains(again),
        again.token_hash@ == tokens[place].token_hash@,
        forall|t: RefreshToken|
            #[trigger] family.fits(t) <==> t.family_id@ == again.family_id@,
        plausible_token(raw_token),
        facts.stored == Some(StoredReply::Found(stored_token_of(again, fingerprint_matches))),
    ensures
        after_rotating(tokens, by_id, new).len() == tokens.len() + 1,
        forall|i: int|
            0 <= i < tokens.len() && tokens[i].id != tokens[place].id ==> #[trigger] after_rotating(
                tokens,
                by_id,
                new,
            )[i] == tokens[i],
        again.revoked,
        again.family_id@ == new.family_id@,
        rotate_refresh_token_next(raw_token, facts) == (if facts.alarm_raised {
            RotateNext::Refuse(RefreshAuthError::Denied)
        } else {
            RotateNext::RaiseAlarm
        }),
        !family_active(
            after_revoking(after_rotating(tokens, by_id, new), family),
            new.family_id@,
            now,
        ),
        after_revoking(after_rotating(tokens, by_id, new), family).last().revoked,
{
    let after = after_rotating(tokens, by_id, new);
    let revoked = after_revoking(tokens, by_id);
    assert(by_id.fits(tokens[place]));
    assert(after[place] == revoked[place]);
    assert(after[place].token_hash == tokens[place].token_hash);
    let k = choose|k: int| 0 <= k < after.len() && after[k] == again;
    assert(k == place) by {
        if k < place {
            assert(after[k].token_hash@ != after[place].token_hash@);
        } else if place < k {
            assert(after[place].token_hash@ != after[k].token_hash@);
        }
    }
    assert forall|i: int|
        0 <= i < tokens.len() && tokens[i].id != tokens[place].id implies #[trigger] after[i]
        == tokens[i] by {
        assert(!by_id.fits(tokens[i]));
        assert(after[i] == revoked[i]);
    }
    let closed = after_revoking(after, family);
    assert forall|i: int| 0 <= i < after.len() implies (#[trigger] closed[i]).family_id
        == after[i].family_id && closed[i].revoked == (after[i].revoked || after[i].family_id@
        == again.family_id@) by {
        assert(family.fits(after[i]) <==> after[i].family_id@ == again.family_id@);
    }
    assert(after.last() == new);
    assert(closed.last() == closed[after.len() - 1]);
}

/// What a lookup of a token said, as far as its family is asked for.
#[derive(Clone, Copy, Debug, PartialEq, Eq, Structural)]
pub enum FamilyReply {
    Found { revoked: bool },
    Missing,
    Failed,
}

/// What to do next to find out the family of a token.
#[derive(Clone, Copy, Debug, PartialEq, Eq, Structural)]
pub enum FamilyNext {
    FindToken,
    /// It has none that counts.
    Nothing,
    /// It is that of the token that was found.
    OfToken,
    Refuse(RefreshAuthError),
}

/// What to do next to find out the family of a token; that of a revoked one does not count.
pub open spec fn family_id_from_refresh_token_next(raw_token: Seq<char>, stored: Option<FamilyReply>) -> FamilyNext {
    if !plausible_token(raw_token) {
        FamilyNext::Nothing
    } else {
        match stored {
            None => FamilyNext::FindToken,
            Some(FamilyReply::Failed) => FamilyNext::Refuse(RefreshAuthError::Unavailable),
            Some(FamilyReply::Missing) => FamilyNext::Nothing,
            Some(FamilyReply::Found { revoked: true }) => FamilyNext::Nothing,
            Some(FamilyReply::Found { revoked: false }) => FamilyNext::OfToken,
        }
    }
}

/// What to do next to find out the family of a token; that of a revoked one does not count.
pub fn family_id_from_refresh_token(raw_token: &str, stored: Option<FamilyReply>) -> (r: FamilyNext)
    ensures
        r == family_id_from_refresh_token_next(raw_token@, stored),
{
    if !is_plausible_token(raw_token) {
        FamilyNext::Nothing
    } else {
        match stored {
            None => FamilyNext::FindToken,
            Some(FamilyReply::Failed) => FamilyNext::Refuse(RefreshAuthError::Unavailable),
            Some(FamilyReply::Missing) => FamilyNext::Nothing,
            Some(FamilyReply::Found { revoked: true }) => FamilyNext::Nothing,
            Some(FamilyReply::Found { revoked: false }) => FamilyNext::OfToken,
        }
    }
}

/// The family of a token counts if and only if the token is stored and not revoked; without one
/// that counts there is none, and a store that fails is told apart from that.
pub proof fn families_are_those_of_live_tokens(raw_token: Seq<char>, stored: Option<FamilyReply>)
    ensures
        ({
            let next = family_id_from_refresh_token_next(raw_token, stored);
            let plausible = 0 < raw_token.len() && text::byte_len(raw_token) <= 128;
            &&& next is OfToken <==> plausible && stored == Some(
                FamilyReply::Found { revoked: false },
            )
            &&& next is Nothing <==> !plausible || stored == Some(FamilyReply::Missing) || stored
                == Some(FamilyReply::Found { revoked: true })
            &&& next is FindToken <==> plausible && stored is None
            &&& next is Refuse <==> plausible && stored == Some(FamilyReply::Failed)
            &&& next is Refuse ==> next == FamilyNext::Refuse(RefreshAuthError::Unavailable)
        }),
{
}

/// What to do next about revoking the family of a token.
#[derive(Clone, Copy, Debug, PartialEq, Eq, Structural)]
pub enum RevokeFamilyNext {
    FindToken,
    /// There is no such token.
    Nothing,
    Revoke,
    /// It is revoked; its user is that of the token that was found.
    Revoked,
    Refuse(RefreshAuthError),
}

/// What to do next about revoking the family of a token. `revoked` says whether that worked.
pub open spec fn revoke_refresh_token_family_next(raw_token: Seq<char>, stored: Option<Lookup>, revoked: Option<bool>) -> RevokeFamilyNext {
    if !plausible_token(raw_token) {
        RevokeFamilyNext::Nothing
    } else {
        match (stored, revoked) {
            (None, _) => RevokeFamilyNext::FindToken,
            (Some(Lookup::Failed), _) => RevokeFamilyNext::Refuse(RefreshAuthError::Unavailable),
            (Some(Lookup::Missing), _) => RevokeFamilyNext::Nothing,
            (Some(Lookup::Found), None) => RevokeFamilyNext::Revoke,
            (Some(Lookup::Found), Some(true)) => RevokeFamilyNext::Revoked,
            (Some(Lookup::Found), Some(false)) => RevokeFamilyNext::Refuse(
                RefreshAuthError::Unavailable,
            ),
        }
    }
}

/// What to do next about revoking the family of a token. `revoked` says whether that worked.
pub fn revoke_refresh_token_family(raw_token: &str, stored: Option<Lookup>, revoked: Option<bool>) -> (r: RevokeFamilyNext)
    ensures
        r == revoke_refresh_token_family_next(raw_token@, stored, revoked),
{
    if !is_plausible_token(raw_token) {
        RevokeFamilyNext::Nothing
    } else {
        match (stored, revoked) {
            (None, _) => RevokeFamilyNext::FindToken,
            (Some(Lookup::Failed), _) => RevokeFamilyNext::Refuse(RefreshAuthError::Unavailable),
            (Some(Lookup::Missing), _) => RevokeFamilyNext::Nothing,
            (Some(Lookup::Found), None) => RevokeFamilyNext::Revoke,
            (Some(Lookup::Found), Some(true)) => RevokeFamilyNext::Revoked,
            (Some(Lookup::Found), Some(false)) => RevokeFamilyNext::Refuse(
                RefreshAuthError::Unavailable,
            ),
        }
    }
}

/// Leaving revokes the family of any token that is stored, and says so if and only if that worked;
/// a token that is not stored has nothing to revoke.
pub proof fn leaving_revokes_what_is_stored(
    raw_token: Seq<char>,
    stored: Option<Lookup>,
    revoked: Option<bool>,
)
    ensures
        ({
            let next = revoke_refresh_token_family_next(raw_token, stored, revoked);
            let plausible = 0 < raw_token.len() && text::byte_len(raw_token) <= 128;
            &&& next is Revoke <==> plausible && stored == Some(Lookup::Found) && revoked is None
            &&& next is Revoked <==> plausible && stored == Some(Lookup::Found) && revoked == Some(
                true,
            )
            &&& next is Nothing <==> !plausible || stored == Some(Lookup::Missing)
            &&& next is FindToken <==> plausible && stored is None
            &&& next is Refuse <==> plausible && (stored == Some(Lookup::Failed) || (stored == Some(
                Lookup::Found,
            ) && revoked == Some(false)))
            &&& next is Refuse ==> next == RevokeFamilyNext::Refuse(RefreshAuthError::Unavailable)
        }),
{
}

/// What to do next about ending one session of a user.
#[derive(Clone, Copy, Debug, PartialEq, Eq, Structural)]
pub enum RevokeSessionNext {
    AskOwner,
    Revoke,
    /// There is no such session of this user.
    NotFound,
    Failed,
    Done,
}

/// What to do next about ending one session of a user: it has to be theirs.
pub open spec fn revoke_session_for_user_next(belongs: Option<Result<bool, ()>>, revoked: Option<bool>) -> RevokeSessionNext {
    match (belongs, revoked) {
        (None, _) => RevokeSessionNext::AskOwner,
        (Some(Err(_)), _) => RevokeSessionNext::Failed,
        (Some(Ok(false)), _) => RevokeSessionNext::NotFound,
        (Some(Ok(true)), None) => RevokeSessionNext::Revoke,
        (Some(Ok(true)), Some(true)) => RevokeSessionNext::Done,
        (Some(Ok(true)), Some(false)) => RevokeSessionNext::Failed,
    }
}

/// What to do next about ending one session of a user: it has to be theirs.
pub fn revoke_session_for_user(belongs: Option<Result<bool, ()>>, revoked: Option<bool>) -> (r: RevokeSessionNext)
    ensures
        r == revoke_session_for_user_next(belongs, revoked),
{
    match (belongs, revoked) {
        (None, _) => RevokeSessionNext::AskOwner,
        (Some(Err(_)), _) => RevokeSessionNext::Failed,
        (Some(Ok(false)), _) => RevokeSessionNext::NotFound,
        (Some(Ok(true)), None) => RevokeSessionNext::Revoke,
        (Some(Ok(true)), Some(true)) => RevokeSessionNext::Done,
        (Some(Ok(true)), Some(false)) => RevokeSessionNext::Failed,
    }
}

/// A session of the user is ended if and only if it is theirs and could be revoked; one that is
/// not theirs is not found, and what could not be asked or done fails.
pub proof fn own_sessions_can_be_ended(belongs: Option<Result<bool, ()>>, revoked: Option<bool>)
    ensures
        ({
            let next = revoke_session_for_user_next(belongs, revoked);
            let own = belongs == Some(Ok::<bool, ()>(true));
            &&& next is AskOwner <==> belongs is None
            &&& next is Revoke <==> own && revoked is None
            &&& next is Done <==> own && revoked == Some(true)
            &&& next is NotFound <==> belongs == Some(Ok::<bool, ()>(false))
            &&& next is Failed <==> (belongs is Some && belongs->0 is Err) || (own && revoked
                == Some(false))
        }),
{
}

/// Nobody ends the session of another.
pub proof fn only_own_sessions_end(belongs: Option<Result<bool, ()>>, revoked: Option<bool>)
    ensures
        revoke_session_for_user_next(belongs, revoked) is Revoke || revoke_session_for_user_next(
            belongs,
            revoked,
        ) is Done ==> belongs == Some(Ok::<bool, ()>(true)),
{
}

/// The version in front of a stored hash does not belong to the hash, and nothing else is taken
/// off.
pub proof fn stored_hashes_come_without_their_version(hash: Seq<char>)
    ensures
        stored_hex_of("v2:"@ + hash) == hash,
        !text::begins_with(hash, "v2:"@) ==> stored_hex_of(hash) == hash,
{
    let all = "v2:"@ + hash;
    assert(all.subrange(0, "v2:"@.len() as int) =~= "v2:"@);
    assert(all.skip("v2:"@.len() as int) =~= hash);
}

/// A random identifier of a family has five groups of lower-case hexadecimal digits with dashes
/// between them, and says that it is random.
pub proof fn family_identifiers_have_a_form(s: Seq<char>, i: int)
    requires
        is_random_uuid(s),
        0 <= i < s.len(),
    ensures
        s.len() == 36,
        i == 8 || i == 13 || i == 18 || i == 23 <==> s[i] == '-',
        s[i] != '-' ==> (48 <= s[i] as u32 <= 57) || (97 <= s[i] as u32 <= 102),
        s[14] == '4',
        s[19] == '8' || s[19] == '9' || s[19] == 'a' || s[19] == 'b',
{
    assert(is_lower_hex(s[i]) || s[i] == '-');
}

/// A session is shown under its family, by what is known of its client, and as the current one
/// exactly if it is that family; one that was not used since is shown as used when it was made.
pub proof fn sessions_are_shown_whole(
    info: UserSessionInfo,
    token: RefreshToken,
    names: ClientNames,
    current: Option<Seq<char>>,
)
    requires
        shows_session(info, token, names, current),
    ensures
        info.id@ == token.family_id@,
        info.label@ == names.os@ && info.os@ == names.os@ && info.browser@ == names.browser@,
        info.is_current <==> current is Some && current->0 == token.family_id@,
        info.is_known <==> token.client_browser is Some && names.browser@
            != "Nieznana przeglądarka"@,
        info.user_agent is Some <==> token.client_user_agent is Some && trimmed(
            token.client_user_agent->0@,
        ).len() > 0,
        info.user_agent is Some ==> info.user_agent->0@ == token.client_user_agent->0@,
        opt_text(info.created_at) == rfc3339(token.created_at),
        token.last_used_at is Some && rfc3339(token.last_used_at->0) is Some ==> opt_text(
            info.last_used_at,
        ) == rfc3339(token.last_used_at->0),
        token.last_used_at is None ==> opt_text(info.last_used_at) == rfc3339(token.created_at),
{
}

/// A new session belongs to its user, begins now, ends after its time and is not revoked; it keeps
/// what its client tells of itself.
pub proof fn sessions_start_whole(
    t: RefreshToken,
    user: ObjectId,
    m: SessionClientMetadata,
    hash: Seq<char>,
    family: Seq<char>,
    now: i64,
    age: i64,
)
    requires
        starts_session(t, user, m, hash, family, now, age),
    ensures
        t.id is None && t.user_id == user && t.token_hash@ == hash && t.family_id@ == family,
        t.created_at == now && t.last_used_at == Some(now) && t.expires_at - now == age,
        !t.revoked,
        t.client_fingerprint is Some <==> m.fingerprint is Some,
        m.fingerprint is Some ==> t.client_fingerprint->0@ == m.fingerprint->0@,
        t.client_user_agent is Some <==> m.user_agent@.len() > 0,
        t.client_user_agent is Some ==> t.client_user_agent->0@ == m.user_agent@,
        t.client_browser is Some && t.client_browser->0@ == m.browser@,
        t.client_os is Some && t.client_os->0@ == m.os@,
        t.client_label is Some && t.client_label->0@ == m.label@,
{
}

/// A session that goes on keeps its user, its family and its beginning, gets a new token that ends
/// after its time, and takes over what its client tells of itself now, or else what it told before.
pub proof fn sessions_go_on_whole(
    t: RefreshToken,
    stored: RefreshToken,
    m: SessionClientMetadata,
    hash: Seq<char>,
    now: i64,
    age: i64,
)
    requires
        continues_session(t, stored, m, hash, now, age),
    ensures
        t.id is None && t.user_id == stored.user_id && t.family_id@ == stored.family_id@
            && t.created_at == stored.created_at,
        t.token_hash@ == hash && t.last_used_at == Some(now) && t.expires_at - now == age,
        !t.revoked,
        m.fingerprint is Some ==> t.client_fingerprint is Some && t.client_fingerprint->0@
            == m.fingerprint->0@,
        m.fingerprint is None ==> opt_text(t.client_fingerprint) == opt_text(
            stored.client_fingerprint,
        ),
        trimmed(m.user_agent@).len() > 0 ==> opt_text(t.client_user_agent) == Some(m.user_agent@)
            && opt_text(t.client_browser) == Some(m.browser@) && opt_text(t.client_os) == Some(m.os@)
            && opt_text(t.client_label) == Some(m.label@),
        trimmed(m.user_agent@).len() == 0 ==> opt_text(t.client_browser) == opt_text(
            stored.client_browser,
        ) && opt_text(t.client_os) == opt_text(stored.client_os) && opt_text(t.client_label)
            == opt_text(stored.client_label),
        trimmed(m.user_agent@).len() == 0 ==> (t.client_user_agent is Some
            <==> stored.client_user_agent is Some && trimmed(stored.client_user_agent->0@).len()
            > 0),
        trimmed(m.user_agent@).len() == 0 && t.client_user_agent is Some ==> t.client_user_agent->0@
            == stored.client_user_agent->0@,
{
}

/// The families of tokens are taken one by one.
pub proof fn families_are_taken_in_order(tokens: Seq<RefreshToken>, i: int)
    requires
        0 <= i < tokens.len(),
    ensures
        families(tokens).len() == tokens.len(),
        families(tokens)[i] == tokens[i].family_id@,
{
}

/// A refresh token has at most 128 bytes and travels under this name.
pub proof fn refresh_tokens_travel_in_a_cookie()
    ensures
        REFRESH_COOKIE == "refreshToken",
        MAX_RAW_TOKEN_BYTES == 128,
{
}

} // verus!
