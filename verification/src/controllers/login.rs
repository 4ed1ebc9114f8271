//! Entering an account: name, password, second factor, and what an answer carries.
use vstd::prelude::*;
use crate::answers::Written;
use crate::controllers::signup::{gives_email, names_email, CredentialsBody};
use crate::controllers::step_up::PasswordCheck;
use crate::ids::{parsed_id, ObjectId};
use crate::model::users::{is_username, is_valid_username, User};
use crate::reply::{internal_error, message_reply, noted_reply, slow_reply, unavailable, Reply};
use crate::text::{self, text_or_empty, trimmed};
use crate::utils::auth::refresh::REFRESH_COOKIE;

verus! {

/// A cookie, to be sent with the strictest rules on sites and never shown to scripts.
pub struct CookieSpec {
    pub name: &'static str,
    pub value: String,
    pub secure: bool,
    pub path: &'static str,
    pub max_age_ms: i64,
}

/// Whether a cookie is this one.
pub open spec fn is_cookie(
    c: CookieSpec,
    name: &'static str,
    value: Seq<char>,
    secure: bool,
    path: &'static str,
    max_age_ms: i64,
) -> bool {
    c.name == name && c.value@ == value && c.secure == secure && c.path == path && c.max_age_ms
        == max_age_ms
}

/// The cookie with the access token.
pub fn jwt_cookie(value: &str, max_age_ms: i64, production: bool) -> (r: CookieSpec)
    ensures
        is_cookie(r, "jwt", value@, production, "/", max_age_ms),
{
    CookieSpec { name: "jwt", value: value.to_owned(), secure: production, path: "/", max_age_ms }
}

/// The cookie with the refresh token.
pub fn refresh_cookie(value: &str, max_age_ms: i64, production: bool) -> (r: CookieSpec)
    ensures
        is_cookie(r, REFRESH_COOKIE, value@, production, "/", max_age_ms),
{
    CookieSpec {
        name: REFRESH_COOKIE,
        value: value.to_owned(),
        secure: production,
        path: "/",
        max_age_ms,
    }
}

/// The cookie that removes a refresh token under the path that was used before.
pub fn clear_legacy_refresh_cookie(production: bool) -> (r: CookieSpec)
    ensures
        is_cookie(r, REFRESH_COOKIE, Seq::empty(), production, "/api/auth/refresh", 0),
{
    CookieSpec {
        name: REFRESH_COOKIE,
        value: String::new(),
        secure: production,
        path: "/api/auth/refresh",
        max_age_ms: 0,
    }
}

/// The cookie that removes the refresh token.
pub fn clear_refresh_cookie(production: bool) -> (r: CookieSpec)
    ensures
        is_cookie(r, REFRESH_COOKIE, Seq::empty(), production, "/", 0),
{
    CookieSpec {
        name: REFRESH_COOKIE,
        value: String::new(),
        secure: production,
        path: "/",
        max_age_ms: 0,
    }
}

/// Why an account cannot be used, as its user is told.
pub struct AccountStatus {
    pub status: u16,
    pub message: String,
    pub code: Option<&'static str>,
}

/// A reason that was given, or what is said without one.
pub open spec fn reason_or(reason: Option<String>, without: &'static str) -> Seq<char> {
    if trimmed(text_or_empty(reason)).len() > 0 {
        trimmed(text_or_empty(reason))
    } else {
        without@
    }
}

fn reason_or_default(reason: &Option<String>, without: &'static str) -> (r: String)
    ensures
        r@ == reason_or(*reason, without),
{
    let t = text::trim(text::or_empty(reason));
    if t.is_empty() {
        without.to_owned()
    } else {
        t.to_owned()
    }
}

/// Why an account cannot be used, and the code of the reason: disabled first, then inactive,
/// then banned, then blocked.
pub open spec fn account_status_of(user: User) -> Option<(Seq<char>, Option<&'static str>)> {
    if user.is_disabled {
        Some(
            (
                "Konto zostało wyłączone. Skontaktuj się z administracją, aby je przywrócić."@,
                Some("ACCOUNT_DISABLED"),
            ),
        )
    } else if !user.is_active {
        Some(("Konto jest nieaktywne. Skontaktuj się z administracją."@, None))
    } else if user.is_banned {
        Some(
            (
                reason_or(
                    user.block_reason,
                    "Konto zostało zbanowane za naruszenie regulaminu.",
                ),
                Some("ACCOUNT_BANNED"),
            ),
        )
    } else if user.is_blocked {
        Some(
            (reason_or(user.block_reason, "Konto jest zablokowane."), Some("ACCOUNT_BLOCKED")),
        )
    } else {
        None
    }
}

/// Why an account cannot be used, as its user is told; none if it can.
pub fn account_status_response(user: &User) -> (r: Option<AccountStatus>)
    ensures
        match r {
            Some(s) => account_status_of(*user) == Some((s.message@, s.code)) && s.status == 403,
            None => account_status_of(*user) is None,
        },
{
    if user.is_disabled {
        return Some(
            AccountStatus {
                status: 403,
                message:
                    "Konto zostało wyłączone. Skontaktuj się z administracją, aby je przywrócić.".to_owned(),
                code: Some("ACCOUNT_DISABLED"),
            },
        );
    }
    if !user.is_active {
        return Some(
            AccountStatus {
                status: 403,
                message: "Konto jest nieaktywne. Skontaktuj się z administracją.".to_owned(),
                code: None,
            },
        );
    }
    if user.is_banned {
        return Some(
            AccountStatus {
                status: 403,
                message: reason_or_default(
                    &user.block_reason,
                    "Konto zostało zbanowane za naruszenie regulaminu.",
                ),
                code: Some("ACCOUNT_BANNED"),
            },
        );
    }
    if user.is_blocked {
        return Some(
            AccountStatus {
                status: 403,
                message: reason_or_default(&user.block_reason, "Konto jest zablokowane."),
                code: Some("ACCOUNT_BLOCKED"),
            },
        );
    }
    None
}

/// An account is refused exactly if it may not be used.
pub proof fn status_refuses_what_may_not_log_in(user: User)
    ensures
        account_status_of(user) is None <==> user.may_log_in(),
{
}

/// What a lookup of an account said.
#[derive(Clone, Copy, Debug, PartialEq, Eq, Structural)]
pub enum AccountLookup {
    Found { may_log_in: bool, two_factor: bool },
    Missing,
    Failed,
}

/// What is known so far about a login.
#[derive(Clone, Copy, Debug)]
pub struct LoginFacts {
    /// Whether the trimmed username looks like a mail address.
    pub looks_like_email: bool,
    pub account: Option<AccountLookup>,
    pub password: Option<PasswordCheck>,
    /// Whether a token for the second factor could be made.
    pub challenge: Option<bool>,
}

/// What to do next about a login.
#[derive(Clone, Copy, Debug)]
pub enum LoginNext {
    Reply(Reply),
    FindAccount,
    CheckPassword,
    /// Answer why the account cannot be used, held back for a moment.
    RefuseAccount,
    MakeChallenge,
    /// Ask for the second factor.
    AskSecondFactor,
    /// Let the user in.
    Enter,
}

/// What to do next about a login. `normalized` is the normalised username. The first factor
/// is checked before anything is said about the account.
pub open spec fn login_next(body: &CredentialsBody, normalized: Seq<char>, facts: &LoginFacts) -> LoginNext {
    if gives_email(body, facts.looks_like_email) {
        LoginNext::Reply(
            slow_reply(
                400,
                "Logowanie odbywa się przez nazwę użytkownika, nie adres e-mail.",
            ),
        )
    } else if normalized.len() == 0 || text_or_empty(body.password).len() == 0 {
        LoginNext::Reply(slow_reply(400, "Username and password are required"))
    } else if !is_username(normalized) {
        LoginNext::Reply(slow_reply(400, "Invalid credentials"))
    } else {
        match (facts.account, facts.password) {
            (None, _) => LoginNext::FindAccount,
            (Some(AccountLookup::Missing), _) => LoginNext::Reply(
                noted_reply(400, "Invalid credentials", "user_not_found"),
            ),
            (Some(AccountLookup::Failed), _) => LoginNext::Reply(internal_error()),
            (Some(AccountLookup::Found { .. }), None) => LoginNext::CheckPassword,
            (Some(AccountLookup::Found { .. }), Some(PasswordCheck::Unavailable)) =>
                LoginNext::Reply(unavailable()),
            (Some(AccountLookup::Found { .. }), Some(PasswordCheck::Differs)) => LoginNext::Reply(
                noted_reply(400, "Invalid credentials", "invalid_password"),
            ),
            (
                Some(AccountLookup::Found { may_log_in, two_factor }),
                Some(PasswordCheck::Matches),
            ) => if !may_log_in {
                LoginNext::RefuseAccount
            } else if two_factor {
                match facts.challenge {
                    None => LoginNext::MakeChallenge,
                    Some(true) => LoginNext::AskSecondFactor,
                    Some(false) => LoginNext::Reply(internal_error()),
                }
            } else {
                LoginNext::Enter
            },
        }
    }
}

/// What to do next about a login. `normalized` is the normalised username. The first factor
/// is checked before anything is said about the account.
pub fn login(body: &CredentialsBody, normalized: &str, facts: &LoginFacts) -> (r: LoginNext)
    ensures
        r == login_next(body, normalized@, facts),
{
    if gives_email(body, facts.looks_like_email) {
        LoginNext::Reply(
            slow_reply(
                400,
                "Logowanie odbywa się przez nazwę użytkownika, nie adres e-mail.",
            ),
        )
    } else if normalized.is_empty() || text::or_empty(&body.password).is_empty() {
        LoginNext::Reply(slow_reply(400, "Username and password are required"))
    } else if !is_valid_username(normalized) {
        LoginNext::Reply(slow_reply(400, "Invalid credentials"))
    } else {
        match (facts.account, facts.password) {
            (None, _) => LoginNext::FindAccount,
            (Some(AccountLookup::Missing), _) => LoginNext::Reply(
                noted_reply(400, "Invalid credentials", "user_not_found"),
            ),
            (Some(AccountLookup::Failed), _) => LoginNext::Reply(internal_error()),
            (Some(AccountLookup::Found { .. }), None) => LoginNext::CheckPassword,
            (Some(AccountLookup::Found { .. }), Some(PasswordCheck::Unavailable)) =>
                LoginNext::Reply(unavailable()),
            (Some(AccountLookup::Found { .. }), Some(PasswordCheck::Differs)) => LoginNext::Reply(
                noted_reply(400, "Invalid credentials", "invalid_password"),
            ),
            (
                Some(AccountLookup::Found { may_log_in, two_factor }),
                Some(PasswordCheck::Matches),
            ) => if !may_log_in {
                LoginNext::RefuseAccount
            } else if two_factor {
                match facts.challenge {
                    None => LoginNext::MakeChallenge,
                    Some(true) => LoginNext::AskSecondFactor,
                    Some(false) => LoginNext::Reply(internal_error()),
                }
            } else {
                LoginNext::Enter
            },
        }
    }
}

/// What a login comes to, outcome by outcome: the account is looked for, the password is checked, and
/// with the right one an account that may not be used is refused, one with a second factor is asked
/// for it, and any other is entered.
pub proof fn right_passwords_enter(
    body: &CredentialsBody,
    normalized: Seq<char>,
    facts: &LoginFacts,
    may_log_in: bool,
    two_factor: bool,
)
    requires
        crate::controllers::signup::complete_credentials(body, normalized, facts.looks_like_email),
        is_username(normalized),
        facts.account matches Some(AccountLookup::Found { may_log_in: m, two_factor: t }) ==> m
            == may_log_in && t == two_factor,
    ensures
        ({
            let next = login_next(body, normalized, facts);
            let found = facts.account == Some(AccountLookup::Found { may_log_in, two_factor });
            let right = found && facts.password == Some(PasswordCheck::Matches);
            let second = right && may_log_in && two_factor;
            &&& next is FindAccount <==> facts.account is None
            &&& next is CheckPassword <==> found && facts.password is None
            &&& next is RefuseAccount <==> right && !may_log_in
            &&& next is MakeChallenge <==> second && facts.challenge is None
            &&& next is AskSecondFactor <==> second && facts.challenge == Some(true)
            &&& next is Enter <==> right && may_log_in && !two_factor
            &&& facts.account == Some(AccountLookup::Missing) ==> next == LoginNext::Reply(
                crate::reply::noted_reply_of(400, "Invalid credentials", "user_not_found"),
            )
            &&& facts.account == Some(AccountLookup::Failed) ==> next == LoginNext::Reply(
                crate::reply::internal_error_of(),
            )
            &&& found && facts.password == Some(PasswordCheck::Unavailable) ==> next
                == LoginNext::Reply(crate::reply::unavailable_of())
            &&& found && facts.password == Some(PasswordCheck::Differs) ==> next
                == LoginNext::Reply(
                crate::reply::noted_reply_of(400, "Invalid credentials", "invalid_password"),
            )
            &&& second && facts.challenge == Some(false) ==> next == LoginNext::Reply(
                crate::reply::internal_error_of(),
            )
        }),
{
}

/// A login that cannot be looked at is answered before anything is asked, and held back for a moment.
pub proof fn incomplete_logins_are_answered_at_once(
    body: &CredentialsBody,
    normalized: Seq<char>,
    facts: &LoginFacts,
)
    ensures
        ({
            let next = login_next(body, normalized, facts);
            let mail = facts.looks_like_email || (trimmed(text_or_empty(body.username)).len() == 0
                && trimmed(text_or_empty(body.email)).len() > 0);
            let given = normalized.len() > 0 && text_or_empty(body.password).len() > 0;
            &&& mail ==> next == LoginNext::Reply(
                crate::reply::slow_reply_of(
                    400,
                    "Logowanie odbywa się przez nazwę użytkownika, nie adres e-mail.",
                ),
            )
            &&& !mail && !given ==> next == LoginNext::Reply(
                crate::reply::slow_reply_of(400, "Username and password are required"),
            )
            &&& !mail && given && !is_username(normalized) ==> next == LoginNext::Reply(
                crate::reply::slow_reply_of(400, "Invalid credentials"),
            )
        }),
{
}

/// A login by name and password enters only an account that may be used and has no second
/// factor, with the right password.
pub proof fn passwords_alone_enter_unprotected_accounts_only(
    body: &CredentialsBody,
    normalized: Seq<char>,
    facts: &LoginFacts,
)
    ensures
        login_next(body, normalized, facts) is Enter ==> facts.account == Some(
            AccountLookup::Found { may_log_in: true, two_factor: false },
        ) && facts.password == Some(PasswordCheck::Matches) && is_username(normalized),
        login_next(body, normalized, facts) is AskSecondFactor || login_next(
            body,
            normalized,
            facts,
        ) is RefuseAccount ==> facts.password == Some(PasswordCheck::Matches),
{
}

/// Who gives a wrong password and who names nobody are told the same.
pub proof fn unknown_names_are_not_told_apart(
    body: &CredentialsBody,
    normalized: Seq<char>,
    a: &LoginFacts,
    b: &LoginFacts,
)
    requires
        !names_email(body, a.looks_like_email),
        a.looks_like_email == b.looks_like_email,
        text_or_empty(body.password).len() > 0,
        is_username(normalized),
        a.account == Some(AccountLookup::Missing),
        b.account matches Some(AccountLookup::Found { .. }),
        b.password == Some(PasswordCheck::Differs),
    ensures
        match (login_next(body, normalized, a), login_next(body, normalized, b)) {
            (LoginNext::Reply(r), LoginNext::Reply(s)) => r.status == s.status && r.body == s.body
                && r.delayed == s.delayed,
            _ => false,
        },
{
}

/// What is known so far about an answer that lets somebody in.
#[derive(Clone, Copy, Debug)]
pub struct EntryFacts {
    /// Whether the account has an identifier.
    pub has_id: bool,
    /// Whether a refresh token could be issued.
    pub refresh: Option<bool>,
    /// Whether an access token could be made.
    pub access: Option<bool>,
}

/// What to do next about an answer that lets somebody in.
#[derive(Clone, Copy, Debug)]
pub enum EntryNext {
    Reply(Reply),
    IssueRefresh,
    MakeAccess,
    /// Answer with the tokens as cookies, and the account.
    Welcome,
}

/// What to do next about an answer that lets somebody in.
pub open spec fn login_response_next(facts: &EntryFacts) -> EntryNext {
    if !facts.has_id {
        EntryNext::Reply(internal_error())
    } else {
        match (facts.refresh, facts.access) {
            (None, _) => EntryNext::IssueRefresh,
            (Some(false), _) => EntryNext::Reply(internal_error()),
            (Some(true), None) => EntryNext::MakeAccess,
            (Some(true), Some(false)) => EntryNext::Reply(internal_error()),
            (Some(true), Some(true)) => EntryNext::Welcome,
        }
    }
}

/// What to do next about an answer that lets somebody in.
pub fn login_response(facts: &EntryFacts) -> (r: EntryNext)
    ensures
        r == login_response_next(facts),
{
    if !facts.has_id {
        EntryNext::Reply(internal_error())
    } else {
        match (facts.refresh, facts.access) {
            (None, _) => EntryNext::IssueRefresh,
            (Some(false), _) => EntryNext::Reply(internal_error()),
            (Some(true), None) => EntryNext::MakeAccess,
            (Some(true), Some(false)) => EntryNext::Reply(internal_error()),
            (Some(true), Some(true)) => EntryNext::Welcome,
        }
    }
}

/// Somebody is let in exactly once a refresh token was issued and an access token was made, in this
/// order, for an account with an identifier; whatever fails is an internal error.
pub proof fn both_tokens_let_in(facts: &EntryFacts)
    ensures
        ({
            let next = login_response_next(facts);
            let issued = facts.has_id && facts.refresh == Some(true);
            let failed = !facts.has_id || facts.refresh == Some(false) || (issued && facts.access
                == Some(false));
            &&& next is IssueRefresh <==> facts.has_id && facts.refresh is None
            &&& next is MakeAccess <==> issued && facts.access is None
            &&& next is Welcome <==> issued && facts.access == Some(true)
            &&& next is Reply <==> failed
            &&& failed ==> next == EntryNext::Reply(crate::reply::internal_error_of())
        }),
{
}

/// A code and the token that asks for it.
pub struct TwoFactorLoginBody {
    pub two_factor: Option<String>,
    pub code: Option<String>,
}

/// What is known so far about a code.
#[derive(Clone, Copy, Debug)]
pub struct CodeFacts {
    /// Whether the code is of the kind that changes with time.
    pub is_totp: bool,
    /// Whether the account has a secret for such codes.
    pub has_secret: bool,
    pub decrypted: Option<bool>,
    /// Whether the code is right; an error if that could not be found out.
    pub totp: Option<Result<bool, ()>>,
    /// Whether the account has backup codes.
    pub has_backup: bool,
    /// Which backup code it is; an error if that could not be found out.
    pub backup: Option<Result<Option<usize>, ()>>,
}

/// What to do next about a code.
#[derive(Clone, Copy, Debug, PartialEq, Eq, Structural)]
pub enum CodeNext {
    Decrypt,
    VerifyTotp,
    VerifyBackup,
    Unavailable,
    Wrong,
    /// It is right; if it is a backup code, the one with this number.
    Right { used: Option<usize> },
}

/// What to do next about a code: one that changes with time is held against the secret, any
/// other against the backup codes.
pub open spec fn check_code_next(facts: CodeFacts) -> CodeNext {
    if facts.is_totp {
        if !facts.has_secret {
            CodeNext::Wrong
        } else {
            match (facts.decrypted, facts.totp) {
                (None, _) => CodeNext::Decrypt,
                (Some(false), _) => CodeNext::Unavailable,
                (Some(true), None) => CodeNext::VerifyTotp,
                (Some(true), Some(Err(_))) => CodeNext::Unavailable,
                (Some(true), Some(Ok(true))) => CodeNext::Right { used: None },
                (Some(true), Some(Ok(false))) => CodeNext::Wrong,
            }
        }
    } else if !facts.has_backup {
        CodeNext::Wrong
    } else {
        match facts.backup {
            None => CodeNext::VerifyBackup,
            Some(Err(_)) => CodeNext::Unavailable,
            Some(Ok(Some(index))) => CodeNext::Right { used: Some(index) },
            Some(Ok(None)) => CodeNext::Wrong,
        }
    }
}

/// What to do next about a code: one that changes with time is held against the secret, any
/// other against the backup codes.
#[verifier::when_used_as_spec(check_code_next)]
pub fn check_code(facts: CodeFacts) -> (r: CodeNext)
    ensures
        r == check_code_next(facts),
{
    if facts.is_totp {
        if !facts.has_secret {
            CodeNext::Wrong
        } else {
            match (facts.decrypted, facts.totp) {
                (None, _) => CodeNext::Decrypt,
                (Some(false), _) => CodeNext::Unavailable,
                (Some(true), None) => CodeNext::VerifyTotp,
                (Some(true), Some(Err(_))) => CodeNext::Unavailable,
                (Some(true), Some(Ok(true))) => CodeNext::Right { used: None },
                (Some(true), Some(Ok(false))) => CodeNext::Wrong,
            }
        }
    } else if !facts.has_backup {
        CodeNext::Wrong
    } else {
        match facts.backup {
            None => CodeNext::VerifyBackup,
            Some(Err(_)) => CodeNext::Unavailable,
            Some(Ok(Some(index))) => CodeNext::Right { used: Some(index) },
            Some(Ok(None)) => CodeNext::Wrong,
        }
    }
}

/// A code that changes with time is right exactly if the account has a secret that can be read and
/// the code was found right against it; any other exactly if it was found among the backup codes, and
/// then it is that one. What cannot be found out is told apart from what is wrong.
pub proof fn codes_are_held_against_their_kind(facts: CodeFacts, i: usize)
    ensures
        ({
            let next = check_code_next(facts);
            let read = facts.is_totp && facts.has_secret && facts.decrypted == Some(true);
            let backup = !facts.is_totp && facts.has_backup;
            &&& next == (CodeNext::Right { used: None }) <==> read && facts.totp == Some(
                Ok::<bool, ()>(true),
            )
            &&& next == (CodeNext::Right { used: Some(i) }) <==> backup && facts.backup == Some(
                Ok::<Option<usize>, ()>(Some(i)),
            )
            &&& next is Decrypt <==> facts.is_totp && facts.has_secret && facts.decrypted is None
            &&& next is VerifyTotp <==> read && facts.totp is None
            &&& next is VerifyBackup <==> backup && facts.backup is None
            &&& next is Unavailable <==> (facts.is_totp && facts.has_secret && facts.decrypted
                == Some(false)) || (read && facts.totp is Some && facts.totp->0 is Err) || (backup
                && facts.backup is Some && facts.backup->0 is Err)
            &&& next is Wrong <==> (facts.is_totp && !facts.has_secret) || (read && facts.totp
                == Some(Ok::<bool, ()>(false))) || (!facts.is_totp && !facts.has_backup) || (backup
                && facts.backup == Some(Ok::<Option<usize>, ()>(None)))
        }),
{
}

/// A code is right only if it was found to be.
pub proof fn right_codes_were_verified(facts: CodeFacts)
    ensures
        check_code_next(facts) matches CodeNext::Right { used } ==> if facts.is_totp {
            facts.totp == Some(Ok::<bool, ()>(true)) && used is None
        } else {
            facts.backup matches Some(Ok(Some(i))) && used == Some(i)
        },
{
}

/// What is known so far about the second step of a login.
#[derive(Clone, Copy, Debug)]
pub struct SecondFacts {
    /// The user that the token names; none if it names none. An error if it cannot be read.
    pub token: Option<Result<Option<ObjectId>, ()>>,
    pub account: Option<AccountLookup>,
    pub code: CodeFacts,
    /// What became of saving the backup codes that are left.
    pub saved: Option<Written>,
}

/// What to do next about the second step of a login.
#[derive(Clone, Copy, Debug)]
pub enum SecondNext {
    Reply(Reply),
    ReadToken,
    /// Answer with what is wrong with the token, held back for a moment.
    RefuseToken,
    FindAccount(ObjectId),
    RefuseAccount,
    Code(CodeNext),
    SaveCodes { used: usize },
    Enter,
}

/// What to do next about the second step of a login.
pub open spec fn verify_two_factor_login_next(body: &TwoFactorLoginBody, facts: &SecondFacts) -> SecondNext {
    if trimmed(text_or_empty(body.two_factor)).len() == 0 || trimmed(text_or_empty(body.code)).len() == 0 {
        SecondNext::Reply(slow_reply(400, "Two-factor token and code are required."))
    } else {
        match (facts.token, facts.account) {
            (None, _) => SecondNext::ReadToken,
            (Some(Err(_)), _) => SecondNext::RefuseToken,
            (Some(Ok(None)), _) => SecondNext::Reply(slow_reply(400, "Invalid two-factor token.")),
            (Some(Ok(Some(id))), None) => SecondNext::FindAccount(id),
            (Some(Ok(Some(_))), Some(AccountLookup::Missing)) => SecondNext::Reply(
                slow_reply(400, "Invalid two-factor token."),
            ),
            (Some(Ok(Some(_))), Some(AccountLookup::Failed)) => SecondNext::Reply(
                internal_error(),
            ),
            (Some(Ok(Some(_))), Some(AccountLookup::Found { may_log_in, two_factor })) => if !two_factor {
                SecondNext::Reply(slow_reply(400, "Two-factor authentication is not enabled."))
            } else if !may_log_in {
                SecondNext::RefuseAccount
            } else {
                match check_code(facts.code) {
                    CodeNext::Unavailable => SecondNext::Reply(unavailable()),
                    CodeNext::Wrong => SecondNext::Reply(
                        slow_reply(400, "Invalid authentication code."),
                    ),
                    CodeNext::Right { used: None } => SecondNext::Enter,
                    CodeNext::Right { used: Some(used) } => match facts.saved {
                        None => SecondNext::SaveCodes { used },
                        Some(Written::Done) => SecondNext::Enter,
                        Some(Written::Missing) => SecondNext::Reply(
                            message_reply(404, "User not found."),
                        ),
                        Some(Written::Failed) => SecondNext::Reply(unavailable()),
                    },
                    more => SecondNext::Code(more),
                }
            },
        }
    }
}

/// What to do next about the second step of a login.
pub fn verify_two_factor_login(body: &TwoFactorLoginBody, facts: &SecondFacts) -> (r: SecondNext)
    ensures
        r == verify_two_factor_login_next(body, facts),
{
    if text::is_blank(text::or_empty(&body.two_factor)) || text::is_blank(text::or_empty(&body.code)) {
        SecondNext::Reply(slow_reply(400, "Two-factor token and code are required."))
    } else {
        match (facts.token, facts.account) {
            (None, _) => SecondNext::ReadToken,
            (Some(Err(_)), _) => SecondNext::RefuseToken,
            (Some(Ok(None)), _) => SecondNext::Reply(slow_reply(400, "Invalid two-factor token.")),
            (Some(Ok(Some(id))), None) => SecondNext::FindAccount(id),
            (Some(Ok(Some(_))), Some(AccountLookup::Missing)) => SecondNext::Reply(
                slow_reply(400, "Invalid two-factor token."),
            ),
            (Some(Ok(Some(_))), Some(AccountLookup::Failed)) => SecondNext::Reply(
                internal_error(),
            ),
            (Some(Ok(Some(_))), Some(AccountLookup::Found { may_log_in, two_factor })) => if !two_factor {
                SecondNext::Reply(slow_reply(400, "Two-factor authentication is not enabled."))
            } else if !may_log_in {
                SecondNext::RefuseAccount
            } else {
                match check_code(facts.code) {
                    CodeNext::Unavailable => SecondNext::Reply(unavailable()),
                    CodeNext::Wrong => SecondNext::Reply(
                        slow_reply(400, "Invalid authentication code."),
                    ),
                    CodeNext::Right { used: None } => SecondNext::Enter,
                    CodeNext::Right { used: Some(used) } => match facts.saved {
                        None => SecondNext::SaveCodes { used },
                        Some(Written::Done) => SecondNext::Enter,
                        Some(Written::Missing) => SecondNext::Reply(
                            message_reply(404, "User not found."),
                        ),
                        Some(Written::Failed) => SecondNext::Reply(unavailable()),
                    },
                    more => SecondNext::Code(more),
                }
            },
        }
    }
}

/// What the second step of a login comes to, outcome by outcome: the token is read, the account that
/// it names is looked for, the code is checked, a backup code that was right is taken out, and then
/// the account is entered; each goes on exactly if the one before it went well.
pub proof fn right_codes_enter(
    body: &TwoFactorLoginBody,
    facts: &SecondFacts,
    id: ObjectId,
    used: usize,
)
    requires
        trimmed(text_or_empty(body.two_factor)).len() > 0,
        trimmed(text_or_empty(body.code)).len() > 0,
    ensures
        ({
            let next = verify_two_factor_login_next(body, facts);
            let named = facts.token is Some && facts.token->0 is Ok && facts.token->0->Ok_0 is Some;
            let open = named && facts.account == Some(
                AccountLookup::Found { may_log_in: true, two_factor: true },
            );
            let code = check_code_next(facts.code);
            let backup = open && code is Right && code->used is Some;
            &&& next is ReadToken <==> facts.token is None
            &&& next is RefuseToken <==> facts.token is Some && facts.token->0 is Err
            &&& next == SecondNext::FindAccount(id) <==> facts.token == Some(
                Ok::<Option<ObjectId>, ()>(Some(id)),
            ) && facts.account is None
            &&& next is RefuseAccount <==> named && facts.account == Some(
                AccountLookup::Found { may_log_in: false, two_factor: true },
            )
            &&& next is Enter <==> (open && code == (CodeNext::Right { used: None })) || (backup
                && facts.saved == Some(Written::Done))
            &&& next == (SecondNext::SaveCodes { used }) <==> open && code == (CodeNext::Right {
                used: Some(used),
            }) && facts.saved is None
            &&& next is Code <==> open && (code is Decrypt || code is VerifyTotp || code
                is VerifyBackup)
            &&& next is Code ==> next == SecondNext::Code(code)
            &&& open && code is Wrong ==> next == SecondNext::Reply(
                crate::reply::slow_reply_of(400, "Invalid authentication code."),
            )
            &&& open && code is Unavailable ==> next == SecondNext::Reply(
                crate::reply::unavailable_of(),
            )
            &&& backup && facts.saved == Some(Written::Missing) ==> next == SecondNext::Reply(
                crate::reply::message_reply_of(404, "User not found."),
            )
            &&& backup && facts.saved == Some(Written::Failed) ==> next == SecondNext::Reply(
                crate::reply::unavailable_of(),
            )
            &&& named && facts.account is Some && facts.account->0 is Found
                && !facts.account->0->two_factor ==> next == SecondNext::Reply(
                crate::reply::slow_reply_of(400, "Two-factor authentication is not enabled."),
            )
            &&& named && facts.account == Some(AccountLookup::Failed) ==> next == SecondNext::Reply(
                crate::reply::internal_error_of(),
            )
            &&& (named && facts.account == Some(AccountLookup::Missing)) || facts.token == Some(
                Ok::<Option<ObjectId>, ()>(None),
            ) ==> next == SecondNext::Reply(
                crate::reply::slow_reply_of(400, "Invalid two-factor token."),
            )
        }),
{
}

/// Without a token or a code nothing is asked.
pub proof fn second_steps_need_token_and_code(body: &TwoFactorLoginBody, facts: &SecondFacts)
    requires
        trimmed(text_or_empty(body.two_factor)).len() == 0 || trimmed(text_or_empty(body.code)).len()
            == 0,
    ensures
        verify_two_factor_login_next(body, facts) == SecondNext::Reply(
            crate::reply::slow_reply_of(400, "Two-factor token and code are required."),
        ),
{
}

/// The second step of a login enters only an account that may be used, with a right code; a
/// backup code enters only once it is taken out of the stored ones.
pub proof fn second_step_needs_a_right_code(body: &TwoFactorLoginBody, facts: &SecondFacts)
    ensures
        verify_two_factor_login_next(body, facts) is Enter ==> {
            &&& facts.account == Some(AccountLookup::Found { may_log_in: true, two_factor: true })
            &&& check_code_next(facts.code) matches CodeNext::Right { used } && (used is Some
                ==> facts.saved == Some(Written::Done))
        },
{
}

/// The user that a token for the second step names, once it was read.
pub fn challenge_user(user_id: &str) -> (r: Option<ObjectId>)
    ensures
        r == parsed_id(user_id@),
{
    ObjectId::parse_str(user_id)
}

/// Which of several reasons an account cannot be used for is told: that it is disabled before that it
/// is inactive, banned or blocked, in this order. A ban and a block are told with the reason that was
/// given, if something is left of it without the white space around it.
pub proof fn unusable_accounts_say_why(user: User)
    ensures
        ({
            let s = account_status_of(user);
            let told = s->0;
            let active = !user.is_disabled && user.is_active;
            let banned = active && user.is_banned;
            let blocked = active && !user.is_banned && user.is_blocked;
            let reason = trimmed(text_or_empty(user.block_reason));
            &&& s is None <==> active && !user.is_banned && !user.is_blocked
            &&& user.is_disabled ==> told.1 == Some("ACCOUNT_DISABLED")
            &&& !user.is_disabled && !user.is_active ==> told.1 is None
            &&& banned ==> told.1 == Some("ACCOUNT_BANNED")
            &&& blocked ==> told.1 == Some("ACCOUNT_BLOCKED")
            &&& (banned || blocked) && reason.len() > 0 ==> told.0 == reason
            &&& banned && reason.len() == 0 ==> told.0
                == "Konto zostało zbanowane za naruszenie regulaminu."@
            &&& blocked && reason.len() == 0 ==> told.0 == "Konto jest zablokowane."@
            &&& user.is_disabled ==> told.0
                == "Konto zostało wyłączone. Skontaktuj się z administracją, aby je przywrócić."@
            &&& !user.is_disabled && !user.is_active ==> told.0
                == "Konto jest nieaktywne. Skontaktuj się z administracją."@
        }),
{
}

/// A cookie is the one that is asked for exactly if all five of its parts are.
pub proof fn cookies_are_told_by_their_parts(
    c: CookieSpec,
    name: &'static str,
    value: Seq<char>,
    secure: bool,
    path: &'static str,
    max_age_ms: i64,
)
    ensures
        is_cookie(c, name, value, secure, path, max_age_ms) ==> c.name == name && c.value@ == value
            && c.secure == secure && c.path == path && c.max_age_ms == max_age_ms,
        c.name == name && c.value@ == value && c.secure == secure && c.path == path && c.max_age_ms
            == max_age_ms ==> is_cookie(c, name, value, secure, path, max_age_ms),
{
}

} // verus!
