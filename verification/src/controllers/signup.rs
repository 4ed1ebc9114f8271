//! Making a new account.
use vstd::prelude::*;
use crate::answers::Answer;
use crate::model::users::{is_username, is_valid_username};
use crate::reply::{coded_reply, message_reply, noted_reply, slow_reply, unavailable, Reply,
    ReplyBody};
use crate::text::{self, text_or_empty, trimmed};
use crate::utils::registration::SignupQuotaError;

verus! {

/// The name and password that an account is made or entered with.
pub struct CredentialsBody {
    pub username: Option<String>,
    pub email: Option<String>,
    pub password: Option<String>,
    pub language: Option<String>,
}

/// Whether a password is known to have leaked.
#[derive(Clone, Copy, Debug, PartialEq, Eq, Structural)]
pub enum PasswordBreachCheck {
    Safe,
    Breached,
    Unavailable,
}

/// Whether credentials name a mail address in place of a username; `looks_like_email` says
/// whether the trimmed username looks like one.
pub open spec fn names_email(body: &CredentialsBody, looks_like_email: bool) -> bool {
    (trimmed(text_or_empty(body.username)).len() == 0 && trimmed(text_or_empty(body.email)).len()
        > 0) || looks_like_email
}

/// Whether credentials name a mail address in place of a username.
#[verifier::when_used_as_spec(names_email)]
pub fn gives_email(body: &CredentialsBody, looks_like_email: bool) -> (r: bool)
    ensures
        r == names_email(body, looks_like_email),
{
    (text::is_blank(text::or_empty(&body.username)) && !text::is_blank(
        text::or_empty(&body.email),
    )) || looks_like_email
}

/// What is known so far about a new account.
#[derive(Clone, Copy, Debug)]
pub struct SignupFacts {
    /// Whether new accounts can be made.
    pub open: bool,
    /// Whether the trimmed username looks like a mail address.
    pub looks_like_email: bool,
    /// Whether the name is taken.
    pub taken: Option<Answer>,
    pub breach: Option<PasswordBreachCheck>,
    /// Whether there is a place for one more account.
    pub slot: Option<Result<(), SignupQuotaError>>,
    /// Whether the account could be made.
    pub created: Option<bool>,
    /// After that failed: whether the store could be asked for the name.
    pub asked_again: Option<bool>,
}

/// What to do next about a new account.
#[derive(Clone, Copy, Debug)]
pub enum SignupNext {
    Reply(Reply),
    AskTaken,
    CheckBreach,
    TakeSlot,
    Create,
    AskTakenAgain,
    /// The account is made: this is the answer, with the account under `user`.
    Created(Reply),
}

/// What people are told whose account cannot be made under this name.
pub open spec fn cannot_create() -> &'static str {
    "Nie można utworzyć konta. Sprawdź dane lub wybierz inną nazwę użytkownika."
}

/// The answer when there is no place for one more account.
pub open spec fn quota_reply_of(e: SignupQuotaError) -> Reply {
    Reply {
        status: if e == SignupQuotaError::Unavailable {
            503
        } else {
            429
        },
        body: ReplyBody::Message {
            message: e.told(),
            code: Some(e.name()),
            retryable: e == SignupQuotaError::Unavailable,
        },
        delayed: false,
        report: Some(e.name()),
    }
}

/// The answer when there is no place for one more account.
#[verifier::when_used_as_spec(quota_reply_of)]
pub fn quota_reply(e: SignupQuotaError) -> (r: Reply)
    ensures
        r == quota_reply_of(e),
{
    let down = e == SignupQuotaError::Unavailable;
    Reply {
        status: if down {
            503
        } else {
            429
        },
        body: ReplyBody::Message {
            message: e.user_message(),
            code: Some(e.code()),
            retryable: down,
        },
        delayed: false,
        report: Some(e.code()),
    }
}

/// What to do next about a new account. `normalized` is the normalised username.
pub open spec fn signup_next(body: &CredentialsBody, normalized: Seq<char>, facts: &SignupFacts) -> SignupNext {
    if !facts.open {
        SignupNext::Reply(
            coded_reply(
                403,
                "Rejestracja nowych kont jest obecnie wyłączona.",
                "REGISTRATION_DISABLED",
            ),
        )
    } else if gives_email(body, facts.looks_like_email) {
        SignupNext::Reply(
            message_reply(
                400,
                "Rejestracja odbywa się przez nazwę użytkownika, nie adres e-mail.",
            ),
        )
    } else if normalized.len() == 0 || text_or_empty(body.password).len() == 0 {
        SignupNext::Reply(message_reply(400, "Username and password are required"))
    } else if !is_username(normalized) {
        SignupNext::Reply(
            message_reply(
                400,
                "Nie można utworzyć konta. Sprawdź dane lub wybierz inną nazwę użytkownika.",
            ),
        )
    } else {
        match (facts.taken, facts.breach, facts.slot) {
            (None, _, _) => SignupNext::AskTaken,
            (Some(Answer::Yes), _, _) => SignupNext::Reply(
                noted_reply(
                    400,
                    "Nie można utworzyć konta. Sprawdź dane lub wybierz inną nazwę użytkownika.",
                    "username_taken",
                ),
            ),
            (Some(Answer::Failed), _, _) => SignupNext::Reply(
                message_reply(500, "Internal Server Error"),
            ),
            (Some(Answer::No), None, _) => SignupNext::CheckBreach,
            (Some(Answer::No), Some(PasswordBreachCheck::Breached), _) => SignupNext::Reply(
                coded_reply(
                    400,
                    "To hasło pojawiło się w wycieku danych. Wybierz inne, bezpieczniejsze hasło.",
                    "PASSWORD_BREACHED",
                ),
            ),
            (Some(Answer::No), Some(PasswordBreachCheck::Unavailable), _) => SignupNext::Reply(
                message_reply(
                    503,
                    "Nie można teraz zweryfikować hasła. Spróbuj ponownie za chwilę.",
                ),
            ),
            (Some(Answer::No), Some(PasswordBreachCheck::Safe), None) => SignupNext::TakeSlot,
            (Some(Answer::No), Some(PasswordBreachCheck::Safe), Some(Err(e))) =>
                SignupNext::Reply(quota_reply(e)),
            (Some(Answer::No), Some(PasswordBreachCheck::Safe), Some(Ok(_))) => match (
                facts.created,
                facts.asked_again,
            ) {
                (None, _) => SignupNext::Create,
                (Some(true), _) => SignupNext::Created(
                    message_reply(201, "Konto utworzone. Możesz się zalogować."),
                ),
                (Some(false), None) => SignupNext::AskTakenAgain,
                (Some(false), Some(true)) => SignupNext::Reply(
                    slow_reply(
                        400,
                        "Nie można utworzyć konta. Sprawdź dane lub wybierz inną nazwę użytkownika.",
                    ),
                ),
                (Some(false), Some(false)) => SignupNext::Reply(unavailable()),
            },
        }
    }
}

/// What to do next about a new account. `normalized` is the normalised username.
pub fn signup(body: &CredentialsBody, normalized: &str, facts: &SignupFacts) -> (r: SignupNext)
    ensures
        r == signup_next(body, normalized@, facts),
{
    if !facts.open {
        SignupNext::Reply(
            coded_reply(
                403,
                "Rejestracja nowych kont jest obecnie wyłączona.",
                "REGISTRATION_DISABLED",
            ),
        )
    } else if gives_email(body, facts.looks_like_email) {
        SignupNext::Reply(
            message_reply(
                400,
                "Rejestracja odbywa się przez nazwę użytkownika, nie adres e-mail.",
            ),
        )
    } else if normalized.is_empty() || text::or_empty(&body.password).is_empty() {
        SignupNext::Reply(message_reply(400, "Username and password are required"))
    } else if !is_valid_username(normalized) {
        SignupNext::Reply(
            message_reply(
                400,
                "Nie można utworzyć konta. Sprawdź dane lub wybierz inną nazwę użytkownika.",
            ),
        )
    } else {
        match (facts.taken, facts.breach, facts.slot) {
            (None, _, _) => SignupNext::AskTaken,
            (Some(Answer::Yes), _, _) => SignupNext::Reply(
                noted_reply(
                    400,
                    "Nie można utworzyć konta. Sprawdź dane lub wybierz inną nazwę użytkownika.",
                    "username_taken",
                ),
            ),
            (Some(Answer::Failed), _, _) => SignupNext::Reply(
                message_reply(500, "Internal Server Error"),
            ),
            (Some(Answer::No), None, _) => SignupNext::CheckBreach,
            (Some(Answer::No), Some(PasswordBreachCheck::Breached), _) => SignupNext::Reply(
                coded_reply(
                    400,
                    "To hasło pojawiło się w wycieku danych. Wybierz inne, bezpieczniejsze hasło.",
                    "PASSWORD_BREACHED",
                ),
            ),
            (Some(Answer::No), Some(PasswordBreachCheck::Unavailable), _) => SignupNext::Reply(
                message_reply(
                    503,
                    "Nie można teraz zweryfikować hasła. Spróbuj ponownie za chwilę.",
                ),
            ),
            (Some(Answer::No), Some(PasswordBreachCheck::Safe), None) => SignupNext::TakeSlot,
            (Some(Answer::No), Some(PasswordBreachCheck::Safe), Some(Err(e))) =>
                SignupNext::Reply(quota_reply(e)),
            (Some(Answer::No), Some(PasswordBreachCheck::Safe), Some(Ok(_))) => match (
                facts.created,
                facts.asked_again,
            ) {
                (None, _) => SignupNext::Create,
                (Some(true), _) => SignupNext::Created(
                    message_reply(201, "Konto utworzone. Możesz się zalogować."),
                ),
                (Some(false), None) => SignupNext::AskTakenAgain,
                (Some(false), Some(true)) => SignupNext::Reply(
                    slow_reply(
                        400,
                        "Nie można utworzyć konta. Sprawdź dane lub wybierz inną nazwę użytkownika.",
                    ),
                ),
                (Some(false), Some(false)) => SignupNext::Reply(unavailable()),
            },
        }
    }
}

/// Whether credentials can be looked at: a name and a password are given, and the name is neither left
/// out for a mail address nor one itself.
pub open spec fn complete_credentials(
    body: &CredentialsBody,
    normalized: Seq<char>,
    looks_like_email: bool,
) -> bool {
    &&& !looks_like_email
    &&& trimmed(text_or_empty(body.username)).len() > 0 || trimmed(text_or_empty(body.email)).len()
        == 0
    &&& normalized.len() > 0
    &&& text_or_empty(body.password).len() > 0
}

/// What a new account comes to, outcome by outcome: the name is asked for, then the password is
/// checked, then a place is taken, and then the account is made; each of these goes on exactly if the
/// one before it went well, and an account that could not be made is asked for once more.
pub proof fn permitted_accounts_are_made(
    body: &CredentialsBody,
    normalized: Seq<char>,
    facts: &SignupFacts,
)
    requires
        facts.open,
        complete_credentials(body, normalized, facts.looks_like_email),
        is_username(normalized),
    ensures
        ({
            let next = signup_next(body, normalized, facts);
            let free = facts.taken == Some(Answer::No);
            let safe = free && facts.breach == Some(PasswordBreachCheck::Safe);
            let placed = safe && facts.slot is Some && facts.slot->0 is Ok;
            &&& next is AskTaken <==> facts.taken is None
            &&& next is CheckBreach <==> free && facts.breach is None
            &&& next is TakeSlot <==> safe && facts.slot is None
            &&& next is Create <==> placed && facts.created is None
            &&& next is Created <==> placed && facts.created == Some(true)
            &&& next is Created ==> next->Created_0.status == 201
            &&& next is AskTakenAgain <==> placed && facts.created == Some(false)
                && facts.asked_again is None
            &&& next is Reply <==> facts.taken == Some(Answer::Yes) || facts.taken == Some(
                Answer::Failed,
            ) || (free && facts.breach is Some && !safe) || (safe && facts.slot is Some && !placed)
                || (placed && facts.created == Some(false) && facts.asked_again is Some)
        }),
{
}

/// Why a new account is refused, reason by reason.
pub proof fn refused_accounts_say_why(
    body: &CredentialsBody,
    normalized: Seq<char>,
    facts: &SignupFacts,
    e: SignupQuotaError,
)
    requires
        facts.open,
        complete_credentials(body, normalized, facts.looks_like_email),
        is_username(normalized),
    ensures
        ({
            let next = signup_next(body, normalized, facts);
            let free = facts.taken == Some(Answer::No);
            let safe = free && facts.breach == Some(PasswordBreachCheck::Safe);
            let placed = safe && facts.slot is Some && facts.slot->0 is Ok;
            &&& facts.taken == Some(Answer::Yes) ==> next == SignupNext::Reply(
                crate::reply::noted_reply_of(400, cannot_create(), "username_taken"),
            )
            &&& facts.taken == Some(Answer::Failed) ==> next == SignupNext::Reply(
                crate::reply::message_reply_of(500, "Internal Server Error"),
            )
            &&& free && facts.breach == Some(PasswordBreachCheck::Breached) ==> next
                == SignupNext::Reply(
                crate::reply::coded_reply_of(
                    400,
                    "To hasło pojawiło się w wycieku danych. Wybierz inne, bezpieczniejsze hasło.",
                    "PASSWORD_BREACHED",
                ),
            )
            &&& free && facts.breach == Some(PasswordBreachCheck::Unavailable) ==> next
                == SignupNext::Reply(
                crate::reply::message_reply_of(
                    503,
                    "Nie można teraz zweryfikować hasła. Spróbuj ponownie za chwilę.",
                ),
            )
            &&& safe && facts.slot == Some(Err::<(), SignupQuotaError>(e)) ==> next
                == SignupNext::Reply(quota_reply_of(e))
            &&& placed && facts.created == Some(false) && facts.asked_again == Some(true) ==> next
                == SignupNext::Reply(crate::reply::slow_reply_of(400, cannot_create()))
            &&& placed && facts.created == Some(false) && facts.asked_again == Some(false) ==> next
                == SignupNext::Reply(crate::reply::unavailable_of())
            &&& placed && facts.created == Some(true) ==> next == SignupNext::Created(
                crate::reply::message_reply_of(201, "Konto utworzone. Możesz się zalogować."),
            )
        }),
{
}

/// A request for an account that cannot be looked at is answered before anything is asked: while no
/// accounts are made, with a mail address, without a name or a password, and with a name that cannot
/// be.
pub proof fn incomplete_signups_are_answered_at_once(
    body: &CredentialsBody,
    normalized: Seq<char>,
    facts: &SignupFacts,
)
    ensures
        ({
            let next = signup_next(body, normalized, facts);
            let mail = facts.looks_like_email || (trimmed(text_or_empty(body.username)).len() == 0
                && trimmed(text_or_empty(body.email)).len() > 0);
            let given = normalized.len() > 0 && text_or_empty(body.password).len() > 0;
            &&& !facts.open ==> next == SignupNext::Reply(
                crate::reply::coded_reply_of(
                    403,
                    "Rejestracja nowych kont jest obecnie wyłączona.",
                    "REGISTRATION_DISABLED",
                ),
            )
            &&& facts.open && mail ==> next == SignupNext::Reply(
                crate::reply::message_reply_of(
                    400,
                    "Rejestracja odbywa się przez nazwę użytkownika, nie adres e-mail.",
                ),
            )
            &&& facts.open && !mail && !given ==> next == SignupNext::Reply(
                crate::reply::message_reply_of(400, "Username and password are required"),
            )
            &&& facts.open && !mail && given && !is_username(normalized) ==> next
                == SignupNext::Reply(crate::reply::message_reply_of(400, cannot_create()))
        }),
{
}

/// A quota that is used up is answered with 429, one that cannot be asked with 503 and a hint to try
/// again; both name the quota, to the user and in the log.
pub proof fn quotas_are_answered_by_name(e: SignupQuotaError)
    ensures
        ({
            let r = quota_reply_of(e);
            &&& r.status == 503 <==> e == SignupQuotaError::Unavailable
            &&& r.status == 429 <==> e != SignupQuotaError::Unavailable
            &&& r.body == (ReplyBody::Message {
                message: e.told(),
                code: Some(e.name()),
                retryable: r.status == 503,
            })
            &&& r.report == Some(e.name())
            &&& !r.delayed
        }),
{
}

/// An account is made only while that is open, under a valid name that is free, with a
/// password that is not known to have leaked, and with a place in the quota.
pub proof fn accounts_are_made_under_all_rules(
    body: &CredentialsBody,
    normalized: Seq<char>,
    facts: &SignupFacts,
)
    ensures
        signup_next(body, normalized, facts) is Create || signup_next(body, normalized, facts)
            is Created ==> {
            &&& facts.open
            &&& !names_email(body, facts.looks_like_email)
            &&& is_username(normalized)
            &&& text_or_empty(body.password).len() > 0
            &&& facts.taken == Some(Answer::No)
            &&& facts.breach == Some(PasswordBreachCheck::Safe)
            &&& facts.slot matches Some(Ok(_))
        },
        signup_next(body, normalized, facts) matches SignupNext::Created(r) ==> r == message_reply(
            201,
            "Konto utworzone. Możesz się zalogować.",
        ) && facts.created == Some(true),
{
}

/// A place in the quota is taken only after every other check: a request that is refused
/// before costs none.
pub proof fn refused_signups_cost_no_slot(
    body: &CredentialsBody,
    normalized: Seq<char>,
    facts: &SignupFacts,
)
    ensures
        signup_next(body, normalized, facts) is TakeSlot ==> facts.taken == Some(Answer::No)
            && facts.breach == Some(PasswordBreachCheck::Safe) && is_username(normalized)
            && facts.slot is None,
{
}

/// Who asks for a name that is taken is told the same as who asks for a name that cannot be.
pub proof fn taken_names_are_not_told_apart(
    body: &CredentialsBody,
    normalized: Seq<char>,
    facts: &SignupFacts,
)
    requires
        facts.open,
        !names_email(body, facts.looks_like_email),
        normalized.len() > 0,
        text_or_empty(body.password).len() > 0,
        !is_username(normalized) || facts.taken == Some(Answer::Yes),
    ensures
        signup_next(body, normalized, facts) matches SignupNext::Reply(r) && r.status == 400
            && r.body == (ReplyBody::Message {
            message: cannot_create(),
            code: None,
            retryable: false,
        }),
{
}

/// Whether new accounts can be made, as it is told.
#[derive(Clone, Copy, Debug)]
pub struct RegistrationStatus {
    pub open: bool,
    pub message: &'static str,
}

/// Whether new accounts can be made, as it is told.
pub open spec fn registration_status_of(open: bool) -> RegistrationStatus {
    RegistrationStatus {
        open,
        message: if open {
            "Rejestracja jest otwarta."
        } else {
            "Rejestracja nowych kont jest obecnie wyłączona."
        },
    }
}

/// Whether new accounts can be made, as it is told.
pub fn registration_status(open: bool) -> (r: RegistrationStatus)
    ensures
        r == registration_status_of(open),
{
    RegistrationStatus {
        open,
        message: if open {
            "Rejestracja jest otwarta."
        } else {
            "Rejestracja nowych kont jest obecnie wyłączona."
        },
    }
}

/// Whether accounts can be made is told as it is.
pub proof fn registration_is_told_as_it_is(open: bool)
    ensures
        registration_status_of(open).open == open,
        open ==> registration_status_of(open).message == "Rejestracja jest otwarta.",
        !open ==> registration_status_of(open).message
            == "Rejestracja nowych kont jest obecnie wyłączona.",
{
}

} // verus!
