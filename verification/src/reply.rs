//! Answers to requests over HTTP.
use vstd::prelude::*;
use crate::ids::{parsed_id, ObjectId};

verus! {

/// The body of an answer.
#[derive(Clone, Copy, Debug)]
pub enum ReplyBody {
    /// Plain text.
    Text(&'static str),
    /// An object with a message, and a code and a hint to try again where they are given.
    Message { message: &'static str, code: Option<&'static str>, retryable: bool },
    /// An object with an error.
    Error(&'static str),
    /// An object with an error and a hint to try again.
    RetryableError(&'static str),
}

/// An answer. `delayed`: it is held back for a moment, as after a failed login. `report`: what
/// is noted in the security log, if anything.
#[derive(Clone, Copy, Debug)]
pub struct Reply {
    pub status: u16,
    pub body: ReplyBody,
    pub delayed: bool,
    pub report: Option<&'static str>,
}

/// A plain text.
pub open spec fn text_reply_of(status: u16, text: &'static str) -> Reply {
    Reply { status, body: ReplyBody::Text(text), delayed: false, report: None }
}

/// A plain text.
#[verifier::when_used_as_spec(text_reply_of)]
pub fn text_reply(status: u16, text: &'static str) -> (r: Reply)
    ensures
        r == text_reply_of(status, text),
{
    Reply { status, body: ReplyBody::Text(text), delayed: false, report: None }
}

/// A message.
pub open spec fn message_reply_of(status: u16, message: &'static str) -> Reply {
    Reply {
        status,
        body: ReplyBody::Message { message, code: None, retryable: false },
        delayed: false,
        report: None,
    }
}

/// A message.
#[verifier::when_used_as_spec(message_reply_of)]
pub fn message_reply(status: u16, message: &'static str) -> (r: Reply)
    ensures
        r == message_reply_of(status, message),
{
    Reply {
        status,
        body: ReplyBody::Message { message, code: None, retryable: false },
        delayed: false,
        report: None,
    }
}

/// A message with a code.
pub open spec fn coded_reply_of(status: u16, message: &'static str, code: &'static str) -> Reply {
    Reply {
        status,
        body: ReplyBody::Message { message, code: Some(code), retryable: false },
        delayed: false,
        report: None,
    }
}

/// A message with a code.
#[verifier::when_used_as_spec(coded_reply_of)]
pub fn coded_reply(status: u16, message: &'static str, code: &'static str) -> (r: Reply)
    ensures
        r == coded_reply_of(status, message, code),
{
    Reply {
        status,
        body: ReplyBody::Message { message, code: Some(code), retryable: false },
        delayed: false,
        report: None,
    }
}

/// An error.
pub open spec fn error_reply_of(status: u16, error: &'static str) -> Reply {
    Reply { status, body: ReplyBody::Error(error), delayed: false, report: None }
}

/// An error.
#[verifier::when_used_as_spec(error_reply_of)]
pub fn error_reply(status: u16, error: &'static str) -> (r: Reply)
    ensures
        r == error_reply_of(status, error),
{
    Reply { status, body: ReplyBody::Error(error), delayed: false, report: None }
}

/// A message that is held back for a moment.
pub open spec fn slow_reply_of(status: u16, message: &'static str) -> Reply {
    Reply {
        status,
        body: ReplyBody::Message { message, code: None, retryable: false },
        delayed: true,
        report: None,
    }
}

/// A message that is held back for a moment.
#[verifier::when_used_as_spec(slow_reply_of)]
pub fn slow_reply(status: u16, message: &'static str) -> (r: Reply)
    ensures
        r == slow_reply_of(status, message),
{
    Reply {
        status,
        body: ReplyBody::Message { message, code: None, retryable: false },
        delayed: true,
        report: None,
    }
}

/// A message that is held back for a moment, and noted in the security log.
pub open spec fn noted_reply_of(
    status: u16,
    message: &'static str,
    report: &'static str,
) -> Reply {
    Reply {
        status,
        body: ReplyBody::Message { message, code: None, retryable: false },
        delayed: true,
        report: Some(report),
    }
}

/// A message that is held back for a moment, and noted in the security log.
#[verifier::when_used_as_spec(noted_reply_of)]
pub fn noted_reply(status: u16, message: &'static str, report: &'static str) -> (r: Reply)
    ensures
        r == noted_reply_of(status, message, report),
{
    Reply {
        status,
        body: ReplyBody::Message { message, code: None, retryable: false },
        delayed: true,
        report: Some(report),
    }
}

/// A message with a hint to try again.
pub open spec fn retry_message_of(status: u16, message: &'static str) -> Reply {
    Reply {
        status,
        body: ReplyBody::Message { message, code: None, retryable: true },
        delayed: false,
        report: None,
    }
}

/// A message with a hint to try again.
#[verifier::when_used_as_spec(retry_message_of)]
pub fn retry_message(status: u16, message: &'static str) -> (r: Reply)
    ensures
        r == retry_message_of(status, message),
{
    Reply {
        status,
        body: ReplyBody::Message { message, code: None, retryable: true },
        delayed: false,
        report: None,
    }
}

/// An error with a hint to try again.
pub open spec fn retry_error_of(status: u16, error: &'static str) -> Reply {
    Reply { status, body: ReplyBody::RetryableError(error), delayed: false, report: None }
}

/// An error with a hint to try again.
#[verifier::when_used_as_spec(retry_error_of)]
pub fn retry_error(status: u16, error: &'static str) -> (r: Reply)
    ensures
        r == retry_error_of(status, error),
{
    Reply { status, body: ReplyBody::RetryableError(error), delayed: false, report: None }
}

/// The answer when a service that is needed cannot be reached now.
pub open spec fn unavailable_of() -> Reply {
    message_reply_of(503, "Temporarily unavailable. Retry.")
}

/// The answer when a service that is needed cannot be reached now.
#[verifier::when_used_as_spec(unavailable_of)]
pub fn unavailable() -> (r: Reply)
    ensures
        r == unavailable_of(),
{
    message_reply(503, "Temporarily unavailable. Retry.")
}

/// The answer when something failed.
pub open spec fn internal_error_of() -> Reply {
    text_reply_of(500, "Internal Server Error")
}

/// The answer when something failed.
#[verifier::when_used_as_spec(internal_error_of)]
pub fn internal_error() -> (r: Reply)
    ensures
        r == internal_error_of(),
{
    text_reply(500, "Internal Server Error")
}

/// The answer when the user of a request does not exist.
pub open spec fn user_not_found_of() -> Reply {
    text_reply_of(404, "User not found.")
}

/// The answer when the user of a request does not exist.
#[verifier::when_used_as_spec(user_not_found_of)]
pub fn user_not_found() -> (r: Reply)
    ensures
        r == user_not_found_of(),
{
    text_reply(404, "User not found.")
}

/// How a request without a user, or with one that is no identifier, is answered.
#[derive(Clone, Copy, Debug, PartialEq, Eq, Structural)]
pub enum AuthStyle {
    /// Most requests.
    Plain,
    /// Requests for one's own account.
    OwnAccount,
    /// Changes of one's own profile.
    Profile,
    /// Removals of pictures.
    Picture,
}

/// The answer to a request without a user.
pub open spec fn no_user_of(style: AuthStyle) -> Reply {
    match style {
        AuthStyle::Plain | AuthStyle::OwnAccount => text_reply_of(401, "User not authenticated."),
        AuthStyle::Profile => text_reply_of(400, "User ID is required."),
        AuthStyle::Picture => error_reply_of(401, "User not found"),
    }
}

/// The answer to a request whose user is no identifier.
pub open spec fn bad_user_of(style: AuthStyle) -> Reply {
    match style {
        AuthStyle::Plain | AuthStyle::Profile => user_not_found_of(),
        AuthStyle::OwnAccount => text_reply_of(404, "User with the given id not found."),
        AuthStyle::Picture => error_reply_of(404, "User not found"),
    }
}

/// The user of a request, or the answer to a request without one.
pub open spec fn require_user_of(user_id: &Option<String>, style: AuthStyle) -> Result<
    ObjectId,
    Reply,
> {
    match user_id {
        None => Err(no_user_of(style)),
        Some(id) => match parsed_id(id@) {
            Some(oid) => Ok(oid),
            None => Err(bad_user_of(style)),
        },
    }
}

/// The user of a request, or the answer to a request without one.
#[verifier::when_used_as_spec(require_user_of)]
pub fn require_user(user_id: &Option<String>, style: AuthStyle) -> (r: Result<ObjectId, Reply>)
    ensures
        r == require_user_of(user_id, style),
{
    match user_id {
        None => Err(
            match style {
                AuthStyle::Plain | AuthStyle::OwnAccount => text_reply(
                    401,
                    "User not authenticated.",
                ),
                AuthStyle::Profile => text_reply(400, "User ID is required."),
                AuthStyle::Picture => error_reply(401, "User not found"),
            },
        ),
        Some(id) => match ObjectId::parse_str(id) {
            Some(oid) => Ok(oid),
            None => Err(
                match style {
                    AuthStyle::Plain | AuthStyle::Profile => user_not_found(),
                    AuthStyle::OwnAccount => text_reply(404, "User with the given id not found."),
                    AuthStyle::Picture => error_reply(404, "User not found"),
                },
            ),
        },
    }
}

/// Each kind of answer has the status and the words that it is given, and nothing else: a code, a
/// hint to try again, a delay and a note in the log only where its name says so.
pub proof fn answers_say_what_they_are_given(
    status: u16,
    words: &'static str,
    code: &'static str,
)
    ensures
        text_reply_of(status, words) == (Reply {
            status,
            body: ReplyBody::Text(words),
            delayed: false,
            report: None,
        }),
        message_reply_of(status, words) == (Reply {
            status,
            body: ReplyBody::Message { message: words, code: None, retryable: false },
            delayed: false,
            report: None,
        }),
        coded_reply_of(status, words, code) == (Reply {
            status,
            body: ReplyBody::Message { message: words, code: Some(code), retryable: false },
            delayed: false,
            report: None,
        }),
        error_reply_of(status, words) == (Reply {
            status,
            body: ReplyBody::Error(words),
            delayed: false,
            report: None,
        }),
        slow_reply_of(status, words) == (Reply {
            status,
            body: ReplyBody::Message { message: words, code: None, retryable: false },
            delayed: true,
            report: None,
        }),
        noted_reply_of(status, words, code) == (Reply {
            status,
            body: ReplyBody::Message { message: words, code: None, retryable: false },
            delayed: true,
            report: Some(code),
        }),
        retry_message_of(status, words) == (Reply {
            status,
            body: ReplyBody::Message { message: words, code: None, retryable: true },
            delayed: false,
            report: None,
        }),
        retry_error_of(status, words) == (Reply {
            status,
            body: ReplyBody::RetryableError(words),
            delayed: false,
            report: None,
        }),
{
}

/// What is out of reach is answered with 503, what failed with 500, and who does not exist with 404,
/// at once and without a note.
pub proof fn failures_have_their_status()
    ensures
        unavailable_of().status == 503,
        unavailable_of().body == (ReplyBody::Message {
            message: "Temporarily unavailable. Retry.",
            code: None,
            retryable: false,
        }),
        internal_error_of().status == 500,
        internal_error_of().body == ReplyBody::Text("Internal Server Error"),
        user_not_found_of().status == 404,
        user_not_found_of().body == ReplyBody::Text("User not found."),
        !unavailable_of().delayed && !internal_error_of().delayed && !user_not_found_of().delayed,
        unavailable_of().report is None && internal_error_of().report is None
            && user_not_found_of().report is None,
{
}

/// A request has a user exactly if it names an identifier, and that is its user; one that names nobody
/// is not authenticated, or, where a profile is changed, not complete, and one that names something
/// else finds nobody.
pub proof fn requests_need_a_user(user_id: &Option<String>, style: AuthStyle, oid: ObjectId)
    ensures
        require_user_of(user_id, style) == Ok::<ObjectId, Reply>(oid) <==> *user_id is Some
            && parsed_id(user_id->0@) == Some(oid),
        *user_id is None ==> require_user_of(user_id, style) is Err && require_user_of(
            user_id,
            style,
        )->Err_0.status == (if style == AuthStyle::Profile {
            400u16
        } else {
            401u16
        }),
        *user_id is Some && parsed_id(user_id->0@) is None ==> require_user_of(user_id, style) is Err
            && require_user_of(user_id, style)->Err_0.status == 404,
        *user_id is None ==> require_user_of(user_id, style)->Err_0.body == (match style {
            AuthStyle::Plain | AuthStyle::OwnAccount => ReplyBody::Text("User not authenticated."),
            AuthStyle::Profile => ReplyBody::Text("User ID is required."),
            AuthStyle::Picture => ReplyBody::Error("User not found"),
        }),
        *user_id is Some && parsed_id(user_id->0@) is None ==> require_user_of(
            user_id,
            style,
        )->Err_0.body == (match style {
            AuthStyle::Plain | AuthStyle::Profile => ReplyBody::Text("User not found."),
            AuthStyle::OwnAccount => ReplyBody::Text("User with the given id not found."),
            AuthStyle::Picture => ReplyBody::Error("User not found"),
        }),
        require_user_of(user_id, style) is Err ==> !require_user_of(user_id, style)->Err_0.delayed
            && require_user_of(user_id, style)->Err_0.report is None,
{
}

} // verus!
