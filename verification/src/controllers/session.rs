//! Sessions: going on with one, ending it, and listing them.
use vstd::prelude::*;
use crate::controllers::login::{clear_legacy_refresh_cookie, clear_refresh_cookie, is_cookie,
    jwt_cookie, refresh_cookie, CookieSpec};
use crate::ids::ObjectId;
use crate::reply::{internal_error, message_reply, require_user, text_reply,
    unavailable, AuthStyle, Reply};
use crate::text::{self, decimal, opt_text, trimmed};
use crate::utils::auth::refresh::{RefreshAuthError, REFRESH_COOKIE};

verus! {

/// What to do next about a session that goes on.
#[derive(Clone, Copy, Debug)]
pub enum RefreshNext {
    Rotate,
    MakeAccess,
    Reply(Reply),
    /// The session is over: answer so, and remove all cookies of it.
    Expire(Reply),
    /// Answer with the new tokens as cookies, and the account.
    Welcome,
}

/// What to do next about a session that goes on. `rotated` is what rotating its token came
/// to, `access` whether an access token could be made.
pub open spec fn refresh_session_next(rotated: Option<Result<bool, RefreshAuthError>>, access: Option<bool>) -> RefreshNext {
    match (rotated, access) {
        (None, _) => RefreshNext::Rotate,
        (Some(Err(RefreshAuthError::Unavailable)), _) => RefreshNext::Reply(unavailable()),
        (Some(Err(RefreshAuthError::Denied)), _) => RefreshNext::Expire(
            message_reply(401, "Session expired. Please log in again."),
        ),
        (Some(Ok(_)), None) => RefreshNext::MakeAccess,
        (Some(Ok(_)), Some(false)) => RefreshNext::Reply(internal_error()),
        (Some(Ok(_)), Some(true)) => RefreshNext::Welcome,
    }
}

/// What to do next about a session that goes on. `rotated` is what rotating its token came
/// to, `access` whether an access token could be made.
pub fn refresh_session(rotated: Option<Result<bool, RefreshAuthError>>, access: Option<bool>) -> (r: RefreshNext)
    ensures
        r == refresh_session_next(rotated, access),
{
    match (rotated, access) {
        (None, _) => RefreshNext::Rotate,
        (Some(Err(RefreshAuthError::Unavailable)), _) => RefreshNext::Reply(unavailable()),
        (Some(Err(RefreshAuthError::Denied)), _) => RefreshNext::Expire(
            message_reply(401, "Session expired. Please log in again."),
        ),
        (Some(Ok(_)), None) => RefreshNext::MakeAccess,
        (Some(Ok(_)), Some(false)) => RefreshNext::Reply(internal_error()),
        (Some(Ok(_)), Some(true)) => RefreshNext::Welcome,
    }
}

/// A session goes on exactly once its token was rotated and an access token made, in this order; one
/// that is denied is over, and one that cannot be checked or for which no token can be made is
/// answered without ending it.
pub proof fn rotated_sessions_go_on(
    rotated: Option<Result<bool, RefreshAuthError>>,
    access: Option<bool>,
)
    ensures
        ({
            let next = refresh_session_next(rotated, access);
            let ok = rotated is Some && rotated->0 is Ok;
            let denied = rotated == Some(Err::<bool, RefreshAuthError>(RefreshAuthError::Denied));
            let lost = rotated == Some(
                Err::<bool, RefreshAuthError>(RefreshAuthError::Unavailable),
            );
            &&& next is Rotate <==> rotated is None
            &&& next is MakeAccess <==> ok && access is None
            &&& next is Welcome <==> ok && access == Some(true)
            &&& next is Expire <==> denied
            &&& denied ==> next == RefreshNext::Expire(
                crate::reply::message_reply_of(401, "Session expired. Please log in again."),
            )
            &&& lost ==> next == RefreshNext::Reply(crate::reply::unavailable_of())
            &&& ok && access == Some(false) ==> next == RefreshNext::Reply(
                crate::reply::internal_error_of(),
            )
        }),
{
}

/// A session that cannot be checked now is not ended.
pub proof fn unavailable_does_not_end_sessions(access: Option<bool>)
    ensures
        !(refresh_session_next(
            Some(Err::<bool, RefreshAuthError>(RefreshAuthError::Unavailable)),
            access,
        ) is Expire),
{
}

/// What is known so far about leaving.
#[derive(Clone, Copy, Debug)]
pub struct LogoutFacts {
    /// Whether the request carries a refresh token.
    pub has_token: bool,
    /// Whether the family of the token is known.
    pub family: Option<Result<bool, RefreshAuthError>>,
    /// Whether the family was revoked, and so its user is known.
    pub revoked: Option<Result<bool, RefreshAuthError>>,
    /// Whether the connections were closed.
    pub closed: bool,
    /// The user of the request, if it has one.
    pub user: Option<ObjectId>,
}

/// What to do next about leaving.
#[derive(Clone, Copy, Debug)]
pub enum LogoutNext {
    LookUpFamily,
    RevokeFamily,
    /// Close the connections of the session.
    CloseSession,
    /// Close all connections of the user of the token.
    CloseUserOfToken,
    /// Close all connections of the user of the request.
    CloseUser(ObjectId),
    Reply(Reply),
    /// Answer, and remove all cookies.
    Goodbye(Reply),
}

/// What to do next about leaving.
pub open spec fn logout_next(facts: &LogoutFacts) -> LogoutNext {
    if facts.has_token {
        match (facts.family, facts.revoked) {
            (None, _) => LogoutNext::LookUpFamily,
            (Some(Err(RefreshAuthError::Unavailable)), _) => LogoutNext::Reply(unavailable()),
            (Some(_), None) => LogoutNext::RevokeFamily,
            (Some(_), Some(Err(_))) => LogoutNext::Reply(unavailable()),
            (Some(_), Some(Ok(false))) => LogoutNext::Goodbye(text_reply(200, "Logout successful")),
            (Some(family), Some(Ok(true))) => if facts.closed {
                LogoutNext::Goodbye(text_reply(200, "Logout successful"))
            } else {
                match family {
                    Ok(true) => LogoutNext::CloseSession,
                    _ => LogoutNext::CloseUserOfToken,
                }
            },
        }
    } else {
        match facts.user {
            Some(id) => if facts.closed {
                LogoutNext::Goodbye(text_reply(200, "Logout successful"))
            } else {
                LogoutNext::CloseUser(id)
            },
            None => LogoutNext::Goodbye(text_reply(200, "Logout successful")),
        }
    }
}

/// What to do next about leaving.
pub fn logout(facts: &LogoutFacts) -> (r: LogoutNext)
    ensures
        r == logout_next(facts),
{
    if facts.has_token {
        match (facts.family, facts.revoked) {
            (None, _) => LogoutNext::LookUpFamily,
            (Some(Err(RefreshAuthError::Unavailable)), _) => LogoutNext::Reply(unavailable()),
            (Some(_), None) => LogoutNext::RevokeFamily,
            (Some(_), Some(Err(_))) => LogoutNext::Reply(unavailable()),
            (Some(_), Some(Ok(false))) => LogoutNext::Goodbye(text_reply(200, "Logout successful")),
            (Some(family), Some(Ok(true))) => if facts.closed {
                LogoutNext::Goodbye(text_reply(200, "Logout successful"))
            } else {
                match family {
                    Ok(true) => LogoutNext::CloseSession,
                    _ => LogoutNext::CloseUserOfToken,
                }
            },
        }
    } else {
        match facts.user {
            Some(id) => if facts.closed {
                LogoutNext::Goodbye(text_reply(200, "Logout successful"))
            } else {
                LogoutNext::CloseUser(id)
            },
            None => LogoutNext::Goodbye(text_reply(200, "Logout successful")),
        }
    }
}

/// What leaving comes to, outcome by outcome. With a token its family is looked up and revoked, and
/// then the connections are closed: those of the session if it is known, else all of the user of the
/// token. Without one all connections of the user of the request are closed, if it has one. What
/// cannot be revoked now is answered so.
pub proof fn leaving_ends_the_session(facts: &LogoutFacts, id: ObjectId)
    ensures
        ({
            let next = logout_next(facts);
            let lost = facts.family == Some(
                Err::<bool, RefreshAuthError>(RefreshAuthError::Unavailable),
            );
            let looked = facts.has_token && facts.family is Some && !lost;
            let gone = looked && facts.revoked == Some(Ok::<bool, RefreshAuthError>(true));
            let known = facts.family == Some(Ok::<bool, RefreshAuthError>(true));
            let plain = !facts.has_token;
            &&& next is LookUpFamily <==> facts.has_token && facts.family is None
            &&& next is RevokeFamily <==> looked && facts.revoked is None
            &&& next is CloseSession <==> gone && !facts.closed && known
            &&& next is CloseUserOfToken <==> gone && !facts.closed && !known
            &&& next == LogoutNext::CloseUser(id) <==> plain && facts.user == Some(id)
                && !facts.closed
            &&& next is Reply <==> facts.has_token && (lost || (looked && facts.revoked is Some
                && facts.revoked->0 is Err))
            &&& next is Reply ==> next == LogoutNext::Reply(crate::reply::unavailable_of())
            &&& next is Goodbye <==> (gone && facts.closed) || (looked && facts.revoked == Some(
                Ok::<bool, RefreshAuthError>(false),
            )) || (plain && (facts.user is None || facts.closed))
            &&& next is Goodbye ==> next == LogoutNext::Goodbye(
                crate::reply::text_reply_of(200, "Logout successful"),
            )
        }),
{
}

/// Who carries a token is told that they left only after its family was revoked, or if there
/// was no such token.
pub proof fn leaving_revokes_the_family(facts: &LogoutFacts)
    requires
        facts.has_token,
    ensures
        logout_next(facts) is Goodbye ==> facts.revoked matches Some(Ok(_)),
{
}

/// What to do next about listing sessions.
#[derive(Clone, Copy, Debug)]
pub enum ListNext {
    Reply(Reply),
    LookUpFamily,
    /// Take the family out of the access token.
    FamilyOfAccess,
    List(ObjectId),
    /// Answer with the sessions.
    Show,
}

/// What is known so far about listing sessions.
#[derive(Clone, Copy, Debug)]
pub struct ListFacts {
    pub has_token: bool,
    /// Whether the family of the token is known.
    pub family: Option<Result<bool, RefreshAuthError>>,
    /// Whether the access token was asked for its family.
    pub access_asked: bool,
    pub has_access: bool,
    /// Whether the sessions could be listed.
    pub listed: Option<bool>,
}

/// What to do next about listing sessions. Where the refresh token does not name the current
/// family, the access token is asked.
pub open spec fn list_sessions_next(user_id: &Option<String>, facts: &ListFacts) -> ListNext {
    match require_user(user_id, AuthStyle::Plain) {
        Err(reply) => ListNext::Reply(reply),
        Ok(id) => {
            let family = if facts.has_token {
                facts.family
            } else {
                Some(Ok(false))
            };
            match family {
                None => ListNext::LookUpFamily,
                Some(Err(RefreshAuthError::Unavailable)) => ListNext::Reply(unavailable()),
                Some(known) => {
                    let unknown = match known {
                        Ok(true) => false,
                        _ => true,
                    };
                    if unknown && facts.has_access && !facts.access_asked {
                        ListNext::FamilyOfAccess
                    } else {
                        match facts.listed {
                            None => ListNext::List(id),
                            Some(true) => ListNext::Show,
                            Some(false) => ListNext::Reply(
                                message_reply(500, "Nie udało się pobrać listy sesji."),
                            ),
                        }
                    }
                },
            }
        },
    }
}

/// What to do next about listing sessions. Where the refresh token does not name the current
/// family, the access token is asked.
pub fn list_sessions(user_id: &Option<String>, facts: &ListFacts) -> (r: ListNext)
    ensures
        r == list_sessions_next(user_id, facts),
{
    match require_user(user_id, AuthStyle::Plain) {
        Err(reply) => ListNext::Reply(reply),
        Ok(id) => {
            let family = if facts.has_token {
                facts.family
            } else {
                Some(Ok(false))
            };
            match family {
                None => ListNext::LookUpFamily,
                Some(Err(RefreshAuthError::Unavailable)) => ListNext::Reply(unavailable()),
                Some(known) => {
                    let unknown = match known {
                        Ok(true) => false,
                        _ => true,
                    };
                    if unknown && facts.has_access && !facts.access_asked {
                        ListNext::FamilyOfAccess
                    } else {
                        match facts.listed {
                            None => ListNext::List(id),
                            Some(true) => ListNext::Show,
                            Some(false) => ListNext::Reply(
                                message_reply(500, "Nie udało się pobrać listy sesji."),
                            ),
                        }
                    }
                },
            }
        },
    }
}

/// What listing sessions comes to, outcome by outcome: the current family is looked up by the refresh
/// token and, where that does not name it, by the access token; then the sessions are listed and
/// shown.
pub proof fn sessions_are_listed_with_the_current_one(
    user_id: &Option<String>,
    facts: &ListFacts,
    id: ObjectId,
)
    requires
        crate::reply::require_user_of(user_id, AuthStyle::Plain) == Ok::<ObjectId, Reply>(id),
    ensures
        ({
            let next = list_sessions_next(user_id, facts);
            let lost = facts.has_token && facts.family == Some(
                Err::<bool, RefreshAuthError>(RefreshAuthError::Unavailable),
            );
            let looked = !facts.has_token || (facts.family is Some && !lost);
            let named = facts.has_token && facts.family == Some(
                Ok::<bool, RefreshAuthError>(true),
            );
            let ask = looked && !named && facts.has_access && !facts.access_asked;
            &&& next is LookUpFamily <==> facts.has_token && facts.family is None
            &&& next is FamilyOfAccess <==> ask
            &&& next == ListNext::List(id) <==> looked && !ask && facts.listed is None
            &&& next is Show <==> looked && !ask && facts.listed == Some(true)
            &&& lost ==> next == ListNext::Reply(crate::reply::unavailable_of())
            &&& looked && !ask && facts.listed == Some(false) ==> next == ListNext::Reply(
                crate::reply::message_reply_of(500, "Nie udało się pobrać listy sesji."),
            )
        }),
{
}

/// What became of ending a session.
#[derive(Clone, Copy, Debug, PartialEq, Eq, Structural)]
pub enum SessionEnd {
    Ended,
    NotFound,
    Failed,
}

/// What is known so far about ending a session.
#[derive(Clone, Copy, Debug)]
pub struct EndFacts {
    pub has_token: bool,
    /// Whether the current family could be looked up.
    pub family_known: Option<Result<bool, RefreshAuthError>>,
    pub ended: Option<SessionEnd>,
    /// Whether the connections of the session were closed.
    pub closed: bool,
}

/// What to do next about ending a session.
#[derive(Clone, Copy, Debug)]
pub enum EndNext {
    Reply(Reply),
    LookUpFamily,
    End(ObjectId),
    CloseSession(ObjectId),
    /// Answer that it is ended; `current`: it was the one of the request, whose cookies go.
    Done { reply: Reply, current: bool },
}

/// Whether a session is the one of the request.
pub open spec fn is_current(current_family: Option<Seq<char>>, family: Seq<char>) -> bool {
    current_family == Some(family)
}

/// What to do next about ending a session. `session_id` is the family that the request names,
/// `current_family` that of the request.
pub open spec fn revoke_session_next(user_id: &Option<String>, session_id: Seq<char>, current_family: &Option<String>, facts: &EndFacts) -> EndNext {
    match require_user(user_id, AuthStyle::Plain) {
        Err(reply) => EndNext::Reply(reply),
        Ok(id) => if trimmed(session_id).len() == 0 {
            EndNext::Reply(message_reply(400, "Brak identyfikatora sesji."))
        } else {
            let family = if facts.has_token {
                facts.family_known
            } else {
                Some(Ok(false))
            };
            match (family, facts.ended) {
                (None, _) => EndNext::LookUpFamily,
                (Some(Err(RefreshAuthError::Unavailable)), _) => EndNext::Reply(unavailable()),
                (Some(_), None) => EndNext::End(id),
                (Some(_), Some(SessionEnd::NotFound)) => EndNext::Reply(
                    message_reply(404, "Sesja nie istnieje."),
                ),
                (Some(_), Some(SessionEnd::Failed)) => EndNext::Reply(
                    message_reply(500, "Nie udało się wylogować sesji."),
                ),
                (Some(_), Some(SessionEnd::Ended)) => if !facts.closed {
                    EndNext::CloseSession(id)
                } else {
                    EndNext::Done {
                        reply: message_reply(200, "Sesja została wylogowana."),
                        current: is_current(opt_text(*current_family), trimmed(session_id)),
                    }
                },
            }
        },
    }
}

/// What to do next about ending a session. `session_id` is the family that the request names,
/// `current_family` that of the request.
pub fn revoke_session(user_id: &Option<String>, session_id: &str, current_family: &Option<String>, facts: &EndFacts) -> (r: EndNext)
    ensures
        r == revoke_session_next(user_id, session_id@, current_family, facts),
{
    match require_user(user_id, AuthStyle::Plain) {
        Err(reply) => EndNext::Reply(reply),
        Ok(id) => if text::is_blank(session_id) {
            EndNext::Reply(message_reply(400, "Brak identyfikatora sesji."))
        } else {
            let family = if facts.has_token {
                facts.family_known
            } else {
                Some(Ok(false))
            };
            match (family, facts.ended) {
                (None, _) => EndNext::LookUpFamily,
                (Some(Err(RefreshAuthError::Unavailable)), _) => EndNext::Reply(unavailable()),
                (Some(_), None) => EndNext::End(id),
                (Some(_), Some(SessionEnd::NotFound)) => EndNext::Reply(
                    message_reply(404, "Sesja nie istnieje."),
                ),
                (Some(_), Some(SessionEnd::Failed)) => EndNext::Reply(
                    message_reply(500, "Nie udało się wylogować sesji."),
                ),
                (Some(_), Some(SessionEnd::Ended)) => if !facts.closed {
                    EndNext::CloseSession(id)
                } else {
                    EndNext::Done {
                        reply: message_reply(200, "Sesja została wylogowana."),
                        current: match current_family {
                            Some(c) => text::same_text(c, text::trim(session_id)),
                            None => false,
                        },
                    }
                },
            }
        },
    }
}

/// What ending a session comes to, outcome by outcome: the current family is looked up, the session is
/// ended, its connections are closed, and it is answered that it is ended, as the current one exactly
/// if the request came from it.
pub proof fn named_sessions_are_ended(
    user_id: &Option<String>,
    session_id: Seq<char>,
    current_family: &Option<String>,
    facts: &EndFacts,
    id: ObjectId,
)
    requires
        crate::reply::require_user_of(user_id, AuthStyle::Plain) == Ok::<ObjectId, Reply>(id),
    ensures
        ({
            let next = revoke_session_next(user_id, session_id, current_family, facts);
            let named = trimmed(session_id).len() > 0;
            let lost = facts.has_token && facts.family_known == Some(
                Err::<bool, RefreshAuthError>(RefreshAuthError::Unavailable),
            );
            let looked = named && (!facts.has_token || (facts.family_known is Some && !lost));
            let over = looked && facts.ended == Some(SessionEnd::Ended);
            &&& !named ==> next == EndNext::Reply(
                crate::reply::message_reply_of(400, "Brak identyfikatora sesji."),
            )
            &&& next is LookUpFamily <==> named && facts.has_token && facts.family_known is None
            &&& named && lost ==> next == EndNext::Reply(crate::reply::unavailable_of())
            &&& next == EndNext::End(id) <==> looked && facts.ended is None
            &&& looked && facts.ended == Some(SessionEnd::NotFound) ==> next == EndNext::Reply(
                crate::reply::message_reply_of(404, "Sesja nie istnieje."),
            )
            &&& looked && facts.ended == Some(SessionEnd::Failed) ==> next == EndNext::Reply(
                crate::reply::message_reply_of(500, "Nie udało się wylogować sesji."),
            )
            &&& next == EndNext::CloseSession(id) <==> over && !facts.closed
            &&& next is Done <==> over && facts.closed
            &&& next is Done ==> next->reply == crate::reply::message_reply_of(
                200,
                "Sesja została wylogowana.",
            ) && (next->current <==> opt_text(*current_family) == Some(trimmed(session_id)))
        }),
{
}

/// What is known so far about ending the other sessions.
#[derive(Clone, Copy, Debug)]
pub struct OthersFacts {
    pub has_token: bool,
    /// Whether the current family is known.
    pub family: Option<Result<bool, RefreshAuthError>>,
    /// Whether the other families could be looked up.
    pub others: Option<bool>,
    /// How many tokens were revoked; an error if that failed.
    pub revoked: Option<Result<u64, ()>>,
    /// Whether the connections of the other sessions were closed.
    pub closed: bool,
}

/// What to do next about ending the other sessions.
#[derive(Clone, Copy, Debug)]
pub enum OthersNext {
    Reply(Reply),
    LookUpFamily,
    LookUpOthers(ObjectId),
    Revoke(ObjectId),
    CloseOthers(ObjectId),
    /// Answer how many it were.
    Done(u64),
}

/// What to do next about ending the other sessions.
pub open spec fn revoke_other_sessions_next(user_id: &Option<String>, facts: &OthersFacts) -> OthersNext {
    match require_user(user_id, AuthStyle::Plain) {
        Err(reply) => OthersNext::Reply(reply),
        Ok(id) => if !facts.has_token {
            OthersNext::Reply(message_reply(400, "Nie można określić bieżącej sesji."))
        } else {
            match (facts.family, facts.others, facts.revoked) {
                (None, _, _) => OthersNext::LookUpFamily,
                (Some(Err(_)), _, _) => OthersNext::Reply(unavailable()),
                (Some(Ok(false)), _, _) => OthersNext::Reply(
                    message_reply(400, "Bieżąca sesja jest nieprawidłowa."),
                ),
                (Some(Ok(true)), None, _) => OthersNext::LookUpOthers(id),
                (Some(Ok(true)), Some(false), _) => OthersNext::Reply(
                    message_reply(500, "Nie udało się wylogować innych sesji."),
                ),
                (Some(Ok(true)), Some(true), None) => OthersNext::Revoke(id),
                (Some(Ok(true)), Some(true), Some(Err(_))) => OthersNext::Reply(
                    message_reply(500, "Nie udało się wylogować innych sesji."),
                ),
                (Some(Ok(true)), Some(true), Some(Ok(n))) => if facts.closed {
                    OthersNext::Done(n)
                } else {
                    OthersNext::CloseOthers(id)
                },
            }
        },
    }
}

/// What to do next about ending the other sessions.
pub fn revoke_other_sessions(user_id: &Option<String>, facts: &OthersFacts) -> (r: OthersNext)
    ensures
        r == revoke_other_sessions_next(user_id, facts),
{
    match require_user(user_id, AuthStyle::Plain) {
        Err(reply) => OthersNext::Reply(reply),
        Ok(id) => if !facts.has_token {
            OthersNext::Reply(message_reply(400, "Nie można określić bieżącej sesji."))
        } else {
            match (facts.family, facts.others, facts.revoked) {
                (None, _, _) => OthersNext::LookUpFamily,
                (Some(Err(_)), _, _) => OthersNext::Reply(unavailable()),
                (Some(Ok(false)), _, _) => OthersNext::Reply(
                    message_reply(400, "Bieżąca sesja jest nieprawidłowa."),
                ),
                (Some(Ok(true)), None, _) => OthersNext::LookUpOthers(id),
                (Some(Ok(true)), Some(false), _) => OthersNext::Reply(
                    message_reply(500, "Nie udało się wylogować innych sesji."),
                ),
                (Some(Ok(true)), Some(true), None) => OthersNext::Revoke(id),
                (Some(Ok(true)), Some(true), Some(Err(_))) => OthersNext::Reply(
                    message_reply(500, "Nie udało się wylogować innych sesji."),
                ),
                (Some(Ok(true)), Some(true), Some(Ok(n))) => if facts.closed {
                    OthersNext::Done(n)
                } else {
                    OthersNext::CloseOthers(id)
                },
            }
        },
    }
}

/// What ending the other sessions comes to, outcome by outcome: only from a session that is known, the
/// others are looked up, revoked and closed, and then it is told how many it were.
pub proof fn other_sessions_are_ended(user_id: &Option<String>, facts: &OthersFacts, id: ObjectId, n: u64)
    requires
        crate::reply::require_user_of(user_id, AuthStyle::Plain) == Ok::<ObjectId, Reply>(id),
    ensures
        ({
            let next = revoke_other_sessions_next(user_id, facts);
            let known = facts.has_token && facts.family == Some(Ok::<bool, RefreshAuthError>(true));
            let listed = known && facts.others == Some(true);
            let gone = listed && facts.revoked is Some && facts.revoked->0 is Ok;
            &&& !facts.has_token ==> next == OthersNext::Reply(
                crate::reply::message_reply_of(400, "Nie można określić bieżącej sesji."),
            )
            &&& next is LookUpFamily <==> facts.has_token && facts.family is None
            &&& facts.has_token && facts.family is Some && facts.family->0 is Err ==> next
                == OthersNext::Reply(crate::reply::unavailable_of())
            &&& facts.has_token && facts.family == Some(Ok::<bool, RefreshAuthError>(false)) ==> next
                == OthersNext::Reply(
                crate::reply::message_reply_of(400, "Bieżąca sesja jest nieprawidłowa."),
            )
            &&& next == OthersNext::LookUpOthers(id) <==> known && facts.others is None
            &&& next == OthersNext::Revoke(id) <==> listed && facts.revoked is None
            &&& (known && facts.others == Some(false)) || (listed && facts.revoked is Some
                && facts.revoked->0 is Err) ==> next == OthersNext::Reply(
                crate::reply::message_reply_of(500, "Nie udało się wylogować innych sesji."),
            )
            &&& next == OthersNext::CloseOthers(id) <==> gone && !facts.closed
            &&& next == OthersNext::Done(n) <==> gone && facts.closed && facts.revoked == Some(
                Ok::<u64, ()>(n),
            )
        }),
{
}

/// How many other sessions were ended, as it is told.
pub open spec fn others_ended_text(n: nat) -> Seq<char> {
    if n > 0 {
        "Wylogowano "@ + decimal(n) + " innych sesji."@
    } else {
        "Brak innych aktywnych sesji."@
    }
}

/// How many other sessions were ended, as it is told.
pub fn others_ended_message(n: u64) -> (r: String)
    ensures
        r@ == others_ended_text(n as nat),
{
    if n > 0 {
        let mut out = "Wylogowano ".to_owned();
        text::push_decimal(&mut out, n);
        out.concat(" innych sesji.")
    } else {
        "Brak innych aktywnych sesji.".to_owned()
    }
}

/// What to do next about ending the other sessions after something that matters.
#[derive(Clone, Copy, Debug, PartialEq, Eq, Structural)]
pub enum OtherDevicesNext {
    Stop,
    LookUpFamily,
    LookUpOthers,
    Revoke,
    CloseOthers,
}

/// What to do next about ending the other sessions after something that matters; without a
/// known current session nothing is ended.
pub open spec fn revoke_other_devices_next(facts: &OthersFacts) -> OtherDevicesNext {
    if !facts.has_token {
        OtherDevicesNext::Stop
    } else {
        match (facts.family, facts.others, facts.revoked) {
            (None, _, _) => OtherDevicesNext::LookUpFamily,
            (Some(Ok(true)), None, _) => OtherDevicesNext::LookUpOthers,
            (Some(Ok(true)), Some(true), None) => OtherDevicesNext::Revoke,
            (Some(Ok(true)), Some(true), Some(Ok(_))) => if facts.closed {
                OtherDevicesNext::Stop
            } else {
                OtherDevicesNext::CloseOthers
            },
            _ => OtherDevicesNext::Stop,
        }
    }
}

/// What to do next about ending the other sessions after something that matters; without a
/// known current session nothing is ended.
pub fn revoke_other_devices(facts: &OthersFacts) -> (r: OtherDevicesNext)
    ensures
        r == revoke_other_devices_next(facts),
{
    if !facts.has_token {
        OtherDevicesNext::Stop
    } else {
        match (facts.family, facts.others, facts.revoked) {
            (None, _, _) => OtherDevicesNext::LookUpFamily,
            (Some(Ok(true)), None, _) => OtherDevicesNext::LookUpOthers,
            (Some(Ok(true)), Some(true), None) => OtherDevicesNext::Revoke,
            (Some(Ok(true)), Some(true), Some(Ok(_))) => if facts.closed {
                OtherDevicesNext::Stop
            } else {
                OtherDevicesNext::CloseOthers
            },
            _ => OtherDevicesNext::Stop,
        }
    }
}

/// After something that matters the other sessions are looked up, revoked and closed exactly as if
/// that was asked for, but silently: whatever goes wrong ends it.
pub proof fn other_devices_are_ended_alike(
    user_id: &Option<String>,
    facts: &OthersFacts,
    id: ObjectId,
)
    requires
        crate::reply::require_user_of(user_id, AuthStyle::Plain) == Ok::<ObjectId, Reply>(id),
    ensures
        ({
            let silent = revoke_other_devices_next(facts);
            let asked = revoke_other_sessions_next(user_id, facts);
            &&& silent is LookUpFamily <==> asked is LookUpFamily
            &&& silent is LookUpOthers <==> asked is LookUpOthers
            &&& silent is Revoke <==> asked is Revoke
            &&& silent is CloseOthers <==> asked is CloseOthers
            &&& silent is Stop <==> asked is Reply || asked is Done
        }),
{
}

/// The connections of other sessions are closed only after those were revoked, and only from a
/// session that is known.
pub proof fn others_close_after_revoking(user_id: &Option<String>, facts: &OthersFacts)
    ensures
        revoke_other_sessions_next(user_id, facts) is CloseOthers || revoke_other_devices_next(
            facts,
        ) is CloseOthers ==> facts.family == Some(Ok::<bool, RefreshAuthError>(true)) && (
        facts.revoked matches Some(Ok(_))),
{
}

/// The cookies of a session that begins or goes on: the access token, the refresh token, and the
/// removal of a refresh token under the path that was used before.
pub fn session_cookies(
    access: &str,
    access_age_ms: i64,
    refresh: &str,
    refresh_age_ms: i64,
    production: bool,
) -> (r: Vec<CookieSpec>)
    ensures
        r@.len() == 3,
        is_cookie(r@[0], "jwt", access@, production, "/", access_age_ms),
        is_cookie(r@[1], REFRESH_COOKIE, refresh@, production, "/", refresh_age_ms),
        is_cookie(r@[2], REFRESH_COOKIE, Seq::empty(), production, "/api/auth/refresh", 0),
{
    let mut v: Vec<CookieSpec> = Vec::new();
    v.push(jwt_cookie(access, access_age_ms, production));
    v.push(refresh_cookie(refresh, refresh_age_ms, production));
    v.push(clear_legacy_refresh_cookie(production));
    v
}

/// The cookies that end a session in the browser: all its tokens are removed at once.
pub fn ended_cookies(production: bool) -> (r: Vec<CookieSpec>)
    ensures
        r@.len() == 3,
        is_cookie(r@[0], "jwt", ""@, production, "/", 0),
        is_cookie(r@[1], REFRESH_COOKIE, Seq::empty(), production, "/", 0),
        is_cookie(r@[2], REFRESH_COOKIE, Seq::empty(), production, "/api/auth/refresh", 0),
{
    let mut v: Vec<CookieSpec> = Vec::new();
    v.push(jwt_cookie("", 0, production));
    v.push(clear_refresh_cookie(production));
    v.push(clear_legacy_refresh_cookie(production));
    v
}

/// What is known so far about making all logins of a user void.
#[derive(Clone, Copy, Debug)]
pub struct InvalidateFacts {
    /// Whether the access tokens were made void; `false` if that failed.
    pub tokens: Option<bool>,
    /// Whether the refresh tokens were revoked; `false` if that failed.
    pub refresh: Option<bool>,
    /// Whether the connections were closed.
    pub disconnected: bool,
}

/// What to do next about making all logins of a user void.
#[derive(Clone, Copy, Debug, PartialEq, Eq, Structural)]
pub enum InvalidateNext {
    VoidTokens,
    RevokeRefresh,
    Disconnect,
    Done,
}

/// What to do next about making all logins of a user void. A step that failed does not keep
/// the others back.
pub open spec fn invalidate_user_session_next(facts: InvalidateFacts) -> InvalidateNext {
    match (facts.tokens, facts.refresh) {
        (None, _) => InvalidateNext::VoidTokens,
        (Some(_), None) => InvalidateNext::RevokeRefresh,
        (Some(_), Some(_)) => if facts.disconnected {
            InvalidateNext::Done
        } else {
            InvalidateNext::Disconnect
        },
    }
}

/// What to do next about making all logins of a user void. A step that failed does not keep
/// the others back.
pub fn invalidate_user_session(facts: InvalidateFacts) -> (r: InvalidateNext)
    ensures
        r == invalidate_user_session_next(facts),
{
    match (facts.tokens, facts.refresh) {
        (None, _) => InvalidateNext::VoidTokens,
        (Some(_), None) => InvalidateNext::RevokeRefresh,
        (Some(_), Some(_)) => if facts.disconnected {
            InvalidateNext::Done
        } else {
            InvalidateNext::Disconnect
        },
    }
}

/// Whatever failed, it ends only after all three steps were tried.
pub proof fn invalidating_tries_every_step(facts: InvalidateFacts)
    ensures
        invalidate_user_session_next(facts) is Done <==> facts.tokens is Some && facts.refresh
            is Some && facts.disconnected,
{
}

/// For how many seconds a key for encrypted frames can be used to open a connection.
pub const WS_KEY_EXPIRES_IN: u64 = 30;

/// What to do next about a key for encrypted frames.
#[derive(Clone, Copy, Debug)]
pub enum KeyNext {
    Reply(Reply),
    /// Make a key for the user, and answer with it and how long it lasts.
    Issue { expires_in: u64 },
}

/// What to do next about a key for encrypted frames.
pub open spec fn issue_ws_crypto_key_next(user_id: &Option<String>) -> KeyNext {
    match user_id {
        None => KeyNext::Reply(message_reply(401, "User not authenticated.")),
        Some(_) => KeyNext::Issue { expires_in: WS_KEY_EXPIRES_IN },
    }
}

/// What to do next about a key for encrypted frames.
pub fn issue_ws_crypto_key(user_id: &Option<String>) -> (r: KeyNext)
    ensures
        r == issue_ws_crypto_key_next(user_id),
{
    match user_id {
        None => KeyNext::Reply(message_reply(401, "User not authenticated.")),
        Some(_) => KeyNext::Issue { expires_in: WS_KEY_EXPIRES_IN },
    }
}

/// A request without a user is answered as every such request, whatever it is about.
pub proof fn session_requests_need_a_user(
    user_id: &Option<String>,
    session_id: Seq<char>,
    current_family: &Option<String>,
    listing: &ListFacts,
    ending: &EndFacts,
    others: &OthersFacts,
    reply: Reply,
)
    requires
        crate::reply::require_user_of(user_id, AuthStyle::Plain) == Err::<ObjectId, Reply>(reply),
    ensures
        list_sessions_next(user_id, listing) == ListNext::Reply(reply),
        revoke_session_next(user_id, session_id, current_family, ending) == EndNext::Reply(reply),
        revoke_other_sessions_next(user_id, others) == OthersNext::Reply(reply),
{
}

/// All logins of a user are made void in three steps, one after the other, each whatever became of
/// the one before it.
pub proof fn logins_are_voided_in_order(facts: InvalidateFacts)
    ensures
        invalidate_user_session_next(facts) is VoidTokens <==> facts.tokens is None,
        invalidate_user_session_next(facts) is RevokeRefresh <==> facts.tokens is Some
            && facts.refresh is None,
        invalidate_user_session_next(facts) is Disconnect <==> facts.tokens is Some && facts.refresh
            is Some && !facts.disconnected,
{
}

/// A key is made for every request with a user, for thirty seconds, and for no other.
pub proof fn keys_are_for_users(user_id: &Option<String>)
    ensures
        issue_ws_crypto_key_next(user_id) == (KeyNext::Issue { expires_in: 30 }) <==> *user_id
            is Some,
        *user_id is None ==> issue_ws_crypto_key_next(user_id) == KeyNext::Reply(
            crate::reply::message_reply_of(401, "User not authenticated."),
        ),
{
}

/// How many sessions were ended is told with the number, and that there were none without.
pub proof fn ended_sessions_are_counted(n: nat)
    ensures
        n > 0 ==> others_ended_text(n) == "Wylogowano "@ + decimal(n) + " innych sesji."@,
        n == 0 ==> others_ended_text(n) == "Brak innych aktywnych sesji."@,
{
}

/// A key for a connection is good for half a minute.
pub proof fn connection_keys_are_short_lived()
    ensures
        WS_KEY_EXPIRES_IN == 30,
{
}

} // verus!
