//! A socket from its handshake to its end.
use vstd::prelude::*;
use crate::ids::{is_valid_object_id, parsed_id};
use crate::lists::texts;
use crate::text;
use crate::ws::voice::{emit_channel_voice_state, joined, opt_texts};

verus! {

/// How often the server pings, in seconds.
pub const PING_INTERVAL_SECS: u64 = 45;

/// How long the server waits for a sign of life, in nanoseconds.
pub const PONG_TIMEOUT_NANOS: u128 = 90_000_000_000;

/// How often the login is checked again, in milliseconds.
pub const AUTH_RECHECK_INTERVAL_MS: i64 = 30_000;

/// The largest frame, in bytes.
pub const MAX_PAYLOAD: usize = 65536;

/// The largest ping, in bytes.
pub const MAX_PING_PAYLOAD: usize = 1024;

/// How long after the last connection went a user counts as gone, in milliseconds.
pub const DISCONNECT_GRACE_MS: u64 = 400;

/// How often one address may shake hands.
#[derive(Clone, Copy, Debug, PartialEq, Eq, Structural)]
pub enum HandshakeRate {
    Allowed,
    RetryAfter(u64),
}

/// What the check of the login said.
#[derive(Clone, Copy, Debug, PartialEq, Eq, Structural)]
pub enum LoginReply {
    Unavailable,
    /// Whether it gave a user, as [`names_user`] says.
    Checked { names_user: bool },
}

/// What is known so far about a handshake.
#[derive(Clone, Copy, Debug)]
pub struct HandshakeFacts {
    /// Whether the request asks for a socket.
    pub is_upgrade: bool,
    pub query_too_long: bool,
    pub origin_allowed: bool,
    pub secure: bool,
    pub address_blocked: Option<bool>,
    /// Whether the client names itself as a known one.
    pub client_known: bool,
    pub rate: Option<HandshakeRate>,
    /// Whether the address may have one more connection.
    pub room: Option<bool>,
    pub login: Option<LoginReply>,
    /// Whether the family of the session could be looked up.
    pub family_available: Option<bool>,
    pub encryption_required: bool,
    /// Whether the request carries a token for a key.
    pub has_key_token: bool,
    /// Whether the token gave a key.
    pub key: Option<bool>,
}

/// Why a handshake is rejected.
#[derive(Clone, Copy, Debug, PartialEq, Eq, Structural)]
pub enum Rejection {
    NotASocket,
    QueryTooLong,
    WrongOrigin,
    NotSecure,
    AddressBlocked,
    /// The address is also counted as suspicious.
    UnknownClient,
    TooManyHandshakes { retry_after: u64 },
    TooManyConnections,
    LoginUnavailable,
    NotLoggedIn,
    KeyMissing,
    KeyInvalid,
}

/// What to do next about a handshake.
#[derive(Clone, Copy, Debug, PartialEq, Eq, Structural)]
pub enum HandshakeNext {
    Reject(Rejection),
    AskAddressBlocked,
    AskRate,
    AskRoom,
    CheckLogin,
    LookUpFamily,
    /// Trade the token for a key.
    ConsumeKey,
    /// Open the socket; `encrypted` says whether its frames are.
    Open { encrypted: bool },
}

/// Whether a login names a user: an identifier, with the token that it came from.
pub open spec fn login_names_user(user_id: Seq<char>, jwt_token: Seq<char>) -> bool {
    user_id.len() > 0 && jwt_token.len() > 0 && parsed_id(user_id) is Some
}

/// Whether a login names a user.
pub fn names_user(user_id: &str, jwt_token: &str) -> (r: bool)
    ensures
        r == login_names_user(user_id@, jwt_token@),
{
    !user_id.is_empty() && !jwt_token.is_empty() && is_valid_object_id(user_id)
}

/// The last part of a handshake: the key for the frames. A key is needed if encryption is
/// required; without that an invalid token does no harm.
pub open spec fn handshake_key_next(facts: HandshakeFacts) -> HandshakeNext {
    if !facts.has_key_token {
        if facts.encryption_required {
            HandshakeNext::Reject(Rejection::KeyMissing)
        } else {
            HandshakeNext::Open { encrypted: false }
        }
    } else {
        match facts.key {
            None => HandshakeNext::ConsumeKey,
            Some(true) => HandshakeNext::Open { encrypted: true },
            Some(false) => if facts.encryption_required {
                HandshakeNext::Reject(Rejection::KeyInvalid)
            } else {
                HandshakeNext::Open { encrypted: false }
            },
        }
    }
}

/// The last part of a handshake: the key for the frames. A key is needed if encryption is
/// required; without that an invalid token does no harm.
pub fn handshake_key(facts: &HandshakeFacts) -> (r: HandshakeNext)
    ensures
        r == handshake_key_next(*facts),
{
    if !facts.has_key_token {
        if facts.encryption_required {
            HandshakeNext::Reject(Rejection::KeyMissing)
        } else {
            HandshakeNext::Open { encrypted: false }
        }
    } else {
        match facts.key {
            None => HandshakeNext::ConsumeKey,
            Some(true) => HandshakeNext::Open { encrypted: true },
            Some(false) => if facts.encryption_required {
                HandshakeNext::Reject(Rejection::KeyInvalid)
            } else {
                HandshakeNext::Open { encrypted: false }
            },
        }
    }
}

/// The middle part of a handshake: the login and the family of its session.
pub open spec fn handshake_login_next(facts: HandshakeFacts) -> HandshakeNext {
    match (facts.login, facts.family_available) {
        (None, _) => HandshakeNext::CheckLogin,
        (Some(LoginReply::Unavailable), _) => HandshakeNext::Reject(Rejection::LoginUnavailable),
        (Some(LoginReply::Checked { names_user: false }), _) => HandshakeNext::Reject(
            Rejection::NotLoggedIn,
        ),
        (Some(LoginReply::Checked { names_user: true }), None) => HandshakeNext::LookUpFamily,
        (Some(LoginReply::Checked { names_user: true }), Some(false)) => HandshakeNext::Reject(
            Rejection::LoginUnavailable,
        ),
        (Some(LoginReply::Checked { names_user: true }), Some(true)) =>
            handshake_key_next(facts),
    }
}

/// The middle part of a handshake: the login and the family of its session.
pub fn handshake_login(facts: &HandshakeFacts) -> (r: HandshakeNext)
    ensures
        r == handshake_login_next(*facts),
{
    match (facts.login, facts.family_available) {
        (None, _) => HandshakeNext::CheckLogin,
        (Some(LoginReply::Unavailable), _) => HandshakeNext::Reject(Rejection::LoginUnavailable),
        (Some(LoginReply::Checked { names_user: false }), _) => HandshakeNext::Reject(
            Rejection::NotLoggedIn,
        ),
        (Some(LoginReply::Checked { names_user: true }), None) => HandshakeNext::LookUpFamily,
        (Some(LoginReply::Checked { names_user: true }), Some(false)) => HandshakeNext::Reject(
            Rejection::LoginUnavailable,
        ),
        (Some(LoginReply::Checked { names_user: true }), Some(true)) =>
            handshake_key(facts),
    }
}

/// What to do next about a handshake.
pub open spec fn ws_handler_next(facts: HandshakeFacts) -> HandshakeNext {
    if !facts.is_upgrade {
        HandshakeNext::Reject(Rejection::NotASocket)
    } else if facts.query_too_long {
        HandshakeNext::Reject(Rejection::QueryTooLong)
    } else if !facts.origin_allowed {
        HandshakeNext::Reject(Rejection::WrongOrigin)
    } else if !facts.secure {
        HandshakeNext::Reject(Rejection::NotSecure)
    } else {
        match (facts.address_blocked, facts.rate, facts.room) {
            (None, _, _) => HandshakeNext::AskAddressBlocked,
            (Some(true), _, _) => HandshakeNext::Reject(Rejection::AddressBlocked),
            (Some(false), rate, room) => if !facts.client_known {
                HandshakeNext::Reject(Rejection::UnknownClient)
            } else {
                match (rate, room) {
                    (None, _) => HandshakeNext::AskRate,
                    (Some(HandshakeRate::RetryAfter(retry_after)), _) => HandshakeNext::Reject(
                        Rejection::TooManyHandshakes { retry_after },
                    ),
                    (Some(HandshakeRate::Allowed), None) => HandshakeNext::AskRoom,
                    (Some(HandshakeRate::Allowed), Some(false)) => HandshakeNext::Reject(
                        Rejection::TooManyConnections,
                    ),
                    (Some(HandshakeRate::Allowed), Some(true)) =>
                        handshake_login_next(facts),
                }
            },
        }
    }
}

/// What to do next about a handshake.
pub fn ws_handler(facts: &HandshakeFacts) -> (r: HandshakeNext)
    ensures
        r == ws_handler_next(*facts),
{
    if !facts.is_upgrade {
        HandshakeNext::Reject(Rejection::NotASocket)
    } else if facts.query_too_long {
        HandshakeNext::Reject(Rejection::QueryTooLong)
    } else if !facts.origin_allowed {
        HandshakeNext::Reject(Rejection::WrongOrigin)
    } else if !facts.secure {
        HandshakeNext::Reject(Rejection::NotSecure)
    } else {
        match (facts.address_blocked, facts.rate, facts.room) {
            (None, _, _) => HandshakeNext::AskAddressBlocked,
            (Some(true), _, _) => HandshakeNext::Reject(Rejection::AddressBlocked),
            (Some(false), rate, room) => if !facts.client_known {
                HandshakeNext::Reject(Rejection::UnknownClient)
            } else {
                match (rate, room) {
                    (None, _) => HandshakeNext::AskRate,
                    (Some(HandshakeRate::RetryAfter(retry_after)), _) => HandshakeNext::Reject(
                        Rejection::TooManyHandshakes { retry_after },
                    ),
                    (Some(HandshakeRate::Allowed), None) => HandshakeNext::AskRoom,
                    (Some(HandshakeRate::Allowed), Some(false)) => HandshakeNext::Reject(
                        Rejection::TooManyConnections,
                    ),
                    (Some(HandshakeRate::Allowed), Some(true)) =>
                        handshake_login(facts),
                }
            },
        }
    }
}

/// What a handshake comes to, outcome by outcome: what the request itself says is checked first, then
/// its address, its client, its rate and its room are, then the login and its family, and at last the
/// key; each rejection comes for its own reason, and a socket opens exactly if every check went well.
pub proof fn handshakes_are_checked_in_order(facts: HandshakeFacts, retry_after: u64)
    ensures
        ({
            let next = ws_handler_next(facts);
            let upgrade = facts.is_upgrade;
            let short = upgrade && !facts.query_too_long;
            let from = short && facts.origin_allowed;
            let secure = from && facts.secure;
            let free = secure && facts.address_blocked == Some(false);
            let known = free && facts.client_known;
            let slow = known && facts.rate == Some(HandshakeRate::Allowed);
            let room = slow && facts.room == Some(true);
            let user = room && facts.login == Some(LoginReply::Checked { names_user: true });
            let family = user && facts.family_available == Some(true);
            let token = family && facts.has_key_token;
            let need = facts.encryption_required;
            &&& next == HandshakeNext::Reject(Rejection::NotASocket) <==> !upgrade
            &&& next == HandshakeNext::Reject(Rejection::QueryTooLong) <==> upgrade && !short
            &&& next == HandshakeNext::Reject(Rejection::WrongOrigin) <==> short && !from
            &&& next == HandshakeNext::Reject(Rejection::NotSecure) <==> from && !secure
            &&& next is AskAddressBlocked <==> secure && facts.address_blocked is None
            &&& next == HandshakeNext::Reject(Rejection::AddressBlocked) <==> secure
                && facts.address_blocked == Some(true)
            &&& next == HandshakeNext::Reject(Rejection::UnknownClient) <==> free && !known
            &&& next is AskRate <==> known && facts.rate is None
            &&& next == HandshakeNext::Reject(Rejection::TooManyHandshakes { retry_after })
                <==> known && facts.rate == Some(HandshakeRate::RetryAfter(retry_after))
            &&& next is AskRoom <==> slow && facts.room is None
            &&& next == HandshakeNext::Reject(Rejection::TooManyConnections) <==> slow && facts.room
                == Some(false)
            &&& next is CheckLogin <==> room && facts.login is None
            &&& next == HandshakeNext::Reject(Rejection::NotLoggedIn) <==> room && facts.login
                == Some(LoginReply::Checked { names_user: false })
            &&& next is LookUpFamily <==> user && facts.family_available is None
            &&& next == HandshakeNext::Reject(Rejection::LoginUnavailable) <==> (room && facts.login
                == Some(LoginReply::Unavailable)) || (user && facts.family_available == Some(false))
            &&& next == HandshakeNext::Reject(Rejection::KeyMissing) <==> family && !token && need
            &&& next is ConsumeKey <==> token && facts.key is None
            &&& next == HandshakeNext::Reject(Rejection::KeyInvalid) <==> token && facts.key == Some(
                false,
            ) && need
            &&& next == (HandshakeNext::Open { encrypted: true }) <==> token && facts.key == Some(
                true,
            )
            &&& next == (HandshakeNext::Open { encrypted: false }) <==> family && !need && (!token
                || facts.key == Some(false))
        }),
{
}

/// A login names a user if and only if it gives an identifier and the token that it came from.
pub proof fn logins_name_users_with_their_token(user_id: Seq<char>, jwt_token: Seq<char>)
    ensures
        login_names_user(user_id, jwt_token) <==> user_id.len() >= 1 && jwt_token.len() >= 1
            && parsed_id(user_id) is Some,
{
}

/// A socket opens only for an allowed origin over a secure transport, from an address that is
/// not blocked and has room, for a known client with a login that names a user; and with
/// encryption required, only with a key.
pub proof fn only_checked_sockets_open(facts: HandshakeFacts)
    ensures
        ws_handler_next(facts) matches HandshakeNext::Open { encrypted } ==> {
            &&& facts.is_upgrade && facts.origin_allowed && facts.secure
            &&& facts.address_blocked == Some(false)
            &&& facts.client_known
            &&& facts.rate == Some(HandshakeRate::Allowed)
            &&& facts.room == Some(true)
            &&& facts.login == Some(LoginReply::Checked { names_user: true })
            &&& facts.family_available == Some(true)
            &&& facts.encryption_required ==> encrypted
        },
{
}

/// How a handshake is rejected: a status, a text, and after how many seconds to try again.
#[derive(Clone, Copy, Debug)]
pub struct RejectionReply {
    pub status: u16,
    pub text: &'static str,
    pub retry_after: Option<u64>,
}

/// How a handshake is rejected.
pub open spec fn rejection_reply_of(why: Rejection) -> RejectionReply {
    match why {
        Rejection::NotASocket => RejectionReply {
            status: 426,
            text: "WebSocket required",
            retry_after: None,
        },
        Rejection::QueryTooLong => RejectionReply {
            status: 414,
            text: "URI too long",
            retry_after: None,
        },
        Rejection::WrongOrigin | Rejection::AddressBlocked => RejectionReply {
            status: 403,
            text: "Forbidden",
            retry_after: None,
        },
        Rejection::NotSecure => RejectionReply {
            status: 403,
            text: "Secure connection required",
            retry_after: None,
        },
        Rejection::UnknownClient => RejectionReply {
            status: 400,
            text: "Unsupported client",
            retry_after: None,
        },
        Rejection::TooManyHandshakes { retry_after } => RejectionReply {
            status: 429,
            text: "Too many requests",
            retry_after: Some(retry_after),
        },
        Rejection::TooManyConnections => RejectionReply {
            status: 429,
            text: "Too many connections",
            retry_after: Some(60),
        },
        Rejection::LoginUnavailable => RejectionReply {
            status: 503,
            text: "Temporarily unavailable",
            retry_after: None,
        },
        Rejection::NotLoggedIn => RejectionReply {
            status: 401,
            text: "Unauthorized",
            retry_after: None,
        },
        Rejection::KeyMissing => RejectionReply {
            status: 403,
            text: "Encryption required",
            retry_after: None,
        },
        Rejection::KeyInvalid => RejectionReply {
            status: 403,
            text: "Invalid encryption token",
            retry_after: None,
        },
    }
}

/// How a handshake is rejected.
pub fn rejection_reply(why: Rejection) -> (r: RejectionReply)
    ensures
        r == rejection_reply_of(why),
{
    match why {
        Rejection::NotASocket => RejectionReply {
            status: 426,
            text: "WebSocket required",
            retry_after: None,
        },
        Rejection::QueryTooLong => RejectionReply {
            status: 414,
            text: "URI too long",
            retry_after: None,
        },
        Rejection::WrongOrigin | Rejection::AddressBlocked => RejectionReply {
            status: 403,
            text: "Forbidden",
            retry_after: None,
        },
        Rejection::NotSecure => RejectionReply {
            status: 403,
            text: "Secure connection required",
            retry_after: None,
        },
        Rejection::UnknownClient => RejectionReply {
            status: 400,
            text: "Unsupported client",
            retry_after: None,
        },
        Rejection::TooManyHandshakes { retry_after } => RejectionReply {
            status: 429,
            text: "Too many requests",
            retry_after: Some(retry_after),
        },
        Rejection::TooManyConnections => RejectionReply {
            status: 429,
            text: "Too many connections",
            retry_after: Some(60),
        },
        Rejection::LoginUnavailable => RejectionReply {
            status: 503,
            text: "Temporarily unavailable",
            retry_after: None,
        },
        Rejection::NotLoggedIn => RejectionReply {
            status: 401,
            text: "Unauthorized",
            retry_after: None,
        },
        Rejection::KeyMissing => RejectionReply {
            status: 403,
            text: "Encryption required",
            retry_after: None,
        },
        Rejection::KeyInvalid => RejectionReply {
            status: 403,
            text: "Invalid encryption token",
            retry_after: None,
        },
    }
}

/// Each rejection has the status that it means, and says when to try again exactly where the rate or
/// the room is at fault.
pub proof fn rejections_say_what_is_wrong(why: Rejection)
    ensures
        ({
            let r = rejection_reply_of(why);
            &&& r.status == 426 <==> why is NotASocket
            &&& r.status == 414 <==> why is QueryTooLong
            &&& r.status == 403 <==> why is WrongOrigin || why is AddressBlocked || why is NotSecure
                || why is KeyMissing || why is KeyInvalid
            &&& r.status == 400 <==> why is UnknownClient
            &&& r.status == 429 <==> why is TooManyHandshakes || why is TooManyConnections
            &&& r.status == 503 <==> why is LoginUnavailable
            &&& r.status == 401 <==> why is NotLoggedIn
            &&& r.retry_after is Some <==> why is TooManyHandshakes || why is TooManyConnections
            &&& why is TooManyHandshakes ==> r.retry_after == Some(why->retry_after)
            &&& why is TooManyConnections ==> r.retry_after == Some(60u64)
        }),
{
}

/// What is known so far about opening a socket.
#[derive(Clone, Copy, Debug)]
pub struct OpenFacts {
    /// Whether the connection could be counted for its address.
    pub address_counted: Option<bool>,
    /// Whether it could be counted for its user, and whether it is their first.
    pub user_counted: Option<Option<bool>>,
    /// Whether it is in the registry.
    pub registered: bool,
    /// Whether there is a key for its frames.
    pub has_key: bool,
    /// Whether the key can be used.
    pub key_usable: Option<bool>,
}

/// What to do next about opening a socket.
#[derive(Clone, Copy, Debug, PartialEq, Eq, Structural)]
pub enum OpenNext {
    CountAddress,
    CountUser,
    /// Give up, undoing the count for the address if that is asked.
    Drop { undo_address: bool },
    /// Put it into the registry; `announce` says whether the user came online.
    Register { announce: bool },
    TryKey,
    /// Give up, undoing everything.
    DropAll,
    Serve { encrypted: bool },
}

/// What to do next about opening a socket.
pub open spec fn open_socket_next(facts: OpenFacts) -> OpenNext {
    match (facts.address_counted, facts.user_counted) {
        (None, _) => OpenNext::CountAddress,
        (Some(false), _) => OpenNext::Drop { undo_address: false },
        (Some(true), None) => OpenNext::CountUser,
        (Some(true), Some(None)) => OpenNext::Drop { undo_address: true },
        (Some(true), Some(Some(first))) => if !facts.registered {
            OpenNext::Register { announce: first }
        } else if !facts.has_key {
            OpenNext::Serve { encrypted: false }
        } else {
            match facts.key_usable {
                None => OpenNext::TryKey,
                Some(true) => OpenNext::Serve { encrypted: true },
                Some(false) => OpenNext::DropAll,
            }
        },
    }
}

/// What to do next about opening a socket.
pub fn open_socket(facts: &OpenFacts) -> (r: OpenNext)
    ensures
        r == open_socket_next(*facts),
{
    match (facts.address_counted, facts.user_counted) {
        (None, _) => OpenNext::CountAddress,
        (Some(false), _) => OpenNext::Drop { undo_address: false },
        (Some(true), None) => OpenNext::CountUser,
        (Some(true), Some(None)) => OpenNext::Drop { undo_address: true },
        (Some(true), Some(Some(first))) => if !facts.registered {
            OpenNext::Register { announce: first }
        } else if !facts.has_key {
            OpenNext::Serve { encrypted: false }
        } else {
            match facts.key_usable {
                None => OpenNext::TryKey,
                Some(true) => OpenNext::Serve { encrypted: true },
                Some(false) => OpenNext::DropAll,
            }
        },
    }
}

/// What opening a socket comes to, outcome by outcome: it is counted for its address and for its
/// user, registered, announced exactly if it is the user's first, and served with the key that it
/// has; what cannot be counted is dropped, with what was counted before it undone.
pub proof fn sockets_are_counted_and_served(facts: OpenFacts, first: bool)
    ensures
        ({
            let next = open_socket_next(facts);
            let counted = facts.address_counted == Some(true);
            let ours = counted && facts.user_counted is Some && facts.user_counted->0 is Some;
            let there = ours && facts.registered;
            &&& next is CountAddress <==> facts.address_counted is None
            &&& next == (OpenNext::Drop { undo_address: false }) <==> facts.address_counted == Some(
                false,
            )
            &&& next is CountUser <==> counted && facts.user_counted is None
            &&& next == (OpenNext::Drop { undo_address: true }) <==> counted && facts.user_counted
                == Some(None::<bool>)
            &&& next == (OpenNext::Register { announce: first }) <==> ours && !facts.registered
                && facts.user_counted == Some(Some(first))
            &&& next == (OpenNext::Serve { encrypted: false }) <==> there && !facts.has_key
            &&& next is TryKey <==> there && facts.has_key && facts.key_usable is None
            &&& next == (OpenNext::Serve { encrypted: true }) <==> there && facts.has_key
                && facts.key_usable == Some(true)
            &&& next is DropAll <==> there && facts.has_key && facts.key_usable == Some(false)
        }),
{
}

/// A socket that is given up leaves no count behind: what was counted is undone, and nothing
/// else is.
pub proof fn dropped_sockets_leave_no_count(facts: OpenFacts)
    ensures
        match open_socket_next(facts) {
            OpenNext::Drop { undo_address } => {
                &&& undo_address <==> facts.address_counted == Some(true)
                &&& !(facts.user_counted matches Some(Some(_))) || facts.address_counted == Some(
                    false,
                )
            },
            OpenNext::DropAll => facts.address_counted == Some(true) && (facts.user_counted matches Some(
                Some(_),
            )) && facts.registered,
            _ => true,
        },
{
}

/// Something that happens to an open socket.
#[derive(Clone, Copy, Debug, PartialEq, Eq, Structural)]
pub enum SocketEvent {
    /// The session may have been revoked.
    RevokeSignal { revoked: bool },
    /// It is time to ping; the last sign of life came so many nanoseconds ago.
    PingDue { silent_nanos: u128 },
    /// It is time to check the login again; `begins` says whether this socket does it.
    LoginCheckDue { begins: bool },
    /// There is a frame to be sent, or none will come any more.
    Outbound { open: bool },
    /// The frame to be sent could be encrypted, or not.
    Encrypted { ok: bool },
    /// Sending worked, or not.
    SendResult { ok: bool },
    Binary { len: usize },
    /// The binary frame could be decrypted, or not.
    Decrypted { ok: bool },
    Text { len: usize },
    Ping { len: usize },
    Pong,
    /// The other side closed, failed or went.
    Closed,
}

/// What to do about it.
#[derive(Clone, Copy, Debug, PartialEq, Eq, Structural)]
pub enum SocketAction {
    Continue,
    /// Say goodbye and end.
    CloseAndEnd,
    End,
    SendPing,
    CheckLogin,
    Encrypt,
    SendText,
    SendBinary,
    Decrypt,
    /// Handle the text of the frame.
    Process,
    ReplyPong,
    /// Note the sign of life.
    NoteAlive,
}

/// What to do about something that happens to an open socket.
pub open spec fn socket_event_next(encrypted: bool, event: SocketEvent) -> SocketAction {
    match event {
        SocketEvent::RevokeSignal { revoked } => if revoked {
            SocketAction::CloseAndEnd
        } else {
            SocketAction::Continue
        },
        SocketEvent::PingDue { silent_nanos } => if silent_nanos > PONG_TIMEOUT_NANOS {
            SocketAction::CloseAndEnd
        } else {
            SocketAction::SendPing
        },
        SocketEvent::LoginCheckDue { begins } => if begins {
            SocketAction::CheckLogin
        } else {
            SocketAction::Continue
        },
        SocketEvent::Outbound { open } => if !open {
            SocketAction::End
        } else if encrypted {
            SocketAction::Encrypt
        } else {
            SocketAction::SendText
        },
        SocketEvent::Encrypted { ok } => if ok {
            SocketAction::SendBinary
        } else {
            SocketAction::Continue
        },
        SocketEvent::SendResult { ok } => if ok {
            SocketAction::Continue
        } else {
            SocketAction::End
        },
        SocketEvent::Binary { len } => if len > MAX_PAYLOAD || !encrypted {
            SocketAction::Continue
        } else {
            SocketAction::Decrypt
        },
        SocketEvent::Decrypted { ok } => if ok {
            SocketAction::Process
        } else {
            SocketAction::Continue
        },
        SocketEvent::Text { len } => if encrypted || len > MAX_PAYLOAD {
            SocketAction::Continue
        } else {
            SocketAction::Process
        },
        SocketEvent::Ping { len } => if len > MAX_PING_PAYLOAD {
            SocketAction::Continue
        } else {
            SocketAction::ReplyPong
        },
        SocketEvent::Pong => SocketAction::NoteAlive,
        SocketEvent::Closed => SocketAction::End,
    }
}

/// What to do about something that happens to an open socket.
pub fn socket_event(encrypted: bool, event: SocketEvent) -> (r: SocketAction)
    ensures
        r == socket_event_next(encrypted, event),
{
    match event {
        SocketEvent::RevokeSignal { revoked } => if revoked {
            SocketAction::CloseAndEnd
        } else {
            SocketAction::Continue
        },
        SocketEvent::PingDue { silent_nanos } => if silent_nanos > PONG_TIMEOUT_NANOS {
            SocketAction::CloseAndEnd
        } else {
            SocketAction::SendPing
        },
        SocketEvent::LoginCheckDue { begins } => if begins {
            SocketAction::CheckLogin
        } else {
            SocketAction::Continue
        },
        SocketEvent::Outbound { open } => if !open {
            SocketAction::End
        } else if encrypted {
            SocketAction::Encrypt
        } else {
            SocketAction::SendText
        },
        SocketEvent::Encrypted { ok } => if ok {
            SocketAction::SendBinary
        } else {
            SocketAction::Continue
        },
        SocketEvent::SendResult { ok } => if ok {
            SocketAction::Continue
        } else {
            SocketAction::End
        },
        SocketEvent::Binary { len } => if len > MAX_PAYLOAD || !encrypted {
            SocketAction::Continue
        } else {
            SocketAction::Decrypt
        },
        SocketEvent::Decrypted { ok } => if ok {
            SocketAction::Process
        } else {
            SocketAction::Continue
        },
        SocketEvent::Text { len } => if encrypted || len > MAX_PAYLOAD {
            SocketAction::Continue
        } else {
            SocketAction::Process
        },
        SocketEvent::Ping { len } => if len > MAX_PING_PAYLOAD {
            SocketAction::Continue
        } else {
            SocketAction::ReplyPong
        },
        SocketEvent::Pong => SocketAction::NoteAlive,
        SocketEvent::Closed => SocketAction::End,
    }
}

/// What is done about each thing that happens to a socket: a revoked session and a silence of more
/// than ninety seconds close it, what cannot be sent or comes no more ends it, frames of at most 65536
/// bytes are handled as the socket carries them, and pings of at most 1024 bytes are answered.
pub proof fn sockets_react_to_what_happens(
    encrypted: bool,
    yes: bool,
    len: usize,
    silent_nanos: u128,
)
    ensures
        socket_event_next(encrypted, SocketEvent::RevokeSignal { revoked: yes }) == (if yes {
            SocketAction::CloseAndEnd
        } else {
            SocketAction::Continue
        }),
        socket_event_next(encrypted, SocketEvent::PingDue { silent_nanos }) == (if silent_nanos
            <= 90_000_000_000 {
            SocketAction::SendPing
        } else {
            SocketAction::CloseAndEnd
        }),
        socket_event_next(encrypted, SocketEvent::LoginCheckDue { begins: yes }) == (if yes {
            SocketAction::CheckLogin
        } else {
            SocketAction::Continue
        }),
        socket_event_next(encrypted, SocketEvent::Outbound { open: false }) == SocketAction::End,
        socket_event_next(true, SocketEvent::Outbound { open: true }) == SocketAction::Encrypt,
        socket_event_next(false, SocketEvent::Outbound { open: true }) == SocketAction::SendText,
        socket_event_next(encrypted, SocketEvent::Encrypted { ok: yes }) == (if yes {
            SocketAction::SendBinary
        } else {
            SocketAction::Continue
        }),
        socket_event_next(encrypted, SocketEvent::SendResult { ok: yes }) == (if yes {
            SocketAction::Continue
        } else {
            SocketAction::End
        }),
        socket_event_next(encrypted, SocketEvent::Binary { len }) == SocketAction::Decrypt
            <==> encrypted && len <= 65536,
        socket_event_next(encrypted, SocketEvent::Text { len }) == SocketAction::Process
            <==> !encrypted && len <= 65536,
        socket_event_next(encrypted, SocketEvent::Decrypted { ok: yes }) == (if yes {
            SocketAction::Process
        } else {
            SocketAction::Continue
        }),
        socket_event_next(encrypted, SocketEvent::Ping { len }) == (if len <= 1024 {
            SocketAction::ReplyPong
        } else {
            SocketAction::Continue
        }),
        socket_event_next(encrypted, SocketEvent::Pong) == SocketAction::NoteAlive,
        socket_event_next(encrypted, SocketEvent::Closed) == SocketAction::End,
{
}

/// An encrypted socket neither handles a plain frame nor sends one.
pub proof fn encrypted_sockets_carry_no_plain_text(event: SocketEvent)
    ensures
        event is Text ==> socket_event_next(true, event) == SocketAction::Continue,
        socket_event_next(true, event) != SocketAction::SendText,
        event is Binary ==> socket_event_next(false, event) == SocketAction::Continue,
{
}

/// A frame that is too large is never handled.
pub proof fn large_frames_are_skipped(encrypted: bool, len: usize)
    requires
        len > MAX_PAYLOAD,
    ensures
        socket_event_next(encrypted, SocketEvent::Text { len }) == SocketAction::Continue,
        socket_event_next(encrypted, SocketEvent::Binary { len }) == SocketAction::Continue,
{
}

/// What an incoming frame is.
#[derive(Clone, Copy, Debug, PartialEq, Eq, Structural)]
pub enum Incoming {
    /// No frame at all: it is skipped.
    Malformed,
    /// A sign of life.
    Pong,
    /// A sign of life that wants an answer.
    Ping,
    /// Anything else: it is dispatched.
    Dispatch,
}

/// What an incoming frame with this type is; none for a text that is no frame.
pub open spec fn incoming_of(msg_type: Option<Seq<char>>) -> Incoming {
    match msg_type {
        None => Incoming::Malformed,
        Some(t) => if t == "pong"@ {
            Incoming::Pong
        } else if t == "ping"@ {
            Incoming::Ping
        } else {
            Incoming::Dispatch
        },
    }
}

/// What an incoming frame is.
pub fn process_incoming_text(msg_type: &Option<String>) -> (r: Incoming)
    ensures
        r == incoming_of(text::opt_text(*msg_type)),
{
    match msg_type {
        None => Incoming::Malformed,
        Some(t) => if text::same_text(t, "pong") {
            Incoming::Pong
        } else if text::same_text(t, "ping") {
            Incoming::Ping
        } else {
            Incoming::Dispatch
        },
    }
}

/// What the check of a login that goes on says.
#[derive(Clone, Copy, Debug, PartialEq, Eq, Structural)]
pub enum RecheckReply {
    Valid,
    Unavailable,
    Denied,
}

/// Whether a checked login ends all connections of its user: only if it was denied.
pub fn recheck_disconnects(reply: RecheckReply) -> (r: bool)
    ensures
        r == (reply == RecheckReply::Denied),
{
    reply == RecheckReply::Denied
}

/// What remains to be done after a socket ended and was taken out of all counts.
#[derive(Clone, Copy, Debug, PartialEq, Eq, Structural)]
pub enum AfterClose {
    /// The user has other connections: take this one out of the voice rooms and calls.
    LeaveRoomsAndCalls,
    /// It was the last one: wait, and look again.
    WaitAndCheck(u64),
}

/// What remains to be done after a socket ended. `user_connected` says whether the user has
/// other connections.
pub open spec fn handle_socket_end_of(user_connected: bool) -> AfterClose {
    if user_connected {
        AfterClose::LeaveRoomsAndCalls
    } else {
        AfterClose::WaitAndCheck(DISCONNECT_GRACE_MS)
    }
}

/// What remains to be done after a socket ended. `user_connected` says whether the user has
/// other connections.
pub fn handle_socket_end(user_connected: bool) -> (r: AfterClose)
    ensures
        r == handle_socket_end_of(user_connected),
{
    if user_connected {
        AfterClose::LeaveRoomsAndCalls
    } else {
        AfterClose::WaitAndCheck(DISCONNECT_GRACE_MS)
    }
}

/// Whether a user counts as gone after the wait: unless a connection came in between.
pub fn gone_after_grace(user_connected: bool, connection_count: usize) -> (r: bool)
    ensures
        r == (!user_connected && connection_count == 0),
{
    !user_connected && connection_count == 0
}

/// What is known so far about the life of a socket.
#[derive(Clone, Copy, Debug)]
pub struct LifeFacts {
    pub open: OpenFacts,
    /// Whether the socket was served and has ended.
    pub ended: bool,
    /// Whether it is out of the registry again.
    pub unregistered: bool,
    /// Whether it no longer counts for its user.
    pub user_uncounted: bool,
    /// Whether it no longer counts for its address.
    pub address_uncounted: bool,
    /// Whether the user has other connections.
    pub user_connected: Option<bool>,
    pub rooms_left: bool,
    pub calls_ended: bool,
    /// After the wait: whether the user is gone.
    pub gone: Option<bool>,
    /// Whether what was kept of the user was cleared, and that they went was seen to.
    pub cleared: bool,
}

/// What to do next in the life of a socket.
#[derive(Clone, Copy, Debug, PartialEq, Eq, Structural)]
pub enum LifeNext {
    Opening(OpenNext),
    /// Serve it until it ends.
    Serve { encrypted: bool },
    Unregister,
    UncountUser,
    UncountAddress,
    AskConnected,
    /// Take it out of the voice rooms it was in, and tell the others.
    LeaveRooms,
    /// End the calls it was in.
    EndCalls,
    /// Wait so many milliseconds, and look whether the user is gone.
    WaitAndCheck(u64),
    /// Clear what is kept of the user, and see to it that they went.
    Clear,
    Done,
}

/// What to do next in the life of a socket: opening it, serving it, and what remains to be done
/// once it ended.
pub open spec fn handle_socket_next(facts: &LifeFacts) -> LifeNext {
    match open_socket_next(facts.open) {
        OpenNext::Serve { encrypted } => if !facts.ended {
            LifeNext::Serve { encrypted }
        } else if !facts.unregistered {
            LifeNext::Unregister
        } else if !facts.user_uncounted {
            LifeNext::UncountUser
        } else if !facts.address_uncounted {
            LifeNext::UncountAddress
        } else {
            match facts.user_connected {
                None => LifeNext::AskConnected,
                Some(connected) => match handle_socket_end_of(connected) {
                    AfterClose::LeaveRoomsAndCalls => if !facts.rooms_left {
                        LifeNext::LeaveRooms
                    } else if !facts.calls_ended {
                        LifeNext::EndCalls
                    } else {
                        LifeNext::Done
                    },
                    AfterClose::WaitAndCheck(ms) => match facts.gone {
                        None => LifeNext::WaitAndCheck(ms),
                        Some(false) => LifeNext::Done,
                        Some(true) => if facts.cleared {
                            LifeNext::Done
                        } else {
                            LifeNext::Clear
                        },
                    },
                },
            }
        },
        opening => LifeNext::Opening(opening),
    }
}

/// What to do next in the life of a socket: opening it, serving it, and what remains to be done
/// once it ended.
pub fn handle_socket(facts: &LifeFacts) -> (r: LifeNext)
    ensures
        r == handle_socket_next(facts),
{
    match open_socket(&facts.open) {
        OpenNext::Serve { encrypted } => if !facts.ended {
            LifeNext::Serve { encrypted }
        } else if !facts.unregistered {
            LifeNext::Unregister
        } else if !facts.user_uncounted {
            LifeNext::UncountUser
        } else if !facts.address_uncounted {
            LifeNext::UncountAddress
        } else {
            match facts.user_connected {
                None => LifeNext::AskConnected,
                Some(connected) => match handle_socket_end(connected) {
                    AfterClose::LeaveRoomsAndCalls => if !facts.rooms_left {
                        LifeNext::LeaveRooms
                    } else if !facts.calls_ended {
                        LifeNext::EndCalls
                    } else {
                        LifeNext::Done
                    },
                    AfterClose::WaitAndCheck(ms) => match facts.gone {
                        None => LifeNext::WaitAndCheck(ms),
                        Some(false) => LifeNext::Done,
                        Some(true) => if facts.cleared {
                            LifeNext::Done
                        } else {
                            LifeNext::Clear
                        },
                    },
                },
            }
        },
        opening => LifeNext::Opening(opening),
    }
}

/// A socket that was served ends only after it is out of the registry and of both counts; and
/// what is kept of a user is cleared only if it was their last one and they did not come back.
pub proof fn ended_sockets_leave_nothing_behind(facts: &LifeFacts)
    ensures
        handle_socket_next(facts) is Done ==> facts.ended && facts.unregistered
            && facts.user_uncounted && facts.address_uncounted,
        handle_socket_next(facts) is Clear ==> facts.user_connected == Some(false) && facts.gone
            == Some(true),
        handle_socket_next(facts) is LeaveRooms || handle_socket_next(facts) is EndCalls
            ==> facts.user_connected == Some(true),
{
}

/// Who is told that a connection left a voice room: the people of the channel, the user and
/// those still in the room; if the channel is out of reach, those in the room and the user.
pub open spec fn voice_left_to(
    people: Option<Seq<Seq<char>>>,
    user: Seq<char>,
    participants: Seq<Seq<char>>,
) -> Seq<Seq<char>> {
    match people {
        Some(p) => joined(joined(p, seq![user]), participants),
        None => joined(participants, seq![user]),
    }
}

fn with_user(list: &Vec<String>, user_id: &str) -> (r: Vec<String>)
    ensures
        texts(r@) == joined(texts(list@), seq![user_id@]),
{
    let mut one: Vec<String> = Vec::new();
    one.push(user_id.to_owned());
    proof {
        assert(texts(one@) =~= seq![user_id@]);
    }
    let mut copy: Vec<String> = Vec::new();
    let mut i: usize = 0;
    while i < list.len()
        invariant
            i <= list.len(),
            copy@.len() == i,
            forall|k: int| 0 <= k < i ==> (#[trigger] copy@[k])@ == list@[k]@,
        decreases list.len() - i,
    {
        copy.push(list[i].clone());
        i = i + 1;
    }
    proof {
        assert(texts(copy@) =~= texts(list@));
    }
    let people = Some(copy);
    emit_channel_voice_state(&people, &one)
}

/// Who is told that a connection left a voice room.
pub fn voice_left_recipients(
    people: &Option<Vec<String>>,
    user_id: &str,
    participants: &Vec<String>,
) -> (r: Vec<String>)
    ensures
        texts(r@) == voice_left_to(opt_texts(*people), user_id@, texts(participants@)),
{
    match people {
        Some(p) => {
            let first = Some(with_user(p, user_id));
            emit_channel_voice_state(&first, participants)
        },
        None => with_user(participants, user_id),
    }
}

/// The user whose connection left a voice room is always told.
pub proof fn leavers_are_told(
    people: Option<Seq<Seq<char>>>,
    user: Seq<char>,
    participants: Seq<Seq<char>>,
)
    ensures
        voice_left_to(people, user, participants).contains(user),
{
    assert(seq![user][0] == user);
    match people {
        Some(p) => {
            crate::ws::voice::room_and_channel_are_told(p, seq![user], user);
            crate::ws::voice::room_and_channel_are_told(
                joined(p, seq![user]),
                participants,
                user,
            );
        },
        None => {
            crate::ws::voice::room_and_channel_are_told(participants, seq![user], user);
        },
    }
}

/// A frame by the name of a sign of life is one, any other frame is dispatched, and what is no frame
/// is skipped.
pub proof fn signs_of_life_go_by_name(msg_type: Option<Seq<char>>)
    ensures
        incoming_of(msg_type) == Incoming::Malformed <==> msg_type is None,
        incoming_of(msg_type) == Incoming::Pong <==> msg_type == Some("pong"@),
        incoming_of(msg_type) == Incoming::Ping <==> msg_type == Some("ping"@),
        incoming_of(msg_type) == Incoming::Dispatch <==> msg_type is Some && msg_type != Some(
            "pong"@,
        ) && msg_type != Some("ping"@),
{
    reveal_strlit("pong");
    reveal_strlit("ping");
    assert("pong"@[1] == 'o' && "ping"@[1] == 'i');
}

/// After a socket ended, a user with other connections leaves only its rooms and calls; a user without
/// is looked at again 400 milliseconds later.
pub proof fn last_sockets_are_waited_for(user_connected: bool)
    ensures
        handle_socket_end_of(user_connected) == AfterClose::LeaveRoomsAndCalls <==> user_connected,
        handle_socket_end_of(user_connected) == AfterClose::WaitAndCheck(400) <==> !user_connected,
{
}

/// The life of a socket, step by step: once opened it is served until it ends, then it is taken out
/// of the registry and of both counts, and then, with other connections, its rooms and calls are left,
/// or else the user is waited for and cleared away exactly if they are gone.
pub proof fn sockets_live_and_end_in_order(facts: &LifeFacts, encrypted: bool)
    ensures
        ({
            let next = handle_socket_next(facts);
            let opening = open_socket_next(facts.open);
            let served = opening is Serve;
            let ended = served && facts.ended;
            let out = ended && facts.unregistered;
            let ours = out && facts.user_uncounted;
            let free = ours && facts.address_uncounted;
            let more = free && facts.user_connected == Some(true);
            let last = free && facts.user_connected == Some(false);
            &&& next is Opening <==> !served
            &&& next is Opening ==> next == LifeNext::Opening(opening)
            &&& next == (LifeNext::Serve { encrypted }) <==> opening == (OpenNext::Serve {
                encrypted,
            }) && !facts.ended
            &&& next is Unregister <==> ended && !facts.unregistered
            &&& next is UncountUser <==> out && !facts.user_uncounted
            &&& next is UncountAddress <==> ours && !facts.address_uncounted
            &&& next is AskConnected <==> free && facts.user_connected is None
            &&& next is LeaveRooms <==> more && !facts.rooms_left
            &&& next is EndCalls <==> more && facts.rooms_left && !facts.calls_ended
            &&& next == LifeNext::WaitAndCheck(400) <==> last && facts.gone is None
            &&& next is Clear <==> last && facts.gone == Some(true) && !facts.cleared
            &&& next is Done <==> (more && facts.rooms_left && facts.calls_ended) || (last && (
            facts.gone == Some(false) || (facts.gone == Some(true) && facts.cleared)))
        }),
{
}

/// Those who are told that a connection left a voice room are the people of the channel, the user and
/// those in the room; where the channel is out of reach, the user and those in the room.
pub proof fn who_is_told_of_leaving(
    people: Option<Seq<Seq<char>>>,
    user: Seq<char>,
    participants: Seq<Seq<char>>,
    x: Seq<char>,
)
    ensures
        voice_left_to(people, user, participants).contains(x) <==> x == user
            || participants.contains(x) || (people is Some && people->0.contains(x)),
{
    let one = seq![user];
    assert(one[0] == user);
    assert(one.contains(x) <==> x == user);
    match people {
        Some(p) => {
            crate::ws::voice::room_and_channel_are_told(p, one, x);
            crate::ws::voice::room_and_channel_are_told(joined(p, one), participants, x);
        },
        None => {
            crate::ws::voice::room_and_channel_are_told(participants, one, x);
        },
    }
}

/// The times and sizes of a socket: a ping every 45 seconds, ninety seconds of silence at the most, a
/// check of the login every thirty seconds, and 400 milliseconds to come back.
pub proof fn sockets_have_their_times()
    ensures
        PING_INTERVAL_SECS == 45,
        PONG_TIMEOUT_NANOS == 2 * PING_INTERVAL_SECS * 1_000_000_000,
        AUTH_RECHECK_INTERVAL_MS == 30_000,
        MAX_PAYLOAD == 64 * 1024,
        MAX_PING_PAYLOAD == 1024,
        DISCONNECT_GRACE_MS == 400,
{
}

/// A connection is asked for a sign of life every 45 seconds and given up after 90; whether its user may stay is looked at every half minute.
pub proof fn connections_are_watched()
    ensures
        PING_INTERVAL_SECS == 45,
        PONG_TIMEOUT_NANOS == 90 * 1_000_000_000,
        AUTH_RECHECK_INTERVAL_MS == 30 * 1000,
        MAX_PAYLOAD == 64 * 1024,
        MAX_PING_PAYLOAD == 1024,
        DISCONNECT_GRACE_MS == 400,
{
}

} // verus!
