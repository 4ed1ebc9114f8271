//! Voice and video calls between two people.
use vstd::prelude::*;
use crate::answers::Answer;
use crate::ids::{parsed_id, ObjectId};
use crate::model::users::User;
use crate::text::{self, decimal, digit_char};
use crate::utils::user::json::{non_blank, resolve_display_name};
use crate::ws::direct::{is_connected_user, speaks_for};
use crate::ws::frames::{empty_frame, message_frame, one_text, plain_frame, retry_fields, shown_frame,
    text_field, two_texts, Frame, FrameFieldView, FrameValue, FrameValueView, FrameView, Person,
    PersonNames, PersonNamesView, PersonView};
use crate::ws::message::{CreateMessageInput, CreateMessageView, MessageType, ScanStatus};

verus! {

/// A request about a call.
pub struct CallPayload {
    pub from: Option<String>,
    pub to: Option<String>,
    pub mode: Option<String>,
}

/// How far a call has come.
#[derive(Clone, Copy, Debug, PartialEq, Eq, Structural)]
pub enum CallPhase {
    Ringing,
    Accepted,
}

/// A call. `talked_secs` is how long ago it was accepted, if it was.
pub struct CallSession {
    pub caller_id: String,
    pub callee_id: String,
    pub phase: CallPhase,
    pub talked_secs: Option<u64>,
}

/// Why the calls that are under way refuse a request.
#[derive(Clone, Copy, Debug, PartialEq, Eq, Structural)]
pub enum CallSessionError {
    NotFound,
    WrongRole,
    InvalidPhase,
    InProgress,
    /// The call rang for too long.
    Expired,
}

/// What a call leaves behind in the conversation.
#[derive(Clone, Copy, Debug, PartialEq, Eq, Structural)]
pub enum CallLog {
    Nothing,
    Missed,
    /// The two talked for this many seconds.
    Talked(u64),
}

/// Something that one side of a call is told.
pub struct CallNotice {
    pub to: String,
    pub event: &'static str,
    pub from: String,
    pub reason: Option<&'static str>,
}

/// What one side of a call is told.
#[verifier::ext_equal]
pub struct CallNoticeView {
    pub to: Seq<char>,
    pub event: &'static str,
    pub from: Seq<char>,
    pub reason: Option<&'static str>,
}

impl View for CallNotice {
    type V = CallNoticeView;

    open spec fn view(&self) -> CallNoticeView {
        CallNoticeView {
            to: self.to@,
            event: self.event,
            from: self.from@,
            reason: self.reason,
        }
    }
}

/// What the sides of a call are told, in order.
pub open spec fn notices(v: Seq<CallNotice>) -> Seq<CallNoticeView> {
    v.map_values(|n: CallNotice| n@)
}

fn notice(to: &str, event: &'static str, from: &str, reason: Option<&'static str>) -> (r: CallNotice)
    ensures
        r@ == (CallNoticeView { to: to@, event, from: from@, reason }),
{
    CallNotice { to: to.to_owned(), event, from: from.to_owned(), reason }
}

fn two_notices(a: CallNotice, b: CallNotice) -> (r: Vec<CallNotice>)
    ensures
        notices(r@) == seq![a@, b@],
{
    let mut v: Vec<CallNotice> = Vec::new();
    v.push(a);
    v.push(b);
    proof {
        assert(notices(v@) =~= seq![a@, b@]);
    }
    v
}

/// The end of a call: who is told what, and what is left behind.
pub struct CallEnd {
    pub notices: Vec<CallNotice>,
    pub log: CallLog,
}

/// What the end of a call says.
#[verifier::ext_equal]
pub struct CallEndView {
    pub notices: Seq<CallNoticeView>,
    pub log: CallLog,
}

impl View for CallEnd {
    type V = CallEndView;

    open spec fn view(&self) -> CallEndView {
        CallEndView { notices: notices(self.notices@), log: self.log }
    }
}

/// The entry for the time that two talked, if they did.
pub open spec fn talked_log(secs: Option<u64>) -> CallLog {
    match secs {
        Some(s) => CallLog::Talked(s),
        None => CallLog::Nothing,
    }
}

fn log_talk(secs: Option<u64>) -> (r: CallLog)
    ensures
        r == talked_log(secs),
{
    match secs {
        Some(s) => CallLog::Talked(s),
        None => CallLog::Nothing,
    }
}

/// The end of a call that nobody answered in time.
pub open spec fn ringing_end(s: CallSession) -> CallEndView {
    CallEndView {
        notices: seq![
            CallNoticeView {
                to: s.callee_id@,
                event: "call:cancelled",
                from: s.caller_id@,
                reason: None,
            },
            CallNoticeView {
                to: s.caller_id@,
                event: "call:cancelled",
                from: s.caller_id@,
                reason: Some("TIMEOUT"),
            },
        ],
        log: CallLog::Missed,
    }
}

/// The end of a call that went on for too long.
pub open spec fn stale_end(s: CallSession) -> CallEndView {
    CallEndView {
        notices: seq![
            CallNoticeView {
                to: s.caller_id@,
                event: "call:ended",
                from: s.caller_id@,
                reason: Some("TIMEOUT"),
            },
            CallNoticeView {
                to: s.callee_id@,
                event: "call:ended",
                from: s.caller_id@,
                reason: Some("TIMEOUT"),
            },
        ],
        log: talked_log(s.talked_secs),
    }
}

/// The end of a call that expired: nobody answered it in time, or it went on for too long.
pub open spec fn expired_end(s: CallSession) -> CallEndView {
    match s.phase {
        CallPhase::Ringing => ringing_end(s),
        CallPhase::Accepted => stale_end(s),
    }
}

/// The end of a call that nobody answered in time.
pub fn finalize_expired_ringing_session(s: &CallSession) -> (r: CallEnd)
    ensures
        r@ == ringing_end(*s),
{
    CallEnd {
        notices: two_notices(
            notice(&s.callee_id, "call:cancelled", &s.caller_id, None),
            notice(&s.caller_id, "call:cancelled", &s.caller_id, Some("TIMEOUT")),
        ),
        log: CallLog::Missed,
    }
}

/// The end of an accepted call that went on for too long.
pub fn finalize_stale_accepted_session(s: &CallSession) -> (r: CallEnd)
    ensures
        r@ == stale_end(*s),
{
    CallEnd {
        notices: two_notices(
            notice(&s.caller_id, "call:ended", &s.caller_id, Some("TIMEOUT")),
            notice(&s.callee_id, "call:ended", &s.caller_id, Some("TIMEOUT")),
        ),
        log: log_talk(s.talked_secs),
    }
}

/// The end of a call that expired, whatever its phase.
pub fn finalize_expired_session(s: &CallSession) -> (r: CallEnd)
    ensures
        r@ == expired_end(*s),
{
    match s.phase {
        CallPhase::Ringing => finalize_expired_ringing_session(s),
        CallPhase::Accepted => finalize_stale_accepted_session(s),
    }
}

/// The ends of calls, in order.
pub open spec fn ends(v: Seq<CallEnd>) -> Seq<CallEndView> {
    v.map_values(|e: CallEnd| e@)
}

/// The ends of the calls that expired, in order.
pub fn finalize_expired_ringing_sessions(expired: &Vec<CallSession>) -> (r: Vec<CallEnd>)
    ensures
        ends(r@) == expired@.map_values(|s: CallSession| expired_end(s)),
{
    let mut out: Vec<CallEnd> = Vec::new();
    let mut i: usize = 0;
    while i < expired.len()
        invariant
            i <= expired.len(),
            out@.len() == i,
            forall|k: int| 0 <= k < i ==> (#[trigger] out@[k])@ == expired_end(expired@[k]),
        decreases expired.len() - i,
    {
        out.push(finalize_expired_session(&expired[i]));
        i = i + 1;
    }
    proof {
        assert(ends(out@) =~= expired@.map_values(|s: CallSession| expired_end(s)));
    }
    out
}

/// Both sides of an expired call are told, each once.
pub proof fn both_sides_learn_of_expiry(s: CallSession)
    ensures
        expired_end(s).notices.len() == 2,
        exists|i: int| 0 <= i < 2 && (#[trigger] expired_end(s).notices[i]).to == s.caller_id@,
        exists|i: int| 0 <= i < 2 && (#[trigger] expired_end(s).notices[i]).to == s.callee_id@,
{
    let n = expired_end(s).notices;
    match s.phase {
        CallPhase::Ringing => {
            assert(n[1].to == s.caller_id@ && n[0].to == s.callee_id@);
        },
        CallPhase::Accepted => {
            assert(n[0].to == s.caller_id@ && n[1].to == s.callee_id@);
        },
    }
}

/// The other side of a call.
pub open spec fn peer_of(s: CallSession, user: Seq<char>) -> Seq<char> {
    if s.caller_id@ == user {
        s.callee_id@
    } else {
        s.caller_id@
    }
}

/// The end of a call whose one side went away.
pub open spec fn taken_end(s: CallSession, user: Seq<char>) -> CallEndView {
    let peer = peer_of(s, user);
    match s.phase {
        CallPhase::Ringing => if s.caller_id@ == user {
            CallEndView {
                notices: seq![
                    CallNoticeView { to: peer, event: "call:cancelled", from: user, reason: None },
                    CallNoticeView {
                        to: user,
                        event: "call:cancelled",
                        from: user,
                        reason: Some("TAB_CLOSED"),
                    },
                ],
                log: CallLog::Nothing,
            }
        } else {
            CallEndView {
                notices: seq![
                    CallNoticeView { to: peer, event: "call:rejected", from: user, reason: None },
                ],
                log: CallLog::Missed,
            }
        },
        CallPhase::Accepted => CallEndView {
            notices: seq![
                CallNoticeView { to: peer, event: "call:ended", from: user, reason: None },
                CallNoticeView { to: user, event: "call:ended", from: user, reason: None },
            ],
            log: talked_log(s.talked_secs),
        },
    }
}

/// The end of a call whose one side went away.
pub fn finalize_taken_call_session(user_id: &str, s: &CallSession) -> (r: CallEnd)
    ensures
        r@ == taken_end(*s, user_id@),
{
    let called = text::same_text(&s.caller_id, user_id);
    let peer = if called {
        s.callee_id.as_str()
    } else {
        s.caller_id.as_str()
    };
    match s.phase {
        CallPhase::Ringing => if called {
            CallEnd {
                notices: two_notices(
                    notice(peer, "call:cancelled", user_id, None),
                    notice(user_id, "call:cancelled", user_id, Some("TAB_CLOSED")),
                ),
                log: CallLog::Nothing,
            }
        } else {
            let mut v: Vec<CallNotice> = Vec::new();
            let n = notice(peer, "call:rejected", user_id, None);
            v.push(n);
            proof {
                assert(notices(v@) =~= seq![n@]);
            }
            CallEnd { notices: v, log: CallLog::Missed }
        },
        CallPhase::Accepted => CallEnd {
            notices: two_notices(
                notice(peer, "call:ended", user_id, None),
                notice(user_id, "call:ended", user_id, None),
            ),
            log: log_talk(s.talked_secs),
        },
    }
}

/// The ends of the calls of somebody who went away, in order.
pub fn finalize_taken_call_sessions(user_id: &str, taken: &Vec<CallSession>) -> (r: Vec<CallEnd>)
    ensures
        r@.len() == taken@.len(),
        forall|k: int| 0 <= k < r@.len() ==> (#[trigger] r@[k])@ == taken_end(taken@[k], user_id@),
{
    let mut out: Vec<CallEnd> = Vec::new();
    let mut i: usize = 0;
    while i < taken.len()
        invariant
            i <= taken.len(),
            out@.len() == i,
            forall|k: int|
                0 <= k < i ==> (#[trigger] out@[k])@ == taken_end(taken@[k], user_id@),
        decreases taken.len() - i,
    {
        out.push(finalize_taken_call_session(user_id, &taken[i]));
        i = i + 1;
    }
    out
}

/// Whoever goes away, the other side of each of their calls is told.
pub proof fn peer_learns_of_leaving(s: CallSession, user: Seq<char>)
    ensures
        taken_end(s, user).notices.len() >= 1,
        taken_end(s, user).notices[0].to == peer_of(s, user),
        taken_end(s, user).notices[0].from == user,
{
}

/// Why a call cannot be.
#[derive(Clone, Copy, Debug, PartialEq, Eq, Structural)]
pub enum Unavailable {
    NotFriends,
    Temporarily,
    Blocked,
    NotFound,
    WrongRole,
    InvalidPhase,
    Busy,
    Expired,
}

/// The name of the reason why a call cannot be.
pub open spec fn unavailable_reason_of(why: Unavailable) -> &'static str {
    match why {
        Unavailable::NotFriends => "NOT_FRIENDS",
        Unavailable::Temporarily => "TEMP_UNAVAILABLE",
        Unavailable::Blocked => "BLOCKED",
        Unavailable::NotFound => "NOT_FOUND",
        Unavailable::WrongRole => "WRONG_ROLE",
        Unavailable::InvalidPhase => "INVALID_PHASE",
        Unavailable::Busy => "BUSY",
        Unavailable::Expired => "EXPIRED",
    }
}

/// The name of the reason why a call cannot be.
pub fn unavailable_reason(why: Unavailable) -> (r: &'static str)
    ensures
        r == unavailable_reason_of(why),
{
    match why {
        Unavailable::NotFriends => "NOT_FRIENDS",
        Unavailable::Temporarily => "TEMP_UNAVAILABLE",
        Unavailable::Blocked => "BLOCKED",
        Unavailable::NotFound => "NOT_FOUND",
        Unavailable::WrongRole => "WRONG_ROLE",
        Unavailable::InvalidPhase => "INVALID_PHASE",
        Unavailable::Busy => "BUSY",
        Unavailable::Expired => "EXPIRED",
    }
}

/// Whether a refusal invites to try again.
pub fn unavailable_is_retryable(why: Unavailable) -> (r: bool)
    ensures
        r == (why == Unavailable::Temporarily),
{
    why == Unavailable::Temporarily
}

/// What a refusal by the calls under way means for the one who asked.
pub open spec fn unavailable_for_error(err: CallSessionError) -> Unavailable {
    match err {
        CallSessionError::NotFound => Unavailable::NotFound,
        CallSessionError::WrongRole => Unavailable::WrongRole,
        CallSessionError::InvalidPhase => Unavailable::InvalidPhase,
        CallSessionError::InProgress => Unavailable::Busy,
        CallSessionError::Expired => Unavailable::Expired,
    }
}

/// What a refusal by the calls under way means for the one who asked.
pub fn unavailable_for(err: CallSessionError) -> (r: Unavailable)
    ensures
        r == unavailable_for_error(err),
{
    match err {
        CallSessionError::NotFound => Unavailable::NotFound,
        CallSessionError::WrongRole => Unavailable::WrongRole,
        CallSessionError::InvalidPhase => Unavailable::InvalidPhase,
        CallSessionError::InProgress => Unavailable::Busy,
        CallSessionError::Expired => Unavailable::Expired,
    }
}

/// The kind of a call.
#[derive(Clone, Copy, Debug, PartialEq, Eq, Structural)]
pub enum CallMode {
    Audio,
    Video,
}

/// What the calls under way said to a new call.
#[derive(Clone, Copy, Debug, PartialEq, Eq, Structural)]
pub enum InviteReply {
    Created,
    Refused(CallSessionError),
}

/// What is known so far about a request concerning a call.
#[derive(Clone, Copy, Debug)]
pub struct CallFacts {
    /// Whether the calls that expired were ended.
    pub swept: bool,
    pub friends: Option<Answer>,
    pub blocked: Option<Answer>,
}

/// What to do next about a new call.
#[derive(Clone, Copy, Debug, PartialEq, Eq, Structural)]
pub enum InviteNext {
    /// End the calls that expired.
    Sweep,
    Ignore,
    AskFriends,
    AskBlocked,
    Unavailable(Unavailable),
    Create(CallMode),
    /// Let it ring at the callee's, if they are connected.
    Ring,
}

/// The two sides that a request names, if the sender speaks for themselves and does not call
/// themselves.
pub open spec fn call_sides(connected: Seq<char>, payload: CallPayload) -> bool {
    match (payload.from, payload.to) {
        (Some(from), Some(to)) => speaks_for(connected, from@) && from@ != to@,
        _ => false,
    }
}

/// Whether a request names two sides, the sender speaking for themselves.
pub fn names_call_sides(connected: &str, payload: &CallPayload) -> (r: bool)
    ensures
        r == call_sides(connected@, *payload),
{
    match (&payload.from, &payload.to) {
        (Some(from), Some(to)) => is_connected_user(connected, from) && !text::same_text(from, to),
        _ => false,
    }
}

/// Whether two people may call each other: `None` while something has to be asked, and
/// otherwise why not, if not.
pub open spec fn call_permission_of(facts: CallFacts) -> Option<Option<Unavailable>> {
    match (facts.friends, facts.blocked) {
        (None, _) => None,
        (Some(Answer::No), _) => Some(Some(Unavailable::NotFriends)),
        (Some(Answer::Failed), _) => Some(Some(Unavailable::Temporarily)),
        (Some(Answer::Yes), None) => None,
        (Some(Answer::Yes), Some(Answer::Yes)) => Some(Some(Unavailable::Blocked)),
        (Some(Answer::Yes), Some(Answer::Failed)) => Some(Some(Unavailable::Temporarily)),
        (Some(Answer::Yes), Some(Answer::No)) => Some(None),
    }
}

/// Whether two people may call each other: `None` while something has to be asked, and
/// otherwise why not, if not.
pub fn call_permission(facts: &CallFacts) -> (r: Option<Option<Unavailable>>)
    ensures
        r == call_permission_of(*facts),
{
    match (facts.friends, facts.blocked) {
        (None, _) => None,
        (Some(Answer::No), _) => Some(Some(Unavailable::NotFriends)),
        (Some(Answer::Failed), _) => Some(Some(Unavailable::Temporarily)),
        (Some(Answer::Yes), None) => None,
        (Some(Answer::Yes), Some(Answer::Yes)) => Some(Some(Unavailable::Blocked)),
        (Some(Answer::Yes), Some(Answer::Failed)) => Some(Some(Unavailable::Temporarily)),
        (Some(Answer::Yes), Some(Answer::No)) => Some(None),
    }
}

/// Two people may call each other if and only if they are known to be friends and known not to block
/// each other; a friendship that is not there, a block and a store that fails are told apart.
pub proof fn friends_without_blocks_may_call(facts: CallFacts)
    ensures
        ({
            let p = call_permission_of(facts);
            &&& p == Some(None::<Unavailable>) <==> facts.friends == Some(Answer::Yes)
                && facts.blocked == Some(Answer::No)
            &&& p == Some(Some(Unavailable::NotFriends)) <==> facts.friends == Some(Answer::No)
            &&& p == Some(Some(Unavailable::Blocked)) <==> facts.friends == Some(Answer::Yes)
                && facts.blocked == Some(Answer::Yes)
            &&& p == Some(Some(Unavailable::Temporarily)) <==> facts.friends == Some(Answer::Failed)
                || (facts.friends == Some(Answer::Yes) && facts.blocked == Some(Answer::Failed))
            &&& p is None <==> facts.friends is None || (facts.friends == Some(Answer::Yes)
                && facts.blocked is None)
        }),
{
}

/// The kind of call that a request asks for: a video call only by that name.
pub open spec fn mode_of(payload: CallPayload) -> CallMode {
    match payload.mode {
        Some(m) => if m@ == "video"@ {
            CallMode::Video
        } else {
            CallMode::Audio
        },
        None => CallMode::Audio,
    }
}

/// The kind of call that a request asks for.
pub fn call_mode(payload: &CallPayload) -> (r: CallMode)
    ensures
        r == mode_of(*payload),
{
    match &payload.mode {
        Some(m) => if text::same_text(m, "video") {
            CallMode::Video
        } else {
            CallMode::Audio
        },
        None => CallMode::Audio,
    }
}

/// What to do next about a new call.
pub open spec fn handle_call_invite_next(connected: Seq<char>, payload: CallPayload, facts: CallFacts, reply: Option<InviteReply>) -> InviteNext {
    if !facts.swept {
        InviteNext::Sweep
    } else if !call_sides(connected, payload) {
        InviteNext::Ignore
    } else {
        match call_permission_of(facts) {
            None => if facts.friends is None {
                InviteNext::AskFriends
            } else {
                InviteNext::AskBlocked
            },
            Some(Some(why)) => InviteNext::Unavailable(why),
            Some(None) => match reply {
                None => InviteNext::Create(mode_of(payload)),
                Some(InviteReply::Created) => InviteNext::Ring,
                Some(InviteReply::Refused(CallSessionError::InProgress)) => InviteNext::Unavailable(
                    Unavailable::Busy,
                ),
                Some(InviteReply::Refused(_)) => InviteNext::Ignore,
            },
        }
    }
}

/// What to do next about a new call.
pub fn handle_call_invite(connected: &str, payload: &CallPayload, facts: &CallFacts, reply: Option<InviteReply>) -> (r: InviteNext)
    ensures
        r == handle_call_invite_next(connected@, *payload, *facts, reply),
{
    if !facts.swept {
        InviteNext::Sweep
    } else if !names_call_sides(connected, payload) {
        InviteNext::Ignore
    } else {
        match call_permission(facts) {
            None => if facts.friends.is_none() {
                InviteNext::AskFriends
            } else {
                InviteNext::AskBlocked
            },
            Some(Some(why)) => InviteNext::Unavailable(why),
            Some(None) => match reply {
                None => InviteNext::Create(call_mode(payload)),
                Some(InviteReply::Created) => InviteNext::Ring,
                Some(InviteReply::Refused(CallSessionError::InProgress)) => InviteNext::Unavailable(
                    Unavailable::Busy,
                ),
                Some(InviteReply::Refused(_)) => InviteNext::Ignore,
            },
        }
    }
}

/// What becomes of a new call, outcome by outcome: expired calls are ended first, then the sides are
/// looked at, then the friendship and the blocks are asked for in this order, and a call that may be
/// is made in the mode that was asked for, rings once it is made, and is busy if one of the two is
/// in a call already.
pub proof fn permitted_calls_ring(
    connected: Seq<char>,
    payload: CallPayload,
    facts: CallFacts,
    reply: Option<InviteReply>,
)
    ensures
        ({
            let next = handle_call_invite_next(connected, payload, facts, reply);
            let sides = payload.from is Some && payload.to is Some && connected.len() > 0
                && connected == payload.from->0@ && payload.from->0@ != payload.to->0@;
            let asks = facts.swept && sides;
            let may = asks && facts.friends == Some(Answer::Yes) && facts.blocked == Some(
                Answer::No,
            );
            let video = payload.mode is Some && payload.mode->0@ == "video"@;
            &&& next is Sweep <==> !facts.swept
            &&& next is AskFriends <==> asks && facts.friends is None
            &&& next is AskBlocked <==> asks && facts.friends == Some(Answer::Yes) && facts.blocked
                is None
            &&& next == InviteNext::Unavailable(Unavailable::NotFriends) <==> asks && facts.friends
                == Some(Answer::No)
            &&& next == InviteNext::Unavailable(Unavailable::Blocked) <==> asks && facts.friends
                == Some(Answer::Yes) && facts.blocked == Some(Answer::Yes)
            &&& next == InviteNext::Unavailable(Unavailable::Temporarily) <==> asks && (
            facts.friends == Some(Answer::Failed) || (facts.friends == Some(Answer::Yes)
                && facts.blocked == Some(Answer::Failed)))
            &&& next == InviteNext::Create(CallMode::Video) <==> may && reply is None && video
            &&& next == InviteNext::Create(CallMode::Audio) <==> may && reply is None && !video
            &&& next is Ring <==> may && reply == Some(InviteReply::Created)
            &&& next == InviteNext::Unavailable(Unavailable::Busy) <==> may && reply == Some(
                InviteReply::Refused(CallSessionError::InProgress),
            )
            &&& next is Ignore <==> facts.swept && (!sides || (may && reply is Some && reply
                != Some(InviteReply::Created) && reply != Some(
                InviteReply::Refused(CallSessionError::InProgress),
            )))
        }),
{
}

/// A call is made, and rings, only between two different people who are friends and of whom
/// neither blocks the other.
pub proof fn only_unblocked_friends_call(
    connected: Seq<char>,
    payload: CallPayload,
    facts: CallFacts,
    reply: Option<InviteReply>,
)
    ensures
        match handle_call_invite_next(connected, payload, facts, reply) {
            InviteNext::Create(_) | InviteNext::Ring => {
                &&& call_sides(connected, payload)
                &&& facts.friends == Some(Answer::Yes)
                &&& facts.blocked == Some(Answer::No)
            },
            _ => true,
        },
{
}

/// What somebody does with a call.
#[derive(Clone, Copy, Debug, PartialEq, Eq, Structural)]
pub enum CallAction {
    Accept,
    Reject,
    Cancel,
    End,
}

/// What the name of a request asks for.
pub open spec fn action_named(event: Seq<char>) -> Option<CallAction> {
    if event == "call:accept"@ {
        Some(CallAction::Accept)
    } else if event == "call:reject"@ {
        Some(CallAction::Reject)
    } else if event == "call:cancel"@ {
        Some(CallAction::Cancel)
    } else if event == "call:end"@ {
        Some(CallAction::End)
    } else {
        None
    }
}

/// What the name of a request asks for.
pub fn call_action(event: &str) -> (r: Option<CallAction>)
    ensures
        r == action_named(event@),
{
    if text::same_text(event, "call:accept") {
        Some(CallAction::Accept)
    } else if text::same_text(event, "call:reject") {
        Some(CallAction::Reject)
    } else if text::same_text(event, "call:cancel") {
        Some(CallAction::Cancel)
    } else if text::same_text(event, "call:end") {
        Some(CallAction::End)
    } else {
        None
    }
}

/// What both sides are told once somebody did something with a call.
pub open spec fn outgoing_event_of(action: CallAction) -> &'static str {
    match action {
        CallAction::Accept => "call:accepted",
        CallAction::Reject => "call:rejected",
        CallAction::Cancel => "call:cancelled",
        CallAction::End => "call:ended",
    }
}

/// What both sides are told once somebody did something with a call.
pub fn outgoing_event(action: CallAction) -> (r: &'static str)
    ensures
        r == outgoing_event_of(action),
{
    match action {
        CallAction::Accept => "call:accepted",
        CallAction::Reject => "call:rejected",
        CallAction::Cancel => "call:cancelled",
        CallAction::End => "call:ended",
    }
}

/// What the calls under way said.
#[derive(Clone, Copy, Debug, PartialEq, Eq, Structural)]
pub enum SessionReply {
    Done,
    Refused(CallSessionError),
}

/// What to do next about a request concerning a call.
#[derive(Clone, Copy, Debug, PartialEq, Eq, Structural)]
pub enum CallNext {
    Sweep,
    Ignore,
    AskFriends,
    AskBlocked,
    Unavailable(Unavailable),
    /// Hand the request to the calls under way.
    Act(CallAction),
    /// Tell both sides, the other one first, as [`tell_both`] says, and leave the entry that [`log_after`] says.
    TellBoth(CallAction),
    /// The call had expired: end it as such.
    FinalizeExpired,
}

/// What to do next about somebody who accepts, rejects, cancels or ends a call. Only
/// accepting asks whether the two may still call each other.
pub open spec fn handle_call_simple_next(connected: Seq<char>, event: Seq<char>, payload: CallPayload, facts: CallFacts, reply: Option<SessionReply>) -> CallNext {
    match action_named(event) {
        None => CallNext::Ignore,
        Some(action) => if !call_sides(connected, payload) {
            CallNext::Ignore
        } else {
            let permission = if action == CallAction::Accept {
                call_permission_of(facts)
            } else {
                Some(None)
            };
            match permission {
                None => if facts.friends is None {
                    CallNext::AskFriends
                } else {
                    CallNext::AskBlocked
                },
                Some(Some(why)) => CallNext::Unavailable(why),
                Some(None) => match reply {
                    None => CallNext::Act(action),
                    Some(SessionReply::Done) => CallNext::TellBoth(action),
                    Some(SessionReply::Refused(err)) => if err == CallSessionError::Expired
                        && action != CallAction::End {
                        CallNext::FinalizeExpired
                    } else {
                        CallNext::Unavailable(unavailable_for_error(err))
                    },
                },
            }
        },
    }
}

/// What to do next about somebody who accepts, rejects, cancels or ends a call. Only
/// accepting asks whether the two may still call each other.
pub fn handle_call_simple(connected: &str, event: &str, payload: &CallPayload, facts: &CallFacts, reply: Option<SessionReply>) -> (r: CallNext)
    ensures
        r == handle_call_simple_next(connected@, event@, *payload, *facts, reply),
{
    match call_action(event) {
        None => CallNext::Ignore,
        Some(action) => if !names_call_sides(connected, payload) {
            CallNext::Ignore
        } else {
            let permission = if action == CallAction::Accept {
                call_permission(facts)
            } else {
                Some(None)
            };
            match permission {
                None => if facts.friends.is_none() {
                    CallNext::AskFriends
                } else {
                    CallNext::AskBlocked
                },
                Some(Some(why)) => CallNext::Unavailable(why),
                Some(None) => match reply {
                    None => CallNext::Act(action),
                    Some(SessionReply::Done) => CallNext::TellBoth(action),
                    Some(SessionReply::Refused(err)) => if err == CallSessionError::Expired
                        && action != CallAction::End {
                        CallNext::FinalizeExpired
                    } else {
                        CallNext::Unavailable(unavailable_for(err))
                    },
                },
            }
        },
    }
}

/// What the calls under way let happen is told to both sides, whatever it is: accepting, if the two
/// may still call each other, and rejecting, taking back and hanging up in any case. What they do
/// not let happen is told to nobody but the one who asked, by its reason, or ends the call if it had
/// rung for too long.
pub proof fn what_happens_to_a_call_is_told(
    connected: Seq<char>,
    event: Seq<char>,
    payload: CallPayload,
    facts: CallFacts,
    reply: Option<SessionReply>,
    a: CallAction,
    err: CallSessionError,
)
    requires
        action_named(event) == Some(a),
    ensures
        ({
            let next = handle_call_simple_next(connected, event, payload, facts, reply);
            let sides = payload.from is Some && payload.to is Some && connected.len() > 0
                && connected == payload.from->0@ && payload.from->0@ != payload.to->0@;
            let accepts = sides && a == CallAction::Accept;
            let may = sides && (a == CallAction::Accept ==> facts.friends == Some(Answer::Yes)
                && facts.blocked == Some(Answer::No));
            let refused = may && reply == Some(SessionReply::Refused(err));
            &&& next == CallNext::TellBoth(a) <==> may && reply == Some(SessionReply::Done)
            &&& next is TellBoth ==> next == CallNext::TellBoth(a)
            &&& next == CallNext::Act(a) <==> may && reply is None
            &&& next is Act ==> next == CallNext::Act(a)
            &&& next is Ignore <==> !sides
            &&& next is AskFriends <==> accepts && facts.friends is None
            &&& next is AskBlocked <==> accepts && facts.friends == Some(Answer::Yes)
                && facts.blocked is None
            &&& next == CallNext::Unavailable(Unavailable::NotFriends) <==> accepts && facts.friends
                == Some(Answer::No)
            &&& next == CallNext::Unavailable(Unavailable::Blocked) <==> accepts && facts.friends
                == Some(Answer::Yes) && facts.blocked == Some(Answer::Yes)
            &&& next == CallNext::Unavailable(Unavailable::Temporarily) <==> accepts && (
            facts.friends == Some(Answer::Failed) || (facts.friends == Some(Answer::Yes)
                && facts.blocked == Some(Answer::Failed)))
            &&& next is FinalizeExpired <==> may && a != CallAction::End && reply == Some(
                SessionReply::Refused(CallSessionError::Expired),
            )
            &&& next == CallNext::Unavailable(Unavailable::Expired) <==> may && a == CallAction::End
                && reply == Some(SessionReply::Refused(CallSessionError::Expired))
            &&& refused && err == CallSessionError::NotFound ==> next == CallNext::Unavailable(
                Unavailable::NotFound,
            )
            &&& refused && err == CallSessionError::WrongRole ==> next == CallNext::Unavailable(
                Unavailable::WrongRole,
            )
            &&& refused && err == CallSessionError::InvalidPhase ==> next == CallNext::Unavailable(
                Unavailable::InvalidPhase,
            )
            &&& refused && err == CallSessionError::InProgress ==> next == CallNext::Unavailable(
                Unavailable::Busy,
            )
        }),
{
}

/// Each of the four requests about a call goes by one name, and no other name is one: such a request
/// is dropped.
pub proof fn call_requests_go_by_name(
    connected: Seq<char>,
    event: Seq<char>,
    payload: CallPayload,
    facts: CallFacts,
    reply: Option<SessionReply>,
)
    ensures
        action_named(event) == Some(CallAction::Accept) <==> event == "call:accept"@,
        action_named(event) == Some(CallAction::Reject) <==> event == "call:reject"@,
        action_named(event) == Some(CallAction::Cancel) <==> event == "call:cancel"@,
        action_named(event) == Some(CallAction::End) <==> event == "call:end"@,
        action_named(event) is None ==> handle_call_simple_next(
            connected,
            event,
            payload,
            facts,
            reply,
        ) is Ignore,
{
    reveal_strlit("call:accept");
    reveal_strlit("call:reject");
    reveal_strlit("call:cancel");
    reveal_strlit("call:end");
    assert("call:accept"@[5] == 'a' && "call:reject"@[5] == 'r' && "call:cancel"@[5] == 'c'
        && "call:end"@[5] == 'e');
}

/// What was done to a call is told by its own name: accepted, rejected, cancelled or ended.
pub proof fn call_outcomes_are_named(a: CallAction)
    ensures
        a == CallAction::Accept ==> outgoing_event_of(a) == "call:accepted",
        a == CallAction::Reject ==> outgoing_event_of(a) == "call:rejected",
        a == CallAction::Cancel ==> outgoing_event_of(a) == "call:cancelled",
        a == CallAction::End ==> outgoing_event_of(a) == "call:ended",
{
}

/// A call is accepted only between friends of whom neither blocks the other, and both sides
/// are told only of what the calls under way let happen.
pub proof fn accepting_needs_permission(
    connected: Seq<char>,
    event: Seq<char>,
    payload: CallPayload,
    facts: CallFacts,
    reply: Option<SessionReply>,
)
    ensures
        match handle_call_simple_next(connected, event, payload, facts, reply) {
            CallNext::Act(action) => {
                &&& call_sides(connected, payload)
                &&& action_named(event) == Some(action)
                &&& action == CallAction::Accept ==> facts.friends == Some(Answer::Yes)
                    && facts.blocked == Some(Answer::No)
            },
            CallNext::TellBoth(action) => reply == Some(SessionReply::Done) && action_named(event)
                == Some(action),
            _ => true,
        },
{
}

/// Hanging up is never held back by a lost friendship: what ends a call asks nothing.
pub proof fn teardown_asks_nothing(
    connected: Seq<char>,
    event: Seq<char>,
    payload: CallPayload,
    facts: CallFacts,
    reply: Option<SessionReply>,
)
    requires
        action_named(event) matches Some(a) && a != CallAction::Accept,
    ensures
        !(handle_call_simple_next(connected, event, payload, facts, reply) is AskFriends),
        !(handle_call_simple_next(connected, event, payload, facts, reply) is AskBlocked),
{
}

/// What both sides of a call are told: the other one first.
pub open spec fn told_both(from: Seq<char>, to: Seq<char>, event: &'static str) -> Seq<
    CallNoticeView,
> {
    seq![
        CallNoticeView { to, event, from, reason: None },
        CallNoticeView { to: from, event, from, reason: None },
    ]
}

/// What both sides of a call are told.
pub fn tell_both(from: &str, to: &str, event: &'static str) -> (r: Vec<CallNotice>)
    ensures
        notices(r@) == told_both(from@, to@, event),
{
    two_notices(notice(to, event, from, None), notice(from, event, from, None))
}

/// What an ended call leaves behind: the time that the two talked, or, if the callee ended it
/// while it rang, a missed call.
pub open spec fn ended_log_of(s: CallSession, from: Seq<char>) -> CallLog {
    match s.phase {
        CallPhase::Accepted => talked_log(s.talked_secs),
        CallPhase::Ringing => if from == s.callee_id@ {
            CallLog::Missed
        } else {
            CallLog::Nothing
        },
    }
}

/// What an ended call leaves behind.
pub fn ended_log(s: &CallSession, from: &str) -> (r: CallLog)
    ensures
        r == ended_log_of(*s, from@),
{
    match s.phase {
        CallPhase::Accepted => log_talk(s.talked_secs),
        CallPhase::Ringing => if text::same_text(from, &s.callee_id) {
            CallLog::Missed
        } else {
            CallLog::Nothing
        },
    }
}

/// The entry that something done to a call leaves behind.
pub struct LoggedCall {
    pub log: CallLog,
    pub caller: String,
    pub callee: String,
    /// Whether it is made before both sides are told.
    pub first: bool,
}

/// The entry that something done to a call leaves behind.
#[verifier::ext_equal]
pub struct LoggedCallView {
    pub log: CallLog,
    pub caller: Seq<char>,
    pub callee: Seq<char>,
    pub first: bool,
}

impl View for LoggedCall {
    type V = LoggedCallView;

    open spec fn view(&self) -> LoggedCallView {
        LoggedCallView {
            log: self.log,
            caller: self.caller@,
            callee: self.callee@,
            first: self.first,
        }
    }
}

/// The entry that something done to a call leaves behind, where `from` did it: one who rejects
/// it was called and missed it, one who gives up waiting (`timeout`) called and was missed, and
/// one who ends it leaves what [`ended_log_of`] says of the call that was ended. Accepting a
/// call and taking it back leave nothing.
pub open spec fn logged_call(
    action: CallAction,
    timeout: bool,
    ended: Option<CallSession>,
    from: Seq<char>,
    to: Seq<char>,
) -> Option<LoggedCallView> {
    match action {
        CallAction::Accept => None,
        CallAction::Reject => Some(
            LoggedCallView { log: CallLog::Missed, caller: to, callee: from, first: true },
        ),
        CallAction::Cancel => if timeout {
            Some(LoggedCallView { log: CallLog::Missed, caller: from, callee: to, first: false })
        } else {
            None
        },
        CallAction::End => match ended {
            Some(s) => Some(
                LoggedCallView {
                    log: ended_log_of(s, from),
                    caller: s.caller_id@,
                    callee: s.callee_id@,
                    first: false,
                },
            ),
            None => None,
        },
    }
}

/// The entry that something done to a call leaves behind.
pub fn log_after(
    action: CallAction,
    timeout: bool,
    ended: &Option<CallSession>,
    from: &str,
    to: &str,
) -> (r: Option<LoggedCall>)
    ensures
        match r {
            Some(l) => logged_call(action, timeout, *ended, from@, to@) == Some(l@),
            None => logged_call(action, timeout, *ended, from@, to@) is None,
        },
{
    match action {
        CallAction::Accept => None,
        CallAction::Reject => Some(
            LoggedCall {
                log: CallLog::Missed,
                caller: to.to_owned(),
                callee: from.to_owned(),
                first: true,
            },
        ),
        CallAction::Cancel => if timeout {
            Some(
                LoggedCall {
                    log: CallLog::Missed,
                    caller: from.to_owned(),
                    callee: to.to_owned(),
                    first: false,
                },
            )
        } else {
            None
        },
        CallAction::End => match ended {
            Some(s) => Some(
                LoggedCall {
                    log: ended_log(s, from),
                    caller: s.caller_id.clone(),
                    callee: s.callee_id.clone(),
                    first: false,
                },
            ),
            None => None,
        },
    }
}

/// Whoever misses a call is the one who was called: a rejected call, a call that nobody took
/// and a ringing call that the callee ended leave a missed call of the caller, and a call that
/// was taken back leaves none.
pub proof fn missed_calls_name_their_sides(s: CallSession, from: Seq<char>, to: Seq<char>)
    requires
        s.phase == CallPhase::Ringing,
        s.caller_id@ != s.callee_id@,
    ensures
        from == s.callee_id@ && to == s.caller_id@ ==> {
            &&& logged_call(CallAction::Reject, false, Some(s), from, to) matches Some(l)
                && l.log == CallLog::Missed && l.caller == s.caller_id@ && l.callee == s.callee_id@
            &&& logged_call(CallAction::End, false, Some(s), from, to) matches Some(l) && l.log
                == CallLog::Missed && l.caller == s.caller_id@ && l.callee == s.callee_id@
        },
        from == s.caller_id@ && to == s.callee_id@ ==> {
            &&& logged_call(CallAction::Cancel, true, Some(s), from, to) matches Some(l) && l.log
                == CallLog::Missed && l.caller == s.caller_id@ && l.callee == s.callee_id@
            &&& logged_call(CallAction::Cancel, false, Some(s), from, to) is None
        },
{
}

/// What to do next about a caller who gives up waiting: the call is cancelled. That it leaves a
/// missed call behind is said by [`log_after`].
pub open spec fn handle_call_timeout_next(connected: Seq<char>, payload: CallPayload, swept: bool, reply: Option<SessionReply>) -> CallNext {
    if !swept {
        CallNext::Sweep
    } else if !call_sides(connected, payload) {
        CallNext::Ignore
    } else {
        match reply {
            None => CallNext::Act(CallAction::Cancel),
            Some(SessionReply::Done) => CallNext::TellBoth(CallAction::Cancel),
            Some(SessionReply::Refused(CallSessionError::Expired)) => CallNext::FinalizeExpired,
            Some(SessionReply::Refused(err)) => CallNext::Unavailable(
                unavailable_for_error(err),
            ),
        }
    }
}

/// What to do next about a caller who gives up waiting: the call is cancelled. That it leaves a
/// missed call behind is said by [`log_after`].
pub fn handle_call_timeout(connected: &str, payload: &CallPayload, swept: bool, reply: Option<SessionReply>) -> (r: CallNext)
    ensures
        r == handle_call_timeout_next(connected@, *payload, swept, reply),
{
    if !swept {
        CallNext::Sweep
    } else if !names_call_sides(connected, payload) {
        CallNext::Ignore
    } else {
        match reply {
            None => CallNext::Act(CallAction::Cancel),
            Some(SessionReply::Done) => CallNext::TellBoth(CallAction::Cancel),
            Some(SessionReply::Refused(CallSessionError::Expired)) => CallNext::FinalizeExpired,
            Some(SessionReply::Refused(err)) => CallNext::Unavailable(
                unavailable_for(err),
            ),
        }
    }
}

/// A caller who gives up waiting does to the call what one does who takes it back: the two are told
/// and refused alike, once expired calls were ended.
pub proof fn giving_up_takes_the_call_back(
    connected: Seq<char>,
    payload: CallPayload,
    facts: CallFacts,
    reply: Option<SessionReply>,
)
    ensures
        handle_call_timeout_next(connected, payload, true, reply) == handle_call_simple_next(
            connected,
            "call:cancel"@,
            payload,
            facts,
            reply,
        ),
        handle_call_timeout_next(connected, payload, false, reply) is Sweep,
{
    call_requests_go_by_name(connected, "call:cancel"@, payload, facts, reply);
}

/// Two decimal digits of a number under a hundred.
pub open spec fn two_digits(n: nat) -> Seq<char> {
    seq![digit_char(n / 10), digit_char(n % 10)]
}

fn push_two_digits(out: &mut String, n: u64)
    requires
        n < 100,
    ensures
        final(out)@ == old(out)@ + two_digits(n as nat),
{
    out.push((48u8 + (n / 10) as u8) as char);
    out.push((48u8 + (n % 10) as u8) as char);
    proof {
        assert(final(out)@ =~= old(out)@ + two_digits(n as nat));
    }
}

/// How long a call took, as hours, minutes and seconds; without the hours if there are none.
pub open spec fn duration_text(total: nat) -> Seq<char> {
    if total >= 3600 {
        decimal(total / 3600) + seq![':'] + two_digits(total % 3600 / 60) + seq![':'] + two_digits(
            total % 60,
        )
    } else {
        decimal(total / 60) + seq![':'] + two_digits(total % 60)
    }
}

/// How long a call took.
pub fn format_call_duration(total_secs: u64) -> (r: String)
    ensures
        r@ == duration_text(total_secs as nat),
{
    let hours: u64 = total_secs / 3600;
    let minutes: u64 = (total_secs % 3600) / 60;
    let seconds: u64 = total_secs % 60;
    let mut out = String::new();
    if hours > 0 {
        text::push_decimal(&mut out, hours);
        out.push(':');
        push_two_digits(&mut out, minutes);
    } else {
        text::push_decimal(&mut out, minutes);
    }
    out.push(':');
    push_two_digits(&mut out, seconds);
    proof {
        assert(out@ =~= duration_text(total_secs as nat));
    }
    out
}

/// The text of a call that took place.
pub fn call_log_content(duration_secs: u64) -> (r: String)
    ensures
        r@ == "Voice call · "@ + duration_text(duration_secs as nat),
{
    let d = format_call_duration(duration_secs);
    "Voice call · ".to_owned().concat(&d)
}

/// How long a call took in milliseconds, as far as that can be stored.
pub open spec fn call_millis_of(secs: nat) -> nat {
    if secs * 1000 <= u32::MAX {
        secs * 1000
    } else {
        u32::MAX as nat
    }
}

/// How long a call took in milliseconds, as far as that can be stored.
pub fn call_millis(duration_secs: u64) -> (r: u32)
    ensures
        r as nat == call_millis_of(duration_secs as nat),
{
    if duration_secs <= 4294967 {
        (duration_secs * 1000) as u32
    } else {
        u32::MAX
    }
}

/// The entry that a call leaves behind in the conversation. A missed call counts as unread.
pub open spec fn call_log_view(
    caller: ObjectId,
    callee: ObjectId,
    content: Seq<char>,
    duration_ms: u32,
    missed: bool,
) -> CreateMessageView {
    CreateMessageView {
        sender: caller,
        recipient: Some(callee),
        channel: None,
        content,
        message_type: MessageType::Call,
        file_url: None,
        file_type: None,
        file_size: None,
        file_name: None,
        scan_status: ScanStatus::Clean,
        duration_ms: Some(duration_ms),
        quoted_message: None,
        mentions: None,
        mentions_everyone: Some(false),
        client_nonce: None,
        read: Some(!missed),
    }
}

/// The entry that a call leaves behind, if both sides are identifiers.
pub fn persist_call_log(
    caller_id: &str,
    callee_id: &str,
    content: String,
    duration_ms: u32,
    missed: bool,
) -> (r: Option<CreateMessageInput>)
    ensures
        match (parsed_id(caller_id@), parsed_id(callee_id@)) {
            (Some(caller), Some(callee)) => r matches Some(m) && m@ == call_log_view(
                caller,
                callee,
                content@,
                duration_ms,
                missed,
            ),
            _ => r is None,
        },
{
    match (ObjectId::parse_str(caller_id), ObjectId::parse_str(callee_id)) {
        (Some(caller), Some(callee)) => Some(
            CreateMessageInput {
                sender: caller,
                recipient: Some(callee),
                channel: None,
                content,
                message_type: MessageType::Call,
                file_url: None,
                file_type: None,
                file_size: None,
                file_name: None,
                scan_status: ScanStatus::Clean,
                duration_ms: Some(duration_ms),
                quoted_message: None,
                mentions: None,
                mentions_everyone: Some(false),
                client_nonce: None,
                read: Some(!missed),
            },
        ),
        _ => None,
    }
}

/// The entry of a call that took place.
pub fn create_call_log_message(caller_id: &str, callee_id: &str, duration_secs: u64) -> (r: Option<
    CreateMessageInput,
>)
    ensures
        match (parsed_id(caller_id@), parsed_id(callee_id@)) {
            (Some(caller), Some(callee)) => r matches Some(m) && m@ == call_log_view(
                caller,
                callee,
                "Voice call · "@ + duration_text(duration_secs as nat),
                call_millis_of(duration_secs as nat) as u32,
                false,
            ),
            _ => r is None,
        },
{
    persist_call_log(
        caller_id,
        callee_id,
        call_log_content(duration_secs),
        call_millis(duration_secs),
        false,
    )
}

/// The entry of a call that was missed.
pub fn create_missed_call_log_message(caller_id: &str, callee_id: &str) -> (r: Option<
    CreateMessageInput,
>)
    ensures
        match (parsed_id(caller_id@), parsed_id(callee_id@)) {
            (Some(caller), Some(callee)) => r matches Some(m) && m@ == call_log_view(
                caller,
                callee,
                "Missed call"@,
                0,
                true,
            ),
            _ => r is None,
        },
{
    persist_call_log(caller_id, callee_id, "Missed call".to_owned(), 0, true)
}

/// What both sides of a call are told when something else ends it: the callee first.
pub open spec fn cut_off_notices(s: CallSession, user: Seq<char>, reason: &'static str) -> Seq<
    CallNoticeView,
> {
    let event = match s.phase {
        CallPhase::Ringing => "call:cancelled",
        CallPhase::Accepted => "call:ended",
    };
    seq![
        CallNoticeView { to: s.callee_id@, event, from: user, reason: Some(reason) },
        CallNoticeView { to: s.caller_id@, event, from: user, reason: Some(reason) },
    ]
}

/// What both sides of a call are told when something else ends it.
pub fn cut_off_call(s: &CallSession, user_hex: &str, reason: &'static str) -> (r: Vec<CallNotice>)
    ensures
        notices(r@) == cut_off_notices(*s, user_hex@, reason),
{
    let event = match s.phase {
        CallPhase::Ringing => "call:cancelled",
        CallPhase::Accepted => "call:ended",
    };
    let mut out: Vec<CallNotice> = Vec::new();
    out.push(notice(&s.callee_id, event, user_hex, Some(reason)));
    out.push(notice(&s.caller_id, event, user_hex, Some(reason)));
    proof {
        assert(notices(out@) =~= cut_off_notices(*s, user_hex@, reason));
    }
    out
}

/// The frame with a notice about a call.
pub open spec fn notice_frame_of(n: CallNoticeView) -> FrameView {
    plain_frame(
        seq![n.to],
        n.event@,
        seq![text_field("from"@, n.from)] + match n.reason {
            Some(why) => seq![text_field("reason"@, why@)],
            None => Seq::empty(),
        },
    )
}

/// The frame with a notice about a call.
pub fn notice_frame(n: &CallNotice) -> (r: Frame)
    ensures
        r@ == notice_frame_of(n@),
{
    let start = empty_frame(one_text(&n.to), n.event).with_text("from", &n.from);
    let r = match n.reason {
        Some(why) => start.with_text("reason", why),
        None => start,
    };
    proof {
        assert(r@.fields =~= notice_frame_of(n@).fields);
    }
    r
}

/// The frame that tells somebody who asked for a call that it cannot be. Both sides go by the
/// texts of the request.
pub open spec fn unavailable_frame_of(payload: CallPayload, why: Unavailable) -> FrameView {
    plain_frame(
        seq![text::text_or_empty(payload.from)],
        "call:unavailable"@,
        seq![
            text_field("to"@, text::text_or_empty(payload.to)),
            text_field("reason"@, unavailable_reason_of(why)@),
        ] + retry_fields(why == Unavailable::Temporarily),
    )
}

/// The frame that tells somebody who asked for a call that it cannot be.
pub fn unavailable_frame(payload: &CallPayload, why: Unavailable) -> (r: Frame)
    ensures
        r@ == unavailable_frame_of(*payload, why),
{
    let start = empty_frame(one_text(text::or_empty(&payload.from)), "call:unavailable").with_text(
        "to",
        text::or_empty(&payload.to),
    ).with_text("reason", unavailable_reason(why));
    let r = if unavailable_is_retryable(why) {
        start.with_flag("retryable", true)
    } else {
        start
    };
    proof {
        assert(r@.fields =~= unavailable_frame_of(*payload, why).fields);
    }
    r
}

/// The name of the kind of a call.
pub open spec fn mode_name_of(mode: CallMode) -> &'static str {
    match mode {
        CallMode::Video => "video",
        CallMode::Audio => "audio",
    }
}

/// The name of the kind of a call.
pub fn mode_name(mode: CallMode) -> (r: &'static str)
    ensures
        r == mode_name_of(mode),
{
    match mode {
        CallMode::Video => "video",
        CallMode::Audio => "audio",
    }
}

/// The frame with the log of a call as it is shown: for the caller and then the callee.
pub fn call_log_frame(caller_id: &str, callee_id: &str) -> (r: Frame)
    ensures
        r@ == message_frame(seq![caller_id@, callee_id@], "receiveMessage"@),
{
    shown_frame(two_texts(caller_id, callee_id), "receiveMessage")
}

/// A caller as they are shown to whom they call: by their identifier, and by their names where
/// their account was found.
pub open spec fn shown_caller(from: Seq<char>, caller: Option<User>) -> PersonView {
    PersonView {
        id: from,
        names: match caller {
            Some(u) => Some(
                PersonNamesView {
                    username: u.username@,
                    display_name: non_blank(u.display_name),
                    image: text::opt_text(u.image),
                    color: u.color,
                },
            ),
            None => None,
        },
    }
}

/// The frame that offers a call to the one who is called.
pub open spec fn incoming_frame_of(
    to: Seq<char>,
    from: Seq<char>,
    mode: Seq<char>,
    caller: Option<User>,
    session_id: Seq<char>,
) -> FrameView {
    plain_frame(
        seq![to],
        "call:incoming"@,
        seq![
            text_field("from"@, from),
            text_field("mode"@, mode),
            FrameFieldView {
                key: "caller"@,
                value: FrameValueView::Person(shown_caller(from, caller)),
            },
            text_field("callSessionId"@, session_id),
        ],
    )
}

/// The frame that offers a call to the one who is called. `caller` is the account of the caller,
/// if it was found.
pub fn incoming_frame(
    to: &str,
    from: &str,
    mode: &'static str,
    caller: &Option<User>,
    session_id: &str,
) -> (r: Frame)
    ensures
        r@ == incoming_frame_of(to@, from@, mode@, *caller, session_id@),
{
    let names = match caller {
        Some(u) => Some(
            PersonNames {
                username: u.username.clone(),
                display_name: resolve_display_name(u),
                image: text::copy_opt(&u.image),
                color: u.color,
            },
        ),
        None => None,
    };
    let person = Person { id: from.to_owned(), names };
    proof {
        assert(person@ =~= shown_caller(from@, *caller));
    }
    let r = empty_frame(one_text(to), "call:incoming").with_text("from", from).with_text(
        "mode",
        mode,
    ).with("caller", FrameValue::Person(person)).with_text("callSessionId", session_id);
    proof {
        assert(r@.fields =~= incoming_frame_of(to@, from@, mode@, *caller, session_id@).fields);
    }
    r
}

/// What somebody is told whose call cannot be: to whom, of whom, and the reason by its name; only a
/// call that cannot be for now invites to try again.
pub proof fn unavailable_calls_say_why(payload: CallPayload, why: Unavailable)
    requires
        payload.from is Some,
        payload.to is Some,
    ensures
        ({
            let f = unavailable_frame_of(payload, why);
            let name = unavailable_reason_of(why);
            &&& f.to == seq![payload.from->0@] && f.event == "call:unavailable"@ && !f.message
            &&& f.fields[0] == text_field("to"@, payload.to->0@)
            &&& f.fields[1] == text_field("reason"@, name@)
            &&& f.fields.len() == if why == Unavailable::Temporarily {
                3int
            } else {
                2int
            }
            &&& why == Unavailable::Temporarily ==> f.fields[2] == (FrameFieldView {
                key: "retryable"@,
                value: FrameValueView::Flag(true),
            })
            &&& why == Unavailable::NotFriends ==> name == "NOT_FRIENDS"
            &&& why == Unavailable::Temporarily ==> name == "TEMP_UNAVAILABLE"
            &&& why == Unavailable::Blocked ==> name == "BLOCKED"
            &&& why == Unavailable::NotFound ==> name == "NOT_FOUND"
            &&& why == Unavailable::WrongRole ==> name == "WRONG_ROLE"
            &&& why == Unavailable::InvalidPhase ==> name == "INVALID_PHASE"
            &&& why == Unavailable::Busy ==> name == "BUSY"
            &&& why == Unavailable::Expired ==> name == "EXPIRED"
        }),
{
}

/// Of what is done to a call both sides are told the same, from the one who did it, the other one
/// first.
pub proof fn both_sides_are_told_the_same(from: Seq<char>, to: Seq<char>, event: &'static str)
    ensures
        told_both(from, to, event).len() == 2,
        told_both(from, to, event)[0].to == to,
        told_both(from, to, event)[1].to == from,
        forall|i: int|
            0 <= i < 2 ==> (#[trigger] told_both(from, to, event)[i]).event == event && told_both(
                from,
                to,
                event,
            )[i].from == from && told_both(from, to, event)[i].reason is None,
{
}

/// A call that expired while it rang is cancelled for both and missed; one that expired while the
/// two talked is ended for both, and the time that they talked is kept. The caller is always told
/// that time was up, and everything comes from the caller.
pub proof fn expired_calls_end_as_they_were(s: CallSession)
    ensures
        ({
            let e = expired_end(s);
            let ringing = s.phase == CallPhase::Ringing;
            &&& e.notices.len() == 2
            &&& e.notices[if ringing {
                0
            } else {
                1
            }].to == s.callee_id@
            &&& e.notices[if ringing {
                1
            } else {
                0
            }].to == s.caller_id@
            &&& forall|i: int|
                0 <= i < 2 ==> (#[trigger] e.notices[i]).from == s.caller_id@ && e.notices[i].event
                    == (if ringing {
                    "call:cancelled"
                } else {
                    "call:ended"
                }) && e.notices[i].reason == (if ringing && i == 0 {
                    None
                } else {
                    Some("TIMEOUT")
                })
            &&& ringing ==> e.log == CallLog::Missed
            &&& !ringing && s.talked_secs is Some ==> e.log == CallLog::Talked(s.talked_secs->0)
            &&& !ringing && s.talked_secs is None ==> e.log == CallLog::Nothing
        }),
{
}

/// Whoever goes away ends their calls as if they had acted: a caller takes a ringing call back, a
/// callee rejects it and misses it, and a call under way is ended for both with the time that they
/// talked.
pub proof fn leaving_ends_calls(s: CallSession, user: Seq<char>)
    requires
        s.caller_id@ != s.callee_id@,
        user == s.caller_id@ || user == s.callee_id@,
    ensures
        ({
            let e = taken_end(s, user);
            let other = if user == s.caller_id@ {
                s.callee_id@
            } else {
                s.caller_id@
            };
            let ringing = s.phase == CallPhase::Ringing;
            &&& e.notices[0] == (CallNoticeView {
                to: other,
                event: if !ringing {
                    "call:ended"
                } else if user == s.caller_id@ {
                    "call:cancelled"
                } else {
                    "call:rejected"
                },
                from: user,
                reason: None,
            })
            &&& ringing && user == s.callee_id@ ==> e.notices.len() == 1 && e.log == CallLog::Missed
            &&& ringing && user == s.caller_id@ ==> e.notices.len() == 2 && e.notices[1] == (
            CallNoticeView {
                to: user,
                event: "call:cancelled",
                from: user,
                reason: Some("TAB_CLOSED"),
            }) && e.log == CallLog::Nothing
            &&& !ringing ==> e.notices.len() == 2 && e.notices[1] == (CallNoticeView {
                to: user,
                event: "call:ended",
                from: user,
                reason: None,
            })
            &&& !ringing && s.talked_secs is Some ==> e.log == CallLog::Talked(s.talked_secs->0)
            &&& !ringing && s.talked_secs is None ==> e.log == CallLog::Nothing
        }),
{
}

/// What something done to a call leaves behind, in every case: nothing of a call that was accepted
/// or taken back, a missed call of one that was rejected or given up, and of one that was ended the
/// time that the two talked, or a missed call if the callee ended it while it rang. Only a rejected
/// call is entered before the two are told.
pub proof fn calls_leave_what_they_were(
    timeout: bool,
    ended: Option<CallSession>,
    from: Seq<char>,
    to: Seq<char>,
    s: CallSession,
)
    ensures
        logged_call(CallAction::Accept, timeout, ended, from, to) is None,
        logged_call(CallAction::Reject, timeout, ended, from, to) == Some(
            LoggedCallView { log: CallLog::Missed, caller: to, callee: from, first: true },
        ),
        logged_call(CallAction::Cancel, false, ended, from, to) is None,
        logged_call(CallAction::Cancel, true, ended, from, to) == Some(
            LoggedCallView { log: CallLog::Missed, caller: from, callee: to, first: false },
        ),
        logged_call(CallAction::End, timeout, None, from, to) is None,
        ({
            let l = logged_call(CallAction::End, timeout, Some(s), from, to)->0;
            &&& logged_call(CallAction::End, timeout, Some(s), from, to) is Some
            &&& l.caller == s.caller_id@ && l.callee == s.callee_id@ && !l.first
            &&& l.log == CallLog::Missed <==> s.phase == CallPhase::Ringing && from == s.callee_id@
            &&& forall|n: u64|
                l.log == CallLog::Talked(n) <==> s.phase == CallPhase::Accepted && s.talked_secs
                    == Some(n)
        }),
{
}

/// A call that something else ends is cancelled if it rang and ended if not, for the callee and then
/// for the caller, with the reason.
pub proof fn cut_off_calls_say_why(s: CallSession, user: Seq<char>, reason: &'static str)
    ensures
        ({
            let event = if s.phase == CallPhase::Ringing {
                "call:cancelled"
            } else {
                "call:ended"
            };
            let n = cut_off_notices(s, user, reason);
            &&& n.len() == 2
            &&& n[0] == (CallNoticeView {
                to: s.callee_id@,
                event,
                from: user,
                reason: Some(reason),
            })
            &&& n[1] == (CallNoticeView {
                to: s.caller_id@,
                event,
                from: user,
                reason: Some(reason),
            })
        }),
{
}

/// A notice is told to whom it is for, by its name, with the one it comes from, and with the reason
/// exactly where it has one.
pub proof fn notices_say_who_and_why(n: CallNoticeView)
    ensures
        notice_frame_of(n).to == seq![n.to],
        notice_frame_of(n).event == n.event@,
        !notice_frame_of(n).message,
        notice_frame_of(n).fields[0] == text_field("from"@, n.from),
        n.reason is None ==> notice_frame_of(n).fields.len() == 1,
        n.reason matches Some(why) ==> notice_frame_of(n).fields.len() == 2 && notice_frame_of(
            n,
        ).fields[1] == text_field("reason"@, why@),
{
}

/// How long a call took is kept to the millisecond as far as it can be stored, and never as longer
/// than it was.
pub proof fn call_times_are_kept(secs: nat)
    ensures
        call_millis_of(secs) <= secs * 1000,
        call_millis_of(secs) <= 4294967295,
        secs <= 4294967 ==> call_millis_of(secs) == secs * 1000,
        secs > 4294967 ==> call_millis_of(secs) == 4294967295,
{
}

/// The length of a call can be read back from its text: minutes and seconds that are under sixty,
/// behind the hours if there are any.
pub proof fn durations_can_be_read_back(h: nat, m: nat, s: nat)
    requires
        m < 60,
        s < 60,
    ensures
        h > 0 ==> duration_text(h * 3600 + m * 60 + s) == decimal(h) + seq![
            ':',
            digit_char(m / 10),
            digit_char(m % 10),
            ':',
            digit_char(s / 10),
            digit_char(s % 10),
        ],
        duration_text(m * 60 + s) == decimal(m) + seq![
            ':',
            digit_char(s / 10),
            digit_char(s % 10),
        ],
{
    let t = h * 3600 + m * 60 + s;
    if h > 0 {
        assert(t / 3600 == h && t % 3600 == m * 60 + s && t % 60 == s);
        assert(duration_text(t) =~= decimal(h) + seq![
            ':',
            digit_char(m / 10),
            digit_char(m % 10),
            ':',
            digit_char(s / 10),
            digit_char(s % 10),
        ]);
    }
    assert(duration_text(m * 60 + s) =~= decimal(m) + seq![
        ':',
        digit_char(s / 10),
        digit_char(s % 10),
    ]);
}

/// A call's entry is a message from the caller to the callee, counts as unread exactly if the call
/// was missed, and has no file, no quote and no mentions.
pub proof fn missed_calls_are_unread(
    caller: ObjectId,
    callee: ObjectId,
    content: Seq<char>,
    duration_ms: u32,
    missed: bool,
)
    ensures
        ({
            let m = call_log_view(caller, callee, content, duration_ms, missed);
            &&& m.sender == caller && m.recipient == Some(callee) && m.channel is None
            &&& m.content == content && m.message_type == MessageType::Call
            &&& m.duration_ms == Some(duration_ms)
            &&& m.read == Some(false) <==> missed
            &&& m.read == Some(true) <==> !missed
            &&& m.file_url is None && m.file_type is None && m.file_size is None && m.file_name
                is None && m.scan_status == ScanStatus::Clean
            &&& m.quoted_message is None && m.mentions is None && m.client_nonce is None
            &&& m.mentions_everyone == Some(false)
        }),
{
}

/// An offered call says who calls, in which mode and under which number, and shows the caller by
/// name exactly where the account was found.
pub proof fn offered_calls_say_who_calls(
    to: Seq<char>,
    from: Seq<char>,
    mode: CallMode,
    caller: Option<User>,
    session_id: Seq<char>,
)
    ensures
        ({
            let f = incoming_frame_of(to, from, mode_name_of(mode)@, caller, session_id);
            let p = shown_caller(from, caller);
            &&& f.to == seq![to] && f.event == "call:incoming"@ && !f.message && f.fields.len() == 4
            &&& f.fields[0] == text_field("from"@, from)
            &&& f.fields[1] == text_field(
                "mode"@,
                if mode == CallMode::Video {
                    "video"@
                } else {
                    "audio"@
                },
            )
            &&& f.fields[2] == (FrameFieldView {
                key: "caller"@,
                value: FrameValueView::Person(p),
            })
            &&& f.fields[3] == text_field("callSessionId"@, session_id)
            &&& p.id == from
            &&& p.names is Some <==> caller is Some
            &&& caller is Some ==> p.names->0.username == caller->0.username@ && p.names->0.color
                == caller->0.color && p.names->0.image == text::opt_text(caller->0.image)
        }),
{
}

} // verus!
