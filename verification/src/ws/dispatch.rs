//! Which handler a frame goes to, how often it may come, and in which queue it waits.
use vstd::prelude::*;
use crate::text;

verus! {

/// The kinds of frame that clients send.
#[derive(Clone, Copy, Debug, PartialEq, Eq, Structural)]
pub enum FrameKind {
    SendMessage,
    SendChannelMessage,
    Typing,
    Reaction,
    MarkMessageRead,
    MarkConversationRead,
    MarkChannelRead,
    EditMessage,
    DeleteMessage,
    SetOnline,
    SetOffline,
    SetStatus,
    CallInvite,
    /// Accept, reject, cancel or end.
    CallSimple,
    CallTimeout,
    VoiceJoin,
    VoiceLeave,
    VoiceState,
}

/// The kind of a frame with this name.
pub open spec fn kind_named(t: Seq<char>) -> Option<FrameKind> {
    if t == "sendMessage"@ {
        Some(FrameKind::SendMessage)
    } else if t == "send-channel-message"@ {
        Some(FrameKind::SendChannelMessage)
    } else if t == "typing"@ {
        Some(FrameKind::Typing)
    } else if t == "message-reaction"@ {
        Some(FrameKind::Reaction)
    } else if t == "mark-message-read"@ {
        Some(FrameKind::MarkMessageRead)
    } else if t == "mark-conversation-read"@ {
        Some(FrameKind::MarkConversationRead)
    } else if t == "mark-channel-read"@ {
        Some(FrameKind::MarkChannelRead)
    } else if t == "editMessage"@ {
        Some(FrameKind::EditMessage)
    } else if t == "deleteMessage"@ {
        Some(FrameKind::DeleteMessage)
    } else if t == "set-online"@ {
        Some(FrameKind::SetOnline)
    } else if t == "set-offline"@ {
        Some(FrameKind::SetOffline)
    } else if t == "set-status"@ {
        Some(FrameKind::SetStatus)
    } else if t == "call:invite"@ {
        Some(FrameKind::CallInvite)
    } else if t == "call:accept"@ || t == "call:reject"@ || t == "call:cancel"@ || t
        == "call:end"@ {
        Some(FrameKind::CallSimple)
    } else if t == "call:timeout"@ {
        Some(FrameKind::CallTimeout)
    } else if t == "channel-voice:join"@ {
        Some(FrameKind::VoiceJoin)
    } else if t == "channel-voice:leave"@ {
        Some(FrameKind::VoiceLeave)
    } else if t == "channel-voice:state"@ {
        Some(FrameKind::VoiceState)
    } else {
        None
    }
}

/// The kind of a frame with this name.
pub fn frame_kind(t: &str) -> (r: Option<FrameKind>)
    ensures
        r == kind_named(t@),
{
    if text::same_text(t, "sendMessage") {
        Some(FrameKind::SendMessage)
    } else if text::same_text(t, "send-channel-message") {
        Some(FrameKind::SendChannelMessage)
    } else if text::same_text(t, "typing") {
        Some(FrameKind::Typing)
    } else if text::same_text(t, "message-reaction") {
        Some(FrameKind::Reaction)
    } else if text::same_text(t, "mark-message-read") {
        Some(FrameKind::MarkMessageRead)
    } else if text::same_text(t, "mark-conversation-read") {
        Some(FrameKind::MarkConversationRead)
    } else if text::same_text(t, "mark-channel-read") {
        Some(FrameKind::MarkChannelRead)
    } else if text::same_text(t, "editMessage") {
        Some(FrameKind::EditMessage)
    } else if text::same_text(t, "deleteMessage") {
        Some(FrameKind::DeleteMessage)
    } else if text::same_text(t, "set-online") {
        Some(FrameKind::SetOnline)
    } else if text::same_text(t, "set-offline") {
        Some(FrameKind::SetOffline)
    } else if text::same_text(t, "set-status") {
        Some(FrameKind::SetStatus)
    } else if text::same_text(t, "call:invite") {
        Some(FrameKind::CallInvite)
    } else if text::same_text(t, "call:accept") || text::same_text(t, "call:reject")
        || text::same_text(t, "call:cancel") || text::same_text(t, "call:end") {
        Some(FrameKind::CallSimple)
    } else if text::same_text(t, "call:timeout") {
        Some(FrameKind::CallTimeout)
    } else if text::same_text(t, "channel-voice:join") {
        Some(FrameKind::VoiceJoin)
    } else if text::same_text(t, "channel-voice:leave") {
        Some(FrameKind::VoiceLeave)
    } else if text::same_text(t, "channel-voice:state") {
        Some(FrameKind::VoiceState)
    } else {
        None
    }
}

/// Where the work of a frame waits.
#[derive(Clone, Copy, Debug, PartialEq, Eq, Structural)]
pub enum Queue {
    /// In the order of the user's frames.
    Ordered,
    /// In the order of the user's frames, the latest of a chat replacing earlier ones.
    OrderedEventually,
    /// Among the user's acknowledgements.
    Acknowledge,
    /// Ahead of everything else of the user.
    Realtime,
    /// Nowhere: it is started at once.
    Immediate,
}

/// The window of all rate limits, in milliseconds.
pub const RATE_WINDOW_MS: u64 = 60_000;

/// How many frames of a kind a user may send within a minute. Typing is counted for each
/// chat, what concerns a call under way or a voice room for each name.
pub open spec fn frame_limit_of(kind: FrameKind) -> u32 {
    match kind {
        FrameKind::SendMessage => 60,
        FrameKind::SendChannelMessage => 60,
        FrameKind::Typing => 20,
        FrameKind::Reaction => 120,
        FrameKind::MarkMessageRead => 300,
        FrameKind::MarkConversationRead => 60,
        FrameKind::MarkChannelRead => 300,
        FrameKind::EditMessage => 60,
        FrameKind::DeleteMessage => 60,
        FrameKind::SetOnline => 30,
        FrameKind::SetOffline => 30,
        FrameKind::SetStatus => 30,
        FrameKind::CallInvite => 20,
        FrameKind::CallSimple => 30,
        FrameKind::CallTimeout => 20,
        FrameKind::VoiceJoin => 40,
        FrameKind::VoiceLeave => 40,
        FrameKind::VoiceState => 40,
    }
}

/// How many frames of a kind a user may send within a minute. Typing is counted for each
/// chat, what concerns a call under way or a voice room for each name.
pub fn frame_limit(kind: FrameKind) -> (r: u32)
    ensures
        r == frame_limit_of(kind),
{
    match kind {
        FrameKind::SendMessage => 60,
        FrameKind::SendChannelMessage => 60,
        FrameKind::Typing => 20,
        FrameKind::Reaction => 120,
        FrameKind::MarkMessageRead => 300,
        FrameKind::MarkConversationRead => 60,
        FrameKind::MarkChannelRead => 300,
        FrameKind::EditMessage => 60,
        FrameKind::DeleteMessage => 60,
        FrameKind::SetOnline => 30,
        FrameKind::SetOffline => 30,
        FrameKind::SetStatus => 30,
        FrameKind::CallInvite => 20,
        FrameKind::CallSimple => 30,
        FrameKind::CallTimeout => 20,
        FrameKind::VoiceJoin => 40,
        FrameKind::VoiceLeave => 40,
        FrameKind::VoiceState => 40,
    }
}

/// Where the work of a frame waits.
pub open spec fn frame_queue_of(kind: FrameKind) -> Queue {
    match kind {
        FrameKind::SendMessage => Queue::Ordered,
        FrameKind::SendChannelMessage => Queue::Ordered,
        FrameKind::Typing => Queue::OrderedEventually,
        FrameKind::Reaction => Queue::Ordered,
        FrameKind::MarkMessageRead => Queue::Acknowledge,
        FrameKind::MarkConversationRead => Queue::Acknowledge,
        FrameKind::MarkChannelRead => Queue::Acknowledge,
        FrameKind::EditMessage => Queue::Ordered,
        FrameKind::DeleteMessage => Queue::Ordered,
        FrameKind::SetOnline => Queue::Immediate,
        FrameKind::SetOffline => Queue::Immediate,
        FrameKind::SetStatus => Queue::Immediate,
        FrameKind::CallInvite => Queue::Realtime,
        FrameKind::CallSimple => Queue::Realtime,
        FrameKind::CallTimeout => Queue::Realtime,
        FrameKind::VoiceJoin => Queue::Realtime,
        FrameKind::VoiceLeave => Queue::Realtime,
        FrameKind::VoiceState => Queue::Realtime,
    }
}

/// Where the work of a frame waits.
pub fn frame_queue(kind: FrameKind) -> (r: Queue)
    ensures
        r == frame_queue_of(kind),
{
    match kind {
        FrameKind::SendMessage => Queue::Ordered,
        FrameKind::SendChannelMessage => Queue::Ordered,
        FrameKind::Typing => Queue::OrderedEventually,
        FrameKind::Reaction => Queue::Ordered,
        FrameKind::MarkMessageRead => Queue::Acknowledge,
        FrameKind::MarkConversationRead => Queue::Acknowledge,
        FrameKind::MarkChannelRead => Queue::Acknowledge,
        FrameKind::EditMessage => Queue::Ordered,
        FrameKind::DeleteMessage => Queue::Ordered,
        FrameKind::SetOnline => Queue::Immediate,
        FrameKind::SetOffline => Queue::Immediate,
        FrameKind::SetStatus => Queue::Immediate,
        FrameKind::CallInvite => Queue::Realtime,
        FrameKind::CallSimple => Queue::Realtime,
        FrameKind::CallTimeout => Queue::Realtime,
        FrameKind::VoiceJoin => Queue::Realtime,
        FrameKind::VoiceLeave => Queue::Realtime,
        FrameKind::VoiceState => Queue::Realtime,
    }
}

/// Whether a user is told that a frame of a kind was refused: not for typing and for what
/// concerns their own presence.
pub open spec fn answers_refusal(kind: FrameKind) -> bool {
    !(kind is Typing || kind is SetOnline || kind is SetOffline || kind is SetStatus)
}

/// Whether a refusal repeats the nonce of the frame: only for messages.
pub open spec fn repeats_nonce(kind: FrameKind) -> bool {
    kind is SendMessage || kind is SendChannelMessage
}

/// Whether a refusal repeats the nonce of the frame.
pub fn refusal_has_nonce(kind: FrameKind) -> (r: bool)
    ensures
        r == repeats_nonce(kind),
{
    match kind {
        FrameKind::SendMessage | FrameKind::SendChannelMessage => true,
        _ => false,
    }
}

/// What is known so far about a frame.
#[derive(Clone, Copy, Debug)]
pub struct DispatchFacts {
    /// Whether the frame can be read as one of its kind; for a presence status, whether it
    /// names one.
    pub readable: Option<bool>,
    /// Whether a typing frame says that somebody types.
    pub says_typing: bool,
    /// Whether the rate limit lets it pass.
    pub within_limit: Option<bool>,
    /// Whether there was room in the queue.
    pub queued: Option<bool>,
}

/// What to do next about a frame.
#[derive(Clone, Copy, Debug, PartialEq, Eq, Structural)]
pub enum DispatchNext {
    Ignore,
    /// Count the frame: so many within so many milliseconds.
    CheckRate { limit: u32, window_ms: u64 },
    RefuseRate,
    Read,
    Enqueue(Queue),
    RefuseFull,
    Done,
}

/// What to do next about a frame that may be handled: queue it, or say that there is no room.
pub open spec fn dispatch_queue_next(kind: FrameKind, facts: DispatchFacts) -> DispatchNext {
    let queue = frame_queue_of(kind);
    match facts.queued {
        None => DispatchNext::Enqueue(queue),
        Some(true) => DispatchNext::Done,
        Some(false) => match queue {
            Queue::Immediate | Queue::OrderedEventually => DispatchNext::Done,
            _ => DispatchNext::RefuseFull,
        },
    }
}

/// What to do next about a frame that may be handled: queue it, or say that there is no room.
pub fn dispatch_queue(kind: FrameKind, facts: &DispatchFacts) -> (r: DispatchNext)
    ensures
        r == dispatch_queue_next(kind, *facts),
{
    let queue = frame_queue(kind);
    match facts.queued {
        None => DispatchNext::Enqueue(queue),
        Some(true) => DispatchNext::Done,
        Some(false) => match queue {
            Queue::Immediate | Queue::OrderedEventually => DispatchNext::Done,
            _ => DispatchNext::RefuseFull,
        },
    }
}

/// What to do next about a frame. The rate limit comes first, and then the frame is read;
/// a typing frame is read first, as only one that says that somebody types is counted.
pub open spec fn dispatch_message_next(msg_type: Seq<char>, facts: DispatchFacts) -> DispatchNext {
    match kind_named(msg_type) {
        None => DispatchNext::Ignore,
        Some(kind) => {
            let limit = frame_limit_of(kind);
            let typing = kind == FrameKind::Typing;
            let counted = !typing || facts.says_typing;
            let quiet = match kind {
                FrameKind::Typing
                | FrameKind::SetOnline
                | FrameKind::SetOffline
                | FrameKind::SetStatus => true,
                _ => false,
            };
            let needs_reading = match kind {
                FrameKind::SetOnline | FrameKind::SetOffline => false,
                _ => true,
            };
            if typing && facts.readable is None {
                DispatchNext::Read
            } else if typing && facts.readable == Some(false) {
                DispatchNext::Ignore
            } else if counted && facts.within_limit is None {
                DispatchNext::CheckRate { limit, window_ms: RATE_WINDOW_MS }
            } else if counted && facts.within_limit == Some(false) {
                if quiet {
                    DispatchNext::Ignore
                } else {
                    DispatchNext::RefuseRate
                }
            } else if needs_reading && facts.readable is None {
                DispatchNext::Read
            } else if needs_reading && facts.readable == Some(false) {
                DispatchNext::Ignore
            } else {
                dispatch_queue_next(kind, facts)
            }
        },
    }
}

/// What to do next about a frame. The rate limit comes first, and then the frame is read;
/// a typing frame is read first, as only one that says that somebody types is counted.
pub fn dispatch_message(msg_type: &str, facts: &DispatchFacts) -> (r: DispatchNext)
    ensures
        r == dispatch_message_next(msg_type@, *facts),
{
    match frame_kind(msg_type) {
        None => DispatchNext::Ignore,
        Some(kind) => {
            let limit = frame_limit(kind);
            let typing = kind == FrameKind::Typing;
            let counted = !typing || facts.says_typing;
            let quiet = match kind {
                FrameKind::Typing
                | FrameKind::SetOnline
                | FrameKind::SetOffline
                | FrameKind::SetStatus => true,
                _ => false,
            };
            let needs_reading = match kind {
                FrameKind::SetOnline | FrameKind::SetOffline => false,
                _ => true,
            };
            if typing && facts.readable.is_none() {
                DispatchNext::Read
            } else if typing && facts.readable == Some(false) {
                DispatchNext::Ignore
            } else if counted && facts.within_limit.is_none() {
                DispatchNext::CheckRate { limit, window_ms: RATE_WINDOW_MS }
            } else if counted && facts.within_limit == Some(false) {
                if quiet {
                    DispatchNext::Ignore
                } else {
                    DispatchNext::RefuseRate
                }
            } else if needs_reading && facts.readable.is_none() {
                DispatchNext::Read
            } else if needs_reading && facts.readable == Some(false) {
                DispatchNext::Ignore
            } else {
                dispatch_queue(kind, facts)
            }
        },
    }
}

/// Nothing is queued without having been counted against its limit, except that somebody
/// stopped typing.
pub proof fn frames_are_counted_first(msg_type: Seq<char>, facts: DispatchFacts)
    ensures
        dispatch_message_next(msg_type, facts) is Enqueue ==> {
            &&& kind_named(msg_type) is Some
            &&& facts.within_limit == Some(true) || (kind_named(msg_type) == Some(
                FrameKind::Typing,
            ) && !facts.says_typing)
        },
{
}

/// A refused frame is answered exactly for the kinds that are answered.
pub proof fn refusals_are_answered(msg_type: Seq<char>, kind: FrameKind, facts: DispatchFacts)
    requires
        kind_named(msg_type) == Some(kind),
        facts.within_limit == Some(false),
        kind is Typing ==> facts.readable == Some(true) && facts.says_typing,
    ensures
        dispatch_message_next(msg_type, facts) == (if answers_refusal(kind) {
            DispatchNext::RefuseRate
        } else {
            DispatchNext::Ignore
        }),
{
}

/// A frame of an unknown kind changes nothing.
pub proof fn unknown_frames_are_ignored(msg_type: Seq<char>, facts: DispatchFacts)
    requires
        kind_named(msg_type) is None,
    ensures
        dispatch_message_next(msg_type, facts) == DispatchNext::Ignore,
{
}

/// Each kind of frame goes by its own name and by no other; only the four requests about a call that
/// is there share a kind.
pub proof fn frames_go_by_name(t: Seq<char>)
    ensures
        kind_named(t) == Some(FrameKind::SendMessage) <==> t == "sendMessage"@,
        kind_named(t) == Some(FrameKind::SendChannelMessage) <==> t == "send-channel-message"@,
        kind_named(t) == Some(FrameKind::Typing) <==> t == "typing"@,
        kind_named(t) == Some(FrameKind::Reaction) <==> t == "message-reaction"@,
        kind_named(t) == Some(FrameKind::MarkMessageRead) <==> t == "mark-message-read"@,
        kind_named(t) == Some(FrameKind::MarkConversationRead) <==> t == "mark-conversation-read"@,
        kind_named(t) == Some(FrameKind::MarkChannelRead) <==> t == "mark-channel-read"@,
        kind_named(t) == Some(FrameKind::EditMessage) <==> t == "editMessage"@,
        kind_named(t) == Some(FrameKind::DeleteMessage) <==> t == "deleteMessage"@,
        kind_named(t) == Some(FrameKind::SetOnline) <==> t == "set-online"@,
        kind_named(t) == Some(FrameKind::SetOffline) <==> t == "set-offline"@,
        kind_named(t) == Some(FrameKind::SetStatus) <==> t == "set-status"@,
        kind_named(t) == Some(FrameKind::CallInvite) <==> t == "call:invite"@,
        kind_named(t) == Some(FrameKind::CallTimeout) <==> t == "call:timeout"@,
        kind_named(t) == Some(FrameKind::VoiceJoin) <==> t == "channel-voice:join"@,
        kind_named(t) == Some(FrameKind::VoiceLeave) <==> t == "channel-voice:leave"@,
        kind_named(t) == Some(FrameKind::VoiceState) <==> t == "channel-voice:state"@,
        kind_named(t) == Some(FrameKind::CallSimple) <==> t == "call:accept"@ || t == "call:reject"@ || t
            == "call:cancel"@ || t == "call:end"@,
{
    reveal_strlit("sendMessage");
    reveal_strlit("send-channel-message");
    reveal_strlit("typing");
    reveal_strlit("message-reaction");
    reveal_strlit("mark-message-read");
    reveal_strlit("mark-conversation-read");
    reveal_strlit("mark-channel-read");
    reveal_strlit("editMessage");
    reveal_strlit("deleteMessage");
    reveal_strlit("set-online");
    reveal_strlit("set-offline");
    reveal_strlit("set-status");
    reveal_strlit("call:invite");
    reveal_strlit("call:timeout");
    reveal_strlit("channel-voice:join");
    reveal_strlit("channel-voice:leave");
    reveal_strlit("channel-voice:state");
    reveal_strlit("call:accept");
    reveal_strlit("call:reject");
    reveal_strlit("call:cancel");
    reveal_strlit("call:end");
    assert("sendMessage"@.len() == 11);
    assert("send-channel-message"@.len() == 20);
    assert("typing"@.len() == 6);
    assert("message-reaction"@.len() == 16);
    assert("mark-message-read"@.len() == 17);
    assert("mark-conversation-read"@.len() == 22);
    assert("mark-channel-read"@.len() == 17);
    assert("editMessage"@.len() == 11);
    assert("deleteMessage"@.len() == 13);
    assert("set-online"@.len() == 10);
    assert("set-offline"@.len() == 11);
    assert("set-status"@.len() == 10);
    assert("call:invite"@.len() == 11);
    assert("call:timeout"@.len() == 12);
    assert("channel-voice:join"@.len() == 18);
    assert("channel-voice:leave"@.len() == 19);
    assert("channel-voice:state"@.len() == 19);
    assert("call:accept"@.len() == 11);
    assert("call:reject"@.len() == 11);
    assert("call:cancel"@.len() == 11);
    assert("call:end"@.len() == 8);
    assert("call:accept"@[0] == 'c');
    assert("call:accept"@[5] == 'a');
    assert("call:cancel"@[0] == 'c');
    assert("call:cancel"@[5] == 'c');
    assert("call:invite"@[0] == 'c');
    assert("call:invite"@[5] == 'i');
    assert("call:reject"@[0] == 'c');
    assert("call:reject"@[5] == 'r');
    assert("channel-voice:leave"@[14] == 'l');
    assert("channel-voice:state"@[14] == 's');
    assert("editMessage"@[0] == 'e');
    assert("mark-channel-read"@[5] == 'c');
    assert("mark-message-read"@[5] == 'm');
    assert("sendMessage"@[0] == 's');
    assert("sendMessage"@[2] == 'n');
    assert("set-offline"@[0] == 's');
    assert("set-offline"@[2] == 't');
    assert("set-online"@[4] == 'o');
    assert("set-status"@[4] == 's');
}

/// How many frames of a kind may come within a minute, for every kind.
pub proof fn frames_have_limits(kind: FrameKind)
    ensures
        frame_limit_of(kind) == 20 <==> kind is Typing || kind is CallInvite || kind is CallTimeout,
        frame_limit_of(kind) == 30 <==> kind is SetOnline || kind is SetOffline || kind is SetStatus || kind is CallSimple,
        frame_limit_of(kind) == 40 <==> kind is VoiceJoin || kind is VoiceLeave || kind is VoiceState,
        frame_limit_of(kind) == 60 <==> kind is SendMessage || kind is SendChannelMessage || kind is MarkConversationRead || kind is EditMessage || kind is DeleteMessage,
        frame_limit_of(kind) == 120 <==> kind is Reaction,
        frame_limit_of(kind) == 300 <==> kind is MarkMessageRead || kind is MarkChannelRead,
        RATE_WINDOW_MS == 60_000,
{
}

/// Messages and changes of them wait in the order in which they came, typing too, but as the latest;
/// acknowledgements wait on their own, calls and voice come ahead of everything, and what concerns
/// the own presence does not wait.
pub proof fn frames_wait_by_kind(kind: FrameKind)
    ensures
        frame_queue_of(kind) == Queue::Ordered <==> kind is SendMessage || kind is SendChannelMessage
            || kind is Reaction || kind is EditMessage || kind is DeleteMessage,
        frame_queue_of(kind) == Queue::OrderedEventually <==> kind is Typing,
        frame_queue_of(kind) == Queue::Acknowledge <==> kind is MarkMessageRead || kind
            is MarkConversationRead || kind is MarkChannelRead,
        frame_queue_of(kind) == Queue::Realtime <==> kind is CallInvite || kind is CallSimple || kind
            is CallTimeout || kind is VoiceJoin || kind is VoiceLeave || kind is VoiceState,
        frame_queue_of(kind) == Queue::Immediate <==> kind is SetOnline || kind is SetOffline || kind
            is SetStatus,
{
}

/// What becomes of a frame of a kind, outcome by outcome: it is counted, unless it says that somebody
/// stopped typing, then read, unless there is nothing to read, and then queued; a frame above its
/// limit and one without room are refused, silently where nobody asked for an answer.
pub proof fn frames_are_counted_read_and_queued(
    msg_type: Seq<char>,
    kind: FrameKind,
    facts: DispatchFacts,
)
    requires
        kind_named(msg_type) == Some(kind),
        !(kind is Typing),
    ensures
        ({
            let next = dispatch_message_next(msg_type, facts);
            let quiet = kind is SetOnline || kind is SetOffline || kind is SetStatus;
            let bare = kind is SetOnline || kind is SetOffline;
            let passed = facts.within_limit == Some(true);
            let ready = passed && (bare || facts.readable == Some(true));
            &&& next is CheckRate <==> facts.within_limit is None
            &&& next is CheckRate ==> next->limit == frame_limit_of(kind) && next->window_ms == 60_000
            &&& next is RefuseRate <==> facts.within_limit == Some(false) && !quiet
            &&& next is Read <==> passed && !bare && facts.readable is None
            &&& next is Enqueue <==> ready && facts.queued is None
            &&& next is Enqueue ==> next->Enqueue_0 == frame_queue_of(kind)
            &&& next is RefuseFull <==> ready && facts.queued == Some(false) && !quiet
            &&& next is Done <==> ready && (facts.queued == Some(true) || (facts.queued == Some(
                false,
            ) && quiet))
            &&& next is Ignore <==> (facts.within_limit == Some(false) && quiet) || (passed && !bare
                && facts.readable == Some(false))
        }),
{
    assert(facts.readable is Some ==> facts.readable == Some(facts.readable->0));
    assert(facts.within_limit is Some ==> facts.within_limit == Some(facts.within_limit->0));
    assert(facts.queued is Some ==> facts.queued == Some(facts.queued->0));
}

/// What becomes of a report that somebody types, outcome by outcome: it is read first; only one that
/// says that somebody types is counted; and it is never refused aloud.
pub proof fn typing_is_read_first(msg_type: Seq<char>, facts: DispatchFacts)
    requires
        kind_named(msg_type) == Some(FrameKind::Typing),
    ensures
        ({
            let next = dispatch_message_next(msg_type, facts);
            let readable = facts.readable == Some(true);
            let ready = readable && (facts.says_typing ==> facts.within_limit == Some(true));
            &&& next is Read <==> facts.readable is None
            &&& next is CheckRate <==> readable && facts.says_typing && facts.within_limit is None
            &&& next is CheckRate ==> next->limit == 20 && next->window_ms == 60_000
            &&& next is Enqueue <==> ready && facts.queued is None
            &&& next is Enqueue ==> next->Enqueue_0 == Queue::OrderedEventually
            &&& next is Done <==> ready && facts.queued is Some
            &&& next is Ignore <==> facts.readable == Some(false) || (readable && facts.says_typing
                && facts.within_limit == Some(false))
        }),
{
    assert(facts.readable is Some ==> facts.readable == Some(facts.readable->0));
    assert(facts.within_limit is Some ==> facts.within_limit == Some(facts.within_limit->0));
    assert(facts.queued is Some ==> facts.queued == Some(facts.queued->0));
}

/// A refusal repeats the nonce of a frame exactly if that sends a message.
pub proof fn only_messages_have_nonces(kind: FrameKind)
    ensures
        repeats_nonce(kind) <==> frame_queue_of(kind) == Queue::Ordered && !(kind is Reaction)
            && !(kind is EditMessage) && !(kind is DeleteMessage),
{
}

/// Frames are counted over a minute.
pub proof fn frames_are_counted_by_the_minute()
    ensures
        RATE_WINDOW_MS == 60 * 1000,
{
}

} // verus!
