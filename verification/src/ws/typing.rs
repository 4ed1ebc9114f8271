//! Telling others who is typing.
use vstd::prelude::*;
use crate::answers::Access;
use crate::lists::{other_text, texts, texts_but};
use crate::text;
use crate::ws::frames::{empty_frame, flag_field, one_text, plain_frame, text_field, Frame, FrameView};

verus! {

/// A report that somebody types, or stopped.
pub struct TypingPayload {
    pub chat_id: Option<String>,
    pub is_typing: Option<bool>,
}

/// What an earlier access check left behind for a user and a chat.
#[derive(Clone, Copy, Debug, PartialEq, Eq, Structural)]
pub enum TypingAccess {
    Denied,
    Dm,
    Channel,
}

/// What is known so far about a typing report.
#[derive(Clone, Copy, Debug)]
pub struct TypingFacts {
    /// What an earlier check left behind; `Some(None)` if nothing.
    pub cached: Option<Option<TypingAccess>>,
    /// What the access check said, if nothing was left behind.
    pub access: Option<Access>,
}

/// What to do next about a typing report.
#[derive(Clone, Copy, Debug, PartialEq, Eq, Structural)]
pub enum TypingNext {
    Ignore,
    LookUpCache,
    RequireChannelAccess,
    RequireDmAccess,
    /// Remember that access was denied, and end.
    RememberDenied,
    /// Access could not be checked, but somebody stopped typing: tell the others of the
    /// channel, if it can be found.
    StopInChannel,
    /// Access could not be checked, but somebody stopped typing: tell the other one.
    StopInDm,
    /// Tell the others of the channel; `remember` says whether to remember the access first.
    TellChannel { remember: bool },
    /// Tell the other one; `remember` says whether to remember the access first.
    TellDm { remember: bool },
}

/// The text that starts the identifier of a channel chat.
pub open spec fn channel_prefix() -> Seq<char> {
    "channel_"@
}

/// Whether a chat is a channel.
pub open spec fn is_channel_chat(chat_id: Seq<char>) -> bool {
    text::begins_with(chat_id, channel_prefix())
}

/// The identifier of the channel of a channel chat.
pub open spec fn channel_of_chat(chat_id: Seq<char>) -> Seq<char> {
    text::without_leading(chat_id, channel_prefix())
}

/// The identifier of the channel of a channel chat.
pub fn chat_channel_id(chat_id: &str) -> (r: &str)
    ensures
        r@ == channel_of_chat(chat_id@),
{
    text::trim_start_text(chat_id, "channel_")
}

/// Whether a report says that somebody types.
pub open spec fn says_typing(payload: TypingPayload) -> bool {
    payload.is_typing == Some(true)
}

/// What to do next about a typing report.
pub open spec fn handle_typing_next(payload: TypingPayload, facts: TypingFacts) -> TypingNext {
    match payload.chat_id {
        None => TypingNext::Ignore,
        Some(chat_id) => {
            let typing = says_typing(payload);
            if chat_id@.len() == 0 {
                TypingNext::Ignore
            } else {
                match facts.cached {
                    None => TypingNext::LookUpCache,
                    Some(Some(TypingAccess::Denied)) => TypingNext::Ignore,
                    Some(Some(TypingAccess::Dm)) => TypingNext::TellDm { remember: false },
                    Some(Some(TypingAccess::Channel)) => TypingNext::TellChannel {
                        remember: false,
                    },
                    Some(None) => {
                        let channel = is_channel_chat(chat_id@);
                        match facts.access {
                            None => if channel {
                                TypingNext::RequireChannelAccess
                            } else {
                                TypingNext::RequireDmAccess
                            },
                            Some(Access::Granted) => if channel {
                                TypingNext::TellChannel { remember: true }
                            } else {
                                TypingNext::TellDm { remember: true }
                            },
                            Some(Access::Denied) => TypingNext::RememberDenied,
                            Some(Access::Unavailable) => if typing {
                                TypingNext::Ignore
                            } else if channel {
                                TypingNext::StopInChannel
                            } else {
                                TypingNext::StopInDm
                            },
                        }
                    },
                }
            }
        },
    }
}

/// What to do next about a typing report.
pub fn handle_typing(payload: &TypingPayload, facts: &TypingFacts) -> (r: TypingNext)
    ensures
        r == handle_typing_next(*payload, *facts),
{
    match &payload.chat_id {
        None => TypingNext::Ignore,
        Some(chat_id) => {
            let typing = match payload.is_typing {
                Some(t) => t,
                None => false,
            };
            if chat_id.as_str().is_empty() {
                TypingNext::Ignore
            } else {
                match facts.cached {
                    None => TypingNext::LookUpCache,
                    Some(Some(TypingAccess::Denied)) => TypingNext::Ignore,
                    Some(Some(TypingAccess::Dm)) => TypingNext::TellDm { remember: false },
                    Some(Some(TypingAccess::Channel)) => TypingNext::TellChannel {
                        remember: false,
                    },
                    Some(None) => {
                        let channel = text::starts_with(chat_id, "channel_");
                        match facts.access {
                            None => if channel {
                                TypingNext::RequireChannelAccess
                            } else {
                                TypingNext::RequireDmAccess
                            },
                            Some(Access::Granted) => if channel {
                                TypingNext::TellChannel { remember: true }
                            } else {
                                TypingNext::TellDm { remember: true }
                            },
                            Some(Access::Denied) => TypingNext::RememberDenied,
                            Some(Access::Unavailable) => if typing {
                                TypingNext::Ignore
                            } else if channel {
                                TypingNext::StopInChannel
                            } else {
                                TypingNext::StopInDm
                            },
                        }
                    },
                }
            }
        },
    }
}

/// What becomes of a typing report about a chat, outcome by outcome: what was remembered decides at
/// once; else access is asked for, of a channel or of a direct chat; what it says is remembered and
/// told; and where it cannot be checked only that somebody stopped is told.
pub proof fn typing_goes_by_remembered_or_fresh_access(payload: TypingPayload, facts: TypingFacts)
    ensures
        ({
            let next = handle_typing_next(payload, facts);
            let named = payload.chat_id is Some && payload.chat_id->0@.len() > 0;
            let channel = text::begins_with(payload.chat_id->0@, "channel_"@);
            let asks = named && facts.cached == Some(None::<TypingAccess>);
            let lost = asks && facts.access == Some(Access::Unavailable);
            let typing = payload.is_typing == Some(true);
            &&& next is LookUpCache <==> named && facts.cached is None
            &&& next == (TypingNext::TellDm { remember: false }) <==> named && facts.cached == Some(
                Some(TypingAccess::Dm),
            )
            &&& next == (TypingNext::TellChannel { remember: false }) <==> named && facts.cached
                == Some(Some(TypingAccess::Channel))
            &&& next is RequireChannelAccess <==> asks && channel && facts.access is None
            &&& next is RequireDmAccess <==> asks && !channel && facts.access is None
            &&& next == (TypingNext::TellChannel { remember: true }) <==> asks && channel
                && facts.access == Some(Access::Granted)
            &&& next == (TypingNext::TellDm { remember: true }) <==> asks && !channel && facts.access
                == Some(Access::Granted)
            &&& next is RememberDenied <==> asks && facts.access == Some(Access::Denied)
            &&& next is StopInChannel <==> lost && !typing && channel
            &&& next is StopInDm <==> lost && !typing && !channel
            &&& next is Ignore <==> !named || facts.cached == Some(Some(TypingAccess::Denied)) || (
            lost && typing)
        }),
{
}

/// Others are told that somebody types only with access, fresh or remembered. That somebody
/// stopped is told even where access could not be checked, but never where it was denied.
pub proof fn typing_is_told_with_access_only(payload: TypingPayload, facts: TypingFacts)
    ensures
        match handle_typing_next(payload, facts) {
            TypingNext::TellChannel { remember } => if remember {
                facts.access == Some(Access::Granted)
            } else {
                facts.cached == Some(Some(TypingAccess::Channel))
            },
            TypingNext::TellDm { remember } => if remember {
                facts.access == Some(Access::Granted)
            } else {
                facts.cached == Some(Some(TypingAccess::Dm))
            },
            TypingNext::StopInChannel | TypingNext::StopInDm => !says_typing(payload)
                && facts.access == Some(Access::Unavailable),
            _ => true,
        },
{
}

/// Who is told that somebody types in a channel: all but that one.
pub fn typing_recipients(recipients: &Vec<String>, user_id: &str) -> (r: Vec<String>)
    ensures
        texts(r@) == texts(recipients@).filter(other_text(user_id@)),
{
    texts_but(recipients, user_id)
}

/// The chat that the rate limit of typing reports counts for: `unknown` without one.
pub open spec fn typing_chat_key(payload: TypingPayload) -> Seq<char> {
    match payload.chat_id {
        Some(c) => if c@.len() == 0 {
            "unknown"@
        } else {
            c@
        },
        None => "unknown"@,
    }
}

/// The chat that the rate limit of typing reports counts for.
pub fn typing_key(payload: &TypingPayload) -> (r: &str)
    ensures
        r@ == typing_chat_key(*payload),
{
    match &payload.chat_id {
        Some(c) => if c.as_str().is_empty() {
            "unknown"
        } else {
            c.as_str()
        },
        None => "unknown",
    }
}

/// The action that the rate limit of typing reports counts: one for each chat.
pub fn typing_action(payload: &TypingPayload) -> (r: String)
    ensures
        r@ == "typing:"@ + typing_chat_key(*payload),
{
    let prefix = "typing:".to_owned();
    prefix.concat(typing_key(payload))
}

/// The frame that tells that somebody types, or stopped.
pub open spec fn typing_frame_of(
    to: Seq<Seq<char>>,
    chat_id: Seq<char>,
    user_id: Seq<char>,
    is_typing: bool,
) -> FrameView {
    plain_frame(
        to,
        "typing"@,
        seq![
            text_field("chatId"@, chat_id),
            text_field("userId"@, user_id),
            flag_field("isTyping"@, is_typing),
        ],
    )
}

/// Who is told by a step that somebody types, and whether they do. `people` are those of the
/// channel.
pub open spec fn typing_told(
    next: TypingNext,
    payload: TypingPayload,
    user_id: Seq<char>,
    people: Seq<Seq<char>>,
) -> Option<FrameView> {
    let chat = text::text_or_empty(payload.chat_id);
    match next {
        TypingNext::StopInChannel => Some(
            typing_frame_of(people.filter(other_text(user_id)), chat, user_id, false),
        ),
        TypingNext::StopInDm => Some(typing_frame_of(seq![chat], chat, user_id, false)),
        TypingNext::TellChannel { .. } => Some(
            typing_frame_of(
                people.filter(other_text(user_id)),
                chat,
                user_id,
                says_typing(payload),
            ),
        ),
        TypingNext::TellDm { .. } => Some(
            typing_frame_of(seq![chat], chat, user_id, says_typing(payload)),
        ),
        _ => None,
    }
}

/// The frame that tells that somebody types, or stopped, for each step that tells somebody.
pub fn typing_frame(
    next: TypingNext,
    payload: &TypingPayload,
    user_id: &str,
    people: &Vec<String>,
) -> (r: Option<Frame>)
    ensures
        match (r, typing_told(next, *payload, user_id@, texts(people@))) {
            (Some(f), Some(v)) => f@ == v,
            (None, None) => true,
            _ => false,
        },
{
    let chat = text::or_empty(&payload.chat_id);
    let says = match payload.is_typing {
        Some(b) => b,
        None => false,
    };
    let (to, is_typing) = match next {
        TypingNext::StopInChannel => (typing_recipients(people, user_id), false),
        TypingNext::StopInDm => (one_text(chat), false),
        TypingNext::TellChannel { .. } => (typing_recipients(people, user_id), says),
        TypingNext::TellDm { .. } => (one_text(chat), says),
        _ => return None,
    };
    let r = empty_frame(to, "typing").with_text("chatId", chat).with_text(
        "userId",
        user_id,
    ).with_flag("isTyping", is_typing);
    proof {
        assert(r@.fields =~= typing_frame_of(texts(to@), chat@, user_id@, is_typing).fields);
    }
    Some(r)
}

/// Others are told of typing in the chat that was named, by whom, and whether they type as they said;
/// where access could not be checked it is always told that they stopped. In a channel everybody but
/// the one who types is told, in a direct chat the other one.
pub proof fn typing_is_told_as_it_was_said(
    payload: TypingPayload,
    user_id: Seq<char>,
    people: Seq<Seq<char>>,
    remember: bool,
)
    requires
        payload.chat_id is Some,
    ensures
        ({
            let chat = payload.chat_id->0@;
            let others = people.filter(other_text(user_id));
            let says = payload.is_typing == Some(true);
            let in_channel = typing_told(
                TypingNext::TellChannel { remember },
                payload,
                user_id,
                people,
            );
            let in_dm = typing_told(TypingNext::TellDm { remember }, payload, user_id, people);
            let stop_channel = typing_told(TypingNext::StopInChannel, payload, user_id, people);
            let stop_dm = typing_told(TypingNext::StopInDm, payload, user_id, people);
            &&& in_channel == Some(typing_frame_of(others, chat, user_id, says))
            &&& in_dm == Some(typing_frame_of(seq![chat], chat, user_id, says))
            &&& stop_channel == Some(typing_frame_of(others, chat, user_id, false))
            &&& stop_dm == Some(typing_frame_of(seq![chat], chat, user_id, false))
            &&& typing_told(TypingNext::RememberDenied, payload, user_id, people) is None
            &&& typing_told(TypingNext::Ignore, payload, user_id, people) is None
        }),
{
}

/// The frame about typing says the chat, the user and whether they type.
pub proof fn typing_frames_say_who_types(
    to: Seq<Seq<char>>,
    chat_id: Seq<char>,
    user_id: Seq<char>,
    is_typing: bool,
)
    ensures
        ({
            let f = typing_frame_of(to, chat_id, user_id, is_typing);
            &&& f.to == to && f.event == "typing"@ && !f.message
            &&& f.fields == seq![
                text_field("chatId"@, chat_id),
                text_field("userId"@, user_id),
                flag_field("isTyping"@, is_typing),
            ]
        }),
{
}

/// Nobody is told of their own typing, and everybody else of the channel is.
pub proof fn typers_are_not_told(people: Seq<Seq<char>>, user_id: Seq<char>, x: Seq<char>)
    ensures
        people.filter(other_text(user_id)).contains(x) <==> people.contains(x) && x != user_id,
{
    crate::lists::filter_keeps_what_fits(people, other_text(user_id));
    assert(people.filter(other_text(user_id)).contains(x) <==> people.contains(x) && other_text(
        user_id,
    )(x));
}

/// The rate of typing reports is counted for each chat on its own, and for reports without a chat
/// together.
pub proof fn typing_is_counted_for_each_chat(payload: TypingPayload)
    ensures
        payload.chat_id is Some && payload.chat_id->0@.len() > 0 ==> typing_chat_key(payload)
            == payload.chat_id->0@,
        payload.chat_id is None || payload.chat_id->0@.len() == 0 ==> typing_chat_key(payload)
            == "unknown"@,
{
}

/// A chat is that of a channel exactly if its name begins with the word for it, and the channel is
/// what follows.
pub proof fn channel_chats_name_their_channel(id: Seq<char>)
    ensures
        is_channel_chat("channel_"@ + id),
        !text::begins_with(id, "channel_"@) ==> channel_of_chat("channel_"@ + id) == id
            && !is_channel_chat(id) && channel_of_chat(id) == id,
{
    reveal_strlit("channel_");
    text::texts_begin_and_occur(Seq::empty(), "channel_"@, id, id);
    text::outer_copies_go(id, ' ', "channel_"@);
    assert("channel_"@.len() == 8);
}

} // verus!
