//! Reactions to messages.
use vstd::prelude::*;
use crate::answers::{Access, Change, Lookup};
use crate::ids::{parsed_id, ObjectId};
use crate::lists::{distinct_of, distinct_of_keeps_each_once, distinct_texts, filter_keeps_what_fits,
    hex_all, hex_ids, other_than, texts};
use crate::text;
use crate::ws::channel::{channel_recipient_ids, recipients_of, Channel};
use crate::ws::events::FailureText;
use crate::ws::frames::{empty_frame, flag_field, maybe_field, one_text, plain_frame, reaction_views,
    text_field, two_texts, Frame, FrameFieldView, FrameValue, FrameValueView, FrameView, ReactionView};

verus! {

/// A request to add a reaction, or to take it back.
pub struct ReactionPayload {
    pub message_id: Option<String>,
    pub emoji: Option<String>,
}

/// The longest reaction, in bytes.
pub const MAX_EMOJI_BYTES: usize = 32;

/// Whether a trimmed text can be a reaction: not empty, at most 32 bytes, and without the
/// characters that have a meaning in the names of stored fields.
pub open spec fn is_emoji(e: Seq<char>) -> bool {
    e.len() > 0 && text::byte_len(e) <= MAX_EMOJI_BYTES && !e.contains('.') && !e.contains('$')
}

/// Whether a trimmed text can be a reaction.
pub fn valid_emoji(e: &str) -> (r: bool)
    ensures
        r == is_emoji(e@),
{
    !e.is_empty() && text::len_bytes(e) <= MAX_EMOJI_BYTES && !text::contains_char(e, '.')
        && !text::contains_char(e, '$')
}

/// A valid request: which message, and whose reaction.
#[derive(Clone, Copy, Debug, PartialEq, Eq, Structural)]
pub struct ReactionRequest {
    pub message: ObjectId,
    pub user: ObjectId,
}

/// The message and the user of a request, if the request is valid.
pub open spec fn reaction_request_of(connected: Seq<char>, payload: ReactionPayload) -> Option<ReactionRequest> {
    match (payload.message_id, payload.emoji) {
        (Some(message_id), Some(emoji)) => if is_emoji(text::trimmed(emoji@)) {
            match (parsed_id(message_id@), parsed_id(connected)) {
                (Some(message), Some(user)) => Some(ReactionRequest { message, user }),
                _ => None,
            }
        } else {
            None
        },
        _ => None,
    }
}

/// The message and the user of a request, if the request is valid.
pub fn reaction_request(connected: &str, payload: &ReactionPayload) -> (r: Option<ReactionRequest>)
    ensures
        r == reaction_request_of(connected@, *payload),
{
    match (&payload.message_id, &payload.emoji) {
        (Some(message_id), Some(emoji)) => if valid_emoji(text::trim(emoji)) {
            match (ObjectId::parse_str(message_id), ObjectId::parse_str(connected)) {
                (Some(message), Some(user)) => Some(ReactionRequest { message, user }),
                _ => None,
            }
        } else {
            None
        },
        _ => None,
    }
}

/// A request is valid if and only if it names a message and an emoji, the sender is known by an
/// identifier, and the emoji, without the white space around it, is there, takes at most 32 bytes
/// and holds neither a dot nor a dollar sign; and it is then about that message and that user.
pub proof fn valid_reactions_are_taken(
    connected: Seq<char>,
    payload: ReactionPayload,
    message: ObjectId,
    user: ObjectId,
)
    ensures
        reaction_request_of(connected, payload) == Some(ReactionRequest { message, user }) <==> {
            let e = text::trimmed(payload.emoji->0@);
            &&& payload.message_id is Some && payload.emoji is Some
            &&& e.len() > 0 && text::byte_len(e) <= 32
            &&& forall|i: int| 0 <= i < e.len() ==> #[trigger] e[i] != '.' && e[i] != '$'
            &&& parsed_id(payload.message_id->0@) == Some(message)
            &&& parsed_id(connected) == Some(user)
        },
{
    let e = text::trimmed(payload.emoji->0@);
    assert(!e.contains('.') && !e.contains('$') <==> forall|i: int|
        0 <= i < e.len() ==> #[trigger] e[i] != '.' && e[i] != '$') by {
        if forall|i: int| 0 <= i < e.len() ==> #[trigger] e[i] != '.' && e[i] != '$' {
            assert(!e.contains('.') && !e.contains('$'));
        } else {
            let i = choose|i: int| 0 <= i < e.len() && !(#[trigger] e[i] != '.' && e[i] != '$');
            assert(e.contains(e[i]));
        }
    }
}

/// What is known so far about a reaction.
#[derive(Clone, Copy, Debug)]
pub struct ReactionFacts {
    /// The first look for the message, and the second after a failed first.
    pub found: Option<Lookup>,
    pub found_again: Option<Lookup>,
    pub participant: Option<Access>,
    /// Whether the reaction was there and could be taken back.
    pub pulled: Option<Change>,
    /// Whether a list of reactions that became empty was cleared away.
    pub cleared: bool,
    /// Whether the reaction could be added.
    pub added: Option<bool>,
    /// The first look for the changed message, and the second.
    pub fresh: Option<Lookup>,
    pub fresh_again: Option<Lookup>,
}

/// What to do next about a reaction.
#[derive(Clone, Copy, Debug, PartialEq, Eq, Structural)]
pub enum ReactionNext {
    Ignore,
    FindMessage,
    FindMessageAgain,
    /// Tell the user that it failed.
    Fail,
    RequireParticipant,
    /// Show the user the reactions as they are, unchanged, in [`reaction_frame`].
    ShowCurrent,
    /// Take the reaction back, if it is there.
    Pull,
    /// Clear away an empty list of reactions.
    ClearEmpty,
    Add,
    FindFresh,
    FindFreshAgain,
    /// The change is stored, but could not be read back: show the reactions as they were to those
    /// of [`degraded_audience`], in [`reaction_frame`], and tell the user.
    HandOutDegraded,
    /// Show the reactions to those of [`reaction_audience`], in [`reaction_frame`].
    HandOut,
}

/// Reads the changed message back, at most twice.
pub open spec fn reaction_read_back_next(facts: ReactionFacts) -> ReactionNext {
    match (facts.fresh, facts.fresh_again) {
        (None, _) => ReactionNext::FindFresh,
        (Some(Lookup::Found), _) => ReactionNext::HandOut,
        (Some(_), None) => ReactionNext::FindFreshAgain,
        (Some(_), Some(Lookup::Found)) => ReactionNext::HandOut,
        (Some(_), Some(_)) => ReactionNext::HandOutDegraded,
    }
}

/// Reads the changed message back, at most twice.
pub fn reaction_read_back(facts: &ReactionFacts) -> (r: ReactionNext)
    ensures
        r == reaction_read_back_next(*facts),
{
    match (facts.fresh, facts.fresh_again) {
        (None, _) => ReactionNext::FindFresh,
        (Some(Lookup::Found), _) => ReactionNext::HandOut,
        (Some(_), None) => ReactionNext::FindFreshAgain,
        (Some(_), Some(Lookup::Found)) => ReactionNext::HandOut,
        (Some(_), Some(_)) => ReactionNext::HandOutDegraded,
    }
}

/// What to do next once the user may react.
pub open spec fn reaction_change_next(facts: ReactionFacts) -> ReactionNext {
    match facts.pulled {
        None => ReactionNext::Pull,
        Some(Change::Failed) => ReactionNext::Fail,
        Some(Change::Changed) => if facts.cleared {
            reaction_read_back_next(facts)
        } else {
            ReactionNext::ClearEmpty
        },
        Some(Change::Unchanged) => match facts.added {
            None => ReactionNext::Add,
            Some(false) => ReactionNext::Fail,
            Some(true) => reaction_read_back_next(facts),
        },
    }
}

/// What to do next once the user may react.
pub fn reaction_change(facts: &ReactionFacts) -> (r: ReactionNext)
    ensures
        r == reaction_change_next(*facts),
{
    match facts.pulled {
        None => ReactionNext::Pull,
        Some(Change::Failed) => ReactionNext::Fail,
        Some(Change::Changed) => if facts.cleared {
            reaction_read_back(facts)
        } else {
            ReactionNext::ClearEmpty
        },
        Some(Change::Unchanged) => match facts.added {
            None => ReactionNext::Add,
            Some(false) => ReactionNext::Fail,
            Some(true) => reaction_read_back(facts),
        },
    }
}

/// What to do next about a reaction.
pub open spec fn handle_reaction_next(connected: Seq<char>, payload: ReactionPayload, facts: ReactionFacts) -> ReactionNext {
    if reaction_request_of(connected, payload) is None {
        ReactionNext::Ignore
    } else {
        match (facts.found, facts.found_again) {
            (None, _) => ReactionNext::FindMessage,
            (Some(Lookup::Missing), _) => ReactionNext::Ignore,
            (Some(Lookup::Failed), None) => ReactionNext::FindMessageAgain,
            (Some(Lookup::Failed), Some(Lookup::Missing)) => ReactionNext::Ignore,
            (Some(Lookup::Failed), Some(Lookup::Failed)) => ReactionNext::Fail,
            _ => match facts.participant {
                None => ReactionNext::RequireParticipant,
                Some(Access::Unavailable) => ReactionNext::Fail,
                Some(Access::Denied) => ReactionNext::ShowCurrent,
                Some(Access::Granted) => reaction_change_next(facts),
            },
        }
    }
}

/// What to do next about a reaction.
pub fn handle_reaction(connected: &str, payload: &ReactionPayload, facts: &ReactionFacts) -> (r: ReactionNext)
    ensures
        r == handle_reaction_next(connected@, *payload, *facts),
{
    if reaction_request(connected, payload).is_none() {
        ReactionNext::Ignore
    } else {
        match (facts.found, facts.found_again) {
            (None, _) => ReactionNext::FindMessage,
            (Some(Lookup::Missing), _) => ReactionNext::Ignore,
            (Some(Lookup::Failed), None) => ReactionNext::FindMessageAgain,
            (Some(Lookup::Failed), Some(Lookup::Missing)) => ReactionNext::Ignore,
            (Some(Lookup::Failed), Some(Lookup::Failed)) => ReactionNext::Fail,
            _ => match facts.participant {
                None => ReactionNext::RequireParticipant,
                Some(Access::Unavailable) => ReactionNext::Fail,
                Some(Access::Denied) => ReactionNext::ShowCurrent,
                Some(Access::Granted) => reaction_change(facts),
            },
        }
    }
}

/// What becomes of a reaction to a message, outcome by outcome. The message is looked for at most
/// twice; one who does not take part sees the reactions as they are; a reaction that was there is
/// taken back and its empty entry cleared, one that was not there is added; and what was changed is
/// read back at most twice and handed out, marked where it could not be read back.
pub proof fn reactions_are_changed_and_handed_out(
    connected: Seq<char>,
    payload: ReactionPayload,
    facts: ReactionFacts,
)
    requires
        reaction_request_of(connected, payload) is Some,
    ensures
        ({
            let next = handle_reaction_next(connected, payload, facts);
            let again = facts.found == Some(Lookup::Failed);
            let found = facts.found == Some(Lookup::Found) || (again && facts.found_again == Some(
                Lookup::Found,
            ));
            let may = found && facts.participant == Some(Access::Granted);
            let took = may && facts.pulled == Some(Change::Changed);
            let adds = may && facts.pulled == Some(Change::Unchanged);
            let changed = (took && facts.cleared) || (adds && facts.added == Some(true));
            let read_twice = facts.fresh is Some && facts.fresh != Some(Lookup::Found);
            &&& next is FindMessage <==> facts.found is None
            &&& next is FindMessageAgain <==> again && facts.found_again is None
            &&& next is RequireParticipant <==> found && facts.participant is None
            &&& next is ShowCurrent <==> found && facts.participant == Some(Access::Denied)
            &&& next is Pull <==> may && facts.pulled is None
            &&& next is ClearEmpty <==> took && !facts.cleared
            &&& next is Add <==> adds && facts.added is None
            &&& next is FindFresh <==> changed && facts.fresh is None
            &&& next is FindFreshAgain <==> changed && read_twice && facts.fresh_again is None
            &&& next is HandOut <==> changed && (facts.fresh == Some(Lookup::Found) || (read_twice
                && facts.fresh_again == Some(Lookup::Found)))
            &&& next is HandOutDegraded <==> changed && read_twice && facts.fresh_again is Some
                && facts.fresh_again != Some(Lookup::Found)
            &&& next is Fail <==> (again && facts.found_again == Some(Lookup::Failed)) || (found
                && facts.participant == Some(Access::Unavailable)) || (may && facts.pulled == Some(
                Change::Failed,
            )) || (adds && facts.added == Some(false))
            &&& next is Ignore <==> facts.found == Some(Lookup::Missing) || (again
                && facts.found_again == Some(Lookup::Missing))
        }),
{
}

/// A request that is not valid is dropped.
pub proof fn other_reactions_are_dropped(
    connected: Seq<char>,
    payload: ReactionPayload,
    facts: ReactionFacts,
)
    requires
        reaction_request_of(connected, payload) is None,
    ensures
        handle_reaction_next(connected, payload, facts) is Ignore,
{
}

/// What a user is told whose reaction failed, or, `degraded`, was stored but could not be
/// read back.
pub open spec fn reaction_failure_text_of(degraded: bool) -> FailureText {
    if degraded {
        FailureText {
            code: "REACTION_SYNC_DEGRADED",
            message: "Reakcja zapisana — odśwież czat, jeśli lista się nie zgadza.",
            retryable: true,
        }
    } else {
        FailureText {
            code: "REACTION_SYNC_FAILED",
            message: "Nie udało się zaktualizować reakcji. Spróbuj ponownie.",
            retryable: true,
        }
    }
}

/// What a user is told whose reaction failed, or, `degraded`, was stored but could not be
/// read back.
pub fn reaction_failure_text(degraded: bool) -> (r: FailureText)
    ensures
        r == reaction_failure_text_of(degraded),
{
    if degraded {
        FailureText {
            code: "REACTION_SYNC_DEGRADED",
            message: "Reakcja zapisana — odśwież czat, jeśli lista się nie zgadza.",
            retryable: true,
        }
    } else {
        FailureText {
            code: "REACTION_SYNC_FAILED",
            message: "Nie udało się zaktualizować reakcji. Spróbuj ponownie.",
            retryable: true,
        }
    }
}

/// A reaction is changed only by somebody who takes part in the conversation.
pub proof fn only_participants_change_reactions(
    connected: Seq<char>,
    payload: ReactionPayload,
    facts: ReactionFacts,
)
    ensures
        match handle_reaction_next(connected, payload, facts) {
            ReactionNext::Pull | ReactionNext::Add | ReactionNext::ClearEmpty => {
                &&& reaction_request_of(connected, payload) is Some
                &&& facts.participant == Some(Access::Granted)
            },
            _ => true,
        },
{
}

/// A reaction is toggled: it is added only if it was not there, and one that was taken back
/// is not added again.
pub proof fn a_reaction_is_toggled(
    connected: Seq<char>,
    payload: ReactionPayload,
    facts: ReactionFacts,
)
    ensures
        handle_reaction_next(connected, payload, facts) is Add ==> facts.pulled == Some(
            Change::Unchanged,
        ),
        facts.pulled == Some(Change::Changed) ==> !(handle_reaction_next(connected, payload, facts)
            is Add),
{
}

/// The users of each reaction to a message, as they are stored.
pub type Reactions = Map<Seq<char>, Seq<ObjectId>>;

/// Whether a user reacted with an emoji.
pub open spec fn reacted(m: Reactions, emoji: Seq<char>, user: ObjectId) -> bool {
    m.dom().contains(emoji) && m[emoji].contains(user)
}

/// Whether what is stored of reactions is in order: no user twice, and no emoji without users.
pub open spec fn reactions_ok(m: Reactions) -> bool {
    forall|e: Seq<char>| #[trigger]
        m.dom().contains(e) ==> m[e].len() > 0 && m[e].no_duplicates()
}

/// The reactions after [`ReactionNext::Pull`]: the user is taken out, if they are there.
pub open spec fn after_pull(m: Reactions, emoji: Seq<char>, user: ObjectId) -> Reactions {
    if reacted(m, emoji, user) {
        m.insert(emoji, m[emoji].filter(other_than(user)))
    } else {
        m
    }
}

/// What [`ReactionNext::Pull`] says.
pub open spec fn pull_reply(m: Reactions, emoji: Seq<char>, user: ObjectId) -> Change {
    if reacted(m, emoji, user) {
        Change::Changed
    } else {
        Change::Unchanged
    }
}

/// The reactions after [`ReactionNext::ClearEmpty`]: an emoji without users goes.
pub open spec fn after_clear(m: Reactions, emoji: Seq<char>) -> Reactions {
    if m.dom().contains(emoji) && m[emoji].len() == 0 {
        m.remove(emoji)
    } else {
        m
    }
}

/// The reactions after [`ReactionNext::Add`]: the user is there, once.
pub open spec fn after_add(m: Reactions, emoji: Seq<char>, user: ObjectId) -> Reactions {
    if reacted(m, emoji, user) {
        m
    } else if m.dom().contains(emoji) {
        m.insert(emoji, m[emoji].push(user))
    } else {
        m.insert(emoji, seq![user])
    }
}

/// The reactions after a user reacted, where the store does what it is asked to.
pub open spec fn after_reaction(m: Reactions, emoji: Seq<char>, user: ObjectId) -> Reactions {
    match pull_reply(m, emoji, user) {
        Change::Changed => after_clear(after_pull(m, emoji, user), emoji),
        _ => after_add(m, emoji, user),
    }
}

/// The steps that change reactions are those of [`after_reaction`]: a reaction is pulled first,
/// then an empty entry is cleared if that changed something, and the reaction is added if it did
/// not.
pub proof fn reactions_change_in_steps(
    connected: Seq<char>,
    payload: ReactionPayload,
    facts: ReactionFacts,
    m: Reactions,
    emoji: Seq<char>,
    user: ObjectId,
)
    requires
        reaction_request_of(connected, payload) is Some,
        facts.found == Some(Lookup::Found),
        facts.participant == Some(Access::Granted),
    ensures
        facts.pulled is None ==> handle_reaction_next(connected, payload, facts) is Pull,
        facts.pulled == Some(pull_reply(m, emoji, user)) && reacted(m, emoji, user) ==> {
            &&& !facts.cleared ==> handle_reaction_next(connected, payload, facts) is ClearEmpty
            &&& !(handle_reaction_next(connected, payload, facts) is Add)
        },
        facts.pulled == Some(pull_reply(m, emoji, user)) && !reacted(m, emoji, user) ==> {
            &&& facts.added is None ==> handle_reaction_next(connected, payload, facts) is Add
            &&& !(handle_reaction_next(connected, payload, facts) is ClearEmpty)
        },
{
}

/// Reacting turns around whether the user reacted with this emoji, and concerns nobody else and
/// no other emoji; the last user takes the entry along; and reacting twice with the same emoji
/// leaves the same users as before.
pub proof fn reacting_twice_changes_nothing(
    m: Reactions,
    emoji: Seq<char>,
    user: ObjectId,
    other: Seq<char>,
)
    requires
        reactions_ok(m),
        other != emoji,
    ensures
        reactions_ok(after_reaction(m, emoji, user)),
        reacted(after_reaction(m, emoji, user), emoji, user) <==> !reacted(m, emoji, user),
        forall|u: ObjectId|
            u != user ==> (#[trigger] reacted(after_reaction(m, emoji, user), emoji, u) <==> reacted(
                m,
                emoji,
                u,
            )),
        after_reaction(m, emoji, user).dom().contains(other) <==> m.dom().contains(other),
        m.dom().contains(other) ==> after_reaction(m, emoji, user)[other] == m[other],
        reacted(m, emoji, user) && m[emoji].len() == 1 ==> !after_reaction(
            m,
            emoji,
            user,
        ).dom().contains(emoji),
        forall|u: ObjectId| #[trigger]
            reacted(after_reaction(after_reaction(m, emoji, user), emoji, user), emoji, u)
                <==> reacted(m, emoji, u),
        after_reaction(after_reaction(m, emoji, user), emoji, user).dom().contains(emoji)
            <==> m.dom().contains(emoji),
{
    reaction_turns_around(m, emoji, user);
    let once = after_reaction(m, emoji, user);
    reaction_turns_around(once, emoji, user);
    if reacted(m, emoji, user) && m[emoji].len() == 1 {
        let left = m[emoji].filter(other_than(user));
        filter_keeps_what_fits(m[emoji], other_than(user));
        if left.len() > 0 {
            assert(left.contains(left[0]));
            let k = choose|k: int| 0 <= k < m[emoji].len() && m[emoji][k] == left[0];
            let l = choose|l: int| 0 <= l < m[emoji].len() && m[emoji][l] == user;
            assert(k == 0 && l == 0);
        }
    }
    let twice = after_reaction(once, emoji, user);
    assert forall|u: ObjectId| #[trigger] reacted(twice, emoji, u) <==> reacted(m, emoji, u) by {
        if u != user {
            assert(reacted(once, emoji, u) <==> reacted(m, emoji, u));
        }
    }
    if m.dom().contains(emoji) {
        let u = m[emoji][0];
        assert(reacted(m, emoji, u));
        assert(reacted(twice, emoji, u));
    }
    if twice.dom().contains(emoji) {
        let u = twice[emoji][0];
        assert(reacted(twice, emoji, u));
        assert(reacted(m, emoji, u));
    }
}

proof fn reaction_turns_around(m: Reactions, emoji: Seq<char>, user: ObjectId)
    requires
        reactions_ok(m),
    ensures
        reactions_ok(after_reaction(m, emoji, user)),
        reacted(after_reaction(m, emoji, user), emoji, user) <==> !reacted(m, emoji, user),
        forall|u: ObjectId|
            u != user ==> (#[trigger] reacted(after_reaction(m, emoji, user), emoji, u) <==> reacted(
                m,
                emoji,
                u,
            )),
{
    let after = after_reaction(m, emoji, user);
    if reacted(m, emoji, user) {
        let left = m[emoji].filter(other_than(user));
        filter_keeps_what_fits(m[emoji], other_than(user));
        assert forall|u: ObjectId| #[trigger] left.contains(u) <==> m[emoji].contains(u) && u
            != user by {
            assert(left.contains(u) <==> m[emoji].contains(u) && other_than(user)(u));
        }
        if left.len() == 0 {
            assert forall|u: ObjectId| u != user implies (#[trigger] reacted(after, emoji, u)
                <==> reacted(m, emoji, u)) by {
                assert(!left.contains(u));
            }
        } else {
            assert(after[emoji] == left);
            assert forall|u: ObjectId| u != user implies (#[trigger] reacted(after, emoji, u)
                <==> reacted(m, emoji, u)) by {
                assert(left.contains(u) <==> m[emoji].contains(u) && u != user);
            }
            assert(!left.contains(user));
        }
    } else {
        let users = after[emoji];
        if m.dom().contains(emoji) {
            let old = m[emoji];
            assert(users == old.push(user));
            assert(users[old.len() as int] == user);
            assert forall|u: ObjectId| u != user implies (#[trigger] reacted(after, emoji, u)
                <==> reacted(m, emoji, u)) by {
                if old.contains(u) {
                    let k = choose|k: int| 0 <= k < old.len() && old[k] == u;
                    assert(users[k] == u);
                }
                if users.contains(u) {
                    let k = choose|k: int| 0 <= k < users.len() && users[k] == u;
                    assert(old[k] == u);
                }
            }
            assert(users.no_duplicates());
        } else {
            assert(users[0] == user);
        }
    }
    assert forall|e: Seq<char>| #[trigger] after.dom().contains(e) implies after[e].len() > 0
        && after[e].no_duplicates() by {
        if e != emoji {
            assert(m.dom().contains(e));
        }
    }
}

/// The emoji of a reaction, as it is stored: without the white space around it.
pub fn reaction_emoji(payload: &ReactionPayload) -> (r: &str)
    ensures
        r@ == text::trimmed(text::text_or_empty(payload.emoji)),
{
    text::trim(text::or_empty(&payload.emoji))
}

/// A valid reaction names no other stored field.
pub proof fn a_reaction_names_one_field(connected: Seq<char>, payload: ReactionPayload)
    ensures
        reaction_request_of(connected, payload) is Some ==> {
            let e = text::trimmed(payload.emoji->0@);
            !e.contains('.') && !e.contains('$') && e.len() > 0
        },
{
}

/// The stored field with the users of a reaction.
pub fn reaction_users_path(emoji: &str) -> (r: String)
    ensures
        r@ == "reactions."@ + emoji@ + ".users"@,
{
    let out = "reactions.".to_owned().concat(emoji);
    out.concat(".users")
}

/// The stored field with the reaction itself.
pub fn reaction_emoji_path(emoji: &str) -> (r: String)
    ensures
        r@ == "reactions."@ + emoji@ + ".emoji"@,
{
    let out = "reactions.".to_owned().concat(emoji);
    out.concat(".emoji")
}

/// The stored field of a reaction.
pub fn reaction_path(emoji: &str) -> (r: String)
    ensures
        r@ == "reactions."@ + emoji@,
{
    "reactions.".to_owned().concat(emoji)
}

/// Who a changed reaction is shown to.
#[derive(Clone, Copy, Debug, PartialEq, Eq, Structural)]
pub enum ReactionAudience {
    /// The channel has to be looked up first.
    FindChannel,
    /// The members of the channel and its admin.
    ChannelMembers,
    /// The user and those who have read the channel.
    ChannelReaders,
    /// The two of a direct conversation.
    Pair,
    /// The user alone.
    UserOnly,
    Nobody,
}

/// Who a changed reaction is shown to. `in_channel` and `has_recipient` describe the message,
/// `channel_found` is what the lookup of the channel said.
pub open spec fn reaction_audience_of(in_channel: bool, has_recipient: bool, channel_found: Option<bool>) -> ReactionAudience {
    if in_channel {
        match channel_found {
            None => ReactionAudience::FindChannel,
            Some(true) => ReactionAudience::ChannelMembers,
            Some(false) => ReactionAudience::ChannelReaders,
        }
    } else if has_recipient {
        ReactionAudience::Pair
    } else {
        ReactionAudience::Nobody
    }
}

/// Who a changed reaction is shown to. `in_channel` and `has_recipient` describe the message,
/// `channel_found` is what the lookup of the channel said.
pub fn reaction_audience(in_channel: bool, has_recipient: bool, channel_found: Option<bool>) -> (r: ReactionAudience)
    ensures
        r == reaction_audience_of(in_channel, has_recipient, channel_found),
{
    if in_channel {
        match channel_found {
            None => ReactionAudience::FindChannel,
            Some(true) => ReactionAudience::ChannelMembers,
            Some(false) => ReactionAudience::ChannelReaders,
        }
    } else if has_recipient {
        ReactionAudience::Pair
    } else {
        ReactionAudience::Nobody
    }
}

/// Who a changed reaction that could not be read back is shown to.
pub open spec fn degraded_audience_of(in_channel: bool, has_recipient: bool, channel_found: Option<bool>) -> ReactionAudience {
    if in_channel {
        match channel_found {
            None => ReactionAudience::FindChannel,
            Some(true) => ReactionAudience::ChannelMembers,
            Some(false) => if has_recipient {
                ReactionAudience::Pair
            } else {
                ReactionAudience::UserOnly
            },
        }
    } else if has_recipient {
        ReactionAudience::Pair
    } else {
        ReactionAudience::Nobody
    }
}

/// Who a changed reaction that could not be read back is shown to.
pub fn degraded_audience(in_channel: bool, has_recipient: bool, channel_found: Option<bool>) -> (r: ReactionAudience)
    ensures
        r == degraded_audience_of(in_channel, has_recipient, channel_found),
{
    if in_channel {
        match channel_found {
            None => ReactionAudience::FindChannel,
            Some(true) => ReactionAudience::ChannelMembers,
            Some(false) => if has_recipient {
                ReactionAudience::Pair
            } else {
                ReactionAudience::UserOnly
            },
        }
    } else if has_recipient {
        ReactionAudience::Pair
    } else {
        ReactionAudience::Nobody
    }
}

/// The user and those who have read the channel, each once and the user first.
pub fn reader_recipients(user_id: &str, readers: &Vec<ObjectId>) -> (r: Vec<String>)
    ensures
        texts(r@) == distinct_of(seq![user_id@] + hex_all(readers@)),
{
    let mut all: Vec<String> = Vec::new();
    all.push(user_id.to_owned());
    let mut more = hex_ids(readers);
    let ghost first = all@;
    let ghost rest = more@;
    all.append(&mut more);
    proof {
        assert(texts(all@) =~= texts(first) + texts(rest));
        assert(texts(first) =~= seq![user_id@]);
    }
    distinct_texts(&all)
}

/// The user is always among the readers who are shown a reaction, and nobody is there twice.
pub proof fn reader_recipients_hold_the_user(user: Seq<char>, readers: Seq<ObjectId>)
    ensures
        distinct_of(seq![user] + hex_all(readers)).contains(user),
        distinct_of(seq![user] + hex_all(readers)).no_duplicates(),
{
    let all = seq![user] + hex_all(readers);
    distinct_of_keeps_each_once(all);
    assert(all[0] == user);
}

/// One kind of reaction to a message and who gave it.
pub struct Reaction {
    pub emoji: String,
    pub users: Vec<ObjectId>,
}

/// One kind of reaction as it is shown.
pub struct ShownReaction {
    pub emoji: String,
    pub users: Vec<String>,
}

/// Whether a reaction is shown as it is stored.
pub open spec fn shows(shown: ShownReaction, stored: Reaction) -> bool {
    shown.emoji@ == stored.emoji@ && texts(shown.users@) == hex_all(stored.users@)
}

/// The reactions to a message as they are shown: each with the texts of its users.
pub fn reactions_json(reactions: &Vec<Reaction>) -> (r: Vec<ShownReaction>)
    ensures
        r@.len() == reactions@.len(),
        forall|i: int| 0 <= i < r@.len() ==> shows(#[trigger] r@[i], reactions@[i]),
{
    let mut out: Vec<ShownReaction> = Vec::new();
    let mut i: usize = 0;
    while i < reactions.len()
        invariant
            i <= reactions.len(),
            out@.len() == i,
            forall|k: int| 0 <= k < i ==> shows(#[trigger] out@[k], reactions@[k]),
        decreases reactions.len() - i,
    {
        out.push(
            ShownReaction {
                emoji: reactions[i].emoji.clone(),
                users: hex_ids(&reactions[i].users),
            },
        );
        i = i + 1;
    }
    out
}

/// Reactions as they are shown: each with the texts of those who gave it.
pub open spec fn shown_reactions(v: Seq<Reaction>) -> Seq<ReactionView> {
    v.map_values(|r: Reaction| ReactionView { emoji: r.emoji@, users: hex_all(r.users@) })
}

/// The text of a channel, if there is one.
pub open spec fn channel_text(channel: Option<ObjectId>) -> Option<Seq<char>> {
    match channel {
        Some(id) => Some(id.hex()),
        None => None,
    }
}

/// The frame with the reactions to a message. The message goes by the text under which the
/// request named it; `degraded`: the reactions may be out of date.
pub open spec fn reaction_frame_of(
    to: Seq<Seq<char>>,
    message_id: Seq<char>,
    reactions: Seq<Reaction>,
    channel: Option<ObjectId>,
    degraded: bool,
) -> FrameView {
    plain_frame(
        to,
        "message-reaction"@,
        seq![
            text_field("messageId"@, message_id),
            FrameFieldView {
                key: "reactions"@,
                value: FrameValueView::Reactions(shown_reactions(reactions)),
            },
            maybe_field("channelId"@, channel_text(channel)),
        ] + if degraded {
            seq![flag_field("degraded"@, true)]
        } else {
            Seq::empty()
        },
    )
}

/// The frame with the reactions to a message.
pub fn reaction_frame(
    to: Vec<String>,
    message_id: &str,
    reactions: &Vec<Reaction>,
    channel: Option<ObjectId>,
    degraded: bool,
) -> (r: Frame)
    ensures
        r@ == reaction_frame_of(texts(to@), message_id@, reactions@, channel, degraded),
{
    let shown = reactions_json(reactions);
    proof {
        assert forall|i: int| 0 <= i < shown@.len() implies reaction_views(shown@)[i]
            =~= shown_reactions(reactions@)[i] by {
            assert(shows(shown@[i], reactions@[i]));
        }
        assert(reaction_views(shown@) =~= shown_reactions(reactions@));
    }
    let place = match channel {
        Some(id) => Some(id.to_hex()),
        None => None,
    };
    let start = empty_frame(to, "message-reaction").with_text("messageId", message_id).with(
        "reactions",
        FrameValue::Reactions(shown),
    ).with("channelId", FrameValue::MaybeText(place));
    let r = if degraded {
        start.with_flag("degraded", true)
    } else {
        start
    };
    proof {
        assert(r@.fields =~= reaction_frame_of(
            texts(to@),
            message_id@,
            reactions@,
            channel,
            degraded,
        ).fields);
    }
    r
}

/// A message whose reactions are shown, as far as who sees them depends on it.
#[derive(Clone, Copy, Debug, PartialEq, Eq, Structural)]
pub struct ReactionTarget {
    pub sender: ObjectId,
    pub recipient: Option<ObjectId>,
    pub channel: Option<ObjectId>,
}

/// Who reactions are shown to, one by one. Of a pair the sender comes first.
pub open spec fn reaction_recipients_of(
    audience: ReactionAudience,
    user: Seq<char>,
    msg: ReactionTarget,
    channel: Option<Channel>,
    readers: Seq<ObjectId>,
) -> Seq<Seq<char>> {
    match (audience, msg.recipient, channel) {
        (ReactionAudience::ChannelMembers, _, Some(c)) => hex_all(
            recipients_of(c.members@, c.admin),
        ),
        (ReactionAudience::ChannelReaders, _, _) => distinct_of(seq![user] + hex_all(readers)),
        (ReactionAudience::Pair, Some(recipient), _) => seq![msg.sender.hex(), recipient.hex()],
        (ReactionAudience::UserOnly, _, _) => seq![user],
        _ => Seq::empty(),
    }
}

/// Who reactions are shown to, one by one. `channel` is the channel of the message, if it was
/// found, and `readers` are those who have read it.
pub fn reaction_recipients(
    audience: ReactionAudience,
    user_id: &str,
    msg: &ReactionTarget,
    channel: &Option<Channel>,
    readers: &Vec<ObjectId>,
) -> (r: Vec<String>)
    ensures
        texts(r@) == reaction_recipients_of(audience, user_id@, *msg, *channel, readers@),
{
    match (audience, msg.recipient, channel) {
        (ReactionAudience::ChannelMembers, _, Some(c)) => channel_recipient_ids(c),
        (ReactionAudience::ChannelReaders, _, _) => reader_recipients(user_id, readers),
        (ReactionAudience::Pair, Some(recipient), _) => two_texts(
            &msg.sender.to_hex(),
            &recipient.to_hex(),
        ),
        (ReactionAudience::UserOnly, _, _) => one_text(user_id),
        _ => {
            let out: Vec<String> = Vec::new();
            proof {
                assert(texts(out@) =~= Seq::empty());
            }
            out
        },
    }
}

/// Both of a direct conversation see its reactions, whether or not they could be read back.
pub proof fn both_see_reactions(
    user: Seq<char>,
    msg: ReactionTarget,
    channel: Option<Channel>,
    readers: Seq<ObjectId>,
    found: Option<bool>,
)
    requires
        msg.channel is None,
        msg.recipient is Some,
    ensures
        reaction_recipients_of(
            reaction_audience_of(msg.channel is Some, msg.recipient is Some, found),
            user,
            msg,
            channel,
            readers,
        ) == seq![msg.sender.hex(), msg.recipient->0.hex()],
        reaction_recipients_of(
            degraded_audience_of(msg.channel is Some, msg.recipient is Some, found),
            user,
            msg,
            channel,
            readers,
        ) == seq![msg.sender.hex(), msg.recipient->0.hex()],
{
}

/// A change of the stored reactions to a message. Each concerns the message only while what
/// stands in its first field fits.
pub enum ReactionUpdate {
    /// Take the user out of the list `users`, if they are in it.
    Pull { users: String },
    /// Remove the entry, if the list `users` is empty.
    Clear { users: String, entry: String },
    /// Put the user into the list `users`, unless they are in it, and set the field `name` to the
    /// emoji.
    Add { users: String, name: String },
}

/// A change of the stored reactions to a message.
#[verifier::ext_equal]
pub enum ReactionUpdateView {
    Pull { users: Seq<char> },
    Clear { users: Seq<char>, entry: Seq<char> },
    Add { users: Seq<char>, name: Seq<char> },
}

impl View for ReactionUpdate {
    type V = ReactionUpdateView;

    open spec fn view(&self) -> ReactionUpdateView {
        match *self {
            ReactionUpdate::Pull { users } => ReactionUpdateView::Pull { users: users@ },
            ReactionUpdate::Clear { users, entry } => ReactionUpdateView::Clear {
                users: users@,
                entry: entry@,
            },
            ReactionUpdate::Add { users, name } => ReactionUpdateView::Add {
                users: users@,
                name: name@,
            },
        }
    }
}

/// The change that a step makes to the stored reactions with an emoji, if it makes one.
pub open spec fn reaction_update_of(next: ReactionNext, emoji: Seq<char>) -> Option<
    ReactionUpdateView,
> {
    let entry = "reactions."@ + emoji;
    match next {
        ReactionNext::Pull => Some(ReactionUpdateView::Pull { users: entry + ".users"@ }),
        ReactionNext::ClearEmpty => Some(
            ReactionUpdateView::Clear { users: entry + ".users"@, entry },
        ),
        ReactionNext::Add => Some(
            ReactionUpdateView::Add { users: entry + ".users"@, name: entry + ".emoji"@ },
        ),
        _ => None,
    }
}

/// The change that a step makes to the stored reactions with an emoji, if it makes one.
pub fn reaction_update(next: ReactionNext, emoji: &str) -> (r: Option<ReactionUpdate>)
    ensures
        match (r, reaction_update_of(next, emoji@)) {
            (Some(u), Some(v)) => u@ == v,
            (None, None) => true,
            _ => false,
        },
{
    match next {
        ReactionNext::Pull => Some(ReactionUpdate::Pull { users: reaction_users_path(emoji) }),
        ReactionNext::ClearEmpty => Some(
            ReactionUpdate::Clear {
                users: reaction_users_path(emoji),
                entry: reaction_path(emoji),
            },
        ),
        ReactionNext::Add => Some(
            ReactionUpdate::Add {
                users: reaction_users_path(emoji),
                name: reaction_emoji_path(emoji),
            },
        ),
        _ => None,
    }
}

/// A reaction that failed and one that was stored but not read back are told apart, and both may be
/// tried again.
pub proof fn failed_reactions_say_what_failed(degraded: bool)
    ensures
        reaction_failure_text_of(degraded).code == (if degraded {
            "REACTION_SYNC_DEGRADED"
        } else {
            "REACTION_SYNC_FAILED"
        }),
        reaction_failure_text_of(degraded).retryable,
{
}

/// A changed reaction is for everybody in its channel, for those who have read the channel where it
/// is out of reach, for the two of a conversation, or for nobody; where it could not be read back,
/// the readers of a channel that is out of reach are not looked for.
pub proof fn reactions_have_one_audience(
    in_channel: bool,
    has_recipient: bool,
    channel_found: Option<bool>,
)
    ensures
        ({
            let a = reaction_audience_of(in_channel, has_recipient, channel_found);
            let d = degraded_audience_of(in_channel, has_recipient, channel_found);
            let lost = in_channel && channel_found == Some(false);
            &&& a == ReactionAudience::FindChannel <==> in_channel && channel_found is None
            &&& a == ReactionAudience::ChannelMembers <==> in_channel && channel_found == Some(true)
            &&& a == ReactionAudience::ChannelReaders <==> lost
            &&& a == ReactionAudience::Pair <==> !in_channel && has_recipient
            &&& a == ReactionAudience::Nobody <==> !in_channel && !has_recipient
            &&& !lost ==> d == a
            &&& lost && has_recipient ==> d == ReactionAudience::Pair
            &&& lost && !has_recipient ==> d == ReactionAudience::UserOnly
        }),
{
}

/// Each audience of a reaction is made of the people that it names.
pub proof fn reaction_audiences_are_people(
    user: Seq<char>,
    msg: ReactionTarget,
    c: Channel,
    channel: Option<Channel>,
    readers: Seq<ObjectId>,
)
    ensures
        reaction_recipients_of(
            ReactionAudience::ChannelMembers,
            user,
            msg,
            Some(c),
            readers,
        ) == hex_all(recipients_of(c.members@, c.admin)),
        forall|x: Seq<char>| #[trigger]
            reaction_recipients_of(
                ReactionAudience::ChannelReaders,
                user,
                msg,
                channel,
                readers,
            ).contains(x) <==> x == user || hex_all(readers).contains(x),
        msg.recipient matches Some(r) ==> reaction_recipients_of(
            ReactionAudience::Pair,
            user,
            msg,
            channel,
            readers,
        ) == seq![msg.sender.hex(), r.hex()],
        reaction_recipients_of(ReactionAudience::UserOnly, user, msg, channel, readers)
            == seq![user],
        reaction_recipients_of(ReactionAudience::Nobody, user, msg, channel, readers).len() == 0,
{
    let all = seq![user] + hex_all(readers);
    let to = reaction_recipients_of(ReactionAudience::ChannelReaders, user, msg, channel, readers);
    distinct_of_keeps_each_once(all);
    assert forall|x: Seq<char>| #[trigger] to.contains(x) <==> x == user || hex_all(
        readers,
    ).contains(x) by {
        assert(distinct_of(all).contains(x) <==> all.contains(x));
        assert(all[0] == user);
        if hex_all(readers).contains(x) {
            let i = choose|i: int| 0 <= i < hex_all(readers).len() && hex_all(readers)[i] == x;
            assert(all[i + 1] == x);
        }
        if all.contains(x) && x != user {
            let i = choose|i: int| 0 <= i < all.len() && all[i] == x;
            assert(hex_all(readers)[i - 1] == x);
        }
    }
}

/// Reactions are shown with their message, each with who gave it, with the channel if there is one,
/// and with a mark exactly where they may be out of date.
pub proof fn reactions_are_shown_in_full(
    to: Seq<Seq<char>>,
    message_id: Seq<char>,
    reactions: Seq<Reaction>,
    channel: Option<ObjectId>,
    degraded: bool,
)
    ensures
        ({
            let f = reaction_frame_of(to, message_id, reactions, channel, degraded);
            &&& f.to == to && f.event == "message-reaction"@ && !f.message
            &&& f.fields[0] == text_field("messageId"@, message_id)
            &&& f.fields[1].key == "reactions"@
            &&& f.fields[1].value is Reactions
            &&& f.fields[1].value->Reactions_0.len() == reactions.len()
            &&& forall|i: int|
                0 <= i < reactions.len() ==> (#[trigger] f.fields[1].value->Reactions_0[i]).emoji
                    == reactions[i].emoji@ && f.fields[1].value->Reactions_0[i].users == hex_all(
                    reactions[i].users@,
                )
            &&& channel is None ==> f.fields[2] == maybe_field("channelId"@, None)
            &&& channel is Some ==> f.fields[2] == maybe_field(
                "channelId"@,
                Some(channel->0.hex()),
            )
            &&& degraded ==> f.fields.len() == 4 && f.fields[3] == flag_field("degraded"@, true)
            &&& !degraded ==> f.fields.len() == 3
        }),
{
}

/// Each step that changes reactions changes the fields of the emoji alone: taking back and clearing
/// go by the list of its users, and clearing removes its entry.
pub proof fn reaction_steps_name_their_fields(emoji: Seq<char>)
    ensures
        reaction_update_of(ReactionNext::Pull, emoji) == Some(
            ReactionUpdateView::Pull { users: "reactions."@ + emoji + ".users"@ },
        ),
        reaction_update_of(ReactionNext::ClearEmpty, emoji) == Some(
            ReactionUpdateView::Clear {
                users: "reactions."@ + emoji + ".users"@,
                entry: "reactions."@ + emoji,
            },
        ),
        reaction_update_of(ReactionNext::Add, emoji) == Some(
            ReactionUpdateView::Add {
                users: "reactions."@ + emoji + ".users"@,
                name: "reactions."@ + emoji + ".emoji"@,
            },
        ),
{
}

/// A reaction is shown with its own emoji and everybody who chose it, in order.
pub proof fn reactions_are_shown_whole(shown: ShownReaction, stored: Reaction, i: int)
    requires
        shows(shown, stored),
    ensures
        shown.emoji@ == stored.emoji@,
        shown.users@.len() == stored.users@.len(),
        0 <= i < stored.users@.len() ==> shown.users@[i]@ == stored.users@[i].hex(),
{
    assert(texts(shown.users@).len() == shown.users@.len());
    assert(hex_all(stored.users@).len() == stored.users@.len());
    if 0 <= i < stored.users@.len() {
        assert(texts(shown.users@)[i] == shown.users@[i]@);
        assert(hex_all(stored.users@)[i] == stored.users@[i].hex());
    }
}

/// An emoji is a short text that is not empty and holds neither a dot nor a dollar sign.
pub proof fn emojis_are_short_texts(e: Seq<char>)
    ensures
        is_emoji(e) <==> e.len() != 0 && text::byte_len(e) <= 32 && !(e.contains('.')
            || e.contains('$')),
{
}

/// Whoever fails to react is told so in these words.
pub proof fn reaction_failures_are_worded(degraded: bool)
    ensures
        degraded ==> reaction_failure_text_of(degraded).message == "Reakcja zapisana — odśwież czat, jeśli lista się nie zgadza.",
        !degraded ==> reaction_failure_text_of(degraded).message == "Nie udało się zaktualizować reakcji. Spróbuj ponownie.",
{
}

} // verus!
