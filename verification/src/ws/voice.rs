//! Voice rooms of channels.
use vstd::prelude::*;
use crate::answers::Lookup;
use crate::ids::{parsed_id, ObjectId};
use crate::lists::{contains_text, texts};
use crate::text;
use crate::ws::events::FailureText;
use crate::ws::frames::{empty_frame, plain_frame, text_field, texts_field, Frame, FrameValue, FrameView};

verus! {

/// A request about the voice room of a channel.
pub struct ChannelVoicePayload {
    pub channel_id: Option<String>,
}

/// The channel that a request names: trimmed, and an identifier.
pub open spec fn voice_channel_of(payload: ChannelVoicePayload) -> Option<ObjectId> {
    match payload.channel_id {
        Some(c) => parsed_id(text::trimmed(c@)),
        None => None,
    }
}

/// The channel that a request names.
pub fn voice_channel(payload: &ChannelVoicePayload) -> (r: Option<ObjectId>)
    ensures
        r == voice_channel_of(*payload),
{
    match &payload.channel_id {
        Some(c) => ObjectId::parse_str(text::trim(c)),
        None => None,
    }
}

/// The name of the room that a request is about: the text that it names, without the white
/// space around it.
pub fn voice_room(payload: &ChannelVoicePayload) -> (r: &str)
    ensures
        r@ == text::trimmed(text::text_or_empty(payload.channel_id)),
{
    text::trim(text::or_empty(&payload.channel_id))
}

/// What is known so far about a request concerning a voice room.
#[derive(Clone, Copy, Debug)]
pub struct VoiceFacts {
    /// The first look for the channel, and the second after a failed first.
    pub found: Option<Lookup>,
    pub found_again: Option<Lookup>,
    /// Whether the user has access to the channel.
    pub access: Option<bool>,
}

/// What to do next about a request concerning a voice room.
#[derive(Clone, Copy, Debug, PartialEq, Eq, Structural)]
pub enum VoiceNext {
    Ignore,
    FindChannel(ObjectId),
    FindChannelAgain(ObjectId),
    Fail,
    CheckAccess,
    /// Do what was asked: enter the room, or show who is in it.
    Proceed(ObjectId),
}

/// What to do next before somebody enters a voice room or is shown who is in it.
pub open spec fn voice_access_next(payload: ChannelVoicePayload, facts: VoiceFacts) -> VoiceNext {
    match (voice_channel_of(payload), facts.found, facts.found_again) {
        (None, _, _) => VoiceNext::Ignore,
        (Some(c), None, _) => VoiceNext::FindChannel(c),
        (Some(_), Some(Lookup::Missing), _) => VoiceNext::Ignore,
        (Some(c), Some(Lookup::Failed), None) => VoiceNext::FindChannelAgain(c),
        (Some(_), Some(Lookup::Failed), Some(Lookup::Missing)) => VoiceNext::Ignore,
        (Some(_), Some(Lookup::Failed), Some(Lookup::Failed)) => VoiceNext::Fail,
        (Some(c), Some(_), _) => match facts.access {
            None => VoiceNext::CheckAccess,
            Some(false) => VoiceNext::Ignore,
            Some(true) => VoiceNext::Proceed(c),
        },
    }
}

/// What to do next before somebody enters a voice room or is shown who is in it.
pub fn voice_access(payload: &ChannelVoicePayload, facts: &VoiceFacts) -> (r: VoiceNext)
    ensures
        r == voice_access_next(*payload, *facts),
{
    match (voice_channel(payload), facts.found, facts.found_again) {
        (None, _, _) => VoiceNext::Ignore,
        (Some(c), None, _) => VoiceNext::FindChannel(c),
        (Some(_), Some(Lookup::Missing), _) => VoiceNext::Ignore,
        (Some(c), Some(Lookup::Failed), None) => VoiceNext::FindChannelAgain(c),
        (Some(_), Some(Lookup::Failed), Some(Lookup::Missing)) => VoiceNext::Ignore,
        (Some(_), Some(Lookup::Failed), Some(Lookup::Failed)) => VoiceNext::Fail,
        (Some(c), Some(_), _) => match facts.access {
            None => VoiceNext::CheckAccess,
            Some(false) => VoiceNext::Ignore,
            Some(true) => VoiceNext::Proceed(c),
        },
    }
}

/// What becomes of a request about a voice room, outcome by outcome: the channel that is named is
/// looked for at most twice, the second time only after the store failed, and whoever has access to
/// it goes on.
pub proof fn voice_goes_on_with_access(
    payload: ChannelVoicePayload,
    facts: VoiceFacts,
    c: ObjectId,
)
    ensures
        ({
            let next = voice_access_next(payload, facts);
            let named = payload.channel_id is Some && parsed_id(
                text::trimmed(payload.channel_id->0@),
            ) is Some;
            let names_c = payload.channel_id is Some && parsed_id(
                text::trimmed(payload.channel_id->0@),
            ) == Some(c);
            let again = facts.found == Some(Lookup::Failed);
            let found = facts.found == Some(Lookup::Found) || (again && facts.found_again == Some(
                Lookup::Found,
            ));
            &&& next == VoiceNext::FindChannel(c) <==> names_c && facts.found is None
            &&& next == VoiceNext::FindChannelAgain(c) <==> names_c && again && facts.found_again
                is None
            &&& next is CheckAccess <==> named && found && facts.access is None
            &&& next == VoiceNext::Proceed(c) <==> names_c && found && facts.access == Some(true)
            &&& next is Fail <==> named && again && facts.found_again == Some(Lookup::Failed)
            &&& next is Ignore <==> !named || facts.found == Some(Lookup::Missing) || (again
                && facts.found_again == Some(Lookup::Missing)) || (found && facts.access == Some(
                false,
            ))
        }),
{
}

/// What to do next about somebody who enters a voice room.
pub fn handle_channel_voice_join(payload: &ChannelVoicePayload, facts: &VoiceFacts) -> (r: VoiceNext)
    ensures
        r == voice_access_next(*payload, *facts),
{
    voice_access(payload, facts)
}

/// What to do next about somebody who asks who is in a voice room.
pub fn handle_channel_voice_state_request(payload: &ChannelVoicePayload, facts: &VoiceFacts) -> (r:
    VoiceNext)
    ensures
        r == voice_access_next(*payload, *facts),
{
    voice_access(payload, facts)
}

/// Nobody enters a voice room or learns who is in it without access to its channel.
pub proof fn voice_needs_access(payload: ChannelVoicePayload, facts: VoiceFacts)
    ensures
        voice_access_next(payload, facts) matches VoiceNext::Proceed(c) ==> {
            &&& voice_channel_of(payload) == Some(c)
            &&& facts.access == Some(true)
            &&& facts.found == Some(Lookup::Found) || facts.found_again == Some(Lookup::Found)
        },
{
}

/// What to do next about somebody who leaves a voice room.
#[derive(Clone, Copy, Debug, PartialEq, Eq, Structural)]
pub enum VoiceLeaveNext {
    Ignore,
    AskParticipants,
    FindChannel(ObjectId),
    CheckAccess,
    Leave(ObjectId),
}

/// What to do next about somebody who leaves a voice room. Who is in it may always leave;
/// anybody else needs access to the channel. `inside` says whether they are in it.
pub open spec fn handle_channel_voice_leave_next(payload: ChannelVoicePayload, inside: Option<bool>, found: Option<Lookup>, access: Option<bool>) -> VoiceLeaveNext {
    match (voice_channel_of(payload), inside) {
        (None, _) => VoiceLeaveNext::Ignore,
        (Some(_), None) => VoiceLeaveNext::AskParticipants,
        (Some(c), Some(true)) => VoiceLeaveNext::Leave(c),
        (Some(c), Some(false)) => match (found, access) {
            (None, _) => VoiceLeaveNext::FindChannel(c),
            (Some(Lookup::Found), None) => VoiceLeaveNext::CheckAccess,
            (Some(Lookup::Found), Some(true)) => VoiceLeaveNext::Leave(c),
            _ => VoiceLeaveNext::Ignore,
        },
    }
}

/// What to do next about somebody who leaves a voice room. Who is in it may always leave;
/// anybody else needs access to the channel. `inside` says whether they are in it.
pub fn handle_channel_voice_leave(payload: &ChannelVoicePayload, inside: Option<bool>, found: Option<Lookup>, access: Option<bool>) -> (r: VoiceLeaveNext)
    ensures
        r == handle_channel_voice_leave_next(*payload, inside, found, access),
{
    match (voice_channel(payload), inside) {
        (None, _) => VoiceLeaveNext::Ignore,
        (Some(_), None) => VoiceLeaveNext::AskParticipants,
        (Some(c), Some(true)) => VoiceLeaveNext::Leave(c),
        (Some(c), Some(false)) => match (found, access) {
            (None, _) => VoiceLeaveNext::FindChannel(c),
            (Some(Lookup::Found), None) => VoiceLeaveNext::CheckAccess,
            (Some(Lookup::Found), Some(true)) => VoiceLeaveNext::Leave(c),
            _ => VoiceLeaveNext::Ignore,
        },
    }
}

/// What becomes of leaving a voice room, outcome by outcome: it is asked first whether the user is in
/// it, and if so they leave; anybody else leaves exactly if the channel is found and they have access
/// to it.
pub proof fn leaving_needs_presence_or_access(
    payload: ChannelVoicePayload,
    inside: Option<bool>,
    found: Option<Lookup>,
    access: Option<bool>,
    c: ObjectId,
)
    ensures
        ({
            let next = handle_channel_voice_leave_next(payload, inside, found, access);
            let named = payload.channel_id is Some && parsed_id(
                text::trimmed(payload.channel_id->0@),
            ) is Some;
            let names_c = payload.channel_id is Some && parsed_id(
                text::trimmed(payload.channel_id->0@),
            ) == Some(c);
            let there = found == Some(Lookup::Found);
            &&& next is AskParticipants <==> named && inside is None
            &&& next == VoiceLeaveNext::FindChannel(c) <==> names_c && inside == Some(false)
                && found is None
            &&& next is CheckAccess <==> named && inside == Some(false) && there && access is None
            &&& next == VoiceLeaveNext::Leave(c) <==> names_c && (inside == Some(true) || (inside
                == Some(false) && there && access == Some(true)))
            &&& next is Ignore <==> !named || (inside == Some(false) && found is Some && (!there
                || access == Some(false)))
        }),
{
}

/// Whoever is in a voice room can leave it, whatever became of their access.
pub proof fn insiders_can_leave(
    payload: ChannelVoicePayload,
    found: Option<Lookup>,
    access: Option<bool>,
    c: ObjectId,
)
    requires
        voice_channel_of(payload) == Some(c),
    ensures
        handle_channel_voice_leave_next(payload, Some(true), found, access)
            == VoiceLeaveNext::Leave(c),
{
}

/// What a user is told who could not enter a room, or, `state`, be shown who is in it.
pub open spec fn voice_failure_text_of(state: bool) -> FailureText {
    if state {
        FailureText {
            code: "VOICE_STATE_FAILED",
            message: "Nie udało się pobrać stanu voice. Spróbuj ponownie.",
            retryable: true,
        }
    } else {
        FailureText {
            code: "VOICE_JOIN_FAILED",
            message: "Nie udało się dołączyć do voice. Spróbuj ponownie.",
            retryable: true,
        }
    }
}

/// What a user is told who could not enter a room, or, `state`, be shown who is in it.
pub fn voice_failure_text(state: bool) -> (r: FailureText)
    ensures
        r == voice_failure_text_of(state),
{
    if state {
        FailureText {
            code: "VOICE_STATE_FAILED",
            message: "Nie udało się pobrać stanu voice. Spróbuj ponownie.",
            retryable: true,
        }
    } else {
        FailureText {
            code: "VOICE_JOIN_FAILED",
            message: "Nie udało się dołączyć do voice. Spróbuj ponownie.",
            retryable: true,
        }
    }
}

/// A list with the texts of another at the end, each unless it is there already.
pub open spec fn joined(a: Seq<Seq<char>>, b: Seq<Seq<char>>) -> Seq<Seq<char>>
    decreases b.len(),
{
    if b.len() == 0 {
        a
    } else {
        let j = joined(a, b.drop_last());
        if j.contains(b.last()) {
            j
        } else {
            j.push(b.last())
        }
    }
}

/// Who is told who is in a voice room: the people of the channel and those in the room. If
/// the channel is out of reach, those in the room.
pub open spec fn voice_recipients_of(
    people: Option<Seq<Seq<char>>>,
    participants: Seq<Seq<char>>,
) -> Seq<Seq<char>> {
    match people {
        Some(p) => joined(p, participants),
        None => participants,
    }
}

/// What a list of texts that may be missing says.
pub open spec fn opt_texts(v: Option<Vec<String>>) -> Option<Seq<Seq<char>>> {
    match v {
        Some(l) => Some(texts(l@)),
        None => None,
    }
}

fn copy_texts(v: &Vec<String>) -> (r: Vec<String>)
    ensures
        texts(r@) == texts(v@),
{
    let mut out: Vec<String> = Vec::new();
    let mut i: usize = 0;
    while i < v.len()
        invariant
            i <= v.len(),
            out@.len() == i,
            forall|k: int| 0 <= k < i ==> (#[trigger] out@[k])@ == v@[k]@,
        decreases v.len() - i,
    {
        out.push(v[i].clone());
        i = i + 1;
    }
    proof {
        assert(texts(out@) =~= texts(v@));
    }
    out
}

/// Who is told who is in a voice room; `people` are those of the channel, if it was found.
pub fn emit_channel_voice_state(people: &Option<Vec<String>>, participants: &Vec<String>) -> (r: Vec<
    String,
>)
    ensures
        texts(r@) == voice_recipients_of(opt_texts(*people), texts(participants@)),
{
    match people {
        None => copy_texts(participants),
        Some(p) => {
            let mut out = copy_texts(p);
            let ghost a = texts(p@);
            let ghost b = texts(participants@);
            let mut i: usize = 0;
            while i < participants.len()
                invariant
                    i <= participants.len(),
                    a == texts(p@),
                    b == texts(participants@),
                    texts(out@) == joined(a, b.take(i as int)),
                decreases participants.len() - i,
            {
                proof {
                    assert(b.take(i + 1).drop_last() =~= b.take(i as int));
                }
                if !contains_text(&out, &participants[i]) {
                    let c = participants[i].clone();
                    proof {
                        assert(texts(out@.push(c)) =~= texts(out@).push(c@));
                    }
                    out.push(c);
                }
                i = i + 1;
            }
            proof {
                assert(b.take(b.len() as int) =~= b);
            }
            out
        },
    }
}

/// Everybody in a voice room is told who is in it, and so is everybody of its channel.
pub proof fn room_and_channel_are_told(a: Seq<Seq<char>>, b: Seq<Seq<char>>, x: Seq<char>)
    ensures
        joined(a, b).contains(x) <==> a.contains(x) || b.contains(x),
    decreases b.len(),
{
    if b.len() > 0 {
        let rest = b.drop_last();
        room_and_channel_are_told(a, rest, x);
        let j = joined(a, rest);
        if b.contains(x) {
            let i = choose|i: int| 0 <= i < b.len() && b[i] == x;
            if i < b.len() - 1 {
                assert(rest[i] == x);
            } else {
                assert(j.push(b.last())[j.len() as int] == x);
            }
        }
        if j.contains(x) {
            let k = choose|k: int| 0 <= k < j.len() && j[k] == x;
            assert(j.push(b.last())[k] == x);
        }
        if rest.contains(x) {
            let k = choose|k: int| 0 <= k < rest.len() && rest[k] == x;
            assert(b[k] == x);
        }
        if joined(a, b).contains(x) && !j.contains(x) {
            assert(b[b.len() - 1] == x);
        }
    }
}

/// The frame that says who is in a voice room.
pub open spec fn voice_frame_of(
    to: Seq<Seq<char>>,
    channel_id: Seq<char>,
    participants: Seq<Seq<char>>,
) -> FrameView {
    plain_frame(
        to,
        "channel-voice:state"@,
        seq![text_field("channelId"@, channel_id), texts_field("participants"@, participants)],
    )
}

/// The frame that says who is in a voice room.
pub fn voice_frame(to: Vec<String>, channel_id: &str, participants: &Vec<String>) -> (r: Frame)
    ensures
        r@ == voice_frame_of(texts(to@), channel_id@, texts(participants@)),
{
    let r = empty_frame(to, "channel-voice:state").with_text("channelId", channel_id).with(
        "participants",
        FrameValue::Texts(copy_texts(participants)),
    );
    proof {
        assert(r@.fields =~= voice_frame_of(
            texts(to@),
            channel_id@,
            texts(participants@),
        ).fields);
    }
    r
}

/// A failure about a voice room says what failed, and may be tried again.
pub proof fn failed_voice_requests_say_what_failed(state: bool)
    ensures
        voice_failure_text_of(state).code == (if state {
            "VOICE_STATE_FAILED"
        } else {
            "VOICE_JOIN_FAILED"
        }),
        voice_failure_text_of(state).retryable,
{
}

/// Where the channel is out of reach those in the room are told, in their order; else everybody of
/// the channel comes first, in their order, and nobody is told twice who is not named twice there.
pub proof fn channels_come_before_rooms(
    people: Seq<Seq<char>>,
    participants: Seq<Seq<char>>,
    x: Seq<char>,
)
    ensures
        voice_recipients_of(None, participants) == participants,
        voice_recipients_of(Some(people), participants).contains(x) <==> people.contains(x)
            || participants.contains(x),
        voice_recipients_of(Some(people), participants).len() >= people.len(),
        voice_recipients_of(Some(people), participants).take(people.len() as int) == people,
        people.no_duplicates() ==> voice_recipients_of(Some(people), participants).no_duplicates(),
    decreases participants.len(),
{
    room_and_channel_are_told(people, participants, x);
    if participants.len() > 0 {
        channels_come_before_rooms(people, participants.drop_last(), x);
        let j = joined(people, participants.drop_last());
        assert(j.push(participants.last()).take(people.len() as int) =~= j.take(
            people.len() as int,
        ));
    } else {
        assert(people.take(people.len() as int) =~= people);
    }
}

/// The frame about a voice room says which one it is and who is in it.
pub proof fn voice_frames_say_who_is_in(
    to: Seq<Seq<char>>,
    channel_id: Seq<char>,
    participants: Seq<Seq<char>>,
)
    ensures
        ({
            let f = voice_frame_of(to, channel_id, participants);
            &&& f.to == to && f.event == "channel-voice:state"@ && !f.message
            &&& f.fields == seq![
                text_field("channelId"@, channel_id),
                texts_field("participants"@, participants),
            ]
        }),
{
}

/// A list of texts that is not there is shown as none, and one that is there text by text.
pub proof fn missing_lists_stay_missing(v: Option<Vec<String>>)
    ensures
        v is None <==> opt_texts(v) is None,
        v is Some ==> opt_texts(v) == Some(texts(v->0@)),
{
}

/// Whoever cannot join or look at a voice channel is told so in these words.
pub proof fn voice_failures_are_worded(state: bool)
    ensures
        state ==> voice_failure_text_of(state).message == "Nie udało się pobrać stanu voice. Spróbuj ponownie.",
        !state ==> voice_failure_text_of(state).message == "Nie udało się dołączyć do voice. Spróbuj ponownie.",
{
}

} // verus!
