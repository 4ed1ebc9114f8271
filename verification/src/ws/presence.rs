//! Who is online, and what they say about their availability.
use vstd::prelude::*;
use crate::ids::{parsed_id, ObjectId};
use crate::model::users::{status_named, status_of, AvailabilityStatus};
use crate::text::{self, all_ascii, ascii_lower};
use crate::utils::user::json::{availability_status_name, availability_status_str};

verus! {

/// The name of the status that a name of any case stands for.
pub fn normalize_availability_status(status: &str) -> (r: &'static str)
    ensures
        r == availability_status_name(status_named(text::lowercase(status@))),
        all_ascii(status@) ==> r == availability_status_name(status_named(ascii_lower(status@))),
{
    let s = parse_availability_status(status);
    availability_status_str(&s)
}

/// The status that a name of any case stands for.
pub fn parse_availability_status(status: &str) -> (r: AvailabilityStatus)
    ensures
        r == status_named(text::lowercase(status@)),
        all_ascii(status@) ==> r == status_named(ascii_lower(status@)),
{
    let lower = text::to_lowercase(status);
    status_of(&lower)
}

/// What becomes of marking somebody online or offline.
#[derive(Clone, Copy, Debug, PartialEq, Eq, Structural)]
pub enum MarkNext {
    /// The name is no identifier: nothing is marked.
    NotMarked,
    /// Write the mark.
    Write(ObjectId),
    Marked,
}

/// What to do next about marking somebody. `written` says whether there was such a user and
/// the mark was written.
pub open spec fn mark_presence_of(user_id: Seq<char>, written: Option<bool>) -> MarkNext {
    match (parsed_id(user_id), written) {
        (None, _) => MarkNext::NotMarked,
        (Some(id), None) => MarkNext::Write(id),
        (Some(_), Some(true)) => MarkNext::Marked,
        (Some(_), Some(false)) => MarkNext::NotMarked,
    }
}

/// What to do next about marking somebody. `written` says whether there was such a user and
/// the mark was written.
pub fn mark_presence(user_id: &str, written: Option<bool>) -> (r: MarkNext)
    ensures
        r == mark_presence_of(user_id@, written),
{
    match (ObjectId::parse_str(user_id), written) {
        (None, _) => MarkNext::NotMarked,
        (Some(id), None) => MarkNext::Write(id),
        (Some(_), Some(true)) => MarkNext::Marked,
        (Some(_), Some(false)) => MarkNext::NotMarked,
    }
}

/// A mark is written for an identifier, once, and holds exactly if it was written.
pub proof fn marks_hold_once_written(user_id: Seq<char>, written: Option<bool>, id: ObjectId)
    ensures
        mark_presence_of(user_id, written) == MarkNext::Write(id) <==> parsed_id(user_id) == Some(id)
            && written is None,
        mark_presence_of(user_id, written) == MarkNext::Marked <==> parsed_id(user_id) is Some
            && written == Some(true),
        mark_presence_of(user_id, written) == MarkNext::NotMarked <==> parsed_id(user_id) is None
            || written == Some(false),
{
}

/// What to do next about marking somebody online.
pub fn set_user_online(user_id: &str, written: Option<bool>) -> (r: MarkNext)
    ensures
        r == mark_presence_of(user_id@, written),
{
    mark_presence(user_id, written)
}

/// What to do next about marking somebody offline.
pub fn set_user_offline(user_id: &str, written: Option<bool>) -> (r: MarkNext)
    ensures
        r == mark_presence_of(user_id@, written),
{
    mark_presence(user_id, written)
}

/// What to do next about a new status of availability.
pub fn set_availability(user_id: &str, written: Option<bool>) -> (r: MarkNext)
    ensures
        r == mark_presence_of(user_id@, written),
{
    mark_presence(user_id, written)
}

/// What to do next to find out the availability of somebody.
#[derive(Clone, Copy, Debug, PartialEq, Eq, Structural)]
pub enum AvailabilityNext {
    LookUpCache,
    FindUser(ObjectId),
    /// It is known; `remember` says whether to keep it.
    Known { status: AvailabilityStatus, remember: bool },
    Unknown,
}

/// What to do next to find out the availability of somebody: what was kept counts first, then
/// what is stored, which is then kept.
pub open spec fn availability_status_for_user_next(user_id: Seq<char>, cached: Option<Option<AvailabilityStatus>>, stored: Option<Option<AvailabilityStatus>>) -> AvailabilityNext {
    match (cached, stored) {
        (None, _) => AvailabilityNext::LookUpCache,
        (Some(Some(status)), _) => AvailabilityNext::Known { status, remember: false },
        (Some(None), None) => match parsed_id(user_id) {
            Some(id) => AvailabilityNext::FindUser(id),
            None => AvailabilityNext::Unknown,
        },
        (Some(None), Some(Some(status))) => AvailabilityNext::Known { status, remember: true },
        (Some(None), Some(None)) => AvailabilityNext::Unknown,
    }
}

/// What to do next to find out the availability of somebody: what was kept counts first, then
/// what is stored, which is then kept.
pub fn availability_status_for_user(user_id: &str, cached: Option<Option<AvailabilityStatus>>, stored: Option<Option<AvailabilityStatus>>) -> (r: AvailabilityNext)
    ensures
        r == availability_status_for_user_next(user_id@, cached, stored),
{
    match (cached, stored) {
        (None, _) => AvailabilityNext::LookUpCache,
        (Some(Some(status)), _) => AvailabilityNext::Known { status, remember: false },
        (Some(None), None) => match ObjectId::parse_str(user_id) {
            Some(id) => AvailabilityNext::FindUser(id),
            None => AvailabilityNext::Unknown,
        },
        (Some(None), Some(Some(status))) => AvailabilityNext::Known { status, remember: true },
        (Some(None), Some(None)) => AvailabilityNext::Unknown,
    }
}

/// What was kept of somebody's availability is taken as it is, before anything stored is looked at;
/// what is stored is taken and kept, and nothing is made up.
pub proof fn kept_availability_counts_first(
    user_id: Seq<char>,
    cached: Option<Option<AvailabilityStatus>>,
    stored: Option<Option<AvailabilityStatus>>,
    status: AvailabilityStatus,
    id: ObjectId,
)
    ensures
        ({
            let next = availability_status_for_user_next(user_id, cached, stored);
            let asks = cached == Some(None::<AvailabilityStatus>);
            &&& next is LookUpCache <==> cached is None
            &&& next == (AvailabilityNext::Known { status, remember: false }) <==> cached == Some(
                Some(status),
            )
            &&& next == (AvailabilityNext::Known { status, remember: true }) <==> asks && stored
                == Some(Some(status))
            &&& next == AvailabilityNext::FindUser(id) <==> asks && stored is None && parsed_id(
                user_id,
            ) == Some(id)
            &&& next is Unknown <==> asks && (stored == Some(None::<AvailabilityStatus>) || (stored
                is None && parsed_id(user_id) is None))
        }),
{
}

/// What is known so far about somebody who came online.
#[derive(Clone, Copy, Debug)]
pub struct OnlineFacts {
    /// Whether the calls that expired were ended.
    pub swept: bool,
    /// Whether they were connected at first.
    pub here: Option<bool>,
    /// Whether they could be marked online.
    pub marked: Option<bool>,
    /// Whether they were still connected then.
    pub here_after_mark: Option<bool>,
    pub availability: Option<Option<AvailabilityStatus>>,
    /// Whether they were still connected right before the others are told.
    pub here_before_telling: Option<bool>,
    /// Whether the others were told.
    pub told: bool,
}

/// What to do next about somebody who came online.
#[derive(Clone, Copy, Debug, PartialEq, Eq, Structural)]
pub enum OnlineNext {
    Sweep,
    CheckHere,
    MarkOnline,
    CheckHereAfterMark,
    /// They are gone again: mark them offline, and end.
    TakeBack,
    AskAvailability,
    CheckHereBeforeTelling,
    /// Tell the others.
    Tell(AvailabilityStatus),
    /// Offer them the calls that ring for them.
    OfferCalls,
    Stop,
}

/// What to do next about somebody whose first connection came. The others are told only
/// while the connection is there; if it went while the mark was written, the mark is taken
/// back.
pub open spec fn on_user_connected_next(facts: OnlineFacts) -> OnlineNext {
    if !facts.swept {
        OnlineNext::Sweep
    } else {
        match (facts.here, facts.marked, facts.here_after_mark) {
            (None, _, _) => OnlineNext::CheckHere,
            (Some(false), _, _) => OnlineNext::Stop,
            (Some(true), None, _) => OnlineNext::MarkOnline,
            (Some(true), Some(false), _) => OnlineNext::Stop,
            (Some(true), Some(true), None) => OnlineNext::CheckHereAfterMark,
            (Some(true), Some(true), Some(false)) => OnlineNext::TakeBack,
            (Some(true), Some(true), Some(true)) => match (
                facts.availability,
                facts.here_before_telling,
            ) {
                (None, _) => OnlineNext::AskAvailability,
                (Some(None), _) => OnlineNext::OfferCalls,
                (Some(Some(_)), None) => OnlineNext::CheckHereBeforeTelling,
                (Some(Some(_)), Some(false)) => OnlineNext::TakeBack,
                (Some(Some(status)), Some(true)) => if facts.told {
                    OnlineNext::OfferCalls
                } else {
                    OnlineNext::Tell(status)
                },
            },
        }
    }
}

/// What to do next about somebody whose first connection came. The others are told only
/// while the connection is there; if it went while the mark was written, the mark is taken
/// back.
pub fn on_user_connected(facts: &OnlineFacts) -> (r: OnlineNext)
    ensures
        r == on_user_connected_next(*facts),
{
    if !facts.swept {
        OnlineNext::Sweep
    } else {
        match (facts.here, facts.marked, facts.here_after_mark) {
            (None, _, _) => OnlineNext::CheckHere,
            (Some(false), _, _) => OnlineNext::Stop,
            (Some(true), None, _) => OnlineNext::MarkOnline,
            (Some(true), Some(false), _) => OnlineNext::Stop,
            (Some(true), Some(true), None) => OnlineNext::CheckHereAfterMark,
            (Some(true), Some(true), Some(false)) => OnlineNext::TakeBack,
            (Some(true), Some(true), Some(true)) => match (
                facts.availability,
                facts.here_before_telling,
            ) {
                (None, _) => OnlineNext::AskAvailability,
                (Some(None), _) => OnlineNext::OfferCalls,
                (Some(Some(_)), None) => OnlineNext::CheckHereBeforeTelling,
                (Some(Some(_)), Some(false)) => OnlineNext::TakeBack,
                (Some(Some(status)), Some(true)) => if facts.told {
                    OnlineNext::OfferCalls
                } else {
                    OnlineNext::Tell(status)
                },
            },
        }
    }
}

/// What to do next about somebody who asks to be shown online: as for a first connection,
/// but without the calls, and without availability nobody is told.
pub open spec fn set_online_next(facts: OnlineFacts) -> OnlineNext {
    match (facts.here, facts.marked, facts.here_after_mark) {
        (None, _, _) => OnlineNext::CheckHere,
        (Some(false), _, _) => OnlineNext::Stop,
        (Some(true), None, _) => OnlineNext::MarkOnline,
        (Some(true), Some(false), _) => OnlineNext::Stop,
        (Some(true), Some(true), None) => OnlineNext::CheckHereAfterMark,
        (Some(true), Some(true), Some(false)) => OnlineNext::TakeBack,
        (Some(true), Some(true), Some(true)) => match (
            facts.availability,
            facts.here_before_telling,
        ) {
            (None, _) => OnlineNext::AskAvailability,
            (Some(None), _) => OnlineNext::Stop,
            (Some(Some(_)), None) => OnlineNext::CheckHereBeforeTelling,
            (Some(Some(_)), Some(false)) => OnlineNext::TakeBack,
            (Some(Some(status)), Some(true)) => if facts.told {
                OnlineNext::Stop
            } else {
                OnlineNext::Tell(status)
            },
        },
    }
}

/// What to do next about somebody who asks to be shown online: as for a first connection,
/// but without the calls, and without availability nobody is told.
pub fn set_online(facts: &OnlineFacts) -> (r: OnlineNext)
    ensures
        r == set_online_next(*facts),
{
    match (facts.here, facts.marked, facts.here_after_mark) {
        (None, _, _) => OnlineNext::CheckHere,
        (Some(false), _, _) => OnlineNext::Stop,
        (Some(true), None, _) => OnlineNext::MarkOnline,
        (Some(true), Some(false), _) => OnlineNext::Stop,
        (Some(true), Some(true), None) => OnlineNext::CheckHereAfterMark,
        (Some(true), Some(true), Some(false)) => OnlineNext::TakeBack,
        (Some(true), Some(true), Some(true)) => match (
            facts.availability,
            facts.here_before_telling,
        ) {
            (None, _) => OnlineNext::AskAvailability,
            (Some(None), _) => OnlineNext::Stop,
            (Some(Some(_)), None) => OnlineNext::CheckHereBeforeTelling,
            (Some(Some(_)), Some(false)) => OnlineNext::TakeBack,
            (Some(Some(status)), Some(true)) => if facts.told {
                OnlineNext::Stop
            } else {
                OnlineNext::Tell(status)
            },
        },
    }
}

/// Nobody is announced online whose connection was seen to be gone after they were marked.
pub proof fn online_is_told_of_connected_users_only(facts: OnlineFacts)
    ensures
        on_user_connected_next(facts) is Tell || set_online_next(facts) is Tell ==> {
            &&& facts.marked == Some(true)
            &&& facts.here_after_mark == Some(true)
            &&& facts.here_before_telling == Some(true)
        },
{
}

/// A mark that was written for somebody who is gone is taken back.
pub proof fn marks_of_the_gone_are_taken_back(facts: OnlineFacts)
    requires
        facts.swept,
        facts.here == Some(true),
        facts.marked == Some(true),
        facts.here_after_mark == Some(false) || (facts.here_after_mark == Some(true)
            && (facts.availability matches Some(Some(_))) && facts.here_before_telling == Some(
            false,
        )),
    ensures
        on_user_connected_next(facts) is TakeBack,
        set_online_next(facts) is TakeBack,
{
}

/// What is known so far about somebody who went offline.
#[derive(Clone, Copy, Debug)]
pub struct OfflineFacts {
    /// Whether they were back at each look: at first, after their calls were taken, after the
    /// calls were ended, after the voice rooms were left, after their availability was found
    /// out, and after they were marked offline.
    pub back: Option<bool>,
    pub calls_taken: bool,
    pub back_after_take: Option<bool>,
    pub calls_ended: bool,
    pub back_after_calls: Option<bool>,
    pub rooms_left: bool,
    pub back_after_rooms: Option<bool>,
    pub availability: Option<Option<AvailabilityStatus>>,
    pub back_after_availability: Option<bool>,
    pub marked: Option<bool>,
    pub back_after_mark: Option<bool>,
}

/// What to do next about somebody who went offline.
#[derive(Clone, Copy, Debug, PartialEq, Eq, Structural)]
pub enum OfflineNext {
    CheckBack,
    TakeCalls,
    CheckBackAfterTake,
    /// They are back: put the calls back, and end.
    RestoreCalls,
    EndCalls,
    CheckBackAfterCalls,
    LeaveRooms,
    CheckBackAfterRooms,
    AskAvailability,
    CheckBackAfterAvailability,
    MarkOffline,
    CheckBackAfterMark,
    /// They are back: mark them online again, and end.
    TakeBack,
    Tell(AvailabilityStatus),
    Stop,
}

/// The last part of going offline: find out the availability, mark, and tell the others,
/// unless they are back.
pub open spec fn offline_mark_next(facts: OfflineFacts) -> OfflineNext {
    match (facts.availability, facts.back_after_availability, facts.marked) {
        (None, _, _) => OfflineNext::AskAvailability,
        (Some(None), _, _) => OfflineNext::Stop,
        (Some(Some(_)), None, _) => OfflineNext::CheckBackAfterAvailability,
        (Some(Some(_)), Some(true), _) => OfflineNext::Stop,
        (Some(Some(_)), Some(false), None) => OfflineNext::MarkOffline,
        (Some(Some(_)), Some(false), Some(false)) => OfflineNext::Stop,
        (Some(Some(status)), Some(false), Some(true)) => match facts.back_after_mark {
            None => OfflineNext::CheckBackAfterMark,
            Some(true) => OfflineNext::TakeBack,
            Some(false) => OfflineNext::Tell(status),
        },
    }
}

/// The last part of going offline: find out the availability, mark, and tell the others,
/// unless they are back.
pub fn offline_mark(facts: &OfflineFacts) -> (r: OfflineNext)
    ensures
        r == offline_mark_next(*facts),
{
    match (facts.availability, facts.back_after_availability, facts.marked) {
        (None, _, _) => OfflineNext::AskAvailability,
        (Some(None), _, _) => OfflineNext::Stop,
        (Some(Some(_)), None, _) => OfflineNext::CheckBackAfterAvailability,
        (Some(Some(_)), Some(true), _) => OfflineNext::Stop,
        (Some(Some(_)), Some(false), None) => OfflineNext::MarkOffline,
        (Some(Some(_)), Some(false), Some(false)) => OfflineNext::Stop,
        (Some(Some(status)), Some(false), Some(true)) => match facts.back_after_mark {
            None => OfflineNext::CheckBackAfterMark,
            Some(true) => OfflineNext::TakeBack,
            Some(false) => OfflineNext::Tell(status),
        },
    }
}

/// What to do next about somebody whose last connection went. Whenever they are back nothing
/// more is taken from them.
pub open spec fn on_user_disconnected_next(facts: OfflineFacts) -> OfflineNext {
    match facts.back {
        None => OfflineNext::CheckBack,
        Some(true) => OfflineNext::Stop,
        Some(false) => if !facts.calls_taken {
            OfflineNext::TakeCalls
        } else {
            match facts.back_after_take {
                None => OfflineNext::CheckBackAfterTake,
                Some(true) => OfflineNext::RestoreCalls,
                Some(false) => if !facts.calls_ended {
                    OfflineNext::EndCalls
                } else {
                    match facts.back_after_calls {
                        None => OfflineNext::CheckBackAfterCalls,
                        Some(true) => OfflineNext::Stop,
                        Some(false) => if !facts.rooms_left {
                            OfflineNext::LeaveRooms
                        } else {
                            match facts.back_after_rooms {
                                None => OfflineNext::CheckBackAfterRooms,
                                Some(true) => OfflineNext::Stop,
                                Some(false) => offline_mark_next(facts),
                            }
                        },
                    }
                },
            }
        },
    }
}

/// What to do next about somebody whose last connection went. Whenever they are back nothing
/// more is taken from them.
pub fn on_user_disconnected(facts: &OfflineFacts) -> (r: OfflineNext)
    ensures
        r == on_user_disconnected_next(*facts),
{
    match facts.back {
        None => OfflineNext::CheckBack,
        Some(true) => OfflineNext::Stop,
        Some(false) => if !facts.calls_taken {
            OfflineNext::TakeCalls
        } else {
            match facts.back_after_take {
                None => OfflineNext::CheckBackAfterTake,
                Some(true) => OfflineNext::RestoreCalls,
                Some(false) => if !facts.calls_ended {
                    OfflineNext::EndCalls
                } else {
                    match facts.back_after_calls {
                        None => OfflineNext::CheckBackAfterCalls,
                        Some(true) => OfflineNext::Stop,
                        Some(false) => if !facts.rooms_left {
                            OfflineNext::LeaveRooms
                        } else {
                            match facts.back_after_rooms {
                                None => OfflineNext::CheckBackAfterRooms,
                                Some(true) => OfflineNext::Stop,
                                Some(false) => offline_mark(facts),
                            }
                        },
                    }
                },
            }
        },
    }
}

/// What to do next about somebody who asks to be shown offline; with a second connection
/// nothing happens. `back` is then whether there is more than one connection.
pub open spec fn set_offline_next(facts: OfflineFacts) -> OfflineNext {
    match facts.back {
        None => OfflineNext::CheckBack,
        Some(true) => OfflineNext::Stop,
        Some(false) => offline_mark_next(facts),
    }
}

/// What to do next about somebody who asks to be shown offline; with a second connection
/// nothing happens. `back` is then whether there is more than one connection.
pub fn set_offline(facts: &OfflineFacts) -> (r: OfflineNext)
    ensures
        r == set_offline_next(*facts),
{
    match facts.back {
        None => OfflineNext::CheckBack,
        Some(true) => OfflineNext::Stop,
        Some(false) => offline_mark(facts),
    }
}

/// Nobody is announced offline who was seen to be back after they were marked; they are
/// marked online again.
pub proof fn offline_is_told_of_the_gone_only(facts: OfflineFacts)
    ensures
        on_user_disconnected_next(facts) is Tell || set_offline_next(facts) is Tell ==> {
            &&& facts.back == Some(false)
            &&& facts.marked == Some(true)
            &&& facts.back_after_mark == Some(false)
        },
        on_user_disconnected_next(facts) is TakeBack || set_offline_next(facts) is TakeBack ==> {
            &&& facts.marked == Some(true)
            &&& facts.back_after_mark == Some(true)
        },
{
}

/// Calls that were taken from somebody who came back in between are put back, not ended.
pub proof fn calls_of_returners_are_restored(facts: OfflineFacts)
    requires
        facts.back == Some(false),
        facts.calls_taken,
        facts.back_after_take == Some(true),
    ensures
        on_user_disconnected_next(facts) is RestoreCalls,
{
}

/// What the others are told about somebody.
#[derive(Clone, Copy, Debug, PartialEq, Eq, Structural)]
pub struct StatusNews {
    pub is_online: bool,
    pub status: AvailabilityStatus,
    pub last_seen: Option<i64>,
}

/// What the others are told after a change of availability: who is online was not seen last
/// at any time.
pub open spec fn status_news_of(is_online: bool, status: AvailabilityStatus, last_seen: Option<i64>) -> StatusNews {
    StatusNews {
        is_online,
        status,
        last_seen: if is_online {
            None
        } else {
            last_seen
        },
    }
}

/// What the others are told after a change of availability: who is online was not seen last
/// at any time.
pub fn status_news(is_online: bool, status: AvailabilityStatus, last_seen: Option<i64>) -> (r: StatusNews)
    ensures
        r == status_news_of(is_online, status, last_seen),
{
    StatusNews {
        is_online,
        status,
        last_seen: if is_online {
            None
        } else {
            last_seen
        },
    }
}

/// Whether somebody counts as here. `by_connection`: they came by a connection, and not by
/// saying so; then they have to be registered as well.
pub open spec fn here_by(by_connection: bool, registered: bool, connections: usize) -> bool {
    (!by_connection || registered) && connections > 0
}

/// Whether somebody counts as here. `by_connection`: they came by a connection, and not by
/// saying so; then they have to be registered as well.
pub fn counts_as_here(by_connection: bool, registered: bool, connections: usize) -> (r: bool)
    ensures
        r == here_by(by_connection, registered, connections),
{
    (!by_connection || registered) && connections > 0
}

/// Whether somebody who goes counts as back. `by_connection`: they went with their last
/// connection, and any other brings them back; who only says so still has the connection over
/// which they said it.
pub open spec fn back_by(by_connection: bool, registered: bool, connections: usize) -> bool {
    if by_connection {
        registered || connections > 0
    } else {
        connections > 1
    }
}

/// Whether somebody who goes counts as back. `by_connection`: they went with their last
/// connection, and any other brings them back; who only says so still has the connection over
/// which they said it.
pub fn counts_as_back(by_connection: bool, registered: bool, connections: usize) -> (r: bool)
    ensures
        r == back_by(by_connection, registered, connections),
{
    if by_connection {
        registered || connections > 0
    } else {
        connections > 1
    }
}

/// Nobody counts both as here and as gone by their connections.
pub proof fn here_means_not_gone(registered: bool, connections: usize)
    ensures
        here_by(true, registered, connections) ==> back_by(
            true,
            registered,
            connections,
        ),
{
}

/// What is stored of somebody who has a new status.
#[derive(Clone, Copy, Debug, PartialEq, Eq, Structural)]
pub struct StoredPresence {
    pub is_online: bool,
    pub last_seen: Option<i64>,
}

/// What to do next about a new status.
#[derive(Clone, Copy, Debug, PartialEq, Eq, Structural)]
pub enum StatusNext {
    /// Store the status.
    Write(ObjectId),
    /// Remember the status.
    Remember,
    FindUser(ObjectId),
    /// Tell the others.
    Tell(StatusNews),
    Stop,
}

/// What to do next about a new status of a user: it is stored, remembered, and told with what is
/// stored of the user then. `written` says whether it could be stored.
pub open spec fn set_status_next(user_id: Seq<char>, status: AvailabilityStatus, written: Option<bool>, remembered: bool, found: Option<Option<StoredPresence>>) -> StatusNext {
    match mark_presence_of(user_id, written) {
        MarkNext::NotMarked => StatusNext::Stop,
        MarkNext::Write(id) => StatusNext::Write(id),
        MarkNext::Marked => if !remembered {
            StatusNext::Remember
        } else {
            match (found, parsed_id(user_id)) {
                (_, None) => StatusNext::Stop,
                (None, Some(id)) => StatusNext::FindUser(id),
                (Some(None), Some(_)) => StatusNext::Stop,
                (Some(Some(p)), Some(_)) => StatusNext::Tell(
                    status_news_of(p.is_online, status, p.last_seen),
                ),
            }
        },
    }
}

/// What to do next about a new status of a user: it is stored, remembered, and told with what is
/// stored of the user then. `written` says whether it could be stored.
pub fn set_status(user_id: &str, status: AvailabilityStatus, written: Option<bool>, remembered: bool, found: Option<Option<StoredPresence>>) -> (r: StatusNext)
    ensures
        r == set_status_next(user_id@, status, written, remembered, found),
{
    match set_availability(user_id, written) {
        MarkNext::NotMarked => StatusNext::Stop,
        MarkNext::Write(id) => StatusNext::Write(id),
        MarkNext::Marked => if !remembered {
            StatusNext::Remember
        } else {
            match (found, ObjectId::parse_str(user_id)) {
                (_, None) => StatusNext::Stop,
                (None, Some(id)) => StatusNext::FindUser(id),
                (Some(None), Some(_)) => StatusNext::Stop,
                (Some(Some(p)), Some(_)) => StatusNext::Tell(
                    status_news(p.is_online, status, p.last_seen),
                ),
            }
        },
    }
}

/// A new status is remembered and told only after it was stored, and told as it was set.
pub proof fn stored_statuses_are_told(
    user_id: Seq<char>,
    status: AvailabilityStatus,
    written: Option<bool>,
    remembered: bool,
    found: Option<Option<StoredPresence>>,
)
    ensures
        match set_status_next(user_id, status, written, remembered, found) {
            StatusNext::Remember => written == Some(true),
            StatusNext::Tell(news) => written == Some(true) && remembered && news.status == status,
            _ => true,
        },
{
}

/// Who is shown online has no time at which they were seen last.
pub proof fn online_users_have_no_last_seen(
    is_online: bool,
    status: AvailabilityStatus,
    last_seen: Option<i64>,
)
    ensures
        status_news_of(is_online, status, last_seen).is_online ==> status_news_of(
            is_online,
            status,
            last_seen,
        ).last_seen is None,
{
}

/// Somebody who comes is announced exactly once they were seen here, marked, seen here again and
/// their availability is known, and seen here right before; each step waits for the one before it,
/// and who is gone meanwhile has the mark taken back. Only a connection ends expired calls first and
/// is offered the calls that ring at last.
pub proof fn comers_are_announced_while_here(facts: OnlineFacts, status: AvailabilityStatus)
    ensures
        ({
            let on = on_user_connected_next(facts);
            let set = set_online_next(facts);
            let marked = facts.here == Some(true) && facts.marked == Some(true);
            let stayed = marked && facts.here_after_mark == Some(true);
            let known = stayed && facts.availability is Some && facts.availability->0 is Some;
            let unknown = stayed && facts.availability == Some(None::<AvailabilityStatus>);
            let sure = known && facts.here_before_telling == Some(true);
            let as_status = facts.availability == Some(Some(status));
            let gone = (marked && facts.here_after_mark == Some(false)) || (known
                && facts.here_before_telling == Some(false));
            let never = facts.here == Some(false) || (facts.here == Some(true) && facts.marked
                == Some(false));
            &&& on is Sweep <==> !facts.swept
            &&& facts.swept ==> {
                &&& on is CheckHere <==> facts.here is None
                &&& on is MarkOnline <==> facts.here == Some(true) && facts.marked is None
                &&& on is CheckHereAfterMark <==> marked && facts.here_after_mark is None
                &&& on is TakeBack <==> gone
                &&& on is AskAvailability <==> stayed && facts.availability is None
                &&& on is CheckHereBeforeTelling <==> known && facts.here_before_telling is None
                &&& on == OnlineNext::Tell(status) <==> sure && as_status && !facts.told
                &&& on is OfferCalls <==> unknown || (sure && facts.told)
                &&& on is Stop <==> never
            }
            &&& set is CheckHere <==> facts.here is None
            &&& set is MarkOnline <==> facts.here == Some(true) && facts.marked is None
            &&& set is CheckHereAfterMark <==> marked && facts.here_after_mark is None
            &&& set is TakeBack <==> gone
            &&& set is AskAvailability <==> stayed && facts.availability is None
            &&& set is CheckHereBeforeTelling <==> known && facts.here_before_telling is None
            &&& set == OnlineNext::Tell(status) <==> sure && as_status && !facts.told
            &&& set is Stop <==> never || unknown || (sure && facts.told)
        }),
{
}

/// Somebody who goes is announced exactly if they were not back at any look; their calls are taken
/// and ended and their rooms left before, and each step waits for the one before it. Who is back after
/// the calls were taken gets them back, and who is back after the mark is marked online again.
pub proof fn goers_are_announced_while_gone(facts: OfflineFacts, status: AvailabilityStatus)
    ensures
        ({
            let next = on_user_disconnected_next(facts);
            let taken = facts.back == Some(false) && facts.calls_taken;
            let ended = taken && facts.back_after_take == Some(false) && facts.calls_ended;
            let left = ended && facts.back_after_calls == Some(false) && facts.rooms_left;
            let out = left && facts.back_after_rooms == Some(false);
            let known = out && facts.availability is Some && facts.availability->0 is Some;
            let gone = known && facts.back_after_availability == Some(false);
            let marked = gone && facts.marked == Some(true);
            &&& next is CheckBack <==> facts.back is None
            &&& next is TakeCalls <==> facts.back == Some(false) && !facts.calls_taken
            &&& next is CheckBackAfterTake <==> taken && facts.back_after_take is None
            &&& next is RestoreCalls <==> taken && facts.back_after_take == Some(true)
            &&& next is EndCalls <==> taken && facts.back_after_take == Some(false)
                && !facts.calls_ended
            &&& next is CheckBackAfterCalls <==> ended && facts.back_after_calls is None
            &&& next is LeaveRooms <==> ended && facts.back_after_calls == Some(false)
                && !facts.rooms_left
            &&& next is CheckBackAfterRooms <==> left && facts.back_after_rooms is None
            &&& next is AskAvailability <==> out && facts.availability is None
            &&& next is CheckBackAfterAvailability <==> known && facts.back_after_availability
                is None
            &&& next is MarkOffline <==> gone && facts.marked is None
            &&& next is CheckBackAfterMark <==> marked && facts.back_after_mark is None
            &&& next is TakeBack <==> marked && facts.back_after_mark == Some(true)
            &&& next == OfflineNext::Tell(status) <==> marked && facts.back_after_mark == Some(false)
                && facts.availability == Some(Some(status))
            &&& next is Stop <==> facts.back == Some(true) || (ended && facts.back_after_calls
                == Some(true)) || (left && facts.back_after_rooms == Some(true)) || (out
                && facts.availability == Some(None::<AvailabilityStatus>)) || (known
                && facts.back_after_availability == Some(true)) || (gone && facts.marked == Some(
                false,
            ))
        }),
{
}

/// Somebody who asks to be shown offline, over their only connection, goes the last part of the way:
/// no call is taken and no room is left.
pub proof fn shown_offline_goes_the_last_part(facts: OfflineFacts, status: AvailabilityStatus)
    ensures
        ({
            let next = set_offline_next(facts);
            let alone = facts.back == Some(false);
            let known = alone && facts.availability is Some && facts.availability->0 is Some;
            let gone = known && facts.back_after_availability == Some(false);
            let marked = gone && facts.marked == Some(true);
            &&& next is CheckBack <==> facts.back is None
            &&& next is AskAvailability <==> alone && facts.availability is None
            &&& next is CheckBackAfterAvailability <==> known && facts.back_after_availability
                is None
            &&& next is MarkOffline <==> gone && facts.marked is None
            &&& next is CheckBackAfterMark <==> marked && facts.back_after_mark is None
            &&& next is TakeBack <==> marked && facts.back_after_mark == Some(true)
            &&& next == OfflineNext::Tell(status) <==> marked && facts.back_after_mark == Some(false)
                && facts.availability == Some(Some(status))
            &&& next is Stop <==> facts.back == Some(true) || (alone && facts.availability == Some(
                None::<AvailabilityStatus>,
            )) || (known && facts.back_after_availability == Some(true)) || (gone && facts.marked
                == Some(false))
        }),
{
}

/// What the others are told of somebody is what was set and stored, and when they were seen last
/// exactly while they are not online.
pub proof fn status_news_say_what_is_stored(
    is_online: bool,
    status: AvailabilityStatus,
    last_seen: Option<i64>,
)
    ensures
        ({
            let n = status_news_of(is_online, status, last_seen);
            &&& n.is_online == is_online && n.status == status
            &&& is_online ==> n.last_seen is None
            &&& !is_online ==> n.last_seen == last_seen
        }),
{
}

/// A new status is stored, remembered and told, in this order, and told with what is then stored of
/// the user.
pub proof fn new_statuses_are_stored_and_told(
    user_id: Seq<char>,
    status: AvailabilityStatus,
    written: Option<bool>,
    remembered: bool,
    found: Option<Option<StoredPresence>>,
    id: ObjectId,
)
    requires
        parsed_id(user_id) == Some(id),
    ensures
        ({
            let next = set_status_next(user_id, status, written, remembered, found);
            let kept = written == Some(true) && remembered;
            &&& next == StatusNext::Write(id) <==> written is None
            &&& next is Remember <==> written == Some(true) && !remembered
            &&& next == StatusNext::FindUser(id) <==> kept && found is None
            &&& next is Tell <==> kept && found is Some && found->0 is Some
            &&& next is Tell ==> next->Tell_0.status == status && next->Tell_0.is_online
                == found->0->0.is_online && next->Tell_0.last_seen == if found->0->0.is_online {
                None
            } else {
                found->0->0.last_seen
            }
            &&& next is Stop <==> written == Some(false) || (kept && found == Some(
                None::<StoredPresence>,
            ))
        }),
{
}

/// Who is no identifier has no status to set.
pub proof fn unnamed_users_have_no_status(
    user_id: Seq<char>,
    status: AvailabilityStatus,
    written: Option<bool>,
    remembered: bool,
    found: Option<Option<StoredPresence>>,
)
    requires
        parsed_id(user_id) is None,
    ensures
        set_status_next(user_id, status, written, remembered, found) is Stop,
{
}

/// Somebody is here while they have a connection, and, if they came by one, are registered; somebody
/// who went with their last connection is back with any other, and somebody who only said so with a
/// second.
pub proof fn connections_say_who_is_here(registered: bool, connections: usize)
    ensures
        here_by(true, registered, connections) <==> registered && connections >= 1,
        here_by(false, registered, connections) <==> connections >= 1,
        back_by(true, registered, connections) <==> registered || connections >= 1,
        back_by(false, registered, connections) <==> connections >= 2,
{
}

} // verus!
