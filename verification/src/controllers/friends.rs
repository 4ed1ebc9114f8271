//! Invitations and friendships.
use vstd::prelude::*;
use crate::answers::{Answer, Change, Lookup};
use crate::controllers::conversation::{settle_conversation, SettleFacts,
    SettleNext};
use crate::ids::{hex_reads_back, parsed_id, ObjectId};
use crate::model::friend_requests::{FriendRequest, FriendRequestStatus};
use crate::model::users::User;
use crate::reply::{error_reply, message_reply, retry_error, Reply};
use crate::table::IdTable;
use crate::text::{self, opt_text, text_or_empty, trimmed};
use crate::time::{iso, rfc3339};
use crate::utils::user::json::{hex_opt, hex_opt_of};

verus! {

/// What somebody is told whom nobody may invite, whatever the reason.
pub const FRIEND_REQUEST_UNAVAILABLE: &'static str = "Nie można wysłać zaproszenia do tego użytkownika.";

/// Whether somebody can be invited.
pub fn recipient_available(user: &User) -> (r: bool)
    ensures
        r == user.may_log_in(),
{
    user.is_login_allowed()
}

/// The name of what became of an invitation.
pub open spec fn status_name(status: FriendRequestStatus) -> &'static str {
    match status {
        FriendRequestStatus::Pending => "pending",
        FriendRequestStatus::Accepted => "accepted",
        FriendRequestStatus::Rejected => "rejected",
    }
}

/// The name of what became of an invitation.
pub fn status_str(status: &FriendRequestStatus) -> (r: &'static str)
    ensures
        r == status_name(*status),
{
    match status {
        FriendRequestStatus::Pending => "pending",
        FriendRequestStatus::Accepted => "accepted",
        FriendRequestStatus::Rejected => "rejected",
    }
}

/// Where each user stands in a list: the last place where an identifier occurs.
pub open spec fn places(users: Seq<User>) -> Map<ObjectId, usize>
    decreases users.len(),
{
    if users.len() == 0 {
        Map::empty()
    } else {
        match users.last().id {
            Some(id) => places(users.drop_last()).insert(id, (users.len() - 1) as usize),
            None => places(users.drop_last()),
        }
    }
}

/// Where each user stands in a list.
pub fn fetch_users_map(users: &Vec<User>) -> (r: IdTable<usize>)
    ensures
        r.wf(),
        r.entries() == places(users@),
{
    let mut table: IdTable<usize> = IdTable::new();
    let mut i: usize = 0;
    while i < users.len()
        invariant
            i <= users.len(),
            table.wf(),
            table.entries() == places(users@.take(i as int)),
        decreases users.len() - i,
    {
        proof {
            assert(users@.take(i + 1).drop_last() =~= users@.take(i as int));
        }
        match users[i].id {
            Some(id) => table.insert(id, i),
            None => {},
        }
        i = i + 1;
    }
    proof {
        assert(users@.take(users@.len() as int) =~= users@);
    }
    table
}

/// The place of a user in a list is one where that user stands.
pub proof fn places_hold_the_users(users: Seq<User>, id: ObjectId)
    requires
        places(users).dom().contains(id),
        users.len() <= usize::MAX,
    ensures
        places(users)[id] < users.len(),
        users[places(users)[id] as int].id == Some(id),
    decreases users.len(),
{
    if users.len() > 0 {
        let rest = users.drop_last();
        if users.last().id != Some(id) {
            places_hold_the_users(rest, id);
            assert(rest[places(rest)[id] as int] == users[places(rest)[id] as int]);
        }
    }
}

/// Whom to invite.
pub struct SendFriendRequestBody {
    pub username: Option<String>,
}

/// What a lookup of somebody to invite said.
#[derive(Clone, Copy, Debug, PartialEq, Eq, Structural)]
pub enum RecipientLookup {
    Found { id: Option<ObjectId>, available: bool },
    Missing,
    Failed,
}

/// What a lookup of an invitation said.
#[derive(Clone, Copy, Debug, PartialEq, Eq, Structural)]
pub enum RequestLookup {
    Found(FriendRequest),
    Missing,
    Failed,
}

/// What is known so far about an invitation that somebody sends.
#[derive(Clone, Copy, Debug)]
pub struct SendFacts {
    pub recipient: Option<RecipientLookup>,
    /// Whether the two are friends.
    pub friends: Option<Answer>,
    /// An invitation between the two, either way.
    pub existing: Option<RequestLookup>,
    /// What became of accepting the invitation that came the other way.
    pub accepted: Option<Change>,
    /// Whether what is remembered of the two was forgotten.
    pub invalidated: bool,
    /// Whether a rejected invitation could be sent again.
    pub renewed: Option<bool>,
    /// Whether a new invitation could be stored.
    pub created: Option<bool>,
}

/// What to do next about an invitation that somebody sends.
#[derive(Clone, Copy, Debug)]
pub enum SendNext {
    Reply(Reply),
    FindRecipient,
    AskFriends { recipient: ObjectId },
    FindExisting { sender: ObjectId, recipient: ObjectId },
    /// Accept the invitation that came the other way, if it still waits.
    Accept { request: Option<ObjectId> },
    /// Forget what is remembered of the two.
    Invalidate { recipient: ObjectId },
    /// Answer that the two are friends now, with the new friend.
    AutoAccepted(Reply),
    /// Send a rejected invitation again.
    Renew { request: Option<ObjectId>, sender: ObjectId, recipient: ObjectId },
    /// Answer with the invitation that was sent again.
    Renewed { reply: Reply, sent: FriendRequest },
    Create { sender: ObjectId, recipient: ObjectId },
    /// Answer with the new invitation.
    Created(Reply),
}

/// What to do next about an invitation to somebody with whom there is one already.
pub open spec fn send_existing_next(sender: ObjectId, recipient: ObjectId, existing: FriendRequest, facts: &SendFacts) -> SendNext {
    match existing.status {
        FriendRequestStatus::Accepted => SendNext::Reply(
            error_reply(400, FRIEND_REQUEST_UNAVAILABLE),
        ),
        FriendRequestStatus::Pending => if existing.from == recipient {
            match facts.accepted {
                None => SendNext::Accept { request: existing.id },
                Some(Change::Unchanged) => SendNext::Reply(
                    error_reply(400, FRIEND_REQUEST_UNAVAILABLE),
                ),
                Some(Change::Failed) => SendNext::Reply(
                    retry_error(500, "Internal Server Error"),
                ),
                Some(Change::Changed) => if !facts.invalidated {
                    SendNext::Invalidate { recipient }
                } else {
                    SendNext::AutoAccepted(
                        message_reply(200, "Wzajemne zaproszenie — jesteście teraz znajomymi."),
                    )
                },
            }
        } else {
            SendNext::Reply(error_reply(400, FRIEND_REQUEST_UNAVAILABLE))
        },
        FriendRequestStatus::Rejected => match facts.renewed {
            None => SendNext::Renew { request: existing.id, sender, recipient },
            Some(false) => SendNext::Reply(retry_error(503, "Temporarily unavailable")),
            Some(true) => SendNext::Renewed {
                reply: message_reply(200, "Zaproszenie wysłane."),
                sent: existing,
            },
        },
    }
}

/// What to do next about an invitation to somebody with whom there is one already.
pub fn send_existing(sender: ObjectId, recipient: ObjectId, existing: FriendRequest, facts: &SendFacts) -> (r: SendNext)
    ensures
        r == send_existing_next(sender, recipient, existing, facts),
{
    match existing.status {
        FriendRequestStatus::Accepted => SendNext::Reply(
            error_reply(400, FRIEND_REQUEST_UNAVAILABLE),
        ),
        FriendRequestStatus::Pending => if existing.from == recipient {
            match facts.accepted {
                None => SendNext::Accept { request: existing.id },
                Some(Change::Unchanged) => SendNext::Reply(
                    error_reply(400, FRIEND_REQUEST_UNAVAILABLE),
                ),
                Some(Change::Failed) => SendNext::Reply(
                    retry_error(500, "Internal Server Error"),
                ),
                Some(Change::Changed) => if !facts.invalidated {
                    SendNext::Invalidate { recipient }
                } else {
                    SendNext::AutoAccepted(
                        message_reply(200, "Wzajemne zaproszenie — jesteście teraz znajomymi."),
                    )
                },
            }
        } else {
            SendNext::Reply(error_reply(400, FRIEND_REQUEST_UNAVAILABLE))
        },
        FriendRequestStatus::Rejected => match facts.renewed {
            None => SendNext::Renew { request: existing.id, sender, recipient },
            Some(false) => SendNext::Reply(retry_error(503, "Temporarily unavailable")),
            Some(true) => SendNext::Renewed {
                reply: message_reply(200, "Zaproszenie wysłane."),
                sent: existing,
            },
        },
    }
}

/// What to do next about an invitation that somebody sends. `normalized` is the normalised
/// name of whom they invite.
pub open spec fn send_friend_request_next(user_id: &Option<String>, body: &SendFriendRequestBody, normalized: Seq<char>, facts: &SendFacts) -> SendNext {
    match user_id {
        None => SendNext::Reply(error_reply(401, "Unauthorized")),
        Some(sender_id) => match parsed_id(sender_id@) {
            None => SendNext::Reply(error_reply(401, "Unauthorized")),
            Some(sender) => if trimmed(text_or_empty(body.username)).len() == 0 {
                SendNext::Reply(error_reply(400, "Podaj nazwę użytkownika (@username)."))
            } else if normalized.len() == 0 {
                SendNext::Reply(error_reply(400, "Nieprawidłowa nazwa użytkownika."))
            } else {
                match facts.recipient {
                    None => SendNext::FindRecipient,
                    Some(RecipientLookup::Missing) => SendNext::Reply(
                        error_reply(400, FRIEND_REQUEST_UNAVAILABLE),
                    ),
                    Some(RecipientLookup::Failed) => SendNext::Reply(
                        error_reply(500, "Internal Server Error"),
                    ),
                    Some(RecipientLookup::Found { id: None, .. }) => SendNext::Reply(
                        error_reply(500, "Internal Server Error"),
                    ),
                    Some(RecipientLookup::Found { id: Some(recipient), available }) => if !available
                        || recipient.hex() == sender_id@ {
                        SendNext::Reply(error_reply(400, FRIEND_REQUEST_UNAVAILABLE))
                    } else {
                        match (facts.friends, facts.existing) {
                            (None, _) => SendNext::AskFriends { recipient },
                            (Some(Answer::Yes), _) => SendNext::Reply(
                                error_reply(400, FRIEND_REQUEST_UNAVAILABLE),
                            ),
                            (Some(Answer::Failed), _) => SendNext::Reply(
                                retry_error(503, "Temporarily unavailable"),
                            ),
                            (Some(Answer::No), None) => SendNext::FindExisting { sender, recipient },
                            (Some(Answer::No), Some(RequestLookup::Failed)) => SendNext::Reply(
                                retry_error(503, "Temporarily unavailable"),
                            ),
                            (Some(Answer::No), Some(RequestLookup::Found(existing))) => send_existing_next(
                                sender,
                                recipient,
                                existing,
                                facts,
                            ),
                            (Some(Answer::No), Some(RequestLookup::Missing)) => match facts.created {
                                None => SendNext::Create { sender, recipient },
                                Some(true) => SendNext::Created(
                                    message_reply(201, "Zaproszenie wysłane."),
                                ),
                                Some(false) => SendNext::Reply(
                                    error_reply(500, "Internal Server Error"),
                                ),
                            },
                        }
                    },
                }
            },
        },
    }
}

/// What to do next about an invitation that somebody sends. `normalized` is the normalised
/// name of whom they invite.
pub fn send_friend_request(user_id: &Option<String>, body: &SendFriendRequestBody, normalized: &str, facts: &SendFacts) -> (r: SendNext)
    ensures
        r == send_friend_request_next(user_id, body, normalized@, facts),
{
    match user_id {
        None => SendNext::Reply(error_reply(401, "Unauthorized")),
        Some(sender_id) => match ObjectId::parse_str(sender_id) {
            None => SendNext::Reply(error_reply(401, "Unauthorized")),
            Some(sender) => if text::is_blank(
                text::or_empty(&body.username),
            ) {
                SendNext::Reply(error_reply(400, "Podaj nazwę użytkownika (@username)."))
            } else if normalized.is_empty() {
                SendNext::Reply(error_reply(400, "Nieprawidłowa nazwa użytkownika."))
            } else {
                match facts.recipient {
                    None => SendNext::FindRecipient,
                    Some(RecipientLookup::Missing) => SendNext::Reply(
                        error_reply(400, FRIEND_REQUEST_UNAVAILABLE),
                    ),
                    Some(RecipientLookup::Failed) => SendNext::Reply(
                        error_reply(500, "Internal Server Error"),
                    ),
                    Some(RecipientLookup::Found { id: None, .. }) => SendNext::Reply(
                        error_reply(500, "Internal Server Error"),
                    ),
                    Some(RecipientLookup::Found { id: Some(recipient), available }) => if !available
                        || text::same_text(&recipient.to_hex(), sender_id) {
                        SendNext::Reply(error_reply(400, FRIEND_REQUEST_UNAVAILABLE))
                    } else {
                        match (facts.friends, facts.existing) {
                            (None, _) => SendNext::AskFriends { recipient },
                            (Some(Answer::Yes), _) => SendNext::Reply(
                                error_reply(400, FRIEND_REQUEST_UNAVAILABLE),
                            ),
                            (Some(Answer::Failed), _) => SendNext::Reply(
                                retry_error(503, "Temporarily unavailable"),
                            ),
                            (Some(Answer::No), None) => SendNext::FindExisting { sender, recipient },
                            (Some(Answer::No), Some(RequestLookup::Failed)) => SendNext::Reply(
                                retry_error(503, "Temporarily unavailable"),
                            ),
                            (Some(Answer::No), Some(RequestLookup::Found(existing))) => send_existing(sender, recipient, existing, facts),
                            (Some(Answer::No), Some(RequestLookup::Missing)) => match facts.created {
                                None => SendNext::Create { sender, recipient },
                                Some(true) => SendNext::Created(
                                    message_reply(201, "Zaproszenie wysłane."),
                                ),
                                Some(false) => SendNext::Reply(
                                    error_reply(500, "Internal Server Error"),
                                ),
                            },
                        }
                    },
                }
            },
        },
    }
}

/// Nobody invites themselves, a friend, or an account that cannot be used; and an invitation is
/// made anew only if there is none between the two.
pub proof fn invitations_go_to_strangers(
    user_id: &Option<String>,
    body: &SendFriendRequestBody,
    normalized: Seq<char>,
    facts: &SendFacts,
)
    ensures
        send_friend_request_next(user_id, body, normalized, facts) matches SendNext::Create {
            sender,
            recipient,
        } ==> {
            &&& facts.friends == Some(Answer::No)
            &&& facts.existing == Some(RequestLookup::Missing)
            &&& facts.recipient == Some(
                RecipientLookup::Found { id: Some(recipient), available: true },
            )
            &&& user_id matches Some(t) && t@ != recipient.hex() && parsed_id(t@) == Some(sender)
        },
        send_friend_request_next(user_id, body, normalized, facts) matches SendNext::Renew {
            request,
            sender,
            recipient,
        } ==> {
            &&& facts.friends == Some(Answer::No)
            &&& facts.existing matches Some(RequestLookup::Found(old))
            &&& old.status == FriendRequestStatus::Rejected && old.id == request
        },
{
}

/// An invitation is accepted on the way only if it came from the one who is invited now, and
/// waits: two invitations that meet make a friendship.
pub proof fn meeting_invitations_make_friends(
    user_id: &Option<String>,
    body: &SendFriendRequestBody,
    normalized: Seq<char>,
    facts: &SendFacts,
)
    ensures
        send_friend_request_next(user_id, body, normalized, facts) matches SendNext::Accept {
            request,
        } ==> {
            &&& facts.existing matches Some(RequestLookup::Found(old))
            &&& old.status == FriendRequestStatus::Pending && old.id == request
            &&& facts.recipient == Some(
                RecipientLookup::Found { id: Some(old.from), available: true },
            )
        },
        send_friend_request_next(user_id, body, normalized, facts) is AutoAccepted
            ==> facts.accepted == Some(Change::Changed) && facts.invalidated,
{
}

/// Who asks learns nothing of why somebody cannot be invited: unknown and unusable accounts are
/// answered alike.
pub proof fn refusals_of_invitations_are_alike(
    user_id: &Option<String>,
    body: &SendFriendRequestBody,
    normalized: Seq<char>,
    facts: &SendFacts,
    id: ObjectId,
)
    ensures
        send_friend_request_next(
            user_id,
            body,
            normalized,
            &(SendFacts { recipient: Some(RecipientLookup::Missing), ..*facts }),
        ) == send_friend_request_next(
            user_id,
            body,
            normalized,
            &(SendFacts {
                recipient: Some(RecipientLookup::Found { id: Some(id), available: false }),
                ..*facts
            }),
        ),
{
}

/// What became of listing invitations or friendships.
#[derive(Clone, Copy, Debug, PartialEq, Eq, Structural)]
pub enum Listing {
    /// `empty`: there are none.
    Listed { empty: bool },
    /// The list broke off.
    Broken,
    Failed,
}

/// What to do next about showing invitations or friendships.
#[derive(Clone, Copy, Debug)]
pub enum ListingNext {
    Reply(Reply),
    /// Ask the store.
    Ask(ObjectId),
    /// Get the users that they name.
    FetchUsers,
    Show,
}

/// What to do next about showing invitations or friendships. `users` says whether the users
/// that they name could be found; where there are none, nobody is looked for.
pub open spec fn list_requests_next(user_id: &Option<String>, listed: Option<Listing>, users: Option<bool>) -> ListingNext {
    match user_id {
        None => ListingNext::Reply(error_reply(401, "Unauthorized")),
        Some(id) => match parsed_id(id@) {
            None => ListingNext::Reply(error_reply(401, "Unauthorized")),
            Some(uid) => match listed {
                None => ListingNext::Ask(uid),
                Some(Listing::Broken) => ListingNext::Reply(
                    error_reply(503, "Friends temporarily unavailable. Please retry."),
                ),
                Some(Listing::Failed) => ListingNext::Reply(
                    error_reply(500, "Internal Server Error"),
                ),
                Some(Listing::Listed { empty }) => if empty {
                    ListingNext::Show
                } else {
                    match users {
                        None => ListingNext::FetchUsers,
                        Some(true) => ListingNext::Show,
                        Some(false) => ListingNext::Reply(
                            error_reply(503, "Friends temporarily unavailable. Please retry."),
                        ),
                    }
                },
            },
        },
    }
}

/// What to do next about showing invitations or friendships. `users` says whether the users
/// that they name could be found; where there are none, nobody is looked for.
pub fn list_requests(user_id: &Option<String>, listed: Option<Listing>, users: Option<bool>) -> (r: ListingNext)
    ensures
        r == list_requests_next(user_id, listed, users),
{
    match user_id {
        None => ListingNext::Reply(error_reply(401, "Unauthorized")),
        Some(id) => match ObjectId::parse_str(id) {
            None => ListingNext::Reply(error_reply(401, "Unauthorized")),
            Some(uid) => match listed {
                None => ListingNext::Ask(uid),
                Some(Listing::Broken) => ListingNext::Reply(
                    error_reply(503, "Friends temporarily unavailable. Please retry."),
                ),
                Some(Listing::Failed) => ListingNext::Reply(
                    error_reply(500, "Internal Server Error"),
                ),
                Some(Listing::Listed { empty }) => if empty {
                    ListingNext::Show
                } else {
                    match users {
                        None => ListingNext::FetchUsers,
                        Some(true) => ListingNext::Show,
                        Some(false) => ListingNext::Reply(
                            error_reply(503, "Friends temporarily unavailable. Please retry."),
                        ),
                    }
                },
            },
        },
    }
}

/// What to do next about showing the invitations that somebody got.
pub fn get_received_requests(
    user_id: &Option<String>,
    listed: Option<Listing>,
    users: Option<bool>,
) -> (r: ListingNext)
    ensures
        r == list_requests_next(user_id, listed, users),
{
    list_requests(user_id, listed, users)
}

/// What to do next about showing the invitations that somebody sent.
pub fn get_sent_requests(
    user_id: &Option<String>,
    listed: Option<Listing>,
    users: Option<bool>,
) -> (r: ListingNext)
    ensures
        r == list_requests_next(user_id, listed, users),
{
    list_requests(user_id, listed, users)
}

/// What to do next about showing the friends of somebody.
pub fn get_friends(user_id: &Option<String>, listed: Option<Listing>, users: Option<bool>) -> (r:
    ListingNext)
    ensures
        r == list_requests_next(user_id, listed, users),
{
    list_requests(user_id, listed, users)
}

/// An invitation as it is shown. `user` is the place of the other one in the list of users.
pub struct RequestRow {
    pub id: Option<String>,
    pub user: usize,
    pub status: &'static str,
    pub created_at: Option<String>,
}

/// What is shown of an invitation.
#[verifier::ext_equal]
pub struct RequestRowView {
    pub id: Option<Seq<char>>,
    pub user: usize,
    pub status: &'static str,
    pub created_at: Option<Seq<char>>,
}

impl View for RequestRow {
    type V = RequestRowView;

    open spec fn view(&self) -> RequestRowView {
        RequestRowView {
            id: opt_text(self.id),
            user: self.user,
            status: self.status,
            created_at: opt_text(self.created_at),
        }
    }
}

/// What is shown of invitations.
pub open spec fn rows(v: Seq<RequestRow>) -> Seq<RequestRowView> {
    v.map_values(|x: RequestRow| x@)
}

/// The one whom an invitation shows: who sent it if it was received, else who got it.
pub open spec fn shown_party(r: FriendRequest, received: bool) -> ObjectId {
    if received {
        r.from
    } else {
        r.to
    }
}

/// What is shown of invitations: those whose other one is known, in order.
pub open spec fn request_rows_of(
    requests: Seq<FriendRequest>,
    users: Map<ObjectId, usize>,
    received: bool,
) -> Seq<RequestRowView>
    decreases requests.len(),
{
    if requests.len() == 0 {
        Seq::empty()
    } else {
        let before = request_rows_of(requests.drop_last(), users, received);
        let last = requests.last();
        if users.dom().contains(shown_party(last, received)) {
            before.push(
                RequestRowView {
                    id: hex_opt_of(last.id),
                    user: users[shown_party(last, received)],
                    status: status_name(last.status),
                    created_at: rfc3339(last.created_at),
                },
            )
        } else {
            before
        }
    }
}

/// Invitations as they are shown: those whose other one is known, in order.
pub fn request_rows(requests: &Vec<FriendRequest>, users: &Vec<User>, received: bool) -> (r: Vec<
    RequestRow,
>)
    ensures
        rows(r@) == request_rows_of(requests@, places(users@), received),
{
    let table = fetch_users_map(users);
    let mut out: Vec<RequestRow> = Vec::new();
    let mut i: usize = 0;
    proof {
        assert(rows(out@) =~= Seq::empty());
    }
    while i < requests.len()
        invariant
            i <= requests.len(),
            table.wf(),
            table.entries() == places(users@),
            rows(out@) == request_rows_of(requests@.take(i as int), places(users@), received),
        decreases requests.len() - i,
    {
        proof {
            assert(requests@.take(i + 1).drop_last() =~= requests@.take(i as int));
        }
        let q = requests[i];
        let party = if received {
            q.from
        } else {
            q.to
        };
        match table.get(party) {
            Some(place) => {
                let row = RequestRow {
                    id: hex_opt(q.id),
                    user: *place,
                    status: status_str(&q.status),
                    created_at: iso(q.created_at),
                };
                proof {
                    assert(rows(out@.push(row)) =~= rows(out@).push(row@));
                }
                out.push(row);
            },
            None => {},
        }
        i = i + 1;
    }
    proof {
        assert(requests@.take(requests@.len() as int) =~= requests@);
    }
    out
}

/// The places of users that are known, in the order of their identifiers.
pub open spec fn known_places_of(ids: Seq<ObjectId>, users: Map<ObjectId, usize>) -> Seq<usize>
    decreases ids.len(),
{
    if ids.len() == 0 {
        Seq::empty()
    } else {
        let before = known_places_of(ids.drop_last(), users);
        if users.dom().contains(ids.last()) {
            before.push(users[ids.last()])
        } else {
            before
        }
    }
}

/// The places of users that are known, in the order of their identifiers.
pub fn known_places(ids: &Vec<ObjectId>, users: &Vec<User>) -> (r: Vec<usize>)
    ensures
        r@ == known_places_of(ids@, places(users@)),
{
    let table = fetch_users_map(users);
    let mut out: Vec<usize> = Vec::new();
    let mut i: usize = 0;
    while i < ids.len()
        invariant
            i <= ids.len(),
            table.wf(),
            table.entries() == places(users@),
            out@ == known_places_of(ids@.take(i as int), places(users@)),
        decreases ids.len() - i,
    {
        proof {
            assert(ids@.take(i + 1).drop_last() =~= ids@.take(i as int));
        }
        match table.get(ids[i]) {
            Some(place) => out.push(*place),
            None => {},
        }
        i = i + 1;
    }
    proof {
        assert(ids@.take(ids@.len() as int) =~= ids@);
    }
    out
}

/// What somebody does with an invitation.
#[derive(Clone, Copy, Debug, PartialEq, Eq, Structural)]
pub enum RequestAction {
    Accept,
    Reject,
    Cancel,
}

/// What is known so far about what somebody does with an invitation.
#[derive(Clone, Copy, Debug)]
pub struct RequestFacts {
    pub request: Option<RequestLookup>,
    pub changed: Option<Change>,
    /// Whether what is remembered of the two was forgotten.
    pub invalidated: bool,
    /// Whether both accounts were found.
    pub both_found: Option<bool>,
    /// Whether both were told.
    pub told: bool,
}

/// What to do next about what somebody does with an invitation.
#[derive(Clone, Copy, Debug)]
pub enum RequestNext {
    Reply(Reply),
    FindRequest(ObjectId),
    /// Store what became of the invitation, if it still waits.
    Change { request: ObjectId, status: FriendRequestStatus },
    /// Forget what is remembered of the two.
    Invalidate { from: ObjectId },
    FindBoth { from: ObjectId, accepter: ObjectId },
    /// Tell both about the friendship, as
    /// [`friendship_added`](crate::controllers::notices::friendship_added) says; `full`: with what
    /// is shown of a friend, else with their identifiers alone.
    Tell { from: ObjectId, full: bool },
    /// Answer with the new friend.
    Accepted { reply: Reply, from: ObjectId, full: bool },
}

/// Who may do something with an invitation.
pub open spec fn party_of(r: FriendRequest, action: RequestAction) -> ObjectId {
    match action {
        RequestAction::Accept | RequestAction::Reject => r.to,
        RequestAction::Cancel => r.from,
    }
}

/// Who may do something with an invitation.
pub fn party(r: FriendRequest, action: RequestAction) -> (p: ObjectId)
    ensures
        p == party_of(r, action),
{
    match action {
        RequestAction::Accept | RequestAction::Reject => r.to,
        RequestAction::Cancel => r.from,
    }
}

/// What to do next once an invitation is accepted.
pub open spec fn after_acceptance_next(user_id: Seq<char>, request: FriendRequest, facts: &RequestFacts) -> RequestNext {
    if !facts.invalidated {
        RequestNext::Invalidate { from: request.from }
    } else {
        let found = match parsed_id(user_id) {
            Some(_) => facts.both_found,
            None => Some(false),
        };
        match (found, parsed_id(user_id)) {
            (None, Some(accepter)) => RequestNext::FindBoth { from: request.from, accepter },
            (None, None) => RequestNext::Tell { from: request.from, full: false },
            (Some(full), _) => if !facts.told {
                RequestNext::Tell { from: request.from, full }
            } else {
                RequestNext::Accepted {
                    reply: message_reply(200, "Zaproszenie zaakceptowane."),
                    from: request.from,
                    full,
                }
            },
        }
    }
}

/// What to do next once an invitation is accepted.
pub fn after_acceptance(user_id: &str, request: FriendRequest, facts: &RequestFacts) -> (r: RequestNext)
    ensures
        r == after_acceptance_next(user_id@, request, facts),
{
    if !facts.invalidated {
        RequestNext::Invalidate { from: request.from }
    } else {
        let found = match ObjectId::parse_str(user_id) {
            Some(_) => facts.both_found,
            None => Some(false),
        };
        match (found, ObjectId::parse_str(user_id)) {
            (None, Some(accepter)) => RequestNext::FindBoth { from: request.from, accepter },
            (None, None) => RequestNext::Tell { from: request.from, full: false },
            (Some(full), _) => if !facts.told {
                RequestNext::Tell { from: request.from, full }
            } else {
                RequestNext::Accepted {
                    reply: message_reply(200, "Zaproszenie zaakceptowane."),
                    from: request.from,
                    full,
                }
            },
        }
    }
}

/// What to do next about what somebody does with an invitation. `request_id` is the
/// identifier that the request names.
pub open spec fn answer_request_next(action: RequestAction, user_id: &Option<String>, request_id: Seq<char>, facts: &RequestFacts) -> RequestNext {
    match user_id {
        None => RequestNext::Reply(error_reply(401, "Unauthorized")),
        Some(uid) => match parsed_id(request_id) {
            None => RequestNext::Reply(error_reply(400, "Nieprawidłowe zaproszenie.")),
            Some(rid) => match facts.request {
                None => RequestNext::FindRequest(rid),
                Some(RequestLookup::Missing) => RequestNext::Reply(
                    error_reply(404, "Zaproszenie nie istnieje."),
                ),
                Some(RequestLookup::Failed) => RequestNext::Reply(
                    error_reply(500, "Internal Server Error"),
                ),
                Some(RequestLookup::Found(request)) => if party_of(request, action).hex() != uid@ {
                    RequestNext::Reply(error_reply(403, "Brak uprawnień do tego zaproszenia."))
                } else if request.status != FriendRequestStatus::Pending {
                    RequestNext::Reply(error_reply(400, "To zaproszenie nie jest już aktywne."))
                } else {
                    match facts.changed {
                        None => RequestNext::Change {
                            request: rid,
                            status: match action {
                                RequestAction::Accept => FriendRequestStatus::Accepted,
                                RequestAction::Reject => FriendRequestStatus::Rejected,
                                RequestAction::Cancel => FriendRequestStatus::Rejected,
                            },
                        },
                        Some(Change::Unchanged) => RequestNext::Reply(
                            error_reply(400, "To zaproszenie nie jest już aktywne."),
                        ),
                        Some(Change::Failed) => RequestNext::Reply(
                            retry_error(500, "Internal Server Error"),
                        ),
                        Some(Change::Changed) => match action {
                            RequestAction::Accept => after_acceptance_next(uid@, request, facts),
                            RequestAction::Reject => RequestNext::Reply(
                                message_reply(200, "Zaproszenie odrzucone."),
                            ),
                            RequestAction::Cancel => RequestNext::Reply(
                                message_reply(200, "Zaproszenie anulowane."),
                            ),
                        },
                    }
                },
            },
        },
    }
}

/// What to do next about what somebody does with an invitation. `request_id` is the
/// identifier that the request names.
pub fn answer_request(action: RequestAction, user_id: &Option<String>, request_id: &str, facts: &RequestFacts) -> (r: RequestNext)
    ensures
        r == answer_request_next(action, user_id, request_id@, facts),
{
    match user_id {
        None => RequestNext::Reply(error_reply(401, "Unauthorized")),
        Some(uid) => match ObjectId::parse_str(request_id) {
            None => RequestNext::Reply(error_reply(400, "Nieprawidłowe zaproszenie.")),
            Some(rid) => match facts.request {
                None => RequestNext::FindRequest(rid),
                Some(RequestLookup::Missing) => RequestNext::Reply(
                    error_reply(404, "Zaproszenie nie istnieje."),
                ),
                Some(RequestLookup::Failed) => RequestNext::Reply(
                    error_reply(500, "Internal Server Error"),
                ),
                Some(RequestLookup::Found(request)) => if !text::same_text(
                    &party(request, action).to_hex(),
                    uid,
                ) {
                    RequestNext::Reply(error_reply(403, "Brak uprawnień do tego zaproszenia."))
                } else if request.status != FriendRequestStatus::Pending {
                    RequestNext::Reply(error_reply(400, "To zaproszenie nie jest już aktywne."))
                } else {
                    match facts.changed {
                        None => RequestNext::Change {
                            request: rid,
                            status: match action {
                                RequestAction::Accept => FriendRequestStatus::Accepted,
                                RequestAction::Reject => FriendRequestStatus::Rejected,
                                RequestAction::Cancel => FriendRequestStatus::Rejected,
                            },
                        },
                        Some(Change::Unchanged) => RequestNext::Reply(
                            error_reply(400, "To zaproszenie nie jest już aktywne."),
                        ),
                        Some(Change::Failed) => RequestNext::Reply(
                            retry_error(500, "Internal Server Error"),
                        ),
                        Some(Change::Changed) => match action {
                            RequestAction::Accept => after_acceptance(uid, request, facts),
                            RequestAction::Reject => RequestNext::Reply(
                                message_reply(200, "Zaproszenie odrzucone."),
                            ),
                            RequestAction::Cancel => RequestNext::Reply(
                                message_reply(200, "Zaproszenie anulowane."),
                            ),
                        },
                    }
                },
            },
        },
    }
}

/// What to do next about somebody who accepts an invitation.
pub fn accept_friend_request(user_id: &Option<String>, request_id: &str, facts: &RequestFacts) -> (r:
    RequestNext)
    ensures
        r == answer_request_next(RequestAction::Accept, user_id, request_id@, facts),
{
    answer_request(RequestAction::Accept, user_id, request_id, facts)
}

/// What to do next about somebody who rejects an invitation.
pub fn reject_friend_request(user_id: &Option<String>, request_id: &str, facts: &RequestFacts) -> (r:
    RequestNext)
    ensures
        r == answer_request_next(RequestAction::Reject, user_id, request_id@, facts),
{
    answer_request(RequestAction::Reject, user_id, request_id, facts)
}

/// What to do next about somebody who takes an invitation back.
pub fn cancel_friend_request(user_id: &Option<String>, request_id: &str, facts: &RequestFacts) -> (r:
    RequestNext)
    ensures
        r == answer_request_next(RequestAction::Cancel, user_id, request_id@, facts),
{
    answer_request(RequestAction::Cancel, user_id, request_id, facts)
}

/// Only the one who got an invitation accepts or rejects it, only the one who sent it takes it
/// back, and only while it waits; no invitation becomes a waiting one this way.
pub proof fn invitations_are_answered_by_their_party(
    action: RequestAction,
    user_id: &Option<String>,
    request_id: Seq<char>,
    facts: &RequestFacts,
)
    ensures
        answer_request_next(action, user_id, request_id, facts) matches RequestNext::Change {
            request,
            status,
        } ==> {
            &&& parsed_id(request_id) == Some(request)
            &&& facts.request matches Some(RequestLookup::Found(q))
            &&& q.status == FriendRequestStatus::Pending
            &&& user_id matches Some(t) && t@ == party_of(q, action).hex()
            &&& status == FriendRequestStatus::Accepted <==> action == RequestAction::Accept
            &&& status != FriendRequestStatus::Pending
        },
{
}

/// Who accepted an invitation is answered only after both were told about the friendship.
pub proof fn both_hear_of_a_friendship(
    user_id: &Option<String>,
    request_id: Seq<char>,
    facts: &RequestFacts,
)
    ensures
        answer_request_next(RequestAction::Accept, user_id, request_id, facts) is Accepted
            ==> facts.told && facts.invalidated && facts.changed == Some(Change::Changed),
{
}

/// An invitation that waits between two.
#[derive(Clone, Copy, Debug, PartialEq, Eq, Structural)]
pub struct WaitingRequest {
    /// Whether it came from the other one.
    pub incoming: bool,
    pub id: Option<ObjectId>,
}

/// The name of the way an invitation goes.
pub open spec fn direction_name_of(incoming: bool) -> &'static str {
    if incoming {
        "incoming"
    } else {
        "outgoing"
    }
}

/// The name of the way an invitation goes.
pub fn direction_name(incoming: bool) -> (r: &'static str)
    ensures
        r == direction_name_of(incoming),
{
    if incoming {
        "incoming"
    } else {
        "outgoing"
    }
}

/// How two users stand to each other.
#[derive(Clone, Copy, Debug, PartialEq, Eq, Structural)]
pub struct Friendship {
    pub is_friend: bool,
    pub is_blocked_by_me: bool,
    pub is_blocked_by_other: bool,
    pub is_dm_blocked: bool,
    pub pending_request: Option<WaitingRequest>,
}

/// Whom blocks concern.
#[derive(Clone, Copy, Debug, PartialEq, Eq, Structural)]
pub enum BlockFlags {
    Known { by_me: bool, by_other: bool },
    Failed,
}

/// What is known so far about how two users stand to each other.
#[derive(Clone, Copy, Debug)]
pub struct CheckFacts {
    pub other: Option<Lookup>,
    pub friends: Option<Answer>,
    pub blocks: Option<BlockFlags>,
    /// An invitation from the other one that waits.
    pub incoming: Option<RequestLookup>,
    /// An invitation to the other one that waits.
    pub outgoing: Option<RequestLookup>,
}

/// What to do next about how two users stand to each other.
#[derive(Clone, Copy, Debug)]
pub enum CheckNext {
    Reply(Reply),
    FindOther(ObjectId),
    AskFriends,
    AskBlocks,
    FindIncoming { other: ObjectId, user: ObjectId },
    FindOutgoing { user: ObjectId, other: ObjectId },
    /// There is no such user: answer that they are no friend, and no more.
    ShowUnknown,
    Show(Friendship),
}

/// How two users who are not friends stand to each other.
pub open spec fn strangers(pending_request: Option<WaitingRequest>) -> Friendship {
    Friendship {
        is_friend: false,
        is_blocked_by_me: false,
        is_blocked_by_other: false,
        is_dm_blocked: false,
        pending_request,
    }
}

#[verifier::when_used_as_spec(strangers)]
fn as_strangers(pending_request: Option<WaitingRequest>) -> (r: Friendship)
    ensures
        r == strangers(pending_request),
{
    Friendship {
        is_friend: false,
        is_blocked_by_me: false,
        is_blocked_by_other: false,
        is_dm_blocked: false,
        pending_request,
    }
}

/// What to do next about how two users stand to each other. `other_id` is the identifier that
/// the request names.
pub open spec fn check_friendship_next(user_id: &Option<String>, other_id: Seq<char>, facts: &CheckFacts) -> CheckNext {
    match user_id {
        None => CheckNext::Reply(error_reply(401, "Unauthorized")),
        Some(id) => match (
            parsed_id(other_id),
            parsed_id(id@),
        ) {
            (Some(other), Some(user)) => match (facts.other, facts.friends) {
                (None, _) => CheckNext::FindOther(other),
                (Some(Lookup::Missing), _) => CheckNext::ShowUnknown,
                (Some(Lookup::Failed), _) => CheckNext::Reply(
                    retry_error(503, "Temporarily unavailable"),
                ),
                (Some(Lookup::Found), None) => CheckNext::AskFriends,
                (Some(Lookup::Found), Some(Answer::Failed)) => CheckNext::Reply(
                    retry_error(503, "Temporarily unavailable"),
                ),
                (Some(Lookup::Found), Some(Answer::Yes)) => match facts.blocks {
                    None => CheckNext::AskBlocks,
                    Some(BlockFlags::Failed) => CheckNext::Reply(
                        retry_error(503, "Temporarily unavailable"),
                    ),
                    Some(BlockFlags::Known { by_me, by_other }) => CheckNext::Show(
                        Friendship {
                            is_friend: true,
                            is_blocked_by_me: by_me,
                            is_blocked_by_other: by_other,
                            is_dm_blocked: by_me || by_other,
                            pending_request: None,
                        },
                    ),
                },
                (Some(Lookup::Found), Some(Answer::No)) => match (facts.incoming, facts.outgoing) {
                    (None, _) => CheckNext::FindIncoming { other, user },
                    (Some(RequestLookup::Found(q)), _) => CheckNext::Show(
                        strangers(Some(WaitingRequest { incoming: true, id: q.id })),
                    ),
                    (Some(RequestLookup::Failed), _) => CheckNext::Reply(
                        retry_error(503, "Temporarily unavailable"),
                    ),
                    (Some(RequestLookup::Missing), None) => CheckNext::FindOutgoing { user, other },
                    (Some(RequestLookup::Missing), Some(RequestLookup::Found(q))) => CheckNext::Show(
                        strangers(Some(WaitingRequest { incoming: false, id: q.id })),
                    ),
                    (Some(RequestLookup::Missing), Some(RequestLookup::Missing)) => CheckNext::Show(
                        strangers(None),
                    ),
                    (Some(RequestLookup::Missing), Some(RequestLookup::Failed)) => CheckNext::Reply(
                        retry_error(503, "Temporarily unavailable"),
                    ),
                },
            },
            _ => CheckNext::Reply(error_reply(400, "Nieprawidłowy identyfikator użytkownika.")),
        },
    }
}

/// What to do next about how two users stand to each other. `other_id` is the identifier that
/// the request names.
pub fn check_friendship(user_id: &Option<String>, other_id: &str, facts: &CheckFacts) -> (r: CheckNext)
    ensures
        r == check_friendship_next(user_id, other_id@, facts),
{
    match user_id {
        None => CheckNext::Reply(error_reply(401, "Unauthorized")),
        Some(id) => match (
            ObjectId::parse_str(other_id),
            ObjectId::parse_str(id),
        ) {
            (Some(other), Some(user)) => match (facts.other, facts.friends) {
                (None, _) => CheckNext::FindOther(other),
                (Some(Lookup::Missing), _) => CheckNext::ShowUnknown,
                (Some(Lookup::Failed), _) => CheckNext::Reply(
                    retry_error(503, "Temporarily unavailable"),
                ),
                (Some(Lookup::Found), None) => CheckNext::AskFriends,
                (Some(Lookup::Found), Some(Answer::Failed)) => CheckNext::Reply(
                    retry_error(503, "Temporarily unavailable"),
                ),
                (Some(Lookup::Found), Some(Answer::Yes)) => match facts.blocks {
                    None => CheckNext::AskBlocks,
                    Some(BlockFlags::Failed) => CheckNext::Reply(
                        retry_error(503, "Temporarily unavailable"),
                    ),
                    Some(BlockFlags::Known { by_me, by_other }) => CheckNext::Show(
                        Friendship {
                            is_friend: true,
                            is_blocked_by_me: by_me,
                            is_blocked_by_other: by_other,
                            is_dm_blocked: by_me || by_other,
                            pending_request: None,
                        },
                    ),
                },
                (Some(Lookup::Found), Some(Answer::No)) => match (facts.incoming, facts.outgoing) {
                    (None, _) => CheckNext::FindIncoming { other, user },
                    (Some(RequestLookup::Found(q)), _) => CheckNext::Show(
                        as_strangers(Some(WaitingRequest { incoming: true, id: q.id })),
                    ),
                    (Some(RequestLookup::Failed), _) => CheckNext::Reply(
                        retry_error(503, "Temporarily unavailable"),
                    ),
                    (Some(RequestLookup::Missing), None) => CheckNext::FindOutgoing { user, other },
                    (Some(RequestLookup::Missing), Some(RequestLookup::Found(q))) => CheckNext::Show(
                        as_strangers(Some(WaitingRequest { incoming: false, id: q.id })),
                    ),
                    (Some(RequestLookup::Missing), Some(RequestLookup::Missing)) => CheckNext::Show(
                        as_strangers(None),
                    ),
                    (Some(RequestLookup::Missing), Some(RequestLookup::Failed)) => CheckNext::Reply(
                        retry_error(503, "Temporarily unavailable"),
                    ),
                },
            },
            _ => CheckNext::Reply(error_reply(400, "Nieprawidłowy identyfikator użytkownika.")),
        },
    }
}

/// What is shown of how two users stand to each other fits together: the conversation is blocked
/// if one of them blocked the other, blocks are shown of friends only, and waiting invitations
/// of others only.
pub proof fn shown_friendships_fit_together(
    user_id: &Option<String>,
    other_id: Seq<char>,
    facts: &CheckFacts,
)
    ensures
        check_friendship_next(user_id, other_id, facts) matches CheckNext::Show(f) ==> {
            &&& f.is_friend <==> facts.friends == Some(Answer::Yes)
            &&& f.is_dm_blocked <==> f.is_blocked_by_me || f.is_blocked_by_other
            &&& f.is_dm_blocked ==> f.is_friend
            &&& f.is_friend ==> f.pending_request is None
        },
{
}

/// What is known so far about the end of a friendship.
#[derive(Clone, Copy, Debug)]
pub struct RemoveFacts {
    pub friendship: Option<RequestLookup>,
    pub deleted: Option<Change>,
    /// Whether what is remembered of the two was forgotten.
    pub invalidated: bool,
    /// Whether a call between the two was ended, if there was one.
    pub call_ended: bool,
    /// The time before anything is wiped, in milliseconds.
    pub wipe_at: Option<i64>,
    /// Whether both were told that they are no longer friends.
    pub told: bool,
    /// Whether the messages between the two could be wiped.
    pub wiped: Option<bool>,
    /// Whether the files of those messages were seen to.
    pub files_cleaned: bool,
    /// Whether the last message of the conversation was forgotten.
    pub tip_cleared: bool,
    pub settle: SettleFacts,
}

/// What to do next about the end of a friendship.
#[derive(Clone, Copy, Debug)]
pub enum RemoveFriendNext {
    Reply(Reply),
    FindFriendship { user: ObjectId, friend: ObjectId },
    Delete { friendship: Option<ObjectId> },
    /// Forget what is remembered of the two.
    Invalidate,
    /// End the call between the two, if there is one, because they are no longer friends.
    EndCall,
    /// Tell both that they are no longer friends, as
    /// [`friendship_removed`](crate::controllers::notices::friendship_removed) says.
    TellRemoved,
    /// Note what time it is.
    TakeTime,
    /// Wipe the messages of
    /// [`MessageFilter::conversation`](crate::model::messages::MessageFilter::conversation).
    Wipe { user: ObjectId, friend: ObjectId },
    CleanFiles,
    /// Forget the last message of the conversation, unless it is newer than this.
    ClearTip { user: ObjectId, friend: ObjectId, at_most: i64 },
    /// Go on with what follows once the messages were wiped.
    Settle(SettleNext),
}

/// What to do next once a friendship is deleted. Messages that could not be wiped do not make
/// it last.
pub open spec fn after_removal_next(user: ObjectId, friend: ObjectId, facts: &RemoveFacts) -> RemoveFriendNext {
    if !facts.invalidated {
        RemoveFriendNext::Invalidate
    } else if !facts.call_ended {
        RemoveFriendNext::EndCall
    } else {
        match (facts.wipe_at, facts.wiped) {
            (None, _) => RemoveFriendNext::TakeTime,
            (Some(at_most), wiped) => if !facts.told {
                RemoveFriendNext::TellRemoved
            } else {
                match wiped {
                    None => RemoveFriendNext::Wipe { user, friend },
                    Some(false) => RemoveFriendNext::Reply(
                        message_reply(200, "Kontakt został usunięty."),
                    ),
                    Some(true) => if !facts.files_cleaned {
                        RemoveFriendNext::CleanFiles
                    } else if !facts.tip_cleared {
                        RemoveFriendNext::ClearTip { user, friend, at_most }
                    } else {
                        match settle_conversation(facts.settle) {
                            SettleNext::Done => RemoveFriendNext::Reply(
                                message_reply(200, "Kontakt został usunięty."),
                            ),
                            SettleNext::CountFailed => if facts.settle.unread_told {
                                RemoveFriendNext::Reply(
                                    message_reply(200, "Kontakt został usunięty."),
                                )
                            } else {
                                RemoveFriendNext::Settle(SettleNext::InvalidateUnread)
                            },
                            more => RemoveFriendNext::Settle(more),
                        }
                    },
                }
            },
        }
    }
}

/// What to do next once a friendship is deleted. Messages that could not be wiped do not make
/// it last.
pub fn after_removal(user: ObjectId, friend: ObjectId, facts: &RemoveFacts) -> (r: RemoveFriendNext)
    ensures
        r == after_removal_next(user, friend, facts),
{
    if !facts.invalidated {
        RemoveFriendNext::Invalidate
    } else if !facts.call_ended {
        RemoveFriendNext::EndCall
    } else {
        match (facts.wipe_at, facts.wiped) {
            (None, _) => RemoveFriendNext::TakeTime,
            (Some(at_most), wiped) => if !facts.told {
                RemoveFriendNext::TellRemoved
            } else {
                match wiped {
                    None => RemoveFriendNext::Wipe { user, friend },
                    Some(false) => RemoveFriendNext::Reply(
                        message_reply(200, "Kontakt został usunięty."),
                    ),
                    Some(true) => if !facts.files_cleaned {
                        RemoveFriendNext::CleanFiles
                    } else if !facts.tip_cleared {
                        RemoveFriendNext::ClearTip { user, friend, at_most }
                    } else {
                        match settle_conversation(facts.settle) {
                            SettleNext::Done => RemoveFriendNext::Reply(
                                message_reply(200, "Kontakt został usunięty."),
                            ),
                            SettleNext::CountFailed => if facts.settle.unread_told {
                                RemoveFriendNext::Reply(
                                    message_reply(200, "Kontakt został usunięty."),
                                )
                            } else {
                                RemoveFriendNext::Settle(SettleNext::InvalidateUnread)
                            },
                            more => RemoveFriendNext::Settle(more),
                        }
                    },
                }
            },
        }
    }
}

/// What to do next about a friendship that is gone already: both are told all the same, since
/// one of them may still show it, and then it is answered.
pub open spec fn already_gone_next(facts: &RemoveFacts) -> RemoveFriendNext {
    if !facts.told {
        RemoveFriendNext::TellRemoved
    } else {
        RemoveFriendNext::Reply(error_reply(404, "Ten użytkownik nie jest w Twoich kontaktach."))
    }
}

/// What to do next about a friendship that is gone already: both are told all the same, since
/// one of them may still show it, and then it is answered.
pub fn already_gone(facts: &RemoveFacts) -> (r: RemoveFriendNext)
    ensures
        r == already_gone_next(facts),
{
    if !facts.told {
        RemoveFriendNext::TellRemoved
    } else {
        RemoveFriendNext::Reply(error_reply(404, "Ten użytkownik nie jest w Twoich kontaktach."))
    }
}

/// What to do next about the end of a friendship. `friend_id` is the identifier that the
/// request names.
pub open spec fn remove_friend_next(user_id: &Option<String>, friend_id: Seq<char>, facts: &RemoveFacts) -> RemoveFriendNext {
    match user_id {
        None => RemoveFriendNext::Reply(error_reply(401, "Unauthorized")),
        Some(id) => match (
            parsed_id(friend_id),
            parsed_id(id@),
        ) {
            (Some(friend), Some(user)) => if friend_id == id@ {
                RemoveFriendNext::Reply(error_reply(400, "Nie możesz usunąć siebie z kontaktów."))
            } else {
                match (facts.friendship, facts.deleted) {
                    (None, _) => RemoveFriendNext::FindFriendship { user, friend },
                    (Some(RequestLookup::Failed), _) => RemoveFriendNext::Reply(
                        retry_error(503, "Temporarily unavailable"),
                    ),
                    (Some(RequestLookup::Missing), _) => already_gone_next(facts),
                    (Some(RequestLookup::Found(q)), None) => RemoveFriendNext::Delete {
                        friendship: q.id,
                    },
                    (Some(RequestLookup::Found(_)), Some(Change::Unchanged)) =>
                        already_gone_next(facts),
                    (Some(RequestLookup::Found(_)), Some(Change::Failed)) =>
                        RemoveFriendNext::Reply(retry_error(500, "Failed to remove friend")),
                    (Some(RequestLookup::Found(_)), Some(Change::Changed)) =>
                        after_removal_next(user, friend, facts),
                }
            },
            _ => RemoveFriendNext::Reply(
                error_reply(400, "Nieprawidłowy identyfikator użytkownika."),
            ),
        },
    }
}

/// What to do next about the end of a friendship. `friend_id` is the identifier that the
/// request names.
pub fn remove_friend(user_id: &Option<String>, friend_id: &str, facts: &RemoveFacts) -> (r: RemoveFriendNext)
    ensures
        r == remove_friend_next(user_id, friend_id@, facts),
{
    match user_id {
        None => RemoveFriendNext::Reply(error_reply(401, "Unauthorized")),
        Some(id) => match (
            ObjectId::parse_str(friend_id),
            ObjectId::parse_str(id),
        ) {
            (Some(friend), Some(user)) => if text::same_text(friend_id, id) {
                RemoveFriendNext::Reply(error_reply(400, "Nie możesz usunąć siebie z kontaktów."))
            } else {
                match (facts.friendship, facts.deleted) {
                    (None, _) => RemoveFriendNext::FindFriendship { user, friend },
                    (Some(RequestLookup::Failed), _) => RemoveFriendNext::Reply(
                        retry_error(503, "Temporarily unavailable"),
                    ),
                    (Some(RequestLookup::Missing), _) => already_gone(facts),
                    (Some(RequestLookup::Found(q)), None) => RemoveFriendNext::Delete {
                        friendship: q.id,
                    },
                    (Some(RequestLookup::Found(_)), Some(Change::Unchanged)) =>
                        already_gone(facts),
                    (Some(RequestLookup::Found(_)), Some(Change::Failed)) =>
                        RemoveFriendNext::Reply(retry_error(500, "Failed to remove friend")),
                    (Some(RequestLookup::Found(_)), Some(Change::Changed)) =>
                        after_removal(user, friend, facts),
                }
            },
            _ => RemoveFriendNext::Reply(
                error_reply(400, "Nieprawidłowy identyfikator użytkownika."),
            ),
        },
    }
}

/// Once a friendship is deleted, both are told before anything is wiped and before it is
/// answered, and the answer says that it worked, whatever becomes of the messages.
pub proof fn removals_are_told_whatever_fails(
    user_id: &Option<String>,
    friend_id: Seq<char>,
    facts: &RemoveFacts,
)
    requires
        facts.deleted == Some(Change::Changed),
        facts.friendship matches Some(RequestLookup::Found(_)),
        user_id matches Some(t) && t@ != friend_id && parsed_id(t@) is Some,
        parsed_id(friend_id) is Some,
    ensures
        remove_friend_next(user_id, friend_id, facts) matches RemoveFriendNext::Reply(reply)
            ==> facts.told && facts.invalidated && facts.call_ended && reply == message_reply(
            200,
            "Kontakt został usunięty.",
        ),
        remove_friend_next(user_id, friend_id, facts) is Wipe ==> facts.told,
{
}

/// Where the friendship is gone already, or is gone by the time it is deleted, both are told of
/// it before it is answered that there is none.
pub proof fn vanished_friendships_are_told(
    user_id: &Option<String>,
    friend_id: Seq<char>,
    facts: &RemoveFacts,
)
    requires
        facts.friendship == Some(RequestLookup::Missing) || (facts.friendship matches Some(
            RequestLookup::Found(_),
        ) && facts.deleted == Some(Change::Unchanged)),
        user_id matches Some(t) && t@ != friend_id && parsed_id(t@) is Some,
        parsed_id(friend_id) is Some,
    ensures
        !facts.told ==> remove_friend_next(user_id, friend_id, facts) is TellRemoved,
        remove_friend_next(user_id, friend_id, facts) matches RemoveFriendNext::Reply(reply)
            ==> facts.told && reply == error_reply(
            404,
            "Ten użytkownik nie jest w Twoich kontaktach.",
        ),
{
}

/// Messages are wiped only of those who were friends, after the friendship was deleted.
pub proof fn only_ended_friendships_are_wiped(
    user_id: &Option<String>,
    friend_id: Seq<char>,
    facts: &RemoveFacts,
)
    ensures
        remove_friend_next(user_id, friend_id, facts) is Wipe || remove_friend_next(
            user_id,
            friend_id,
            facts,
        ) is Settle ==> {
            &&& facts.deleted == Some(Change::Changed)
            &&& facts.friendship matches Some(RequestLookup::Found(_))
            &&& user_id matches Some(t) && t@ != friend_id
        },
{
}

/// The identifier of whoever accepts an invitation can always be read: it is the text of the
/// identifier that the invitation names.
pub proof fn accepters_are_identified(q: FriendRequest, user_id: Seq<char>)
    requires
        user_id == q.to.hex(),
    ensures
        parsed_id(user_id) == Some(q.to),
{
    hex_reads_back(q.to);
}

/// The last message of the conversation of former friends is forgotten only once their messages
/// are wiped, and only up to the time that was taken before: what is sent meanwhile stays.
pub proof fn former_friends_keep_what_is_newer(
    user_id: &Option<String>,
    friend_id: Seq<char>,
    facts: &RemoveFacts,
)
    ensures
        match remove_friend_next(user_id, friend_id, facts) {
            RemoveFriendNext::TakeTime => facts.wipe_at is None,
            RemoveFriendNext::Wipe { user, friend } => {
                &&& facts.wipe_at is Some
                &&& facts.wiped is None
                &&& parsed_id(friend_id) == Some(friend)
                &&& parsed_id(user_id->0@) == Some(user)
            },
            RemoveFriendNext::ClearTip { user, friend, at_most } => {
                &&& facts.wipe_at == Some(at_most)
                &&& facts.wiped == Some(true)
                &&& parsed_id(friend_id) == Some(friend)
                &&& parsed_id(user_id->0@) == Some(user)
            },
            _ => true,
        },
{
}

/// Whether somebody asks for an invitation: they are known by an identifier, and name somebody.
pub open spec fn asks_to_invite(
    user_id: &Option<String>,
    body: &SendFriendRequestBody,
    normalized: Seq<char>,
    sender: ObjectId,
) -> bool {
    &&& *user_id is Some && parsed_id(user_id->0@) == Some(sender)
    &&& trimmed(text_or_empty(body.username)).len() > 0
    &&& normalized.len() > 0
}

/// What an invitation comes to, outcome by outcome: who is invited is looked for, must be somebody
/// else who can be used and is no friend, and then an invitation that is there decides: one that came
/// the other way and waits is accepted, a rejected one is sent again, and where there is none a new one
/// is made.
pub proof fn invitations_are_sent_or_met(
    user_id: &Option<String>,
    body: &SendFriendRequestBody,
    normalized: Seq<char>,
    facts: &SendFacts,
    sender: ObjectId,
    recipient: ObjectId,
    old_one: FriendRequest,
)
    requires
        asks_to_invite(user_id, body, normalized, sender),
        facts.recipient matches Some(RecipientLookup::Found { id, .. }) ==> id == Some(recipient),
        facts.existing matches Some(RequestLookup::Found(q)) ==> q == old_one,
    ensures
        ({
            let next = send_friend_request_next(user_id, body, normalized, facts);
            let open = facts.recipient == Some(
                RecipientLookup::Found { id: Some(recipient), available: true },
            ) && recipient.hex() != user_id->0@;
            let stranger = open && facts.friends == Some(Answer::No);
            let old = stranger && facts.existing == Some(RequestLookup::Found(old_one));
            let meets = old && old_one.status == FriendRequestStatus::Pending && old_one.from
                == recipient;
            let rejected = old && old_one.status == FriendRequestStatus::Rejected;
            let none = stranger && facts.existing == Some(RequestLookup::Missing);
            let made = meets && facts.accepted == Some(Change::Changed);
            &&& next is FindRecipient <==> facts.recipient is None
            &&& next == (SendNext::AskFriends { recipient }) <==> open && facts.friends is None
            &&& next == (SendNext::FindExisting { sender, recipient }) <==> stranger && facts.existing
                is None
            &&& next == (SendNext::Accept { request: old_one.id }) <==> meets && facts.accepted
                is None
            &&& next is Accept ==> meets && facts.accepted is None
            &&& next == (SendNext::Invalidate { recipient }) <==> made && !facts.invalidated
            &&& next is AutoAccepted <==> made && facts.invalidated
            &&& next is AutoAccepted ==> next == SendNext::AutoAccepted(
                crate::reply::message_reply_of(
                    200,
                    "Wzajemne zaproszenie — jesteście teraz znajomymi.",
                ),
            )
            &&& next == (SendNext::Renew { request: old_one.id, sender, recipient }) <==> rejected
                && facts.renewed is None
            &&& next is Renewed <==> rejected && facts.renewed == Some(true)
            &&& next is Renewed ==> next == (SendNext::Renewed {
                reply: crate::reply::message_reply_of(200, "Zaproszenie wysłane."),
                sent: old_one,
            })
            &&& next == (SendNext::Create { sender, recipient }) <==> none && facts.created is None
            &&& next is Created <==> none && facts.created == Some(true)
            &&& next is Created ==> next == SendNext::Created(
                crate::reply::message_reply_of(201, "Zaproszenie wysłane."),
            )
        }),
{
}

/// Why an invitation cannot be sent, reason by reason.
pub proof fn refused_invitations_say_why(
    user_id: &Option<String>,
    body: &SendFriendRequestBody,
    normalized: Seq<char>,
    facts: &SendFacts,
    sender: ObjectId,
    recipient: ObjectId,
    available: bool,
    old_one: FriendRequest,
)
    requires
        asks_to_invite(user_id, body, normalized, sender),
    ensures
        ({
            let next = send_friend_request_next(user_id, body, normalized, facts);
            let found = facts.recipient == Some(
                RecipientLookup::Found { id: Some(recipient), available },
            );
            let open = found && available && recipient.hex() != user_id->0@;
            let stranger = open && facts.friends == Some(Answer::No);
            let old = stranger && facts.existing == Some(RequestLookup::Found(old_one));
            let waits = old && old_one.status == FriendRequestStatus::Pending;
            let no = SendNext::Reply(
                crate::reply::error_reply_of(
                    400,
                    "Nie można wysłać zaproszenia do tego użytkownika.",
                ),
            );
            let later = SendNext::Reply(
                crate::reply::retry_error_of(503, "Temporarily unavailable"),
            );
            let failed = SendNext::Reply(
                crate::reply::error_reply_of(500, "Internal Server Error"),
            );
            &&& facts.recipient == Some(RecipientLookup::Missing) ==> next == no
            &&& facts.recipient == Some(RecipientLookup::Failed) ==> next == failed
            &&& found && !open ==> next == no
            &&& open && facts.friends == Some(Answer::Yes) ==> next == no
            &&& open && facts.friends == Some(Answer::Failed) ==> next == later
            &&& stranger && facts.existing == Some(RequestLookup::Failed) ==> next == later
            &&& old && old_one.status == FriendRequestStatus::Accepted ==> next == no
            &&& waits && old_one.from != recipient ==> next == no
            &&& waits && old_one.from == recipient && facts.accepted == Some(Change::Unchanged)
                ==> next == no
            &&& waits && old_one.from == recipient && facts.accepted == Some(Change::Failed) ==> next
                == SendNext::Reply(crate::reply::retry_error_of(500, "Internal Server Error"))
            &&& old && old_one.status == FriendRequestStatus::Rejected && facts.renewed == Some(
                false,
            ) ==> next == later
            &&& stranger && facts.existing == Some(RequestLookup::Missing) && facts.created == Some(
                false,
            ) ==> next == failed
        }),
{
}

/// Who is not known, names nobody or names something that is no name is answered before anything is
/// looked for.
pub proof fn incomplete_invitations_are_answered_at_once(
    user_id: &Option<String>,
    body: &SendFriendRequestBody,
    normalized: Seq<char>,
    facts: &SendFacts,
)
    ensures
        ({
            let next = send_friend_request_next(user_id, body, normalized, facts);
            let known = *user_id is Some && parsed_id(user_id->0@) is Some;
            let named = trimmed(text_or_empty(body.username)).len() > 0;
            &&& !known ==> next == SendNext::Reply(
                crate::reply::error_reply_of(401, "Unauthorized"),
            )
            &&& known && !named ==> next == SendNext::Reply(
                crate::reply::error_reply_of(400, "Podaj nazwę użytkownika (@username)."),
            )
            &&& known && named && normalized.len() == 0 ==> next == SendNext::Reply(
                crate::reply::error_reply_of(400, "Nieprawidłowa nazwa użytkownika."),
            )
        }),
{
}

/// What showing invitations or friends comes to, outcome by outcome: they are listed, then the users
/// that they name are fetched unless there are none, and then they are shown.
pub proof fn invitations_are_listed_and_shown(
    user_id: &Option<String>,
    listed: Option<Listing>,
    users: Option<bool>,
    uid: ObjectId,
)
    ensures
        ({
            let next = list_requests_next(user_id, listed, users);
            let known = *user_id is Some && parsed_id(user_id->0@) is Some;
            let some = known && listed == Some(Listing::Listed { empty: false });
            &&& next == ListingNext::Ask(uid) <==> *user_id is Some && parsed_id(user_id->0@)
                == Some(uid) && listed is None
            &&& next is FetchUsers <==> some && users is None
            &&& next is Show <==> known && (listed == Some(Listing::Listed { empty: true }) || (some
                && users == Some(true)))
            &&& !known ==> next == ListingNext::Reply(
                crate::reply::error_reply_of(401, "Unauthorized"),
            )
            &&& (known && listed == Some(Listing::Broken)) || (some && users == Some(false)) ==> next
                == ListingNext::Reply(
                crate::reply::error_reply_of(503, "Friends temporarily unavailable. Please retry."),
            )
            &&& known && listed == Some(Listing::Failed) ==> next == ListingNext::Reply(
                crate::reply::error_reply_of(500, "Internal Server Error"),
            )
        }),
{
    assert(users is Some ==> users == Some(users->0));
}

/// What becomes of an invitation that somebody answers or takes back, outcome by outcome: it is looked
/// for, must be theirs to answer and wait, and is then stored as accepted or rejected.
pub proof fn waiting_invitations_are_settled(
    action: RequestAction,
    user_id: &Option<String>,
    request_id: Seq<char>,
    facts: &RequestFacts,
    rid: ObjectId,
    q: FriendRequest,
)
    requires
        *user_id is Some,
        parsed_id(request_id) == Some(rid),
        facts.request matches Some(RequestLookup::Found(f)) ==> f == q,
    ensures
        ({
            let next = answer_request_next(action, user_id, request_id, facts);
            let found = facts.request == Some(RequestLookup::Found(q));
            let whose = if action == RequestAction::Cancel {
                q.from
            } else {
                q.to
            };
            let own = found && whose.hex() == user_id->0@;
            let waits = own && q.status == FriendRequestStatus::Pending;
            let status = if action == RequestAction::Accept {
                FriendRequestStatus::Accepted
            } else {
                FriendRequestStatus::Rejected
            };
            &&& next == RequestNext::FindRequest(rid) <==> facts.request is None
            &&& next == (RequestNext::Change { request: rid, status }) <==> waits && facts.changed
                is None
            &&& next is Change ==> waits && facts.changed is None
            &&& facts.request == Some(RequestLookup::Missing) ==> next == RequestNext::Reply(
                crate::reply::error_reply_of(404, "Zaproszenie nie istnieje."),
            )
            &&& facts.request == Some(RequestLookup::Failed) ==> next == RequestNext::Reply(
                crate::reply::error_reply_of(500, "Internal Server Error"),
            )
            &&& found && !own ==> next == RequestNext::Reply(
                crate::reply::error_reply_of(403, "Brak uprawnień do tego zaproszenia."),
            )
            &&& (own && !waits) || (waits && facts.changed == Some(Change::Unchanged)) ==> next
                == RequestNext::Reply(
                crate::reply::error_reply_of(400, "To zaproszenie nie jest już aktywne."),
            )
            &&& waits && facts.changed == Some(Change::Failed) ==> next == RequestNext::Reply(
                crate::reply::retry_error_of(500, "Internal Server Error"),
            )
            &&& waits && facts.changed == Some(Change::Changed) && action == RequestAction::Reject
                ==> next == RequestNext::Reply(
                crate::reply::message_reply_of(200, "Zaproszenie odrzucone."),
            )
            &&& waits && facts.changed == Some(Change::Changed) && action == RequestAction::Cancel
                ==> next == RequestNext::Reply(
                crate::reply::message_reply_of(200, "Zaproszenie anulowane."),
            )
        }),
{
}

/// Once an invitation is accepted, what is remembered of the two is forgotten, both are looked for and
/// told of the friendship, and then it is answered with the one who sent it; what both are shown is
/// whole exactly if both were found.
pub proof fn accepted_invitations_are_told(
    user_id: &Option<String>,
    request_id: Seq<char>,
    facts: &RequestFacts,
    rid: ObjectId,
    q: FriendRequest,
    full: bool,
)
    requires
        *user_id is Some,
        parsed_id(request_id) == Some(rid),
        facts.request == Some(RequestLookup::Found(q)),
        q.to.hex() == user_id->0@,
        q.status == FriendRequestStatus::Pending,
        facts.changed == Some(Change::Changed),
    ensures
        ({
            let next = answer_request_next(RequestAction::Accept, user_id, request_id, facts);
            let done = facts.invalidated;
            &&& next == (RequestNext::Invalidate { from: q.from }) <==> !done
            &&& next == (RequestNext::FindBoth { from: q.from, accepter: q.to }) <==> done
                && facts.both_found is None
            &&& next == (RequestNext::Tell { from: q.from, full }) <==> done && facts.both_found
                == Some(full) && !facts.told
            &&& next == (RequestNext::Accepted {
                reply: crate::reply::message_reply_of(200, "Zaproszenie zaakceptowane."),
                from: q.from,
                full,
            }) <==> done && facts.both_found == Some(full) && facts.told
        }),
{
    accepters_are_identified(q, user_id->0@);
}

/// Who is not known and who names no invitation is answered before anything is looked for.
pub proof fn incomplete_answers_are_answered_at_once(
    action: RequestAction,
    user_id: &Option<String>,
    request_id: Seq<char>,
    facts: &RequestFacts,
)
    ensures
        *user_id is None ==> answer_request_next(action, user_id, request_id, facts)
            == RequestNext::Reply(crate::reply::error_reply_of(401, "Unauthorized")),
        *user_id is Some && parsed_id(request_id) is None ==> answer_request_next(
            action,
            user_id,
            request_id,
            facts,
        ) == RequestNext::Reply(crate::reply::error_reply_of(400, "Nieprawidłowe zaproszenie.")),
{
}

/// What is shown of how two stand to each other, outcome by outcome: of friends their blocks, of
/// others an invitation that waits, that of the other one first; and what cannot be found out is
/// answered so.
pub proof fn standings_are_found_out_in_order(
    user_id: &Option<String>,
    other_id: Seq<char>,
    facts: &CheckFacts,
    user: ObjectId,
    other: ObjectId,
    by_me: bool,
    by_other: bool,
    q: FriendRequest,
)
    requires
        *user_id is Some,
        parsed_id(user_id->0@) == Some(user),
        parsed_id(other_id) == Some(other),
    ensures
        ({
            let next = check_friendship_next(user_id, other_id, facts);
            let found = facts.other == Some(Lookup::Found);
            let friend = found && facts.friends == Some(Answer::Yes);
            let stranger = found && facts.friends == Some(Answer::No);
            let none_in = stranger && facts.incoming == Some(RequestLookup::Missing);
            let later = CheckNext::Reply(
                crate::reply::retry_error_of(503, "Temporarily unavailable"),
            );
            &&& next == CheckNext::FindOther(other) <==> facts.other is None
            &&& next is ShowUnknown <==> facts.other == Some(Lookup::Missing)
            &&& next is AskFriends <==> found && facts.friends is None
            &&& next is AskBlocks <==> friend && facts.blocks is None
            &&& friend && facts.blocks == Some(BlockFlags::Known { by_me, by_other }) ==> next
                == CheckNext::Show(
                Friendship {
                    is_friend: true,
                    is_blocked_by_me: by_me,
                    is_blocked_by_other: by_other,
                    is_dm_blocked: by_me || by_other,
                    pending_request: None,
                },
            )
            &&& next == (CheckNext::FindIncoming { other, user }) <==> stranger && facts.incoming
                is None
            &&& next == (CheckNext::FindOutgoing { user, other }) <==> none_in && facts.outgoing
                is None
            &&& stranger && facts.incoming == Some(RequestLookup::Found(q)) ==> next is Show
                && !next->Show_0.is_friend && next->Show_0.pending_request == Some(
                WaitingRequest { incoming: true, id: q.id },
            )
            &&& none_in && facts.outgoing == Some(RequestLookup::Found(q)) ==> next is Show
                && !next->Show_0.is_friend && next->Show_0.pending_request == Some(
                WaitingRequest { incoming: false, id: q.id },
            )
            &&& none_in && facts.outgoing == Some(RequestLookup::Missing) ==> next is Show
                && !next->Show_0.is_friend && next->Show_0.pending_request is None
            &&& next is Show && stranger ==> !next->Show_0.is_blocked_by_me
                && !next->Show_0.is_blocked_by_other && !next->Show_0.is_dm_blocked
            &&& facts.other == Some(Lookup::Failed) || (found && facts.friends == Some(
                Answer::Failed,
            )) || (friend && facts.blocks == Some(BlockFlags::Failed)) || (stranger
                && facts.incoming == Some(RequestLookup::Failed)) || (none_in && facts.outgoing
                == Some(RequestLookup::Failed)) ==> next == later
        }),
{
}

/// Who is not known, and who is not named by an identifier, is answered before anything is found out.
pub proof fn incomplete_standings_are_answered_at_once(
    user_id: &Option<String>,
    other_id: Seq<char>,
    facts: &CheckFacts,
)
    ensures
        *user_id is None ==> check_friendship_next(user_id, other_id, facts) == CheckNext::Reply(
            crate::reply::error_reply_of(401, "Unauthorized"),
        ),
        *user_id is Some && (parsed_id(user_id->0@) is None || parsed_id(other_id) is None)
            ==> check_friendship_next(user_id, other_id, facts) == CheckNext::Reply(
            crate::reply::error_reply_of(400, "Nieprawidłowy identyfikator użytkownika."),
        ),
{
}

/// What the end of a friendship comes to, outcome by outcome: it is looked for and deleted; then what
/// is remembered is forgotten, a call is ended, the time is noted, both are told, and at last the
/// messages are wiped, their files cleaned, and what is left is settled.
pub proof fn friendships_end_in_order(
    user_id: &Option<String>,
    friend_id: Seq<char>,
    facts: &RemoveFacts,
    user: ObjectId,
    friend: ObjectId,
    q: FriendRequest,
    at_most: i64,
)
    requires
        *user_id is Some,
        parsed_id(user_id->0@) == Some(user),
        parsed_id(friend_id) == Some(friend),
        friend_id != user_id->0@,
        facts.friendship matches Some(RequestLookup::Found(f)) ==> f == q,
    ensures
        ({
            let next = remove_friend_next(user_id, friend_id, facts);
            let found = facts.friendship == Some(RequestLookup::Found(q));
            let over = found && facts.deleted == Some(Change::Changed);
            let quiet = over && facts.invalidated && facts.call_ended;
            let timed = quiet && facts.wipe_at is Some;
            let told = timed && facts.told;
            let wiped = told && facts.wiped == Some(true);
            let clean = wiped && facts.files_cleaned;
            let bare = clean && facts.tip_cleared;
            let vanished = facts.friendship == Some(RequestLookup::Missing) || (found
                && facts.deleted == Some(Change::Unchanged));
            let settle = crate::controllers::conversation::settle_conversation_next(facts.settle);
            let ok = RemoveFriendNext::Reply(
                crate::reply::message_reply_of(200, "Kontakt został usunięty."),
            );
            &&& next == (RemoveFriendNext::FindFriendship { user, friend }) <==> facts.friendship
                is None
            &&& next == (RemoveFriendNext::Delete { friendship: q.id }) <==> found && facts.deleted
                is None
            &&& next is Delete ==> found && facts.deleted is None
            &&& next is Invalidate <==> over && !facts.invalidated
            &&& next is EndCall <==> over && facts.invalidated && !facts.call_ended
            &&& next is TakeTime <==> quiet && facts.wipe_at is None
            &&& next is TellRemoved <==> (timed && !facts.told) || (vanished && !facts.told)
            &&& next == (RemoveFriendNext::Wipe { user, friend }) <==> told && facts.wiped is None
            &&& next is CleanFiles <==> wiped && !facts.files_cleaned
            &&& next == (RemoveFriendNext::ClearTip { user, friend, at_most }) <==> clean
                && !facts.tip_cleared && facts.wipe_at == Some(at_most)
            &&& told && facts.wiped == Some(false) ==> next == ok
            &&& bare && settle is Done ==> next == ok
            &&& bare && settle is CountFailed ==> next == (if facts.settle.unread_told {
                ok
            } else {
                RemoveFriendNext::Settle(SettleNext::InvalidateUnread)
            })
            &&& bare && !(settle is Done) && !(settle is CountFailed) ==> next
                == RemoveFriendNext::Settle(settle)
            &&& vanished && facts.told ==> next == RemoveFriendNext::Reply(
                crate::reply::error_reply_of(404, "Ten użytkownik nie jest w Twoich kontaktach."),
            )
            &&& facts.friendship == Some(RequestLookup::Failed) ==> next == RemoveFriendNext::Reply(
                crate::reply::retry_error_of(503, "Temporarily unavailable"),
            )
            &&& found && facts.deleted == Some(Change::Failed) ==> next == RemoveFriendNext::Reply(
                crate::reply::retry_error_of(500, "Failed to remove friend"),
            )
        }),
{
}

/// Who is not known, who is not named by an identifier and who names themselves is answered before
/// anything is looked for.
pub proof fn incomplete_removals_are_answered_at_once(
    user_id: &Option<String>,
    friend_id: Seq<char>,
    facts: &RemoveFacts,
)
    ensures
        ({
            let next = remove_friend_next(user_id, friend_id, facts);
            let named = *user_id is Some && parsed_id(user_id->0@) is Some && parsed_id(friend_id)
                is Some;
            &&& *user_id is None ==> next == RemoveFriendNext::Reply(
                crate::reply::error_reply_of(401, "Unauthorized"),
            )
            &&& *user_id is Some && !named ==> next == RemoveFriendNext::Reply(
                crate::reply::error_reply_of(400, "Nieprawidłowy identyfikator użytkownika."),
            )
            &&& named && friend_id == user_id->0@ ==> next == RemoveFriendNext::Reply(
                crate::reply::error_reply_of(400, "Nie możesz usunąć siebie z kontaktów."),
            )
        }),
{
}

/// What became of an invitation and which way it goes have names.
pub proof fn invitations_have_names(status: FriendRequestStatus, incoming: bool)
    ensures
        status == FriendRequestStatus::Pending ==> status_name(status) == "pending",
        status == FriendRequestStatus::Accepted ==> status_name(status) == "accepted",
        status == FriendRequestStatus::Rejected ==> status_name(status) == "rejected",
        incoming ==> direction_name_of(incoming) == "incoming",
        !incoming ==> direction_name_of(incoming) == "outgoing",
{
}

/// Every user of a list who has an identifier has a place.
pub proof fn users_have_places(users: Seq<User>, i: int)
    requires
        0 <= i < users.len(),
        users[i].id is Some,
    ensures
        places(users).dom().contains(users[i].id->0),
    decreases users.len(),
{
    if i < users.len() - 1 {
        assert(users.drop_last()[i] == users[i]);
        users_have_places(users.drop_last(), i);
    }
}

/// An invitation is shown exactly if the other one of it is known, with its identifier, its status and
/// its time, and at the end of what is shown of those before it.
pub proof fn known_invitations_are_shown(
    requests: Seq<FriendRequest>,
    q: FriendRequest,
    users: Map<ObjectId, usize>,
    received: bool,
)
    ensures
        ({
            let party = if received {
                q.from
            } else {
                q.to
            };
            let before = request_rows_of(requests, users, received);
            let after = request_rows_of(requests.push(q), users, received);
            &&& !users.dom().contains(party) ==> after == before
            &&& users.dom().contains(party) ==> after == before.push(
                RequestRowView {
                    id: hex_opt_of(q.id),
                    user: users[party],
                    status: status_name(q.status),
                    created_at: rfc3339(q.created_at),
                },
            )
            &&& request_rows_of(Seq::empty(), users, received).len() == 0
        }),
{
    assert(requests.push(q).drop_last() =~= requests);
}

/// A friend is listed exactly if they are known, behind those who came before.
pub proof fn known_friends_are_listed(
    ids: Seq<ObjectId>,
    id: ObjectId,
    users: Map<ObjectId, usize>,
)
    ensures
        users.dom().contains(id) ==> known_places_of(ids.push(id), users) == known_places_of(
            ids,
            users,
        ).push(users[id]),
        !users.dom().contains(id) ==> known_places_of(ids.push(id), users) == known_places_of(
            ids,
            users,
        ),
        known_places_of(Seq::empty(), users).len() == 0,
{
    assert(ids.push(id).drop_last() =~= ids);
}

/// Whoever cannot be invited is told of in these words.
pub proof fn refused_invitations_are_told_alike()
    ensures
        FRIEND_REQUEST_UNAVAILABLE == "Nie można wysłać zaproszenia do tego użytkownika.",
{
}

/// An invitation is accepted or rejected by whom it was sent to and taken back by whoever sent it;
/// anybody else is refused, and it becomes accepted only by being accepted.
pub proof fn invitations_belong_to_one_side(
    action: RequestAction,
    uid: String,
    request_id: Seq<char>,
    facts: &RequestFacts,
    q: FriendRequest,
)
    requires
        parsed_id(request_id) is Some,
        facts.request == Some(RequestLookup::Found(q)),
    ensures
        ({
            let next = answer_request_next(action, &Some(uid), request_id, facts);
            let own = if action is Cancel {
                q.from.hex() == uid@
            } else {
                q.to.hex() == uid@
            };
            &&& !own ==> next == RequestNext::Reply(
                crate::reply::error_reply_of(403, "Brak uprawnień do tego zaproszenia."),
            )
            &&& own && q.status is Pending && facts.changed is None ==> next is Change
                && next->request == parsed_id(request_id)->0 && (next->status is Accepted
                <==> action is Accept) && (next->status is Rejected <==> !(action is Accept))
        }),
{
}

/// Both friends are told of a friendship with all that is shown of them exactly if both were found;
/// whoever has no identifier cannot be looked for and is told by identifiers alone.
pub proof fn new_friends_are_shown_if_found(
    user_id: Seq<char>,
    request: FriendRequest,
    facts: &RequestFacts,
)
    requires
        facts.invalidated,
    ensures
        ({
            let next = after_acceptance_next(user_id, request, facts);
            let known = parsed_id(user_id) is Some;
            let told_of = if known {
                facts.both_found == Some(true)
            } else {
                false
            };
            &&& next is FindBoth <==> known && facts.both_found is None
            &&& next is Tell <==> !(known && facts.both_found is None) && !facts.told
            &&& next is Accepted <==> !(known && facts.both_found is None) && facts.told
            &&& next matches RequestNext::FindBoth { from, accepter } ==> from == request.from
                && accepter == parsed_id(user_id)->0
            &&& next matches RequestNext::Tell { from, full } ==> from == request.from && (full
                <==> told_of)
            &&& next matches RequestNext::Accepted { reply, from, full } ==> from == request.from && (
            full <==> told_of) && reply == crate::reply::message_reply_of(
                200,
                "Zaproszenie zaakceptowane.",
            )
        }),
{
    assert(facts.both_found is Some ==> facts.both_found == Some(facts.both_found->0));
}

} // verus!
