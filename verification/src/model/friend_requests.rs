//! Invitations and the friendships they become.
use vstd::prelude::*;
use crate::ids::ObjectId;

verus! {

/// What became of an invitation.
#[derive(Clone, Copy, Debug, PartialEq, Eq, Structural)]
pub enum FriendRequestStatus {
    Pending,
    Accepted,
    Rejected,
}

/// An invitation. One that was accepted is a friendship.
#[derive(Clone, Copy, Debug, PartialEq, Eq, Structural)]
pub struct FriendRequest {
    pub id: Option<ObjectId>,
    pub from: ObjectId,
    pub to: ObjectId,
    pub status: FriendRequestStatus,
    pub created_at: i64,
    pub updated_at: i64,
}

impl FriendRequest {
    /// The other one of a friendship.
    pub open spec fn other(self, user: ObjectId) -> ObjectId {
        if self.from == user {
            self.to
        } else {
            self.from
        }
    }

    /// The other one of a friendship.
    pub fn peer(&self, user: ObjectId) -> (r: ObjectId)
        ensures
            r == self.other(user),
    {
        if self.from == user {
            self.to
        } else {
            self.from
        }
    }
}

/// Whom an invitation has to concern.
#[derive(Clone, Copy, Debug, PartialEq, Eq, Structural)]
pub enum Parties {
    /// One of them invited the other, either way.
    Between(ObjectId, ObjectId),
    /// The first one invited the second.
    FromTo(ObjectId, ObjectId),
    From(ObjectId),
    To(ObjectId),
    /// One of the two is this user.
    Of(ObjectId),
}

/// Which stored invitations are meant: those between these users, with this status if one is
/// named.
#[derive(Clone, Copy, Debug, PartialEq, Eq, Structural)]
pub struct RequestFilter {
    pub parties: Parties,
    pub status: Option<FriendRequestStatus>,
}

impl RequestFilter {
    /// Whether an invitation is meant.
    pub open spec fn fits(self, r: FriendRequest) -> bool {
        &&& match self.parties {
            Parties::Between(a, b) => (r.from == a && r.to == b) || (r.from == b && r.to == a),
            Parties::FromTo(a, b) => r.from == a && r.to == b,
            Parties::From(a) => r.from == a,
            Parties::To(a) => r.to == a,
            Parties::Of(a) => r.from == a || r.to == a,
        }
        &&& match self.status {
            Some(s) => r.status == s,
            None => true,
        }
    }

    /// Whether an invitation is meant.
    pub fn selects(&self, r: &FriendRequest) -> (b: bool)
        ensures
            b == self.fits(*r),
    {
        let parties_fit = match self.parties {
            Parties::Between(a, b) => (r.from == a && r.to == b) || (r.from == b && r.to == a),
            Parties::FromTo(a, b) => r.from == a && r.to == b,
            Parties::From(a) => r.from == a,
            Parties::To(a) => r.to == a,
            Parties::Of(a) => r.from == a || r.to == a,
        };
        let status_fits = match self.status {
            Some(s) => r.status == s,
            None => true,
        };
        parties_fit && status_fits
    }

    /// The friendship of two users, whoever of them invited the other.
    pub fn friendship(user: ObjectId, friend: ObjectId) -> (r: RequestFilter)
        ensures
            forall|q: FriendRequest|
                #[trigger] r.fits(q) <==> q.status == FriendRequestStatus::Accepted && ((q.from
                    == user && q.to == friend) || (q.from == friend && q.to == user)),
    {
        RequestFilter {
            parties: Parties::Between(user, friend),
            status: Some(FriendRequestStatus::Accepted),
        }
    }

    /// Any invitation between two users, either way.
    pub fn between(a: ObjectId, b: ObjectId) -> (r: RequestFilter)
        ensures
            forall|q: FriendRequest|
                #[trigger] r.fits(q) <==> (q.from == a && q.to == b) || (q.from == b && q.to == a),
    {
        RequestFilter { parties: Parties::Between(a, b), status: None }
    }

    /// The invitation of one user to another that waits.
    pub fn waiting(from: ObjectId, to: ObjectId) -> (r: RequestFilter)
        ensures
            forall|q: FriendRequest|
                #[trigger] r.fits(q) <==> q.status == FriendRequestStatus::Pending && q.from == from
                    && q.to == to,
    {
        RequestFilter {
            parties: Parties::FromTo(from, to),
            status: Some(FriendRequestStatus::Pending),
        }
    }

    /// The invitations to a user that wait.
    pub fn received(user: ObjectId) -> (r: RequestFilter)
        ensures
            forall|q: FriendRequest|
                #[trigger] r.fits(q) <==> q.status == FriendRequestStatus::Pending && q.to == user,
    {
        RequestFilter { parties: Parties::To(user), status: Some(FriendRequestStatus::Pending) }
    }

    /// The invitations of a user that wait.
    pub fn sent(user: ObjectId) -> (r: RequestFilter)
        ensures
            forall|q: FriendRequest|
                #[trigger] r.fits(q) <==> q.status == FriendRequestStatus::Pending && q.from == user,
    {
        RequestFilter { parties: Parties::From(user), status: Some(FriendRequestStatus::Pending) }
    }

    /// The friendships of a user.
    pub fn friendships(user: ObjectId) -> (r: RequestFilter)
        ensures
            forall|q: FriendRequest|
                #[trigger] r.fits(q) <==> q.status == FriendRequestStatus::Accepted && (q.from
                    == user || q.to == user),
    {
        RequestFilter { parties: Parties::Of(user), status: Some(FriendRequestStatus::Accepted) }
    }

    /// Every invitation that a user sent or got.
    pub fn concerning(user: ObjectId) -> (r: RequestFilter)
        ensures
            forall|q: FriendRequest| #[trigger] r.fits(q) <==> q.from == user || q.to == user,
    {
        RequestFilter { parties: Parties::Of(user), status: None }
    }
}

/// The friendship of two users does not depend on who of them asks.
pub proof fn friendships_have_no_direction(a: ObjectId, b: ObjectId, q: FriendRequest)
    ensures
        (RequestFilter {
            parties: Parties::Between(a, b),
            status: Some(FriendRequestStatus::Accepted),
        }).fits(q) <==> (RequestFilter {
            parties: Parties::Between(b, a),
            status: Some(FriendRequestStatus::Accepted),
        }).fits(q),
{
}

/// The other ones of friendships, in order.
pub open spec fn others(s: Seq<FriendRequest>, user: ObjectId) -> Seq<ObjectId> {
    s.map_values(|f: FriendRequest| f.other(user))
}

/// The other ones of friendships, in order.
pub fn peers(v: &Vec<FriendRequest>, user: ObjectId) -> (r: Vec<ObjectId>)
    ensures
        r@ == others(v@, user),
{
    let mut out: Vec<ObjectId> = Vec::new();
    let mut i: usize = 0;
    while i < v.len()
        invariant
            i <= v.len(),
            out@ == others(v@.take(i as int), user),
        decreases v.len() - i,
    {
        let id = v[i].peer(user);
        proof {
            assert(others(v@.take(i + 1), user) =~= others(v@.take(i as int), user).push(id));
        }
        out.push(id);
        i = i + 1;
    }
    proof {
        assert(v@.take(v@.len() as int) =~= v@);
    }
    out
}

/// Each of two friends is the other one of the other.
pub proof fn friends_are_each_others_other(f: FriendRequest, user: ObjectId)
    ensures
        f.from == user ==> f.other(user) == f.to,
        f.from != user ==> f.other(user) == f.from,
        f.from != f.to && (user == f.from || user == f.to) ==> f.other(user) != user && f.other(
            f.other(user),
        ) == user,
{
}

/// The other ones of friendships come in the order of the friendships, one for each.
pub proof fn every_friendship_has_its_other(s: Seq<FriendRequest>, user: ObjectId, i: int)
    requires
        0 <= i < s.len(),
    ensures
        others(s, user).len() == s.len(),
        s[i].from == user ==> others(s, user)[i] == s[i].to,
        s[i].from != user ==> others(s, user)[i] == s[i].from,
{
}

/// An invitation is meant exactly if it concerns whom a filter names, in the direction it names,
/// and has the status it asks for, if it asks for one.
pub proof fn filters_mean_whom_they_name(
    r: FriendRequest,
    a: ObjectId,
    b: ObjectId,
    status: Option<FriendRequestStatus>,
)
    ensures
        ({
            let kept = status is None || status == Some(r.status);
            let meant = |parties: Parties| (RequestFilter { parties, status }).fits(r);
            &&& meant(Parties::FromTo(a, b)) <==> kept && r.from == a && r.to == b
            &&& meant(Parties::Between(a, b)) <==> meant(Parties::FromTo(a, b)) || meant(
                Parties::FromTo(b, a),
            )
            &&& meant(Parties::From(a)) <==> kept && r.from == a
            &&& meant(Parties::To(a)) <==> kept && r.to == a
            &&& meant(Parties::Of(a)) <==> meant(Parties::From(a)) || meant(Parties::To(a))
        }),
{
}

} // verus!
