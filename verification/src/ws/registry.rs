//! Which connections belong to whom, and who gets a frame.
//!
//! The channels and sockets of the connections are held outside; here a connection is its
//! number, its user and the family of its session.
use vstd::prelude::*;
use crate::lists::{filter_ends, filter_keeps_what_fits, filter_step, texts};
use crate::text;

verus! {

/// How many frames a connection holds back before others are dropped.
pub const WS_SEND_BUFFER: usize = 512;

/// How long a frame that matters waits for room, in milliseconds.
pub const CRITICAL_WAIT_MS: u64 = 50;

/// A connection.
pub struct Connection {
    pub id: u64,
    pub user_id: String,
    pub session_family_id: Option<String>,
}

/// What a connection is.
#[verifier::ext_equal]
pub struct ConnectionView {
    pub id: u64,
    pub user: Seq<char>,
    pub family: Option<Seq<char>>,
}

impl View for Connection {
    type V = ConnectionView;

    open spec fn view(&self) -> ConnectionView {
        ConnectionView {
            id: self.id,
            user: self.user_id@,
            family: text::opt_text(self.session_family_id),
        }
    }
}

/// The connections of all users, in the order in which they came.
pub struct ConnectionRegistry {
    connections: Vec<Connection>,
    next_id: u64,
}

/// Belonging to a user.
pub open spec fn of_user(user: Seq<char>) -> spec_fn(ConnectionView) -> bool {
    |c: ConnectionView| c.user == user
}

/// Belonging to anybody else.
pub open spec fn of_others(user: Seq<char>) -> spec_fn(ConnectionView) -> bool {
    |c: ConnectionView| c.user != user
}

/// Belonging to a family of sessions of a user.
pub open spec fn of_family(user: Seq<char>, family: Seq<char>) -> spec_fn(ConnectionView) -> bool {
    |c: ConnectionView| c.user == user && c.family == Some(family)
}

/// Not belonging to a family of sessions of a user.
pub open spec fn outside_family(user: Seq<char>, family: Seq<char>) -> spec_fn(
    ConnectionView,
) -> bool {
    |c: ConnectionView| !(c.user == user && c.family == Some(family))
}

/// Not being one connection of a user.
pub open spec fn not_this(user: Seq<char>, id: u64) -> spec_fn(ConnectionView) -> bool {
    |c: ConnectionView| !(c.user == user && c.id == id)
}

/// The numbers of connections.
pub open spec fn ids_of(s: Seq<ConnectionView>) -> Seq<u64> {
    s.map_values(|c: ConnectionView| c.id)
}

/// What connections are.
pub open spec fn views(v: Seq<Connection>) -> Seq<ConnectionView> {
    v.map_values(|c: Connection| c@)
}

impl View for ConnectionRegistry {
    type V = Seq<ConnectionView>;

    closed spec fn view(&self) -> Seq<ConnectionView> {
        views(self.connections@)
    }
}

/// The numbers of the connections of some users, one user after the other.
pub open spec fn ids_of_users(s: Seq<ConnectionView>, users: Seq<Seq<char>>) -> Seq<u64>
    decreases users.len(),
{
    if users.len() == 0 {
        Seq::empty()
    } else {
        ids_of_users(s, users.drop_last()) + ids_of(s.filter(of_user(users.last())))
    }
}

fn is_family(c: &Connection, family_id: &str) -> (r: bool)
    ensures
        r == (c@.family == Some(family_id@)),
{
    match &c.session_family_id {
        Some(f) => text::same_text(f, family_id),
        None => false,
    }
}

impl ConnectionRegistry {
    /// The number that the next connection gets.
    pub closed spec fn next(&self) -> u64 {
        self.next_id
    }

    /// No number is given twice, and every number given is below the next one.
    pub closed spec fn wf(&self) -> bool {
        &&& forall|i: int|
            0 <= i < self.connections@.len() ==> (#[trigger] self.connections@[i]).id < self.next_id
        &&& forall|i: int, j: int|
            0 <= i < j < self.connections@.len() ==> (#[trigger] self.connections@[i]).id != (
            #[trigger] self.connections@[j]).id
    }

    /// No connections.
    pub fn new() -> (r: ConnectionRegistry)
        ensures
            r.wf(),
            r@ == Seq::<ConnectionView>::empty(),
            r.next() == 1,
    {
        let r = ConnectionRegistry { connections: Vec::new(), next_id: 1 };
        proof {
            assert(views(r.connections@) =~= Seq::empty());
        }
        r
    }

    /// The number that the next connection gets.
    pub fn next_connection(&self) -> (r: u64)
        ensures
            r == self.next(),
    {
        self.next_id
    }

    /// Adds a connection and gives it a number. There is no number after the last one.
    pub fn register(&mut self, user_id: &str, session_family_id: Option<String>) -> (id: u64)
        requires
            old(self).wf(),
            old(self).next() < u64::MAX,
        ensures
            final(self).wf(),
            id == old(self).next(),
            final(self).next() == id + 1,
            final(self)@ == old(self)@.push(
                ConnectionView {
                    id,
                    user: user_id@,
                    family: text::opt_text(session_family_id),
                },
            ),
    {
        let id = self.next_id;
        let c = Connection { id, user_id: user_id.to_owned(), session_family_id };
        proof {
            assert(views(self.connections@.push(c)) =~= views(self.connections@).push(c@));
        }
        self.connections.push(c);
        self.next_id = id + 1;
        id
    }

    /// Takes a connection out.
    pub fn unregister(&mut self, user_id: &str, conn_id: u64)
        requires
            old(self).wf(),
        ensures
            final(self).wf(),
            final(self).next() == old(self).next(),
            final(self)@ == old(self)@.filter(not_this(user_id@, conn_id)),
    {
        let ghost p = not_this(user_id@, conn_id);
        let ghost all = self@;
        let mut rest: Vec<Connection> = Vec::new();
        let mut i: usize = 0;
        proof {
            filter_ends(all, p);
            assert(views(rest@) =~= Seq::empty());
        }
        while i < self.connections.len()
            invariant
                i <= self.connections.len(),
                all == views(self.connections@),
                p == not_this(user_id@, conn_id),
                self.wf(),
                views(rest@) == all.take(i as int).filter(p),
                forall|k: int|
                    0 <= k < rest@.len() ==> exists|m: int|
                        0 <= m < i && (#[trigger] rest@[k]).id == self.connections@[m].id,
                forall|k: int, l: int|
                    0 <= k < l < rest@.len() ==> (#[trigger] rest@[k]).id != (#[trigger] rest@[l]).id,
            decreases self.connections.len() - i,
        {
            proof {
                filter_step(all, p, i as int);
            }
            let c = &self.connections[i];
            if !(c.id == conn_id && text::same_text(&c.user_id, user_id)) {
                let d = Connection {
                    id: c.id,
                    user_id: c.user_id.clone(),
                    session_family_id: text::copy_opt(&c.session_family_id),
                };
                proof {
                    assert(views(rest@.push(d)) =~= views(rest@).push(d@));
                    assert(d@ == all[i as int]);
                }
                rest.push(d);
            }
            i = i + 1;
        }
        proof {
            filter_ends(all, p);
        }
        self.connections = rest;
    }

    /// The connections of a family of sessions of a user.
    pub fn send_to_family(&self, user_id: &str, family_id: &str) -> (r: Vec<u64>)
        ensures
            r@ == ids_of(self@.filter(of_family(user_id@, family_id@))),
    {
        let ghost p = of_family(user_id@, family_id@);
        let ghost all = self@;
        let mut out: Vec<u64> = Vec::new();
        let mut i: usize = 0;
        proof {
            filter_ends(all, p);
            assert(ids_of(Seq::empty()) =~= Seq::<u64>::empty());
        }
        while i < self.connections.len()
            invariant
                i <= self.connections.len(),
                all == views(self.connections@),
                p == of_family(user_id@, family_id@),
                out@ == ids_of(all.take(i as int).filter(p)),
            decreases self.connections.len() - i,
        {
            proof {
                filter_step(all, p, i as int);
                let f = all.take(i as int).filter(p);
                assert(ids_of(f.push(all[i as int])) =~= ids_of(f).push(all[i as int].id));
            }
            let c = &self.connections[i];
            if text::same_text(&c.user_id, user_id) && is_family(c, family_id) {
                out.push(c.id);
            }
            i = i + 1;
        }
        proof {
            filter_ends(all, p);
        }
        out
    }

    /// The connections of a user.
    pub fn send_prebuilt_to_user(&self, user_id: &str) -> (r: Vec<u64>)
        ensures
            r@ == ids_of(self@.filter(of_user(user_id@))),
    {
        let ghost p = of_user(user_id@);
        let ghost all = self@;
        let mut out: Vec<u64> = Vec::new();
        let mut i: usize = 0;
        proof {
            filter_ends(all, p);
            assert(ids_of(Seq::empty()) =~= Seq::<u64>::empty());
        }
        while i < self.connections.len()
            invariant
                i <= self.connections.len(),
                all == views(self.connections@),
                p == of_user(user_id@),
                out@ == ids_of(all.take(i as int).filter(p)),
            decreases self.connections.len() - i,
        {
            proof {
                filter_step(all, p, i as int);
                let f = all.take(i as int).filter(p);
                assert(ids_of(f.push(all[i as int])) =~= ids_of(f).push(all[i as int].id));
            }
            let c = &self.connections[i];
            if text::same_text(&c.user_id, user_id) {
                out.push(c.id);
            }
            i = i + 1;
        }
        proof {
            filter_ends(all, p);
        }
        out
    }

    /// The connections of some users, one user after the other.
    pub fn send_prebuilt_to_users(&self, user_ids: &Vec<String>) -> (r: Vec<u64>)
        ensures
            r@ == ids_of_users(self@, texts(user_ids@)),
    {
        let ghost users = texts(user_ids@);
        let mut out: Vec<u64> = Vec::new();
        let mut i: usize = 0;
        while i < user_ids.len()
            invariant
                i <= user_ids.len(),
                users == texts(user_ids@),
                out@ == ids_of_users(self@, users.take(i as int)),
            decreases user_ids.len() - i,
        {
            proof {
                assert(users.take(i + 1).drop_last() =~= users.take(i as int));
            }
            let mut more = self.send_prebuilt_to_user(&user_ids[i]);
            out.append(&mut more);
            i = i + 1;
        }
        proof {
            assert(users.take(users.len() as int) =~= users);
        }
        out
    }

    /// All connections.
    pub fn broadcast_to_all(&self) -> (r: Vec<u64>)
        ensures
            r@ == ids_of(self@),
    {
        let mut out: Vec<u64> = Vec::new();
        let mut i: usize = 0;
        while i < self.connections.len()
            invariant
                i <= self.connections.len(),
                out@.len() == i,
                forall|k: int| 0 <= k < i ==> out@[k] == (#[trigger] self.connections@[k]).id,
            decreases self.connections.len() - i,
        {
            out.push(self.connections[i].id);
            i = i + 1;
        }
        proof {
            assert(out@ =~= ids_of(self@));
        }
        out
    }

    /// Takes the connections of a family of sessions of a user out, and says which they were.
    pub fn disconnect_family(&mut self, user_id: &str, family_id: &str) -> (r: Vec<u64>)
        requires
            old(self).wf(),
        ensures
            final(self).wf(),
            final(self).next() == old(self).next(),
            final(self)@ == old(self)@.filter(outside_family(user_id@, family_id@)),
            r@ == ids_of(old(self)@.filter(of_family(user_id@, family_id@))),
    {
        let revoked = self.send_to_family(user_id, family_id);
        let ghost p = outside_family(user_id@, family_id@);
        let ghost all = self@;
        let mut rest: Vec<Connection> = Vec::new();
        let mut i: usize = 0;
        proof {
            filter_ends(all, p);
            assert(views(rest@) =~= Seq::empty());
        }
        while i < self.connections.len()
            invariant
                i <= self.connections.len(),
                all == views(self.connections@),
                p == outside_family(user_id@, family_id@),
                self.wf(),
                views(rest@) == all.take(i as int).filter(p),
                forall|k: int|
                    0 <= k < rest@.len() ==> exists|m: int|
                        0 <= m < i && (#[trigger] rest@[k]).id == self.connections@[m].id,
                forall|k: int, l: int|
                    0 <= k < l < rest@.len() ==> (#[trigger] rest@[k]).id != (#[trigger] rest@[l]).id,
            decreases self.connections.len() - i,
        {
            proof {
                filter_step(all, p, i as int);
            }
            let c = &self.connections[i];
            if !(text::same_text(&c.user_id, user_id) && is_family(c, family_id)) {
                let d = Connection {
                    id: c.id,
                    user_id: c.user_id.clone(),
                    session_family_id: text::copy_opt(&c.session_family_id),
                };
                proof {
                    assert(views(rest@.push(d)) =~= views(rest@).push(d@));
                    assert(d@ == all[i as int]);
                }
                rest.push(d);
            }
            i = i + 1;
        }
        proof {
            filter_ends(all, p);
        }
        self.connections = rest;
        revoked
    }

    /// Takes all connections of a user out, and says which they were.
    pub fn disconnect_user(&mut self, user_id: &str) -> (r: Vec<u64>)
        requires
            old(self).wf(),
        ensures
            final(self).wf(),
            final(self).next() == old(self).next(),
            final(self)@ == old(self)@.filter(of_others(user_id@)),
            r@ == ids_of(old(self)@.filter(of_user(user_id@))),
    {
        let revoked = self.send_prebuilt_to_user(user_id);
        let ghost p = of_others(user_id@);
        let ghost all = self@;
        let mut rest: Vec<Connection> = Vec::new();
        let mut i: usize = 0;
        proof {
            filter_ends(all, p);
            assert(views(rest@) =~= Seq::empty());
        }
        while i < self.connections.len()
            invariant
                i <= self.connections.len(),
                all == views(self.connections@),
                p == of_others(user_id@),
                self.wf(),
                views(rest@) == all.take(i as int).filter(p),
                forall|k: int|
                    0 <= k < rest@.len() ==> exists|m: int|
                        0 <= m < i && (#[trigger] rest@[k]).id == self.connections@[m].id,
                forall|k: int, l: int|
                    0 <= k < l < rest@.len() ==> (#[trigger] rest@[k]).id != (#[trigger] rest@[l]).id,
            decreases self.connections.len() - i,
        {
            proof {
                filter_step(all, p, i as int);
            }
            let c = &self.connections[i];
            if !text::same_text(&c.user_id, user_id) {
                let d = Connection {
                    id: c.id,
                    user_id: c.user_id.clone(),
                    session_family_id: text::copy_opt(&c.session_family_id),
                };
                proof {
                    assert(views(rest@.push(d)) =~= views(rest@).push(d@));
                    assert(d@ == all[i as int]);
                }
                rest.push(d);
            }
            i = i + 1;
        }
        proof {
            filter_ends(all, p);
        }
        self.connections = rest;
        revoked
    }

    /// Ends a family of sessions of a user: its connections, which are to be told and closed,
    /// are taken out.
    pub fn revoke_session_remotely(&mut self, user_id: &str, family_id: &str) -> (r: Vec<u64>)
        requires
            old(self).wf(),
        ensures
            final(self).wf(),
            final(self).next() == old(self).next(),
            final(self)@ == old(self)@.filter(outside_family(user_id@, family_id@)),
            r@ == ids_of(old(self)@.filter(of_family(user_id@, family_id@))),
    {
        self.disconnect_family(user_id, family_id)
    }
}

/// A well-formed registry gives each of its connections a number of its own.
pub proof fn connection_numbers_differ(r: &ConnectionRegistry, i: int, j: int)
    requires
        r.wf(),
        0 <= i < j < r@.len(),
    ensures
        r@[i].id != r@[j].id,
        r@[i].id < r.next(),
{
    assert(r@[i] == r.connections@[i]@);
    assert(r@[j] == r.connections@[j]@);
}

/// Taking out a connection that was just added gives back what was there, in the same order:
/// its number is that of no other connection, so no other one goes with it; and taking it out a
/// second time changes nothing.
pub proof fn unregister_undoes_register(
    before: &ConnectionRegistry,
    added: &ConnectionRegistry,
    taken: &ConnectionRegistry,
    c: ConnectionView,
)
    requires
        before.wf(),
        c.id == before.next(),
        added@ == before@.push(c),
        taken@ == added@.filter(not_this(c.user, c.id)),
    ensures
        forall|i: int| 0 <= i < before@.len() ==> (#[trigger] before@[i]).id != c.id,
        taken@ == before@,
        taken@.filter(not_this(c.user, c.id)) == before@,
{
    assert forall|i: int| 0 <= i < before@.len() implies (#[trigger] before@[i]).id != c.id by {
        assert(before@[i] == before.connections@[i]@);
    }
    lemma_taking_out_undoes_adding(before@, c);
}

proof fn lemma_taking_out_undoes_adding(s: Seq<ConnectionView>, c: ConnectionView)
    requires
        forall|i: int| 0 <= i < s.len() ==> (#[trigger] s[i]).id != c.id,
    ensures
        s.push(c).filter(not_this(c.user, c.id)) == s,
        s.filter(not_this(c.user, c.id)) == s,
{
    let p = not_this(c.user, c.id);
    lemma_filter_all(s, p);
    let t = s.push(c);
    filter_step(t, p, s.len() as int);
    assert(t.take(s.len() as int) =~= s);
    assert(t.take(s.len() as int + 1) =~= t);
}

/// Filtering changes nothing where everything fits.
proof fn lemma_filter_all(s: Seq<ConnectionView>, p: spec_fn(ConnectionView) -> bool)
    requires
        forall|i: int| 0 <= i < s.len() ==> p(#[trigger] s[i]),
    ensures
        s.filter(p) == s,
    decreases s.len(),
{
    reveal(Seq::filter);
    if s.len() > 0 {
        let rest = s.drop_last();
        assert forall|i: int| 0 <= i < rest.len() implies p(#[trigger] rest[i]) by {
            assert(rest[i] == s[i]);
        }
        lemma_filter_all(rest, p);
        assert(p(s[s.len() - 1]));
        assert(rest.push(s.last()) =~= s);
    }
}

/// Ending one family leaves every connection of other users and of other families.
pub proof fn ending_a_family_leaves_the_rest(
    s: Seq<ConnectionView>,
    user: Seq<char>,
    family: Seq<char>,
    c: ConnectionView,
)
    requires
        s.contains(c),
    ensures
        s.filter(outside_family(user, family)).contains(c) <==> c.user != user || c.family != Some(
            family,
        ),
        s.filter(of_family(user, family)).contains(c) <==> c.user == user && c.family == Some(
            family,
        ),
{
    filter_keeps_what_fits(s, outside_family(user, family));
    filter_keeps_what_fits(s, of_family(user, family));
}

/// After a user was disconnected no frame reaches them, and everybody else keeps their
/// connections.
pub proof fn disconnected_users_get_nothing(
    s: Seq<ConnectionView>,
    user: Seq<char>,
    other: Seq<char>,
    c: ConnectionView,
)
    ensures
        s.filter(of_others(user)).filter(of_user(user)).len() == 0,
        other != user && s.filter(of_user(other)).contains(c) ==> s.filter(of_others(user)).filter(
            of_user(other),
        ).contains(c),
{
    let rest = s.filter(of_others(user));
    filter_keeps_what_fits(s, of_others(user));
    filter_keeps_what_fits(s, of_user(other));
    filter_keeps_what_fits(rest, of_user(user));
    filter_keeps_what_fits(rest, of_user(other));
    let gone = rest.filter(of_user(user));
    if gone.len() > 0 {
        let x = gone[0];
        assert(gone.contains(x));
        assert(rest.contains(x));
    }
    if other != user && s.filter(of_user(other)).contains(c) {
        assert(s.filter(of_others(user)).contains(c) <==> s.contains(c) && of_others(user)(c));
    }
}

/// A frame for a user reaches each connection that was added for them.
pub proof fn added_connections_are_reached(s: Seq<ConnectionView>, c: ConnectionView)
    ensures
        ids_of(s.push(c).filter(of_user(c.user))).contains(c.id),
{
    let t = s.push(c);
    let f = t.filter(of_user(c.user));
    filter_keeps_what_fits(t, of_user(c.user));
    assert(t[s.len() as int] == c);
    assert(t.contains(c));
    assert(f.contains(c));
    let k = choose|k: int| 0 <= k < f.len() && f[k] == c;
    assert(ids_of(f)[k] == c.id);
}

/// The events that matter so much that they wait for room.
pub open spec fn is_critical(e: Seq<char>) -> bool {
    ||| e == "unread-updated"@
    ||| e == "message-read"@
    ||| e == "messages-read"@
    ||| e == "message-deleted"@
    ||| e == "message-edited"@
    ||| e == "message-reaction"@
    ||| e == "message-mention"@
    ||| e == "receiveMessage"@
    ||| e == "receive-channel-message"@
    ||| e == "error"@
    ||| e == "dm-error"@
    ||| e == "friendship-removed"@
    ||| e == "friendship-added"@
    ||| e == "contact-block-updated"@
    ||| e == "channel-added"@
    ||| e == "channel-left"@
    ||| e == "channel-deleted"@
    ||| e == "channel-member-joined"@
    ||| e == "channel-member-left"@
    ||| e == "channel-avatar-updated"@
    ||| e == "channel-name-updated"@
    ||| e == "channel-slowmode-updated"@
    ||| e == "channel-chat-locked-updated"@
    ||| e == "channel-moderation-updated"@
    ||| e == "conversation-deleted"@
    ||| e == "session:revoked"@
    ||| e == "user-status-changed"@
    ||| e == "announcement:published"@
    ||| text::begins_with(e, "call:"@)
    ||| text::begins_with(e, "channel-voice:"@)
}

/// Whether an event matters so much that it waits for room.
pub fn is_critical_event(msg_type: &str) -> (r: bool)
    ensures
        r == is_critical(msg_type@),
{
    text::same_text(msg_type, "unread-updated") || text::same_text(msg_type, "message-read")
        || text::same_text(msg_type, "messages-read") || text::same_text(
        msg_type,
        "message-deleted",
    ) || text::same_text(msg_type, "message-edited") || text::same_text(
        msg_type,
        "message-reaction",
    ) || text::same_text(msg_type, "message-mention") || text::same_text(msg_type, "receiveMessage")
        || text::same_text(msg_type, "receive-channel-message") || text::same_text(
        msg_type,
        "error",
    ) || text::same_text(msg_type, "dm-error") || text::same_text(msg_type, "friendship-removed")
        || text::same_text(msg_type, "friendship-added") || text::same_text(
        msg_type,
        "contact-block-updated",
    ) || text::same_text(msg_type, "channel-added") || text::same_text(msg_type, "channel-left")
        || text::same_text(msg_type, "channel-deleted") || text::same_text(
        msg_type,
        "channel-member-joined",
    ) || text::same_text(msg_type, "channel-member-left") || text::same_text(
        msg_type,
        "channel-avatar-updated",
    ) || text::same_text(msg_type, "channel-name-updated") || text::same_text(
        msg_type,
        "channel-slowmode-updated",
    ) || text::same_text(msg_type, "channel-chat-locked-updated") || text::same_text(
        msg_type,
        "channel-moderation-updated",
    ) || text::same_text(msg_type, "conversation-deleted") || text::same_text(
        msg_type,
        "session:revoked",
    ) || text::same_text(msg_type, "user-status-changed") || text::same_text(
        msg_type,
        "announcement:published",
    ) || text::starts_with(msg_type, "call:") || text::starts_with(msg_type, "channel-voice:")
}

/// What a connection said to a frame at first.
#[derive(Clone, Copy, Debug, PartialEq, Eq, Structural)]
pub enum Offer {
    Taken,
    Full,
    Closed,
}

/// What becomes of a frame.
#[derive(Clone, Copy, Debug, PartialEq, Eq, Structural)]
pub enum FrameFate {
    Sent,
    /// Wait up to this many milliseconds for room.
    Wait(u64),
    Dropped,
}

/// What becomes of a frame: one that matters waits a little for room, any other is dropped
/// without it.
pub open spec fn frame_fate(offer: Offer, critical: bool) -> FrameFate {
    match offer {
        Offer::Taken => FrameFate::Sent,
        Offer::Full => if critical {
            FrameFate::Wait(CRITICAL_WAIT_MS)
        } else {
            FrameFate::Dropped
        },
        Offer::Closed => FrameFate::Dropped,
    }
}

/// What becomes of a frame: one that matters waits a little for room, any other is dropped
/// without it.
pub fn enqueue_frame(offer: Offer, critical: bool) -> (r: FrameFate)
    ensures
        r == frame_fate(offer, critical),
{
    match offer {
        Offer::Taken => FrameFate::Sent,
        Offer::Full => if critical {
            FrameFate::Wait(CRITICAL_WAIT_MS)
        } else {
            FrameFate::Dropped
        },
        Offer::Closed => FrameFate::Dropped,
    }
}

/// The events that wait for room are those about messages, counts, people, channels, calls and voice
/// rooms, by their names; an event with a name of any other length, unless it is about a call or a
/// voice room, does not wait.
pub proof fn events_that_matter_wait(e: Seq<char>)
    ensures
        is_critical("unread-updated"@),
        is_critical("message-read"@),
        is_critical("messages-read"@),
        is_critical("message-deleted"@),
        is_critical("message-edited"@),
        is_critical("message-reaction"@),
        is_critical("message-mention"@),
        is_critical("receiveMessage"@),
        is_critical("receive-channel-message"@),
        is_critical("error"@),
        is_critical("dm-error"@),
        is_critical("friendship-removed"@),
        is_critical("friendship-added"@),
        is_critical("contact-block-updated"@),
        is_critical("channel-added"@),
        is_critical("channel-left"@),
        is_critical("channel-deleted"@),
        is_critical("channel-member-joined"@),
        is_critical("channel-member-left"@),
        is_critical("channel-avatar-updated"@),
        is_critical("channel-name-updated"@),
        is_critical("channel-slowmode-updated"@),
        is_critical("channel-chat-locked-updated"@),
        is_critical("channel-moderation-updated"@),
        is_critical("conversation-deleted"@),
        is_critical("session:revoked"@),
        is_critical("user-status-changed"@),
        is_critical("announcement:published"@),
        text::begins_with(e, "call:"@) || text::begins_with(e, "channel-voice:"@) ==> is_critical(e),
        is_critical(e) && !text::begins_with(e, "call:"@) && !text::begins_with(e, "channel-voice:"@)
            ==> e.len() == 5 || e.len() == 8 || 12 <= e.len() <= 27,
{
    reveal_strlit("unread-updated");
    reveal_strlit("message-read");
    reveal_strlit("messages-read");
    reveal_strlit("message-deleted");
    reveal_strlit("message-edited");
    reveal_strlit("message-reaction");
    reveal_strlit("message-mention");
    reveal_strlit("receiveMessage");
    reveal_strlit("receive-channel-message");
    reveal_strlit("error");
    reveal_strlit("dm-error");
    reveal_strlit("friendship-removed");
    reveal_strlit("friendship-added");
    reveal_strlit("contact-block-updated");
    reveal_strlit("channel-added");
    reveal_strlit("channel-left");
    reveal_strlit("channel-deleted");
    reveal_strlit("channel-member-joined");
    reveal_strlit("channel-member-left");
    reveal_strlit("channel-avatar-updated");
    reveal_strlit("channel-name-updated");
    reveal_strlit("channel-slowmode-updated");
    reveal_strlit("channel-chat-locked-updated");
    reveal_strlit("channel-moderation-updated");
    reveal_strlit("conversation-deleted");
    reveal_strlit("session:revoked");
    reveal_strlit("user-status-changed");
    reveal_strlit("announcement:published");
}

/// A frame that is taken is sent, whether it matters or not; without room one that matters waits 50
/// milliseconds and any other is dropped, and over a closed connection nothing is sent.
pub proof fn frames_that_matter_wait_for_room(offer: Offer, critical: bool)
    ensures
        frame_fate(offer, critical) == FrameFate::Sent <==> offer == Offer::Taken,
        frame_fate(offer, critical) == FrameFate::Wait(50) <==> offer == Offer::Full && critical,
        frame_fate(offer, critical) == FrameFate::Dropped <==> offer == Offer::Closed || (offer
            == Offer::Full && !critical),
{
}

/// A frame for a user reaches exactly the connections of that user, and one for a family of sessions
/// exactly those of the user that belong to it.
pub proof fn frames_reach_their_user(
    s: Seq<ConnectionView>,
    user: Seq<char>,
    family: Seq<char>,
    id: u64,
    c: ConnectionView,
)
    ensures
        s.filter(of_user(user)).contains(c) <==> s.contains(c) && c.user == user,
        s.filter(of_others(user)).contains(c) <==> s.contains(c) && c.user != user,
        s.filter(of_family(user, family)).contains(c) <==> s.contains(c) && c.user == user
            && c.family == Some(family),
        s.filter(outside_family(user, family)).contains(c) <==> s.contains(c) && (c.user != user
            || c.family != Some(family)),
        s.filter(not_this(user, id)).contains(c) <==> s.contains(c) && (c.user != user || c.id
            != id),
{
    filter_keeps_what_fits(s, of_user(user));
    filter_keeps_what_fits(s, of_others(user));
    filter_keeps_what_fits(s, of_family(user, family));
    filter_keeps_what_fits(s, outside_family(user, family));
    filter_keeps_what_fits(s, not_this(user, id));
}

/// A frame for some users reaches exactly the connections of each of them.
pub proof fn frames_reach_all_their_users(
    s: Seq<ConnectionView>,
    users: Seq<Seq<char>>,
    id: u64,
)
    ensures
        ids_of_users(s, users).contains(id) <==> exists|c: ConnectionView|
            s.contains(c) && c.id == id && #[trigger] users.contains(c.user),
    decreases users.len(),
{
    if users.len() > 0 {
        let rest = users.drop_last();
        let u = users.last();
        let mine = s.filter(of_user(u));
        frames_reach_all_their_users(s, rest, id);
        filter_keeps_what_fits(s, of_user(u));
        let a = ids_of_users(s, rest);
        let b = ids_of(mine);
        assert(a + b == ids_of_users(s, users));
        if a.contains(id) {
            let k = choose|k: int| 0 <= k < a.len() && a[k] == id;
            assert((a + b)[k] == id);
            let c = choose|c: ConnectionView|
                s.contains(c) && c.id == id && #[trigger] rest.contains(c.user);
            let m = choose|m: int| 0 <= m < rest.len() && rest[m] == c.user;
            assert(users[m] == c.user);
            assert(users.contains(c.user));
        }
        if b.contains(id) {
            let k = choose|k: int| 0 <= k < b.len() && b[k] == id;
            assert((a + b)[a.len() + k] == id);
            let c = mine[k];
            assert(mine.contains(c));
            assert(s.contains(c) && c.user == u && c.id == id);
            assert(users[users.len() - 1] == c.user);
            assert(users.contains(c.user));
        }
        if (a + b).contains(id) {
            let k = choose|k: int| 0 <= k < (a + b).len() && (a + b)[k] == id;
            if k < a.len() {
                assert(a[k] == id);
            } else {
                assert(b[k - a.len()] == id);
            }
        }
        if exists|c: ConnectionView|
            s.contains(c) && c.id == id && #[trigger] users.contains(c.user) {
            let c = choose|c: ConnectionView|
                s.contains(c) && c.id == id && #[trigger] users.contains(c.user);
            let m = choose|m: int| 0 <= m < users.len() && users[m] == c.user;
            if m < rest.len() {
                assert(rest[m] == c.user);
                assert(rest.contains(c.user));
            } else {
                assert(mine.contains(c));
                let k = choose|k: int| 0 <= k < mine.len() && mine[k] == c;
                assert(b[k] == id);
            }
        }
    }
}

/// A connection keeps 512 frames, and one that matters waits a twentieth of a second.
pub proof fn connections_have_limits()
    ensures
        WS_SEND_BUFFER == 512,
        1000 == 20 * CRITICAL_WAIT_MS,
{
}

} // verus!
