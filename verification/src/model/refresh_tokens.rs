//! Refresh tokens as they are stored: hashed, and in families that go back to one login.
use vstd::prelude::*;
use crate::ids::ObjectId;
use crate::lists::{distinct_of, distinct_texts, texts};
use crate::text;

verus! {

/// A stored refresh token. Times are in milliseconds.
pub struct RefreshToken {
    pub id: Option<ObjectId>,
    pub user_id: ObjectId,
    pub token_hash: String,
    pub family_id: String,
    pub expires_at: i64,
    pub created_at: i64,
    pub revoked: bool,
    pub client_fingerprint: Option<String>,
    pub client_user_agent: Option<String>,
    pub client_browser: Option<String>,
    pub client_os: Option<String>,
    pub client_label: Option<String>,
    pub last_used_at: Option<i64>,
}

/// What a filter asks of the family of a token.
pub enum FamilyFilter {
    Any,
    Is(String),
    IsNot(String),
}

/// Which stored tokens are meant: those that fit everything that is asked.
pub struct TokenFilter {
    pub id: Option<ObjectId>,
    pub token_hash: Option<String>,
    pub user_id: Option<ObjectId>,
    pub family: FamilyFilter,
    /// Only those that are not revoked.
    pub unrevoked: bool,
    /// Only those that expire after this time.
    pub expires_after: Option<i64>,
}

impl TokenFilter {
    /// Whether a token is meant.
    pub open spec fn fits(self, t: RefreshToken) -> bool {
        &&& match self.id {
            Some(id) => t.id == Some(id),
            None => true,
        }
        &&& match self.token_hash {
            Some(h) => t.token_hash@ == h@,
            None => true,
        }
        &&& match self.user_id {
            Some(u) => t.user_id == u,
            None => true,
        }
        &&& match self.family {
            FamilyFilter::Any => true,
            FamilyFilter::Is(f) => t.family_id@ == f@,
            FamilyFilter::IsNot(f) => t.family_id@ != f@,
        }
        &&& self.unrevoked ==> !t.revoked
        &&& match self.expires_after {
            Some(now) => t.expires_at > now,
            None => true,
        }
    }

    /// Whether a token is meant.
    pub fn selects(&self, t: &RefreshToken) -> (r: bool)
        ensures
            r == self.fits(*t),
    {
        let id_fits = match self.id {
            Some(id) => match t.id {
                Some(own) => own == id,
                None => false,
            },
            None => true,
        };
        let hash_fits = match &self.token_hash {
            Some(h) => text::same_text(&t.token_hash, h),
            None => true,
        };
        let user_fits = match self.user_id {
            Some(u) => t.user_id == u,
            None => true,
        };
        let family_fits = match &self.family {
            FamilyFilter::Any => true,
            FamilyFilter::Is(f) => text::same_text(&t.family_id, f),
            FamilyFilter::IsNot(f) => !text::same_text(&t.family_id, f),
        };
        let time_fits = match self.expires_after {
            Some(now) => t.expires_at > now,
            None => true,
        };
        id_fits && hash_fits && user_fits && family_fits && (!self.unrevoked || !t.revoked)
            && time_fits
    }
}

impl RefreshToken {
    /// Whether a token can be used at a time: it is not revoked and has not expired.
    pub open spec fn active_at(self, now: i64) -> bool {
        !self.revoked && self.expires_at > now
    }

    /// The tokens with this hash.
    pub fn find_by_hash(token_hash: &str) -> (r: TokenFilter)
        ensures
            forall|t: RefreshToken| #[trigger] r.fits(t) <==> t.token_hash@ == token_hash@,
    {
        TokenFilter {
            id: None,
            token_hash: Some(token_hash.to_owned()),
            user_id: None,
            family: FamilyFilter::Any,
            unrevoked: false,
            expires_after: None,
        }
    }

    /// The token that is revoked by its identifier.
    pub fn revoke_by_id(id: ObjectId) -> (r: TokenFilter)
        ensures
            forall|t: RefreshToken| #[trigger] r.fits(t) <==> t.id == Some(id),
    {
        TokenFilter {
            id: Some(id),
            token_hash: None,
            user_id: None,
            family: FamilyFilter::Any,
            unrevoked: false,
            expires_after: None,
        }
    }

    /// The tokens that are revoked with a family.
    pub fn revoke_family(family_id: &str) -> (r: TokenFilter)
        ensures
            forall|t: RefreshToken| #[trigger] r.fits(t) <==> t.family_id@ == family_id@,
    {
        TokenFilter {
            id: None,
            token_hash: None,
            user_id: None,
            family: FamilyFilter::Is(family_id.to_owned()),
            unrevoked: false,
            expires_after: None,
        }
    }

    /// The tokens that are revoked with all logins of a user.
    pub fn revoke_all_for_user(user_id: ObjectId) -> (r: TokenFilter)
        ensures
            forall|t: RefreshToken| #[trigger] r.fits(t) <==> t.user_id == user_id,
    {
        TokenFilter {
            id: None,
            token_hash: None,
            user_id: Some(user_id),
            family: FamilyFilter::Any,
            unrevoked: false,
            expires_after: None,
        }
    }

    /// The tokens that are revoked with all logins of a user but one.
    pub fn revoke_all_except_family(user_id: ObjectId, except_family_id: &str) -> (r: TokenFilter)
        ensures
            forall|t: RefreshToken|
                #[trigger] r.fits(t) <==> t.user_id == user_id && t.family_id@ != except_family_id@
                    && !t.revoked,
    {
        TokenFilter {
            id: None,
            token_hash: None,
            user_id: Some(user_id),
            family: FamilyFilter::IsNot(except_family_id.to_owned()),
            unrevoked: true,
            expires_after: None,
        }
    }

    /// The tokens of a user that can be used now.
    pub fn find_active_for_user(user_id: ObjectId, now: i64) -> (r: TokenFilter)
        ensures
            forall|t: RefreshToken|
                #[trigger] r.fits(t) <==> t.user_id == user_id && t.active_at(now),
    {
        TokenFilter {
            id: None,
            token_hash: None,
            user_id: Some(user_id),
            family: FamilyFilter::Any,
            unrevoked: true,
            expires_after: Some(now),
        }
    }

    /// The tokens of a family of a user: it is theirs if there is one.
    pub fn family_belongs_to_user(user_id: ObjectId, family_id: &str) -> (r: TokenFilter)
        ensures
            forall|t: RefreshToken|
                #[trigger] r.fits(t) <==> t.user_id == user_id && t.family_id@ == family_id@,
    {
        TokenFilter {
            id: None,
            token_hash: None,
            user_id: Some(user_id),
            family: FamilyFilter::Is(family_id.to_owned()),
            unrevoked: false,
            expires_after: None,
        }
    }

    /// The tokens of a family that can be used now: it is active if there is one.
    pub fn family_is_active(family_id: &str, now: i64) -> (r: TokenFilter)
        ensures
            forall|t: RefreshToken|
                #[trigger] r.fits(t) <==> t.family_id@ == family_id@ && t.active_at(now),
    {
        TokenFilter {
            id: None,
            token_hash: None,
            user_id: None,
            family: FamilyFilter::Is(family_id.to_owned()),
            unrevoked: true,
            expires_after: Some(now),
        }
    }

    /// The tokens of the other families of a user that can be used now.
    pub fn active_family_ids_for_user_except(
        user_id: ObjectId,
        except_family_id: &str,
        now: i64,
    ) -> (r: TokenFilter)
        ensures
            forall|t: RefreshToken|
                #[trigger] r.fits(t) <==> t.user_id == user_id && t.family_id@ != except_family_id@
                    && t.active_at(now),
    {
        TokenFilter {
            id: None,
            token_hash: None,
            user_id: Some(user_id),
            family: FamilyFilter::IsNot(except_family_id.to_owned()),
            unrevoked: true,
            expires_after: Some(now),
        }
    }
}

/// The families of tokens, each once, in order.
pub fn active_family_ids_for_user(families: &Vec<String>) -> (r: Vec<String>)
    ensures
        texts(r@) == distinct_of(texts(families@)),
{
    distinct_texts(families)
}

/// Whether a point in time that may be missing comes before another; a missing one comes first.
pub open spec fn earlier(a: Option<i64>, b: Option<i64>) -> bool {
    match (a, b) {
        (None, Some(_)) => true,
        (Some(x), Some(y)) => x < y,
        _ => false,
    }
}

/// Whether a token was used before another, or, used at the same time, is older.
pub open spec fn used_before(a: RefreshToken, b: RefreshToken) -> bool {
    earlier(a.last_used_at, b.last_used_at) || (a.last_used_at == b.last_used_at && a.created_at
        < b.created_at)
}

fn is_used_before(a: &RefreshToken, b: &RefreshToken) -> (r: bool)
    ensures
        r == used_before(*a, *b),
{
    match (a.last_used_at, b.last_used_at) {
        (None, Some(_)) => true,
        (Some(x), Some(y)) => x < y || (x == y && a.created_at < b.created_at),
        (None, None) => a.created_at < b.created_at,
        (Some(_), None) => false,
    }
}

/// Whether tokens stand with the one that was used last first.
pub open spec fn last_used_first(s: Seq<RefreshToken>) -> bool {
    forall|i: int, j: int| 0 <= i < j < s.len() ==> !used_before(#[trigger] s[i], #[trigger] s[j])
}

/// Tokens in the order in which sessions are shown: the one that was used last comes first.
pub fn in_order_of_use(tokens: Vec<RefreshToken>) -> (r: Vec<RefreshToken>)
    ensures
        r@.to_multiset() == tokens@.to_multiset(),
        last_used_first(r@),
{
    let ghost all = tokens@.to_multiset();
    let mut rest = tokens;
    let mut out: Vec<RefreshToken> = Vec::new();
    proof {
        broadcast use vstd::seq_lib::group_to_multiset_ensures;

        assert(rest@.to_multiset().add(out@.to_multiset()) =~= all);
    }
    while rest.len() > 0
        invariant
            rest@.to_multiset().add(out@.to_multiset()) == all,
            last_used_first(out@),
        decreases rest.len(),
    {
        let ghost before = rest@;
        let ghost sorted = out@;
        let mut at: usize = 0;
        match rest.pop() {
            None => {},
            Some(t) => {
                while at < out.len() && !is_used_before(&out[at], &t)
                    invariant
                        at <= out.len(),
                        out@ == sorted,
                        forall|i: int| 0 <= i < at ==> !used_before(#[trigger] out@[i], t),
                    decreases out.len() - at,
                {
                    at = at + 1;
                }
                proof {
                    lemma_insert_in_order(sorted, at as int, t);
                    broadcast use vstd::seq_lib::group_to_multiset_ensures;

                    assert(before =~= rest@.push(t));
                    assert(rest@.push(t).to_multiset() =~= rest@.to_multiset().insert(t));
                    assert(sorted.insert(at as int, t).to_multiset()
                        =~= sorted.to_multiset().insert(t));
                }
                out.insert(at, t);
                proof {
                    assert(rest@.to_multiset().add(out@.to_multiset()) =~= all);
                }
            },
        }
    }
    proof {
        broadcast use vstd::seq_lib::group_to_multiset_ensures;

        assert(rest@ =~= Seq::empty());
        assert(out@.to_multiset() =~= all);
    }
    out
}

proof fn lemma_insert_in_order(s: Seq<RefreshToken>, at: int, t: RefreshToken)
    requires
        last_used_first(s),
        0 <= at <= s.len(),
        forall|i: int| 0 <= i < at ==> !used_before(#[trigger] s[i], t),
        at < s.len() ==> used_before(s[at], t),
    ensures
        last_used_first(s.insert(at, t)),
{
    let r = s.insert(at, t);
    assert forall|i: int, j: int| 0 <= i < j < r.len() implies !used_before(
        #[trigger] r[i],
        #[trigger] r[j],
    ) by {
        let a = if i < at {
            i
        } else {
            i - 1
        };
        let b = if j < at {
            j
        } else {
            j - 1
        };
        if i != at && j != at {
            assert(r[i] == s[a] && r[j] == s[b]);
        } else if j == at {
            assert(r[i] == s[i]);
        } else {
            assert(r[j] == s[j - 1]);
            if j - 1 > at {
                assert(!used_before(s[at], s[j - 1]));
            }
        }
    }
}

/// Tokens after those that a filter means were revoked.
pub open spec fn after_revoking(tokens: Seq<RefreshToken>, filter: TokenFilter) -> Seq<RefreshToken> {
    tokens.map_values(
        |t: RefreshToken|
            RefreshToken { revoked: t.revoked || filter.fits(t), ..t },
    )
}

/// Whether some token of a family can be used.
pub open spec fn family_active(tokens: Seq<RefreshToken>, family: Seq<char>, now: i64) -> bool {
    exists|i: int|
        0 <= i < tokens.len() && (#[trigger] tokens[i]).family_id@ == family && tokens[i].active_at(
            now,
        )
}

/// Once a family is revoked, none of its tokens can ever be used again, and nothing changes for
/// any other family.
pub proof fn revoked_families_stay_out(
    tokens: Seq<RefreshToken>,
    filter: TokenFilter,
    family: Seq<char>,
    other: Seq<char>,
    now: i64,
)
    requires
        forall|t: RefreshToken| #[trigger] filter.fits(t) <==> t.family_id@ == family,
    ensures
        !family_active(after_revoking(tokens, filter), family, now),
        other != family ==> (family_active(after_revoking(tokens, filter), other, now)
            <==> family_active(tokens, other, now)),
{
    let after = after_revoking(tokens, filter);
    assert forall|i: int| 0 <= i < tokens.len() implies (#[trigger] after[i]).family_id
        == tokens[i].family_id && after[i].expires_at == tokens[i].expires_at && after[i].revoked
        == (tokens[i].revoked || tokens[i].family_id@ == family) by {
        assert(filter.fits(tokens[i]) <==> tokens[i].family_id@ == family);
    }
    if other != family {
        if family_active(tokens, other, now) {
            let i = choose|i: int|
                0 <= i < tokens.len() && (#[trigger] tokens[i]).family_id@ == other
                    && tokens[i].active_at(now);
            assert(after[i].family_id@ == other && after[i].active_at(now));
        }
        if family_active(after, other, now) {
            let i = choose|i: int|
                0 <= i < after.len() && (#[trigger] after[i]).family_id@ == other
                    && after[i].active_at(now);
            assert(tokens[i].family_id@ == other && tokens[i].active_at(now));
        }
    }
}

/// Ending all other sessions of a user ends every one of them and leaves the current one as it
/// is.
pub proof fn ending_others_keeps_the_current(
    tokens: Seq<RefreshToken>,
    filter: TokenFilter,
    user: ObjectId,
    current: Seq<char>,
    now: i64,
    i: int,
)
    requires
        forall|t: RefreshToken|
            #[trigger] filter.fits(t) <==> t.user_id == user && t.family_id@ != current
                && !t.revoked,
        0 <= i < tokens.len(),
    ensures
        tokens[i].family_id@ == current ==> after_revoking(tokens, filter)[i] == tokens[i],
        tokens[i].user_id == user && tokens[i].family_id@ != current ==> !after_revoking(
            tokens,
            filter,
        )[i].active_at(now),
        tokens[i].user_id != user ==> after_revoking(tokens, filter)[i] == tokens[i],
{
    assert(filter.fits(tokens[i]) <==> tokens[i].user_id == user && tokens[i].family_id@ != current
        && !tokens[i].revoked);
}

/// When a token that is made now expires.
pub fn bson_expiry(now: i64, max_age_ms: i64) -> (r: i64)
    requires
        i64::MIN <= now + max_age_ms <= i64::MAX,
    ensures
        r == now + max_age_ms,
{
    now + max_age_ms
}

/// A token can be used exactly until it is revoked or the moment of its expiry has come.
pub proof fn tokens_end_when_revoked_or_expired(t: RefreshToken, now: i64, later: i64)
    ensures
        t.revoked ==> !t.active_at(now),
        !t.revoked ==> (t.active_at(now) <==> now < t.expires_at),
        now <= later && t.active_at(later) ==> t.active_at(now),
{
}

/// A token is meant exactly if it fits each single thing that is asked; what is not asked does
/// not count.
pub proof fn every_condition_of_a_token_filter_counts(f: TokenFilter, t: RefreshToken)
    ensures
        f.fits(t) <==> (f.id is None || t.id == Some(f.id->0)) && (f.token_hash is None
            || t.token_hash@ == f.token_hash->0@) && (f.user_id is None || t.user_id == f.user_id->0)
            && (f.family matches FamilyFilter::Is(x) ==> t.family_id@ == x@) && (
        f.family matches FamilyFilter::IsNot(x) ==> t.family_id@ != x@) && !(f.unrevoked
            && t.revoked) && (f.expires_after is None || t.expires_at > f.expires_after->0),
{
}

/// A token that was never used comes after every one that was; among those that were used at the
/// same time the younger one comes first. No two tokens were each used before the other.
pub proof fn tokens_are_ordered_by_use(a: RefreshToken, b: RefreshToken, c: RefreshToken)
    ensures
        a.last_used_at is None && b.last_used_at is Some ==> used_before(a, b),
        a.last_used_at is Some && b.last_used_at is None ==> !used_before(a, b),
        a.last_used_at is Some && b.last_used_at is Some && a.last_used_at->0 < b.last_used_at->0
            ==> used_before(a, b),
        a.last_used_at is Some && b.last_used_at is Some && a.last_used_at->0 > b.last_used_at->0
            ==> !used_before(a, b),
        a.last_used_at == b.last_used_at ==> (used_before(a, b) <==> a.created_at < b.created_at),
        !(used_before(a, b) && used_before(b, a)),
        used_before(a, b) && used_before(b, c) ==> used_before(a, c),
{
}

/// In the order in which sessions are shown no token stands before one that was used later.
pub proof fn the_last_used_comes_first(s: Seq<RefreshToken>, i: int, j: int)
    requires
        last_used_first(s),
        0 <= i < j < s.len(),
    ensures
        s[i].last_used_at is None ==> s[j].last_used_at is None,
        s[i].last_used_at is Some && s[j].last_used_at is Some ==> s[i].last_used_at->0
            >= s[j].last_used_at->0,
        s[i].last_used_at == s[j].last_used_at ==> s[i].created_at >= s[j].created_at,
{
    assert(!used_before(s[i], s[j]));
}

/// Revoking changes nothing of a token but that it is revoked, and takes nothing back.
pub proof fn revoking_only_revokes(s: Seq<RefreshToken>, f: TokenFilter, i: int)
    requires
        0 <= i < s.len(),
    ensures
        after_revoking(s, f).len() == s.len(),
        after_revoking(s, f)[i] == (RefreshToken { revoked: after_revoking(s, f)[i].revoked, ..s[i] }),
        after_revoking(s, f)[i].revoked <==> s[i].revoked || f.fits(s[i]),
{
}

} // verus!
