//! Lists of identifiers.
use vstd::prelude::*;
use crate::ids::ObjectId;
use crate::text;

verus! {

/// The first occurrence of each identifier, in order.
pub open spec fn distinct(s: Seq<ObjectId>) -> Seq<ObjectId>
    decreases s.len(),
{
    if s.len() == 0 {
        Seq::empty()
    } else {
        let d = distinct(s.drop_last());
        if d.contains(s.last()) {
            d
        } else {
            d.push(s.last())
        }
    }
}

/// Taking first occurrences loses no identifier, adds none and repeats none.
pub proof fn distinct_keeps_each_once(s: Seq<ObjectId>)
    ensures
        distinct(s).no_duplicates(),
        forall|x: ObjectId| #[trigger] distinct(s).contains(x) <==> s.contains(x),
    decreases s.len(),
{
    if s.len() > 0 {
        distinct_keeps_each_once(s.drop_last());
        let d = distinct(s.drop_last());
        assert forall|x: ObjectId| #[trigger] distinct(s).contains(x) <==> s.contains(x) by {
            assert(d.contains(x) <==> s.drop_last().contains(x));
            if s.contains(x) {
                let i = choose|i: int| 0 <= i < s.len() && s[i] == x;
                if i < s.len() - 1 {
                    assert(s.drop_last()[i] == x);
                    assert(d.contains(x));
                    let k = choose|k: int| 0 <= k < d.len() && d[k] == x;
                    assert(d.push(s.last())[k] == x);
                } else {
                    assert(d.push(s.last())[d.len() as int] == x);
                }
            }
            if distinct(s).contains(x) {
                if d.contains(x) {
                    let k = choose|k: int| 0 <= k < s.drop_last().len() && s.drop_last()[k] == x;
                    assert(s[k] == x);
                } else {
                    assert(x == s.last());
                    assert(s[s.len() - 1] == x);
                }
            }
        }
    }
}

/// Whether an identifier is in a list.
pub fn contains_id(v: &Vec<ObjectId>, id: ObjectId) -> (r: bool)
    ensures
        r == v@.contains(id),
{
    let mut i: usize = 0;
    while i < v.len()
        invariant
            i <= v.len(),
            forall|k: int| 0 <= k < i ==> v@[k] != id,
        decreases v.len() - i,
    {
        if v[i] == id {
            assert(v@[i as int] == id);
            return true;
        }
        i = i + 1;
    }
    false
}

/// The first occurrence of each identifier, in order.
pub fn distinct_ids(v: &Vec<ObjectId>) -> (r: Vec<ObjectId>)
    ensures
        r@ == distinct(v@),
{
    let mut out: Vec<ObjectId> = Vec::new();
    let mut i: usize = 0;
    while i < v.len()
        invariant
            i <= v.len(),
            out@ == distinct(v@.take(i as int)),
        decreases v.len() - i,
    {
        let id = v[i];
        proof {
            assert(v@.take(i + 1).drop_last() =~= v@.take(i as int));
        }
        if !contains_id(&out, id) {
            out.push(id);
        }
        i = i + 1;
    }
    proof {
        assert(v@.take(v@.len() as int) =~= v@);
    }
    out
}

/// The identifiers of a list that are not in another, in order.
pub open spec fn missing_from(s: Seq<ObjectId>, other: Seq<ObjectId>) -> Seq<ObjectId> {
    s.filter(outside(other))
}

/// Not being in a list.
pub open spec fn outside(other: Seq<ObjectId>) -> spec_fn(ObjectId) -> bool {
    |x: ObjectId| !other.contains(x)
}

/// Being another one.
pub open spec fn other_than(id: ObjectId) -> spec_fn(ObjectId) -> bool {
    |x: ObjectId| x != id
}

/// The identifiers of a list but for one, in order.
pub open spec fn all_but(s: Seq<ObjectId>, id: ObjectId) -> Seq<ObjectId> {
    s.filter(other_than(id))
}

/// One step of filtering: what the next element adds.
pub proof fn filter_step<A>(s: Seq<A>, p: spec_fn(A) -> bool, i: int)
    requires
        0 <= i < s.len(),
    ensures
        s.take(i + 1).filter(p) == (if p(s[i]) {
            s.take(i).filter(p).push(s[i])
        } else {
            s.take(i).filter(p)
        }),
{
    reveal(Seq::filter);
    assert(s.take(i + 1).drop_last() =~= s.take(i));
}

/// Filtering nothing gives nothing, and the whole is the whole.
pub proof fn filter_ends<A>(s: Seq<A>, p: spec_fn(A) -> bool)
    ensures
        s.take(0).filter(p) == Seq::<A>::empty(),
        s.take(s.len() as int) == s,
{
    reveal(Seq::filter);
    assert(s.take(s.len() as int) =~= s);
}

/// Filtering keeps exactly what it asks for, and keeps a list free of repetitions.
pub proof fn filter_keeps_what_fits<A>(s: Seq<A>, p: spec_fn(A) -> bool)
    ensures
        s.no_duplicates() ==> s.filter(p).no_duplicates(),
        forall|x: A| #[trigger] s.filter(p).contains(x) <==> s.contains(x) && p(x),
    decreases s.len(),
{
    reveal(Seq::filter);
    if s.len() > 0 {
        let rest = s.drop_last();
        filter_keeps_what_fits(rest, p);
        let f = rest.filter(p);
        assert forall|x: A| #[trigger] s.filter(p).contains(x) <==> s.contains(x) && p(x) by {
            assert(f.contains(x) <==> rest.contains(x) && p(x));
            if s.contains(x) && p(x) {
                let i = choose|i: int| 0 <= i < s.len() && s[i] == x;
                if i < s.len() - 1 {
                    assert(rest[i] == x);
                    let k = choose|k: int| 0 <= k < f.len() && f[k] == x;
                    assert(s.filter(p)[k] == x);
                } else {
                    assert(s.filter(p)[f.len() as int] == x);
                }
            }
            if s.filter(p).contains(x) {
                if f.contains(x) {
                    let k = choose|k: int| 0 <= k < rest.len() && rest[k] == x;
                    assert(s[k] == x);
                } else {
                    assert(p(s.last()));
                    assert(s[s.len() - 1] == x);
                }
            }
        }
        if s.no_duplicates() {
            assert(rest.no_duplicates());
            assert(f.contains(s.last()) <==> rest.contains(s.last()) && p(s.last()));
            if p(s.last()) && f.contains(s.last()) {
                let k = choose|k: int| 0 <= k < rest.len() && rest[k] == s.last();
                assert(s[k] == s[s.len() - 1]);
            }
        }
    }
}

/// The identifiers of a list but for one, in order.
pub fn ids_but(v: &Vec<ObjectId>, id: ObjectId) -> (r: Vec<ObjectId>)
    ensures
        r@ == all_but(v@, id),
{
    let ghost p = other_than(id);
    let mut out: Vec<ObjectId> = Vec::new();
    let mut i: usize = 0;
    proof {
        filter_ends(v@, p);
    }
    while i < v.len()
        invariant
            i <= v.len(),
            p == other_than(id),
            out@ == v@.take(i as int).filter(p),
        decreases v.len() - i,
    {
        proof {
            filter_step(v@, p, i as int);
        }
        if v[i] != id {
            out.push(v[i]);
        }
        i = i + 1;
    }
    proof {
        filter_ends(v@, p);
    }
    out
}

/// The identifiers of a list that are not in another, in order.
pub fn ids_missing_from(v: &Vec<ObjectId>, other: &Vec<ObjectId>) -> (r: Vec<ObjectId>)
    ensures
        r@ == missing_from(v@, other@),
{
    let ghost p = outside(other@);
    let mut out: Vec<ObjectId> = Vec::new();
    let mut i: usize = 0;
    proof {
        filter_ends(v@, p);
    }
    while i < v.len()
        invariant
            i <= v.len(),
            p == outside(other@),
            out@ == v@.take(i as int).filter(p),
        decreases v.len() - i,
    {
        proof {
            filter_step(v@, p, i as int);
        }
        if !contains_id(other, v[i]) {
            out.push(v[i]);
        }
        i = i + 1;
    }
    proof {
        filter_ends(v@, p);
    }
    out
}

/// A list with an identifier at the end, unless it is there already.
pub open spec fn with_id(s: Seq<ObjectId>, id: ObjectId) -> Seq<ObjectId> {
    if s.contains(id) {
        s
    } else {
        s.push(id)
    }
}

/// A copy of a list.
pub fn copy_ids(v: &Vec<ObjectId>) -> (r: Vec<ObjectId>)
    ensures
        r@ == v@,
{
    let mut out: Vec<ObjectId> = Vec::new();
    let mut i: usize = 0;
    while i < v.len()
        invariant
            i <= v.len(),
            out@ == v@.take(i as int),
        decreases v.len() - i,
    {
        proof {
            assert(v@.take(i + 1) =~= v@.take(i as int).push(v@[i as int]));
        }
        out.push(v[i]);
        i = i + 1;
    }
    proof {
        assert(v@.take(v@.len() as int) =~= v@);
    }
    out
}

/// A copy of a list with an identifier at the end, unless it is there already.
pub fn ids_with(v: &Vec<ObjectId>, id: ObjectId) -> (r: Vec<ObjectId>)
    ensures
        r@ == with_id(v@, id),
{
    let mut out = copy_ids(v);
    if !contains_id(v, id) {
        out.push(id);
    }
    out
}

/// The texts of identifiers.
pub open spec fn hex_all(s: Seq<ObjectId>) -> Seq<Seq<char>> {
    s.map_values(|x: ObjectId| x.hex())
}

/// What a list of texts says.
pub open spec fn texts(v: Seq<String>) -> Seq<Seq<char>> {
    v.map_values(|x: String| x@)
}

/// The texts of identifiers.
pub fn hex_ids(v: &Vec<ObjectId>) -> (r: Vec<String>)
    ensures
        texts(r@) == hex_all(v@),
{
    let mut out: Vec<String> = Vec::new();
    let mut i: usize = 0;
    while i < v.len()
        invariant
            i <= v.len(),
            texts(out@) == hex_all(v@.take(i as int)),
        decreases v.len() - i,
    {
        let h = v[i].to_hex();
        proof {
            assert(texts(out@.push(h)) =~= texts(out@).push(h@));
            assert(hex_all(v@.take(i + 1)) =~= hex_all(v@.take(i as int)).push(h@));
        }
        out.push(h);
        i = i + 1;
    }
    proof {
        assert(v@.take(v@.len() as int) =~= v@);
    }
    out
}

/// Being another text.
pub open spec fn other_text(t: Seq<char>) -> spec_fn(Seq<char>) -> bool {
    |x: Seq<char>| x != t
}

/// The texts of a list but for one, in order.
pub fn texts_but(v: &Vec<String>, t: &str) -> (r: Vec<String>)
    ensures
        texts(r@) == texts(v@).filter(other_text(t@)),
{
    let ghost p = other_text(t@);
    let ghost s = texts(v@);
    let mut out: Vec<String> = Vec::new();
    let mut i: usize = 0;
    proof {
        filter_ends(s, p);
        assert(texts(out@) =~= Seq::empty());
    }
    while i < v.len()
        invariant
            i <= v.len(),
            p == other_text(t@),
            s == texts(v@),
            texts(out@) == s.take(i as int).filter(p),
        decreases v.len() - i,
    {
        proof {
            filter_step(s, p, i as int);
        }
        if !text::same_text(&v[i], t) {
            let c = v[i].clone();
            proof {
                assert(texts(out@.push(c)) =~= texts(out@).push(c@));
            }
            out.push(c);
        }
        i = i + 1;
    }
    proof {
        filter_ends(s, p);
    }
    out
}

/// Whether a text is in a list.
pub fn contains_text(v: &Vec<String>, t: &str) -> (r: bool)
    ensures
        r == texts(v@).contains(t@),
{
    let mut i: usize = 0;
    while i < v.len()
        invariant
            i <= v.len(),
            forall|k: int| 0 <= k < i ==> texts(v@)[k] != t@,
        decreases v.len() - i,
    {
        if text::same_text(&v[i], t) {
            assert(texts(v@)[i as int] == t@);
            return true;
        }
        i = i + 1;
    }
    false
}

/// The first occurrence of each text, in order.
pub open spec fn distinct_of(s: Seq<Seq<char>>) -> Seq<Seq<char>>
    decreases s.len(),
{
    if s.len() == 0 {
        Seq::empty()
    } else {
        let d = distinct_of(s.drop_last());
        if d.contains(s.last()) {
            d
        } else {
            d.push(s.last())
        }
    }
}

/// The first occurrence of each text, in order.
pub fn distinct_texts(v: &Vec<String>) -> (r: Vec<String>)
    ensures
        texts(r@) == distinct_of(texts(v@)),
{
    let ghost s = texts(v@);
    let mut out: Vec<String> = Vec::new();
    let mut i: usize = 0;
    proof {
        assert(texts(out@) =~= Seq::empty());
    }
    while i < v.len()
        invariant
            i <= v.len(),
            s == texts(v@),
            texts(out@) == distinct_of(s.take(i as int)),
        decreases v.len() - i,
    {
        proof {
            assert(s.take(i + 1).drop_last() =~= s.take(i as int));
        }
        if !contains_text(&out, &v[i]) {
            let c = v[i].clone();
            proof {
                assert(texts(out@.push(c)) =~= texts(out@).push(c@));
            }
            out.push(c);
        }
        i = i + 1;
    }
    proof {
        assert(s.take(s.len() as int) =~= s);
    }
    out
}

/// Taking first occurrences loses no text, adds none and repeats none.
pub proof fn distinct_of_keeps_each_once(s: Seq<Seq<char>>)
    ensures
        distinct_of(s).no_duplicates(),
        forall|x: Seq<char>| #[trigger] distinct_of(s).contains(x) <==> s.contains(x),
    decreases s.len(),
{
    if s.len() > 0 {
        distinct_of_keeps_each_once(s.drop_last());
        let d = distinct_of(s.drop_last());
        assert forall|x: Seq<char>| #[trigger] distinct_of(s).contains(x) <==> s.contains(x) by {
            assert(d.contains(x) <==> s.drop_last().contains(x));
            if s.contains(x) {
                let i = choose|i: int| 0 <= i < s.len() && s[i] == x;
                if i < s.len() - 1 {
                    assert(s.drop_last()[i] == x);
                    let k = choose|k: int| 0 <= k < d.len() && d[k] == x;
                    assert(d.push(s.last())[k] == x);
                } else {
                    assert(d.push(s.last())[d.len() as int] == x);
                }
            }
            if distinct_of(s).contains(x) {
                if d.contains(x) {
                    let k = choose|k: int| 0 <= k < s.drop_last().len() && s.drop_last()[k] == x;
                    assert(s[k] == x);
                } else {
                    assert(s[s.len() - 1] == x);
                }
            }
        }
    }
}

/// A further identifier is taken up exactly if it was not there before, and then at the end.
pub proof fn first_occurrences_stay_in_order(s: Seq<ObjectId>, x: ObjectId)
    ensures
        distinct(Seq::empty()).len() == 0,
        s.contains(x) ==> distinct(s.push(x)) == distinct(s),
        !s.contains(x) ==> distinct(s.push(x)) == distinct(s).push(x),
{
    distinct_keeps_each_once(s);
    assert(distinct(s).contains(x) <==> s.contains(x));
    assert(s.push(x).drop_last() =~= s);
}

/// A further text is taken up exactly if it was not there before, and then at the end.
pub proof fn first_texts_stay_in_order(s: Seq<Seq<char>>, x: Seq<char>)
    ensures
        distinct_of(Seq::empty()).len() == 0,
        s.contains(x) ==> distinct_of(s.push(x)) == distinct_of(s),
        !s.contains(x) ==> distinct_of(s.push(x)) == distinct_of(s).push(x),
{
    distinct_of_keeps_each_once(s);
    assert(distinct_of(s).contains(x) <==> s.contains(x));
    assert(s.push(x).drop_last() =~= s);
}

/// Leaving one out keeps all others in order; so does leaving out those of another list, and
/// putting one in puts it at the end unless it is there.
pub proof fn leaving_out_keeps_the_rest(
    s: Seq<ObjectId>,
    other: Seq<ObjectId>,
    x: ObjectId,
    id: ObjectId,
)
    ensures
        all_but(Seq::empty(), id).len() == 0,
        x == id ==> all_but(s.push(x), id) == all_but(s, id),
        x != id ==> all_but(s.push(x), id) == all_but(s, id).push(x),
        missing_from(Seq::empty(), other).len() == 0,
        other.contains(x) ==> missing_from(s.push(x), other) == missing_from(s, other),
        !other.contains(x) ==> missing_from(s.push(x), other) == missing_from(s, other).push(x),
        s.contains(id) ==> with_id(s, id) == s,
        !s.contains(id) ==> with_id(s, id) == s.push(id),
{
    reveal(Seq::filter);
    assert(s.push(x).drop_last() =~= s);
}

/// Texts and identifiers are taken over one by one, in order.
pub proof fn lists_are_taken_over_in_order(ids: Seq<ObjectId>, v: Seq<String>, i: int)
    ensures
        hex_all(ids).len() == ids.len(),
        texts(v).len() == v.len(),
        0 <= i < ids.len() ==> hex_all(ids)[i] == ids[i].hex(),
        0 <= i < v.len() ==> texts(v)[i] == v[i]@,
{
}

} // verus!
