//! Contacts: their profiles, searching for them, the list of conversations, and silencing,
//! blocking and wiping them.
use vstd::prelude::*;
use crate::answers::{Answer, Lookup};
use crate::controllers::conversation::{settle_conversation, SettleFacts,
    SettleNext};
use crate::controllers::friends::{fetch_users_map, places, places_hold_the_users, Listing};
use crate::ids::{parsed_id, ObjectId};
use crate::lists::{contains_id, contains_text, copy_ids, filter_ends, filter_step,
    ids_missing_from, missing_from, texts};
use crate::model::friend_requests::{others, peers, FriendRequest};
use crate::model::messages::{count_under, is_last_under, GroupBy, MessageFilter, MessageRecord};
use crate::model::users::User;
use crate::reply::{message_reply, retry_message, text_reply, Reply};
use crate::table::IdTable;
use crate::text::{self, opt_text, text_or_empty};
use crate::time::{iso, iso_opt, iso_opt_of, rfc3339};
use crate::utils::user::json::{availability_status_name, availability_status_str, non_blank,
    resolve_display_name};
use crate::ws::calls::{cut_off_call, cut_off_notices, notices, CallNotice, CallSession};

verus! {

/// How many characters a search needs.
pub const MIN_SEARCH_LENGTH: usize = 3;

/// How many characters a search may have.
pub const MAX_SEARCH_LENGTH: usize = 64;

/// How many users a search finds at most.
pub const SEARCH_RESULT_LIMIT: i64 = 10;

/// Whether somebody may go on as a friend; `not_friends` is the answer if they are none.
pub open spec fn require_friends_of(friends: Answer, not_friends: Reply) -> Result<(), Reply> {
    match friends {
        Answer::Yes => Ok(()),
        Answer::No => Err(not_friends),
        Answer::Failed => Err(retry_message(503, "Temporarily unavailable")),
    }
}

/// Whether somebody may go on as a friend; `not_friends` is the answer if they are none.
#[verifier::when_used_as_spec(require_friends_of)]
pub fn require_friends_or_503(friends: Answer, not_friends: Reply) -> (r: Result<(), Reply>)
    ensures
        r == require_friends_of(friends, not_friends),
{
    match friends {
        Answer::Yes => Ok(()),
        Answer::No => Err(not_friends),
        Answer::Failed => Err(retry_message(503, "Temporarily unavailable")),
    }
}

/// A Polish letter without its mark; any other character as it is.
pub open spec fn fold_letter_of(c: char) -> char {
    match c {
        'ą' | 'Ą' => 'a',
        'ć' | 'Ć' => 'c',
        'ę' | 'Ę' => 'e',
        'ł' | 'Ł' => 'l',
        'ń' | 'Ń' => 'n',
        'ó' | 'Ó' => 'o',
        'ś' | 'Ś' => 's',
        'ź' | 'Ź' | 'ż' | 'Ż' => 'z',
        other => other,
    }
}

/// A Polish letter without its mark; any other character as it is.
pub fn fold_letter(c: char) -> (r: char)
    ensures
        r == fold_letter_of(c),
{
    match c {
        'ą' | 'Ą' => 'a',
        'ć' | 'Ć' => 'c',
        'ę' | 'Ę' => 'e',
        'ł' | 'Ł' => 'l',
        'ń' | 'Ń' => 'n',
        'ó' | 'Ó' => 'o',
        'ś' | 'Ś' => 's',
        'ź' | 'Ź' | 'ż' | 'Ż' => 'z',
        other => other,
    }
}

/// A text with Polish letters without their marks.
pub open spec fn folded(s: Seq<char>) -> Seq<char> {
    s.map_values(|c: char| fold_letter_of(c))
}

/// A text with Polish letters without their marks.
pub fn fold_letters(s: &str) -> (r: String)
    ensures
        r@ == folded(s@),
{
    let v = text::chars_of(s);
    let mut out = String::new();
    let mut i: usize = 0;
    proof {
        assert(out@ =~= folded(s@.take(0)));
    }
    while i < v.len()
        invariant
            i <= v.len(),
            v@ == s@,
            out@ == folded(s@.take(i as int)),
        decreases v.len() - i,
    {
        proof {
            assert(folded(s@.take(i + 1)) =~= folded(s@.take(i as int)).push(
                fold_letter_of(s@[i as int]),
            ));
        }
        out.push(fold_letter(v[i]));
        i = i + 1;
    }
    proof {
        assert(s@.take(s@.len() as int) =~= s@);
    }
    out
}

/// What a search looks for: the text without Polish marks, in lower case, its words joined by
/// single spaces.
pub open spec fn normalized(s: Seq<char>) -> Seq<char> {
    text::spaced(text::words(text::lowercase(folded(s))))
}

/// Whether `r` is what a search for `s` looks for. Where the text without Polish marks is ASCII,
/// the letters `A` to `Z` become `a` to `z`.
pub open spec fn is_normalized(s: Seq<char>, r: Seq<char>) -> bool {
    &&& r == normalized(s)
    &&& text::all_ascii(folded(s)) ==> r == text::spaced(
        text::words(text::ascii_lower(folded(s))),
    )
}

/// What a search looks for.
pub fn normalize_text(s: &str) -> (r: String)
    ensures
        is_normalized(s@, r@),
{
    text::collapse_spaces(&text::to_lowercase(&fold_letters(s)))
}

/// What a search looks for has no white space around it and none but single spaces within. Its
/// words are those of the text in lower case, and taking Polish marks away changes no number of
/// words.
pub proof fn searched_texts_are_tidy(s: Seq<char>, r: Seq<char>)
    requires
        is_normalized(s, r),
    ensures
        text::is_tidy(r),
        text::spaced(text::words(r)) == r,
        text::words(r) == text::words(text::lowercase(folded(s))),
        text::words(folded(s)).len() == text::words(s).len(),
{
    text::collapsing_is_idempotent(text::lowercase(folded(s)));
    assert forall|i: int| 0 <= i < s.len() implies text::is_space(#[trigger] s[i])
        == text::is_space(folded(s)[i]) by {
        assert(folded(s)[i] == fold_letter_of(s[i]));
    }
    text::words_are_counted_by_their_gaps(s, folded(s));
}

/// Normalising twice is normalising once, whatever the text, where what comes out is without
/// Polish marks and in lower case already.
pub proof fn normalized_texts_stay(s: Seq<char>, r: Seq<char>, again: Seq<char>)
    requires
        is_normalized(s, r),
        is_normalized(r, again),
        text::lowercase(folded(r)) == r,
    ensures
        again == r,
{
    searched_texts_are_tidy(s, r);
}

/// Whether a character stays as it is when a search is normalised.
pub open spec fn is_plain(c: char) -> bool {
    c as u32 <= 127 && !('A' <= c && c <= 'Z')
}

/// Where a text without Polish marks is ASCII, normalising it twice is normalising it once, what
/// comes out has as many words, and no letter of it is a Polish one or a capital.
pub proof fn normalizing_is_idempotent(s: Seq<char>, r: Seq<char>, again: Seq<char>)
    requires
        text::all_ascii(folded(s)),
        is_normalized(s, r),
        is_normalized(r, again),
    ensures
        again == r,
        text::words(r).len() == text::words(s).len(),
        forall|i: int| 0 <= i < r.len() ==> is_plain(#[trigger] r[i]),
{
    let low = text::ascii_lower(folded(s));
    assert forall|i: int| 0 <= i < s.len() implies text::is_space(#[trigger] s[i])
        == text::is_space(low[i]) && is_plain(low[i]) by {
        assert(folded(s)[i] == fold_letter_of(s[i]));
        assert(low[i] == text::ascii_lower_char(folded(s)[i]));
        assert(folded(s)[i] as u32 <= 127);
    }
    text::words_are_counted_by_their_gaps(s, low);
    text::collapsing_is_idempotent(low);
    let ws = text::words(low);
    text::words_are_words(low);
    text::joined_words_are_tidy(ws);
    assert forall|i: int| 0 <= i < r.len() implies is_plain(#[trigger] r[i]) by {
        if r[i] != ' ' {
            let (k, j) = choose|k: int, j: int|
                0 <= k < ws.len() && 0 <= j < ws[k].len() && #[trigger] ws[k][j] == r[i];
            assert(low.contains(ws[k][j]));
            let l = choose|l: int| 0 <= l < low.len() && low[l] == r[i];
            assert(text::is_space(s[l]) == text::is_space(low[l]));
        }
    }
    assert(folded(r) =~= r) by {
        assert forall|i: int| 0 <= i < r.len() implies folded(r)[i] == r[i] by {
            assert(is_plain(r[i]));
        }
    }
    assert(text::ascii_lower(r) =~= r) by {
        assert forall|i: int| 0 <= i < r.len() implies text::ascii_lower(r)[i] == r[i] by {
            assert(is_plain(r[i]));
        }
    }
    assert(text::all_ascii(r)) by {
        assert forall|i: int| 0 <= i < r.len() implies (#[trigger] r[i]) as u32 <= 127 by {
            assert(is_plain(r[i]));
        }
    }
}

/// What to search for.
pub struct SearchBody {
    pub search_term: Option<String>,
}

/// What a search asks of a field of an account.
#[derive(Clone, Copy, Debug, PartialEq, Eq, Structural)]
pub enum Condition {
    IsNotTrue,
    IsNotFalse,
    IsAbsent,
}

/// A condition on a field of an account.
#[derive(Clone, Copy, Debug)]
pub struct FieldCondition {
    pub field: &'static str,
    pub condition: Condition,
}

/// A search for users: all but one, at most `limit`, who meet all conditions, and whose name, or
/// whose shown name in upper or lower case, begins as the pattern says.
pub struct SearchQuery {
    pub exclude: ObjectId,
    pub pattern: String,
    pub conditions: Vec<FieldCondition>,
    pub limit: i64,
}

/// What a search asks of an account: it can be used, and is not going to be deleted.
pub open spec fn search_conditions() -> Seq<FieldCondition> {
    seq![
        FieldCondition { field: "isActive", condition: Condition::IsNotFalse },
        FieldCondition { field: "isBlocked", condition: Condition::IsNotTrue },
        FieldCondition { field: "isBanned", condition: Condition::IsNotTrue },
        FieldCondition { field: "isDisabled", condition: Condition::IsNotTrue },
        FieldCondition { field: "deletionScheduledAt", condition: Condition::IsAbsent },
    ]
}

/// The search for a term. `escaped` is the term with everything escaped that means something in
/// a pattern.
pub fn search_users_by_term(exclude: ObjectId, escaped: &str) -> (r: SearchQuery)
    ensures
        r.exclude == exclude,
        r.pattern@ == "^"@ + escaped@,
        r.conditions@ == search_conditions(),
        r.limit == 10,
{
    let mut pattern = "^".to_owned();
    pattern.append(escaped);
    let mut conditions: Vec<FieldCondition> = Vec::new();
    conditions.push(FieldCondition { field: "isActive", condition: Condition::IsNotFalse });
    conditions.push(FieldCondition { field: "isBlocked", condition: Condition::IsNotTrue });
    conditions.push(FieldCondition { field: "isBanned", condition: Condition::IsNotTrue });
    conditions.push(FieldCondition { field: "isDisabled", condition: Condition::IsNotTrue });
    conditions.push(FieldCondition { field: "deletionScheduledAt", condition: Condition::IsAbsent });
    proof {
        assert(conditions@ =~= search_conditions());
    }
    SearchQuery { exclude, pattern, conditions, limit: SEARCH_RESULT_LIMIT }
}

/// What is known so far about a search.
#[derive(Clone, Copy, Debug)]
pub struct SearchFacts {
    /// Whether users could be searched for.
    pub found: Option<bool>,
    /// Whether the friends of the user could be listed.
    pub friends: Option<bool>,
}

/// What to do next about a search.
#[derive(Clone, Copy, Debug)]
pub enum SearchNext {
    Reply(Reply),
    Search(ObjectId),
    ListFriends,
    Show,
}

/// What to do next about a search. `term` is what it looks for.
pub open spec fn search_contacts_next(user_id: &Option<String>, body: &SearchBody, term: Seq<char>, facts: &SearchFacts) -> SearchNext {
    match parsed_id(text_or_empty(*user_id)) {
        None => SearchNext::Reply(text_reply(500, "Internal Server Error.")),
        Some(uid) => match &body.search_term {
            None => SearchNext::Reply(text_reply(400, "Search Term is required.")),
            Some(_) => if term.len() < MIN_SEARCH_LENGTH {
                SearchNext::Reply(text_reply(400, "Search term must be at least 3 characters."))
            } else if term.len() > MAX_SEARCH_LENGTH {
                SearchNext::Reply(text_reply(400, "Search term must be at most 64 characters."))
            } else {
                match (facts.found, facts.friends) {
                    (None, _) => SearchNext::Search(uid),
                    (Some(false), _) => SearchNext::Reply(
                        retry_message(503, "Temporarily unavailable"),
                    ),
                    (Some(true), None) => SearchNext::ListFriends,
                    (Some(true), Some(false)) => SearchNext::Reply(
                        retry_message(503, "Temporarily unavailable"),
                    ),
                    (Some(true), Some(true)) => SearchNext::Show,
                }
            },
        },
    }
}

/// What to do next about a search. `term` is what it looks for.
pub fn search_contacts_for(user_id: &Option<String>, body: &SearchBody, term: &str, facts: &SearchFacts) -> (r: SearchNext)
    ensures
        r == search_contacts_next(user_id, body, term@, facts),
{
    match ObjectId::parse_str(text::or_empty(user_id)) {
        None => SearchNext::Reply(text_reply(500, "Internal Server Error.")),
        Some(uid) => match &body.search_term {
            None => SearchNext::Reply(text_reply(400, "Search Term is required.")),
            Some(_) => if term.unicode_len() < MIN_SEARCH_LENGTH {
                SearchNext::Reply(text_reply(400, "Search term must be at least 3 characters."))
            } else if term.unicode_len() > MAX_SEARCH_LENGTH {
                SearchNext::Reply(text_reply(400, "Search term must be at most 64 characters."))
            } else {
                match (facts.found, facts.friends) {
                    (None, _) => SearchNext::Search(uid),
                    (Some(false), _) => SearchNext::Reply(
                        retry_message(503, "Temporarily unavailable"),
                    ),
                    (Some(true), None) => SearchNext::ListFriends,
                    (Some(true), Some(false)) => SearchNext::Reply(
                        retry_message(503, "Temporarily unavailable"),
                    ),
                    (Some(true), Some(true)) => SearchNext::Show,
                }
            },
        },
    }
}

/// What a search looks for: the normalised text of the request.
pub fn search_term(body: &SearchBody) -> (r: String)
    ensures
        is_normalized(text_or_empty(body.search_term), r@),
{
    normalize_text(text::or_empty(&body.search_term))
}

/// What to do next about a search for the text of the request.
pub fn search_contacts(user_id: &Option<String>, body: &SearchBody, facts: &SearchFacts) -> (r:
    SearchNext)
    ensures
        r == search_contacts_next(
            user_id,
            body,
            normalized(text_or_empty(body.search_term)),
            facts,
        ),
{
    let term = search_term(body);
    search_contacts_for(user_id, body, &term, facts)
}

/// A search is made only for 3 to 64 characters.
pub proof fn searches_are_neither_short_nor_long(
    user_id: &Option<String>,
    body: &SearchBody,
    term: Seq<char>,
    facts: &SearchFacts,
)
    ensures
        search_contacts_next(user_id, body, term, facts) is Search ==> 3 <= term.len() <= 64,
{
}

/// What only friends are shown in a search.
pub struct FriendFields {
    pub bio: Option<String>,
    pub image: Option<String>,
    pub banner: Option<String>,
    pub created_at: Option<String>,
}

/// A user that a search found, as they are shown.
pub struct SearchRow {
    pub id: String,
    pub username: String,
    pub display_name: Option<String>,
    pub color: Option<i32>,
    pub friend: Option<FriendFields>,
}

/// What only friends are shown in a search.
#[verifier::ext_equal]
pub struct FriendFieldsView {
    pub bio: Option<Seq<char>>,
    pub image: Option<Seq<char>>,
    pub banner: Option<Seq<char>>,
    pub created_at: Option<Seq<char>>,
}

/// What is shown of a user that a search found.
#[verifier::ext_equal]
pub struct SearchRowView {
    pub id: Seq<char>,
    pub username: Seq<char>,
    pub display_name: Option<Seq<char>>,
    pub color: Option<i32>,
    pub friend: Option<FriendFieldsView>,
}

impl View for SearchRow {
    type V = SearchRowView;

    open spec fn view(&self) -> SearchRowView {
        SearchRowView {
            id: self.id@,
            username: self.username@,
            display_name: opt_text(self.display_name),
            color: self.color,
            friend: match self.friend {
                Some(f) => Some(
                    FriendFieldsView {
                        bio: opt_text(f.bio),
                        image: opt_text(f.image),
                        banner: opt_text(f.banner),
                        created_at: opt_text(f.created_at),
                    },
                ),
                None => None,
            },
        }
    }
}

/// What is shown of users that a search found.
pub open spec fn search_rows(v: Seq<SearchRow>) -> Seq<SearchRowView> {
    v.map_values(|x: SearchRow| x@)
}

/// What is shown of a user that a search found, to a friend or to somebody else.
pub open spec fn found_user(u: User, id: ObjectId, is_friend: bool) -> SearchRowView {
    SearchRowView {
        id: id.hex(),
        username: u.username@,
        display_name: non_blank(u.display_name),
        color: u.color,
        friend: if is_friend {
            Some(
                FriendFieldsView {
                    bio: opt_text(u.bio),
                    image: opt_text(u.image),
                    banner: opt_text(u.banner),
                    created_at: rfc3339(u.created_at),
                },
            )
        } else {
            None
        },
    }
}

/// What is shown of users that a search found, to somebody with these friends.
pub open spec fn found_users(users: Seq<User>, friends: Seq<Seq<char>>) -> Seq<SearchRowView>
    decreases users.len(),
{
    if users.len() == 0 {
        Seq::empty()
    } else {
        let before = found_users(users.drop_last(), friends);
        match users.last().id {
            Some(id) => before.push(found_user(users.last(), id, friends.contains(id.hex()))),
            None => before,
        }
    }
}

/// Users that a search found, as they are shown to somebody with these friends.
pub fn search_results(users: &Vec<User>, friends: &Vec<String>) -> (r: Vec<SearchRow>)
    ensures
        search_rows(r@) == found_users(users@, texts(friends@)),
{
    let mut out: Vec<SearchRow> = Vec::new();
    let mut i: usize = 0;
    proof {
        assert(search_rows(out@) =~= Seq::empty());
    }
    while i < users.len()
        invariant
            i <= users.len(),
            search_rows(out@) == found_users(users@.take(i as int), texts(friends@)),
        decreases users.len() - i,
    {
        proof {
            assert(users@.take(i + 1).drop_last() =~= users@.take(i as int));
        }
        let u = &users[i];
        match u.id {
            Some(id) => {
                let hex = id.to_hex();
                let friend = if contains_text(friends, &hex) {
                    Some(
                        FriendFields {
                            bio: text::copy_opt(&u.bio),
                            image: text::copy_opt(&u.image),
                            banner: text::copy_opt(&u.banner),
                            created_at: iso(u.created_at),
                        },
                    )
                } else {
                    None
                };
                let row = SearchRow {
                    id: hex,
                    username: u.username.clone(),
                    display_name: resolve_display_name(u),
                    color: u.color,
                    friend,
                };
                proof {
                    assert(row@ =~= found_user(*u, id, texts(friends@).contains(id.hex())));
                    assert(search_rows(out@.push(row)) =~= search_rows(out@).push(row@));
                }
                out.push(row);
            },
            None => {},
        }
        i = i + 1;
    }
    proof {
        assert(users@.take(users@.len() as int) =~= users@);
    }
    out
}

/// Strangers learn nothing from a search but names and a colour.
pub proof fn strangers_see_names_only(a: User, b: User, id: ObjectId)
    requires
        a.username@ == b.username@,
        non_blank(a.display_name) == non_blank(b.display_name),
        a.color == b.color,
    ensures
        found_user(a, id, false) == found_user(b, id, false),
{
}

/// A friend as they are shown.
pub struct FriendProfile {
    pub id: String,
    pub username: String,
    pub display_name: Option<String>,
    pub bio: Option<String>,
    pub image: Option<String>,
    pub banner: Option<String>,
    pub color: Option<i32>,
    pub is_online: bool,
    pub last_seen: Option<String>,
    pub availability_status: &'static str,
    pub created_at: Option<String>,
}

/// Whether a friend is shown as they are stored.
pub open spec fn shows_friend(p: FriendProfile, u: User) -> bool {
    &&& p.id@ == (match u.id {
        Some(id) => id.hex(),
        None => Seq::empty(),
    })
    &&& p.username@ == u.username@
    &&& opt_text(p.display_name) == non_blank(u.display_name)
    &&& opt_text(p.bio) == opt_text(u.bio)
    &&& opt_text(p.image) == opt_text(u.image)
    &&& opt_text(p.banner) == opt_text(u.banner)
    &&& p.color == u.color
    &&& p.is_online == u.is_online
    &&& opt_text(p.last_seen) == iso_opt_of(u.last_seen)
    &&& p.availability_status == availability_status_name(u.availability_status)
    &&& opt_text(p.created_at) == rfc3339(u.created_at)
}

/// A friend as they are shown.
pub fn friend_profile_json(friend: &User) -> (r: FriendProfile)
    ensures
        shows_friend(r, *friend),
{
    FriendProfile {
        id: match friend.id {
            Some(id) => id.to_hex(),
            None => String::new(),
        },
        username: friend.username.clone(),
        display_name: resolve_display_name(friend),
        bio: text::copy_opt(&friend.bio),
        image: text::copy_opt(&friend.image),
        banner: text::copy_opt(&friend.banner),
        color: friend.color,
        is_online: friend.is_online,
        last_seen: iso_opt(friend.last_seen),
        availability_status: availability_status_str(&friend.availability_status),
        created_at: iso(friend.created_at),
    }
}

/// What to do next about the profile of a contact.
#[derive(Clone, Copy, Debug)]
pub enum ContactNext {
    Reply(Reply),
    AskFriends,
    FindContact(ObjectId),
    Show,
}

/// What to do next about the profile of a contact. `contact_id` is the identifier that the
/// request names.
pub open spec fn get_contact_profile_next(user_id: &Option<String>, contact_id: Seq<char>, friends: Option<Answer>, found: Option<Lookup>) -> ContactNext {
    match user_id {
        None => ContactNext::Reply(message_reply(401, "Brak autoryzacji")),
        Some(_) => match parsed_id(contact_id) {
            None => ContactNext::Reply(message_reply(400, "Nieprawidłowy identyfikator kontaktu")),
            Some(contact) => match friends {
                None => ContactNext::AskFriends,
                Some(answer) => match require_friends_or_503(
                    answer,
                    message_reply(404, "Kontakt nie znaleziony lub brak relacji znajomości"),
                ) {
                    Err(reply) => ContactNext::Reply(reply),
                    Ok(_) => match found {
                        None => ContactNext::FindContact(contact),
                        Some(Lookup::Found) => ContactNext::Show,
                        Some(Lookup::Missing) => ContactNext::Reply(
                            message_reply(404, "Użytkownik nie znaleziony"),
                        ),
                        Some(Lookup::Failed) => ContactNext::Reply(
                            message_reply(500, "Nie udało się wczytać profilu"),
                        ),
                    },
                },
            },
        },
    }
}

/// What to do next about the profile of a contact. `contact_id` is the identifier that the
/// request names.
pub fn get_contact_profile(user_id: &Option<String>, contact_id: &str, friends: Option<Answer>, found: Option<Lookup>) -> (r: ContactNext)
    ensures
        r == get_contact_profile_next(user_id, contact_id@, friends, found),
{
    match user_id {
        None => ContactNext::Reply(message_reply(401, "Brak autoryzacji")),
        Some(_) => match ObjectId::parse_str(contact_id) {
            None => ContactNext::Reply(message_reply(400, "Nieprawidłowy identyfikator kontaktu")),
            Some(contact) => match friends {
                None => ContactNext::AskFriends,
                Some(answer) => match require_friends_or_503(
                    answer,
                    message_reply(404, "Kontakt nie znaleziony lub brak relacji znajomości"),
                ) {
                    Err(reply) => ContactNext::Reply(reply),
                    Ok(_) => match found {
                        None => ContactNext::FindContact(contact),
                        Some(Lookup::Found) => ContactNext::Show,
                        Some(Lookup::Missing) => ContactNext::Reply(
                            message_reply(404, "Użytkownik nie znaleziony"),
                        ),
                        Some(Lookup::Failed) => ContactNext::Reply(
                            message_reply(500, "Nie udało się wczytać profilu"),
                        ),
                    },
                },
            },
        },
    }
}

/// Profiles are shown to friends only.
pub proof fn profiles_are_for_friends(
    user_id: &Option<String>,
    contact_id: Seq<char>,
    friends: Option<Answer>,
    found: Option<Lookup>,
)
    ensures
        get_contact_profile_next(user_id, contact_id, friends, found) is Show
            || get_contact_profile_next(user_id, contact_id, friends, found) is FindContact
            ==> friends == Some(Answer::Yes),
{
}

/// How many messages of one sender are unread, as the store counted them. `sender` is missing
/// where what it gave is no identifier, `count` where it is no number.
#[derive(Clone, Copy, Debug, PartialEq, Eq, Structural)]
pub struct CountRow {
    pub sender: Option<ObjectId>,
    pub count: Option<i64>,
}

/// A number that is not negative: zero where there is none.
pub open spec fn count_of(n: Option<i64>) -> u64 {
    match n {
        Some(v) => if v > 0 {
            v as u64
        } else {
            0
        },
        None => 0,
    }
}

/// How many messages of each sender are unread.
pub open spec fn counts(rows: Seq<CountRow>) -> Map<ObjectId, u64>
    decreases rows.len(),
{
    if rows.len() == 0 {
        Map::empty()
    } else {
        match rows.last().sender {
            Some(id) => counts(rows.drop_last()).insert(id, count_of(rows.last().count)),
            None => counts(rows.drop_last()),
        }
    }
}

/// How many messages of each sender are unread, out of what the store gave for
/// [`unread_counts_query`](crate::model::messages::unread_counts_query). `rows` is an error if the
/// store could not be asked or broke off before it had given them all: then there is no result.
pub fn dm_unread_counts_batch(rows: &Result<Vec<CountRow>, ()>) -> (r: Option<IdTable<u64>>)
    ensures
        match *rows {
            Ok(v) => r matches Some(t) && t.wf() && t.entries() == counts(v@),
            Err(_) => r is None,
        },
{
    match rows {
        Ok(v) => Some(count_table(v)),
        Err(_) => None,
    }
}

fn count_table(rows: &Vec<CountRow>) -> (r: IdTable<u64>)
    ensures
        r.wf(),
        r.entries() == counts(rows@),
{
    let mut table: IdTable<u64> = IdTable::new();
    let mut i: usize = 0;
    while i < rows.len()
        invariant
            i <= rows.len(),
            table.wf(),
            table.entries() == counts(rows@.take(i as int)),
        decreases rows.len() - i,
    {
        proof {
            assert(rows@.take(i + 1).drop_last() =~= rows@.take(i as int));
        }
        let n: u64 = match rows[i].count {
            Some(v) => if v > 0 {
                v as u64
            } else {
                0
            },
            None => 0,
        };
        match rows[i].sender {
            Some(id) => table.insert(id, n),
            None => {},
        }
        i = i + 1;
    }
    proof {
        assert(rows@.take(rows@.len() as int) =~= rows@);
    }
    table
}

/// Whether rows are what a store with these messages counts by the senders: one row for each
/// sender of messages that are meant, with their number.
pub open spec fn counts_by_sender(
    rows: Seq<CountRow>,
    messages: Seq<MessageRecord>,
    filter: MessageFilter,
) -> bool {
    &&& forall|i: int|
        0 <= i < rows.len() ==> {
            &&& (#[trigger] rows[i]).sender is Some
            &&& rows[i].count is Some
            &&& rows[i].count->0 == count_under(
                messages,
                filter,
                GroupBy::Sender,
                rows[i].sender->0,
            )
        }
    &&& forall|i: int, j: int|
        0 <= i < j < rows.len() ==> (#[trigger] rows[i]).sender != (#[trigger] rows[j]).sender
    &&& forall|k: ObjectId| #[trigger]
        count_under(messages, filter, GroupBy::Sender, k) > 0 ==> exists|i: int|
            0 <= i < rows.len() && (#[trigger] rows[i]).sender == Some(k)
}

/// What is shown as unread of a sender: nothing where there is no row for them.
pub open spec fn unread_shown(table: Map<ObjectId, u64>, k: ObjectId) -> nat {
    if table.dom().contains(k) {
        table[k] as nat
    } else {
        0
    }
}

proof fn counts_hold_each_row(rows: Seq<CountRow>, k: ObjectId)
    requires
        forall|i: int, j: int|
            0 <= i < j < rows.len() ==> (#[trigger] rows[i]).sender != (#[trigger] rows[j]).sender,
    ensures
        counts(rows).dom().contains(k) <==> exists|i: int|
            0 <= i < rows.len() && (#[trigger] rows[i]).sender == Some(k),
        forall|i: int|
            0 <= i < rows.len() && (#[trigger] rows[i]).sender == Some(k) ==> counts(rows)[k]
                == count_of(rows[i].count),
    decreases rows.len(),
{
    if rows.len() > 0 {
        let rest = rows.drop_last();
        counts_hold_each_row(rest, k);
        if rows.last().sender == Some(k) {
            assert(rows[rows.len() - 1].sender == Some(k));
        } else {
            assert forall|i: int| 0 <= i < rows.len() && (#[trigger] rows[i]).sender == Some(
                k,
            ) implies counts(rows)[k] == count_of(rows[i].count) by {
                assert(rest[i].sender == Some(k));
            }
            if counts(rest).dom().contains(k) {
                let i = choose|i: int| 0 <= i < rest.len() && (#[trigger] rest[i]).sender == Some(k);
                assert(rows[i].sender == Some(k));
            }
            if exists|i: int| 0 <= i < rows.len() && (#[trigger] rows[i]).sender == Some(k) {
                let i = choose|i: int| 0 <= i < rows.len() && (#[trigger] rows[i]).sender == Some(k);
                assert(rest[i].sender == Some(k));
            }
        }
    }
}

/// Where the store counts by senders, each sender is shown as many unread messages as count as
/// unread from them.
pub proof fn every_unread_message_is_shown(
    rows: Seq<CountRow>,
    messages: Seq<MessageRecord>,
    filter: MessageFilter,
    k: ObjectId,
)
    requires
        counts_by_sender(rows, messages, filter),
    ensures
        unread_shown(counts(rows), k) == count_under(messages, filter, GroupBy::Sender, k),
{
    counts_hold_each_row(rows, k);
    if count_under(messages, filter, GroupBy::Sender, k) > 0 {
        let i = choose|i: int| 0 <= i < rows.len() && (#[trigger] rows[i]).sender == Some(k);
        assert(counts(rows)[k] == count_of(rows[i].count));
    } else if counts(rows).dom().contains(k) {
        let i = choose|i: int| 0 <= i < rows.len() && (#[trigger] rows[i]).sender == Some(k);
        assert(counts(rows)[k] == count_of(rows[i].count));
    }
}

/// What is kept of the last message of a conversation: its time, what is shown of it, its
/// identifier, and how many messages are unread, if that is known.
pub struct Tip {
    pub time: i64,
    pub preview: String,
    pub message: ObjectId,
    pub unread: Option<u64>,
}

/// What is kept of the last message of a conversation.
#[verifier::ext_equal]
pub struct TipView {
    pub time: i64,
    pub preview: Seq<char>,
    pub message: ObjectId,
    pub unread: Option<u64>,
}

impl View for Tip {
    type V = TipView;

    open spec fn view(&self) -> TipView {
        TipView {
            time: self.time,
            preview: self.preview@,
            message: self.message,
            unread: self.unread,
        }
    }
}

impl TipView {
    /// Whether there is no last message.
    pub open spec fn blank(self) -> bool {
        self.preview.len() == 0 && self.time == 0
    }
}

impl Tip {
    /// Whether there is no last message.
    pub fn is_blank(&self) -> (r: bool)
        ensures
            r == self@.blank(),
    {
        self.preview.as_str().is_empty() && self.time == 0
    }
}

/// A last message that the store found. Each part is missing where what the store gave is not
/// of its kind.
pub struct TipRow {
    pub friend: Option<ObjectId>,
    pub time: Option<i64>,
    pub content: Option<String>,
    pub message: Option<ObjectId>,
}

/// Not having a last message that is known.
pub open spec fn without_tip(tips: Map<ObjectId, TipView>) -> spec_fn(ObjectId) -> bool {
    |id: ObjectId| !tips.dom().contains(id) || tips[id].blank()
}

/// The friends whose last message has to be looked for, in order.
pub fn missing_tips(friends: &Vec<ObjectId>, tips: &IdTable<Tip>) -> (r: Vec<ObjectId>)
    requires
        tips.wf(),
    ensures
        r@ == friends@.filter(without_tip(tips.entries())),
{
    let ghost p = without_tip(tips.entries());
    let mut out: Vec<ObjectId> = Vec::new();
    let mut i: usize = 0;
    proof {
        filter_ends(friends@, p);
    }
    while i < friends.len()
        invariant
            i <= friends.len(),
            tips.wf(),
            p == without_tip(tips.entries()),
            out@ == friends@.take(i as int).filter(p),
        decreases friends.len() - i,
    {
        proof {
            filter_step(friends@, p, i as int);
        }
        let lacks = match tips.get(friends[i]) {
            Some(t) => t.is_blank(),
            None => true,
        };
        if lacks {
            out.push(friends[i]);
        }
        i = i + 1;
    }
    proof {
        filter_ends(friends@, p);
    }
    out
}

/// How many messages are unread by what is kept, if that is known.
pub open spec fn unread_kept(tips: Map<ObjectId, TipView>, id: ObjectId) -> Option<u64> {
    if tips.dom().contains(id) {
        tips[id].unread
    } else {
        None
    }
}

/// Last messages with those that the store found; how many messages are unread stays.
pub open spec fn filled(tips: Map<ObjectId, TipView>, rows: Seq<TipRow>) -> Map<ObjectId, TipView>
    decreases rows.len(),
{
    if rows.len() == 0 {
        tips
    } else {
        let before = filled(tips, rows.drop_last());
        let row = rows.last();
        match (row.friend, row.time, row.content, row.message) {
            (Some(friend), Some(time), Some(content), Some(message)) => before.insert(
                friend,
                TipView {
                    time,
                    preview: content@,
                    message,
                    unread: unread_kept(tips, friend),
                },
            ),
            _ => before,
        }
    }
}

/// Looking for last messages does not change how many messages are unread.
pub proof fn filling_keeps_unread(tips: Map<ObjectId, TipView>, rows: Seq<TipRow>, id: ObjectId)
    ensures
        unread_kept(filled(tips, rows), id) == unread_kept(tips, id),
        tips.dom().contains(id) ==> filled(tips, rows).dom().contains(id),
    decreases rows.len(),
{
    if rows.len() > 0 {
        filling_keeps_unread(tips, rows.drop_last(), id);
    }
}

/// Whether rows are what a store with these messages finds to be the last ones by the other one
/// of each conversation of a user: one row for each of them, with the time and the identifier of
/// the last message.
pub open spec fn last_by_other(
    rows: Seq<TipRow>,
    messages: Seq<MessageRecord>,
    filter: MessageFilter,
    user: ObjectId,
) -> bool {
    &&& forall|i: int|
        0 <= i < rows.len() ==> {
            &&& (#[trigger] rows[i]).friend is Some
            &&& rows[i].content is Some
            &&& exists|m: MessageRecord| #[trigger]
                is_last_under(messages, filter, GroupBy::Other(user), rows[i].friend->0, m)
                    && rows[i].time == Some(m.sent_at) && rows[i].message == Some(m.id)
        }
    &&& forall|i: int, j: int|
        0 <= i < j < rows.len() ==> (#[trigger] rows[i]).friend != (#[trigger] rows[j]).friend
}

proof fn filled_holds_each_row(
    tips: Map<ObjectId, TipView>,
    rows: Seq<TipRow>,
    i: int,
    time: i64,
    message: ObjectId,
)
    requires
        0 <= i < rows.len(),
        rows[i].friend is Some,
        rows[i].content is Some,
        rows[i].time == Some(time),
        rows[i].message == Some(message),
        forall|a: int, b: int|
            0 <= a < b < rows.len() ==> (#[trigger] rows[a]).friend != (#[trigger] rows[b]).friend,
    ensures
        filled(tips, rows).dom().contains(rows[i].friend->0),
        filled(tips, rows)[rows[i].friend->0].time == time,
        filled(tips, rows)[rows[i].friend->0].message == message,
        filled(tips, rows)[rows[i].friend->0].unread == unread_kept(tips, rows[i].friend->0),
    decreases rows.len(),
{
    let rest = rows.drop_last();
    if i < rest.len() {
        assert(rest[i] == rows[i]);
        filled_holds_each_row(tips, rest, i, time, message);
        assert(rows[i].friend != rows[rows.len() - 1].friend);
    }
}

/// Where the store finds the last messages, what is shown of a conversation is the newest
/// message of it that is not deleted: none that belongs to it is newer.
pub proof fn the_last_message_is_shown(
    tips: Map<ObjectId, TipView>,
    rows: Seq<TipRow>,
    messages: Seq<MessageRecord>,
    filter: MessageFilter,
    user: ObjectId,
    i: int,
)
    requires
        last_by_other(rows, messages, filter, user),
        0 <= i < rows.len(),
    ensures
        ({
            let friend = rows[i].friend->0;
            let shown = filled(tips, rows)[friend];
            &&& filled(tips, rows).dom().contains(friend)
            &&& exists|m: MessageRecord| #[trigger]
                is_last_under(messages, filter, GroupBy::Other(user), friend, m) && shown.time
                    == m.sent_at && shown.message == m.id
        }),
{
    let friend = rows[i].friend->0;
    let m = choose|m: MessageRecord| #[trigger]
        is_last_under(messages, filter, GroupBy::Other(user), friend, m) && rows[i].time == Some(
            m.sent_at,
        ) && rows[i].message == Some(m.id);
    filled_holds_each_row(tips, rows, i, m.sent_at, m.id);
}

/// Whether the last messages are there whole: what is kept could be read, and the store did not
/// break off.
pub open spec fn tips_are_whole(kept: Option<IdTable<Tip>>, rows: Result<Vec<TipRow>, ()>) -> bool {
    kept is Some && rows is Ok
}

/// The last messages that are kept, with those that the store found for the others, asked as
/// [`last_messages_query`](crate::model::messages::last_messages_query) says. `kept` is
/// nothing if what is kept could not be read; `rows` is an error if the store broke off before
/// it had given them all. In both cases there is no result: never a part of one.
pub fn dm_last_messages_batch(kept: Option<IdTable<Tip>>, rows: &Result<Vec<TipRow>, ()>) -> (r:
    Option<IdTable<Tip>>)
    requires
        kept matches Some(t) ==> t.wf(),
    ensures
        match (kept, *rows) {
            (Some(t), Ok(v)) => r matches Some(out) && out.wf() && out.entries() == filled(
                t.entries(),
                v@,
            ),
            _ => r is None,
        },
        r is Some <==> tips_are_whole(kept, *rows),
{
    match (kept, rows) {
        (Some(t), Ok(v)) => {
            let mut tips = t;
            fill_tips(&mut tips, v);
            Some(tips)
        },
        _ => None,
    }
}

fn fill_tips(tips: &mut IdTable<Tip>, rows: &Vec<TipRow>)
    requires
        old(tips).wf(),
    ensures
        final(tips).wf(),
        final(tips).entries() == filled(old(tips).entries(), rows@),
{
    let ghost before = tips.entries();
    let mut i: usize = 0;
    proof {
        assert(rows@.take(0) =~= Seq::empty());
    }
    while i < rows.len()
        invariant
            i <= rows.len(),
            tips.wf(),
            tips.entries() == filled(before, rows@.take(i as int)),
        decreases rows.len() - i,
    {
        proof {
            assert(rows@.take(i + 1).drop_last() =~= rows@.take(i as int));
        }
        let row = &rows[i];
        match (row.friend, row.time, &row.content, row.message) {
            (Some(friend), Some(time), Some(content), Some(message)) => {
                proof {
                    filling_keeps_unread(before, rows@.take(i as int), friend);
                }
                let unread = match tips.get(friend) {
                    Some(t) => t.unread,
                    None => None,
                };
                let tip = Tip { time, preview: content.clone(), message, unread };
                proof {
                    assert(tip@ =~= (TipView {
                        time,
                        preview: content@,
                        message,
                        unread: unread_kept(before, friend),
                    }));
                }
                tips.insert(friend, tip);
            },
            _ => {},
        }
        i = i + 1;
    }
    proof {
        assert(rows@.take(rows@.len() as int) =~= rows@);
    }
}

/// The friends whose messages are listed: those whom the user did not block, in order.
pub fn active_friends(friendships: &Vec<FriendRequest>, user: ObjectId, blocked: &Vec<ObjectId>) -> (r:
    Vec<ObjectId>)
    ensures
        r@ == missing_from(others(friendships@, user), blocked@),
{
    ids_missing_from(&peers(friendships, user), blocked)
}

/// Whether the unread messages of a conversation have to be counted: unless it is known that
/// there are none because there is no message.
pub open spec fn counts_unread(tips: Map<ObjectId, TipView>, id: ObjectId) -> bool {
    !(unread_kept(tips, id) == Some(0u64) && tips[id].blank())
}

/// Having to be counted.
pub open spec fn to_count(tips: Map<ObjectId, TipView>) -> spec_fn(ObjectId) -> bool {
    |id: ObjectId| counts_unread(tips, id)
}

/// Whether the unread messages of a conversation have to be counted.
pub fn needs_unread(tip: Option<&Tip>) -> (r: bool)
    ensures
        r == !(tip matches Some(t) && t.unread == Some(0u64) && t@.blank()),
{
    match tip {
        None => true,
        Some(t) => match t.unread {
            None => true,
            Some(n) => if n == 0 {
                !t.is_blank()
            } else {
                true
            },
        },
    }
}

/// The friends whose unread messages have to be counted, in order.
pub fn need_unread(friends: &Vec<ObjectId>, tips: &IdTable<Tip>) -> (r: Vec<ObjectId>)
    requires
        tips.wf(),
    ensures
        r@ == friends@.filter(to_count(tips.entries())),
{
    let ghost p = to_count(tips.entries());
    let mut out: Vec<ObjectId> = Vec::new();
    let mut i: usize = 0;
    proof {
        filter_ends(friends@, p);
    }
    while i < friends.len()
        invariant
            i <= friends.len(),
            tips.wf(),
            p == to_count(tips.entries()),
            out@ == friends@.take(i as int).filter(p),
        decreases friends.len() - i,
    {
        proof {
            filter_step(friends@, p, i as int);
        }
        if needs_unread(tips.get(friends[i])) {
            out.push(friends[i]);
        }
        i = i + 1;
    }
    proof {
        filter_ends(friends@, p);
    }
    out
}

/// The last message of a conversation in the list.
pub struct LastMessage {
    pub time: i64,
    pub preview: String,
    pub message: ObjectId,
}

/// A conversation in the list. `position` is that of the friendship, `friend` the place of the
/// friend in the list of users.
pub struct ContactRow {
    pub position: usize,
    pub friend: usize,
    pub last: Option<LastMessage>,
    pub unread: u64,
    pub is_muted: bool,
    pub is_blocked_by_me: bool,
}

/// A conversation in the list.
#[verifier::ext_equal]
pub struct ContactRowView {
    pub position: usize,
    pub friend: usize,
    pub last: Option<(i64, Seq<char>, ObjectId)>,
    pub unread: u64,
    pub is_muted: bool,
    pub is_blocked_by_me: bool,
}

impl View for ContactRow {
    type V = ContactRowView;

    open spec fn view(&self) -> ContactRowView {
        ContactRowView {
            position: self.position,
            friend: self.friend,
            last: match self.last {
                Some(l) => Some((l.time, l.preview@, l.message)),
                None => None,
            },
            unread: self.unread,
            is_muted: self.is_muted,
            is_blocked_by_me: self.is_blocked_by_me,
        }
    }
}

impl ContactRowView {
    /// The time by which conversations are ordered: that of the last message, or none.
    pub open spec fn time(self) -> i64 {
        match self.last {
            Some(l) => l.0,
            None => 0,
        }
    }
}

impl ContactRow {
    /// The time by which conversations are ordered.
    pub fn time(&self) -> (r: i64)
        ensures
            r == self@.time(),
    {
        match &self.last {
            Some(l) => l.time,
            None => 0,
        }
    }

    /// The text of the time of the last message.
    pub fn time_text(&self) -> (r: Option<String>)
        ensures
            opt_text(r) == (match self.last {
                Some(l) => rfc3339(l.time),
                None => None,
            }),
    {
        match &self.last {
            Some(l) => iso(l.time),
            None => None,
        }
    }
}

/// What the list of conversations is made from.
pub struct ListParts {
    pub user: ObjectId,
    pub friendships: Vec<FriendRequest>,
    pub users: Vec<User>,
    pub muted: Vec<ObjectId>,
    pub blocked: Vec<ObjectId>,
    pub tips: IdTable<Tip>,
    pub unread: IdTable<u64>,
}

/// The conversation with the friend of a friendship, as it is listed. Nothing of the messages
/// with somebody whom the user blocked is shown.
pub open spec fn contact_row_of(p: ListParts, i: int) -> ContactRowView {
    let other = p.friendships@[i].other(p.user);
    let tips = p.tips.entries();
    let counted = p.unread.entries();
    let blocked = p.blocked@.contains(other);
    ContactRowView {
        position: i as usize,
        friend: places(p.users@)[other],
        last: if blocked || !tips.dom().contains(other) || tips[other].blank() {
            None
        } else {
            Some((tips[other].time, tips[other].preview, tips[other].message))
        },
        unread: if blocked {
            0
        } else if counts_unread(tips, other) {
            if counted.dom().contains(other) {
                counted[other]
            } else {
                0
            }
        } else {
            0
        },
        is_muted: p.muted@.contains(other),
        is_blocked_by_me: blocked,
    }
}

/// Whether the friend of a friendship is known.
pub open spec fn is_listed(p: ListParts, i: int) -> bool {
    places(p.users@).dom().contains(p.friendships@[i].other(p.user))
}

/// Which of two conversations stands first: the one with the newer last message, and of two that
/// are equally new the one whose friendship stands first.
pub open spec fn stands_before(a: ContactRowView, b: ContactRowView) -> bool {
    a.time() > b.time() || (a.time() == b.time() && a.position < b.position)
}

/// Whether rows are the conversations of the first `n` friendships, in their order.
pub open spec fn lists(r: Seq<ContactRow>, p: ListParts, n: int) -> bool {
    &&& forall|k: int|
        0 <= k < r.len() ==> (#[trigger] r[k]).position < n && is_listed(p, r[k].position as int)
            && r[k]@ == contact_row_of(p, r[k].position as int)
    &&& forall|i: int|
        0 <= i < n && #[trigger] is_listed(p, i) ==> exists|k: int|
            0 <= k < r.len() && (#[trigger] r[k]).position == i
    &&& forall|j: int, k: int|
        0 <= j < k < r.len() ==> stands_before((#[trigger] r[j])@, (#[trigger] r[k])@)
}

fn contact_row(p: &ListParts, i: usize, friend: usize) -> (r: ContactRow)
    requires
        p.tips.wf(),
        p.unread.wf(),
        i < p.friendships@.len(),
        is_listed(*p, i as int),
        friend == places(p.users@)[p.friendships@[i as int].other(p.user)],
    ensures
        r@ == contact_row_of(*p, i as int),
{
    let other = p.friendships[i].peer(p.user);
    let blocked = contains_id(&p.blocked, other);
    let is_muted = contains_id(&p.muted, other);
    if blocked {
        return ContactRow {
            position: i,
            friend,
            last: None,
            unread: 0,
            is_muted,
            is_blocked_by_me: true,
        };
    }
    let tip = p.tips.get(other);
    let unread: u64 = if needs_unread(tip) {
        match p.unread.get(other) {
            Some(n) => *n,
            None => 0,
        }
    } else {
        0
    };
    let last = match tip {
        Some(t) => if t.is_blank() {
            None
        } else {
            Some(LastMessage { time: t.time, preview: t.preview.clone(), message: t.message })
        },
        None => None,
    };
    let r = ContactRow {
        position: i,
        friend,
        last,
        unread,
        is_muted,
        is_blocked_by_me: false,
    };
    proof {
        assert(r@ =~= contact_row_of(*p, i as int));
    }
    r
}

/// The list of conversations: one for each friendship whose friend is known, the newest first,
/// and of those that are equally new the one whose friendship stands first.
pub fn contact_list(p: &ListParts) -> (r: Vec<ContactRow>)
    requires
        p.tips.wf(),
        p.unread.wf(),
    ensures
        lists(r@, *p, p.friendships@.len() as int),
{
    let table = fetch_users_map(&p.users);
    let mut out: Vec<ContactRow> = Vec::new();
    let mut i: usize = 0;
    while i < p.friendships.len()
        invariant
            i <= p.friendships.len(),
            p.tips.wf(),
            p.unread.wf(),
            table.wf(),
            table.entries() == places(p.users@),
            lists(out@, *p, i as int),
        decreases p.friendships.len() - i,
    {
        let other = p.friendships[i].peer(p.user);
        match table.get(other) {
            Some(place) => {
                let row = contact_row(p, i, *place);
                let t = row.time();
                let mut at: usize = 0;
                while at < out.len() && out[at].time() >= t
                    invariant
                        at <= out.len(),
                        t == row@.time(),
                        forall|k: int| 0 <= k < at ==> (#[trigger] out@[k])@.time() >= t,
                    decreases out.len() - at,
                {
                    at = at + 1;
                }
                let ghost before = out@;
                out.insert(at, row);
                proof {
                    lemma_row_put_in(before, row, at as int, *p, i as int);
                }
            },
            None => {
                proof {
                    assert(!is_listed(*p, i as int));
                    assert(lists(out@, *p, i + 1));
                }
            },
        }
        i = i + 1;
    }
    out
}

proof fn lemma_row_put_in(before: Seq<ContactRow>, row: ContactRow, at: int, p: ListParts, i: int)
    requires
        lists(before, p, i),
        0 <= i < p.friendships@.len(),
        p.friendships@.len() <= usize::MAX,
        0 <= at <= before.len(),
        is_listed(p, i),
        row@ == contact_row_of(p, i),
        forall|k: int| 0 <= k < at ==> (#[trigger] before[k])@.time() >= row@.time(),
        at < before.len() ==> before[at]@.time() < row@.time(),
    ensures
        lists(before.insert(at, row), p, i + 1),
{
    let r = before.insert(at, row);
    assert(row.position == i) by {
        assert(row@.position == i as usize);
    }
    assert forall|k: int| 0 <= k < r.len() implies (#[trigger] r[k]).position < i + 1 && is_listed(
        p,
        r[k].position as int,
    ) && r[k]@ == contact_row_of(p, r[k].position as int) by {
        if k < at {
            assert(r[k] == before[k]);
        } else if k > at {
            assert(r[k] == before[k - 1]);
        }
    }
    assert forall|j: int| 0 <= j < i + 1 && #[trigger] is_listed(p, j) implies exists|k: int|
        0 <= k < r.len() && (#[trigger] r[k]).position == j by {
        if j == i {
            assert(r[at].position == j);
        } else {
            let k = choose|k: int| 0 <= k < before.len() && (#[trigger] before[k]).position == j;
            if k < at {
                assert(r[k].position == j);
            } else {
                assert(r[k + 1].position == j);
            }
        }
    }
    assert forall|j: int, k: int| 0 <= j < k < r.len() implies stands_before(
        (#[trigger] r[j])@,
        (#[trigger] r[k])@,
    ) by {
        if j < at {
            assert(r[j] == before[j]);
            assert(before[j].position < i);
            if k < at {
                assert(r[k] == before[k]);
            } else if k > at {
                assert(r[k] == before[k - 1]);
            }
        } else if j == at {
            assert(r[k] == before[k - 1]);
            if k - 1 > at {
                assert(stands_before(before[at]@, before[k - 1]@));
            }
        } else {
            assert(r[j] == before[j - 1]);
            assert(r[k] == before[k - 1]);
        }
    }
}

/// Nothing of the messages with somebody whom the user blocked is shown in the list, and none of
/// them counts as unread.
pub proof fn blocked_contacts_are_silent(p: ListParts, i: int)
    requires
        0 <= i < p.friendships@.len(),
        p.blocked@.contains(p.friendships@[i].other(p.user)),
    ensures
        contact_row_of(p, i).last is None,
        contact_row_of(p, i).unread == 0,
        contact_row_of(p, i).is_blocked_by_me,
{
}

/// The order of the list leaves no choice: two lists of the same conversations that both keep it
/// stand in the same places.
pub proof fn the_order_is_the_only_one(a: ContactRowView, b: ContactRowView)
    requires
        a.position != b.position,
    ensures
        stands_before(a, b) <==> !stands_before(b, a),
{
}

/// What is known so far about the list of conversations.
#[derive(Clone, Copy, Debug)]
pub struct ContactsFacts {
    pub friendships: Option<Listing>,
    pub me: Option<Lookup>,
    /// Whether the friends could be found.
    pub users: Option<bool>,
    /// Whether [`dm_last_messages_batch`] gave the last messages.
    pub tips: Option<bool>,
    /// Whether nobody's unread messages have to be counted.
    pub nothing_to_count: bool,
    /// Whether [`dm_unread_counts_batch`] gave the unread messages.
    pub unread: Option<bool>,
}

/// What to do next about the list of conversations.
#[derive(Clone, Copy, Debug)]
pub enum ContactsNext {
    Reply(Reply),
    ListFriendships(ObjectId),
    FindMe(ObjectId),
    FetchUsers,
    FindTips,
    CountUnread,
    Show,
}

/// What to do next about the list of conversations. It is shown whole or not at all.
pub open spec fn get_contacts_for_list_next(user_id: &Option<String>, facts: &ContactsFacts) -> ContactsNext {
    match parsed_id(text_or_empty(*user_id)) {
        None => ContactsNext::Reply(text_reply(400, "User ID is required.")),
        Some(uid) => match (facts.friendships, facts.me) {
            (None, _) => ContactsNext::ListFriendships(uid),
            (Some(Listing::Broken), _) => ContactsNext::Reply(
                text_reply(503, "Contacts temporarily unavailable. Please retry."),
            ),
            (Some(Listing::Failed), _) => ContactsNext::Reply(
                text_reply(500, "Internal Server Error"),
            ),
            (Some(Listing::Listed { .. }), None) => ContactsNext::FindMe(uid),
            (Some(Listing::Listed { .. }), Some(Lookup::Missing)) => ContactsNext::Reply(
                text_reply(401, "Unauthorized"),
            ),
            (Some(Listing::Listed { .. }), Some(Lookup::Failed)) => ContactsNext::Reply(
                text_reply(503, "Contacts temporarily unavailable. Please retry."),
            ),
            (Some(Listing::Listed { empty }), Some(Lookup::Found)) => match (
                if empty {
                    Some(true)
                } else {
                    facts.users
                },
                facts.tips,
                if facts.nothing_to_count {
                    Some(true)
                } else {
                    facts.unread
                },
            ) {
                (None, _, _) => ContactsNext::FetchUsers,
                (Some(false), _, _) => ContactsNext::Reply(
                    text_reply(503, "Contacts temporarily unavailable. Please retry."),
                ),
                (Some(true), None, _) => ContactsNext::FindTips,
                (Some(true), Some(false), _) => ContactsNext::Reply(
                    text_reply(503, "Contacts temporarily unavailable. Please retry."),
                ),
                (Some(true), Some(true), None) => ContactsNext::CountUnread,
                (Some(true), Some(true), Some(false)) => ContactsNext::Reply(
                    text_reply(503, "Contacts temporarily unavailable. Please retry."),
                ),
                (Some(true), Some(true), Some(true)) => ContactsNext::Show,
            },
        },
    }
}

/// What to do next about the list of conversations. It is shown whole or not at all.
pub fn get_contacts_for_list(user_id: &Option<String>, facts: &ContactsFacts) -> (r: ContactsNext)
    ensures
        r == get_contacts_for_list_next(user_id, facts),
{
    match ObjectId::parse_str(text::or_empty(user_id)) {
        None => ContactsNext::Reply(text_reply(400, "User ID is required.")),
        Some(uid) => match (facts.friendships, facts.me) {
            (None, _) => ContactsNext::ListFriendships(uid),
            (Some(Listing::Broken), _) => ContactsNext::Reply(
                text_reply(503, "Contacts temporarily unavailable. Please retry."),
            ),
            (Some(Listing::Failed), _) => ContactsNext::Reply(
                text_reply(500, "Internal Server Error"),
            ),
            (Some(Listing::Listed { .. }), None) => ContactsNext::FindMe(uid),
            (Some(Listing::Listed { .. }), Some(Lookup::Missing)) => ContactsNext::Reply(
                text_reply(401, "Unauthorized"),
            ),
            (Some(Listing::Listed { .. }), Some(Lookup::Failed)) => ContactsNext::Reply(
                text_reply(503, "Contacts temporarily unavailable. Please retry."),
            ),
            (Some(Listing::Listed { empty }), Some(Lookup::Found)) => match (
                if empty {
                    Some(true)
                } else {
                    facts.users
                },
                facts.tips,
                if facts.nothing_to_count {
                    Some(true)
                } else {
                    facts.unread
                },
            ) {
                (None, _, _) => ContactsNext::FetchUsers,
                (Some(false), _, _) => ContactsNext::Reply(
                    text_reply(503, "Contacts temporarily unavailable. Please retry."),
                ),
                (Some(true), None, _) => ContactsNext::FindTips,
                (Some(true), Some(false), _) => ContactsNext::Reply(
                    text_reply(503, "Contacts temporarily unavailable. Please retry."),
                ),
                (Some(true), Some(true), None) => ContactsNext::CountUnread,
                (Some(true), Some(true), Some(false)) => ContactsNext::Reply(
                    text_reply(503, "Contacts temporarily unavailable. Please retry."),
                ),
                (Some(true), Some(true), Some(true)) => ContactsNext::Show,
            },
        },
    }
}

/// The list is never shown in part: only if the last messages were found, and the friends and the
/// unread messages where there are any.
pub proof fn lists_are_shown_whole(user_id: &Option<String>, facts: &ContactsFacts)
    ensures
        get_contacts_for_list_next(user_id, facts) is Show ==> {
            &&& facts.me == Some(Lookup::Found)
            &&& facts.tips == Some(true)
            &&& facts.users == Some(true) || facts.friendships == Some(
                Listing::Listed { empty: true },
            )
            &&& facts.unread == Some(true) || facts.nothing_to_count
        },
{
}

/// Where the last messages are not there whole, no list is shown.
pub proof fn broken_streams_show_nothing(
    user_id: &Option<String>,
    facts: &ContactsFacts,
    kept: Option<IdTable<Tip>>,
    rows: Result<Vec<TipRow>, ()>,
)
    requires
        facts.tips == Some(tips_are_whole(kept, rows)),
        !tips_are_whole(kept, rows),
    ensures
        !(get_contacts_for_list_next(user_id, facts) is Show),
        !(get_contacts_for_list_next(user_id, facts) is CountUnread),
{
}

/// A list with an identifier taken out where it stands first, or put at the end if it is not
/// there.
pub open spec fn toggled(s: Seq<ObjectId>, id: ObjectId) -> Seq<ObjectId> {
    if s.contains(id) {
        s.remove(s.index_of_first(id)->0)
    } else {
        s.push(id)
    }
}

/// Takes an identifier out of a list, or puts it in; says whether it is in afterwards.
pub fn toggle_id(v: &Vec<ObjectId>, id: ObjectId) -> (r: (Vec<ObjectId>, bool))
    ensures
        r.0@ == toggled(v@, id),
        r.1 == !v@.contains(id),
{
    let mut out = copy_ids(v);
    let mut i: usize = 0;
    while i < v.len()
        invariant
            i <= v.len(),
            out@ == v@,
            forall|k: int| 0 <= k < i ==> v@[k] != id,
        decreases v.len() - i,
    {
        if v[i] == id {
            proof {
                assert(v@[i as int] == id);
                v@.index_of_first_ensures(id);
            }
            out.remove(i);
            return (out, false);
        }
        i = i + 1;
    }
    out.push(id);
    (out, true)
}

/// Doing it twice to somebody who was not in the list changes nothing.
pub proof fn toggling_in_is_undone(s: Seq<ObjectId>, id: ObjectId)
    requires
        !s.contains(id),
    ensures
        toggled(toggled(s, id), id) == s,
{
    let t = s.push(id);
    assert(t[s.len() as int] == id);
    t.index_of_first_ensures(id);
    let k = t.index_of_first(id)->0;
    if k < s.len() {
        assert(s[k] == id);
    }
    assert(t.remove(s.len() as int) =~= s);
}

/// It turns around whether somebody is in a list without repetitions, concerns nobody else, and
/// makes no repetitions.
pub proof fn toggling_concerns_one(s: Seq<ObjectId>, id: ObjectId, other: ObjectId)
    requires
        s.no_duplicates(),
    ensures
        toggled(s, id).no_duplicates(),
        toggled(s, id).contains(id) <==> !s.contains(id),
        other != id ==> (toggled(s, id).contains(other) <==> s.contains(other)),
{
    let t = toggled(s, id);
    if s.contains(id) {
        s.index_of_first_ensures(id);
        let k = s.index_of_first(id)->0;
        assert forall|i: int| 0 <= i < t.len() implies #[trigger] t[i] == (if i < k {
            s[i]
        } else {
            s[i + 1]
        }) by {}
        if s.contains(other) && other != id {
            let i = choose|i: int| 0 <= i < s.len() && s[i] == other;
            if i < k {
                assert(t[i] == other);
            } else {
                assert(t[i - 1] == other);
            }
        }
        if t.contains(other) {
            let i = choose|i: int| 0 <= i < t.len() && t[i] == other;
            assert(s[if i < k {
                i
            } else {
                i + 1
            }] == other);
        }
        if t.contains(id) {
            let i = choose|i: int| 0 <= i < t.len() && t[i] == id;
            let j = if i < k {
                i
            } else {
                i + 1
            };
            assert(s[j] == s[k] && j != k);
        }
    } else {
        assert(t[s.len() as int] == id);
        if s.contains(other) {
            let i = choose|i: int| 0 <= i < s.len() && s[i] == other;
            assert(t[i] == other);
        }
        if t.contains(other) && other != id {
            let i = choose|i: int| 0 <= i < t.len() && t[i] == other;
            assert(s[i] == other);
        }
    }
}

/// What is known so far about silencing or blocking a contact.
#[derive(Clone, Copy, Debug)]
pub struct ToggleFacts {
    pub friends: Option<Answer>,
    pub me: Option<Lookup>,
    /// Whether the contact is in the list afterwards; known once the user is found.
    pub on: bool,
    /// Whether the list could be stored.
    pub saved: Option<bool>,
    /// Whether what is remembered of the two was forgotten.
    pub invalidated: bool,
    /// Whether a call between the two was ended, if there was one.
    pub call_ended: bool,
    /// Whether both were told.
    pub told: bool,
}

/// What to do next about silencing or blocking a contact.
#[derive(Clone, Copy, Debug)]
pub enum ToggleNext {
    Reply(Reply),
    AskFriends,
    FindMe(ObjectId),
    Save { user: ObjectId, contact: ObjectId },
    /// Forget what is remembered of the two.
    Invalidate,
    /// End the call between the two, if there is one, because one blocked the other.
    EndCall,
    /// Tell both, as
    /// [`contact_block_updated`](crate::controllers::notices::contact_block_updated) says.
    Tell,
    /// Answer, with whether the contact is in the list now.
    Done { reply: Reply, on: bool },
}

/// What to do next about silencing or blocking a contact, until it is stored; `None` once it
/// is.
pub open spec fn toggle_start_next(user_id: &Option<String>, contact_id: Seq<char>, facts: &ToggleFacts) -> Option<ToggleNext> {
    match user_id {
        None => Some(ToggleNext::Reply(message_reply(401, "Brak autoryzacji"))),
        Some(id) => match (parsed_id(contact_id), facts.friends) {
            (None, _) => Some(
                ToggleNext::Reply(message_reply(400, "Nieprawidłowy identyfikator kontaktu")),
            ),
            (Some(_), None) => Some(ToggleNext::AskFriends),
            (Some(contact), Some(answer)) => match require_friends_or_503(
                answer,
                message_reply(404, "Kontakt nie znaleziony lub brak relacji znajomości"),
            ) {
                Err(reply) => Some(ToggleNext::Reply(reply)),
                Ok(_) => match (parsed_id(id@), facts.me) {
                    (None, _) => Some(
                        ToggleNext::Reply(message_reply(404, "Użytkownik nie znaleziony")),
                    ),
                    (Some(user), None) => Some(ToggleNext::FindMe(user)),
                    (Some(_), Some(Lookup::Missing)) => Some(
                        ToggleNext::Reply(message_reply(404, "Użytkownik nie znaleziony")),
                    ),
                    (Some(_), Some(Lookup::Failed)) => Some(
                        ToggleNext::Reply(retry_message(503, "Temporarily unavailable")),
                    ),
                    (Some(user), Some(Lookup::Found)) => match facts.saved {
                        None => Some(ToggleNext::Save { user, contact }),
                        Some(false) => Some(
                            ToggleNext::Reply(message_reply(500, "Internal Server Error")),
                        ),
                        Some(true) => None,
                    },
                },
            },
        },
    }
}

/// What to do next about silencing or blocking a contact, until it is stored; `None` once it
/// is.
pub fn toggle_start(user_id: &Option<String>, contact_id: &str, facts: &ToggleFacts) -> (r: Option<ToggleNext>)
    ensures
        r == toggle_start_next(user_id, contact_id@, facts),
{
    match user_id {
        None => Some(ToggleNext::Reply(message_reply(401, "Brak autoryzacji"))),
        Some(id) => match (ObjectId::parse_str(contact_id), facts.friends) {
            (None, _) => Some(
                ToggleNext::Reply(message_reply(400, "Nieprawidłowy identyfikator kontaktu")),
            ),
            (Some(_), None) => Some(ToggleNext::AskFriends),
            (Some(contact), Some(answer)) => match require_friends_or_503(
                answer,
                message_reply(404, "Kontakt nie znaleziony lub brak relacji znajomości"),
            ) {
                Err(reply) => Some(ToggleNext::Reply(reply)),
                Ok(_) => match (ObjectId::parse_str(id), facts.me) {
                    (None, _) => Some(
                        ToggleNext::Reply(message_reply(404, "Użytkownik nie znaleziony")),
                    ),
                    (Some(user), None) => Some(ToggleNext::FindMe(user)),
                    (Some(_), Some(Lookup::Missing)) => Some(
                        ToggleNext::Reply(message_reply(404, "Użytkownik nie znaleziony")),
                    ),
                    (Some(_), Some(Lookup::Failed)) => Some(
                        ToggleNext::Reply(retry_message(503, "Temporarily unavailable")),
                    ),
                    (Some(user), Some(Lookup::Found)) => match facts.saved {
                        None => Some(ToggleNext::Save { user, contact }),
                        Some(false) => Some(
                            ToggleNext::Reply(message_reply(500, "Internal Server Error")),
                        ),
                        Some(true) => None,
                    },
                },
            },
        },
    }
}

/// What to do next about silencing a contact, or hearing them again.
pub open spec fn toggle_contact_mute_next(user_id: &Option<String>, contact_id: Seq<char>, facts: &ToggleFacts) -> ToggleNext {
    match toggle_start_next(user_id, contact_id, facts) {
        Some(next) => next,
        None => ToggleNext::Done {
            reply: if facts.on {
                message_reply(200, "Konwersacja wyciszona")
            } else {
                message_reply(200, "Wyciszenie wyłączone")
            },
            on: facts.on,
        },
    }
}

/// What to do next about silencing a contact, or hearing them again.
pub fn toggle_contact_mute(user_id: &Option<String>, contact_id: &str, facts: &ToggleFacts) -> (r: ToggleNext)
    ensures
        r == toggle_contact_mute_next(user_id, contact_id@, facts),
{
    match toggle_start(user_id, contact_id, facts) {
        Some(next) => next,
        None => ToggleNext::Done {
            reply: if facts.on {
                message_reply(200, "Konwersacja wyciszona")
            } else {
                message_reply(200, "Wyciszenie wyłączone")
            },
            on: facts.on,
        },
    }
}

/// What to do next about blocking a contact, or taking a block back.
pub open spec fn toggle_contact_block_next(user_id: &Option<String>, contact_id: Seq<char>, facts: &ToggleFacts) -> ToggleNext {
    match toggle_start_next(user_id, contact_id, facts) {
        Some(next) => next,
        None => if !facts.invalidated {
            ToggleNext::Invalidate
        } else if facts.on && !facts.call_ended {
            ToggleNext::EndCall
        } else if !facts.told {
            ToggleNext::Tell
        } else {
            ToggleNext::Done {
                reply: if facts.on {
                    message_reply(200, "Użytkownik zablokowany")
                } else {
                    message_reply(200, "Użytkownik odblokowany")
                },
                on: facts.on,
            }
        },
    }
}

/// What to do next about blocking a contact, or taking a block back.
pub fn toggle_contact_block(user_id: &Option<String>, contact_id: &str, facts: &ToggleFacts) -> (r: ToggleNext)
    ensures
        r == toggle_contact_block_next(user_id, contact_id@, facts),
{
    match toggle_start(user_id, contact_id, facts) {
        Some(next) => next,
        None => if !facts.invalidated {
            ToggleNext::Invalidate
        } else if facts.on && !facts.call_ended {
            ToggleNext::EndCall
        } else if !facts.told {
            ToggleNext::Tell
        } else {
            ToggleNext::Done {
                reply: if facts.on {
                    message_reply(200, "Użytkownik zablokowany")
                } else {
                    message_reply(200, "Użytkownik odblokowany")
                },
                on: facts.on,
            }
        },
    }
}

/// Only friends are silenced or blocked; and a block is answered only after what is remembered
/// was forgotten, a call between the two was ended, and both were told.
pub proof fn blocks_take_effect_at_once(
    user_id: &Option<String>,
    contact_id: Seq<char>,
    facts: &ToggleFacts,
)
    ensures
        toggle_contact_block_next(user_id, contact_id, facts) is Save || toggle_contact_mute_next(
            user_id,
            contact_id,
            facts,
        ) is Save ==> facts.friends == Some(Answer::Yes),
        toggle_contact_block_next(user_id, contact_id, facts) is Done ==> facts.saved == Some(true)
            && facts.invalidated && facts.told && (facts.on ==> facts.call_ended),
{
}

/// What both sides of a call are told when one of them blocks the other.
pub fn end_call_of_blocked(s: &CallSession, user_id: &str) -> (r: Vec<CallNotice>)
    ensures
        notices(r@) == cut_off_notices(*s, user_id@, "BLOCKED"),
{
    cut_off_call(s, user_id, "BLOCKED")
}

/// What both sides of a call are told when their conversation is wiped.
pub fn end_call_of_wiped(s: &CallSession, user_id: &str) -> (r: Vec<CallNotice>)
    ensures
        notices(r@) == cut_off_notices(*s, user_id@, "CONVERSATION_DELETED"),
{
    cut_off_call(s, user_id, "CONVERSATION_DELETED")
}

/// What both sides of a call are told when they are no longer friends.
pub fn end_call_of_unfriended(s: &CallSession, user_id: &str) -> (r: Vec<CallNotice>)
    ensures
        notices(r@) == cut_off_notices(*s, user_id@, "UNFRIENDED"),
{
    cut_off_call(s, user_id, "UNFRIENDED")
}

/// What to do next about showing whom the user blocked.
#[derive(Clone, Copy, Debug)]
pub enum BlockedNext {
    Reply(Reply),
    FindMe(ObjectId),
    FetchUsers,
    Show,
}

/// What to do next about showing whom the user blocked; `nobody`: there is none.
pub open spec fn get_blocked_contacts_next(user_id: &Option<String>, me: Option<Lookup>, nobody: bool, users: Option<bool>) -> BlockedNext {
    match user_id {
        None => BlockedNext::Reply(message_reply(401, "Brak autoryzacji")),
        Some(id) => match (parsed_id(id@), me) {
            (None, _) => BlockedNext::Reply(message_reply(400, "Nieprawidłowy użytkownik")),
            (Some(uid), None) => BlockedNext::FindMe(uid),
            (Some(_), Some(Lookup::Missing)) => BlockedNext::Reply(
                message_reply(404, "Użytkownik nie znaleziony"),
            ),
            (Some(_), Some(Lookup::Failed)) => BlockedNext::Reply(
                message_reply(503, "Contacts temporarily unavailable. Please retry."),
            ),
            (Some(_), Some(Lookup::Found)) => if nobody {
                BlockedNext::Show
            } else {
                match users {
                    None => BlockedNext::FetchUsers,
                    Some(true) => BlockedNext::Show,
                    Some(false) => BlockedNext::Reply(
                        message_reply(503, "Contacts temporarily unavailable. Please retry."),
                    ),
                }
            },
        },
    }
}

/// What to do next about showing whom the user blocked; `nobody`: there is none.
pub fn get_blocked_contacts(user_id: &Option<String>, me: Option<Lookup>, nobody: bool, users: Option<bool>) -> (r: BlockedNext)
    ensures
        r == get_blocked_contacts_next(user_id, me, nobody, users),
{
    match user_id {
        None => BlockedNext::Reply(message_reply(401, "Brak autoryzacji")),
        Some(id) => match (ObjectId::parse_str(id), me) {
            (None, _) => BlockedNext::Reply(message_reply(400, "Nieprawidłowy użytkownik")),
            (Some(uid), None) => BlockedNext::FindMe(uid),
            (Some(_), Some(Lookup::Missing)) => BlockedNext::Reply(
                message_reply(404, "Użytkownik nie znaleziony"),
            ),
            (Some(_), Some(Lookup::Failed)) => BlockedNext::Reply(
                message_reply(503, "Contacts temporarily unavailable. Please retry."),
            ),
            (Some(_), Some(Lookup::Found)) => if nobody {
                BlockedNext::Show
            } else {
                match users {
                    None => BlockedNext::FetchUsers,
                    Some(true) => BlockedNext::Show,
                    Some(false) => BlockedNext::Reply(
                        message_reply(503, "Contacts temporarily unavailable. Please retry."),
                    ),
                }
            },
        },
    }
}

/// Somebody whom the user blocked, as they are shown.
pub struct BlockedRow {
    pub id: String,
    pub username: String,
    pub display_name: Option<String>,
    pub image: Option<String>,
    pub color: Option<i32>,
}

/// What is shown of somebody whom the user blocked.
#[verifier::ext_equal]
pub struct BlockedRowView {
    pub id: Seq<char>,
    pub username: Seq<char>,
    pub display_name: Option<Seq<char>>,
    pub image: Option<Seq<char>>,
    pub color: Option<i32>,
}

impl View for BlockedRow {
    type V = BlockedRowView;

    open spec fn view(&self) -> BlockedRowView {
        BlockedRowView {
            id: self.id@,
            username: self.username@,
            display_name: opt_text(self.display_name),
            image: opt_text(self.image),
            color: self.color,
        }
    }
}

/// What is shown of those whom the user blocked.
pub open spec fn blocked_views(v: Seq<BlockedRow>) -> Seq<BlockedRowView> {
    v.map_values(|x: BlockedRow| x@)
}

/// What is shown of those whom the user blocked: those who are known, in order.
pub open spec fn blocked_rows_of(ids: Seq<ObjectId>, users: Seq<User>) -> Seq<BlockedRowView>
    decreases ids.len(),
{
    if ids.len() == 0 {
        Seq::empty()
    } else {
        let before = blocked_rows_of(ids.drop_last(), users);
        if places(users).dom().contains(ids.last()) {
            let u = users[places(users)[ids.last()] as int];
            before.push(
                BlockedRowView {
                    id: ids.last().hex(),
                    username: u.username@,
                    display_name: non_blank(u.display_name),
                    image: opt_text(u.image),
                    color: u.color,
                },
            )
        } else {
            before
        }
    }
}

/// Those whom the user blocked, as they are shown: those who are known, in order.
pub fn blocked_rows(ids: &Vec<ObjectId>, users: &Vec<User>) -> (r: Vec<BlockedRow>)
    ensures
        blocked_views(r@) == blocked_rows_of(ids@, users@),
{
    let table = fetch_users_map(users);
    let known: usize = users.len();
    let mut out: Vec<BlockedRow> = Vec::new();
    let mut i: usize = 0;
    proof {
        assert(blocked_views(out@) =~= Seq::empty());
    }
    while i < ids.len()
        invariant
            i <= ids.len(),
            known == users@.len(),
            table.wf(),
            table.entries() == places(users@),
            blocked_views(out@) == blocked_rows_of(ids@.take(i as int), users@),
        decreases ids.len() - i,
    {
        proof {
            assert(ids@.take(i + 1).drop_last() =~= ids@.take(i as int));
        }
        match table.get(ids[i]) {
            Some(place) => {
                proof {
                    places_hold_the_users(users@, ids@[i as int]);
                }
                let u = &users[*place];
                let row = BlockedRow {
                    id: ids[i].to_hex(),
                    username: u.username.clone(),
                    display_name: resolve_display_name(u),
                    image: text::copy_opt(&u.image),
                    color: u.color,
                };
                proof {
                    assert(blocked_views(out@.push(row)) =~= blocked_views(out@).push(row@));
                }
                out.push(row);
            },
            None => {},
        }
        i = i + 1;
    }
    proof {
        assert(ids@.take(ids@.len() as int) =~= ids@);
    }
    out
}

/// What is known so far about wiping a conversation.
#[derive(Clone, Copy, Debug)]
pub struct WipeFacts {
    pub friends: Option<Answer>,
    /// The time before anything is wiped, in milliseconds.
    pub wipe_at: Option<i64>,
    /// Whether the messages between the two could be wiped.
    pub wiped: Option<bool>,
    /// Whether the files of those messages were seen to.
    pub files_cleaned: bool,
    /// Whether a call between the two was ended, if there was one.
    pub call_ended: bool,
    /// Whether the last message of the conversation was forgotten.
    pub tip_cleared: bool,
    pub settle: SettleFacts,
}

/// What to do next about wiping a conversation.
#[derive(Clone, Copy, Debug)]
pub enum WipeNext {
    Reply(Reply),
    AskFriends,
    /// Note what time it is.
    TakeTime,
    /// Wipe the messages of [`MessageFilter::conversation`].
    Wipe { user: ObjectId, contact: ObjectId },
    CleanFiles,
    /// End the call between the two, if there is one, because their conversation is wiped.
    EndCall,
    /// Forget the last message of the conversation, unless it is newer than this.
    ClearTip { user: ObjectId, contact: ObjectId, at_most: i64 },
    /// Go on with what follows once the messages were wiped.
    Settle(SettleNext),
}

/// What to do next about wiping a conversation. `contact_id` is the identifier that the request
/// names.
pub open spec fn delete_conversation_next(user_id: &Option<String>, contact_id: Seq<char>, facts: &WipeFacts) -> WipeNext {
    match (
        parsed_id(text_or_empty(*user_id)),
        parsed_id(contact_id),
    ) {
        (Some(user), Some(contact)) => match facts.friends {
            None => WipeNext::AskFriends,
            Some(answer) => match require_friends_or_503(
                answer,
                message_reply(403, "You can only delete conversations with friends"),
            ) {
                Err(reply) => WipeNext::Reply(reply),
                Ok(_) => match (facts.wipe_at, facts.wiped) {
                    (None, _) => WipeNext::TakeTime,
                    (Some(_), None) => WipeNext::Wipe { user, contact },
                    (Some(_), Some(false)) => WipeNext::Reply(
                        retry_message(503, "Failed to delete conversation"),
                    ),
                    (Some(at_most), Some(true)) => if !facts.files_cleaned {
                        WipeNext::CleanFiles
                    } else if !facts.call_ended {
                        WipeNext::EndCall
                    } else if !facts.tip_cleared {
                        WipeNext::ClearTip { user, contact, at_most }
                    } else {
                        match settle_conversation(facts.settle) {
                            SettleNext::Done => WipeNext::Reply(
                                message_reply(200, "Conversation deleted"),
                            ),
                            SettleNext::CountFailed => WipeNext::Reply(
                                retry_message(500, "Failed to delete conversation"),
                            ),
                            more => WipeNext::Settle(more),
                        }
                    },
                },
            },
        },
        _ => WipeNext::Reply(message_reply(400, "Missing user or contact id")),
    }
}

/// What to do next about wiping a conversation. `contact_id` is the identifier that the request
/// names.
pub fn delete_conversation(user_id: &Option<String>, contact_id: &str, facts: &WipeFacts) -> (r: WipeNext)
    ensures
        r == delete_conversation_next(user_id, contact_id@, facts),
{
    match (
        ObjectId::parse_str(text::or_empty(user_id)),
        ObjectId::parse_str(contact_id),
    ) {
        (Some(user), Some(contact)) => match facts.friends {
            None => WipeNext::AskFriends,
            Some(answer) => match require_friends_or_503(
                answer,
                message_reply(403, "You can only delete conversations with friends"),
            ) {
                Err(reply) => WipeNext::Reply(reply),
                Ok(_) => match (facts.wipe_at, facts.wiped) {
                    (None, _) => WipeNext::TakeTime,
                    (Some(_), None) => WipeNext::Wipe { user, contact },
                    (Some(_), Some(false)) => WipeNext::Reply(
                        retry_message(503, "Failed to delete conversation"),
                    ),
                    (Some(at_most), Some(true)) => if !facts.files_cleaned {
                        WipeNext::CleanFiles
                    } else if !facts.call_ended {
                        WipeNext::EndCall
                    } else if !facts.tip_cleared {
                        WipeNext::ClearTip { user, contact, at_most }
                    } else {
                        match settle_conversation(facts.settle) {
                            SettleNext::Done => WipeNext::Reply(
                                message_reply(200, "Conversation deleted"),
                            ),
                            SettleNext::CountFailed => WipeNext::Reply(
                                retry_message(500, "Failed to delete conversation"),
                            ),
                            more => WipeNext::Settle(more),
                        }
                    },
                },
            },
        },
        _ => WipeNext::Reply(message_reply(400, "Missing user or contact id")),
    }
}

/// Only friends wipe their conversation, and it is said to be deleted only after its messages
/// were wiped and both were told what is unread.
pub proof fn wiping_is_for_friends(
    user_id: &Option<String>,
    contact_id: Seq<char>,
    facts: &WipeFacts,
)
    ensures
        delete_conversation_next(user_id, contact_id, facts) is Wipe || delete_conversation_next(
            user_id,
            contact_id,
            facts,
        ) is Settle ==> facts.friends == Some(Answer::Yes),
        delete_conversation_next(user_id, contact_id, facts) matches WipeNext::Reply(reply)
            && reply.status == 200 ==> facts.wiped == Some(true) && facts.call_ended
            && facts.tip_cleared && facts.settle.unread_told,
{
}

/// The last message of a conversation is forgotten only once its messages are wiped, and only up
/// to the time that was taken before: what is sent meanwhile stays.
pub proof fn wiping_keeps_what_is_newer(
    user_id: &Option<String>,
    contact_id: Seq<char>,
    facts: &WipeFacts,
)
    ensures
        match delete_conversation_next(user_id, contact_id, facts) {
            WipeNext::TakeTime => facts.wipe_at is None,
            WipeNext::Wipe { user, contact } => {
                &&& facts.wipe_at is Some
                &&& facts.wiped is None
                &&& parsed_id(text_or_empty(*user_id)) == Some(user)
                &&& parsed_id(contact_id) == Some(contact)
            },
            WipeNext::ClearTip { user, contact, at_most } => {
                &&& facts.wipe_at == Some(at_most)
                &&& facts.wiped == Some(true)
                &&& parsed_id(text_or_empty(*user_id)) == Some(user)
                &&& parsed_id(contact_id) == Some(contact)
            },
            _ => true,
        },
{
}

/// Friends go on, others are answered as the request says, and where that cannot be found out it is
/// answered so.
pub proof fn friends_go_on(friends: Answer, not_friends: Reply)
    ensures
        require_friends_of(friends, not_friends) is Ok <==> friends == Answer::Yes,
        friends == Answer::No ==> require_friends_of(friends, not_friends) == Err::<(), Reply>(
            not_friends,
        ),
        friends == Answer::Failed ==> require_friends_of(friends, not_friends) == Err::<(), Reply>(
            crate::reply::retry_message_of(503, "Temporarily unavailable"),
        ),
{
}

/// Each Polish letter, small or capital, becomes the small letter without its mark, and no other
/// character changes.
pub proof fn polish_letters_lose_their_marks(c: char)
    ensures
        c == 'ą' || c == 'Ą' ==> fold_letter_of(c) == 'a',
        c == 'ć' || c == 'Ć' ==> fold_letter_of(c) == 'c',
        c == 'ę' || c == 'Ę' ==> fold_letter_of(c) == 'e',
        c == 'ł' || c == 'Ł' ==> fold_letter_of(c) == 'l',
        c == 'ń' || c == 'Ń' ==> fold_letter_of(c) == 'n',
        c == 'ó' || c == 'Ó' ==> fold_letter_of(c) == 'o',
        c == 'ś' || c == 'Ś' ==> fold_letter_of(c) == 's',
        c == 'ź' || c == 'Ź' || c == 'ż' || c == 'Ż' ==> fold_letter_of(c) == 'z',
        c as u32 <= 127 ==> fold_letter_of(c) == c,
        fold_letter_of(c) == c || fold_letter_of(c) as u32 <= 127,
{
}

/// A text keeps its length without Polish marks, and each character becomes its own.
pub proof fn folding_goes_letter_by_letter(s: Seq<char>, i: int)
    requires
        0 <= i < s.len(),
    ensures
        folded(s).len() == s.len(),
        folded(s)[i] == fold_letter_of(s[i]),
{
}

/// A search asks for accounts that can be used and are not going to be deleted: these five conditions
/// and no other.
pub proof fn searches_find_usable_accounts()
    ensures
        search_conditions().len() == 5,
        search_conditions()[0] == (FieldCondition {
            field: "isActive",
            condition: Condition::IsNotFalse,
        }),
        search_conditions()[1] == (FieldCondition {
            field: "isBlocked",
            condition: Condition::IsNotTrue,
        }),
        search_conditions()[2] == (FieldCondition {
            field: "isBanned",
            condition: Condition::IsNotTrue,
        }),
        search_conditions()[3] == (FieldCondition {
            field: "isDisabled",
            condition: Condition::IsNotTrue,
        }),
        search_conditions()[4] == (FieldCondition {
            field: "deletionScheduledAt",
            condition: Condition::IsAbsent,
        }),
{
}

/// What a search comes to, outcome by outcome: a term of 3 to 64 characters is searched for, then the
/// friends are listed, and then what was found is shown.
pub proof fn searches_are_made_and_shown(
    user_id: &Option<String>,
    body: &SearchBody,
    term: Seq<char>,
    facts: &SearchFacts,
    uid: ObjectId,
)
    ensures
        ({
            let next = search_contacts_next(user_id, body, term, facts);
            let known = parsed_id(text_or_empty(*user_id)) is Some;
            let given = known && body.search_term is Some;
            let fits = given && 3 <= term.len() <= 64;
            &&& next == SearchNext::Search(uid) <==> fits && facts.found is None && parsed_id(
                text_or_empty(*user_id),
            ) == Some(uid)
            &&& next is ListFriends <==> fits && facts.found == Some(true) && facts.friends is None
            &&& next is Show <==> fits && facts.found == Some(true) && facts.friends == Some(true)
            &&& !known ==> next == SearchNext::Reply(
                crate::reply::text_reply_of(500, "Internal Server Error."),
            )
            &&& known && !given ==> next == SearchNext::Reply(
                crate::reply::text_reply_of(400, "Search Term is required."),
            )
            &&& given && term.len() < 3 ==> next == SearchNext::Reply(
                crate::reply::text_reply_of(400, "Search term must be at least 3 characters."),
            )
            &&& given && term.len() > 64 ==> next == SearchNext::Reply(
                crate::reply::text_reply_of(400, "Search term must be at most 64 characters."),
            )
            &&& fits && (facts.found == Some(false) || (facts.found == Some(true) && facts.friends
                == Some(false))) ==> next == SearchNext::Reply(
                crate::reply::retry_message_of(503, "Temporarily unavailable"),
            )
        }),
{
}

/// What is shown of somebody who was found: always the names and the colour, and to friends the rest.
pub proof fn friends_see_more(u: User, id: ObjectId, is_friend: bool)
    ensures
        ({
            let r = found_user(u, id, is_friend);
            &&& r.id == id.hex() && r.username == u.username@ && r.color == u.color
            &&& r.display_name == non_blank(u.display_name)
            &&& r.friend is Some <==> is_friend
            &&& is_friend ==> r.friend->0.bio == opt_text(u.bio) && r.friend->0.image == opt_text(
                u.image,
            ) && r.friend->0.banner == opt_text(u.banner) && r.friend->0.created_at == rfc3339(
                u.created_at,
            )
        }),
{
}

/// Each user who was found and has an identifier is shown, in the order in which they were found, as
/// a friend exactly if they are one.
pub proof fn found_users_are_shown_in_order(users: Seq<User>, u: User, friends: Seq<Seq<char>>)
    ensures
        found_users(Seq::empty(), friends).len() == 0,
        u.id is None ==> found_users(users.push(u), friends) == found_users(users, friends),
        u.id matches Some(id) ==> found_users(users.push(u), friends) == found_users(
            users,
            friends,
        ).push(found_user(u, id, friends.contains(id.hex()))),
{
    assert(users.push(u).drop_last() =~= users);
}

/// What the profile of a contact comes to, outcome by outcome: it is looked for and shown to friends,
/// and to nobody else.
pub proof fn profiles_are_looked_for_and_shown(
    user_id: &Option<String>,
    contact_id: Seq<char>,
    friends: Option<Answer>,
    found: Option<Lookup>,
    contact: ObjectId,
)
    ensures
        ({
            let next = get_contact_profile_next(user_id, contact_id, friends, found);
            let named = *user_id is Some && parsed_id(contact_id) is Some;
            let friend = named && friends == Some(Answer::Yes);
            &&& next is AskFriends <==> named && friends is None
            &&& next == ContactNext::FindContact(contact) <==> friend && found is None && parsed_id(
                contact_id,
            ) == Some(contact)
            &&& next is Show <==> friend && found == Some(Lookup::Found)
            &&& *user_id is None ==> next == ContactNext::Reply(
                crate::reply::message_reply_of(401, "Brak autoryzacji"),
            )
            &&& *user_id is Some && !named ==> next == ContactNext::Reply(
                crate::reply::message_reply_of(400, "Nieprawidłowy identyfikator kontaktu"),
            )
            &&& named && friends == Some(Answer::No) ==> next == ContactNext::Reply(
                crate::reply::message_reply_of(
                    404,
                    "Kontakt nie znaleziony lub brak relacji znajomości",
                ),
            )
            &&& named && friends == Some(Answer::Failed) ==> next == ContactNext::Reply(
                crate::reply::retry_message_of(503, "Temporarily unavailable"),
            )
            &&& friend && found == Some(Lookup::Missing) ==> next == ContactNext::Reply(
                crate::reply::message_reply_of(404, "Użytkownik nie znaleziony"),
            )
            &&& friend && found == Some(Lookup::Failed) ==> next == ContactNext::Reply(
                crate::reply::message_reply_of(500, "Nie udało się wczytać profilu"),
            )
        }),
{
}

/// A number that the store gave is taken as it is, and as zero where it is negative or missing.
pub proof fn counts_are_never_negative(n: Option<i64>)
    ensures
        n matches Some(v) ==> count_of(n) == if v >= 0 {
            v as int
        } else {
            0
        },
        n is None ==> count_of(n) == 0,
{
}

/// A last message has to be looked for exactly if none is kept, or if what is kept is neither a text
/// nor a time.
pub proof fn missing_tips_are_looked_for(
    friends: Seq<ObjectId>,
    tips: Map<ObjectId, TipView>,
    x: ObjectId,
)
    ensures
        friends.filter(without_tip(tips)).contains(x) <==> friends.contains(x) && (
        !tips.dom().contains(x) || (tips[x].preview.len() == 0 && tips[x].time == 0)),
{
    crate::lists::filter_keeps_what_fits(friends, without_tip(tips));
    assert(friends.filter(without_tip(tips)).contains(x) <==> friends.contains(x) && without_tip(
        tips,
    )(x));
}

/// Unread messages have to be counted unless it is kept that there are none because there is no
/// message.
pub proof fn known_empty_conversations_are_not_counted(
    friends: Seq<ObjectId>,
    tips: Map<ObjectId, TipView>,
    x: ObjectId,
)
    ensures
        friends.filter(to_count(tips)).contains(x) <==> friends.contains(x) && !(tips.dom().contains(
            x,
        ) && tips[x].unread == Some(0u64) && tips[x].preview.len() == 0 && tips[x].time == 0),
{
    crate::lists::filter_keeps_what_fits(friends, to_count(tips));
    assert(friends.filter(to_count(tips)).contains(x) <==> friends.contains(x) && to_count(tips)(x));
}

/// A row with everything replaces what is kept of its friend, but not how many messages are unread,
/// and a row that lacks something changes nothing.
pub proof fn whole_rows_are_taken(
    tips: Map<ObjectId, TipView>,
    rows: Seq<TipRow>,
    row: TipRow,
)
    ensures
        ({
            let before = filled(tips, rows);
            let after = filled(tips, rows.push(row));
            let whole = row.friend is Some && row.time is Some && row.content is Some && row.message
                is Some;
            &&& filled(tips, Seq::empty()) == tips
            &&& !whole ==> after == before
            &&& whole ==> after == before.insert(
                row.friend->0,
                TipView {
                    time: row.time->0,
                    preview: row.content->0@,
                    message: row.message->0,
                    unread: if tips.dom().contains(row.friend->0) {
                        tips[row.friend->0].unread
                    } else {
                        None
                    },
                },
            )
        }),
{
    assert(rows.push(row).drop_last() =~= rows);
}

/// What the list shows of a friend who is not blocked: the last message that is kept, if there is one,
/// and as many unread messages as were counted, if they had to be.
pub proof fn open_conversations_are_shown(p: ListParts, i: int)
    requires
        0 <= i < p.friendships@.len(),
        p.friendships@.len() <= usize::MAX,
    ensures
        ({
            let r = contact_row_of(p, i);
            let other = p.friendships@[i].other(p.user);
            let tips = p.tips.entries();
            let counted = p.unread.entries();
            let open = !p.blocked@.contains(other);
            let last = open && tips.dom().contains(other) && !(tips[other].preview.len() == 0
                && tips[other].time == 0);
            let empty = tips.dom().contains(other) && tips[other].unread == Some(0u64)
                && tips[other].preview.len() == 0 && tips[other].time == 0;
            &&& r.position == i && r.friend == places(p.users@)[other]
            &&& r.last is Some <==> last
            &&& last ==> r.last == Some((tips[other].time, tips[other].preview, tips[other].message))
            &&& open && !empty && counted.dom().contains(other) ==> r.unread == counted[other]
            &&& !open || empty || !counted.dom().contains(other) ==> r.unread == 0
            &&& r.is_muted <==> p.muted@.contains(other)
            &&& r.is_blocked_by_me <==> !open
        }),
{
}

/// Of two conversations the one with the newer last message stands first; one without a message counts
/// as the oldest, and of two that are equally new the one that came first stands first.
pub proof fn newer_conversations_stand_first(a: ContactRowView, b: ContactRowView)
    ensures
        ({
            let la = a.last->0;
            let lb = b.last->0;
            let ta = if a.last is Some {
                la.0
            } else {
                0
            };
            let tb = if b.last is Some {
                lb.0
            } else {
                0
            };
            &&& ta > tb ==> stands_before(a, b)
            &&& ta < tb ==> !stands_before(a, b)
            &&& ta == tb ==> (stands_before(a, b) <==> a.position < b.position)
        }),
{
}

/// What the list of conversations comes to, outcome by outcome: the friendships are listed, the user
/// is found, then the friends, the last messages and the unread counts are, where there are any; and it
/// is shown exactly if all of them are there.
pub proof fn lists_are_made_in_order(user_id: &Option<String>, facts: &ContactsFacts, uid: ObjectId)
    requires
        parsed_id(text_or_empty(*user_id)) == Some(uid),
    ensures
        ({
            let next = get_contacts_for_list_next(user_id, facts);
            let listed = facts.friendships is Some && facts.friendships->0 is Listed;
            let me = listed && facts.me == Some(Lookup::Found);
            let nobody = facts.friendships->0->empty;
            let known = me && (nobody || facts.users == Some(true));
            let tips = known && facts.tips == Some(true);
            let later = ContactsNext::Reply(
                crate::reply::text_reply_of(503, "Contacts temporarily unavailable. Please retry."),
            );
            &&& next == ContactsNext::ListFriendships(uid) <==> facts.friendships is None
            &&& next == ContactsNext::FindMe(uid) <==> listed && facts.me is None
            &&& next is FetchUsers <==> me && !nobody && facts.users is None
            &&& next is FindTips <==> known && facts.tips is None
            &&& next is CountUnread <==> tips && !facts.nothing_to_count && facts.unread is None
            &&& next is Show <==> tips && (facts.nothing_to_count || facts.unread == Some(true))
            &&& facts.friendships == Some(Listing::Broken) || (listed && facts.me == Some(
                Lookup::Failed,
            )) || (me && !nobody && facts.users == Some(false)) || (known && facts.tips == Some(
                false,
            )) || (tips && !facts.nothing_to_count && facts.unread == Some(false)) ==> next == later
            &&& facts.friendships == Some(Listing::Failed) ==> next == ContactsNext::Reply(
                crate::reply::text_reply_of(500, "Internal Server Error"),
            )
            &&& listed && facts.me == Some(Lookup::Missing) ==> next == ContactsNext::Reply(
                crate::reply::text_reply_of(401, "Unauthorized"),
            )
        }),
{
}

/// Without a user there is no list.
pub proof fn lists_need_a_user(user_id: &Option<String>, facts: &ContactsFacts)
    requires
        parsed_id(text_or_empty(*user_id)) is None,
    ensures
        get_contacts_for_list_next(user_id, facts) == ContactsNext::Reply(
            crate::reply::text_reply_of(400, "User ID is required."),
        ),
{
}

/// What silencing and blocking a contact come to, outcome by outcome: only a friend can be, the list
/// is stored for the user of the request, and of a block what is remembered is then forgotten, a call
/// is ended where the block is new, and both are told; the answer says what holds now.
pub proof fn toggles_are_stored_and_told(
    user_id: &Option<String>,
    contact_id: Seq<char>,
    facts: &ToggleFacts,
    user: ObjectId,
    contact: ObjectId,
)
    requires
        *user_id is Some,
        parsed_id(user_id->0@) == Some(user),
        parsed_id(contact_id) == Some(contact),
    ensures
        ({
            let mute = toggle_contact_mute_next(user_id, contact_id, facts);
            let block = toggle_contact_block_next(user_id, contact_id, facts);
            let friend = facts.friends == Some(Answer::Yes);
            let me = friend && facts.me == Some(Lookup::Found);
            let stored = me && facts.saved == Some(true);
            let forgot = stored && facts.invalidated;
            let quiet = forgot && (!facts.on || facts.call_ended);
            &&& mute is AskFriends <==> facts.friends is None
            &&& mute == ToggleNext::FindMe(user) <==> friend && facts.me is None
            &&& mute == (ToggleNext::Save { user, contact }) <==> me && facts.saved is None
            &&& mute is Done <==> stored
            &&& mute is Done ==> mute->on == facts.on && mute->reply
                == crate::reply::message_reply_of(
                200,
                if facts.on {
                    "Konwersacja wyciszona"
                } else {
                    "Wyciszenie wyłączone"
                },
            )
            &&& !stored ==> block == mute
            &&& block is Invalidate <==> stored && !facts.invalidated
            &&& block is EndCall <==> forgot && facts.on && !facts.call_ended
            &&& block is Tell <==> quiet && !facts.told
            &&& block is Done <==> quiet && facts.told
            &&& block is Done ==> block->on == facts.on && block->reply
                == crate::reply::message_reply_of(
                200,
                if facts.on {
                    "Użytkownik zablokowany"
                } else {
                    "Użytkownik odblokowany"
                },
            )
            &&& facts.friends == Some(Answer::No) ==> mute == ToggleNext::Reply(
                crate::reply::message_reply_of(
                    404,
                    "Kontakt nie znaleziony lub brak relacji znajomości",
                ),
            )
            &&& facts.friends == Some(Answer::Failed) || (friend && facts.me == Some(Lookup::Failed))
                ==> mute == ToggleNext::Reply(
                crate::reply::retry_message_of(503, "Temporarily unavailable"),
            )
            &&& friend && facts.me == Some(Lookup::Missing) ==> mute == ToggleNext::Reply(
                crate::reply::message_reply_of(404, "Użytkownik nie znaleziony"),
            )
            &&& me && facts.saved == Some(false) ==> mute == ToggleNext::Reply(
                crate::reply::message_reply_of(500, "Internal Server Error"),
            )
        }),
{
}

/// Who is not known, who names no contact, and who is no identifier themselves is answered so.
pub proof fn incomplete_toggles_are_answered(
    user_id: &Option<String>,
    contact_id: Seq<char>,
    facts: &ToggleFacts,
)
    ensures
        ({
            let mute = toggle_contact_mute_next(user_id, contact_id, facts);
            let block = toggle_contact_block_next(user_id, contact_id, facts);
            let named = *user_id is Some && parsed_id(contact_id) is Some;
            let nobody = named && facts.friends == Some(Answer::Yes) && parsed_id(user_id->0@)
                is None;
            &&& *user_id is None ==> mute == ToggleNext::Reply(
                crate::reply::message_reply_of(401, "Brak autoryzacji"),
            ) && block == mute
            &&& *user_id is Some && !named ==> mute == ToggleNext::Reply(
                crate::reply::message_reply_of(400, "Nieprawidłowy identyfikator kontaktu"),
            ) && block == mute
            &&& nobody ==> mute == ToggleNext::Reply(
                crate::reply::message_reply_of(404, "Użytkownik nie znaleziony"),
            ) && block == mute
        }),
{
}

/// What showing whom the user blocked comes to, outcome by outcome.
pub proof fn blocked_contacts_are_shown(
    user_id: &Option<String>,
    me: Option<Lookup>,
    nobody: bool,
    users: Option<bool>,
    uid: ObjectId,
)
    ensures
        ({
            let next = get_blocked_contacts_next(user_id, me, nobody, users);
            let known = *user_id is Some && parsed_id(user_id->0@) is Some;
            let found = known && me == Some(Lookup::Found);
            let later = BlockedNext::Reply(
                crate::reply::message_reply_of(
                    503,
                    "Contacts temporarily unavailable. Please retry.",
                ),
            );
            &&& next == BlockedNext::FindMe(uid) <==> *user_id is Some && parsed_id(user_id->0@)
                == Some(uid) && me is None
            &&& next is FetchUsers <==> found && !nobody && users is None
            &&& next is Show <==> found && (nobody || users == Some(true))
            &&& *user_id is None ==> next == BlockedNext::Reply(
                crate::reply::message_reply_of(401, "Brak autoryzacji"),
            )
            &&& *user_id is Some && !known ==> next == BlockedNext::Reply(
                crate::reply::message_reply_of(400, "Nieprawidłowy użytkownik"),
            )
            &&& known && me == Some(Lookup::Missing) ==> next == BlockedNext::Reply(
                crate::reply::message_reply_of(404, "Użytkownik nie znaleziony"),
            )
            &&& (known && me == Some(Lookup::Failed)) || (found && !nobody && users == Some(false))
                ==> next == later
        }),
{
}

/// Each one whom the user blocked and who is known is shown, in the order of the list.
pub proof fn known_blocked_contacts_are_shown(
    ids: Seq<ObjectId>,
    id: ObjectId,
    users: Seq<User>,
)
    ensures
        ({
            let before = blocked_rows_of(ids, users);
            let after = blocked_rows_of(ids.push(id), users);
            let u = users[places(users)[id] as int];
            &&& blocked_rows_of(Seq::empty(), users).len() == 0
            &&& !places(users).dom().contains(id) ==> after == before
            &&& places(users).dom().contains(id) ==> after == before.push(
                BlockedRowView {
                    id: id.hex(),
                    username: u.username@,
                    display_name: non_blank(u.display_name),
                    image: opt_text(u.image),
                    color: u.color,
                },
            )
        }),
{
    assert(ids.push(id).drop_last() =~= ids);
}

/// What wiping a conversation comes to, outcome by outcome: only friends wipe it, the time is noted,
/// the messages are wiped and their files cleaned, a call is ended, the last message is forgotten up to
/// that time, and what is left is settled.
pub proof fn conversations_are_wiped_in_order(
    user_id: &Option<String>,
    contact_id: Seq<char>,
    facts: &WipeFacts,
    user: ObjectId,
    contact: ObjectId,
    at_most: i64,
)
    requires
        parsed_id(text_or_empty(*user_id)) == Some(user),
        parsed_id(contact_id) == Some(contact),
    ensures
        ({
            let next = delete_conversation_next(user_id, contact_id, facts);
            let friend = facts.friends == Some(Answer::Yes);
            let timed = friend && facts.wipe_at is Some;
            let wiped = timed && facts.wiped == Some(true);
            let clean = wiped && facts.files_cleaned;
            let quiet = clean && facts.call_ended;
            let bare = quiet && facts.tip_cleared;
            let settle = crate::controllers::conversation::settle_conversation_next(facts.settle);
            &&& next is AskFriends <==> facts.friends is None
            &&& facts.friends == Some(Answer::No) ==> next == WipeNext::Reply(
                crate::reply::message_reply_of(
                    403,
                    "You can only delete conversations with friends",
                ),
            )
            &&& facts.friends == Some(Answer::Failed) ==> next == WipeNext::Reply(
                crate::reply::retry_message_of(503, "Temporarily unavailable"),
            )
            &&& next is TakeTime <==> friend && facts.wipe_at is None
            &&& next == (WipeNext::Wipe { user, contact }) <==> timed && facts.wiped is None
            &&& timed && facts.wiped == Some(false) ==> next == WipeNext::Reply(
                crate::reply::retry_message_of(503, "Failed to delete conversation"),
            )
            &&& next is CleanFiles <==> wiped && !facts.files_cleaned
            &&& next is EndCall <==> clean && !facts.call_ended
            &&& next == (WipeNext::ClearTip { user, contact, at_most }) <==> quiet
                && !facts.tip_cleared && facts.wipe_at == Some(at_most)
            &&& bare && settle is Done ==> next == WipeNext::Reply(
                crate::reply::message_reply_of(200, "Conversation deleted"),
            )
            &&& bare && settle is CountFailed ==> next == WipeNext::Reply(
                crate::reply::retry_message_of(500, "Failed to delete conversation"),
            )
            &&& bare && !(settle is Done) && !(settle is CountFailed) ==> next == WipeNext::Settle(
                settle,
            )
        }),
{
}

/// Who is not named by an identifier has no conversation to wipe.
pub proof fn wiping_needs_two(user_id: &Option<String>, contact_id: Seq<char>, facts: &WipeFacts)
    requires
        parsed_id(text_or_empty(*user_id)) is None || parsed_id(contact_id) is None,
    ensures
        delete_conversation_next(user_id, contact_id, facts) == WipeNext::Reply(
            crate::reply::message_reply_of(400, "Missing user or contact id"),
        ),
{
}

/// A friend is shown with each of their own parts.
pub proof fn friends_are_shown_whole(p: FriendProfile, u: User)
    requires
        shows_friend(p, u),
    ensures
        u.id is Some ==> p.id@ == u.id->0.hex(),
        u.id is None ==> p.id@.len() == 0,
        p.username@ == u.username@,
        p.display_name is Some <==> u.display_name is Some && text::trimmed(
            u.display_name->0@,
        ).len() > 0,
        p.display_name is Some ==> p.display_name->0@ == text::trimmed(u.display_name->0@),
        p.bio is Some <==> u.bio is Some,
        u.bio is Some ==> p.bio->0@ == u.bio->0@,
        p.image is Some <==> u.image is Some,
        u.image is Some ==> p.image->0@ == u.image->0@,
        p.banner is Some <==> u.banner is Some,
        u.banner is Some ==> p.banner->0@ == u.banner->0@,
        p.color == u.color,
        p.is_online == u.is_online,
        u.last_seen is None ==> p.last_seen is None,
        u.last_seen is Some ==> opt_text(p.last_seen) == rfc3339(u.last_seen->0),
        opt_text(p.created_at) == rfc3339(u.created_at),
        u.availability_status is Online <==> p.availability_status@ == "online"@,
{
    reveal_strlit("online");
    reveal_strlit("away");
    reveal_strlit("brb");
    reveal_strlit("dnd");
    assert("online"@.len() == 6 && "away"@.len() == 4 && "brb"@.len() == 3 && "dnd"@.len() == 3);
}

/// Lists are shown row by row; what is kept of conversations is whole only if both the kept ones
/// and the stored ones are known.
pub proof fn rows_are_shown_in_order(
    v: Seq<SearchRow>,
    b: Seq<BlockedRow>,
    kept: Option<IdTable<Tip>>,
    rows: Result<Vec<TipRow>, ()>,
    i: int,
)
    ensures
        search_rows(v).len() == v.len(),
        0 <= i < v.len() ==> search_rows(v)[i] == v[i]@,
        blocked_views(b).len() == b.len(),
        0 <= i < b.len() ==> blocked_views(b)[i] == b[i]@,
        tips_are_whole(kept, rows) ==> kept is Some && rows is Ok,
        kept is Some && rows is Ok ==> tips_are_whole(kept, rows),
{
}

/// A search has three to 64 characters, and ten people are shown.
pub proof fn searches_have_limits()
    ensures
        MIN_SEARCH_LENGTH == 3,
        MAX_SEARCH_LENGTH == 64,
        SEARCH_RESULT_LIMIT == 10,
{
}

} // verus!
