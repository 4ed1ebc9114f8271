//! What two users are told about each other.
use vstd::prelude::*;
use crate::ids::ObjectId;

verus! {

/// Something that a user is told about another: under `key` stands who it is about, and `flag`
/// names a further fact, if there is one.
pub struct PairNotice {
    pub to: String,
    pub event: &'static str,
    pub key: &'static str,
    pub about: String,
    pub flag: Option<(&'static str, bool)>,
}

/// What a user is told about another.
#[verifier::ext_equal]
pub struct PairNoticeView {
    pub to: Seq<char>,
    pub event: &'static str,
    pub key: &'static str,
    pub about: Seq<char>,
    pub flag: Option<(&'static str, bool)>,
}

impl View for PairNotice {
    type V = PairNoticeView;

    open spec fn view(&self) -> PairNoticeView {
        PairNoticeView {
            to: self.to@,
            event: self.event,
            key: self.key,
            about: self.about@,
            flag: self.flag,
        }
    }
}

/// What both of two users are told about each other, by the one who acted first.
#[verifier::ext_equal]
pub struct BothView {
    pub own: PairNoticeView,
    pub other: PairNoticeView,
}

/// What both of two users are told about each other.
pub struct Both {
    pub own: PairNotice,
    pub other: PairNotice,
}

impl View for Both {
    type V = BothView;

    open spec fn view(&self) -> BothView {
        BothView { own: self.own@, other: self.other@ }
    }
}

/// Each of the two is told about the other.
pub open spec fn about_each_other(
    user: Seq<char>,
    other: Seq<char>,
    event: &'static str,
    key: &'static str,
) -> BothView {
    BothView {
        own: PairNoticeView { to: user, event, key, about: other, flag: None },
        other: PairNoticeView { to: other, event, key, about: user, flag: None },
    }
}

fn each_about_the_other(user: &str, other: &str, event: &'static str, key: &'static str) -> (r: Both)
    ensures
        r@ == about_each_other(user@, other@, event, key),
{
    Both {
        own: PairNotice { to: user.to_owned(), event, key, about: other.to_owned(), flag: None },
        other: PairNotice { to: other.to_owned(), event, key, about: user.to_owned(), flag: None },
    }
}

/// What both are told once they are no longer friends.
pub fn friendship_removed(user_id: &str, friend_id: &str) -> (r: Both)
    ensures
        r@ == about_each_other(user_id@, friend_id@, "friendship-removed", "userId"),
{
    each_about_the_other(user_id, friend_id, "friendship-removed", "userId")
}

/// What both are told once their conversation is gone.
pub fn conversation_deleted(user_id: &str, contact_id: &str) -> (r: Both)
    ensures
        r@ == about_each_other(user_id@, contact_id@, "conversation-deleted", "contactId"),
{
    each_about_the_other(user_id, contact_id, "conversation-deleted", "contactId")
}

/// What both are told once a user blocked another, or does so no longer: the user that it is by
/// them, the other that it is by the other.
pub open spec fn block_notices(user: Seq<char>, contact: Seq<char>, is_blocked: bool) -> BothView {
    BothView {
        own: PairNoticeView {
            to: user,
            event: "contact-block-updated",
            key: "contactId",
            about: contact,
            flag: Some(("isBlockedByMe", is_blocked)),
        },
        other: PairNoticeView {
            to: contact,
            event: "contact-block-updated",
            key: "contactId",
            about: user,
            flag: Some(("isBlockedByOther", is_blocked)),
        },
    }
}

/// What both are told once a user blocked another, or does so no longer.
pub fn contact_block_updated(user_id: &str, contact_id: &str, is_blocked: bool) -> (r: Both)
    ensures
        r@ == block_notices(user_id@, contact_id@, is_blocked),
{
    Both {
        own: PairNotice {
            to: user_id.to_owned(),
            event: "contact-block-updated",
            key: "contactId",
            about: contact_id.to_owned(),
            flag: Some(("isBlockedByMe", is_blocked)),
        },
        other: PairNotice {
            to: contact_id.to_owned(),
            event: "contact-block-updated",
            key: "contactId",
            about: user_id.to_owned(),
            flag: Some(("isBlockedByOther", is_blocked)),
        },
    }
}

/// A friend as they are shown to a new friend: as every friend is, or by their identifier alone.
pub enum NewFriend {
    Shown(ObjectId),
    Named(String),
}

/// A friend as they are shown to a new friend.
#[verifier::ext_equal]
pub enum NewFriendView {
    Shown(ObjectId),
    Named(Seq<char>),
}

impl View for NewFriend {
    type V = NewFriendView;

    open spec fn view(&self) -> NewFriendView {
        match self {
            NewFriend::Shown(id) => NewFriendView::Shown(*id),
            NewFriend::Named(s) => NewFriendView::Named(s@),
        }
    }
}

/// Who is told of a new friend, and of whom: the event is `friendship-added`, and the friend
/// stands under `contact`.
pub struct FriendAdded {
    pub to: String,
    pub contact: NewFriend,
}

/// Who is told of a new friend, and of whom.
#[verifier::ext_equal]
pub struct FriendAddedView {
    pub to: Seq<char>,
    pub contact: NewFriendView,
}

impl View for FriendAdded {
    type V = FriendAddedView;

    open spec fn view(&self) -> FriendAddedView {
        FriendAddedView { to: self.to@, contact: self.contact@ }
    }
}

/// The one who is told of a new friend, by their own identifier or by their text where that is
/// no identifier.
pub open spec fn shown_friend(id: Option<ObjectId>, named: Seq<char>, full: bool) -> NewFriendView {
    match id {
        Some(i) => if full {
            NewFriendView::Shown(i)
        } else {
            NewFriendView::Named(named)
        },
        None => NewFriendView::Named(named),
    }
}

fn friend_shown(id: Option<ObjectId>, named: &str, full: bool) -> (r: NewFriend)
    ensures
        r@ == shown_friend(id, named@, full),
{
    match id {
        Some(i) => if full {
            NewFriend::Shown(i)
        } else {
            NewFriend::Named(named.to_owned())
        },
        None => NewFriend::Named(named.to_owned()),
    }
}

/// The friend that somebody who accepted an invitation is answered with, and told of. `full`:
/// both accounts were found.
pub fn accepted_friend(from: ObjectId, full: bool) -> (r: NewFriend)
    ensures
        r@ == shown_friend(Some(from), from.hex(), full),
{
    friend_shown(Some(from), &from.to_hex(), full)
}

/// What both are told once an invitation was accepted: who accepted it, of the one who sent it,
/// and that one of them. `full`: both accounts were found.
pub fn friendship_added(accepter_id: &str, from: ObjectId, full: bool) -> (r: (
    FriendAdded,
    FriendAdded,
))
    ensures
        r.0@ == (FriendAddedView {
            to: accepter_id@,
            contact: shown_friend(Some(from), from.hex(), full),
        }),
        r.1@ == (FriendAddedView {
            to: from.hex(),
            contact: shown_friend(crate::ids::parsed_id(accepter_id@), accepter_id@, full),
        }),
{
    (
        FriendAdded { to: accepter_id.to_owned(), contact: accepted_friend(from, full) },
        FriendAdded {
            to: from.to_hex(),
            contact: friend_shown(ObjectId::parse_str(accepter_id), accepter_id, full),
        },
    )
}

/// Both are always told, each about the other and neither about themselves.
pub proof fn both_hear_of_each_other(
    user: Seq<char>,
    other: Seq<char>,
    event: &'static str,
    key: &'static str,
    is_blocked: bool,
)
    ensures
        about_each_other(user, other, event, key).own.to == user,
        about_each_other(user, other, event, key).own.about == other,
        about_each_other(user, other, event, key).other.to == other,
        about_each_other(user, other, event, key).other.about == user,
        block_notices(user, other, is_blocked).own.to == user,
        block_notices(user, other, is_blocked).own.about == other,
        block_notices(user, other, is_blocked).other.to == other,
        block_notices(user, other, is_blocked).other.about == user,
{
}

/// A block is told to the one who blocks as theirs and to the other as the other's, with what it is
/// now.
pub proof fn blocks_are_told_from_both_sides(user: Seq<char>, contact: Seq<char>, is_blocked: bool)
    ensures
        ({
            let b = block_notices(user, contact, is_blocked);
            &&& b.own.flag == Some(("isBlockedByMe", is_blocked))
            &&& b.other.flag == Some(("isBlockedByOther", is_blocked))
            &&& b.own.event == "contact-block-updated" && b.other.event == "contact-block-updated"
            &&& b.own.key == "contactId" && b.other.key == "contactId"
        }),
{
}

/// What two are told about each other goes by the same event and stands under the same key.
pub proof fn both_are_told_alike(
    user: Seq<char>,
    other: Seq<char>,
    event: &'static str,
    key: &'static str,
)
    ensures
        ({
            let b = about_each_other(user, other, event, key);
            &&& b.own.event == event && b.other.event == event
            &&& b.own.key == key && b.other.key == key
            &&& b.own.flag is None && b.other.flag is None
        }),
{
}

/// A new friend is shown in full exactly if that is possible and they are an identifier, and else by
/// name.
pub proof fn new_friends_are_shown_where_possible(
    id: Option<ObjectId>,
    named: Seq<char>,
    full: bool,
    i: ObjectId,
)
    ensures
        shown_friend(id, named, full) == NewFriendView::Shown(i) <==> full && id == Some(i),
        shown_friend(id, named, full) == NewFriendView::Named(named) <==> !full || id is None,
{
}

} // verus!
