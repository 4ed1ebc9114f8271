//! Users as they are shown to themselves and to others: never with a password or a secret.
use vstd::prelude::*;
use crate::ids::ObjectId;
use crate::model::users::{AvailabilityStatus, User};
use crate::text;
use crate::time::{iso, iso_opt, iso_opt_of, rfc3339};

verus! {

/// The longest biography, in characters.
pub const BIO_MAX_LENGTH: usize = 500;

/// The longest display name, in characters.
pub const DISPLAY_NAME_MAX_LENGTH: usize = 32;

/// The name of a status.
pub open spec fn availability_status_name(status: AvailabilityStatus) -> &'static str {
    match status {
        AvailabilityStatus::Online => "online",
        AvailabilityStatus::Away => "away",
        AvailabilityStatus::Brb => "brb",
        AvailabilityStatus::Dnd => "dnd",
    }
}

/// The name of a status.
pub fn availability_status_str(status: &AvailabilityStatus) -> (r: &'static str)
    ensures
        r == availability_status_name(*status),
{
    match status {
        AvailabilityStatus::Online => "online",
        AvailabilityStatus::Away => "away",
        AvailabilityStatus::Brb => "brb",
        AvailabilityStatus::Dnd => "dnd",
    }
}

/// The name of a status stands for that status.
pub proof fn status_names_read_back(status: AvailabilityStatus)
    ensures
        crate::model::users::status_named(availability_status_name(status)@) == status,
{
    reveal_strlit("online");
    reveal_strlit("away");
    reveal_strlit("brb");
    reveal_strlit("dnd");
    assert("online"@.len() == 6 && "away"@.len() == 4);
    assert("brb"@[0] != "dnd"@[0]);
}

/// A text without the white space around it, if anything is left.
pub open spec fn non_blank(s: Option<String>) -> Option<Seq<char>> {
    match s {
        Some(t) => if text::trimmed(t@).len() > 0 {
            Some(text::trimmed(t@))
        } else {
            None
        },
        None => None,
    }
}

/// A text without the white space around it, if anything is left.
pub fn trimmed_non_blank(s: &Option<String>) -> (r: Option<String>)
    ensures
        text::opt_text(r) == non_blank(*s),
{
    match s {
        Some(t) => {
            let u = text::trim(t);
            if u.is_empty() {
                None
            } else {
                Some(u.to_owned())
            }
        },
        None => None,
    }
}

/// The display name of a user, if they have one that is not blank.
pub fn resolve_display_name(user: &User) -> (r: Option<String>)
    ensures
        text::opt_text(r) == non_blank(user.display_name),
{
    trimmed_non_blank(&user.display_name)
}

/// The text of an identifier that may be missing.
pub open spec fn hex_opt_of(id: Option<ObjectId>) -> Option<Seq<char>> {
    match id {
        Some(i) => Some(i.hex()),
        None => None,
    }
}

/// The text of an identifier that may be missing.
pub fn hex_opt(id: Option<ObjectId>) -> (r: Option<String>)
    ensures
        text::opt_text(r) == hex_opt_of(id),
{
    match id {
        Some(i) => Some(i.to_hex()),
        None => None,
    }
}

/// What only users themselves are shown.
pub struct OwnFields {
    pub language: String,
    pub is_disabled: bool,
    pub deletion_scheduled_at: Option<String>,
}

/// A user as they are shown.
pub struct UserJson {
    pub id: Option<String>,
    pub username: String,
    pub display_name: Option<String>,
    pub bio: Option<String>,
    pub image: Option<String>,
    pub banner: Option<String>,
    pub profile_setup: bool,
    pub color: Option<i32>,
    pub is_online: bool,
    pub last_seen: Option<String>,
    pub availability_status: &'static str,
    pub created_at: Option<String>,
    pub two_factor_enabled: bool,
    pub own: Option<OwnFields>,
}

/// What users themselves are shown beyond the rest.
#[verifier::ext_equal]
pub struct OwnView {
    pub language: Seq<char>,
    pub is_disabled: bool,
    pub deletion_scheduled_at: Option<Seq<char>>,
}

/// What is shown of a user.
#[verifier::ext_equal]
pub struct UserView {
    pub id: Option<Seq<char>>,
    pub username: Seq<char>,
    pub display_name: Option<Seq<char>>,
    pub bio: Option<Seq<char>>,
    pub image: Option<Seq<char>>,
    pub banner: Option<Seq<char>>,
    pub profile_setup: bool,
    pub color: Option<i32>,
    pub is_online: bool,
    pub last_seen: Option<Seq<char>>,
    pub availability_status: &'static str,
    pub created_at: Option<Seq<char>>,
    pub two_factor_enabled: bool,
    pub own: Option<OwnView>,
}

impl View for UserJson {
    type V = UserView;

    open spec fn view(&self) -> UserView {
        UserView {
            id: text::opt_text(self.id),
            username: self.username@,
            display_name: text::opt_text(self.display_name),
            bio: text::opt_text(self.bio),
            image: text::opt_text(self.image),
            banner: text::opt_text(self.banner),
            profile_setup: self.profile_setup,
            color: self.color,
            is_online: self.is_online,
            last_seen: text::opt_text(self.last_seen),
            availability_status: self.availability_status,
            created_at: text::opt_text(self.created_at),
            two_factor_enabled: self.two_factor_enabled,
            own: match self.own {
                Some(o) => Some(
                    OwnView {
                        language: o.language@,
                        is_disabled: o.is_disabled,
                        deletion_scheduled_at: text::opt_text(o.deletion_scheduled_at),
                    },
                ),
                None => None,
            },
        }
    }
}

/// What is shown of a user, to themselves or to others.
pub open spec fn shown_user(user: User, is_self: bool) -> UserView {
    UserView {
        id: hex_opt_of(user.id),
        username: user.username@,
        display_name: non_blank(user.display_name),
        bio: non_blank(user.bio),
        image: text::opt_text(user.image),
        banner: text::opt_text(user.banner),
        profile_setup: user.profile_setup,
        color: user.color,
        is_online: user.is_online,
        last_seen: iso_opt_of(user.last_seen),
        availability_status: availability_status_name(user.availability_status),
        created_at: rfc3339(user.created_at),
        two_factor_enabled: user.two_factor_enabled,
        own: if is_self {
            Some(
                OwnView {
                    language: user.language@,
                    is_disabled: user.is_disabled,
                    deletion_scheduled_at: iso_opt_of(user.deletion_scheduled_at),
                },
            )
        } else {
            None
        },
    }
}

/// A user as they are shown to themselves or to others.
pub fn serialize_user_for_viewer(user: &User, is_self: bool) -> (r: UserJson)
    ensures
        r@ == shown_user(*user, is_self),
{
    let own = if is_self {
        Some(
            OwnFields {
                language: user.language.clone(),
                is_disabled: user.is_disabled,
                deletion_scheduled_at: iso_opt(user.deletion_scheduled_at),
            },
        )
    } else {
        None
    };
    UserJson {
        id: hex_opt(user.id),
        username: user.username.clone(),
        display_name: resolve_display_name(user),
        bio: trimmed_non_blank(&user.bio),
        image: text::copy_opt(&user.image),
        banner: text::copy_opt(&user.banner),
        profile_setup: user.profile_setup,
        color: user.color,
        is_online: user.is_online,
        last_seen: iso_opt(user.last_seen),
        availability_status: availability_status_str(&user.availability_status),
        created_at: iso(user.created_at),
        two_factor_enabled: user.two_factor_enabled,
        own,
    }
}

/// A user as they are shown to themselves.
pub fn serialize_user(user: &User) -> (r: UserJson)
    ensures
        r@ == shown_user(*user, true),
{
    serialize_user_for_viewer(user, true)
}

/// What is shown of a user does not depend on their password, their second factor, their
/// backup codes, whom they muted or blocked, nor on why they are blocked.
pub proof fn secrets_are_never_shown(a: User, b: User, is_self: bool)
    requires
        a == (User {
            password: a.password,
            totp_secret: a.totp_secret,
            totp_pending_secret: a.totp_pending_secret,
            backup_codes: a.backup_codes,
            muted_channels: a.muted_channels,
            muted_contacts: a.muted_contacts,
            blocked_contacts: a.blocked_contacts,
            block_reason: a.block_reason,
            token_version: a.token_version,
            ..b
        }),
    ensures
        shown_user(a, is_self) == shown_user(b, is_self),
{
}

/// Others are not shown the language of a user, nor whether the account is disabled or going
/// to be deleted; users themselves are shown everything that others are.
pub proof fn others_see_less(user: User)
    ensures
        shown_user(user, false).own is None,
        shown_user(user, true).own is Some,
        shown_user(user, false) == (UserView { own: None, ..shown_user(user, true) }),
{
}

/// Each state is named by its own name; a name may have 32 characters and a biography 500.
pub proof fn states_are_shown_by_name(s: AvailabilityStatus)
    ensures
        s is Online ==> availability_status_name(s) == "online",
        s is Away ==> availability_status_name(s) == "away",
        s is Brb ==> availability_status_name(s) == "brb",
        s is Dnd ==> availability_status_name(s) == "dnd",
        DISPLAY_NAME_MAX_LENGTH == 32,
        BIO_MAX_LENGTH == 500,
{
}

/// A text is shown without the white space around it, and not at all if nothing else is in it.
pub proof fn blank_texts_are_not_shown(s: Option<String>, id: Option<ObjectId>)
    ensures
        non_blank(s) is Some <==> s is Some && text::trimmed(s->0@).len() > 0,
        non_blank(s) is Some ==> non_blank(s)->0 == text::trimmed(s->0@),
        hex_opt_of(id) is Some <==> id is Some,
        id is Some ==> hex_opt_of(id)->0 == id->0.hex(),
{
}

/// Each thing that is shown of a user comes from the field of that name.
pub proof fn users_are_shown_as_stored(u: User, is_self: bool)
    ensures
        ({
            let v = shown_user(u, is_self);
            &&& v.username == u.username@
            &&& u.id is Some ==> v.id == Some(u.id->0.hex())
            &&& u.id is None ==> v.id is None
            &&& v.image is Some <==> u.image is Some
            &&& u.image is Some ==> v.image == Some(u.image->0@)
            &&& v.banner is Some <==> u.banner is Some
            &&& u.banner is Some ==> v.banner == Some(u.banner->0@)
            &&& v.display_name is Some <==> u.display_name is Some && text::trimmed(
                u.display_name->0@,
            ).len() > 0
            &&& v.display_name is Some ==> v.display_name->0 == text::trimmed(u.display_name->0@)
            &&& v.bio is Some <==> u.bio is Some && text::trimmed(u.bio->0@).len() > 0
            &&& v.bio is Some ==> v.bio->0 == text::trimmed(u.bio->0@)
            &&& v.profile_setup == u.profile_setup
            &&& v.color == u.color
            &&& v.is_online == u.is_online
            &&& v.two_factor_enabled == u.two_factor_enabled
            &&& v.created_at == rfc3339(u.created_at)
            &&& u.last_seen is None ==> v.last_seen is None
            &&& u.last_seen is Some ==> v.last_seen == rfc3339(u.last_seen->0)
            &&& v.own is Some <==> is_self
            &&& is_self ==> v.own->0.language == u.language@ && v.own->0.is_disabled
                == u.is_disabled
            &&& is_self && u.deletion_scheduled_at is Some ==> v.own->0.deletion_scheduled_at
                == rfc3339(u.deletion_scheduled_at->0)
            &&& is_self && u.deletion_scheduled_at is None ==> v.own->0.deletion_scheduled_at
                is None
        }),
{
}

} // verus!
