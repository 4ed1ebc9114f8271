//! One's own account: showing it, its profile and pictures, its warnings, and its end.
use vstd::prelude::*;
use crate::answers::{Lookup, Written};
use crate::controllers::step_up::{step_up_next, verify_account_action_credentials,
    CredentialFacts, CredentialNext, PasswordCheck,
    StepUpFacts};
use crate::ids::ObjectId;
use crate::model::update::{deletion_time, scheduled_deletion};
use crate::model::users::{default_language, is_language_of, normalize_language, status_named, User};
use crate::reply::{coded_reply, error_reply, internal_error, message_reply, require_user,
    text_reply, user_not_found, AuthStyle, Reply};
use crate::text::{self, opt_text, text_or_empty, trimmed};
use crate::time::{iso, iso_opt, iso_opt_of, rfc3339};
use crate::utils::admin::DELETION_GRACE_DAYS;
use crate::utils::user::json::{availability_status_name, hex_opt, hex_opt_of, non_blank,
    resolve_display_name, trimmed_non_blank, BIO_MAX_LENGTH, DISPLAY_NAME_MAX_LENGTH};

verus! {

/// A new language.
pub struct UpdateLanguageBody {
    pub language: Option<String>,
}

/// A new profile.
pub struct UpdateProfileBody {
    pub display_name: Option<String>,
    pub bio: Option<String>,
    pub color: Option<i32>,
}

/// A new status of availability.
pub struct AvailabilityBody {
    pub availability_status: Option<String>,
}

/// The password and a code, for something that concerns the account.
pub struct AccountActionBody {
    pub password: Option<String>,
    pub code: Option<String>,
}

/// What follows the last dot of a name; the whole name without one.
pub open spec fn extension_of(name: Seq<char>) -> Seq<char> {
    text::after_last(name, '.')
}

/// The extension of a file name, in lower case.
pub fn file_ext(name: &str) -> (r: String)
    ensures
        r@ == text::lowercase(extension_of(name@)),
        text::all_ascii(extension_of(name@)) ==> r@ == text::ascii_lower(extension_of(name@)),
{
    text::to_lowercase(text::text_after_last(name, '.'))
}

/// The extensions of pictures that are taken.
pub open spec fn is_image_ext(ext: Seq<char>) -> bool {
    ext == "jpg"@ || ext == "jpeg"@ || ext == "png"@ || ext == "webp"@
}

/// Whether a picture with this extension is taken.
pub fn allowed_image_ext(ext: &str) -> (r: bool)
    ensures
        r == is_image_ext(ext@),
{
    text::same_text(ext, "jpg") || text::same_text(ext, "jpeg") || text::same_text(ext, "png")
        || text::same_text(ext, "webp")
}

/// What to do next about showing one's own account, or its warnings.
#[derive(Clone, Copy, Debug)]
pub enum ShowNext {
    Reply(Reply),
    /// Ask the store.
    Ask(ObjectId),
    Show,
    /// Answer, with how many it were.
    Confirmed(Reply),
}

/// What to do next about showing one's own account.
pub open spec fn get_user_info_next(user_id: &Option<String>, found: Option<Lookup>) -> ShowNext {
    match require_user(user_id, AuthStyle::OwnAccount) {
        Err(reply) => ShowNext::Reply(reply),
        Ok(id) => match found {
            None => ShowNext::Ask(id),
            Some(Lookup::Missing) => ShowNext::Reply(
                text_reply(404, "User with the given id not found."),
            ),
            Some(Lookup::Failed) => ShowNext::Reply(internal_error()),
            Some(Lookup::Found) => ShowNext::Show,
        },
    }
}

/// What to do next about showing one's own account.
pub fn get_user_info(user_id: &Option<String>, found: Option<Lookup>) -> (r: ShowNext)
    ensures
        r == get_user_info_next(user_id, found),
{
    match require_user(user_id, AuthStyle::OwnAccount) {
        Err(reply) => ShowNext::Reply(reply),
        Ok(id) => match found {
            None => ShowNext::Ask(id),
            Some(Lookup::Missing) => ShowNext::Reply(
                text_reply(404, "User with the given id not found."),
            ),
            Some(Lookup::Failed) => ShowNext::Reply(internal_error()),
            Some(Lookup::Found) => ShowNext::Show,
        },
    }
}

/// Whether a session should be refreshed: it has an access token that names no family.
pub fn session_needs_refresh(has_access: bool, names_family: bool) -> (r: bool)
    ensures
        r == (has_access && !names_family),
{
    has_access && !names_family
}

/// What to do next about showing one's own warnings.
pub open spec fn get_my_warnings_next(user_id: &Option<String>, listed: Option<bool>) -> ShowNext {
    match require_user(user_id, AuthStyle::OwnAccount) {
        Err(reply) => ShowNext::Reply(reply),
        Ok(id) => match listed {
            None => ShowNext::Ask(id),
            Some(false) => ShowNext::Reply(error_reply(500, "Nie udało się pobrać ostrzeżeń.")),
            Some(true) => ShowNext::Show,
        },
    }
}

/// What to do next about showing one's own warnings.
pub fn get_my_warnings(user_id: &Option<String>, listed: Option<bool>) -> (r: ShowNext)
    ensures
        r == get_my_warnings_next(user_id, listed),
{
    match require_user(user_id, AuthStyle::OwnAccount) {
        Err(reply) => ShowNext::Reply(reply),
        Ok(id) => match listed {
            None => ShowNext::Ask(id),
            Some(false) => ShowNext::Reply(error_reply(500, "Nie udało się pobrać ostrzeżeń.")),
            Some(true) => ShowNext::Show,
        },
    }
}

/// What to do next about confirming one's own warnings.
pub open spec fn acknowledge_my_warnings_next(user_id: &Option<String>, confirmed: Option<bool>) -> ShowNext {
    match require_user(user_id, AuthStyle::OwnAccount) {
        Err(reply) => ShowNext::Reply(reply),
        Ok(id) => match confirmed {
            None => ShowNext::Ask(id),
            Some(false) => ShowNext::Reply(
                error_reply(500, "Nie udało się potwierdzić ostrzeżeń."),
            ),
            Some(true) => ShowNext::Confirmed(
                message_reply(200, "Ostrzeżenia zostały potwierdzone."),
            ),
        },
    }
}

/// What to do next about confirming one's own warnings.
pub fn acknowledge_my_warnings(user_id: &Option<String>, confirmed: Option<bool>) -> (r: ShowNext)
    ensures
        r == acknowledge_my_warnings_next(user_id, confirmed),
{
    match require_user(user_id, AuthStyle::OwnAccount) {
        Err(reply) => ShowNext::Reply(reply),
        Ok(id) => match confirmed {
            None => ShowNext::Ask(id),
            Some(false) => ShowNext::Reply(
                error_reply(500, "Nie udało się potwierdzić ostrzeżeń."),
            ),
            Some(true) => ShowNext::Confirmed(
                message_reply(200, "Ostrzeżenia zostały potwierdzone."),
            ),
        },
    }
}

/// A warning.
pub struct Warning {
    pub id: Option<ObjectId>,
    pub reason: String,
    /// The name of how grave it is.
    pub severity: &'static str,
    pub acknowledged: bool,
    pub acknowledged_at: Option<i64>,
    pub created_at: i64,
}

/// A warning as it is shown to the one who got it.
pub struct WarningJson {
    pub id: Option<String>,
    pub reason: String,
    pub severity: &'static str,
    pub acknowledged: bool,
    pub acknowledged_at: Option<String>,
    pub created_at: Option<String>,
}

/// Whether a warning is shown as it is stored.
pub open spec fn shows_warning(shown: WarningJson, w: Warning) -> bool {
    &&& opt_text(shown.id) == hex_opt_of(w.id)
    &&& shown.reason@ == w.reason@
    &&& shown.severity == w.severity
    &&& shown.acknowledged == w.acknowledged
    &&& opt_text(shown.acknowledged_at) == iso_opt_of(w.acknowledged_at)
    &&& opt_text(shown.created_at) == rfc3339(w.created_at)
}

/// A warning as it is shown to the one who got it.
pub fn serialize_own_warning(w: &Warning) -> (r: WarningJson)
    ensures
        shows_warning(r, *w),
{
    WarningJson {
        id: hex_opt(w.id),
        reason: w.reason.clone(),
        severity: w.severity,
        acknowledged: w.acknowledged,
        acknowledged_at: iso_opt(w.acknowledged_at),
        created_at: iso(w.created_at),
    }
}

/// Warnings as they are shown, with how many of them are not confirmed.
pub struct WarningList {
    pub warnings: Vec<WarningJson>,
    pub total: usize,
    pub unacknowledged: usize,
}

/// How many warnings are not confirmed.
pub open spec fn unconfirmed(s: Seq<Warning>) -> nat
    decreases s.len(),
{
    if s.len() == 0 {
        0
    } else if s.last().acknowledged {
        unconfirmed(s.drop_last())
    } else {
        unconfirmed(s.drop_last()) + 1
    }
}

/// Warnings as they are shown.
pub fn warning_list(warnings: &Vec<Warning>) -> (r: WarningList)
    ensures
        r.warnings@.len() == warnings@.len(),
        forall|i: int|
            0 <= i < r.warnings@.len() ==> shows_warning(#[trigger] r.warnings@[i], warnings@[i]),
        r.total == warnings@.len(),
        r.unacknowledged == unconfirmed(warnings@),
{
    let mut out: Vec<WarningJson> = Vec::new();
    let mut open: usize = 0;
    let mut i: usize = 0;
    while i < warnings.len()
        invariant
            i <= warnings.len(),
            out@.len() == i,
            open <= i,
            forall|k: int| 0 <= k < i ==> shows_warning(#[trigger] out@[k], warnings@[k]),
            open == unconfirmed(warnings@.take(i as int)),
        decreases warnings.len() - i,
    {
        proof {
            assert(warnings@.take(i + 1).drop_last() =~= warnings@.take(i as int));
        }
        out.push(serialize_own_warning(&warnings[i]));
        if !warnings[i].acknowledged {
            open = open + 1;
        }
        i = i + 1;
    }
    proof {
        assert(warnings@.take(warnings@.len() as int) =~= warnings@);
    }
    WarningList { warnings: out, total: warnings.len(), unacknowledged: open }
}

/// What to do next about a change of one's own profile.
#[derive(Clone, Copy, Debug)]
pub enum ProfileNext {
    Reply(Reply),
    Save(ObjectId),
    /// Tell the others, where there is something to tell, and answer with the account.
    Saved,
}

/// The answer to a change of the profile that could not be stored, or the end of one that was.
pub open spec fn profile_saved_of(id: ObjectId, saved: Option<Written>) -> ProfileNext {
    match saved {
        None => ProfileNext::Save(id),
        Some(Written::Done) => ProfileNext::Saved,
        Some(Written::Missing) => ProfileNext::Reply(user_not_found()),
        Some(Written::Failed) => ProfileNext::Reply(text_reply(500, "Internal Server Error.")),
    }
}

#[verifier::when_used_as_spec(profile_saved_of)]
fn profile_saved(id: ObjectId, saved: Option<Written>) -> (r: ProfileNext)
    ensures
        r == profile_saved_of(id, saved),
{
    match saved {
        None => ProfileNext::Save(id),
        Some(Written::Done) => ProfileNext::Saved,
        Some(Written::Missing) => ProfileNext::Reply(user_not_found()),
        Some(Written::Failed) => ProfileNext::Reply(text_reply(500, "Internal Server Error.")),
    }
}

/// What to do next about a new profile. `name` and `bio` are the cleaned texts.
pub open spec fn update_profile_next(user_id: &Option<String>, name: Seq<char>, bio: Seq<char>, saved: Option<Written>) -> ProfileNext {
    match require_user(user_id, AuthStyle::Profile) {
        Err(reply) => ProfileNext::Reply(reply),
        Ok(id) => if name.len() == 0 {
            ProfileNext::Reply(text_reply(400, "Display name is required."))
        } else if name.len() > DISPLAY_NAME_MAX_LENGTH {
            ProfileNext::Reply(text_reply(400, "Display name must be at most 32 characters."))
        } else if bio.len() > BIO_MAX_LENGTH {
            ProfileNext::Reply(text_reply(400, "Bio must be at most 500 characters."))
        } else {
            profile_saved_of(id, saved)
        },
    }
}

/// What to do next about a new profile. `name` and `bio` are the cleaned texts.
pub fn update_profile(user_id: &Option<String>, name: &str, bio: &str, saved: Option<Written>) -> (r: ProfileNext)
    ensures
        r == update_profile_next(user_id, name@, bio@, saved),
{
    match require_user(user_id, AuthStyle::Profile) {
        Err(reply) => ProfileNext::Reply(reply),
        Ok(id) => if name.is_empty() {
            ProfileNext::Reply(text_reply(400, "Display name is required."))
        } else if name.unicode_len() > DISPLAY_NAME_MAX_LENGTH {
            ProfileNext::Reply(text_reply(400, "Display name must be at most 32 characters."))
        } else if bio.unicode_len() > BIO_MAX_LENGTH {
            ProfileNext::Reply(text_reply(400, "Bio must be at most 500 characters."))
        } else {
            profile_saved(id, saved)
        },
    }
}

/// A profile is stored only with a display name of 1 to 32 characters and a biography of at
/// most 500.
pub proof fn stored_profiles_are_within_limits(
    user_id: &Option<String>,
    name: Seq<char>,
    bio: Seq<char>,
    saved: Option<Written>,
)
    ensures
        update_profile_next(user_id, name, bio, saved) is Save ==> 1 <= name.len() <= 32
            && bio.len() <= 500,
{
}

/// What others are told about a changed profile. The name is told only if it changed.
pub struct ProfileEvent {
    pub user_id: String,
    pub username: Option<String>,
    pub display_name: Option<String>,
    pub bio: Option<String>,
    pub color: Option<i32>,
}

/// The event under which others are told about a changed profile.
pub const PROFILE_UPDATED: &'static str = "profile-updated";

/// What others are told about a changed profile, under [`PROFILE_UPDATED`].
pub fn profile_event(user_id: &str, user: &User, renamed: bool) -> (r: ProfileEvent)
    ensures
        r.user_id@ == user_id@,
        opt_text(r.username) == (if renamed {
            Some(user.username@)
        } else {
            None
        }),
        opt_text(r.display_name) == non_blank(user.display_name),
        opt_text(r.bio) == non_blank(user.bio),
        r.color == user.color,
{
    ProfileEvent {
        user_id: user_id.to_owned(),
        username: if renamed {
            Some(user.username.clone())
        } else {
            None
        },
        display_name: resolve_display_name(user),
        bio: trimmed_non_blank(&user.bio),
        color: user.color,
    }
}

/// What to do next about a new language.
pub open spec fn update_language_next(user_id: &Option<String>, saved: Option<Written>) -> ProfileNext {
    match require_user(user_id, AuthStyle::Profile) {
        Err(reply) => ProfileNext::Reply(reply),
        Ok(id) => profile_saved_of(id, saved),
    }
}

/// What to do next about a new language.
pub fn update_language(user_id: &Option<String>, saved: Option<Written>) -> (r: ProfileNext)
    ensures
        r == update_language_next(user_id, saved),
{
    match require_user(user_id, AuthStyle::Profile) {
        Err(reply) => ProfileNext::Reply(reply),
        Ok(id) => profile_saved(id, saved),
    }
}

/// The language that a request asks for; English if it names none.
pub fn requested_language(body: &UpdateLanguageBody) -> (r: String)
    ensures
        match body.language {
            Some(l) => is_language_of(l@, r@),
            None => r@ == "en"@,
        },
{
    match &body.language {
        Some(l) => normalize_language(l),
        None => default_language(),
    }
}

/// The names of the states of availability.
pub open spec fn is_status_name(s: Seq<char>) -> bool {
    s == "online"@ || s == "away"@ || s == "brb"@ || s == "dnd"@
}

/// Whether a text is the name of a state of availability.
pub fn names_status(s: &str) -> (r: bool)
    ensures
        r == is_status_name(s@),
{
    text::same_text(s, "online") || text::same_text(s, "away") || text::same_text(s, "brb")
        || text::same_text(s, "dnd")
}

/// What to do next about a new status of availability; only the exact names are taken.
pub open spec fn update_availability_status_next(user_id: &Option<String>, body: &AvailabilityBody, saved: Option<Written>) -> ProfileNext {
    match require_user(user_id, AuthStyle::Profile) {
        Err(reply) => ProfileNext::Reply(reply),
        Ok(id) => if !is_status_name(text_or_empty(body.availability_status)) {
            ProfileNext::Reply(text_reply(400, "Invalid availability status."))
        } else {
            profile_saved_of(id, saved)
        },
    }
}

/// What to do next about a new status of availability; only the exact names are taken.
pub fn update_availability_status(user_id: &Option<String>, body: &AvailabilityBody, saved: Option<Written>) -> (r: ProfileNext)
    ensures
        r == update_availability_status_next(user_id, body, saved),
{
    match require_user(user_id, AuthStyle::Profile) {
        Err(reply) => ProfileNext::Reply(reply),
        Ok(id) => if !names_status(
            text::or_empty(&body.availability_status),
        ) {
            ProfileNext::Reply(text_reply(400, "Invalid availability status."))
        } else {
            profile_saved(id, saved)
        },
    }
}

/// A name of a state that is taken stands for itself.
pub proof fn taken_status_names_stand_for_themselves(s: Seq<char>)
    requires
        is_status_name(s),
    ensures
        availability_status_name(status_named(s))@ == s,
{
    reveal_strlit("online");
    reveal_strlit("away");
    reveal_strlit("brb");
    reveal_strlit("dnd");
    assert("online"@.len() == 6 && "away"@.len() == 4);
    assert("brb"@[0] != "dnd"@[0]);
}

/// Which picture of an account.
#[derive(Clone, Copy, Debug, PartialEq, Eq, Structural)]
pub enum Picture {
    Image,
    Banner,
}

/// What is known so far about a new picture.
#[derive(Clone, Copy, Debug)]
pub struct PictureFacts {
    /// Whether the content is that of a picture of its kind.
    pub content_ok: Option<bool>,
    /// Whether the file is small enough.
    pub size_ok: Option<bool>,
    pub account: Option<Lookup>,
    /// Whether the picture could be encoded anew.
    pub encoded: Option<bool>,
    /// Whether the picture could be put into the file store.
    pub uploaded: Option<bool>,
    pub saved: Option<Written>,
}

/// What to do next about a new picture.
#[derive(Clone, Copy, Debug)]
pub enum PictureNext {
    Reply(Reply),
    CheckContent,
    CheckSize,
    FindAccount(ObjectId),
    Encode,
    /// Answer with what is wrong with the picture.
    RefuseEncoding,
    Upload,
    Save(ObjectId),
    /// Delete the old picture if it is the account's own, tell the others, and answer.
    Saved,
}

/// What to do next about a new picture of an account. `ext` is the extension of its file in
/// lower case.
pub open spec fn add_picture_next(picture: Picture, user_id: &Option<String>, ext: Seq<char>, facts: &PictureFacts) -> PictureNext {
    match require_user(user_id, AuthStyle::Plain) {
        Err(reply) => PictureNext::Reply(reply),
        Ok(id) => if !is_image_ext(ext) {
            PictureNext::Reply(text_reply(400, "Invalid file type."))
        } else {
            match (facts.content_ok, facts.size_ok, facts.account) {
                (None, _, _) => PictureNext::CheckContent,
                (Some(false), _, _) => PictureNext::Reply(
                    text_reply(400, "Invalid file content."),
                ),
                (Some(true), None, _) => PictureNext::CheckSize,
                (Some(true), Some(false), _) => PictureNext::Reply(
                    match picture {
                        Picture::Image => text_reply(413, "File too large. Maximum size is 6 MB."),
                        Picture::Banner => text_reply(413, "File too large. Maximum size is 7 MB."),
                    },
                ),
                (Some(true), Some(true), None) => PictureNext::FindAccount(id),
                (Some(true), Some(true), Some(Lookup::Missing)) => PictureNext::Reply(
                    user_not_found(),
                ),
                (Some(true), Some(true), Some(Lookup::Failed)) => PictureNext::Reply(
                    text_reply(500, "Internal Server Error."),
                ),
                (Some(true), Some(true), Some(Lookup::Found)) => match (
                    facts.encoded,
                    facts.uploaded,
                    facts.saved,
                ) {
                    (None, _, _) => PictureNext::Encode,
                    (Some(false), _, _) => PictureNext::RefuseEncoding,
                    (Some(true), None, _) => PictureNext::Upload,
                    (Some(true), Some(false), _) => PictureNext::Reply(
                        text_reply(500, "Internal Server Error."),
                    ),
                    (Some(true), Some(true), None) => PictureNext::Save(id),
                    (Some(true), Some(true), Some(Written::Done)) => PictureNext::Saved,
                    (Some(true), Some(true), Some(Written::Missing)) => PictureNext::Reply(
                        user_not_found(),
                    ),
                    (Some(true), Some(true), Some(Written::Failed)) => PictureNext::Reply(
                        text_reply(500, "Internal Server Error."),
                    ),
                },
            }
        },
    }
}

/// What to do next about a new picture of an account. `ext` is the extension of its file in
/// lower case.
pub fn add_picture(picture: Picture, user_id: &Option<String>, ext: &str, facts: &PictureFacts) -> (r: PictureNext)
    ensures
        r == add_picture_next(picture, user_id, ext@, facts),
{
    match require_user(user_id, AuthStyle::Plain) {
        Err(reply) => PictureNext::Reply(reply),
        Ok(id) => if !allowed_image_ext(ext) {
            PictureNext::Reply(text_reply(400, "Invalid file type."))
        } else {
            match (facts.content_ok, facts.size_ok, facts.account) {
                (None, _, _) => PictureNext::CheckContent,
                (Some(false), _, _) => PictureNext::Reply(
                    text_reply(400, "Invalid file content."),
                ),
                (Some(true), None, _) => PictureNext::CheckSize,
                (Some(true), Some(false), _) => PictureNext::Reply(
                    match picture {
                        Picture::Image => text_reply(413, "File too large. Maximum size is 6 MB."),
                        Picture::Banner => text_reply(413, "File too large. Maximum size is 7 MB."),
                    },
                ),
                (Some(true), Some(true), None) => PictureNext::FindAccount(id),
                (Some(true), Some(true), Some(Lookup::Missing)) => PictureNext::Reply(
                    user_not_found(),
                ),
                (Some(true), Some(true), Some(Lookup::Failed)) => PictureNext::Reply(
                    text_reply(500, "Internal Server Error."),
                ),
                (Some(true), Some(true), Some(Lookup::Found)) => match (
                    facts.encoded,
                    facts.uploaded,
                    facts.saved,
                ) {
                    (None, _, _) => PictureNext::Encode,
                    (Some(false), _, _) => PictureNext::RefuseEncoding,
                    (Some(true), None, _) => PictureNext::Upload,
                    (Some(true), Some(false), _) => PictureNext::Reply(
                        text_reply(500, "Internal Server Error."),
                    ),
                    (Some(true), Some(true), None) => PictureNext::Save(id),
                    (Some(true), Some(true), Some(Written::Done)) => PictureNext::Saved,
                    (Some(true), Some(true), Some(Written::Missing)) => PictureNext::Reply(
                        user_not_found(),
                    ),
                    (Some(true), Some(true), Some(Written::Failed)) => PictureNext::Reply(
                        text_reply(500, "Internal Server Error."),
                    ),
                },
            }
        },
    }
}

/// What to do next about a new profile picture.
pub fn add_profile_image(user_id: &Option<String>, ext: &str, facts: &PictureFacts) -> (r:
    PictureNext)
    ensures
        r == add_picture_next(Picture::Image, user_id, ext@, facts),
{
    add_picture(Picture::Image, user_id, ext, facts)
}

/// What to do next about a new banner.
pub fn add_profile_banner(user_id: &Option<String>, ext: &str, facts: &PictureFacts) -> (r:
    PictureNext)
    ensures
        r == add_picture_next(Picture::Banner, user_id, ext@, facts),
{
    add_picture(Picture::Banner, user_id, ext, facts)
}

/// A picture is put into the file store only if its kind, its content and its size are in
/// order, and only as it was encoded anew.
pub proof fn pictures_are_stored_encoded_anew(
    picture: Picture,
    user_id: &Option<String>,
    ext: Seq<char>,
    facts: &PictureFacts,
)
    ensures
        add_picture_next(picture, user_id, ext, facts) is Upload ==> {
            &&& is_image_ext(ext)
            &&& facts.content_ok == Some(true)
            &&& facts.size_ok == Some(true)
            &&& facts.encoded == Some(true)
        },
{
}

/// Whether the old picture is deleted once a new one is in place: it is another one, and the
/// account's own.
pub fn deletes_previous_picture(previous: &Option<String>, new_key: &str, owned: bool) -> (r: bool)
    ensures
        r == (previous matches Some(p) && p@ != new_key@ && owned),
{
    match previous {
        Some(p) => !text::same_text(p, new_key) && owned,
        None => false,
    }
}

/// What to do next about removing a picture.
#[derive(Clone, Copy, Debug)]
pub enum RemoveNext {
    Reply(Reply),
    FindAccount(ObjectId),
    Save(ObjectId),
    /// Delete the file of the picture, if `delete` says so, tell the others, and go on.
    CleanUp { delete: bool },
    Done,
}

/// What a lookup of an account said about a picture.
#[derive(Clone, Copy, Debug, PartialEq, Eq, Structural)]
pub enum PictureLookup {
    /// `owned`: the file of the picture is the account's own.
    Found { has_picture: bool, owned: bool },
    Missing,
    Failed,
}

/// What to do next about removing a picture. `cleaned` says whether the file was seen to.
pub open spec fn remove_picture_next(user_id: &Option<String>, account: Option<PictureLookup>, saved: Option<Written>, cleaned: bool) -> RemoveNext {
    match require_user(user_id, AuthStyle::Picture) {
        Err(reply) => RemoveNext::Reply(reply),
        Ok(id) => match (account, saved) {
            (None, _) => RemoveNext::FindAccount(id),
            (Some(PictureLookup::Missing), _) => RemoveNext::Reply(
                error_reply(404, "User not found"),
            ),
            (Some(PictureLookup::Failed), _) => RemoveNext::Reply(
                error_reply(500, "Internal server error"),
            ),
            (Some(PictureLookup::Found { has_picture: false, .. }), _) => RemoveNext::Done,
            (Some(PictureLookup::Found { has_picture: true, .. }), None) => RemoveNext::Save(id),
            (Some(PictureLookup::Found { has_picture: true, .. }), Some(Written::Missing)) =>
                RemoveNext::Reply(error_reply(404, "User not found")),
            (Some(PictureLookup::Found { has_picture: true, .. }), Some(Written::Failed)) =>
                RemoveNext::Reply(error_reply(500, "Internal server error")),
            (Some(PictureLookup::Found { has_picture: true, owned }), Some(Written::Done)) => if cleaned {
                RemoveNext::Done
            } else {
                RemoveNext::CleanUp { delete: owned }
            },
        },
    }
}

/// What to do next about removing a picture. `cleaned` says whether the file was seen to.
pub fn remove_picture(user_id: &Option<String>, account: Option<PictureLookup>, saved: Option<Written>, cleaned: bool) -> (r: RemoveNext)
    ensures
        r == remove_picture_next(user_id, account, saved, cleaned),
{
    match require_user(user_id, AuthStyle::Picture) {
        Err(reply) => RemoveNext::Reply(reply),
        Ok(id) => match (account, saved) {
            (None, _) => RemoveNext::FindAccount(id),
            (Some(PictureLookup::Missing), _) => RemoveNext::Reply(
                error_reply(404, "User not found"),
            ),
            (Some(PictureLookup::Failed), _) => RemoveNext::Reply(
                error_reply(500, "Internal server error"),
            ),
            (Some(PictureLookup::Found { has_picture: false, .. }), _) => RemoveNext::Done,
            (Some(PictureLookup::Found { has_picture: true, .. }), None) => RemoveNext::Save(id),
            (Some(PictureLookup::Found { has_picture: true, .. }), Some(Written::Missing)) =>
                RemoveNext::Reply(error_reply(404, "User not found")),
            (Some(PictureLookup::Found { has_picture: true, .. }), Some(Written::Failed)) =>
                RemoveNext::Reply(error_reply(500, "Internal server error")),
            (Some(PictureLookup::Found { has_picture: true, owned }), Some(Written::Done)) => if cleaned {
                RemoveNext::Done
            } else {
                RemoveNext::CleanUp { delete: owned }
            },
        },
    }
}

/// The file of a picture is deleted only if it is the account's own, and only after the picture
/// was taken from the account.
pub proof fn only_own_pictures_are_deleted(
    user_id: &Option<String>,
    account: Option<PictureLookup>,
    saved: Option<Written>,
    cleaned: bool,
)
    ensures
        remove_picture_next(user_id, account, saved, cleaned) matches RemoveNext::CleanUp {
            delete,
        } ==> account == Some(PictureLookup::Found { has_picture: true, owned: delete }) && saved
            == Some(Written::Done),
{
}

/// What to do next about removing the profile picture.
pub fn remove_profile_image(
    user_id: &Option<String>,
    account: Option<PictureLookup>,
    saved: Option<Written>,
    cleaned: bool,
) -> (r: RemoveNext)
    ensures
        r == remove_picture_next(user_id, account, saved, cleaned),
{
    remove_picture(user_id, account, saved, cleaned)
}

/// What to do next about removing the banner.
pub fn remove_profile_banner(
    user_id: &Option<String>,
    account: Option<PictureLookup>,
    saved: Option<Written>,
    cleaned: bool,
) -> (r: RemoveNext)
    ensures
        r == remove_picture_next(user_id, account, saved, cleaned),
{
    remove_picture(user_id, account, saved, cleaned)
}

/// What is answered once a picture is removed.
pub open spec fn removed_picture_text_of(picture: Picture) -> Reply {
    match picture {
        Picture::Image => message_reply(200, "Profile image removed successfully"),
        Picture::Banner => message_reply(200, "Profile banner removed successfully"),
    }
}

/// What is answered once a picture is removed.
pub fn removed_picture_text(picture: Picture) -> (r: Reply)
    ensures
        r == removed_picture_text_of(picture),
{
    match picture {
        Picture::Image => message_reply(200, "Profile image removed successfully"),
        Picture::Banner => message_reply(200, "Profile banner removed successfully"),
    }
}

/// What a lookup of an account said about its end.
#[derive(Clone, Copy, Debug, PartialEq, Eq, Structural)]
pub enum EndLookup {
    Found { disabled: bool, pending_deletion: bool },
    Missing,
    Failed,
}

/// What is known so far about an end of an account.
#[derive(Clone, Copy, Debug)]
pub struct AccountEndFacts {
    pub account: Option<EndLookup>,
    pub password: Option<PasswordCheck>,
    pub second: StepUpFacts,
    /// Whether the change could be stored.
    pub saved: Option<bool>,
    /// Whether all logins were made void.
    pub invalidated: bool,
}

/// What to do next about an end of an account.
#[derive(Clone, Copy, Debug)]
pub enum AccountEndNext {
    Reply(Reply),
    FindAccount(ObjectId),
    /// Go on with the credentials.
    Credentials(CredentialNext),
    Save(ObjectId),
    Invalidate(ObjectId),
    /// It is done: answer so.
    Done(Reply),
}

/// What is known so far about the credentials in a request.
pub open spec fn credentials_of(body: &AccountActionBody, facts: &AccountEndFacts) -> CredentialFacts {
    CredentialFacts {
        password_empty: trimmed(text_or_empty(body.password)).len() == 0,
        password: facts.password,
        second: facts.second,
    }
}

/// What is known so far about the credentials in a request.
pub fn credentials(body: &AccountActionBody, facts: &AccountEndFacts) -> (r: CredentialFacts)
    ensures
        r == credentials_of(body, facts),
{
    CredentialFacts {
        password_empty: text::is_blank(
            text::or_empty(&body.password),
        ),
        password: facts.password,
        second: facts.second,
    }
}

/// What to do next about switching an account off.
pub open spec fn disable_account_next(user_id: &Option<String>, body: &AccountActionBody, facts: &AccountEndFacts) -> AccountEndNext {
    match require_user(user_id, AuthStyle::Plain) {
        Err(reply) => AccountEndNext::Reply(reply),
        Ok(id) => match facts.account {
            None => AccountEndNext::FindAccount(id),
            Some(EndLookup::Missing) => AccountEndNext::Reply(user_not_found()),
            Some(EndLookup::Failed) => AccountEndNext::Reply(internal_error()),
            Some(EndLookup::Found { disabled, pending_deletion }) => if disabled {
                AccountEndNext::Reply(
                    coded_reply(400, "Konto jest już wyłączone.", "ACCOUNT_ALREADY_DISABLED"),
                )
            } else if pending_deletion {
                AccountEndNext::Reply(
                    coded_reply(
                        400,
                        "Konto jest oznaczone do usunięcia.",
                        "ACCOUNT_PENDING_DELETION",
                    ),
                )
            } else {
                match verify_account_action_credentials(credentials_of(body, facts)) {
                    CredentialNext::Passed => match facts.saved {
                        None => AccountEndNext::Save(id),
                        Some(false) => AccountEndNext::Reply(
                            message_reply(500, "Nie udało się wyłączyć konta."),
                        ),
                        Some(true) => if !facts.invalidated {
                            AccountEndNext::Invalidate(id)
                        } else {
                            AccountEndNext::Done(
                                coded_reply(
                                    200,
                                    "Konto zostało wyłączone. Aby je przywrócić, skontaktuj się z administracją.",
                                    "ACCOUNT_DISABLED",
                                ),
                            )
                        },
                    },
                    CredentialNext::Reply(reply) => AccountEndNext::Reply(reply),
                    more => AccountEndNext::Credentials(more),
                }
            },
        },
    }
}

/// What to do next about switching an account off.
pub fn disable_account(user_id: &Option<String>, body: &AccountActionBody, facts: &AccountEndFacts) -> (r: AccountEndNext)
    ensures
        r == disable_account_next(user_id, body, facts),
{
    match require_user(user_id, AuthStyle::Plain) {
        Err(reply) => AccountEndNext::Reply(reply),
        Ok(id) => match facts.account {
            None => AccountEndNext::FindAccount(id),
            Some(EndLookup::Missing) => AccountEndNext::Reply(user_not_found()),
            Some(EndLookup::Failed) => AccountEndNext::Reply(internal_error()),
            Some(EndLookup::Found { disabled, pending_deletion }) => if disabled {
                AccountEndNext::Reply(
                    coded_reply(400, "Konto jest już wyłączone.", "ACCOUNT_ALREADY_DISABLED"),
                )
            } else if pending_deletion {
                AccountEndNext::Reply(
                    coded_reply(
                        400,
                        "Konto jest oznaczone do usunięcia.",
                        "ACCOUNT_PENDING_DELETION",
                    ),
                )
            } else {
                match verify_account_action_credentials(credentials(body, facts)) {
                    CredentialNext::Passed => match facts.saved {
                        None => AccountEndNext::Save(id),
                        Some(false) => AccountEndNext::Reply(
                            message_reply(500, "Nie udało się wyłączyć konta."),
                        ),
                        Some(true) => if !facts.invalidated {
                            AccountEndNext::Invalidate(id)
                        } else {
                            AccountEndNext::Done(
                                coded_reply(
                                    200,
                                    "Konto zostało wyłączone. Aby je przywrócić, skontaktuj się z administracją.",
                                    "ACCOUNT_DISABLED",
                                ),
                            )
                        },
                    },
                    CredentialNext::Reply(reply) => AccountEndNext::Reply(reply),
                    more => AccountEndNext::Credentials(more),
                }
            },
        },
    }
}

/// What to do next about the wish to delete an account.
pub open spec fn request_account_deletion_next(user_id: &Option<String>, body: &AccountActionBody, facts: &AccountEndFacts) -> AccountEndNext {
    match require_user(user_id, AuthStyle::Plain) {
        Err(reply) => AccountEndNext::Reply(reply),
        Ok(id) => match facts.account {
            None => AccountEndNext::FindAccount(id),
            Some(EndLookup::Missing) => AccountEndNext::Reply(user_not_found()),
            Some(EndLookup::Failed) => AccountEndNext::Reply(internal_error()),
            Some(EndLookup::Found { pending_deletion, .. }) => if pending_deletion {
                AccountEndNext::Reply(
                    coded_reply(
                        400,
                        "Konto jest już oznaczone do usunięcia.",
                        "ACCOUNT_PENDING_DELETION",
                    ),
                )
            } else {
                match verify_account_action_credentials(credentials_of(body, facts)) {
                    CredentialNext::Passed => match facts.saved {
                        None => AccountEndNext::Save(id),
                        Some(false) => AccountEndNext::Reply(
                            message_reply(500, "Nie udało się oznaczyć konta do usunięcia."),
                        ),
                        Some(true) => AccountEndNext::Done(
                            coded_reply(
                                200,
                                "Konto zostało oznaczone do usunięcia. Możesz nadal korzystać z konta przez 7 dni. Po tym czasie zostanie trwale usunięte, chyba że sam anulujesz tę operację w ustawieniach.",
                                "ACCOUNT_PENDING_DELETION",
                            ),
                        ),
                    },
                    CredentialNext::Reply(reply) => AccountEndNext::Reply(reply),
                    more => AccountEndNext::Credentials(more),
                }
            },
        },
    }
}

/// What to do next about the wish to delete an account.
pub fn request_account_deletion(user_id: &Option<String>, body: &AccountActionBody, facts: &AccountEndFacts) -> (r: AccountEndNext)
    ensures
        r == request_account_deletion_next(user_id, body, facts),
{
    match require_user(user_id, AuthStyle::Plain) {
        Err(reply) => AccountEndNext::Reply(reply),
        Ok(id) => match facts.account {
            None => AccountEndNext::FindAccount(id),
            Some(EndLookup::Missing) => AccountEndNext::Reply(user_not_found()),
            Some(EndLookup::Failed) => AccountEndNext::Reply(internal_error()),
            Some(EndLookup::Found { pending_deletion, .. }) => if pending_deletion {
                AccountEndNext::Reply(
                    coded_reply(
                        400,
                        "Konto jest już oznaczone do usunięcia.",
                        "ACCOUNT_PENDING_DELETION",
                    ),
                )
            } else {
                match verify_account_action_credentials(credentials(body, facts)) {
                    CredentialNext::Passed => match facts.saved {
                        None => AccountEndNext::Save(id),
                        Some(false) => AccountEndNext::Reply(
                            message_reply(500, "Nie udało się oznaczyć konta do usunięcia."),
                        ),
                        Some(true) => AccountEndNext::Done(
                            coded_reply(
                                200,
                                "Konto zostało oznaczone do usunięcia. Możesz nadal korzystać z konta przez 7 dni. Po tym czasie zostanie trwale usunięte, chyba że sam anulujesz tę operację w ustawieniach.",
                                "ACCOUNT_PENDING_DELETION",
                            ),
                        ),
                    },
                    CredentialNext::Reply(reply) => AccountEndNext::Reply(reply),
                    more => AccountEndNext::Credentials(more),
                }
            },
        },
    }
}

/// What to do next about somebody who keeps their account after all.
pub open spec fn cancel_account_deletion_next(user_id: &Option<String>, body: &AccountActionBody, facts: &AccountEndFacts) -> AccountEndNext {
    match require_user(user_id, AuthStyle::Plain) {
        Err(reply) => AccountEndNext::Reply(reply),
        Ok(id) => match facts.account {
            None => AccountEndNext::FindAccount(id),
            Some(EndLookup::Missing) => AccountEndNext::Reply(user_not_found()),
            Some(EndLookup::Failed) => AccountEndNext::Reply(internal_error()),
            Some(EndLookup::Found { pending_deletion, .. }) => if !pending_deletion {
                AccountEndNext::Reply(
                    coded_reply(
                        400,
                        "Konto nie jest oznaczone do usunięcia.",
                        "ACCOUNT_NOT_PENDING_DELETION",
                    ),
                )
            } else {
                match verify_account_action_credentials(credentials_of(body, facts)) {
                    CredentialNext::Passed => match facts.saved {
                        None => AccountEndNext::Save(id),
                        Some(false) => AccountEndNext::Reply(
                            message_reply(500, "Nie udało się anulować usunięcia konta."),
                        ),
                        Some(true) => AccountEndNext::Done(
                            coded_reply(
                                200,
                                "Oznaczenie konta do usunięcia zostało anulowane.",
                                "ACCOUNT_DELETION_CANCELLED",
                            ),
                        ),
                    },
                    CredentialNext::Reply(reply) => AccountEndNext::Reply(reply),
                    more => AccountEndNext::Credentials(more),
                }
            },
        },
    }
}

/// What to do next about somebody who keeps their account after all.
pub fn cancel_account_deletion(user_id: &Option<String>, body: &AccountActionBody, facts: &AccountEndFacts) -> (r: AccountEndNext)
    ensures
        r == cancel_account_deletion_next(user_id, body, facts),
{
    match require_user(user_id, AuthStyle::Plain) {
        Err(reply) => AccountEndNext::Reply(reply),
        Ok(id) => match facts.account {
            None => AccountEndNext::FindAccount(id),
            Some(EndLookup::Missing) => AccountEndNext::Reply(user_not_found()),
            Some(EndLookup::Failed) => AccountEndNext::Reply(internal_error()),
            Some(EndLookup::Found { pending_deletion, .. }) => if !pending_deletion {
                AccountEndNext::Reply(
                    coded_reply(
                        400,
                        "Konto nie jest oznaczone do usunięcia.",
                        "ACCOUNT_NOT_PENDING_DELETION",
                    ),
                )
            } else {
                match verify_account_action_credentials(credentials(body, facts)) {
                    CredentialNext::Passed => match facts.saved {
                        None => AccountEndNext::Save(id),
                        Some(false) => AccountEndNext::Reply(
                            message_reply(500, "Nie udało się anulować usunięcia konta."),
                        ),
                        Some(true) => AccountEndNext::Done(
                            coded_reply(
                                200,
                                "Oznaczenie konta do usunięcia zostało anulowane.",
                                "ACCOUNT_DELETION_CANCELLED",
                            ),
                        ),
                    },
                    CredentialNext::Reply(reply) => AccountEndNext::Reply(reply),
                    more => AccountEndNext::Credentials(more),
                }
            },
        },
    }
}

/// Nothing about the end of an account is stored without the right password and the second
/// factor; an account that is marked for deletion is not switched off, and one that is switched
/// off has all its logins void before that is answered.
pub proof fn ends_need_credentials(
    user_id: &Option<String>,
    body: &AccountActionBody,
    facts: &AccountEndFacts,
)
    ensures
        disable_account_next(user_id, body, facts) is Save || request_account_deletion_next(
            user_id,
            body,
            facts,
        ) is Save || cancel_account_deletion_next(user_id, body, facts) is Save
            ==> facts.password == Some(PasswordCheck::Matches) && step_up_next(facts.second)
            is Passed && trimmed(text_or_empty(body.password)).len() > 0,
        disable_account_next(user_id, body, facts) is Save ==> facts.account == Some(
            EndLookup::Found { disabled: false, pending_deletion: false },
        ),
        disable_account_next(user_id, body, facts) is Done ==> facts.invalidated,
{
}

/// What is answered about the wish to delete an account, besides the message: when it is deleted,
/// and after how many days.
pub struct DeletionTime {
    pub scheduled_at: Option<String>,
    pub grace_days: i64,
}

/// What is answered about the wish to delete an account at this time.
pub fn deletion_answer(now: i64) -> (r: DeletionTime)
    requires
        now + 604_800_000 <= i64::MAX,
    ensures
        opt_text(r.scheduled_at) == rfc3339(deletion_time(now as int) as i64),
        r.grace_days == 7,
{
    DeletionTime { scheduled_at: iso(scheduled_deletion(now)), grace_days: DELETION_GRACE_DAYS }
}

/// How others are told about a changed picture: under which event, and in which field its key
/// stands beside the user's `userId`. The answer to the one who changed it has the same field.
#[derive(Clone, Copy, Debug)]
pub struct PictureNews {
    pub event: &'static str,
    pub field: &'static str,
}

/// How others are told about a changed picture.
pub open spec fn picture_news_of(picture: Picture) -> PictureNews {
    match picture {
        Picture::Image => PictureNews { event: "profile-image-updated", field: "image" },
        Picture::Banner => PictureNews { event: "profile-banner-updated", field: "banner" },
    }
}

/// How others are told about a changed picture.
pub fn picture_news(picture: Picture) -> (r: PictureNews)
    ensures
        r == picture_news_of(picture),
{
    match picture {
        Picture::Image => PictureNews { event: "profile-image-updated", field: "image" },
        Picture::Banner => PictureNews { event: "profile-banner-updated", field: "banner" },
    }
}

/// What showing one's own account, showing one's warnings and confirming them come to, outcome by
/// outcome: the store is asked for the user of the request, and what it gave is shown.
pub proof fn own_accounts_are_shown(
    user_id: &Option<String>,
    found: Option<Lookup>,
    worked: Option<bool>,
    id: ObjectId,
)
    requires
        crate::reply::require_user_of(user_id, AuthStyle::OwnAccount) == Ok::<ObjectId, Reply>(id),
    ensures
        ({
            let info = get_user_info_next(user_id, found);
            let warnings = get_my_warnings_next(user_id, worked);
            let confirm = acknowledge_my_warnings_next(user_id, worked);
            &&& info == ShowNext::Ask(id) <==> found is None
            &&& info is Show <==> found == Some(Lookup::Found)
            &&& found == Some(Lookup::Missing) ==> info == ShowNext::Reply(
                crate::reply::text_reply_of(404, "User with the given id not found."),
            )
            &&& found == Some(Lookup::Failed) ==> info == ShowNext::Reply(
                crate::reply::internal_error_of(),
            )
            &&& warnings == ShowNext::Ask(id) <==> worked is None
            &&& warnings is Show <==> worked == Some(true)
            &&& worked == Some(false) ==> warnings == ShowNext::Reply(
                crate::reply::error_reply_of(500, "Nie udało się pobrać ostrzeżeń."),
            )
            &&& confirm == ShowNext::Ask(id) <==> worked is None
            &&& worked == Some(true) ==> confirm == ShowNext::Confirmed(
                crate::reply::message_reply_of(200, "Ostrzeżenia zostały potwierdzone."),
            )
            &&& worked == Some(false) ==> confirm == ShowNext::Reply(
                crate::reply::error_reply_of(500, "Nie udało się potwierdzić ostrzeżeń."),
            )
        }),
{
}

/// What a change of the profile comes to, outcome by outcome: a shown name of 1 to 32 characters and a
/// biography of at most 500 are stored, and a language and one of the four states are.
pub proof fn profile_changes_are_stored(
    user_id: &Option<String>,
    name: Seq<char>,
    bio: Seq<char>,
    body: &AvailabilityBody,
    saved: Option<Written>,
    id: ObjectId,
)
    requires
        crate::reply::require_user_of(user_id, AuthStyle::Profile) == Ok::<ObjectId, Reply>(id),
    ensures
        ({
            let profile = update_profile_next(user_id, name, bio, saved);
            let language = update_language_next(user_id, saved);
            let status = update_availability_status_next(user_id, body, saved);
            let fits = 1 <= name.len() <= 32 && bio.len() <= 500;
            let given = text_or_empty(body.availability_status);
            let named = given == "online"@ || given == "away"@ || given == "brb"@ || given
                == "dnd"@;
            &&& profile == ProfileNext::Save(id) <==> fits && saved is None
            &&& profile is Saved <==> fits && saved == Some(Written::Done)
            &&& name.len() == 0 ==> profile == ProfileNext::Reply(
                crate::reply::text_reply_of(400, "Display name is required."),
            )
            &&& name.len() > 32 ==> profile == ProfileNext::Reply(
                crate::reply::text_reply_of(400, "Display name must be at most 32 characters."),
            )
            &&& 1 <= name.len() <= 32 && bio.len() > 500 ==> profile == ProfileNext::Reply(
                crate::reply::text_reply_of(400, "Bio must be at most 500 characters."),
            )
            &&& language == ProfileNext::Save(id) <==> saved is None
            &&& language is Saved <==> saved == Some(Written::Done)
            &&& status == ProfileNext::Save(id) <==> named && saved is None
            &&& status is Saved <==> named && saved == Some(Written::Done)
            &&& !named ==> status == ProfileNext::Reply(
                crate::reply::text_reply_of(400, "Invalid availability status."),
            )
            &&& saved == Some(Written::Missing) ==> language == ProfileNext::Reply(
                crate::reply::user_not_found_of(),
            )
            &&& saved == Some(Written::Failed) ==> language == ProfileNext::Reply(
                crate::reply::text_reply_of(500, "Internal Server Error."),
            )
            &&& fits && (saved == Some(Written::Missing) || saved == Some(Written::Failed))
                ==> profile == language
            &&& named && (saved == Some(Written::Missing) || saved == Some(Written::Failed))
                ==> status == language
        }),
{
}

/// What a new picture comes to, outcome by outcome: its kind, its content and its size are looked at,
/// then it is encoded anew, put into the file store and stored with the account; each goes on exactly
/// if the one before it went well.
pub proof fn new_pictures_are_stored(
    picture: Picture,
    user_id: &Option<String>,
    ext: Seq<char>,
    facts: &PictureFacts,
    id: ObjectId,
)
    requires
        crate::reply::require_user_of(user_id, AuthStyle::Plain) == Ok::<ObjectId, Reply>(id),
    ensures
        ({
            let next = add_picture_next(picture, user_id, ext, facts);
            let kind = ext == "jpg"@ || ext == "jpeg"@ || ext == "png"@ || ext == "webp"@;
            let content = kind && facts.content_ok == Some(true);
            let size = content && facts.size_ok == Some(true);
            let found = size && facts.account == Some(Lookup::Found);
            let encoded = found && facts.encoded == Some(true);
            let there = encoded && facts.uploaded == Some(true);
            &&& !kind ==> next == PictureNext::Reply(
                crate::reply::text_reply_of(400, "Invalid file type."),
            )
            &&& next is CheckContent <==> kind && facts.content_ok is None
            &&& kind && facts.content_ok == Some(false) ==> next == PictureNext::Reply(
                crate::reply::text_reply_of(400, "Invalid file content."),
            )
            &&& next is CheckSize <==> content && facts.size_ok is None
            &&& content && facts.size_ok == Some(false) ==> next == PictureNext::Reply(
                crate::reply::text_reply_of(
                    413,
                    if picture == Picture::Image {
                        "File too large. Maximum size is 6 MB."
                    } else {
                        "File too large. Maximum size is 7 MB."
                    },
                ),
            )
            &&& next == PictureNext::FindAccount(id) <==> size && facts.account is None
            &&& next is Encode <==> found && facts.encoded is None
            &&& next is RefuseEncoding <==> found && facts.encoded == Some(false)
            &&& next is Upload <==> encoded && facts.uploaded is None
            &&& next == PictureNext::Save(id) <==> there && facts.saved is None
            &&& next is Saved <==> there && facts.saved == Some(Written::Done)
            &&& (size && facts.account == Some(Lookup::Missing)) || (there && facts.saved == Some(
                Written::Missing,
            )) ==> next == PictureNext::Reply(crate::reply::user_not_found_of())
            &&& (size && facts.account == Some(Lookup::Failed)) || (encoded && facts.uploaded
                == Some(false)) || (there && facts.saved == Some(Written::Failed)) ==> next
                == PictureNext::Reply(crate::reply::text_reply_of(500, "Internal Server Error."))
        }),
{
}

/// What removing a picture comes to, outcome by outcome: where there is one it is taken from the
/// account, then its file is seen to, deleted exactly if it is the account's own, and where there is
/// none it is done.
pub proof fn removed_pictures_are_cleaned_up(
    user_id: &Option<String>,
    account: Option<PictureLookup>,
    saved: Option<Written>,
    cleaned: bool,
    id: ObjectId,
    owned: bool,
)
    requires
        crate::reply::require_user_of(user_id, AuthStyle::Picture) == Ok::<ObjectId, Reply>(id),
    ensures
        ({
            let next = remove_picture_next(user_id, account, saved, cleaned);
            let found = account is Some && account->0 is Found;
            let there = found && account->0->has_picture;
            let gone = there && saved == Some(Written::Done);
            &&& next == RemoveNext::FindAccount(id) <==> account is None
            &&& next == RemoveNext::Save(id) <==> there && saved is None
            &&& next == (RemoveNext::CleanUp { delete: owned }) <==> gone && !cleaned
                && account->0->owned == owned
            &&& next is Done <==> (found && !there) || (gone && cleaned)
            &&& account == Some(PictureLookup::Missing) || (there && saved == Some(Written::Missing))
                ==> next == RemoveNext::Reply(crate::reply::error_reply_of(404, "User not found"))
            &&& account == Some(PictureLookup::Failed) || (there && saved == Some(Written::Failed))
                ==> next == RemoveNext::Reply(
                crate::reply::error_reply_of(500, "Internal server error"),
            )
        }),
{
}

/// What the three requests about the end of an account come to, outcome by outcome. The account is
/// looked for, then it must be in the state that the request is about, then the credentials must pass,
/// and then it is stored; only switching an account off makes all its logins void before the answer.
pub proof fn ends_of_accounts_are_stored(
    user_id: &Option<String>,
    body: &AccountActionBody,
    facts: &AccountEndFacts,
    id: ObjectId,
)
    requires
        crate::reply::require_user_of(user_id, AuthStyle::Plain) == Ok::<ObjectId, Reply>(id),
    ensures
        ({
            let disable = disable_account_next(user_id, body, facts);
            let delete = request_account_deletion_next(user_id, body, facts);
            let keep = cancel_account_deletion_next(user_id, body, facts);
            let found = facts.account is Some && facts.account->0 is Found;
            let disabled = found && facts.account->0->disabled;
            let marked = found && facts.account->0->pending_deletion;
            let may_disable = found && !disabled && !marked;
            let may_delete = found && !marked;
            let checked = crate::controllers::step_up::verify_account_action_credentials_next(
                credentials_of(body, facts),
            );
            let passed = checked is Passed;
            &&& disable == AccountEndNext::FindAccount(id) <==> facts.account is None
            &&& delete == AccountEndNext::FindAccount(id) <==> facts.account is None
            &&& keep == AccountEndNext::FindAccount(id) <==> facts.account is None
            &&& disable == AccountEndNext::Save(id) <==> may_disable && passed && facts.saved is None
            &&& delete == AccountEndNext::Save(id) <==> may_delete && passed && facts.saved is None
            &&& keep == AccountEndNext::Save(id) <==> marked && passed && facts.saved is None
            &&& disable == AccountEndNext::Invalidate(id) <==> may_disable && passed && facts.saved
                == Some(true) && !facts.invalidated
            &&& disable is Done <==> may_disable && passed && facts.saved == Some(true)
                && facts.invalidated
            &&& delete is Done <==> may_delete && passed && facts.saved == Some(true)
            &&& keep is Done <==> marked && passed && facts.saved == Some(true)
            &&& disable is Credentials <==> may_disable && !passed && !(checked is Reply)
            &&& delete is Credentials <==> may_delete && !passed && !(checked is Reply)
            &&& keep is Credentials <==> marked && !passed && !(checked is Reply)
            &&& disable is Credentials ==> disable == AccountEndNext::Credentials(checked)
            &&& delete is Credentials ==> delete == AccountEndNext::Credentials(checked)
            &&& keep is Credentials ==> keep == AccountEndNext::Credentials(checked)
            &&& checked is Reply ==> {
                &&& may_disable ==> disable == AccountEndNext::Reply(checked->Reply_0)
                &&& may_delete ==> delete == AccountEndNext::Reply(checked->Reply_0)
                &&& marked ==> keep == AccountEndNext::Reply(checked->Reply_0)
            }
        }),
{
}

/// How each outcome of a request about the end of an account is answered.
pub proof fn ends_of_accounts_are_answered(
    user_id: &Option<String>,
    body: &AccountActionBody,
    facts: &AccountEndFacts,
    id: ObjectId,
)
    requires
        crate::reply::require_user_of(user_id, AuthStyle::Plain) == Ok::<ObjectId, Reply>(id),
    ensures
        ({
            let disable = disable_account_next(user_id, body, facts);
            let delete = request_account_deletion_next(user_id, body, facts);
            let keep = cancel_account_deletion_next(user_id, body, facts);
            let found = facts.account is Some && facts.account->0 is Found;
            let disabled = found && facts.account->0->disabled;
            let marked = found && facts.account->0->pending_deletion;
            let passed = crate::controllers::step_up::verify_account_action_credentials_next(
                credentials_of(body, facts),
            ) is Passed;
            let failed = passed && facts.saved == Some(false);
            &&& facts.account == Some(EndLookup::Missing) ==> {
                &&& disable == AccountEndNext::Reply(crate::reply::user_not_found_of())
                &&& delete == AccountEndNext::Reply(crate::reply::user_not_found_of())
                &&& keep == AccountEndNext::Reply(crate::reply::user_not_found_of())
            }
            &&& facts.account == Some(EndLookup::Failed) ==> {
                &&& disable == AccountEndNext::Reply(crate::reply::internal_error_of())
                &&& delete == AccountEndNext::Reply(crate::reply::internal_error_of())
                &&& keep == AccountEndNext::Reply(crate::reply::internal_error_of())
            }
            &&& disabled ==> disable == AccountEndNext::Reply(
                crate::reply::coded_reply_of(
                    400,
                    "Konto jest już wyłączone.",
                    "ACCOUNT_ALREADY_DISABLED",
                ),
            )
            &&& marked && !disabled ==> disable == AccountEndNext::Reply(
                crate::reply::coded_reply_of(
                    400,
                    "Konto jest oznaczone do usunięcia.",
                    "ACCOUNT_PENDING_DELETION",
                ),
            )
            &&& marked ==> delete == AccountEndNext::Reply(
                crate::reply::coded_reply_of(
                    400,
                    "Konto jest już oznaczone do usunięcia.",
                    "ACCOUNT_PENDING_DELETION",
                ),
            )
            &&& found && !marked ==> keep == AccountEndNext::Reply(
                crate::reply::coded_reply_of(
                    400,
                    "Konto nie jest oznaczone do usunięcia.",
                    "ACCOUNT_NOT_PENDING_DELETION",
                ),
            )
            &&& found && !disabled && !marked && failed ==> disable == AccountEndNext::Reply(
                crate::reply::message_reply_of(500, "Nie udało się wyłączyć konta."),
            )
            &&& found && !marked && failed ==> delete == AccountEndNext::Reply(
                crate::reply::message_reply_of(500, "Nie udało się oznaczyć konta do usunięcia."),
            )
            &&& marked && failed ==> keep == AccountEndNext::Reply(
                crate::reply::message_reply_of(500, "Nie udało się anulować usunięcia konta."),
            )
            &&& disable is Done ==> disable->Done_0.status == 200 && disable->Done_0.body is Message
                && disable->Done_0.body->code == Some("ACCOUNT_DISABLED")
            &&& delete is Done ==> delete->Done_0.status == 200 && delete->Done_0.body is Message
                && delete->Done_0.body->code == Some("ACCOUNT_PENDING_DELETION")
            &&& keep is Done ==> keep->Done_0.status == 200 && keep->Done_0.body is Message
                && keep->Done_0.body->code == Some("ACCOUNT_DELETION_CANCELLED")
        }),
{
}

/// The credentials of a request are what it gives: no password exactly if nothing is left of it
/// without the white space around it.
pub proof fn credentials_are_those_of_the_request(
    body: &AccountActionBody,
    facts: &AccountEndFacts,
)
    ensures
        credentials_of(body, facts).password_empty <==> trimmed(text_or_empty(body.password)).len()
            == 0,
        credentials_of(body, facts).password == facts.password,
        credentials_of(body, facts).second == facts.second,
{
}

/// A request without a user is answered as its kind of request is, whatever it is about.
pub proof fn account_requests_need_a_user(
    user_id: &Option<String>,
    own: Reply,
    profile: Reply,
    plain: Reply,
    picture: Reply,
    facts: &PictureFacts,
    body: &AccountActionBody,
    ends: &AccountEndFacts,
    status: &AvailabilityBody,
    text: Seq<char>,
)
    requires
        crate::reply::require_user_of(user_id, AuthStyle::OwnAccount) == Err::<ObjectId, Reply>(own),
        crate::reply::require_user_of(user_id, AuthStyle::Profile) == Err::<ObjectId, Reply>(
            profile,
        ),
        crate::reply::require_user_of(user_id, AuthStyle::Plain) == Err::<ObjectId, Reply>(plain),
        crate::reply::require_user_of(user_id, AuthStyle::Picture) == Err::<ObjectId, Reply>(
            picture,
        ),
    ensures
        get_user_info_next(user_id, None) == ShowNext::Reply(own),
        get_my_warnings_next(user_id, None) == ShowNext::Reply(own),
        acknowledge_my_warnings_next(user_id, None) == ShowNext::Reply(own),
        update_profile_next(user_id, text, text, None) == ProfileNext::Reply(profile),
        update_language_next(user_id, None) == ProfileNext::Reply(profile),
        update_availability_status_next(user_id, status, None) == ProfileNext::Reply(profile),
        add_picture_next(Picture::Image, user_id, text, facts) == PictureNext::Reply(plain),
        add_picture_next(Picture::Banner, user_id, text, facts) == PictureNext::Reply(plain),
        remove_picture_next(user_id, None, None, false) == RemoveNext::Reply(picture),
        disable_account_next(user_id, body, ends) == AccountEndNext::Reply(plain),
        request_account_deletion_next(user_id, body, ends) == AccountEndNext::Reply(plain),
        cancel_account_deletion_next(user_id, body, ends) == AccountEndNext::Reply(plain),
{
}

/// Each picture has its own event, field and answer.
pub proof fn pictures_are_told_apart(picture: Picture)
    ensures
        picture == Picture::Image ==> picture_news_of(picture).event == "profile-image-updated"
            && picture_news_of(picture).field == "image" && removed_picture_text_of(picture)
            == crate::reply::message_reply_of(200, "Profile image removed successfully"),
        picture == Picture::Banner ==> picture_news_of(picture).event == "profile-banner-updated"
            && picture_news_of(picture).field == "banner" && removed_picture_text_of(picture)
            == crate::reply::message_reply_of(200, "Profile banner removed successfully"),
{
}

/// How many warnings are not confirmed is how many there are less those that are: none is left out
/// and none is counted twice.
pub proof fn unconfirmed_warnings_are_counted(s: Seq<Warning>, w: Warning)
    ensures
        unconfirmed(Seq::<Warning>::empty()) == 0,
        unconfirmed(s.push(w)) == unconfirmed(s) + if w.acknowledged {
            0nat
        } else {
            1nat
        },
        unconfirmed(s) <= s.len(),
    decreases s.len(),
{
    assert(s.push(w).drop_last() =~= s);
    if s.len() > 0 {
        unconfirmed_warnings_are_counted(s.drop_last(), w);
    }
}

/// Pictures of four kinds are taken, by their extensions, and no others.
pub proof fn picture_kinds_go_by_extension(ext: Seq<char>)
    ensures
        is_image_ext(ext) <==> ext == "jpg"@ || ext == "jpeg"@ || ext == "png"@ || ext == "webp"@,
{
}

/// The extension of a file is what stands behind its last dot, or the whole name without one.
pub proof fn extensions_stand_behind_the_last_dot(a: Seq<char>, b: Seq<char>)
    requires
        !b.contains('.'),
    ensures
        extension_of(a.push('.') + b) == b,
        extension_of(b) == b,
{
    text::what_follows_the_last_copy(a, '.', b);
}

/// A warning is shown with each of its own parts.
pub proof fn warnings_are_shown_whole(shown: WarningJson, w: Warning)
    requires
        shows_warning(shown, w),
    ensures
        w.id is Some ==> shown.id is Some && shown.id->0@ == w.id->0.hex(),
        w.id is None ==> shown.id is None,
        shown.reason@ == w.reason@,
        shown.severity == w.severity,
        shown.acknowledged == w.acknowledged,
        w.acknowledged_at is None ==> shown.acknowledged_at is None,
        w.acknowledged_at is Some ==> opt_text(shown.acknowledged_at) == rfc3339(
            w.acknowledged_at->0,
        ),
        opt_text(shown.created_at) == rfc3339(w.created_at),
{
}

/// Exactly four texts name a state of availability.
pub proof fn four_names_are_states(s: Seq<char>)
    ensures
        is_status_name(s) <==> s == "online"@ || s == "away"@ || s == "brb"@ || s == "dnd"@,
{
}

/// Others hear of a changed profile under this name.
pub proof fn profile_changes_have_a_name()
    ensures
        PROFILE_UPDATED == "profile-updated",
{
}

} // verus!
