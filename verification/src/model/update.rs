//! Changes of stored accounts, field by field.
use vstd::prelude::*;
use crate::ids::ObjectId;
use crate::lists::texts;
use crate::model::users::User;
use crate::text::opt_text;
use crate::utils::admin::DELETION_GRACE_DAYS;

verus! {

/// A field of a stored account.
#[derive(Clone, Copy, Debug, PartialEq, Eq, Structural)]
pub enum UserField {
    Username,
    Password,
    DisplayName,
    Bio,
    Image,
    Banner,
    ProfileSetup,
    Color,
    IsDisabled,
    DisabledAt,
    DeletionRequestedAt,
    DeletionScheduledAt,
    IsOnline,
    LastSeen,
    AvailabilityStatus,
    Language,
    MutedContacts,
    BlockedContacts,
    TokenVersion,
    TwoFactorEnabled,
    TotpSecret,
    TotpPendingSecret,
    BackupCodes,
    UpdatedAt,
}

/// The name under which a field is stored.
pub open spec fn field_name_of(f: UserField) -> &'static str {
    match f {
        UserField::Username => "username",
        UserField::Password => "password",
        UserField::DisplayName => "displayName",
        UserField::Bio => "bio",
        UserField::Image => "image",
        UserField::Banner => "banner",
        UserField::ProfileSetup => "profileSetup",
        UserField::Color => "color",
        UserField::IsDisabled => "isDisabled",
        UserField::DisabledAt => "disabledAt",
        UserField::DeletionRequestedAt => "deletionRequestedAt",
        UserField::DeletionScheduledAt => "deletionScheduledAt",
        UserField::IsOnline => "isOnline",
        UserField::LastSeen => "lastSeen",
        UserField::AvailabilityStatus => "availabilityStatus",
        UserField::Language => "language",
        UserField::MutedContacts => "mutedContacts",
        UserField::BlockedContacts => "blockedContacts",
        UserField::TokenVersion => "tokenVersion",
        UserField::TwoFactorEnabled => "twoFactorEnabled",
        UserField::TotpSecret => "totpSecret",
        UserField::TotpPendingSecret => "totpPendingSecret",
        UserField::BackupCodes => "backupCodes",
        UserField::UpdatedAt => "updatedAt",
    }
}

/// The name under which a field is stored.
pub fn field_name(f: UserField) -> (r: &'static str)
    ensures
        r == field_name_of(f),
{
    match f {
        UserField::Username => "username",
        UserField::Password => "password",
        UserField::DisplayName => "displayName",
        UserField::Bio => "bio",
        UserField::Image => "image",
        UserField::Banner => "banner",
        UserField::ProfileSetup => "profileSetup",
        UserField::Color => "color",
        UserField::IsDisabled => "isDisabled",
        UserField::DisabledAt => "disabledAt",
        UserField::DeletionRequestedAt => "deletionRequestedAt",
        UserField::DeletionScheduledAt => "deletionScheduledAt",
        UserField::IsOnline => "isOnline",
        UserField::LastSeen => "lastSeen",
        UserField::AvailabilityStatus => "availabilityStatus",
        UserField::Language => "language",
        UserField::MutedContacts => "mutedContacts",
        UserField::BlockedContacts => "blockedContacts",
        UserField::TokenVersion => "tokenVersion",
        UserField::TwoFactorEnabled => "twoFactorEnabled",
        UserField::TotpSecret => "totpSecret",
        UserField::TotpPendingSecret => "totpPendingSecret",
        UserField::BackupCodes => "backupCodes",
        UserField::UpdatedAt => "updatedAt",
    }
}

/// What is stored in a field.
pub enum FieldValue {
    Null,
    Flag(bool),
    Number(i32),
    /// Milliseconds since 1970.
    Time(i64),
    Text(String),
    Texts(Vec<String>),
    Ids(Vec<ObjectId>),
}

/// What is stored in a field, as a mathematical value.
pub enum FieldView {
    Null,
    Flag(bool),
    Number(int),
    Time(int),
    Text(Seq<char>),
    Texts(Seq<Seq<char>>),
    Ids(Seq<ObjectId>),
}

impl View for FieldValue {
    type V = FieldView;

    open spec fn view(&self) -> FieldView {
        match *self {
            FieldValue::Null => FieldView::Null,
            FieldValue::Flag(b) => FieldView::Flag(b),
            FieldValue::Number(n) => FieldView::Number(n as int),
            FieldValue::Time(t) => FieldView::Time(t as int),
            FieldValue::Text(s) => FieldView::Text(s@),
            FieldValue::Texts(v) => FieldView::Texts(texts(v@)),
            FieldValue::Ids(v) => FieldView::Ids(v@),
        }
    }
}

/// One field and what it is set to.
pub struct FieldSet {
    pub field: UserField,
    pub value: FieldValue,
}

/// A change of a stored account: fields that are set, one after the other, fields that are
/// removed, and whether the version of its tokens goes up by one.
pub struct Update {
    pub set: Vec<FieldSet>,
    pub unset: Vec<UserField>,
    pub next_version: bool,
}

/// A stored account.
pub type Record = Map<UserField, FieldView>;

/// The fields that are set, with their values.
pub open spec fn settings(s: Seq<FieldSet>) -> Seq<(UserField, FieldView)> {
    s.map_values(|f: FieldSet| (f.field, f.value@))
}

/// Whether a change sets exactly these fields in this order, and removes exactly those.
pub open spec fn is_update(
    u: Update,
    set: Seq<(UserField, FieldView)>,
    unset: Seq<UserField>,
    next_version: bool,
) -> bool {
    settings(u.set@) == set && u.unset@ == unset && u.next_version == next_version
}

/// An account after fields were set.
pub open spec fn after_setting(r: Record, set: Seq<(UserField, FieldView)>) -> Record
    decreases set.len(),
{
    if set.len() == 0 {
        r
    } else {
        after_setting(r, set.drop_last()).insert(set.last().0, set.last().1)
    }
}

/// An account after fields were removed.
pub open spec fn after_removing(r: Record, unset: Seq<UserField>) -> Record
    decreases unset.len(),
{
    if unset.len() == 0 {
        r
    } else {
        after_removing(r, unset.drop_last()).remove(unset.last())
    }
}

/// An account after a change.
pub open spec fn after_update(
    r: Record,
    set: Seq<(UserField, FieldView)>,
    unset: Seq<UserField>,
    next_version: bool,
) -> Record {
    let changed = after_removing(after_setting(r, set), unset);
    if next_version {
        match changed[UserField::TokenVersion] {
            FieldView::Number(n) => changed.insert(
                UserField::TokenVersion,
                FieldView::Number(n + 1),
            ),
            _ => changed,
        }
    } else {
        changed
    }
}

fn one(field: UserField, value: FieldValue) -> (r: Vec<FieldSet>)
    ensures
        settings(r@) == seq![(field, value@)],
{
    let mut v: Vec<FieldSet> = Vec::new();
    v.push(FieldSet { field, value });
    proof {
        assert(settings(v@) =~= seq![(field, value@)]);
    }
    v
}

fn also(mut v: Vec<FieldSet>, field: UserField, value: FieldValue) -> (r: Vec<FieldSet>)
    ensures
        settings(r@) == settings(v@).push((field, value@)),
{
    let ghost before = v@;
    v.push(FieldSet { field, value });
    proof {
        assert(settings(v@) =~= settings(before).push((field, value@)));
    }
    v
}

fn setting(set: Vec<FieldSet>, now: i64) -> (r: Update)
    ensures
        is_update(
            r,
            settings(set@).push((UserField::UpdatedAt, FieldView::Time(now as int))),
            Seq::empty(),
            false,
        ),
{
    Update {
        set: also(set, UserField::UpdatedAt, FieldValue::Time(now)),
        unset: Vec::new(),
        next_version: false,
    }
}

/// What is stored of an optional text.
pub open spec fn text_or_null(s: Option<Seq<char>>) -> FieldView {
    match s {
        Some(t) => FieldView::Text(t),
        None => FieldView::Null,
    }
}

fn optional_text(s: Option<String>) -> (r: FieldValue)
    ensures
        r@ == text_or_null(opt_text(s)),
{
    match s {
        Some(t) => FieldValue::Text(t),
        None => FieldValue::Null,
    }
}

/// A second factor is being set up: its encrypted secret is kept apart.
pub fn pending_secret_update(encrypted: String, now: i64) -> (r: Update)
    ensures
        is_update(
            r,
            seq![
                (UserField::TotpPendingSecret, FieldView::Text(encrypted@)),
                (UserField::UpdatedAt, FieldView::Time(now as int)),
            ],
            Seq::empty(),
            false,
        ),
{
    let r = setting(one(UserField::TotpPendingSecret, FieldValue::Text(encrypted)), now);
    proof {
        assert(settings(r.set@) =~= seq![
            (UserField::TotpPendingSecret, FieldView::Text(encrypted@)),
            (UserField::UpdatedAt, FieldView::Time(now as int)),
        ]);
    }
    r
}

/// The fields that switching a second factor on sets.
pub open spec fn factor_on(pending: Seq<char>, codes: Seq<Seq<char>>, now: int) -> Seq<
    (UserField, FieldView),
> {
    seq![
        (UserField::TwoFactorEnabled, FieldView::Flag(true)),
        (UserField::TotpSecret, FieldView::Text(pending)),
        (UserField::TotpPendingSecret, FieldView::Null),
        (UserField::BackupCodes, FieldView::Texts(codes)),
        (UserField::UpdatedAt, FieldView::Time(now)),
    ]
}

/// A second factor is switched on: the secret that was being set up becomes the secret, and
/// the hashed backup codes are kept.
pub fn enable_factor_update(pending: String, codes: Vec<String>, now: i64) -> (r: Update)
    ensures
        is_update(r, factor_on(pending@, texts(codes@), now as int), Seq::empty(), false),
{
    let set = one(UserField::TwoFactorEnabled, FieldValue::Flag(true));
    let set = also(set, UserField::TotpSecret, FieldValue::Text(pending));
    let set = also(set, UserField::TotpPendingSecret, FieldValue::Null);
    let set = also(set, UserField::BackupCodes, FieldValue::Texts(codes));
    let r = setting(set, now);
    proof {
        assert(settings(r.set@) =~= factor_on(pending@, texts(codes@), now as int));
    }
    r
}

/// The fields that switching a second factor off sets.
pub open spec fn factor_off(now: int) -> Seq<(UserField, FieldView)> {
    seq![
        (UserField::TwoFactorEnabled, FieldView::Flag(false)),
        (UserField::TotpSecret, FieldView::Null),
        (UserField::TotpPendingSecret, FieldView::Null),
        (UserField::BackupCodes, FieldView::Null),
        (UserField::UpdatedAt, FieldView::Time(now)),
    ]
}

/// A second factor is switched off: nothing of it is kept.
pub fn disable_factor_update(now: i64) -> (r: Update)
    ensures
        is_update(r, factor_off(now as int), Seq::empty(), false),
{
    let set = one(UserField::TwoFactorEnabled, FieldValue::Flag(false));
    let set = also(set, UserField::TotpSecret, FieldValue::Null);
    let set = also(set, UserField::TotpPendingSecret, FieldValue::Null);
    let set = also(set, UserField::BackupCodes, FieldValue::Null);
    let r = setting(set, now);
    proof {
        assert(settings(r.set@) =~= factor_off(now as int));
    }
    r
}

/// Switching a second factor off takes back all that setting it up and switching it on did:
/// what is left is the account as if there had never been one, but for the time of the change.
pub proof fn factor_off_undoes_factor_on(
    r: Record,
    pending: Seq<char>,
    codes: Seq<Seq<char>>,
    then: int,
    now: int,
)
    ensures
        after_update(
            after_update(r, factor_on(pending, codes, then), Seq::empty(), false),
            factor_off(now),
            Seq::empty(),
            false,
        ) == after_update(r, factor_off(now), Seq::empty(), false),
        after_update(r, factor_off(now), Seq::empty(), false)[UserField::TwoFactorEnabled]
            == FieldView::Flag(false),
        after_update(r, factor_off(now), Seq::empty(), false)[UserField::TotpSecret]
            == FieldView::Null,
        after_update(r, factor_off(now), Seq::empty(), false)[UserField::BackupCodes]
            == FieldView::Null,
{
    reveal_with_fuel(after_setting, 6);
    let on = factor_on(pending, codes, then);
    let off = factor_off(now);
    assert(on.drop_last() =~= seq![on[0], on[1], on[2], on[3]]);
    assert(on.drop_last().drop_last() =~= seq![on[0], on[1], on[2]]);
    assert(on.drop_last().drop_last().drop_last() =~= seq![on[0], on[1]]);
    assert(on.drop_last().drop_last().drop_last().drop_last() =~= seq![on[0]]);
    assert(off.drop_last() =~= seq![off[0], off[1], off[2], off[3]]);
    assert(off.drop_last().drop_last() =~= seq![off[0], off[1], off[2]]);
    assert(off.drop_last().drop_last().drop_last() =~= seq![off[0], off[1]]);
    assert(off.drop_last().drop_last().drop_last().drop_last() =~= seq![off[0]]);
    let once = after_setting(r, off);
    let twice = after_setting(after_setting(r, on), off);
    assert(twice =~= once);
}

/// What is stored of the backup codes that are left.
pub open spec fn codes_or_null(left: Option<Vec<String>>) -> FieldView {
    match left {
        Some(v) => FieldView::Texts(texts(v@)),
        None => FieldView::Null,
    }
}

/// The backup codes that are left are kept; nothing if there are none.
pub fn backup_codes_update(left: Option<Vec<String>>, now: i64) -> (r: Update)
    ensures
        is_update(
            r,
            seq![
                (UserField::BackupCodes, codes_or_null(left)),
                (UserField::UpdatedAt, FieldView::Time(now as int)),
            ],
            Seq::empty(),
            false,
        ),
{
    let ghost kept = codes_or_null(left);
    let value = match left {
        Some(v) => FieldValue::Texts(v),
        None => FieldValue::Null,
    };
    let r = setting(one(UserField::BackupCodes, value), now);
    proof {
        assert(settings(r.set@) =~= seq![
            (UserField::BackupCodes, kept),
            (UserField::UpdatedAt, FieldView::Time(now as int)),
        ]);
    }
    r
}

/// The account gets another name.
pub fn username_update(username: String, now: i64) -> (r: Update)
    ensures
        is_update(
            r,
            seq![
                (UserField::Username, FieldView::Text(username@)),
                (UserField::UpdatedAt, FieldView::Time(now as int)),
            ],
            Seq::empty(),
            false,
        ),
{
    let r = setting(one(UserField::Username, FieldValue::Text(username)), now);
    proof {
        assert(settings(r.set@) =~= seq![
            (UserField::Username, FieldView::Text(username@)),
            (UserField::UpdatedAt, FieldView::Time(now as int)),
        ]);
    }
    r
}

/// What is stored of an optional number.
pub open spec fn number_or_null(n: Option<i32>) -> FieldView {
    match n {
        Some(v) => FieldView::Number(v as int),
        None => FieldView::Null,
    }
}

/// What is stored of a biography: nothing if it is empty.
pub open spec fn stored_bio(bio: Seq<char>) -> FieldView {
    if bio.len() == 0 {
        FieldView::Null
    } else {
        FieldView::Text(bio)
    }
}

/// The account gets another profile; an empty biography is none.
pub fn profile_update(name: String, bio: String, color: Option<i32>, now: i64) -> (r: Update)
    ensures
        is_update(
            r,
            seq![
                (UserField::DisplayName, FieldView::Text(name@)),
                (UserField::Bio, stored_bio(bio@)),
                (UserField::Color, number_or_null(color)),
                (UserField::ProfileSetup, FieldView::Flag(true)),
                (UserField::UpdatedAt, FieldView::Time(now as int)),
            ],
            Seq::empty(),
            false,
        ),
{
    let ghost expected = seq![
        (UserField::DisplayName, FieldView::Text(name@)),
        (UserField::Bio, stored_bio(bio@)),
        (UserField::Color, number_or_null(color)),
        (UserField::ProfileSetup, FieldView::Flag(true)),
        (UserField::UpdatedAt, FieldView::Time(now as int)),
    ];
    let bio_value = if bio.as_str().is_empty() {
        FieldValue::Null
    } else {
        FieldValue::Text(bio)
    };
    let color_value = match color {
        Some(n) => FieldValue::Number(n),
        None => FieldValue::Null,
    };
    let set = one(UserField::DisplayName, FieldValue::Text(name));
    let set = also(set, UserField::Bio, bio_value);
    let set = also(set, UserField::Color, color_value);
    let set = also(set, UserField::ProfileSetup, FieldValue::Flag(true));
    let r = setting(set, now);
    proof {
        assert(settings(r.set@) =~= expected);
    }
    r
}

/// The account gets another language.
pub fn language_update(language: String, now: i64) -> (r: Update)
    ensures
        is_update(
            r,
            seq![
                (UserField::Language, FieldView::Text(language@)),
                (UserField::UpdatedAt, FieldView::Time(now as int)),
            ],
            Seq::empty(),
            false,
        ),
{
    let r = setting(one(UserField::Language, FieldValue::Text(language)), now);
    proof {
        assert(settings(r.set@) =~= seq![
            (UserField::Language, FieldView::Text(language@)),
            (UserField::UpdatedAt, FieldView::Time(now as int)),
        ]);
    }
    r
}

/// The user chose a state of availability, and so is online.
pub fn availability_update(status: String, now: i64) -> (r: Update)
    ensures
        is_update(
            r,
            seq![
                (UserField::AvailabilityStatus, FieldView::Text(status@)),
                (UserField::IsOnline, FieldView::Flag(true)),
                (UserField::UpdatedAt, FieldView::Time(now as int)),
            ],
            Seq::empty(),
            false,
        ),
{
    let set = one(UserField::AvailabilityStatus, FieldValue::Text(status));
    let r = setting(also(set, UserField::IsOnline, FieldValue::Flag(true)), now);
    proof {
        assert(settings(r.set@) =~= seq![
            (UserField::AvailabilityStatus, FieldView::Text(status@)),
            (UserField::IsOnline, FieldView::Flag(true)),
            (UserField::UpdatedAt, FieldView::Time(now as int)),
        ]);
    }
    r
}

/// The account gets another profile picture, or none.
pub fn image_update(key: Option<String>, now: i64) -> (r: Update)
    ensures
        is_update(
            r,
            seq![
                (UserField::Image, text_or_null(opt_text(key))),
                (UserField::UpdatedAt, FieldView::Time(now as int)),
            ],
            Seq::empty(),
            false,
        ),
{
    let r = setting(one(UserField::Image, optional_text(key)), now);
    proof {
        assert(settings(r.set@) =~= seq![
            (UserField::Image, text_or_null(opt_text(key))),
            (UserField::UpdatedAt, FieldView::Time(now as int)),
        ]);
    }
    r
}

/// The account gets another banner, or none.
pub fn banner_update(key: Option<String>, now: i64) -> (r: Update)
    ensures
        is_update(
            r,
            seq![
                (UserField::Banner, text_or_null(opt_text(key))),
                (UserField::UpdatedAt, FieldView::Time(now as int)),
            ],
            Seq::empty(),
            false,
        ),
{
    let r = setting(one(UserField::Banner, optional_text(key)), now);
    proof {
        assert(settings(r.set@) =~= seq![
            (UserField::Banner, text_or_null(opt_text(key))),
            (UserField::UpdatedAt, FieldView::Time(now as int)),
        ]);
    }
    r
}

/// The contacts that the user does not want to hear are these.
pub fn muted_update(ids: Vec<ObjectId>, now: i64) -> (r: Update)
    ensures
        is_update(
            r,
            seq![
                (UserField::MutedContacts, FieldView::Ids(ids@)),
                (UserField::UpdatedAt, FieldView::Time(now as int)),
            ],
            Seq::empty(),
            false,
        ),
{
    let r = setting(one(UserField::MutedContacts, FieldValue::Ids(ids)), now);
    proof {
        assert(settings(r.set@) =~= seq![
            (UserField::MutedContacts, FieldView::Ids(ids@)),
            (UserField::UpdatedAt, FieldView::Time(now as int)),
        ]);
    }
    r
}

/// The contacts that the user blocked are these.
pub fn blocked_update(ids: Vec<ObjectId>, now: i64) -> (r: Update)
    ensures
        is_update(
            r,
            seq![
                (UserField::BlockedContacts, FieldView::Ids(ids@)),
                (UserField::UpdatedAt, FieldView::Time(now as int)),
            ],
            Seq::empty(),
            false,
        ),
{
    let r = setting(one(UserField::BlockedContacts, FieldValue::Ids(ids)), now);
    proof {
        assert(settings(r.set@) =~= seq![
            (UserField::BlockedContacts, FieldView::Ids(ids@)),
            (UserField::UpdatedAt, FieldView::Time(now as int)),
        ]);
    }
    r
}

impl User {
    /// The account gets another password, and all tokens that were given out become void.
    pub fn update_password(hashed: String, now: i64) -> (r: Update)
        ensures
            is_update(
                r,
                seq![
                    (UserField::Password, FieldView::Text(hashed@)),
                    (UserField::UpdatedAt, FieldView::Time(now as int)),
                ],
                Seq::empty(),
                true,
            ),
    {
        let set = one(UserField::Password, FieldValue::Text(hashed));
        let r = Update {
            set: also(set, UserField::UpdatedAt, FieldValue::Time(now)),
            unset: Vec::new(),
            next_version: true,
        };
        proof {
            assert(settings(r.set@) =~= seq![
                (UserField::Password, FieldView::Text(hashed@)),
                (UserField::UpdatedAt, FieldView::Time(now as int)),
            ]);
        }
        r
    }

    /// All tokens that were given out for the account become void.
    pub fn invalidate_tokens(now: i64) -> (r: Update)
        ensures
            is_update(
                r,
                seq![(UserField::UpdatedAt, FieldView::Time(now as int))],
                Seq::empty(),
                true,
            ),
    {
        Update {
            set: one(UserField::UpdatedAt, FieldValue::Time(now)),
            unset: Vec::new(),
            next_version: true,
        }
    }
}

/// A new password makes every token that was given out before void: its version is another
/// one.
pub proof fn new_passwords_void_tokens(r: Record, hashed: Seq<char>, now: int, version: int)
    requires
        r.dom().contains(UserField::TokenVersion),
        r[UserField::TokenVersion] == FieldView::Number(version),
    ensures
        after_update(
            r,
            seq![
                (UserField::Password, FieldView::Text(hashed)),
                (UserField::UpdatedAt, FieldView::Time(now)),
            ],
            Seq::empty(),
            true,
        )[UserField::TokenVersion] == FieldView::Number(version + 1),
        after_update(
            r,
            seq![(UserField::UpdatedAt, FieldView::Time(now))],
            Seq::empty(),
            true,
        )[UserField::TokenVersion] == FieldView::Number(version + 1),
{
    reveal_with_fuel(after_setting, 3);
    let set = seq![
        (UserField::Password, FieldView::Text(hashed)),
        (UserField::UpdatedAt, FieldView::Time(now)),
    ];
    assert(set.drop_last() =~= seq![set[0]]);
    assert(set.drop_last().drop_last() =~= Seq::empty());
    let only = seq![(UserField::UpdatedAt, FieldView::Time(now))];
    assert(only.drop_last() =~= Seq::empty());
}

/// The fields that switching an account off sets.
pub open spec fn account_off(now: int) -> Seq<(UserField, FieldView)> {
    seq![
        (UserField::IsDisabled, FieldView::Flag(true)),
        (UserField::DisabledAt, FieldView::Time(now)),
        (UserField::UpdatedAt, FieldView::Time(now)),
    ]
}

/// The account is switched off.
pub fn disable_account_update(now: i64) -> (r: Update)
    ensures
        is_update(r, account_off(now as int), Seq::empty(), false),
{
    let set = one(UserField::IsDisabled, FieldValue::Flag(true));
    let r = setting(also(set, UserField::DisabledAt, FieldValue::Time(now)), now);
    proof {
        assert(settings(r.set@) =~= account_off(now as int));
    }
    r
}

/// When an account is deleted: a week after the wish.
pub open spec fn deletion_time(now: int) -> int {
    now + DELETION_GRACE_DAYS * 86_400_000
}

/// When an account is deleted.
pub fn scheduled_deletion(now: i64) -> (r: i64)
    requires
        now + 604_800_000 <= i64::MAX,
    ensures
        r == deletion_time(now as int),
{
    now + DELETION_GRACE_DAYS * 86_400_000
}

/// The wish to delete an account can be taken back for exactly seven days.
pub proof fn deletion_waits_a_week(now: int, later: int)
    ensures
        deletion_time(now) <= later <==> later - now >= 7 * 24 * 60 * 60 * 1000,
{
}

/// The fields that the wish to delete an account sets.
pub open spec fn deletion_wish(now: int) -> Seq<(UserField, FieldView)> {
    seq![
        (UserField::DeletionRequestedAt, FieldView::Time(now)),
        (UserField::DeletionScheduledAt, FieldView::Time(deletion_time(now))),
        (UserField::IsDisabled, FieldView::Flag(false)),
        (UserField::UpdatedAt, FieldView::Time(now)),
    ]
}

/// The account is marked for deletion; it is usable until then, even if it was switched off.
pub fn request_deletion_update(now: i64) -> (r: Update)
    requires
        now + 604_800_000 <= i64::MAX,
    ensures
        is_update(r, deletion_wish(now as int), seq![UserField::DisabledAt], false),
{
    let set = one(UserField::DeletionRequestedAt, FieldValue::Time(now));
    let set = also(
        set,
        UserField::DeletionScheduledAt,
        FieldValue::Time(scheduled_deletion(now)),
    );
    let set = also(set, UserField::IsDisabled, FieldValue::Flag(false));
    let set = also(set, UserField::UpdatedAt, FieldValue::Time(now));
    let mut unset: Vec<UserField> = Vec::new();
    unset.push(UserField::DisabledAt);
    let r = Update { set, unset, next_version: false };
    proof {
        assert(settings(r.set@) =~= deletion_wish(now as int));
        assert(r.unset@ =~= seq![UserField::DisabledAt]);
    }
    r
}

/// The account is no longer marked for deletion.
pub fn cancel_deletion_update(now: i64) -> (r: Update)
    ensures
        is_update(
            r,
            seq![(UserField::UpdatedAt, FieldView::Time(now as int))],
            seq![UserField::DeletionRequestedAt, UserField::DeletionScheduledAt],
            false,
        ),
{
    let set = one(UserField::UpdatedAt, FieldValue::Time(now));
    let mut unset: Vec<UserField> = Vec::new();
    unset.push(UserField::DeletionRequestedAt);
    unset.push(UserField::DeletionScheduledAt);
    let r = Update { set, unset, next_version: false };
    proof {
        assert(r.unset@ =~= seq![UserField::DeletionRequestedAt, UserField::DeletionScheduledAt]);
    }
    r
}

/// Taking the wish to delete an account back undoes it: an account that was in use is then as
/// before, but for the time of the change.
pub proof fn cancelling_undoes_the_wish(r: Record, then: int, now: int)
    requires
        !r.dom().contains(UserField::DeletionRequestedAt),
        !r.dom().contains(UserField::DeletionScheduledAt),
        !r.dom().contains(UserField::DisabledAt),
        r.dom().contains(UserField::IsDisabled),
        r[UserField::IsDisabled] == FieldView::Flag(false),
    ensures
        after_update(
            after_update(r, deletion_wish(then), seq![UserField::DisabledAt], false),
            seq![(UserField::UpdatedAt, FieldView::Time(now))],
            seq![UserField::DeletionRequestedAt, UserField::DeletionScheduledAt],
            false,
        ) == r.insert(UserField::UpdatedAt, FieldView::Time(now)),
{
    reveal_with_fuel(after_setting, 5);
    reveal_with_fuel(after_removing, 3);
    let wish = deletion_wish(then);
    assert(wish.drop_last() =~= seq![wish[0], wish[1], wish[2]]);
    assert(wish.drop_last().drop_last() =~= seq![wish[0], wish[1]]);
    assert(wish.drop_last().drop_last().drop_last() =~= seq![wish[0]]);
    assert(seq![UserField::DisabledAt].drop_last() =~= Seq::empty());
    let wished = after_update(r, wish, seq![UserField::DisabledAt], false);
    let only = seq![(UserField::UpdatedAt, FieldView::Time(now))];
    let gone = seq![UserField::DeletionRequestedAt, UserField::DeletionScheduledAt];
    assert(only.drop_last() =~= Seq::empty());
    assert(gone.drop_last() =~= seq![UserField::DeletionRequestedAt]);
    assert(gone.drop_last().drop_last() =~= Seq::empty());
    assert(after_update(wished, only, gone, false) =~= r.insert(
        UserField::UpdatedAt,
        FieldView::Time(now),
    ));
}

/// An account that was switched off is usable again once its user wishes to delete it.
pub proof fn a_wish_switches_the_account_on(r: Record, then: int, now: int)
    ensures
        after_update(
            after_update(r, account_off(then), Seq::empty(), false),
            deletion_wish(now),
            seq![UserField::DisabledAt],
            false,
        )[UserField::IsDisabled] == FieldView::Flag(false),
        !after_update(
            after_update(r, account_off(then), Seq::empty(), false),
            deletion_wish(now),
            seq![UserField::DisabledAt],
            false,
        ).dom().contains(UserField::DisabledAt),
{
    reveal_with_fuel(after_setting, 5);
    reveal_with_fuel(after_removing, 2);
    let wish = deletion_wish(now);
    assert(wish.drop_last() =~= seq![wish[0], wish[1], wish[2]]);
    assert(wish.last() == wish[3]);
    assert(seq![UserField::DisabledAt].drop_last() =~= Seq::empty());
}

/// What is stored of a user who is online, or of one who is not: then also since when.
pub open spec fn presence_settings(online: bool, now: i64) -> Seq<(UserField, FieldView)> {
    if online {
        seq![
            (UserField::IsOnline, FieldView::Flag(true)),
            (UserField::UpdatedAt, FieldView::Time(now as int)),
        ]
    } else {
        seq![
            (UserField::IsOnline, FieldView::Flag(false)),
            (UserField::LastSeen, FieldView::Time(now as int)),
            (UserField::UpdatedAt, FieldView::Time(now as int)),
        ]
    }
}

/// The user is online now, or no longer.
pub fn presence_update(online: bool, now: i64) -> (r: Update)
    ensures
        is_update(r, presence_settings(online, now), Seq::empty(), false),
{
    let start = one(UserField::IsOnline, FieldValue::Flag(online));
    let set = if online {
        start
    } else {
        also(start, UserField::LastSeen, FieldValue::Time(now))
    };
    let r = setting(set, now);
    proof {
        assert(settings(r.set@) =~= presence_settings(online, now));
    }
    r
}

/// The user has another state of availability; whether they are online stays.
pub fn status_update(status: String, now: i64) -> (r: Update)
    ensures
        is_update(
            r,
            seq![
                (UserField::AvailabilityStatus, FieldView::Text(status@)),
                (UserField::UpdatedAt, FieldView::Time(now as int)),
            ],
            Seq::empty(),
            false,
        ),
{
    let r = setting(one(UserField::AvailabilityStatus, FieldValue::Text(status)), now);
    proof {
        assert(settings(r.set@) =~= seq![
            (UserField::AvailabilityStatus, FieldView::Text(status@)),
            (UserField::UpdatedAt, FieldView::Time(now as int)),
        ]);
    }
    r
}

/// Each field of an account is stored under a name of its own.
pub proof fn user_fields_have_their_names(f: UserField)
    ensures
        f is Username ==> field_name_of(f) == "username",
        f is Password ==> field_name_of(f) == "password",
        f is DisplayName ==> field_name_of(f) == "displayName",
        f is Bio ==> field_name_of(f) == "bio",
        f is Image ==> field_name_of(f) == "image",
        f is Banner ==> field_name_of(f) == "banner",
        f is ProfileSetup ==> field_name_of(f) == "profileSetup",
        f is Color ==> field_name_of(f) == "color",
        f is IsDisabled ==> field_name_of(f) == "isDisabled",
        f is DisabledAt ==> field_name_of(f) == "disabledAt",
        f is DeletionRequestedAt ==> field_name_of(f) == "deletionRequestedAt",
        f is DeletionScheduledAt ==> field_name_of(f) == "deletionScheduledAt",
        f is IsOnline ==> field_name_of(f) == "isOnline",
        f is LastSeen ==> field_name_of(f) == "lastSeen",
        f is AvailabilityStatus ==> field_name_of(f) == "availabilityStatus",
        f is Language ==> field_name_of(f) == "language",
        f is MutedContacts ==> field_name_of(f) == "mutedContacts",
        f is BlockedContacts ==> field_name_of(f) == "blockedContacts",
        f is TokenVersion ==> field_name_of(f) == "tokenVersion",
        f is TwoFactorEnabled ==> field_name_of(f) == "twoFactorEnabled",
        f is TotpSecret ==> field_name_of(f) == "totpSecret",
        f is TotpPendingSecret ==> field_name_of(f) == "totpPendingSecret",
        f is BackupCodes ==> field_name_of(f) == "backupCodes",
        f is UpdatedAt ==> field_name_of(f) == "updatedAt",
{
}

/// Setting one more field stores it and leaves every other field as it was; the same holds of
/// removing one.
pub proof fn changes_touch_only_their_field(
    r: Record,
    set: Seq<(UserField, FieldView)>,
    unset: Seq<UserField>,
    f: UserField,
    v: FieldView,
    g: UserField,
)
    ensures
        after_setting(r, Seq::empty()) == r,
        after_setting(r, set.push((f, v))).dom().contains(f),
        after_setting(r, set.push((f, v)))[f] == v,
        g != f ==> (after_setting(r, set.push((f, v))).dom().contains(g) <==> after_setting(
            r,
            set,
        ).dom().contains(g)) && after_setting(r, set.push((f, v)))[g] == after_setting(r, set)[g],
        after_removing(r, Seq::empty()) == r,
        !after_removing(r, unset.push(f)).dom().contains(f),
        g != f ==> (after_removing(r, unset.push(f)).dom().contains(g) <==> after_removing(
            r,
            unset,
        ).dom().contains(g)) && after_removing(r, unset.push(f))[g] == after_removing(r, unset)[g],
        after_update(r, set, unset, false) == after_removing(after_setting(r, set), unset),
{
    assert(set.push((f, v)).drop_last() =~= set);
    assert(unset.push(f).drop_last() =~= unset);
}

/// Raising the version of tokens changes nothing but that version.
pub proof fn a_new_version_changes_only_the_version(
    r: Record,
    set: Seq<(UserField, FieldView)>,
    unset: Seq<UserField>,
    g: UserField,
)
    requires
        g != UserField::TokenVersion,
    ensures
        after_update(r, set, unset, true)[g] == after_update(r, set, unset, false)[g],
        after_update(r, set, unset, true).dom().contains(g) <==> after_update(
            r,
            set,
            unset,
            false,
        ).dom().contains(g),
{
}

/// What is missing is stored as nothing, and what is there as itself. An empty biography counts
/// as missing.
pub proof fn missing_values_are_stored_as_nothing(
    s: Option<Seq<char>>,
    n: Option<i32>,
    codes: Option<Vec<String>>,
    bio: Seq<char>,
)
    ensures
        s is None <==> text_or_null(s) is Null,
        s is Some ==> text_or_null(s) == FieldView::Text(s->0),
        n is None <==> number_or_null(n) is Null,
        n is Some ==> number_or_null(n) == FieldView::Number(n->0 as int),
        codes is None <==> codes_or_null(codes) is Null,
        codes is Some ==> codes_or_null(codes) == FieldView::Texts(texts(codes->0@)),
        bio.len() == 0 <==> stored_bio(bio) is Null,
        bio.len() > 0 ==> stored_bio(bio) == FieldView::Text(bio),
{
}

/// With a second factor the account keeps its secret and codes and nothing that waits; switching
/// it off keeps none of them. Neither touches the password or anything else.
pub proof fn factors_are_stored_whole(
    r: Record,
    pending: Seq<char>,
    codes: Seq<Seq<char>>,
    now: int,
    g: UserField,
)
    ensures
        ({
            let on = after_update(r, factor_on(pending, codes, now), Seq::empty(), false);
            let off = after_update(r, factor_off(now), Seq::empty(), false);
            let touched = g == UserField::TwoFactorEnabled || g == UserField::TotpSecret || g
                == UserField::TotpPendingSecret || g == UserField::BackupCodes || g
                == UserField::UpdatedAt;
            &&& on[UserField::TwoFactorEnabled] == FieldView::Flag(true)
            &&& on[UserField::TotpSecret] == FieldView::Text(pending)
            &&& on[UserField::TotpPendingSecret] == FieldView::Null
            &&& on[UserField::BackupCodes] == FieldView::Texts(codes)
            &&& on[UserField::UpdatedAt] == FieldView::Time(now)
            &&& off[UserField::TwoFactorEnabled] == FieldView::Flag(false)
            &&& off[UserField::TotpSecret] == FieldView::Null
            &&& off[UserField::TotpPendingSecret] == FieldView::Null
            &&& off[UserField::BackupCodes] == FieldView::Null
            &&& off[UserField::UpdatedAt] == FieldView::Time(now)
            &&& !touched ==> on[g] == r[g] && off[g] == r[g]
        }),
{
    reveal_with_fuel(after_setting, 6);
    let on = factor_on(pending, codes, now);
    let off = factor_off(now);
    assert(on.drop_last() =~= seq![on[0], on[1], on[2], on[3]]);
    assert(on.drop_last().drop_last() =~= seq![on[0], on[1], on[2]]);
    assert(on.drop_last().drop_last().drop_last() =~= seq![on[0], on[1]]);
    assert(on.drop_last().drop_last().drop_last().drop_last() =~= seq![on[0]]);
    assert(off.drop_last() =~= seq![off[0], off[1], off[2], off[3]]);
    assert(off.drop_last().drop_last() =~= seq![off[0], off[1], off[2]]);
    assert(off.drop_last().drop_last().drop_last() =~= seq![off[0], off[1]]);
    assert(off.drop_last().drop_last().drop_last().drop_last() =~= seq![off[0]]);
}

/// An account that is switched off is stored as off since now, and a wish to delete it stores the
/// wish, a time seven days later, and that it is not switched off.
pub proof fn switching_off_and_wishes_are_stored(r: Record, now: int, g: UserField)
    ensures
        ({
            let off = after_update(r, account_off(now), Seq::empty(), false);
            let wish = after_update(r, deletion_wish(now), seq![UserField::DisabledAt], false);
            &&& off[UserField::IsDisabled] == FieldView::Flag(true)
            &&& off[UserField::DisabledAt] == FieldView::Time(now)
            &&& off[UserField::UpdatedAt] == FieldView::Time(now)
            &&& off.dom().contains(UserField::DisabledAt)
            &&& wish[UserField::DeletionRequestedAt] == FieldView::Time(now)
            &&& wish[UserField::DeletionScheduledAt] == FieldView::Time(now + 604_800_000)
            &&& wish[UserField::IsDisabled] == FieldView::Flag(false)
            &&& wish[UserField::UpdatedAt] == FieldView::Time(now)
            &&& !wish.dom().contains(UserField::DisabledAt)
            &&& g != UserField::IsDisabled && g != UserField::DisabledAt && g
                != UserField::UpdatedAt ==> off[g] == r[g] && (g != UserField::DeletionRequestedAt
                && g != UserField::DeletionScheduledAt ==> wish[g] == r[g])
        }),
{
    reveal_with_fuel(after_setting, 5);
    reveal_with_fuel(after_removing, 2);
    let off = account_off(now);
    let wish = deletion_wish(now);
    assert(off.drop_last() =~= seq![off[0], off[1]]);
    assert(off.drop_last().drop_last() =~= seq![off[0]]);
    assert(wish.drop_last() =~= seq![wish[0], wish[1], wish[2]]);
    assert(wish.drop_last().drop_last() =~= seq![wish[0], wish[1]]);
    assert(wish.drop_last().drop_last().drop_last() =~= seq![wish[0]]);
    assert(seq![UserField::DisabledAt].drop_last() =~= Seq::empty());
}

/// Whoever comes is stored as online; whoever goes is stored as offline and last seen now. Nobody
/// is last seen while they are there.
pub proof fn presence_is_stored_as_it_is(r: Record, online: bool, now: i64)
    ensures
        ({
            let after = after_update(r, presence_settings(online, now), Seq::empty(), false);
            &&& after[UserField::IsOnline] == FieldView::Flag(online)
            &&& after[UserField::UpdatedAt] == FieldView::Time(now as int)
            &&& !online ==> after[UserField::LastSeen] == FieldView::Time(now as int)
            &&& online ==> after[UserField::LastSeen] == r[UserField::LastSeen]
            &&& after[UserField::AvailabilityStatus] == r[UserField::AvailabilityStatus]
        }),
{
    reveal_with_fuel(after_setting, 4);
    let s = presence_settings(online, now);
    if online {
        assert(s.drop_last() =~= seq![s[0]]);
        assert(s.drop_last().drop_last() =~= Seq::empty());
    } else {
        assert(s.drop_last() =~= seq![s[0], s[1]]);
        assert(s.drop_last().drop_last() =~= seq![s[0]]);
        assert(s.drop_last().drop_last().drop_last() =~= Seq::empty());
    }
}

/// A change is the one that is meant exactly if it sets the same fields in the same order, removes
/// the same ones and raises the version alike.
pub proof fn changes_are_told_by_their_parts(
    u: Update,
    set: Seq<(UserField, FieldView)>,
    unset: Seq<UserField>,
    next_version: bool,
    i: int,
)
    requires
        is_update(u, set, unset, next_version),
    ensures
        u.set@.len() == set.len(),
        0 <= i < set.len() ==> u.set@[i].field == set[i].0 && u.set@[i].value@ == set[i].1,
        u.unset@ == unset,
        u.next_version == next_version,
{
    assert(settings(u.set@).len() == u.set@.len());
    if 0 <= i < set.len() {
        assert(settings(u.set@)[i] == (u.set@[i].field, u.set@[i].value@));
    }
}

} // verus!
