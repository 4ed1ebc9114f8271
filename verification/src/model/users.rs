//! User accounts.
use vstd::prelude::*;
use crate::ids::ObjectId;
use crate::text::{self, all_ascii, ascii_lower};

verus! {

/// What users say about their availability.
#[derive(Clone, Copy, Debug, PartialEq, Eq, Structural)]
pub enum AvailabilityStatus {
    Online,
    Away,
    Brb,
    Dnd,
}

impl Default for AvailabilityStatus {
    fn default() -> (r: AvailabilityStatus)
        ensures
            r == AvailabilityStatus::Online,
    {
        AvailabilityStatus::Online
    }
}

/// The status that a lower-case name stands for; any other name means online.
pub open spec fn status_named(lower: Seq<char>) -> AvailabilityStatus {
    if lower == "away"@ {
        AvailabilityStatus::Away
    } else if lower == "brb"@ {
        AvailabilityStatus::Brb
    } else if lower == "dnd"@ {
        AvailabilityStatus::Dnd
    } else {
        AvailabilityStatus::Online
    }
}

/// The status that a lower-case name stands for.
pub fn status_of(lower: &str) -> (r: AvailabilityStatus)
    ensures
        r == status_named(lower@),
{
    if text::same_text(lower, "away") {
        AvailabilityStatus::Away
    } else if text::same_text(lower, "brb") {
        AvailabilityStatus::Brb
    } else if text::same_text(lower, "dnd") {
        AvailabilityStatus::Dnd
    } else {
        AvailabilityStatus::Online
    }
}

/// The language of people who chose none.
pub fn default_language() -> (r: String)
    ensures
        r@ == "en"@,
{
    "en".to_owned()
}

/// The language that a lower-case name stands for: Polish by its name, and English otherwise.
pub open spec fn language_named(lower: Seq<char>) -> Seq<char> {
    if lower == "pl"@ {
        "pl"@
    } else {
        "en"@
    }
}

/// The language that a lower-case name stands for.
pub fn language_of(lower: &str) -> (r: String)
    ensures
        r@ == language_named(lower@),
{
    if text::same_text(lower, "pl") {
        "pl".to_owned()
    } else {
        "en".to_owned()
    }
}

/// The language that a name of any case stands for, white space around it aside.
pub fn normalize_language(lang: &str) -> (r: String)
    ensures
        is_language_of(lang@, r@),
{
    let lower = text::to_lowercase(text::trim(lang));
    language_of(&lower)
}

/// Whether `r` is the language that a name of any case stands for, white space around it aside.
/// In a name of ASCII characters the letters `A` to `Z` count as `a` to `z`.
pub open spec fn is_language_of(name: Seq<char>, r: Seq<char>) -> bool {
    &&& r == language_named(text::lowercase(text::trimmed(name)))
    &&& all_ascii(text::trimmed(name)) ==> r == language_named(ascii_lower(text::trimmed(name)))
}

/// What to do next about the password of a new account.
#[derive(Clone, Copy, Debug, PartialEq, Eq, Structural)]
pub enum NewPasswordNext {
    /// It is a stored form already: keep it as it was given.
    KeepGiven,
    Hash,
    UseHashed,
    Fail,
}

/// What to do next about the password of a new account: one that is a stored form already is
/// kept, any other is hashed. `hashed` says whether that worked.
pub open spec fn new_account_password_next(already_hashed: bool, hashed: Option<bool>) -> NewPasswordNext {
    match (already_hashed, hashed) {
        (true, _) => NewPasswordNext::KeepGiven,
        (false, None) => NewPasswordNext::Hash,
        (false, Some(true)) => NewPasswordNext::UseHashed,
        (false, Some(false)) => NewPasswordNext::Fail,
    }
}

/// What to do next about the password of a new account: one that is a stored form already is
/// kept, any other is hashed. `hashed` says whether that worked.
pub fn new_account_password(already_hashed: bool, hashed: Option<bool>) -> (r: NewPasswordNext)
    ensures
        r == new_account_password_next(already_hashed, hashed),
{
    match (already_hashed, hashed) {
        (true, _) => NewPasswordNext::KeepGiven,
        (false, None) => NewPasswordNext::Hash,
        (false, Some(true)) => NewPasswordNext::UseHashed,
        (false, Some(false)) => NewPasswordNext::Fail,
    }
}

/// The password of a new account is hashed exactly once unless it is a stored form already, and
/// without a hash no account is made.
pub proof fn new_passwords_are_hashed(already_hashed: bool, hashed: Option<bool>)
    ensures
        ({
            let next = new_account_password_next(already_hashed, hashed);
            &&& next is KeepGiven <==> already_hashed
            &&& next is Hash <==> !already_hashed && hashed is None
            &&& next is UseHashed <==> !already_hashed && hashed == Some(true)
            &&& next is Fail <==> !already_hashed && hashed == Some(false)
        }),
{
}

/// A password is stored as it was given only if it is a stored form.
pub proof fn plain_passwords_are_not_stored(already_hashed: bool, hashed: Option<bool>)
    ensures
        new_account_password_next(already_hashed, hashed) is KeepGiven <==> already_hashed,
        new_account_password_next(already_hashed, hashed) is UseHashed ==> hashed == Some(true),
{
}

/// A language is always one of the two that the client knows, and normalising one of them
/// gives it back.
pub proof fn languages_are_stable(lower: Seq<char>)
    ensures
        language_named(lower) == "pl"@ || language_named(lower) == "en"@,
        language_named(language_named(lower)) == language_named(lower),
{
    reveal_strlit("pl");
    reveal_strlit("en");
    assert("pl"@[0] != "en"@[0]);
}

/// A stored flag that may be missing or null: false then.
pub fn deserialize_bool_default_false(value: Option<bool>) -> (r: bool)
    ensures
        r == (value == Some(true)),
{
    match value {
        Some(v) => v,
        None => false,
    }
}

/// A user account.
pub struct User {
    pub id: Option<ObjectId>,
    pub username: String,
    pub password: String,
    pub display_name: Option<String>,
    pub bio: Option<String>,
    pub image: Option<String>,
    pub banner: Option<String>,
    pub profile_setup: bool,
    pub color: Option<i32>,
    pub is_active: bool,
    pub is_blocked: bool,
    pub is_banned: bool,
    pub block_reason: Option<String>,
    pub blocked_at: Option<i64>,
    pub is_disabled: bool,
    pub disabled_at: Option<i64>,
    pub deletion_requested_at: Option<i64>,
    pub deletion_scheduled_at: Option<i64>,
    pub is_online: bool,
    pub availability_status: AvailabilityStatus,
    pub last_seen: Option<i64>,
    pub language: String,
    pub muted_channels: Vec<ObjectId>,
    pub muted_contacts: Vec<ObjectId>,
    pub blocked_contacts: Vec<ObjectId>,
    pub token_version: i32,
    pub two_factor_enabled: bool,
    pub totp_secret: Option<String>,
    pub totp_pending_secret: Option<String>,
    pub backup_codes: Option<Vec<String>>,
    pub created_at: i64,
    pub updated_at: i64,
}

/// What a new account is made of.
pub struct CreateUserInput {
    pub username: String,
    pub password: String,
    pub language: Option<String>,
}

/// Why a new account is refused.
#[derive(Clone, Copy, Debug, PartialEq, Eq, Structural)]
pub enum UserValidationError {
    UsernameRequired,
    UsernameTooShort,
    UsernameTooLong,
    UsernameInvalidChars,
    PasswordRequired,
    PasswordTooShort,
}

impl UserValidationError {
    /// What the reason says.
    pub open spec fn text(self) -> &'static str {
        match self {
            UserValidationError::UsernameRequired => "Username is required",
            UserValidationError::UsernameTooShort => "Username must be at least 3 characters",
            UserValidationError::UsernameTooLong => "Username must be at most 32 characters",
            UserValidationError::UsernameInvalidChars =>
                "Username may only contain lowercase letters, numbers and underscores",
            UserValidationError::PasswordRequired => "Password is required",
            UserValidationError::PasswordTooShort => "Password must be at least 8 characters",
        }
    }

    /// What the reason says.
    pub fn message(self) -> (r: &'static str)
        ensures
            r == self.text(),
    {
        match self {
            UserValidationError::UsernameRequired => "Username is required",
            UserValidationError::UsernameTooShort => "Username must be at least 3 characters",
            UserValidationError::UsernameTooLong => "Username must be at most 32 characters",
            UserValidationError::UsernameInvalidChars =>
                "Username may only contain lowercase letters, numbers and underscores",
            UserValidationError::PasswordRequired => "Password is required",
            UserValidationError::PasswordTooShort => "Password must be at least 8 characters",
        }
    }
}

/// A character that a username may hold: a lower-case letter, a digit or an underscore.
pub open spec fn is_username_char(c: char) -> bool {
    ('a' <= c && c <= 'z') || ('0' <= c && c <= '9') || c == '_'
}

/// A username: 3 to 32 lower-case letters, digits and underscores.
pub open spec fn is_username(s: Seq<char>) -> bool {
    3 <= s.len() <= 32 && forall|i: int| 0 <= i < s.len() ==> is_username_char(#[trigger] s[i])
}

/// Whether a text can be a username.
pub fn is_valid_username(s: &str) -> (r: bool)
    ensures
        r == is_username(s@),
{
    let v = text::chars_of(s);
    if v.len() < 3 || v.len() > 32 {
        return false;
    }
    let mut i: usize = 0;
    while i < v.len()
        invariant
            i <= v.len(),
            v@ == s@,
            forall|k: int| 0 <= k < i ==> is_username_char(#[trigger] s@[k]),
        decreases v.len() - i,
    {
        let c = v[i];
        if !(('a' <= c && c <= 'z') || ('0' <= c && c <= '9') || c == '_') {
            return false;
        }
        i = i + 1;
    }
    true
}

/// Whether an account can be made: the first thing that is wrong with the trimmed username,
/// and then with the password, lengths being in bytes.
pub open spec fn validated(input: CreateUserInput) -> Result<(), UserValidationError> {
    let username = text::trimmed(input.username@);
    if username.len() == 0 {
        Err(UserValidationError::UsernameRequired)
    } else if text::byte_len(username) < 3 {
        Err(UserValidationError::UsernameTooShort)
    } else if text::byte_len(username) > 32 {
        Err(UserValidationError::UsernameTooLong)
    } else if !is_username(username) {
        Err(UserValidationError::UsernameInvalidChars)
    } else if text::trimmed(input.password@).len() == 0 {
        Err(UserValidationError::PasswordRequired)
    } else if text::byte_len(input.password@) < 8 {
        Err(UserValidationError::PasswordTooShort)
    } else {
        Ok(())
    }
}

/// Whether an account can be made: the first thing that is wrong with the trimmed username,
/// and then with the password, lengths being in bytes.
pub fn validate_user(input: &CreateUserInput) -> (r: Result<(), UserValidationError>)
    ensures
        r == validated(*input),
{
    let username = text::trim(&input.username);
    if username.is_empty() {
        Err(UserValidationError::UsernameRequired)
    } else if text::len_bytes(username) < 3 {
        Err(UserValidationError::UsernameTooShort)
    } else if text::len_bytes(username) > 32 {
        Err(UserValidationError::UsernameTooLong)
    } else if !is_valid_username(username) {
        Err(UserValidationError::UsernameInvalidChars)
    } else if text::is_blank(&input.password) {
        Err(UserValidationError::PasswordRequired)
    } else if text::len_bytes(&input.password) < 8 {
        Err(UserValidationError::PasswordTooShort)
    } else {
        Ok(())
    }
}

/// An account that can be made has a username of 3 to 32 allowed characters and a password of
/// at least 8 bytes that is not blank.
pub proof fn valid_accounts_have_valid_names(input: CreateUserInput)
    requires
        validated(input) is Ok,
    ensures
        is_username(text::trimmed(input.username@)),
        text::trimmed(input.password@).len() > 0,
        text::byte_len(input.password@) >= 8,
{
}

impl User {
    /// Whether the account may be used.
    pub open spec fn may_log_in(self) -> bool {
        self.is_active && !self.is_disabled && !self.is_blocked && !self.is_banned
    }

    /// Whether the account may be used.
    pub fn is_login_allowed(&self) -> (r: bool)
        ensures
            r == self.may_log_in(),
    {
        self.is_active && !self.is_disabled && !self.is_blocked && !self.is_banned
    }

    /// Whether the account is going to be deleted.
    pub fn is_pending_deletion(&self) -> (r: bool)
        ensures
            r == (self.deletion_scheduled_at is Some),
    {
        self.deletion_scheduled_at.is_some()
    }

    /// Whether this is an account as it is made at first: of this name and password, in this
    /// language, active, and otherwise empty.
    pub open spec fn is_fresh(
        self,
        username: Seq<char>,
        password: Seq<char>,
        language: Seq<char>,
        now: i64,
    ) -> bool {
        &&& self.id is None
        &&& self.username@ == username
        &&& self.password@ == password
        &&& self.display_name is None && self.bio is None && self.image is None && self.banner
            is None
        &&& !self.profile_setup && self.color is None
        &&& self.is_active && !self.is_blocked && !self.is_banned && !self.is_disabled
        &&& self.block_reason is None && self.blocked_at is None && self.disabled_at is None
        &&& self.deletion_requested_at is None && self.deletion_scheduled_at is None
        &&& !self.is_online && self.availability_status == AvailabilityStatus::Online
            && self.last_seen is None
        &&& self.language@ == language
        &&& self.muted_channels@.len() == 0 && self.muted_contacts@.len() == 0
            && self.blocked_contacts@.len() == 0
        &&& self.token_version == 0
        &&& !self.two_factor_enabled && self.totp_secret is None && self.totp_pending_secret
            is None && self.backup_codes is None
        &&& self.created_at == now && self.updated_at == now
    }

    /// Makes a new account. `username` is the normalised name, `password` what is stored for
    /// the password, `now` the time.
    pub fn create(input: &CreateUserInput, username: String, password: String, now: i64) -> (r:
        Result<User, UserValidationError>)
        ensures
            match validated(*input) {
                Err(e) => r == Err::<User, UserValidationError>(e),
                Ok(()) => r matches Ok(u) && {
                    &&& u.is_fresh(username@, password@, u.language@, now)
                    &&& match input.language {
                        Some(l) => is_language_of(l@, u.language@),
                        None => u.language@ == "en"@,
                    }
                },
            },
    {
        match validate_user(input) {
            Err(e) => Err(e),
            Ok(()) => {
                let language = match &input.language {
                    Some(l) => normalize_language(l),
                    None => default_language(),
                };
                Ok(
                    User {
                        id: None,
                        username,
                        password,
                        display_name: None,
                        bio: None,
                        image: None,
                        banner: None,
                        profile_setup: false,
                        color: None,
                        is_active: true,
                        is_blocked: false,
                        is_banned: false,
                        block_reason: None,
                        blocked_at: None,
                        is_disabled: false,
                        disabled_at: None,
                        deletion_requested_at: None,
                        deletion_scheduled_at: None,
                        is_online: false,
                        availability_status: AvailabilityStatus::Online,
                        last_seen: None,
                        language,
                        muted_channels: Vec::new(),
                        muted_contacts: Vec::new(),
                        blocked_contacts: Vec::new(),
                        token_version: 0,
                        two_factor_enabled: false,
                        totp_secret: None,
                        totp_pending_secret: None,
                        backup_codes: None,
                        created_at: now,
                        updated_at: now,
                    },
                )
            },
        }
    }
}

/// A new account may be used.
pub proof fn fresh_accounts_may_log_in(
    u: User,
    username: Seq<char>,
    password: Seq<char>,
    language: Seq<char>,
    now: i64,
)
    requires
        u.is_fresh(username, password, language, now),
    ensures
        u.may_log_in(),
{
}

/// What a login by name and password comes to.
#[derive(Clone, Copy, Debug, PartialEq, Eq, Structural)]
pub enum LoginCheck {
    Passed,
    UnknownUser,
    WrongPassword,
    Unavailable,
}

/// What a login by name and password comes to. `found` says whether there is such a user,
/// `verified` what the check of the password said.
pub open spec fn login_check_of(found: bool, verified: Result<bool, ()>) -> LoginCheck {
    if !found {
        LoginCheck::UnknownUser
    } else {
        match verified {
            Ok(true) => LoginCheck::Passed,
            Ok(false) => LoginCheck::WrongPassword,
            Err(_) => LoginCheck::Unavailable,
        }
    }
}

/// What a login by name and password comes to. `found` says whether there is such a user,
/// `verified` what the check of the password said.
pub fn login_check(found: bool, verified: Result<bool, ()>) -> (r: LoginCheck)
    ensures
        r == login_check_of(found, verified),
{
    if !found {
        LoginCheck::UnknownUser
    } else {
        match verified {
            Ok(true) => LoginCheck::Passed,
            Ok(false) => LoginCheck::WrongPassword,
            Err(_) => LoginCheck::Unavailable,
        }
    }
}

/// Three names stand for a state of their own, and every other text for being online.
pub proof fn only_known_names_are_states(lower: Seq<char>)
    ensures
        status_named(lower) is Away <==> lower == "away"@,
        status_named(lower) is Brb <==> lower == "brb"@,
        status_named(lower) is Dnd <==> lower == "dnd"@,
        status_named(lower) is Online <==> lower != "away"@ && lower != "brb"@ && lower != "dnd"@,
        language_named(lower) == "pl"@ <==> lower == "pl"@,
        language_named(lower) == "en"@ <==> lower != "pl"@,
{
    reveal_strlit("away");
    reveal_strlit("brb");
    reveal_strlit("dnd");
    reveal_strlit("pl");
    reveal_strlit("en");
    assert("away"@.len() == 4 && "brb"@.len() == 3 && "dnd"@.len() == 3);
    assert("brb"@[0] == 'b' && "dnd"@[0] == 'd');
    assert("pl"@[0] == 'p' && "en"@[0] == 'e');
}

/// Exactly lower-case letters, digits and underscores may stand in a username, and it has
/// between three and thirty-two of them.
pub proof fn usernames_hold_allowed_characters(s: Seq<char>, c: char)
    ensures
        is_username_char(c) <==> 97 <= c as u32 <= 122 || 48 <= c as u32 <= 57 || c as u32 == 95,
        is_username(s) ==> 3 <= s.len() && s.len() <= 32,
        is_username(s) && s.len() < 32 ==> (is_username(s.push(c)) <==> is_username_char(c)),
        s.len() >= 3 && is_username(s.push(c)) ==> is_username(s),
        s.len() == 3 ==> (is_username(s) <==> is_username_char(s[0]) && is_username_char(s[1])
            && is_username_char(s[2])),
{
    if is_username(s) && s.len() < 32 {
        assert(s.push(c)[s.len() as int] == c);
        if is_username_char(c) {
            assert forall|i: int| 0 <= i < s.push(c).len() implies is_username_char(
                #[trigger] s.push(c)[i],
            ) by {
                if i < s.len() {
                    assert(is_username_char(s[i]));
                }
            }
        }
    }
    if s.len() >= 3 && is_username(s.push(c)) {
        assert forall|i: int| 0 <= i < s.len() implies is_username_char(#[trigger] s[i]) by {
            assert(is_username_char(s.push(c)[i]));
        }
    }
}

/// Each reason for refusing an account is given exactly where it holds and none before it does.
pub proof fn accounts_are_refused_for_the_first_reason(input: CreateUserInput)
    ensures
        ({
            let name = text::trimmed(input.username@);
            let bytes = text::byte_len(name);
            let blank = text::trimmed(input.password@).len() == 0;
            let r = validated(input);
            let fits = name.len() > 0 && 3 <= bytes <= 32;
            &&& r == Err::<(), UserValidationError>(UserValidationError::UsernameRequired)
                <==> name.len() == 0
            &&& r == Err::<(), UserValidationError>(UserValidationError::UsernameTooShort)
                <==> name.len() > 0 && bytes < 3
            &&& r == Err::<(), UserValidationError>(UserValidationError::UsernameTooLong)
                <==> name.len() > 0 && bytes > 32
            &&& r == Err::<(), UserValidationError>(UserValidationError::UsernameInvalidChars)
                <==> fits && !is_username(name)
            &&& r == Err::<(), UserValidationError>(UserValidationError::PasswordRequired)
                <==> fits && is_username(name) && blank
            &&& r == Err::<(), UserValidationError>(UserValidationError::PasswordTooShort)
                <==> fits && is_username(name) && !blank && text::byte_len(input.password@) < 8
            &&& r == Ok::<(), UserValidationError>(()) <==> fits && is_username(name) && !blank
                && text::byte_len(input.password@) >= 8
        }),
{
}

/// Each reason for refusing an account is told in words of its own.
pub proof fn refusals_say_what_is_wrong(e: UserValidationError)
    ensures
        e is UsernameRequired ==> e.text() == "Username is required",
        e is UsernameTooShort ==> e.text() == "Username must be at least 3 characters",
        e is UsernameTooLong ==> e.text() == "Username must be at most 32 characters",
        e is UsernameInvalidChars ==> e.text()
            == "Username may only contain lowercase letters, numbers and underscores",
        e is PasswordRequired ==> e.text() == "Password is required",
        e is PasswordTooShort ==> e.text() == "Password must be at least 8 characters",
{
}

/// An account may be used exactly while it is active and neither switched off, blocked nor
/// banned; each of these alone keeps its user out.
pub proof fn each_ban_keeps_its_user_out(u: User)
    ensures
        u.may_log_in() ==> u.is_active,
        u.is_disabled || u.is_blocked || u.is_banned || !u.is_active ==> !u.may_log_in(),
        u.is_active && !(u.is_disabled || u.is_blocked || u.is_banned) ==> u.may_log_in(),
{
}

/// A new account can be used at once, keeps the name and password it was made with, and has no
/// second factor, no picture and nobody muted or blocked.
pub proof fn fresh_accounts_are_usable(
    u: User,
    username: Seq<char>,
    password: Seq<char>,
    language: Seq<char>,
    now: i64,
)
    requires
        u.is_fresh(username, password, language, now),
    ensures
        u.is_active && !u.is_disabled && !u.is_blocked && !u.is_banned,
        u.deletion_scheduled_at is None && u.deletion_requested_at is None && u.disabled_at is None,
        u.username@ == username && u.password@ == password && u.language@ == language,
        !u.two_factor_enabled && u.totp_secret is None && u.totp_pending_secret is None
            && u.backup_codes is None,
        u.muted_channels@.len() == 0 && u.muted_contacts@.len() == 0 && u.blocked_contacts@.len()
            == 0,
        u.id is None && u.image is None && u.banner is None && u.bio is None && u.display_name
            is None && u.color is None && u.block_reason is None && u.blocked_at is None,
        !u.profile_setup && !u.is_online && u.last_seen is None && u.token_version == 0,
        u.availability_status == AvailabilityStatus::Online,
        u.created_at == now && u.updated_at == now,
{
}

/// A language is Polish exactly if its name is `pl` in any case, white space around it aside.
pub proof fn polish_is_named_pl(name: Seq<char>, r: Seq<char>)
    requires
        is_language_of(name, r),
        all_ascii(text::trimmed(name)),
    ensures
        r == "pl"@ <==> ascii_lower(text::trimmed(name)) == "pl"@,
        r == "en"@ <==> ascii_lower(text::trimmed(name)) != "pl"@,
{
    only_known_names_are_states(ascii_lower(text::trimmed(name)));
}

/// Only a password that was checked and found right lets anybody in; an unknown user is refused
/// before the password counts.
pub proof fn only_right_passwords_pass(found: bool, verified: Result<bool, ()>)
    ensures
        login_check_of(found, verified) is Passed <==> found && verified == Ok::<bool, ()>(true),
        login_check_of(found, verified) is WrongPassword <==> found && verified == Ok::<bool, ()>(
            false,
        ),
        login_check_of(found, verified) is Unavailable <==> found && verified is Err,
        login_check_of(found, verified) is UnknownUser <==> !found,
{
    assert(verified is Ok ==> verified == Ok::<bool, ()>(verified->Ok_0));
}

} // verus!
