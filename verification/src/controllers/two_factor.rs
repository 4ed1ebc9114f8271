//! Second factors, passwords and usernames of an account.
use vstd::prelude::*;
use crate::answers::{Answer, Lookup, Written};
use crate::controllers::login::{check_code, check_code_next, CodeFacts, CodeNext};
use crate::controllers::signup::PasswordBreachCheck;
use crate::controllers::step_up::{step_up, step_up_next, PasswordCheck, StepUpFacts, StepUpNext};
use crate::ids::ObjectId;
use crate::model::users::{is_username, is_valid_username};
use crate::reply::{coded_reply, internal_error, message_reply, require_user, slow_reply, text_reply, unavailable, user_not_found, AuthStyle, Reply};
use crate::text::{self, text_or_empty, trimmed};

verus! {

/// The password for starting to set up a second factor.
pub struct SetupTwoFactorBody {
    pub password: Option<String>,
}

/// The password and a code, for switching a second factor on.
pub struct TwoFactorCodeBody {
    pub password: Option<String>,
    pub code: Option<String>,
}

/// The password and a code, for switching a second factor off.
pub struct TwoFactorDisableBody {
    pub password: Option<String>,
    pub code: Option<String>,
}

/// The old and the new password, and a code.
pub struct ChangePasswordBody {
    pub current_password: Option<String>,
    pub new_password: Option<String>,
    pub code: Option<String>,
}

/// The new username, the password, and a code.
pub struct ChangeUsernameBody {
    pub username: Option<String>,
    pub password: Option<String>,
    pub code: Option<String>,
}

/// Whether an optional text is blank.
pub open spec fn blank_field(s: Option<String>) -> bool {
    trimmed(text_or_empty(s)).len() == 0
}

/// Whether an optional text is blank.
pub fn is_blank_field(s: &Option<String>) -> (r: bool)
    ensures
        r == blank_field(*s),
{
    text::is_blank(text::or_empty(s))
}

/// What a lookup of one's own account said, as far as second factors depend on it.
#[derive(Clone, Copy, Debug, PartialEq, Eq, Structural)]
pub enum OwnLookup {
    /// `enabled`: whether there is a second factor; `pending`: whether one is being set up.
    Found { enabled: bool, pending: bool },
    Missing,
    Failed,
}

/// What is known so far about setting up a second factor.
#[derive(Clone, Copy, Debug)]
pub struct SetupFacts {
    pub account: Option<OwnLookup>,
    pub password: Option<PasswordCheck>,
    /// Whether the new secret could be encrypted.
    pub encrypted: Option<bool>,
    pub saved: Option<Written>,
}

/// What to do next about setting up a second factor.
#[derive(Clone, Copy, Debug)]
pub enum SetupNext {
    Reply(Reply),
    FindAccount(ObjectId),
    CheckPassword,
    /// Make a secret and encrypt it.
    EncryptSecret,
    SavePending,
    /// Show the secret.
    ShowSecret,
}

/// What to do next about setting up a second factor.
pub open spec fn setup_two_factor_next(user_id: &Option<String>, body: &SetupTwoFactorBody, facts: &SetupFacts) -> SetupNext {
    match require_user(user_id, AuthStyle::Plain) {
        Err(reply) => SetupNext::Reply(reply),
        Ok(id) => if blank_field(body.password) {
            SetupNext::Reply(
                message_reply(400, "Password is required to start two-factor setup."),
            )
        } else {
            match (facts.account, facts.password) {
                (None, _) => SetupNext::FindAccount(id),
                (Some(OwnLookup::Missing), _) => SetupNext::Reply(user_not_found()),
                (Some(OwnLookup::Failed), _) => SetupNext::Reply(internal_error()),
                (Some(OwnLookup::Found { .. }), None) => SetupNext::CheckPassword,
                (Some(OwnLookup::Found { .. }), Some(PasswordCheck::Unavailable)) =>
                    SetupNext::Reply(unavailable()),
                (Some(OwnLookup::Found { .. }), Some(PasswordCheck::Differs)) => SetupNext::Reply(
                    slow_reply(400, "Invalid password."),
                ),
                (Some(OwnLookup::Found { enabled, .. }), Some(PasswordCheck::Matches)) => if enabled {
                    SetupNext::Reply(
                        message_reply(400, "Two-factor authentication is already enabled."),
                    )
                } else {
                    match (facts.encrypted, facts.saved) {
                        (None, _) => SetupNext::EncryptSecret,
                        (Some(false), _) => SetupNext::Reply(internal_error()),
                        (Some(true), None) => SetupNext::SavePending,
                        (Some(true), Some(Written::Done)) => SetupNext::ShowSecret,
                        (Some(true), Some(Written::Missing)) => SetupNext::Reply(user_not_found()),
                        (Some(true), Some(Written::Failed)) => SetupNext::Reply(internal_error()),
                    }
                },
            }
        },
    }
}

/// What to do next about setting up a second factor.
pub fn setup_two_factor(user_id: &Option<String>, body: &SetupTwoFactorBody, facts: &SetupFacts) -> (r: SetupNext)
    ensures
        r == setup_two_factor_next(user_id, body, facts),
{
    match require_user(user_id, AuthStyle::Plain) {
        Err(reply) => SetupNext::Reply(reply),
        Ok(id) => if is_blank_field(&body.password) {
            SetupNext::Reply(
                message_reply(400, "Password is required to start two-factor setup."),
            )
        } else {
            match (facts.account, facts.password) {
                (None, _) => SetupNext::FindAccount(id),
                (Some(OwnLookup::Missing), _) => SetupNext::Reply(user_not_found()),
                (Some(OwnLookup::Failed), _) => SetupNext::Reply(internal_error()),
                (Some(OwnLookup::Found { .. }), None) => SetupNext::CheckPassword,
                (Some(OwnLookup::Found { .. }), Some(PasswordCheck::Unavailable)) =>
                    SetupNext::Reply(unavailable()),
                (Some(OwnLookup::Found { .. }), Some(PasswordCheck::Differs)) => SetupNext::Reply(
                    slow_reply(400, "Invalid password."),
                ),
                (Some(OwnLookup::Found { enabled, .. }), Some(PasswordCheck::Matches)) => if enabled {
                    SetupNext::Reply(
                        message_reply(400, "Two-factor authentication is already enabled."),
                    )
                } else {
                    match (facts.encrypted, facts.saved) {
                        (None, _) => SetupNext::EncryptSecret,
                        (Some(false), _) => SetupNext::Reply(internal_error()),
                        (Some(true), None) => SetupNext::SavePending,
                        (Some(true), Some(Written::Done)) => SetupNext::ShowSecret,
                        (Some(true), Some(Written::Missing)) => SetupNext::Reply(user_not_found()),
                        (Some(true), Some(Written::Failed)) => SetupNext::Reply(internal_error()),
                    }
                },
            }
        },
    }
}

/// What is known so far about switching a second factor on.
#[derive(Clone, Copy, Debug)]
pub struct EnableFacts {
    pub account: Option<OwnLookup>,
    pub password: Option<PasswordCheck>,
    /// Whether the secret that is being set up could be decrypted.
    pub decrypted: Option<bool>,
    /// Whether the code is right; an error if that could not be found out.
    pub code: Option<Result<bool, ()>>,
    /// Whether backup codes could be made and hashed.
    pub hashed: Option<bool>,
    pub saved: Option<Written>,
    /// Whether the other sessions were ended.
    pub others_revoked: bool,
}

/// What to do next about switching a second factor on.
#[derive(Clone, Copy, Debug)]
pub enum EnableNext {
    Reply(Reply),
    FindAccount(ObjectId),
    CheckPassword,
    DecryptPending,
    VerifyCode,
    MakeBackupCodes,
    Save,
    RevokeOthers(ObjectId),
    /// Answer, with the backup codes.
    ShowCodes(Reply),
}

/// What to do next about switching a second factor on, once the password is right.
pub open spec fn enable_checked_next(id: ObjectId, pending: bool, facts: &EnableFacts) -> EnableNext {
    if !pending {
        EnableNext::Reply(message_reply(400, "Two-factor setup has not been started."))
    } else {
        match (facts.decrypted, facts.code, facts.hashed, facts.saved) {
            (None, _, _, _) => EnableNext::DecryptPending,
            (Some(false), _, _, _) => EnableNext::Reply(unavailable()),
            (Some(true), None, _, _) => EnableNext::VerifyCode,
            (Some(true), Some(Err(_)), _, _) => EnableNext::Reply(unavailable()),
            (Some(true), Some(Ok(false)), _, _) => EnableNext::Reply(
                slow_reply(400, "Invalid authentication code."),
            ),
            (Some(true), Some(Ok(true)), None, _) => EnableNext::MakeBackupCodes,
            (Some(true), Some(Ok(true)), Some(false), _) => EnableNext::Reply(unavailable()),
            (Some(true), Some(Ok(true)), Some(true), None) => EnableNext::Save,
            (Some(true), Some(Ok(true)), Some(true), Some(Written::Missing)) => EnableNext::Reply(
                user_not_found(),
            ),
            (Some(true), Some(Ok(true)), Some(true), Some(Written::Failed)) => EnableNext::Reply(
                internal_error(),
            ),
            (Some(true), Some(Ok(true)), Some(true), Some(Written::Done)) => if facts.others_revoked {
                EnableNext::ShowCodes(
                    message_reply(200, "Two-factor authentication enabled."),
                )
            } else {
                EnableNext::RevokeOthers(id)
            },
        }
    }
}

/// What to do next about switching a second factor on, once the password is right.
pub fn enable_checked(id: ObjectId, pending: bool, facts: &EnableFacts) -> (r: EnableNext)
    ensures
        r == enable_checked_next(id, pending, facts),
{
    if !pending {
        EnableNext::Reply(message_reply(400, "Two-factor setup has not been started."))
    } else {
        match (facts.decrypted, facts.code, facts.hashed, facts.saved) {
            (None, _, _, _) => EnableNext::DecryptPending,
            (Some(false), _, _, _) => EnableNext::Reply(unavailable()),
            (Some(true), None, _, _) => EnableNext::VerifyCode,
            (Some(true), Some(Err(_)), _, _) => EnableNext::Reply(unavailable()),
            (Some(true), Some(Ok(false)), _, _) => EnableNext::Reply(
                slow_reply(400, "Invalid authentication code."),
            ),
            (Some(true), Some(Ok(true)), None, _) => EnableNext::MakeBackupCodes,
            (Some(true), Some(Ok(true)), Some(false), _) => EnableNext::Reply(unavailable()),
            (Some(true), Some(Ok(true)), Some(true), None) => EnableNext::Save,
            (Some(true), Some(Ok(true)), Some(true), Some(Written::Missing)) => EnableNext::Reply(
                user_not_found(),
            ),
            (Some(true), Some(Ok(true)), Some(true), Some(Written::Failed)) => EnableNext::Reply(
                internal_error(),
            ),
            (Some(true), Some(Ok(true)), Some(true), Some(Written::Done)) => if facts.others_revoked {
                EnableNext::ShowCodes(
                    message_reply(200, "Two-factor authentication enabled."),
                )
            } else {
                EnableNext::RevokeOthers(id)
            },
        }
    }
}

/// What to do next about switching a second factor on.
pub open spec fn enable_two_factor_next(user_id: &Option<String>, body: &TwoFactorCodeBody, facts: &EnableFacts) -> EnableNext {
    match require_user(user_id, AuthStyle::Plain) {
        Err(reply) => EnableNext::Reply(reply),
        Ok(id) => if blank_field(body.code) || blank_field(body.password) {
            EnableNext::Reply(message_reply(400, "Password and authentication code are required."))
        } else {
            match (facts.account, facts.password) {
                (None, _) => EnableNext::FindAccount(id),
                (Some(OwnLookup::Missing), _) => EnableNext::Reply(user_not_found()),
                (Some(OwnLookup::Failed), _) => EnableNext::Reply(internal_error()),
                (Some(OwnLookup::Found { .. }), None) => EnableNext::CheckPassword,
                (Some(OwnLookup::Found { .. }), Some(PasswordCheck::Unavailable)) =>
                    EnableNext::Reply(unavailable()),
                (Some(OwnLookup::Found { .. }), Some(PasswordCheck::Differs)) => EnableNext::Reply(
                    slow_reply(400, "Invalid password."),
                ),
                (Some(OwnLookup::Found { enabled, pending }), Some(PasswordCheck::Matches)) => if enabled {
                    EnableNext::Reply(
                        message_reply(400, "Two-factor authentication is already enabled."),
                    )
                } else {
                    enable_checked_next(id, pending, facts)
                },
            }
        },
    }
}

/// What to do next about switching a second factor on.
pub fn enable_two_factor(user_id: &Option<String>, body: &TwoFactorCodeBody, facts: &EnableFacts) -> (r: EnableNext)
    ensures
        r == enable_two_factor_next(user_id, body, facts),
{
    match require_user(user_id, AuthStyle::Plain) {
        Err(reply) => EnableNext::Reply(reply),
        Ok(id) => if is_blank_field(&body.code) || is_blank_field(&body.password) {
            EnableNext::Reply(message_reply(400, "Password and authentication code are required."))
        } else {
            match (facts.account, facts.password) {
                (None, _) => EnableNext::FindAccount(id),
                (Some(OwnLookup::Missing), _) => EnableNext::Reply(user_not_found()),
                (Some(OwnLookup::Failed), _) => EnableNext::Reply(internal_error()),
                (Some(OwnLookup::Found { .. }), None) => EnableNext::CheckPassword,
                (Some(OwnLookup::Found { .. }), Some(PasswordCheck::Unavailable)) =>
                    EnableNext::Reply(unavailable()),
                (Some(OwnLookup::Found { .. }), Some(PasswordCheck::Differs)) => EnableNext::Reply(
                    slow_reply(400, "Invalid password."),
                ),
                (Some(OwnLookup::Found { enabled, pending }), Some(PasswordCheck::Matches)) => if enabled {
                    EnableNext::Reply(
                        message_reply(400, "Two-factor authentication is already enabled."),
                    )
                } else {
                    enable_checked(id, pending, facts)
                },
            }
        },
    }
}

/// A second factor is switched on only with the right password and a right code for the
/// secret that was set up.
pub proof fn enabling_needs_password_and_code(
    user_id: &Option<String>,
    body: &TwoFactorCodeBody,
    facts: &EnableFacts,
)
    ensures
        enable_two_factor_next(user_id, body, facts) is Save || enable_two_factor_next(
            user_id,
            body,
            facts,
        ) is ShowCodes ==> {
            &&& facts.account == Some(OwnLookup::Found { enabled: false, pending: true })
            &&& facts.password == Some(PasswordCheck::Matches)
            &&& facts.code == Some(Ok::<bool, ()>(true))
            &&& facts.hashed == Some(true)
        },
{
}

/// What is known so far about switching a second factor off.
#[derive(Clone, Copy, Debug)]
pub struct DisableFacts {
    pub account: Option<OwnLookup>,
    pub password: Option<PasswordCheck>,
    pub code: CodeFacts,
    pub saved: Option<Written>,
    pub others_revoked: bool,
}

/// What to do next about switching a second factor off.
#[derive(Clone, Copy, Debug)]
pub enum DisableNext {
    Reply(Reply),
    FindAccount(ObjectId),
    CheckPassword,
    Code(CodeNext),
    Save,
    RevokeOthers(ObjectId),
    Disabled(Reply),
}

/// What to do next about switching a second factor off. The password counts as it is, white
/// space and all.
pub open spec fn disable_two_factor_next(user_id: &Option<String>, body: &TwoFactorDisableBody, facts: &DisableFacts) -> DisableNext {
    match require_user(user_id, AuthStyle::Plain) {
        Err(reply) => DisableNext::Reply(reply),
        Ok(id) => if text_or_empty(body.password).len() == 0 || blank_field(body.code) {
            DisableNext::Reply(
                message_reply(400, "Password and authentication code are required."),
            )
        } else {
            match (facts.account, facts.password) {
                (None, _) => DisableNext::FindAccount(id),
                (Some(OwnLookup::Missing), _) => DisableNext::Reply(user_not_found()),
                (Some(OwnLookup::Failed), _) => DisableNext::Reply(internal_error()),
                (Some(OwnLookup::Found { enabled: false, .. }), _) => DisableNext::Reply(
                    message_reply(400, "Two-factor authentication is not enabled."),
                ),
                (Some(OwnLookup::Found { enabled: true, .. }), None) => DisableNext::CheckPassword,
                (Some(OwnLookup::Found { enabled: true, .. }), Some(PasswordCheck::Unavailable)) =>
                    DisableNext::Reply(unavailable()),
                (Some(OwnLookup::Found { enabled: true, .. }), Some(PasswordCheck::Differs)) =>
                    DisableNext::Reply(slow_reply(400, "Invalid password.")),
                (Some(OwnLookup::Found { enabled: true, .. }), Some(PasswordCheck::Matches)) =>
                    match check_code(facts.code) {
                    CodeNext::Unavailable => DisableNext::Reply(unavailable()),
                    CodeNext::Wrong => DisableNext::Reply(
                        slow_reply(400, "Invalid authentication code."),
                    ),
                    CodeNext::Right { .. } => match facts.saved {
                        None => DisableNext::Save,
                        Some(Written::Missing) => DisableNext::Reply(user_not_found()),
                        Some(Written::Failed) => DisableNext::Reply(internal_error()),
                        Some(Written::Done) => if facts.others_revoked {
                            DisableNext::Disabled(
                                message_reply(200, "Two-factor authentication disabled."),
                            )
                        } else {
                            DisableNext::RevokeOthers(id)
                        },
                    },
                    more => DisableNext::Code(more),
                },
            }
        },
    }
}

/// What to do next about switching a second factor off. The password counts as it is, white
/// space and all.
pub fn disable_two_factor(user_id: &Option<String>, body: &TwoFactorDisableBody, facts: &DisableFacts) -> (r: DisableNext)
    ensures
        r == disable_two_factor_next(user_id, body, facts),
{
    match require_user(user_id, AuthStyle::Plain) {
        Err(reply) => DisableNext::Reply(reply),
        Ok(id) => if text::or_empty(&body.password).is_empty() || is_blank_field(&body.code) {
            DisableNext::Reply(
                message_reply(400, "Password and authentication code are required."),
            )
        } else {
            match (facts.account, facts.password) {
                (None, _) => DisableNext::FindAccount(id),
                (Some(OwnLookup::Missing), _) => DisableNext::Reply(user_not_found()),
                (Some(OwnLookup::Failed), _) => DisableNext::Reply(internal_error()),
                (Some(OwnLookup::Found { enabled: false, .. }), _) => DisableNext::Reply(
                    message_reply(400, "Two-factor authentication is not enabled."),
                ),
                (Some(OwnLookup::Found { enabled: true, .. }), None) => DisableNext::CheckPassword,
                (Some(OwnLookup::Found { enabled: true, .. }), Some(PasswordCheck::Unavailable)) =>
                    DisableNext::Reply(unavailable()),
                (Some(OwnLookup::Found { enabled: true, .. }), Some(PasswordCheck::Differs)) =>
                    DisableNext::Reply(slow_reply(400, "Invalid password.")),
                (Some(OwnLookup::Found { enabled: true, .. }), Some(PasswordCheck::Matches)) =>
                    match check_code(facts.code) {
                    CodeNext::Unavailable => DisableNext::Reply(unavailable()),
                    CodeNext::Wrong => DisableNext::Reply(
                        slow_reply(400, "Invalid authentication code."),
                    ),
                    CodeNext::Right { .. } => match facts.saved {
                        None => DisableNext::Save,
                        Some(Written::Missing) => DisableNext::Reply(user_not_found()),
                        Some(Written::Failed) => DisableNext::Reply(internal_error()),
                        Some(Written::Done) => if facts.others_revoked {
                            DisableNext::Disabled(
                                message_reply(200, "Two-factor authentication disabled."),
                            )
                        } else {
                            DisableNext::RevokeOthers(id)
                        },
                    },
                    more => DisableNext::Code(more),
                },
            }
        },
    }
}

/// A second factor is switched off only with the right password and a right code.
pub proof fn disabling_needs_password_and_code(
    user_id: &Option<String>,
    body: &TwoFactorDisableBody,
    facts: &DisableFacts,
)
    ensures
        disable_two_factor_next(user_id, body, facts) is Save || disable_two_factor_next(
            user_id,
            body,
            facts,
        ) is Disabled ==> {
            &&& facts.password == Some(PasswordCheck::Matches)
            &&& check_code_next(facts.code) is Right
        },
{
}

/// What is known so far about a new password.
#[derive(Clone, Copy, Debug)]
pub struct PasswordFacts {
    pub account: Option<Lookup>,
    pub password: Option<PasswordCheck>,
    pub second: StepUpFacts,
    pub breach: Option<PasswordBreachCheck>,
    /// Whether the new password could be stored.
    pub stored: Option<bool>,
    /// Whether all logins were made void.
    pub invalidated: bool,
    /// Whether the account was found again.
    pub found_again: Option<bool>,
}

/// What to do next about a new password.
#[derive(Clone, Copy, Debug)]
pub enum PasswordNext {
    Reply(Reply),
    FindAccount(ObjectId),
    CheckPassword,
    VerifyStepUp,
    SaveCodes { index: usize },
    RefuseStepUp,
    CheckBreach,
    Store(ObjectId),
    /// Make all logins void.
    Invalidate(ObjectId),
    FindAgain(ObjectId),
    /// Let the user in again.
    Enter,
}

/// What to do next about a new password, once the old one and the second factor are right.
pub open spec fn password_accepted_next(id: ObjectId, facts: &PasswordFacts) -> PasswordNext {
    match (facts.breach, facts.stored) {
        (None, _) => PasswordNext::CheckBreach,
        (Some(PasswordBreachCheck::Breached), _) => PasswordNext::Reply(
            coded_reply(
                400,
                "To hasło pojawiło się w wycieku danych. Wybierz inne, bezpieczniejsze hasło.",
                "PASSWORD_BREACHED",
            ),
        ),
        (Some(PasswordBreachCheck::Unavailable), _) => PasswordNext::Reply(
            message_reply(
                503,
                "Nie można teraz zweryfikować hasła. Spróbuj ponownie za chwilę.",
            ),
        ),
        (Some(PasswordBreachCheck::Safe), None) => PasswordNext::Store(id),
        (Some(PasswordBreachCheck::Safe), Some(false)) => PasswordNext::Reply(internal_error()),
        (Some(PasswordBreachCheck::Safe), Some(true)) => if !facts.invalidated {
            PasswordNext::Invalidate(id)
        } else {
            match facts.found_again {
                None => PasswordNext::FindAgain(id),
                Some(false) => PasswordNext::Reply(internal_error()),
                Some(true) => PasswordNext::Enter,
            }
        },
    }
}

/// What to do next about a new password, once the old one and the second factor are right.
pub fn password_accepted(id: ObjectId, facts: &PasswordFacts) -> (r: PasswordNext)
    ensures
        r == password_accepted_next(id, facts),
{
    match (facts.breach, facts.stored) {
        (None, _) => PasswordNext::CheckBreach,
        (Some(PasswordBreachCheck::Breached), _) => PasswordNext::Reply(
            coded_reply(
                400,
                "To hasło pojawiło się w wycieku danych. Wybierz inne, bezpieczniejsze hasło.",
                "PASSWORD_BREACHED",
            ),
        ),
        (Some(PasswordBreachCheck::Unavailable), _) => PasswordNext::Reply(
            message_reply(
                503,
                "Nie można teraz zweryfikować hasła. Spróbuj ponownie za chwilę.",
            ),
        ),
        (Some(PasswordBreachCheck::Safe), None) => PasswordNext::Store(id),
        (Some(PasswordBreachCheck::Safe), Some(false)) => PasswordNext::Reply(internal_error()),
        (Some(PasswordBreachCheck::Safe), Some(true)) => if !facts.invalidated {
            PasswordNext::Invalidate(id)
        } else {
            match facts.found_again {
                None => PasswordNext::FindAgain(id),
                Some(false) => PasswordNext::Reply(internal_error()),
                Some(true) => PasswordNext::Enter,
            }
        },
    }
}

/// Whether the new password is the old one, white space around them aside.
pub open spec fn same_password(body: &ChangePasswordBody) -> bool {
    trimmed(text_or_empty(body.current_password)) == trimmed(text_or_empty(body.new_password))
}

/// What to do next about a new password.
pub open spec fn change_password_next(user_id: &Option<String>, body: &ChangePasswordBody, facts: &PasswordFacts) -> PasswordNext {
    match require_user(user_id, AuthStyle::Plain) {
        Err(reply) => PasswordNext::Reply(reply),
        Ok(id) => if blank_field(body.current_password) || blank_field(body.new_password) {
            PasswordNext::Reply(
                message_reply(400, "Current password and new password are required."),
            )
        } else if same_password(body) {
            PasswordNext::Reply(
                message_reply(400, "New password must be different from the current password."),
            )
        } else {
            match (facts.account, facts.password) {
                (None, _) => PasswordNext::FindAccount(id),
                (Some(Lookup::Missing), _) => PasswordNext::Reply(user_not_found()),
                (Some(Lookup::Failed), _) => PasswordNext::Reply(internal_error()),
                (Some(Lookup::Found), None) => PasswordNext::CheckPassword,
                (Some(Lookup::Found), Some(PasswordCheck::Unavailable)) => PasswordNext::Reply(
                    unavailable(),
                ),
                (Some(Lookup::Found), Some(PasswordCheck::Differs)) => PasswordNext::Reply(
                    slow_reply(400, "Current password is incorrect."),
                ),
                (Some(Lookup::Found), Some(PasswordCheck::Matches)) => match step_up(facts.second) {
                    StepUpNext::Verify => PasswordNext::VerifyStepUp,
                    StepUpNext::SaveCodes { index } => PasswordNext::SaveCodes { index },
                    StepUpNext::Refuse => PasswordNext::RefuseStepUp,
                    StepUpNext::Fail => PasswordNext::Reply(internal_error()),
                    StepUpNext::Passed => password_accepted_next(id, facts),
                },
            }
        },
    }
}

/// What to do next about a new password.
pub fn change_password(user_id: &Option<String>, body: &ChangePasswordBody, facts: &PasswordFacts) -> (r: PasswordNext)
    ensures
        r == change_password_next(user_id, body, facts),
{
    match require_user(user_id, AuthStyle::Plain) {
        Err(reply) => PasswordNext::Reply(reply),
        Ok(id) => if is_blank_field(&body.current_password) || is_blank_field(&body.new_password) {
            PasswordNext::Reply(
                message_reply(400, "Current password and new password are required."),
            )
        } else if text::same_text(
            text::trim(text::or_empty(&body.current_password)),
            text::trim(text::or_empty(&body.new_password)),
        ) {
            PasswordNext::Reply(
                message_reply(400, "New password must be different from the current password."),
            )
        } else {
            match (facts.account, facts.password) {
                (None, _) => PasswordNext::FindAccount(id),
                (Some(Lookup::Missing), _) => PasswordNext::Reply(user_not_found()),
                (Some(Lookup::Failed), _) => PasswordNext::Reply(internal_error()),
                (Some(Lookup::Found), None) => PasswordNext::CheckPassword,
                (Some(Lookup::Found), Some(PasswordCheck::Unavailable)) => PasswordNext::Reply(
                    unavailable(),
                ),
                (Some(Lookup::Found), Some(PasswordCheck::Differs)) => PasswordNext::Reply(
                    slow_reply(400, "Current password is incorrect."),
                ),
                (Some(Lookup::Found), Some(PasswordCheck::Matches)) => match step_up(facts.second) {
                    StepUpNext::Verify => PasswordNext::VerifyStepUp,
                    StepUpNext::SaveCodes { index } => PasswordNext::SaveCodes { index },
                    StepUpNext::Refuse => PasswordNext::RefuseStepUp,
                    StepUpNext::Fail => PasswordNext::Reply(internal_error()),
                    StepUpNext::Passed => password_accepted(id, facts),
                },
            }
        },
    }
}

/// A new password is stored only for the right old one, after the second factor, and if it is
/// not known to have leaked; and nobody is let in again before all logins were made void.
pub proof fn new_passwords_void_all_logins(
    user_id: &Option<String>,
    body: &ChangePasswordBody,
    facts: &PasswordFacts,
)
    ensures
        change_password_next(user_id, body, facts) is Store ==> {
            &&& facts.password == Some(PasswordCheck::Matches)
            &&& step_up_next(facts.second) is Passed
            &&& facts.breach == Some(PasswordBreachCheck::Safe)
            &&& !same_password(body)
        },
        change_password_next(user_id, body, facts) is Enter ==> facts.stored == Some(true)
            && facts.invalidated,
{
}

/// What is known so far about a new username.
#[derive(Clone, Copy, Debug)]
pub struct UsernameFacts {
    /// The account, and whether it has this name already.
    pub account: Option<UsernameLookup>,
    pub password: Option<PasswordCheck>,
    pub second: StepUpFacts,
    /// Whether somebody else has the name.
    pub taken: Option<Answer>,
    pub saved: Option<Written>,
    /// After that failed: whether somebody else has the name.
    pub taken_again: Option<Answer>,
}

/// What a lookup of one's own account said, as far as a new username depends on it.
#[derive(Clone, Copy, Debug, PartialEq, Eq, Structural)]
pub enum UsernameLookup {
    Found { same_name: bool },
    Missing,
    Failed,
}

/// What to do next about a new username.
#[derive(Clone, Copy, Debug)]
pub enum UsernameNext {
    Reply(Reply),
    FindAccount(ObjectId),
    CheckPassword,
    VerifyStepUp,
    SaveCodes { index: usize },
    RefuseStepUp,
    AskTaken(ObjectId),
    Save(ObjectId),
    AskTakenAgain(ObjectId),
    /// Tell the others, and answer with the account.
    Changed,
}

/// What to do next about a new username, once the password and the second factor are right.
pub open spec fn username_accepted_next(id: ObjectId, facts: &UsernameFacts) -> UsernameNext {
    match (facts.taken, facts.saved) {
        (None, _) => UsernameNext::AskTaken(id),
        (Some(Answer::Yes), _) => UsernameNext::Reply(
            message_reply(409, "Ta nazwa użytkownika jest już zajęta. Wybierz inną."),
        ),
        (Some(Answer::Failed), _) => UsernameNext::Reply(internal_error()),
        (Some(Answer::No), None) => UsernameNext::Save(id),
        (Some(Answer::No), Some(Written::Done)) => UsernameNext::Changed,
        (Some(Answer::No), Some(Written::Missing)) => UsernameNext::Reply(user_not_found()),
        (Some(Answer::No), Some(Written::Failed)) => match facts.taken_again {
            None => UsernameNext::AskTakenAgain(id),
            Some(Answer::Yes) => UsernameNext::Reply(
                message_reply(409, "Ta nazwa użytkownika jest już zajęta. Wybierz inną."),
            ),
            Some(Answer::No) => UsernameNext::Reply(text_reply(500, "Internal Server Error.")),
            Some(Answer::Failed) => UsernameNext::Reply(unavailable()),
        },
    }
}

/// What to do next about a new username, once the password and the second factor are right.
pub fn username_accepted(id: ObjectId, facts: &UsernameFacts) -> (r: UsernameNext)
    ensures
        r == username_accepted_next(id, facts),
{
    match (facts.taken, facts.saved) {
        (None, _) => UsernameNext::AskTaken(id),
        (Some(Answer::Yes), _) => UsernameNext::Reply(
            message_reply(409, "Ta nazwa użytkownika jest już zajęta. Wybierz inną."),
        ),
        (Some(Answer::Failed), _) => UsernameNext::Reply(internal_error()),
        (Some(Answer::No), None) => UsernameNext::Save(id),
        (Some(Answer::No), Some(Written::Done)) => UsernameNext::Changed,
        (Some(Answer::No), Some(Written::Missing)) => UsernameNext::Reply(user_not_found()),
        (Some(Answer::No), Some(Written::Failed)) => match facts.taken_again {
            None => UsernameNext::AskTakenAgain(id),
            Some(Answer::Yes) => UsernameNext::Reply(
                message_reply(409, "Ta nazwa użytkownika jest już zajęta. Wybierz inną."),
            ),
            Some(Answer::No) => UsernameNext::Reply(text_reply(500, "Internal Server Error.")),
            Some(Answer::Failed) => UsernameNext::Reply(unavailable()),
        },
    }
}

/// What to do next about a new username. `normalized` is the normalised new name.
pub open spec fn change_username_next(user_id: &Option<String>, body: &ChangeUsernameBody, normalized: Seq<char>, facts: &UsernameFacts) -> UsernameNext {
    match require_user(user_id, AuthStyle::Plain) {
        Err(reply) => UsernameNext::Reply(reply),
        Ok(id) => if text_or_empty(body.password).len() == 0 {
            UsernameNext::Reply(
                message_reply(400, "Podaj aktualne hasło, aby zmienić nazwę użytkownika."),
            )
        } else if !is_username(normalized) {
            UsernameNext::Reply(
                message_reply(
                    400,
                    "Nazwa użytkownika: 3–32 znaków, tylko małe litery, cyfry i _.",
                ),
            )
        } else {
            match (facts.account, facts.password) {
                (None, _) => UsernameNext::FindAccount(id),
                (Some(UsernameLookup::Missing), _) => UsernameNext::Reply(user_not_found()),
                (Some(UsernameLookup::Failed), _) => UsernameNext::Reply(internal_error()),
                (Some(UsernameLookup::Found { .. }), None) => UsernameNext::CheckPassword,
                (Some(UsernameLookup::Found { .. }), Some(PasswordCheck::Unavailable)) =>
                    UsernameNext::Reply(unavailable()),
                (Some(UsernameLookup::Found { .. }), Some(PasswordCheck::Differs)) =>
                    UsernameNext::Reply(slow_reply(400, "Nieprawidłowe hasło.")),
                (Some(UsernameLookup::Found { same_name }), Some(PasswordCheck::Matches)) => if same_name {
                    UsernameNext::Reply(
                        message_reply(400, "To jest już Twoja obecna nazwa użytkownika."),
                    )
                } else {
                    match step_up(facts.second) {
                        StepUpNext::Verify => UsernameNext::VerifyStepUp,
                        StepUpNext::SaveCodes { index } => UsernameNext::SaveCodes { index },
                        StepUpNext::Refuse => UsernameNext::RefuseStepUp,
                        StepUpNext::Fail => UsernameNext::Reply(internal_error()),
                        StepUpNext::Passed => username_accepted_next(id, facts),
                    }
                },
            }
        },
    }
}

/// What to do next about a new username. `normalized` is the normalised new name.
pub fn change_username(user_id: &Option<String>, body: &ChangeUsernameBody, normalized: &str, facts: &UsernameFacts) -> (r: UsernameNext)
    ensures
        r == change_username_next(user_id, body, normalized@, facts),
{
    match require_user(user_id, AuthStyle::Plain) {
        Err(reply) => UsernameNext::Reply(reply),
        Ok(id) => if text::or_empty(&body.password).is_empty() {
            UsernameNext::Reply(
                message_reply(400, "Podaj aktualne hasło, aby zmienić nazwę użytkownika."),
            )
        } else if !is_valid_username(normalized) {
            UsernameNext::Reply(
                message_reply(
                    400,
                    "Nazwa użytkownika: 3–32 znaków, tylko małe litery, cyfry i _.",
                ),
            )
        } else {
            match (facts.account, facts.password) {
                (None, _) => UsernameNext::FindAccount(id),
                (Some(UsernameLookup::Missing), _) => UsernameNext::Reply(user_not_found()),
                (Some(UsernameLookup::Failed), _) => UsernameNext::Reply(internal_error()),
                (Some(UsernameLookup::Found { .. }), None) => UsernameNext::CheckPassword,
                (Some(UsernameLookup::Found { .. }), Some(PasswordCheck::Unavailable)) =>
                    UsernameNext::Reply(unavailable()),
                (Some(UsernameLookup::Found { .. }), Some(PasswordCheck::Differs)) =>
                    UsernameNext::Reply(slow_reply(400, "Nieprawidłowe hasło.")),
                (Some(UsernameLookup::Found { same_name }), Some(PasswordCheck::Matches)) => if same_name {
                    UsernameNext::Reply(
                        message_reply(400, "To jest już Twoja obecna nazwa użytkownika."),
                    )
                } else {
                    match step_up(facts.second) {
                        StepUpNext::Verify => UsernameNext::VerifyStepUp,
                        StepUpNext::SaveCodes { index } => UsernameNext::SaveCodes { index },
                        StepUpNext::Refuse => UsernameNext::RefuseStepUp,
                        StepUpNext::Fail => UsernameNext::Reply(internal_error()),
                        StepUpNext::Passed => username_accepted(id, facts),
                    }
                },
            }
        },
    }
}

/// A username is changed only to a valid one that nobody else has, with the right password
/// and after the second factor.
pub proof fn usernames_change_under_all_rules(
    user_id: &Option<String>,
    body: &ChangeUsernameBody,
    normalized: Seq<char>,
    facts: &UsernameFacts,
)
    ensures
        change_username_next(user_id, body, normalized, facts) is Save || change_username_next(
            user_id,
            body,
            normalized,
            facts,
        ) is Changed ==> {
            &&& is_username(normalized)
            &&& facts.account == Some(UsernameLookup::Found { same_name: false })
            &&& facts.password == Some(PasswordCheck::Matches)
            &&& step_up_next(facts.second) is Passed
            &&& facts.taken == Some(Answer::No)
        },
{
}

/// What setting up a second factor comes to, outcome by outcome: with the right password, for an
/// account that has none, a secret is made, kept aside and shown.
pub proof fn second_factors_are_set_up(
    user_id: &Option<String>,
    body: &SetupTwoFactorBody,
    facts: &SetupFacts,
    id: ObjectId,
    enabled: bool,
    pending: bool,
)
    requires
        crate::reply::require_user_of(user_id, AuthStyle::Plain) == Ok::<ObjectId, Reply>(id),
        facts.account matches Some(OwnLookup::Found { enabled: e, pending: p }) ==> e == enabled && p
            == pending,
    ensures
        ({
            let next = setup_two_factor_next(user_id, body, facts);
            let given = trimmed(text_or_empty(body.password)).len() > 0;
            let found = given && facts.account == Some(OwnLookup::Found { enabled, pending });
            let right = found && facts.password == Some(PasswordCheck::Matches);
            let made = right && !enabled && facts.encrypted == Some(true);
            &&& !given ==> next == SetupNext::Reply(
                crate::reply::message_reply_of(
                    400,
                    "Password is required to start two-factor setup.",
                ),
            )
            &&& next == SetupNext::FindAccount(id) <==> given && facts.account is None
            &&& next is CheckPassword <==> found && facts.password is None
            &&& next is EncryptSecret <==> right && !enabled && facts.encrypted is None
            &&& next is SavePending <==> made && facts.saved is None
            &&& next is ShowSecret <==> made && facts.saved == Some(Written::Done)
            &&& right && enabled ==> next == SetupNext::Reply(
                crate::reply::message_reply_of(
                    400,
                    "Two-factor authentication is already enabled.",
                ),
            )
            &&& (given && facts.account == Some(OwnLookup::Missing)) || (made && facts.saved == Some(
                Written::Missing,
            )) ==> next == SetupNext::Reply(crate::reply::user_not_found_of())
            &&& (given && facts.account == Some(OwnLookup::Failed)) || (right && !enabled
                && facts.encrypted == Some(false)) || (made && facts.saved == Some(Written::Failed))
                ==> next == SetupNext::Reply(crate::reply::internal_error_of())
            &&& found && facts.password == Some(PasswordCheck::Unavailable) ==> next
                == SetupNext::Reply(crate::reply::unavailable_of())
            &&& found && facts.password == Some(PasswordCheck::Differs) ==> next == SetupNext::Reply(
                crate::reply::slow_reply_of(400, "Invalid password."),
            )
        }),
{
}

/// What switching a second factor on comes to, outcome by outcome: with the right password and a right
/// code for the secret that was set up, backup codes are made and everything is stored; then the other
/// sessions are ended and the codes shown.
pub proof fn second_factors_are_switched_on(
    user_id: &Option<String>,
    body: &TwoFactorCodeBody,
    facts: &EnableFacts,
    id: ObjectId,
    enabled: bool,
    pending: bool,
)
    requires
        crate::reply::require_user_of(user_id, AuthStyle::Plain) == Ok::<ObjectId, Reply>(id),
        facts.account matches Some(OwnLookup::Found { enabled: e, pending: p }) ==> e == enabled && p
            == pending,
    ensures
        ({
            let next = enable_two_factor_next(user_id, body, facts);
            let given = trimmed(text_or_empty(body.password)).len() > 0 && trimmed(
                text_or_empty(body.code),
            ).len() > 0;
            let found = given && facts.account == Some(OwnLookup::Found { enabled, pending });
            let right = found && facts.password == Some(PasswordCheck::Matches);
            let begun = right && !enabled && pending;
            let read = begun && facts.decrypted == Some(true);
            let proved = read && facts.code == Some(Ok::<bool, ()>(true));
            let hashed = proved && facts.hashed == Some(true);
            let stored = hashed && facts.saved == Some(Written::Done);
            &&& !given ==> next == EnableNext::Reply(
                crate::reply::message_reply_of(
                    400,
                    "Password and authentication code are required.",
                ),
            )
            &&& next == EnableNext::FindAccount(id) <==> given && facts.account is None
            &&& next is CheckPassword <==> found && facts.password is None
            &&& next is DecryptPending <==> begun && facts.decrypted is None
            &&& next is VerifyCode <==> read && facts.code is None
            &&& next is MakeBackupCodes <==> proved && facts.hashed is None
            &&& next is Save <==> hashed && facts.saved is None
            &&& next == EnableNext::RevokeOthers(id) <==> stored && !facts.others_revoked
            &&& next is ShowCodes <==> stored && facts.others_revoked
            &&& next is ShowCodes ==> next == EnableNext::ShowCodes(
                crate::reply::message_reply_of(200, "Two-factor authentication enabled."),
            )
            &&& right && enabled ==> next == EnableNext::Reply(
                crate::reply::message_reply_of(
                    400,
                    "Two-factor authentication is already enabled.",
                ),
            )
            &&& right && !enabled && !pending ==> next == EnableNext::Reply(
                crate::reply::message_reply_of(400, "Two-factor setup has not been started."),
            )
            &&& read && facts.code == Some(Ok::<bool, ()>(false)) ==> next == EnableNext::Reply(
                crate::reply::slow_reply_of(400, "Invalid authentication code."),
            )
            &&& found && facts.password == Some(PasswordCheck::Differs) ==> next
                == EnableNext::Reply(crate::reply::slow_reply_of(400, "Invalid password."))
            &&& (found && facts.password == Some(PasswordCheck::Unavailable)) || (begun
                && facts.decrypted == Some(false)) || (read && facts.code is Some && facts.code->0
                is Err) || (proved && facts.hashed == Some(false)) ==> next == EnableNext::Reply(
                crate::reply::unavailable_of(),
            )
            &&& (given && facts.account == Some(OwnLookup::Missing)) || (hashed && facts.saved
                == Some(Written::Missing)) ==> next == EnableNext::Reply(
                crate::reply::user_not_found_of(),
            )
            &&& (given && facts.account == Some(OwnLookup::Failed)) || (hashed && facts.saved
                == Some(Written::Failed)) ==> next == EnableNext::Reply(
                crate::reply::internal_error_of(),
            )
        }),
{
}

/// What switching a second factor off comes to, outcome by outcome: an account that has one, the right
/// password and a right code are needed; then that is stored, the other sessions are ended, and it is
/// answered.
pub proof fn second_factors_are_switched_off(
    user_id: &Option<String>,
    body: &TwoFactorDisableBody,
    facts: &DisableFacts,
    id: ObjectId,
)
    requires
        crate::reply::require_user_of(user_id, AuthStyle::Plain) == Ok::<ObjectId, Reply>(id),
    ensures
        ({
            let next = disable_two_factor_next(user_id, body, facts);
            let given = text_or_empty(body.password).len() > 0 && trimmed(
                text_or_empty(body.code),
            ).len() > 0;
            let found = given && facts.account is Some && facts.account->0 is Found;
            let on = found && facts.account->0->enabled;
            let right = on && facts.password == Some(PasswordCheck::Matches);
            let code = check_code_next(facts.code);
            let proved = right && code is Right;
            let stored = proved && facts.saved == Some(Written::Done);
            &&& !given ==> next == DisableNext::Reply(
                crate::reply::message_reply_of(
                    400,
                    "Password and authentication code are required.",
                ),
            )
            &&& next == DisableNext::FindAccount(id) <==> given && facts.account is None
            &&& next is CheckPassword <==> on && facts.password is None
            &&& next is Code <==> right && (code is Decrypt || code is VerifyTotp || code
                is VerifyBackup)
            &&& next is Code ==> next == DisableNext::Code(code)
            &&& next is Save <==> proved && facts.saved is None
            &&& next == DisableNext::RevokeOthers(id) <==> stored && !facts.others_revoked
            &&& next is Disabled <==> stored && facts.others_revoked
            &&& next is Disabled ==> next == DisableNext::Disabled(
                crate::reply::message_reply_of(200, "Two-factor authentication disabled."),
            )
            &&& found && !on ==> next == DisableNext::Reply(
                crate::reply::message_reply_of(400, "Two-factor authentication is not enabled."),
            )
            &&& on && facts.password == Some(PasswordCheck::Differs) ==> next == DisableNext::Reply(
                crate::reply::slow_reply_of(400, "Invalid password."),
            )
            &&& right && code is Wrong ==> next == DisableNext::Reply(
                crate::reply::slow_reply_of(400, "Invalid authentication code."),
            )
            &&& (on && facts.password == Some(PasswordCheck::Unavailable)) || (right && code
                is Unavailable) ==> next == DisableNext::Reply(crate::reply::unavailable_of())
            &&& (given && facts.account == Some(OwnLookup::Missing)) || (proved && facts.saved
                == Some(Written::Missing)) ==> next == DisableNext::Reply(
                crate::reply::user_not_found_of(),
            )
            &&& (given && facts.account == Some(OwnLookup::Failed)) || (proved && facts.saved
                == Some(Written::Failed)) ==> next == DisableNext::Reply(
                crate::reply::internal_error_of(),
            )
        }),
{
}

/// What a new password comes to, outcome by outcome: both passwords are given and differ, the old one
/// is right, the second factor passes, and the new one is not known to have leaked; then it is stored,
/// all logins are made void, and the user is let in again.
pub proof fn new_passwords_are_stored(
    user_id: &Option<String>,
    body: &ChangePasswordBody,
    facts: &PasswordFacts,
    id: ObjectId,
    index: usize,
)
    requires
        crate::reply::require_user_of(user_id, AuthStyle::Plain) == Ok::<ObjectId, Reply>(id),
    ensures
        ({
            let next = change_password_next(user_id, body, facts);
            let old_one = trimmed(text_or_empty(body.current_password));
            let new_one = trimmed(text_or_empty(body.new_password));
            let given = old_one.len() > 0 && new_one.len() > 0;
            let asks = given && old_one != new_one;
            let found = asks && facts.account == Some(Lookup::Found);
            let right = found && facts.password == Some(PasswordCheck::Matches);
            let second = step_up_next(facts.second);
            let passed = right && second is Passed;
            let safe = passed && facts.breach == Some(PasswordBreachCheck::Safe);
            let void = safe && facts.stored == Some(true) && facts.invalidated;
            &&& !given ==> next == PasswordNext::Reply(
                crate::reply::message_reply_of(
                    400,
                    "Current password and new password are required.",
                ),
            )
            &&& given && old_one == new_one ==> next == PasswordNext::Reply(
                crate::reply::message_reply_of(
                    400,
                    "New password must be different from the current password.",
                ),
            )
            &&& next == PasswordNext::FindAccount(id) <==> asks && facts.account is None
            &&& next is CheckPassword <==> found && facts.password is None
            &&& next is VerifyStepUp <==> right && second is Verify
            &&& next == (PasswordNext::SaveCodes { index }) <==> right && second == (
            StepUpNext::SaveCodes { index })
            &&& next is RefuseStepUp <==> right && second is Refuse
            &&& next is CheckBreach <==> passed && facts.breach is None
            &&& next == PasswordNext::Store(id) <==> safe && facts.stored is None
            &&& next == PasswordNext::Invalidate(id) <==> safe && facts.stored == Some(true)
                && !facts.invalidated
            &&& next == PasswordNext::FindAgain(id) <==> void && facts.found_again is None
            &&& next is Enter <==> void && facts.found_again == Some(true)
            &&& found && facts.password == Some(PasswordCheck::Differs) ==> next
                == PasswordNext::Reply(
                crate::reply::slow_reply_of(400, "Current password is incorrect."),
            )
            &&& found && facts.password == Some(PasswordCheck::Unavailable) ==> next
                == PasswordNext::Reply(crate::reply::unavailable_of())
            &&& asks && facts.account == Some(Lookup::Missing) ==> next == PasswordNext::Reply(
                crate::reply::user_not_found_of(),
            )
            &&& (asks && facts.account == Some(Lookup::Failed)) || (right && second is Fail) || (safe
                && facts.stored == Some(false)) || (void && facts.found_again == Some(false))
                ==> next == PasswordNext::Reply(crate::reply::internal_error_of())
            &&& passed && facts.breach == Some(PasswordBreachCheck::Breached) ==> next
                == PasswordNext::Reply(
                crate::reply::coded_reply_of(
                    400,
                    "To hasło pojawiło się w wycieku danych. Wybierz inne, bezpieczniejsze hasło.",
                    "PASSWORD_BREACHED",
                ),
            )
            &&& passed && facts.breach == Some(PasswordBreachCheck::Unavailable) ==> next
                == PasswordNext::Reply(
                crate::reply::message_reply_of(
                    503,
                    "Nie można teraz zweryfikować hasła. Spróbuj ponownie za chwilę.",
                ),
            )
        }),
{
}

/// What a new username comes to, outcome by outcome: a password and a valid name are given, the
/// password is right, the name is a new one, the second factor passes, and nobody else has the name;
/// then it is stored and told; and where storing failed it is asked once more whether it is taken.
pub proof fn new_usernames_are_stored(
    user_id: &Option<String>,
    body: &ChangeUsernameBody,
    normalized: Seq<char>,
    facts: &UsernameFacts,
    id: ObjectId,
    index: usize,
)
    requires
        crate::reply::require_user_of(user_id, AuthStyle::Plain) == Ok::<ObjectId, Reply>(id),
    ensures
        ({
            let next = change_username_next(user_id, body, normalized, facts);
            let given = text_or_empty(body.password).len() > 0;
            let asks = given && is_username(normalized);
            let found = asks && facts.account is Some && facts.account->0 is Found;
            let right = found && facts.password == Some(PasswordCheck::Matches);
            let other = right && !facts.account->0->same_name;
            let second = step_up_next(facts.second);
            let passed = other && second is Passed;
            let free = passed && facts.taken == Some(Answer::No);
            let failed = free && facts.saved == Some(Written::Failed);
            &&& !given ==> next == UsernameNext::Reply(
                crate::reply::message_reply_of(
                    400,
                    "Podaj aktualne hasło, aby zmienić nazwę użytkownika.",
                ),
            )
            &&& given && !is_username(normalized) ==> next == UsernameNext::Reply(
                crate::reply::message_reply_of(
                    400,
                    "Nazwa użytkownika: 3–32 znaków, tylko małe litery, cyfry i _.",
                ),
            )
            &&& next == UsernameNext::FindAccount(id) <==> asks && facts.account is None
            &&& next is CheckPassword <==> found && facts.password is None
            &&& next is VerifyStepUp <==> other && second is Verify
            &&& next == (UsernameNext::SaveCodes { index }) <==> other && second == (
            StepUpNext::SaveCodes { index })
            &&& next is RefuseStepUp <==> other && second is Refuse
            &&& next == UsernameNext::AskTaken(id) <==> passed && facts.taken is None
            &&& next == UsernameNext::Save(id) <==> free && facts.saved is None
            &&& next is Changed <==> free && facts.saved == Some(Written::Done)
            &&& next == UsernameNext::AskTakenAgain(id) <==> failed && facts.taken_again is None
            &&& right && !other ==> next == UsernameNext::Reply(
                crate::reply::message_reply_of(400, "To jest już Twoja obecna nazwa użytkownika."),
            )
            &&& (passed && facts.taken == Some(Answer::Yes)) || (failed && facts.taken_again == Some(
                Answer::Yes,
            )) ==> next == UsernameNext::Reply(
                crate::reply::message_reply_of(
                    409,
                    "Ta nazwa użytkownika jest już zajęta. Wybierz inną.",
                ),
            )
            &&& found && facts.password == Some(PasswordCheck::Differs) ==> next
                == UsernameNext::Reply(crate::reply::slow_reply_of(400, "Nieprawidłowe hasło."))
            &&& (found && facts.password == Some(PasswordCheck::Unavailable)) || (failed
                && facts.taken_again == Some(Answer::Failed)) ==> next == UsernameNext::Reply(
                crate::reply::unavailable_of(),
            )
            &&& (asks && facts.account == Some(UsernameLookup::Missing)) || (free && facts.saved
                == Some(Written::Missing)) ==> next == UsernameNext::Reply(
                crate::reply::user_not_found_of(),
            )
            &&& (asks && facts.account == Some(UsernameLookup::Failed)) || (other && second is Fail)
                || (passed && facts.taken == Some(Answer::Failed)) ==> next == UsernameNext::Reply(
                crate::reply::internal_error_of(),
            )
            &&& failed && facts.taken_again == Some(Answer::No) ==> next == UsernameNext::Reply(
                crate::reply::text_reply_of(500, "Internal Server Error."),
            )
        }),
{
}

/// A request without a user is answered as every such request, whatever it is about.
pub proof fn factor_requests_need_a_user(
    user_id: &Option<String>,
    setup: (&SetupTwoFactorBody, &SetupFacts),
    enable: (&TwoFactorCodeBody, &EnableFacts),
    disable: (&TwoFactorDisableBody, &DisableFacts),
    password: (&ChangePasswordBody, &PasswordFacts),
    username: (&ChangeUsernameBody, &UsernameFacts),
    normalized: Seq<char>,
    reply: Reply,
)
    requires
        crate::reply::require_user_of(user_id, AuthStyle::Plain) == Err::<ObjectId, Reply>(reply),
    ensures
        setup_two_factor_next(user_id, setup.0, setup.1) == SetupNext::Reply(reply),
        enable_two_factor_next(user_id, enable.0, enable.1) == EnableNext::Reply(reply),
        disable_two_factor_next(user_id, disable.0, disable.1) == DisableNext::Reply(reply),
        change_password_next(user_id, password.0, password.1) == PasswordNext::Reply(reply),
        change_username_next(user_id, username.0, normalized, username.1) == UsernameNext::Reply(
            reply,
        ),
{
}

/// A field is blank exactly if it is not there or holds nothing but white space.
pub proof fn fields_are_blank_without_text(s: Option<String>)
    ensures
        s is None ==> blank_field(s),
        s is Some ==> (blank_field(s) <==> trimmed(s->0@).len() == 0),
{
}

} // verus!
