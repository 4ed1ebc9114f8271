//! The paths under which requests about accounts arrive, what guards them, and who handles them.
use vstd::prelude::*;
use crate::controllers::account::Picture;

verus! {

/// How a request is made.
#[derive(Clone, Copy, Debug, PartialEq, Eq, Structural)]
pub enum Method {
    Get,
    Post,
    Patch,
    Delete,
}

/// Who handles a request.
#[derive(Clone, Copy, Debug, PartialEq, Eq, Structural)]
pub enum Handler {
    GetUserInfo,
    Login,
    VerifyTwoFactorLogin,
    SetupTwoFactor,
    EnableTwoFactor,
    DisableTwoFactor,
    RegistrationStatus,
    IssueWsCryptoKey,
    Signup,
    RefreshSession,
    ChangePassword,
    ChangeUsername,
    Logout,
    UpdateProfile,
    UpdateLanguage,
    UpdateAvailabilityStatus,
    AddProfileImage,
    RemoveProfileImage,
    AddProfileBanner,
    RemoveProfileBanner,
    GetMyWarnings,
    AcknowledgeMyWarnings,
    GetMyAnnouncements,
    DismissAnnouncements,
    DisableAccount,
    RequestAccountDeletion,
    CancelAccountDeletion,
    ListSessions,
    RevokeOtherSessions,
    RevokeAllSessions,
    RevokeSession,
}

/// Something that a request has to pass.
#[derive(Clone, Copy, Debug)]
pub enum Guard {
    RequireActiveAccount,
    VerifyToken,
    LoginLimiter,
    VerifyTurnstile,
    FallbackLogin,
    TwoFactorLoginLimiter,
    TwoFactorMutationLimiter,
    RegistrationClosed,
    SignupLimiter,
    ValidatePassword,
    FallbackSignup,
    RefreshLimiter,
    ChangePasswordLimiter,
    ChangeUsernameLimiter,
    VerifyTokenForLogout,
    StatusUpdateLimiter,
    UploadLimiter,
    /// Nothing is refused: what looks suspicious is noted under this name.
    LogActivity(&'static str),
}

/// What guards a path.
#[derive(Clone, Copy, Debug, PartialEq, Eq, Structural)]
pub enum Protection {
    Open,
    Account,
    Login,
    SecondFactorLogin,
    FactorChange,
    Signup,
    Refresh,
    ChangePassword,
    ChangeUsername,
    Logout,
    Profile,
    Status,
    ImageUpload,
    BannerUpload,
    AccountDisable,
    RequestDeletion,
    CancelDeletion,
}

/// The guards of a path from the inside out: the last one is passed first.
pub open spec fn guards_of(p: Protection) -> Seq<Guard> {
    match p {
        Protection::Open => Seq::empty(),
        Protection::Account => seq![
            Guard::RequireActiveAccount,
            Guard::VerifyToken,
        ],
        Protection::Login => seq![
            Guard::LoginLimiter,
            Guard::VerifyTurnstile,
            Guard::FallbackLogin,
            Guard::LogActivity("login"),
        ],
        Protection::SecondFactorLogin => seq![
            Guard::TwoFactorLoginLimiter,
            Guard::VerifyTurnstile,
            Guard::FallbackLogin,
        ],
        Protection::FactorChange => seq![
            Guard::TwoFactorMutationLimiter,
            Guard::RequireActiveAccount,
            Guard::VerifyToken,
        ],
        Protection::Signup => seq![
            Guard::RegistrationClosed,
            Guard::SignupLimiter,
            Guard::ValidatePassword,
            Guard::VerifyTurnstile,
            Guard::FallbackSignup,
            Guard::LogActivity("signup"),
        ],
        Protection::Refresh => seq![
            Guard::RefreshLimiter,
        ],
        Protection::ChangePassword => seq![
            Guard::ValidatePassword,
            Guard::RequireActiveAccount,
            Guard::VerifyToken,
            Guard::LogActivity("change-password"),
            Guard::ChangePasswordLimiter,
        ],
        Protection::ChangeUsername => seq![
            Guard::RequireActiveAccount,
            Guard::VerifyToken,
            Guard::LogActivity("change-username"),
            Guard::ChangeUsernameLimiter,
        ],
        Protection::Logout => seq![
            Guard::VerifyTokenForLogout,
        ],
        Protection::Profile => seq![
            Guard::LogActivity("profile-update"),
            Guard::RequireActiveAccount,
            Guard::VerifyToken,
        ],
        Protection::Status => seq![
            Guard::RequireActiveAccount,
            Guard::VerifyToken,
            Guard::StatusUpdateLimiter,
        ],
        Protection::ImageUpload => seq![
            Guard::LogActivity("profile-image-upload"),
            Guard::RequireActiveAccount,
            Guard::VerifyToken,
            Guard::UploadLimiter,
        ],
        Protection::BannerUpload => seq![
            Guard::LogActivity("profile-banner-upload"),
            Guard::RequireActiveAccount,
            Guard::VerifyToken,
            Guard::UploadLimiter,
        ],
        Protection::AccountDisable => seq![
            Guard::TwoFactorMutationLimiter,
            Guard::RequireActiveAccount,
            Guard::VerifyToken,
            Guard::LogActivity("account-disable"),
        ],
        Protection::RequestDeletion => seq![
            Guard::TwoFactorMutationLimiter,
            Guard::RequireActiveAccount,
            Guard::VerifyToken,
            Guard::LogActivity("account-request-deletion"),
        ],
        Protection::CancelDeletion => seq![
            Guard::TwoFactorMutationLimiter,
            Guard::RequireActiveAccount,
            Guard::VerifyToken,
            Guard::LogActivity("account-cancel-deletion"),
        ],
    }
}

/// The guards of a path from the inside out: the last one is passed first.
pub fn guards(p: Protection) -> (r: Vec<Guard>)
    ensures
        r@ == guards_of(p),
{
    let mut v: Vec<Guard> = Vec::new();
    match p {
        Protection::Open => {},
        Protection::Account => {
            v.push(Guard::RequireActiveAccount);
            v.push(Guard::VerifyToken);
        },
        Protection::Login => {
            v.push(Guard::LoginLimiter);
            v.push(Guard::VerifyTurnstile);
            v.push(Guard::FallbackLogin);
            v.push(Guard::LogActivity("login"));
        },
        Protection::SecondFactorLogin => {
            v.push(Guard::TwoFactorLoginLimiter);
            v.push(Guard::VerifyTurnstile);
            v.push(Guard::FallbackLogin);
        },
        Protection::FactorChange => {
            v.push(Guard::TwoFactorMutationLimiter);
            v.push(Guard::RequireActiveAccount);
            v.push(Guard::VerifyToken);
        },
        Protection::Signup => {
            v.push(Guard::RegistrationClosed);
            v.push(Guard::SignupLimiter);
            v.push(Guard::ValidatePassword);
            v.push(Guard::VerifyTurnstile);
            v.push(Guard::FallbackSignup);
            v.push(Guard::LogActivity("signup"));
        },
        Protection::Refresh => {
            v.push(Guard::RefreshLimiter);
        },
        Protection::ChangePassword => {
            v.push(Guard::ValidatePassword);
            v.push(Guard::RequireActiveAccount);
            v.push(Guard::VerifyToken);
            v.push(Guard::LogActivity("change-password"));
            v.push(Guard::ChangePasswordLimiter);
        },
        Protection::ChangeUsername => {
            v.push(Guard::RequireActiveAccount);
            v.push(Guard::VerifyToken);
            v.push(Guard::LogActivity("change-username"));
            v.push(Guard::ChangeUsernameLimiter);
        },
        Protection::Logout => {
            v.push(Guard::VerifyTokenForLogout);
        },
        Protection::Profile => {
            v.push(Guard::LogActivity("profile-update"));
            v.push(Guard::RequireActiveAccount);
            v.push(Guard::VerifyToken);
        },
        Protection::Status => {
            v.push(Guard::RequireActiveAccount);
            v.push(Guard::VerifyToken);
            v.push(Guard::StatusUpdateLimiter);
        },
        Protection::ImageUpload => {
            v.push(Guard::LogActivity("profile-image-upload"));
            v.push(Guard::RequireActiveAccount);
            v.push(Guard::VerifyToken);
            v.push(Guard::UploadLimiter);
        },
        Protection::BannerUpload => {
            v.push(Guard::LogActivity("profile-banner-upload"));
            v.push(Guard::RequireActiveAccount);
            v.push(Guard::VerifyToken);
            v.push(Guard::UploadLimiter);
        },
        Protection::AccountDisable => {
            v.push(Guard::TwoFactorMutationLimiter);
            v.push(Guard::RequireActiveAccount);
            v.push(Guard::VerifyToken);
            v.push(Guard::LogActivity("account-disable"));
        },
        Protection::RequestDeletion => {
            v.push(Guard::TwoFactorMutationLimiter);
            v.push(Guard::RequireActiveAccount);
            v.push(Guard::VerifyToken);
            v.push(Guard::LogActivity("account-request-deletion"));
        },
        Protection::CancelDeletion => {
            v.push(Guard::TwoFactorMutationLimiter);
            v.push(Guard::RequireActiveAccount);
            v.push(Guard::VerifyToken);
            v.push(Guard::LogActivity("account-cancel-deletion"));
        },
    }
    proof {
        assert(v@ =~= guards_of(p));
    }
    v
}

/// A path, how requests to it are made, what guards it and who handles them.
#[derive(Clone, Copy, Debug)]
pub struct Route {
    pub path: &'static str,
    pub method: Method,
    pub protection: Protection,
    pub handler: Handler,
}

/// A path with all that belongs to it.
pub open spec fn route_of(path: &'static str, method: Method, protection: Protection, handler: Handler) -> Route {
    Route { path, method, protection, handler }
}

/// A path with all that belongs to it.
#[verifier::when_used_as_spec(route_of)]
pub fn route(path: &'static str, method: Method, protection: Protection, handler: Handler) -> (r: Route)
    ensures
        r == route_of(path, method, protection, handler),
{
    Route { path, method, protection, handler }
}

/// How many paths there are.
pub const ROUTES: usize = 44;

/// The paths, in the order in which they are tried.
pub open spec fn route_at_of(i: usize) -> Option<Route> {
    match i {
        0 => Some(
            route("", Method::Get, Protection::Account, Handler::GetUserInfo),
        ),
        1 => Some(
            route("/", Method::Get, Protection::Account, Handler::GetUserInfo),
        ),
        2 => Some(
            route("/login", Method::Post, Protection::Login, Handler::Login),
        ),
        3 => Some(
            route("/sign-in", Method::Post, Protection::Login, Handler::Login),
        ),
        4 => Some(
            route("/signin", Method::Post, Protection::Login, Handler::Login),
        ),
        5 => Some(
            route("/login/2fa", Method::Post, Protection::SecondFactorLogin, Handler::VerifyTwoFactorLogin),
        ),
        6 => Some(
            route("/2fa/setup", Method::Post, Protection::FactorChange, Handler::SetupTwoFactor),
        ),
        7 => Some(
            route("/2fa/enable", Method::Post, Protection::FactorChange, Handler::EnableTwoFactor),
        ),
        8 => Some(
            route("/2fa/disable", Method::Post, Protection::FactorChange, Handler::DisableTwoFactor),
        ),
        9 => Some(
            route("/registration-status", Method::Get, Protection::Open, Handler::RegistrationStatus),
        ),
        10 => Some(
            route("/ws-crypto", Method::Post, Protection::Account, Handler::IssueWsCryptoKey),
        ),
        11 => Some(
            route("/signup", Method::Post, Protection::Signup, Handler::Signup),
        ),
        12 => Some(
            route("/register", Method::Post, Protection::Signup, Handler::Signup),
        ),
        13 => Some(
            route("/refresh", Method::Post, Protection::Refresh, Handler::RefreshSession),
        ),
        14 => Some(
            route("/change-password", Method::Post, Protection::ChangePassword, Handler::ChangePassword),
        ),
        15 => Some(
            route("/change-username", Method::Post, Protection::ChangeUsername, Handler::ChangeUsername),
        ),
        16 => Some(
            route("/logout", Method::Post, Protection::Logout, Handler::Logout),
        ),
        17 => Some(
            route("/userinfo", Method::Get, Protection::Account, Handler::GetUserInfo),
        ),
        18 => Some(
            route("/me", Method::Get, Protection::Account, Handler::GetUserInfo),
        ),
        19 => Some(
            route("/user", Method::Get, Protection::Account, Handler::GetUserInfo),
        ),
        20 => Some(
            route("/update-profile", Method::Post, Protection::Profile, Handler::UpdateProfile),
        ),
        21 => Some(
            route("/profile", Method::Post, Protection::Profile, Handler::UpdateProfile),
        ),
        22 => Some(
            route("/language", Method::Patch, Protection::Account, Handler::UpdateLanguage),
        ),
        23 => Some(
            route("/availability-status", Method::Post, Protection::Status, Handler::UpdateAvailabilityStatus),
        ),
        24 => Some(
            route("/status", Method::Post, Protection::Status, Handler::UpdateAvailabilityStatus),
        ),
        25 => Some(
            route("/add-profile-image", Method::Post, Protection::ImageUpload, Handler::AddProfileImage),
        ),
        26 => Some(
            route("/profile-image", Method::Post, Protection::ImageUpload, Handler::AddProfileImage),
        ),
        27 => Some(
            route("/avatar", Method::Post, Protection::ImageUpload, Handler::AddProfileImage),
        ),
        28 => Some(
            route("/remove-profile-image", Method::Delete, Protection::Account, Handler::RemoveProfileImage),
        ),
        29 => Some(
            route("/add-profile-banner", Method::Post, Protection::BannerUpload, Handler::AddProfileBanner),
        ),
        30 => Some(
            route("/profile-banner", Method::Post, Protection::BannerUpload, Handler::AddProfileBanner),
        ),
        31 => Some(
            route("/banner", Method::Post, Protection::BannerUpload, Handler::AddProfileBanner),
        ),
        32 => Some(
            route("/remove-profile-banner", Method::Delete, Protection::Account, Handler::RemoveProfileBanner),
        ),
        33 => Some(
            route("/warnings", Method::Get, Protection::Account, Handler::GetMyWarnings),
        ),
        34 => Some(
            route("/warnings/acknowledge", Method::Post, Protection::Account, Handler::AcknowledgeMyWarnings),
        ),
        35 => Some(
            route("/announcements", Method::Get, Protection::Account, Handler::GetMyAnnouncements),
        ),
        36 => Some(
            route("/announcements/dismiss", Method::Post, Protection::Account, Handler::DismissAnnouncements),
        ),
        37 => Some(
            route("/account/disable", Method::Post, Protection::AccountDisable, Handler::DisableAccount),
        ),
        38 => Some(
            route("/account/request-deletion", Method::Post, Protection::RequestDeletion, Handler::RequestAccountDeletion),
        ),
        39 => Some(
            route("/account/cancel-deletion", Method::Post, Protection::CancelDeletion, Handler::CancelAccountDeletion),
        ),
        40 => Some(
            route("/sessions", Method::Get, Protection::Account, Handler::ListSessions),
        ),
        41 => Some(
            route("/sessions/revoke-others", Method::Post, Protection::Account, Handler::RevokeOtherSessions),
        ),
        42 => Some(
            route("/sessions/revoke-all", Method::Post, Protection::Account, Handler::RevokeAllSessions),
        ),
        43 => Some(
            route("/sessions/{sessionId}", Method::Delete, Protection::Account, Handler::RevokeSession),
        ),
        _ => None,
    }
}

/// The paths, in the order in which they are tried.
pub fn route_at(i: usize) -> (r: Option<Route>)
    ensures
        r == route_at_of(i),
{
    match i {
        0 => Some(
            route("", Method::Get, Protection::Account, Handler::GetUserInfo),
        ),
        1 => Some(
            route("/", Method::Get, Protection::Account, Handler::GetUserInfo),
        ),
        2 => Some(
            route("/login", Method::Post, Protection::Login, Handler::Login),
        ),
        3 => Some(
            route("/sign-in", Method::Post, Protection::Login, Handler::Login),
        ),
        4 => Some(
            route("/signin", Method::Post, Protection::Login, Handler::Login),
        ),
        5 => Some(
            route("/login/2fa", Method::Post, Protection::SecondFactorLogin, Handler::VerifyTwoFactorLogin),
        ),
        6 => Some(
            route("/2fa/setup", Method::Post, Protection::FactorChange, Handler::SetupTwoFactor),
        ),
        7 => Some(
            route("/2fa/enable", Method::Post, Protection::FactorChange, Handler::EnableTwoFactor),
        ),
        8 => Some(
            route("/2fa/disable", Method::Post, Protection::FactorChange, Handler::DisableTwoFactor),
        ),
        9 => Some(
            route("/registration-status", Method::Get, Protection::Open, Handler::RegistrationStatus),
        ),
        10 => Some(
            route("/ws-crypto", Method::Post, Protection::Account, Handler::IssueWsCryptoKey),
        ),
        11 => Some(
            route("/signup", Method::Post, Protection::Signup, Handler::Signup),
        ),
        12 => Some(
            route("/register", Method::Post, Protection::Signup, Handler::Signup),
        ),
        13 => Some(
            route("/refresh", Method::Post, Protection::Refresh, Handler::RefreshSession),
        ),
        14 => Some(
            route("/change-password", Method::Post, Protection::ChangePassword, Handler::ChangePassword),
        ),
        15 => Some(
            route("/change-username", Method::Post, Protection::ChangeUsername, Handler::ChangeUsername),
        ),
        16 => Some(
            route("/logout", Method::Post, Protection::Logout, Handler::Logout),
        ),
        17 => Some(
            route("/userinfo", Method::Get, Protection::Account, Handler::GetUserInfo),
        ),
        18 => Some(
            route("/me", Method::Get, Protection::Account, Handler::GetUserInfo),
        ),
        19 => Some(
            route("/user", Method::Get, Protection::Account, Handler::GetUserInfo),
        ),
        20 => Some(
            route("/update-profile", Method::Post, Protection::Profile, Handler::UpdateProfile),
        ),
        21 => Some(
            route("/profile", Method::Post, Protection::Profile, Handler::UpdateProfile),
        ),
        22 => Some(
            route("/language", Method::Patch, Protection::Account, Handler::UpdateLanguage),
        ),
        23 => Some(
            route("/availability-status", Method::Post, Protection::Status, Handler::UpdateAvailabilityStatus),
        ),
        24 => Some(
            route("/status", Method::Post, Protection::Status, Handler::UpdateAvailabilityStatus),
        ),
        25 => Some(
            route("/add-profile-image", Method::Post, Protection::ImageUpload, Handler::AddProfileImage),
        ),
        26 => Some(
            route("/profile-image", Method::Post, Protection::ImageUpload, Handler::AddProfileImage),
        ),
        27 => Some(
            route("/avatar", Method::Post, Protection::ImageUpload, Handler::AddProfileImage),
        ),
        28 => Some(
            route("/remove-profile-image", Method::Delete, Protection::Account, Handler::RemoveProfileImage),
        ),
        29 => Some(
            route("/add-profile-banner", Method::Post, Protection::BannerUpload, Handler::AddProfileBanner),
        ),
        30 => Some(
            route("/profile-banner", Method::Post, Protection::BannerUpload, Handler::AddProfileBanner),
        ),
        31 => Some(
            route("/banner", Method::Post, Protection::BannerUpload, Handler::AddProfileBanner),
        ),
        32 => Some(
            route("/remove-profile-banner", Method::Delete, Protection::Account, Handler::RemoveProfileBanner),
        ),
        33 => Some(
            route("/warnings", Method::Get, Protection::Account, Handler::GetMyWarnings),
        ),
        34 => Some(
            route("/warnings/acknowledge", Method::Post, Protection::Account, Handler::AcknowledgeMyWarnings),
        ),
        35 => Some(
            route("/announcements", Method::Get, Protection::Account, Handler::GetMyAnnouncements),
        ),
        36 => Some(
            route("/announcements/dismiss", Method::Post, Protection::Account, Handler::DismissAnnouncements),
        ),
        37 => Some(
            route("/account/disable", Method::Post, Protection::AccountDisable, Handler::DisableAccount),
        ),
        38 => Some(
            route("/account/request-deletion", Method::Post, Protection::RequestDeletion, Handler::RequestAccountDeletion),
        ),
        39 => Some(
            route("/account/cancel-deletion", Method::Post, Protection::CancelDeletion, Handler::CancelAccountDeletion),
        ),
        40 => Some(
            route("/sessions", Method::Get, Protection::Account, Handler::ListSessions),
        ),
        41 => Some(
            route("/sessions/revoke-others", Method::Post, Protection::Account, Handler::RevokeOtherSessions),
        ),
        42 => Some(
            route("/sessions/revoke-all", Method::Post, Protection::Account, Handler::RevokeAllSessions),
        ),
        43 => Some(
            route("/sessions/{sessionId}", Method::Delete, Protection::Account, Handler::RevokeSession),
        ),
        _ => None,
    }
}

/// All paths, in the order in which they are tried.
pub fn configure() -> (r: Vec<Route>)
    ensures
        r@.len() == ROUTES,
        forall|i: usize| i < ROUTES ==> Some(#[trigger] r@[i as int]) == route_at_of(i),
{
    let mut v: Vec<Route> = Vec::new();
    let mut i: usize = 0;
    while i < ROUTES
        invariant
            i <= ROUTES,
            v@.len() == i,
            forall|k: usize| k < i ==> Some(#[trigger] v@[k as int]) == route_at_of(k),
        decreases ROUTES - i,
    {
        match route_at(i) {
            Some(route) => v.push(route),
            None => {
                proof {
                    assert(false);
                }
            },
        }
        i = i + 1;
    }
    v
}

/// Whether a handler needs to know whose request it is, in an account that can be used.
pub open spec fn needs_account(h: Handler) -> bool {
    !(h is Login || h is VerifyTwoFactorLogin || h is RegistrationStatus || h is Signup || h
        is RefreshSession || h is Logout)
}

/// Every request that concerns an account passes the check of its token first, and then that the
/// account can be used.
pub proof fn accounts_are_guarded(i: usize, r: Route)
    requires
        route_at_of(i) == Some(r),
        needs_account(r.handler),
    ensures
        exists|k: int|
            0 <= k && k + 1 < guards_of(r.protection).len() && (#[trigger] guards_of(
                r.protection,
            )[k]) is RequireActiveAccount && guards_of(r.protection)[k + 1] is VerifyToken,
{
    let g = guards_of(r.protection);
    assert(g[0] is RequireActiveAccount || g[1] is RequireActiveAccount);
    if g[0] is RequireActiveAccount {
        assert(g[1] is VerifyToken);
    } else {
        assert(g[2] is VerifyToken);
    }
}

/// Whoever enters or makes an account has to show that they are no machine, and is slowed down.
pub proof fn entrances_are_guarded(i: usize, r: Route)
    requires
        route_at_of(i) == Some(r),
        r.handler is Login || r.handler is VerifyTwoFactorLogin || r.handler is Signup,
    ensures
        exists|k: int|
            0 <= k < guards_of(r.protection).len() && (#[trigger] guards_of(r.protection)[k])
                is VerifyTurnstile,
        r.handler is Login ==> guards_of(r.protection)[0] is LoginLimiter,
        r.handler is VerifyTwoFactorLogin ==> guards_of(r.protection)[0] is TwoFactorLoginLimiter,
        r.handler is Signup ==> guards_of(r.protection)[0] is RegistrationClosed && guards_of(
            r.protection,
        )[1] is SignupLimiter,
{
    let g = guards_of(r.protection);
    if r.handler is Signup {
        assert(g[3] is VerifyTurnstile);
    } else {
        assert(g[1] is VerifyTurnstile);
    }
}

/// A new password is checked on its own merits wherever one is set.
pub proof fn new_passwords_are_validated(i: usize, r: Route)
    requires
        route_at_of(i) == Some(r),
        r.handler is Signup || r.handler is ChangePassword,
    ensures
        exists|k: int|
            0 <= k < guards_of(r.protection).len() && (#[trigger] guards_of(r.protection)[k])
                is ValidatePassword,
{
    let g = guards_of(r.protection);
    if r.handler is Signup {
        assert(g[2] is ValidatePassword);
    } else {
        assert(g[0] is ValidatePassword);
    }
}

/// Requests that only show something are made one way, those that change something another.
pub proof fn showing_changes_nothing(i: usize, r: Route)
    requires
        route_at_of(i) == Some(r),
    ensures
        r.method is Get <==> (r.handler is GetUserInfo || r.handler is RegistrationStatus
            || r.handler is GetMyWarnings || r.handler is GetMyAnnouncements || r.handler
            is ListSessions),
{
}

/// How many bytes a form with a picture may have.
pub open spec fn form_limit_bytes_of(picture: Picture) -> u64 {
    match picture {
        Picture::Image => 6_291_456,
        Picture::Banner => 7_340_032,
    }
}

/// How many bytes a form with a picture may have.
pub fn form_limit_bytes(picture: Picture) -> (r: u64)
    ensures
        r == form_limit_bytes_of(picture),
{
    match picture {
        Picture::Image => 6_291_456,
        Picture::Banner => 7_340_032,
    }
}

/// The name of the part of a form that holds a picture.
pub open spec fn form_field_of(picture: Picture) -> &'static str {
    match picture {
        Picture::Image => "profile-image",
        Picture::Banner => "profile-banner",
    }
}

/// The name of the part of a form that holds a picture.
pub fn form_field(picture: Picture) -> (r: &'static str)
    ensures
        r == form_field_of(picture),
{
    match picture {
        Picture::Image => "profile-image",
        Picture::Banner => "profile-banner",
    }
}

/// Each path leads to the one who handles it.
pub proof fn paths_lead_to_their_handler(i: usize)
    ensures
        ROUTES == 44,
        route_at_of(i) is Some <==> i < 44,
        i == 0 ==> route_at_of(i)->0.path == "" && route_at_of(i)->0.handler is GetUserInfo,
        i == 1 ==> route_at_of(i)->0.path == "/" && route_at_of(i)->0.handler is GetUserInfo,
        i == 2 ==> route_at_of(i)->0.path == "/login" && route_at_of(i)->0.handler is Login,
        i == 3 ==> route_at_of(i)->0.path == "/sign-in" && route_at_of(i)->0.handler is Login,
        i == 4 ==> route_at_of(i)->0.path == "/signin" && route_at_of(i)->0.handler is Login,
        i == 5 ==> route_at_of(i)->0.path == "/login/2fa" && route_at_of(i)->0.handler is VerifyTwoFactorLogin,
        i == 6 ==> route_at_of(i)->0.path == "/2fa/setup" && route_at_of(i)->0.handler is SetupTwoFactor,
        i == 7 ==> route_at_of(i)->0.path == "/2fa/enable" && route_at_of(i)->0.handler is EnableTwoFactor,
        i == 8 ==> route_at_of(i)->0.path == "/2fa/disable" && route_at_of(i)->0.handler is DisableTwoFactor,
        i == 9 ==> route_at_of(i)->0.path == "/registration-status" && route_at_of(i)->0.handler is RegistrationStatus,
        i == 10 ==> route_at_of(i)->0.path == "/ws-crypto" && route_at_of(i)->0.handler is IssueWsCryptoKey,
        i == 11 ==> route_at_of(i)->0.path == "/signup" && route_at_of(i)->0.handler is Signup,
        i == 12 ==> route_at_of(i)->0.path == "/register" && route_at_of(i)->0.handler is Signup,
        i == 13 ==> route_at_of(i)->0.path == "/refresh" && route_at_of(i)->0.handler is RefreshSession,
        i == 14 ==> route_at_of(i)->0.path == "/change-password" && route_at_of(i)->0.handler is ChangePassword,
        i == 15 ==> route_at_of(i)->0.path == "/change-username" && route_at_of(i)->0.handler is ChangeUsername,
        i == 16 ==> route_at_of(i)->0.path == "/logout" && route_at_of(i)->0.handler is Logout,
        i == 17 ==> route_at_of(i)->0.path == "/userinfo" && route_at_of(i)->0.handler is GetUserInfo,
        i == 18 ==> route_at_of(i)->0.path == "/me" && route_at_of(i)->0.handler is GetUserInfo,
        i == 19 ==> route_at_of(i)->0.path == "/user" && route_at_of(i)->0.handler is GetUserInfo,
        i == 20 ==> route_at_of(i)->0.path == "/update-profile" && route_at_of(i)->0.handler is UpdateProfile,
        i == 21 ==> route_at_of(i)->0.path == "/profile" && route_at_of(i)->0.handler is UpdateProfile,
        i == 22 ==> route_at_of(i)->0.path == "/language" && route_at_of(i)->0.handler is UpdateLanguage,
        i == 23 ==> route_at_of(i)->0.path == "/availability-status" && route_at_of(i)->0.handler is UpdateAvailabilityStatus,
        i == 24 ==> route_at_of(i)->0.path == "/status" && route_at_of(i)->0.handler is UpdateAvailabilityStatus,
        i == 25 ==> route_at_of(i)->0.path == "/add-profile-image" && route_at_of(i)->0.handler is AddProfileImage,
        i == 26 ==> route_at_of(i)->0.path == "/profile-image" && route_at_of(i)->0.handler is AddProfileImage,
        i == 27 ==> route_at_of(i)->0.path == "/avatar" && route_at_of(i)->0.handler is AddProfileImage,
        i == 28 ==> route_at_of(i)->0.path == "/remove-profile-image" && route_at_of(i)->0.handler is RemoveProfileImage,
        i == 29 ==> route_at_of(i)->0.path == "/add-profile-banner" && route_at_of(i)->0.handler is AddProfileBanner,
        i == 30 ==> route_at_of(i)->0.path == "/profile-banner" && route_at_of(i)->0.handler is AddProfileBanner,
        i == 31 ==> route_at_of(i)->0.path == "/banner" && route_at_of(i)->0.handler is AddProfileBanner,
        i == 32 ==> route_at_of(i)->0.path == "/remove-profile-banner" && route_at_of(i)->0.handler is RemoveProfileBanner,
        i == 33 ==> route_at_of(i)->0.path == "/warnings" && route_at_of(i)->0.handler is GetMyWarnings,
        i == 34 ==> route_at_of(i)->0.path == "/warnings/acknowledge" && route_at_of(i)->0.handler is AcknowledgeMyWarnings,
        i == 35 ==> route_at_of(i)->0.path == "/announcements" && route_at_of(i)->0.handler is GetMyAnnouncements,
        i == 36 ==> route_at_of(i)->0.path == "/announcements/dismiss" && route_at_of(i)->0.handler is DismissAnnouncements,
        i == 37 ==> route_at_of(i)->0.path == "/account/disable" && route_at_of(i)->0.handler is DisableAccount,
        i == 38 ==> route_at_of(i)->0.path == "/account/request-deletion" && route_at_of(i)->0.handler is RequestAccountDeletion,
        i == 39 ==> route_at_of(i)->0.path == "/account/cancel-deletion" && route_at_of(i)->0.handler is CancelAccountDeletion,
        i == 40 ==> route_at_of(i)->0.path == "/sessions" && route_at_of(i)->0.handler is ListSessions,
        i == 41 ==> route_at_of(i)->0.path == "/sessions/revoke-others" && route_at_of(i)->0.handler is RevokeOtherSessions,
        i == 42 ==> route_at_of(i)->0.path == "/sessions/revoke-all" && route_at_of(i)->0.handler is RevokeAllSessions,
        i == 43 ==> route_at_of(i)->0.path == "/sessions/{sessionId}" && route_at_of(i)->0.handler is RevokeSession,
{
}

/// What guards a path follows from who handles it, and so does the way requests are made.
pub proof fn handlers_have_their_protection(i: usize, r: Route)
    requires
        route_at_of(i) == Some(r),
    ensures
        r.protection is Account <==> r.handler is GetUserInfo || r.handler is IssueWsCryptoKey || r.handler is UpdateLanguage || r.handler is RemoveProfileImage || r.handler is RemoveProfileBanner || r.handler is GetMyWarnings || r.handler is AcknowledgeMyWarnings || r.handler is GetMyAnnouncements || r.handler is DismissAnnouncements || r.handler is ListSessions || r.handler is RevokeOtherSessions || r.handler is RevokeAllSessions || r.handler is RevokeSession,
        r.protection is Login <==> r.handler is Login,
        r.protection is SecondFactorLogin <==> r.handler is VerifyTwoFactorLogin,
        r.protection is FactorChange <==> r.handler is SetupTwoFactor || r.handler is EnableTwoFactor || r.handler is DisableTwoFactor,
        r.protection is Open <==> r.handler is RegistrationStatus,
        r.protection is Signup <==> r.handler is Signup,
        r.protection is Refresh <==> r.handler is RefreshSession,
        r.protection is ChangePassword <==> r.handler is ChangePassword,
        r.protection is ChangeUsername <==> r.handler is ChangeUsername,
        r.protection is Logout <==> r.handler is Logout,
        r.protection is Profile <==> r.handler is UpdateProfile,
        r.protection is Status <==> r.handler is UpdateAvailabilityStatus,
        r.protection is ImageUpload <==> r.handler is AddProfileImage,
        r.protection is BannerUpload <==> r.handler is AddProfileBanner,
        r.protection is AccountDisable <==> r.handler is DisableAccount,
        r.protection is RequestDeletion <==> r.handler is RequestAccountDeletion,
        r.protection is CancelDeletion <==> r.handler is CancelAccountDeletion,
        r.method is Patch <==> r.handler is UpdateLanguage,
        r.method is Delete <==> r.handler is RemoveProfileBanner || r.handler is RemoveProfileImage || r.handler is RevokeSession,
{
}

/// The guards of each protection, from the inside out.
pub proof fn guards_stand_in_order(p: Protection)
    ensures
        ({
            let g = guards_of(p);
            &&& p is Open ==> g.len() == 0
            &&& p is Account ==> g.len() == 2 && g[0] is RequireActiveAccount && g[1] is VerifyToken
            &&& p is Login ==> g.len() == 4 && g[0] is LoginLimiter && g[1] is VerifyTurnstile && g[2] is FallbackLogin && g[3] == Guard::LogActivity("login")
            &&& p is SecondFactorLogin ==> g.len() == 3 && g[0] is TwoFactorLoginLimiter && g[1] is VerifyTurnstile && g[2] is FallbackLogin
            &&& p is FactorChange ==> g.len() == 3 && g[0] is TwoFactorMutationLimiter && g[1] is RequireActiveAccount && g[2] is VerifyToken
            &&& p is Signup ==> g.len() == 6 && g[0] is RegistrationClosed && g[1] is SignupLimiter && g[2] is ValidatePassword && g[3] is VerifyTurnstile && g[4] is FallbackSignup && g[5] == Guard::LogActivity("signup")
            &&& p is Refresh ==> g.len() == 1 && g[0] is RefreshLimiter
            &&& p is ChangePassword ==> g.len() == 5 && g[0] is ValidatePassword && g[1] is RequireActiveAccount && g[2] is VerifyToken && g[3] == Guard::LogActivity("change-password") && g[4] is ChangePasswordLimiter
            &&& p is ChangeUsername ==> g.len() == 4 && g[0] is RequireActiveAccount && g[1] is VerifyToken && g[2] == Guard::LogActivity("change-username") && g[3] is ChangeUsernameLimiter
            &&& p is Logout ==> g.len() == 1 && g[0] is VerifyTokenForLogout
            &&& p is Profile ==> g.len() == 3 && g[0] == Guard::LogActivity("profile-update") && g[1] is RequireActiveAccount && g[2] is VerifyToken
            &&& p is Status ==> g.len() == 3 && g[0] is RequireActiveAccount && g[1] is VerifyToken && g[2] is StatusUpdateLimiter
            &&& p is ImageUpload ==> g.len() == 4 && g[0] == Guard::LogActivity("profile-image-upload") && g[1] is RequireActiveAccount && g[2] is VerifyToken && g[3] is UploadLimiter
            &&& p is BannerUpload ==> g.len() == 4 && g[0] == Guard::LogActivity("profile-banner-upload") && g[1] is RequireActiveAccount && g[2] is VerifyToken && g[3] is UploadLimiter
            &&& p is AccountDisable ==> g.len() == 4 && g[0] is TwoFactorMutationLimiter && g[1] is RequireActiveAccount && g[2] is VerifyToken && g[3] == Guard::LogActivity("account-disable")
            &&& p is RequestDeletion ==> g.len() == 4 && g[0] is TwoFactorMutationLimiter && g[1] is RequireActiveAccount && g[2] is VerifyToken && g[3] == Guard::LogActivity("account-request-deletion")
            &&& p is CancelDeletion ==> g.len() == 4 && g[0] is TwoFactorMutationLimiter && g[1] is RequireActiveAccount && g[2] is VerifyToken && g[3] == Guard::LogActivity("account-cancel-deletion")
        }),
{
}

/// A form with an image may have six mebibytes and one with a banner seven, each under its own
/// name.
pub proof fn forms_have_their_limits(p: Picture)
    ensures
        p is Image ==> form_limit_bytes_of(p) == 6 * 1024 * 1024 && form_field_of(p)
            == "profile-image",
        p is Banner ==> form_limit_bytes_of(p) == 7 * 1024 * 1024 && form_field_of(p)
            == "profile-banner",
{
}

/// A path is put together from its parts.
pub proof fn routes_keep_their_parts(path: &'static str, m: Method, p: Protection, h: Handler)
    ensures
        route_of(path, m, p, h).path == path,
        route_of(path, m, p, h).method == m,
        route_of(path, m, p, h).protection == p,
        route_of(path, m, p, h).handler == h,
{
}

} // verus!
