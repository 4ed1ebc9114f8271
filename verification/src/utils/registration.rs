//! Whether new accounts can be made, and how many.
use vstd::prelude::*;
use crate::text;

verus! {

/// Whether a setting is switched on: `1`, or `true`, `yes` or `on` in any case.
pub open spec fn flag_on(value: Option<Seq<char>>) -> bool {
    match value {
        Some(v) => {
            let t = text::trimmed(v);
            ||| t == "1"@
            ||| text::ascii_lower(t) == text::ascii_lower("true"@)
            ||| text::ascii_lower(t) == text::ascii_lower("yes"@)
            ||| text::ascii_lower(t) == text::ascii_lower("on"@)
        },
        None => false,
    }
}

/// Whether a setting is switched on.
pub fn env_flag(value: &Option<String>) -> (r: bool)
    ensures
        r == flag_on(text::opt_text(*value)),
{
    match value {
        Some(v) => {
            let t = text::trim(v);
            text::same_text(t, "1") || text::eq_ignore_ascii_case(t, "true")
                || text::eq_ignore_ascii_case(t, "yes") || text::eq_ignore_ascii_case(t, "on")
        },
        None => false,
    }
}

/// A setting that is a number above zero; the default if it is anything else.
pub open spec fn number_setting(value: Option<Seq<char>>, default: u64) -> u64 {
    match value {
        Some(v) => match text::number_in(text::trimmed(v), u64::MAX as nat) {
            Some(n) => if n > 0 {
                n as u64
            } else {
                default
            },
            None => default,
        },
        None => default,
    }
}

/// A setting that is a number above zero.
pub fn env_u64(value: &Option<String>, default: u64) -> (r: u64)
    ensures
        r == number_setting(text::opt_text(*value), default),
{
    match value {
        Some(v) => match text::parse_number(text::trim(v), u64::MAX) {
            Some(n) => if n > 0 {
                n
            } else {
                default
            },
            None => default,
        },
        None => default,
    }
}

/// A setting that is a number above zero, of which the lower 32 bits count.
pub fn env_u32(value: &Option<String>, default: u32) -> (r: u32)
    ensures
        r as int == number_setting(text::opt_text(*value), default as u64) as int % 0x1_0000_0000,
{
    let n: u64 = env_u64(value, default as u64);
    (n % 0x1_0000_0000) as u32
}

/// A setting within 32 bits counts as it is.
pub proof fn small_settings_count_as_they_are(value: Option<Seq<char>>, default: u32)
    requires
        number_setting(value, default as u64) <= u32::MAX,
    ensures
        number_setting(value, default as u64) as int % 0x1_0000_0000 == number_setting(
            value,
            default as u64,
        ),
{
}

/// Whether new accounts are turned away; `value` is the setting `REGISTRATION_DISABLED`.
pub fn is_registration_disabled(value: &Option<String>) -> (r: bool)
    ensures
        r == flag_on(text::opt_text(*value)),
{
    env_flag(value)
}

/// Whether new accounts can be made.
pub fn is_registration_open(value: &Option<String>) -> (r: bool)
    ensures
        r == !flag_on(text::opt_text(*value)),
{
    !is_registration_disabled(value)
}

/// How many accounts one address may make within an hour, unless the setting says otherwise.
pub open spec fn per_ip_hour_default(production: bool) -> u32 {
    if production {
        8
    } else {
        20
    }
}

/// How many accounts may be made within an hour, unless the setting says otherwise.
pub open spec fn per_hour_default(production: bool) -> u64 {
    if production {
        25
    } else {
        200
    }
}

/// How many accounts may be made within a day, unless the setting says otherwise.
pub open spec fn per_day_default(production: bool) -> u64 {
    if production {
        100
    } else {
        1000
    }
}

/// How many accounts one address may make within an hour; `value` is the setting
/// `SIGNUP_MAX_PER_IP_HOUR`.
pub fn signup_max_per_ip_hour(value: &Option<String>, production: bool) -> (r: u32)
    ensures
        r as int == number_setting(
            text::opt_text(*value),
            per_ip_hour_default(production) as u64,
        ) as int % 0x1_0000_0000,
{
    env_u32(
        value,
        if production {
            8
        } else {
            20
        },
    )
}

/// How many accounts may be made within an hour; `value` is the setting
/// `SIGNUP_MAX_GLOBAL_PER_HOUR`.
pub fn signup_max_global_per_hour(value: &Option<String>, production: bool) -> (r: u64)
    ensures
        r == number_setting(text::opt_text(*value), per_hour_default(production)),
{
    env_u64(
        value,
        if production {
            25
        } else {
            200
        },
    )
}

/// How many accounts may be made within a day; `value` is the setting
/// `SIGNUP_MAX_GLOBAL_PER_DAY`.
pub fn signup_max_global_per_day(value: &Option<String>, production: bool) -> (r: u64)
    ensures
        r == number_setting(text::opt_text(*value), per_day_default(production)),
{
    env_u64(
        value,
        if production {
            100
        } else {
            1000
        },
    )
}

/// Why there is no room for a new account now.
#[derive(Clone, Copy, Debug, PartialEq, Eq, Structural)]
pub enum SignupQuotaError {
    HourlyLimit,
    DailyLimit,
    Unavailable,
}

impl SignupQuotaError {
    /// What people are told.
    pub open spec fn told(self) -> &'static str {
        match self {
            SignupQuotaError::HourlyLimit | SignupQuotaError::DailyLimit =>
                "Rejestracja jest tymczasowo niedostępna z powodu dużego obciążenia. Spróbuj ponownie później.",
            SignupQuotaError::Unavailable => "Temporarily unavailable. Retry.",
        }
    }

    /// The code of the reason.
    pub open spec fn name(self) -> &'static str {
        match self {
            SignupQuotaError::HourlyLimit => "SIGNUP_HOURLY_LIMIT",
            SignupQuotaError::DailyLimit => "SIGNUP_DAILY_LIMIT",
            SignupQuotaError::Unavailable => "UNAVAILABLE",
        }
    }

    /// What people are told.
    pub fn user_message(self) -> (r: &'static str)
        ensures
            r == self.told(),
    {
        match self {
            SignupQuotaError::HourlyLimit | SignupQuotaError::DailyLimit =>
                "Rejestracja jest tymczasowo niedostępna z powodu dużego obciążenia. Spróbuj ponownie później.",
            SignupQuotaError::Unavailable => "Temporarily unavailable. Retry.",
        }
    }

    /// The code of the reason.
    pub fn code(self) -> (r: &'static str)
        ensures
            r == self.name(),
    {
        match self {
            SignupQuotaError::HourlyLimit => "SIGNUP_HOURLY_LIMIT",
            SignupQuotaError::DailyLimit => "SIGNUP_DAILY_LIMIT",
            SignupQuotaError::Unavailable => "UNAVAILABLE",
        }
    }
}

/// Division that drops what is left over, towards zero.
pub open spec fn quotient(a: int, b: int) -> int {
    if a >= 0 {
        a / b
    } else {
        -((-a) / b)
    }
}

/// The hour of a point in time.
pub open spec fn hour_of(millis: int) -> int {
    quotient(quotient(millis, 1000), 3600)
}

/// The day of a point in time.
pub open spec fn day_of(millis: int) -> int {
    quotient(quotient(millis, 1000), 86400)
}

fn divide(a: i64, b: i64) -> (r: i64)
    requires
        b > 1,
    ensures
        r as int == quotient(a as int, b as int),
{
    if a >= 0 {
        a / b
    } else {
        let m: u64 = (-(a as i128)) as u64;
        let d: u64 = b as u64;
        let q: u64 = m / d;
        proof {
            assert(q as int <= m as int / 2) by (nonlinear_arith)
                requires
                    q as int == m as int / d as int,
                    d >= 2,
            ;
        }
        -(q as i64)
    }
}

/// The names of the hour and the day within which accounts are counted.
pub fn utc_window_keys(now_millis: i64) -> (r: (String, String))
    ensures
        r.0@ == "hour:"@ + text::signed_decimal(hour_of(now_millis as int)),
        r.1@ == "day:"@ + text::signed_decimal(day_of(now_millis as int)),
{
    let secs: i64 = divide(now_millis, 1000);
    let hour: i64 = divide(secs, 3600);
    let day: i64 = divide(secs, 86400);
    let mut h = "hour:".to_owned();
    text::push_signed(&mut h, hour);
    let mut d = "day:".to_owned();
    text::push_signed(&mut d, day);
    (h, d)
}

/// Two points in time since 1970 within the same hour have the same hour, and two within
/// different hours have not; likewise for days.
pub proof fn windows_follow_the_clock(a: int, b: int)
    requires
        0 <= a,
        0 <= b,
    ensures
        hour_of(a) == a / 3_600_000,
        day_of(a) == a / 86_400_000,
        hour_of(a) == hour_of(b) <==> a / 3_600_000 == b / 3_600_000,
{
    windows_divide(a);
    windows_divide(b);
}

proof fn windows_divide(a: int)
    requires
        0 <= a,
    ensures
        hour_of(a) == a / 3_600_000,
        day_of(a) == a / 86_400_000,
{
    vstd::arithmetic::div_mod::lemma_div_denominator(a, 1000, 3600);
    vstd::arithmetic::div_mod::lemma_div_denominator(a, 1000, 86400);
}

/// A number of 64 bits read as a signed one.
pub open spec fn as_signed(n: u64) -> int {
    if n <= i64::MAX {
        n as int
    } else {
        n as int - 0x1_0000_0000_0000_0000
    }
}

/// What becomes of a place in a window.
#[derive(Clone, Copy, Debug, PartialEq, Eq, Structural)]
pub enum WindowNext {
    /// Count one more.
    Count,
    /// The window has no room: count one less again.
    GiveBack,
    Taken,
    Full,
    Failed,
}

/// Whether a window that was counted up to `count` has room.
pub open spec fn has_room(count: i64, max: u64) -> bool {
    count as int <= as_signed(max)
}

/// Whether a window that was counted up to `count` has room for the last one counted.
pub fn window_has_room(count: i64, max: u64) -> (r: bool)
    ensures
        r == has_room(count, max),
{
    (count as i128) <= (if max <= 0x7fff_ffff_ffff_ffff {
        max as i128
    } else {
        max as i128 - 0x1_0000_0000_0000_0000
    })
}

/// What to do next about a place in a window: it is counted first, and given back if that was
/// one too many. `counted` is the count after counting, none within it if there is no window;
/// an error if the store could not be reached.
pub open spec fn try_consume_window_next(counted: Option<Result<Option<i64>, ()>>, max: u64, given_back: bool) -> WindowNext {
    match counted {
        None => WindowNext::Count,
        Some(Err(_)) => WindowNext::Failed,
        Some(Ok(n)) => {
            let count = match n {
                Some(c) => c,
                None => 0i64,
            };
            if has_room(count, max) {
                WindowNext::Taken
            } else if given_back {
                WindowNext::Full
            } else {
                WindowNext::GiveBack
            }
        },
    }
}

/// What to do next about a place in a window: it is counted first, and given back if that was
/// one too many. `counted` is the count after counting, none within it if there is no window;
/// an error if the store could not be reached.
pub fn try_consume_window(counted: Option<Result<Option<i64>, ()>>, max: u64, given_back: bool) -> (r: WindowNext)
    ensures
        r == try_consume_window_next(counted, max, given_back),
{
    match counted {
        None => WindowNext::Count,
        Some(Err(_)) => WindowNext::Failed,
        Some(Ok(n)) => {
            let count = match n {
                Some(c) => c,
                None => 0i64,
            };
            if window_has_room(count, max) {
                WindowNext::Taken
            } else if given_back {
                WindowNext::Full
            } else {
                WindowNext::GiveBack
            }
        },
    }
}

/// What a window holds after one more try: one more if there was room, and as much as before
/// if there was none.
pub open spec fn settled(before: int, max: int) -> int {
    if before + 1 <= max {
        before + 1
    } else {
        before
    }
}

/// A window never settles above its limit, and a try that finds no room leaves it as it was.
pub proof fn windows_settle_within_their_limit(before: i64, max: u64, given_back: bool)
    requires
        0 <= before < i64::MAX,
        max <= i64::MAX,
        before <= max,
    ensures
        ({
            let counted = Some(Ok::<Option<i64>, ()>(Some((before + 1) as i64)));
            let next = try_consume_window_next(counted, max, given_back);
            &&& next == WindowNext::Taken <==> settled(before as int, max as int) == before + 1
            &&& next != WindowNext::Taken ==> (next == WindowNext::GiveBack || next
                == WindowNext::Full) && settled(before as int, max as int) == before
            &&& settled(before as int, max as int) <= max
        }),
{
}

/// What is known so far about a place for a new account.
#[derive(Clone, Copy, Debug)]
pub struct SlotFacts {
    /// Whether the hour had room; an error if the store could not be reached.
    pub hour: Option<Result<bool, ()>>,
    pub day: Option<Result<bool, ()>>,
    /// Whether the place in the hour was given back.
    pub hour_given_back: bool,
}

/// What to do next about a place for a new account.
#[derive(Clone, Copy, Debug, PartialEq, Eq, Structural)]
pub enum SlotNext {
    ConsumeHour,
    ConsumeDay,
    /// The day is full: give the place in the hour back.
    GiveHourBack,
    Refuse(SignupQuotaError),
    Granted,
}

/// What to do next about a place for a new account: one in the hour and one in the day, and
/// neither without the other.
pub open spec fn try_consume_global_signup_slot_next(facts: SlotFacts) -> SlotNext {
    match (facts.hour, facts.day) {
        (None, _) => SlotNext::ConsumeHour,
        (Some(Err(_)), _) => SlotNext::Refuse(SignupQuotaError::Unavailable),
        (Some(Ok(false)), _) => SlotNext::Refuse(SignupQuotaError::HourlyLimit),
        (Some(Ok(true)), None) => SlotNext::ConsumeDay,
        (Some(Ok(true)), Some(Err(_))) => SlotNext::Refuse(SignupQuotaError::Unavailable),
        (Some(Ok(true)), Some(Ok(false))) => if facts.hour_given_back {
            SlotNext::Refuse(SignupQuotaError::DailyLimit)
        } else {
            SlotNext::GiveHourBack
        },
        (Some(Ok(true)), Some(Ok(true))) => SlotNext::Granted,
    }
}

/// What to do next about a place for a new account: one in the hour and one in the day, and
/// neither without the other.
pub fn try_consume_global_signup_slot(facts: &SlotFacts) -> (r: SlotNext)
    ensures
        r == try_consume_global_signup_slot_next(*facts),
{
    match (facts.hour, facts.day) {
        (None, _) => SlotNext::ConsumeHour,
        (Some(Err(_)), _) => SlotNext::Refuse(SignupQuotaError::Unavailable),
        (Some(Ok(false)), _) => SlotNext::Refuse(SignupQuotaError::HourlyLimit),
        (Some(Ok(true)), None) => SlotNext::ConsumeDay,
        (Some(Ok(true)), Some(Err(_))) => SlotNext::Refuse(SignupQuotaError::Unavailable),
        (Some(Ok(true)), Some(Ok(false))) => if facts.hour_given_back {
            SlotNext::Refuse(SignupQuotaError::DailyLimit)
        } else {
            SlotNext::GiveHourBack
        },
        (Some(Ok(true)), Some(Ok(true))) => SlotNext::Granted,
    }
}

/// An account is granted only with a place in the hour and in the day; one that is refused
/// because the day is full keeps no place in the hour.
pub proof fn slots_are_taken_together(facts: SlotFacts)
    ensures
        try_consume_global_signup_slot_next(facts) is Granted ==> facts.hour == Some(
            Ok::<bool, ()>(true),
        ) && facts.day == Some(Ok::<bool, ()>(true)),
        try_consume_global_signup_slot_next(facts) == SlotNext::Refuse(
            SignupQuotaError::DailyLimit,
        ) ==> facts.hour_given_back,
{
}

/// A setting switches something on exactly if it says so in one of four ways, white space aside.
pub proof fn only_four_words_switch_on(v: Option<Seq<char>>)
    ensures
        v is None ==> !flag_on(v),
        v is Some ==> (flag_on(v) <==> text::trimmed(v->0) == "1"@ || text::ascii_lower(
            text::trimmed(v->0),
        ) == text::ascii_lower("true"@) || text::ascii_lower(text::trimmed(v->0))
            == text::ascii_lower("yes"@) || text::ascii_lower(text::trimmed(v->0))
            == text::ascii_lower("on"@)),
{
}

/// A setting counts as a number exactly if it writes one above zero; otherwise the default does.
pub proof fn settings_count_if_they_are_positive(v: Option<Seq<char>>, default: u64)
    ensures
        ({
            let n = text::number_in(text::trimmed(v->0), 0xffff_ffff_ffff_ffff);
            let written = v is Some && n is Some && n->0 != 0;
            &&& written ==> number_setting(v, default) == n->0
            &&& !written ==> number_setting(v, default) == default
        }),
{
}

/// A public server takes fewer new accounts than one for development.
pub proof fn limits_of_new_accounts(production: bool)
    ensures
        production ==> per_ip_hour_default(production) == 8 && per_hour_default(production) == 25
            && per_day_default(production) == 100,
        !production ==> per_ip_hour_default(production) == 20 && per_hour_default(production) == 200
            && per_day_default(production) == 1000,
{
}

/// People are told the same whether the hour or the day is full, and the code tells which.
pub proof fn full_windows_are_told(e: SignupQuotaError)
    ensures
        e is Unavailable ==> e.told() == "Temporarily unavailable. Retry." && e.name()
            == "UNAVAILABLE",
        !(e is Unavailable) ==> e.told()
            == "Rejestracja jest tymczasowo niedostępna z powodu dużego obciążenia. Spróbuj ponownie później.",
        e is HourlyLimit ==> e.name() == "SIGNUP_HOURLY_LIMIT",
        e is DailyLimit ==> e.name() == "SIGNUP_DAILY_LIMIT",
{
}

/// A window has room for as many as its limit, and not for one more. A limit beyond what can be
/// counted has room for nobody.
pub proof fn windows_have_room_up_to_their_limit(count: i64, max: u64)
    ensures
        max <= 0x7fff_ffff_ffff_ffff ==> (has_room(count, max) <==> count <= max),
        max > 0x7fff_ffff_ffff_ffff && count >= 0 ==> !has_room(count, max),
        max > 0x7fff_ffff_ffff_ffff ==> (has_room(count, max) <==> count + 0x1_0000_0000_0000_0000
            <= max),
{
}

/// A place in a window is counted first; one too many is given back, once, and then the window is
/// full. Where counting fails nothing is taken.
pub proof fn places_are_counted_then_taken(
    counted: Option<Result<Option<i64>, ()>>,
    max: u64,
    given_back: bool,
)
    requires
        max <= 0x7fff_ffff_ffff_ffff,
    ensures
        ({
            let next = try_consume_window_next(counted, max, given_back);
            let told = counted is Some && counted->0 is Ok;
            let count: int = if counted->0->Ok_0 is Some {
                counted->0->Ok_0->0 as int
            } else {
                0
            };
            &&& next is Count <==> counted is None
            &&& next is Failed <==> counted is Some && counted->0 is Err
            &&& next is Taken <==> told && count <= max
            &&& next is GiveBack <==> told && count > max && !given_back
            &&& next is Full <==> told && count > max && given_back
        }),
{
}

/// A place for a new account is asked for in the hour first and then in the day; each refusal
/// comes for its own reason, and a full day gives the hour back.
pub proof fn new_accounts_need_room_in_hour_and_day(facts: SlotFacts)
    ensures
        ({
            let next = try_consume_global_signup_slot_next(facts);
            let hour = facts.hour == Some(Ok::<bool, ()>(true));
            let day_full = facts.day == Some(Ok::<bool, ()>(false));
            let failed = (facts.hour is Some && facts.hour->0 is Err) || (hour && facts.day is Some
                && facts.day->0 is Err);
            &&& next is ConsumeHour <==> facts.hour is None
            &&& next is ConsumeDay <==> hour && facts.day is None
            &&& next is GiveHourBack <==> hour && day_full && !facts.hour_given_back
            &&& next == SlotNext::Refuse(SignupQuotaError::Unavailable) <==> failed
            &&& next == SlotNext::Refuse(SignupQuotaError::HourlyLimit) <==> facts.hour == Some(
                Ok::<bool, ()>(false),
            )
            &&& next == SlotNext::Refuse(SignupQuotaError::DailyLimit) <==> hour && day_full
                && facts.hour_given_back
            &&& next is Granted <==> hour && facts.day == Some(Ok::<bool, ()>(true))
        }),
{
    if facts.hour is Some && facts.hour->0 is Ok {
        assert(facts.hour == Some(Ok::<bool, ()>(facts.hour->0->Ok_0)));
    }
    if facts.day is Some && facts.day->0 is Ok {
        assert(facts.day == Some(Ok::<bool, ()>(facts.day->0->Ok_0)));
    }
}

/// Division drops what is left over towards zero, before 1970 as after it.
pub proof fn division_drops_towards_zero(a: int, b: int)
    requires
        a >= 0,
        b > 0,
    ensures
        quotient(a, b) == a / b,
        quotient(-a, b) == -(a / b),
{
}

} // verus!
