//! Asking for the password, and for a second factor, before something that matters.
use vstd::prelude::*;
use crate::lists::texts;
use crate::reply::{internal_error, message_reply, slow_reply, unavailable, Reply};
use crate::text;

verus! {

/// What the check of a password said.
#[derive(Clone, Copy, Debug, PartialEq, Eq, Structural)]
pub enum PasswordCheck {
    Matches,
    Differs,
    Unavailable,
}

/// What the check of a password comes to: whether it matches, or the answer if that could not
/// be found out.
pub open spec fn password_matches_of(check: PasswordCheck) -> Result<bool, Reply> {
    match check {
        PasswordCheck::Matches => Ok(true),
        PasswordCheck::Differs => Ok(false),
        PasswordCheck::Unavailable => Err(unavailable()),
    }
}

/// What the check of a password comes to: whether it matches, or the answer if that could not
/// be found out.
pub fn password_matches(check: PasswordCheck) -> (r: Result<bool, Reply>)
    ensures
        r == password_matches_of(check),
{
    match check {
        PasswordCheck::Matches => Ok(true),
        PasswordCheck::Differs => Ok(false),
        PasswordCheck::Unavailable => Err(unavailable()),
    }
}

/// What the check of a second factor said.
#[derive(Clone, Copy, Debug, PartialEq, Eq, Structural)]
pub enum StepUp {
    NotRequired,
    Verified,
    /// It was the backup code with this number, which is used up now.
    BackupConsumed { index: usize },
    /// It was refused with a message.
    Refused,
}

/// The status of a refusal over a second factor.
pub open spec fn step_up_status_of(message: Seq<char>) -> u16 {
    if text::begins_with(message, "Temporarily unavailable"@) {
        503
    } else {
        400
    }
}

/// The status of a refusal over a second factor: by its message.
pub fn step_up_err_response(message: &str) -> (r: u16)
    ensures
        r == step_up_status_of(message@),
{
    if text::starts_with(message, "Temporarily unavailable") {
        503
    } else {
        400
    }
}

/// What is known so far about a second factor.
#[derive(Clone, Copy, Debug)]
pub struct StepUpFacts {
    pub step_up: Option<StepUp>,
    /// Whether the backup codes that are left could be saved.
    pub saved: Option<bool>,
}

/// What to do next about a second factor.
#[derive(Clone, Copy, Debug)]
pub enum StepUpNext {
    Verify,
    SaveCodes { index: usize },
    /// Answer with the message of the refusal, held back for a moment.
    Refuse,
    Fail,
    Passed,
}

/// What to do next about a second factor.
pub open spec fn step_up_next(facts: StepUpFacts) -> StepUpNext {
    match facts.step_up {
        None => StepUpNext::Verify,
        Some(StepUp::Refused) => StepUpNext::Refuse,
        Some(StepUp::NotRequired) => StepUpNext::Passed,
        Some(StepUp::Verified) => StepUpNext::Passed,
        Some(StepUp::BackupConsumed { index }) => match facts.saved {
            None => StepUpNext::SaveCodes { index },
            Some(true) => StepUpNext::Passed,
            Some(false) => StepUpNext::Fail,
        },
    }
}

/// What to do next about a second factor.
#[verifier::when_used_as_spec(step_up_next)]
pub fn step_up(facts: StepUpFacts) -> (r: StepUpNext)
    ensures
        r == step_up_next(facts),
{
    match facts.step_up {
        None => StepUpNext::Verify,
        Some(StepUp::Refused) => StepUpNext::Refuse,
        Some(StepUp::NotRequired) => StepUpNext::Passed,
        Some(StepUp::Verified) => StepUpNext::Passed,
        Some(StepUp::BackupConsumed { index }) => match facts.saved {
            None => StepUpNext::SaveCodes { index },
            Some(true) => StepUpNext::Passed,
            Some(false) => StepUpNext::Fail,
        },
    }
}

/// A second factor lets somebody pass exactly if none is needed, if it was verified, or if it was a
/// backup code that was then taken out of the stored ones; each other outcome has its own cause.
pub proof fn factors_pass_when_settled(facts: StepUpFacts, index: usize)
    ensures
        ({
            let next = step_up_next(facts);
            let used = facts.step_up is Some && facts.step_up->0 is BackupConsumed;
            &&& next is Verify <==> facts.step_up is None
            &&& next is Refuse <==> facts.step_up == Some(StepUp::Refused)
            &&& next == (StepUpNext::SaveCodes { index }) <==> facts.step_up == Some(
                StepUp::BackupConsumed { index },
            ) && facts.saved is None
            &&& next is Fail <==> used && facts.saved == Some(false)
            &&& next is Passed <==> facts.step_up == Some(StepUp::NotRequired) || facts.step_up
                == Some(StepUp::Verified) || (used && facts.saved == Some(true))
        }),
{
}

/// A used backup code lets somebody pass only once it is taken out of the stored ones.
pub proof fn used_codes_are_taken_out(facts: StepUpFacts)
    ensures
        step_up_next(facts) is Passed && (facts.step_up matches Some(
            StepUp::BackupConsumed { .. },
        )) ==> facts.saved == Some(true),
{
}

/// What is known so far about the credentials for something that concerns the account.
#[derive(Clone, Copy, Debug)]
pub struct CredentialFacts {
    /// Whether no password was given.
    pub password_empty: bool,
    pub password: Option<PasswordCheck>,
    pub second: StepUpFacts,
}

/// What to do next about the credentials for something that concerns the account.
#[derive(Clone, Copy, Debug)]
pub enum CredentialNext {
    Reply(Reply),
    CheckPassword,
    VerifyStepUp,
    SaveCodes { index: usize },
    RefuseStepUp,
    Passed,
}

/// What to do next about the credentials for something that concerns the account: the
/// password, and then the second factor.
pub open spec fn verify_account_action_credentials_next(facts: CredentialFacts) -> CredentialNext {
    if facts.password_empty {
        CredentialNext::Reply(message_reply(400, "Hasło jest wymagane."))
    } else {
        match facts.password {
            None => CredentialNext::CheckPassword,
            Some(PasswordCheck::Unavailable) => CredentialNext::Reply(unavailable()),
            Some(PasswordCheck::Differs) => CredentialNext::Reply(
                slow_reply(400, "Hasło jest nieprawidłowe."),
            ),
            Some(PasswordCheck::Matches) => match step_up(facts.second) {
                StepUpNext::Verify => CredentialNext::VerifyStepUp,
                StepUpNext::SaveCodes { index } => CredentialNext::SaveCodes { index },
                StepUpNext::Refuse => CredentialNext::RefuseStepUp,
                StepUpNext::Fail => CredentialNext::Reply(internal_error()),
                StepUpNext::Passed => CredentialNext::Passed,
            },
        }
    }
}

/// What to do next about the credentials for something that concerns the account: the
/// password, and then the second factor.
#[verifier::when_used_as_spec(verify_account_action_credentials_next)]
pub fn verify_account_action_credentials(facts: CredentialFacts) -> (r: CredentialNext)
    ensures
        r == verify_account_action_credentials_next(facts),
{
    if facts.password_empty {
        CredentialNext::Reply(message_reply(400, "Hasło jest wymagane."))
    } else {
        match facts.password {
            None => CredentialNext::CheckPassword,
            Some(PasswordCheck::Unavailable) => CredentialNext::Reply(unavailable()),
            Some(PasswordCheck::Differs) => CredentialNext::Reply(
                slow_reply(400, "Hasło jest nieprawidłowe."),
            ),
            Some(PasswordCheck::Matches) => match step_up(facts.second) {
                StepUpNext::Verify => CredentialNext::VerifyStepUp,
                StepUpNext::SaveCodes { index } => CredentialNext::SaveCodes { index },
                StepUpNext::Refuse => CredentialNext::RefuseStepUp,
                StepUpNext::Fail => CredentialNext::Reply(internal_error()),
                StepUpNext::Passed => CredentialNext::Passed,
            },
        }
    }
}

/// What the credentials come to, outcome by outcome: a password is needed, then checked, then the
/// second factor is; both right and nothing less passes.
pub proof fn credentials_are_checked_in_order(facts: CredentialFacts, index: usize)
    ensures
        ({
            let next = verify_account_action_credentials_next(facts);
            let given = !facts.password_empty;
            let right = given && facts.password == Some(PasswordCheck::Matches);
            let second = step_up_next(facts.second);
            &&& !given ==> next == CredentialNext::Reply(
                crate::reply::message_reply_of(400, "Hasło jest wymagane."),
            )
            &&& next is CheckPassword <==> given && facts.password is None
            &&& given && facts.password == Some(PasswordCheck::Unavailable) ==> next
                == CredentialNext::Reply(crate::reply::unavailable_of())
            &&& given && facts.password == Some(PasswordCheck::Differs) ==> next
                == CredentialNext::Reply(
                crate::reply::slow_reply_of(400, "Hasło jest nieprawidłowe."),
            )
            &&& next is VerifyStepUp <==> right && second is Verify
            &&& next == (CredentialNext::SaveCodes { index }) <==> right && second == (
            StepUpNext::SaveCodes { index })
            &&& next is RefuseStepUp <==> right && second is Refuse
            &&& right && second is Fail ==> next == CredentialNext::Reply(
                crate::reply::internal_error_of(),
            )
            &&& next is Passed <==> right && second is Passed
        }),
{
}

/// Credentials pass only with the right password and a second factor that was not refused.
pub proof fn credentials_need_password_and_factor(facts: CredentialFacts)
    ensures
        verify_account_action_credentials_next(facts) is Passed ==> {
            &&& !facts.password_empty
            &&& facts.password == Some(PasswordCheck::Matches)
            &&& facts.second.step_up is Some && !(facts.second.step_up == Some(StepUp::Refused))
        },
{
}

/// How long a failed login is held back, in milliseconds; `nanos` is what is left of the
/// second.
pub fn login_delay_ms(nanos: u32) -> (r: u64)
    ensures
        r == 100 + nanos % 400,
        100 <= r < 500,
{
    100 + (nanos % 400) as u64
}

/// The backup codes that are left after one was used; none if it was the last.
pub open spec fn codes_left(codes: Seq<Seq<char>>, index: int) -> Option<Seq<Seq<char>>> {
    if codes.len() <= 1 {
        None
    } else {
        Some(codes.remove(index))
    }
}

/// The backup codes that are left after one was used.
pub fn backup_codes_after_consumption(codes: &Vec<String>, index: usize) -> (r: Option<Vec<String>>)
    requires
        index < codes.len(),
    ensures
        match r {
            Some(v) => codes_left(texts(codes@), index as int) == Some(texts(v@)),
            None => codes_left(texts(codes@), index as int) is None,
        },
{
    if codes.len() <= 1 {
        return None;
    }
    let ghost all = texts(codes@);
    let mut out: Vec<String> = Vec::new();
    let mut i: usize = 0;
    proof {
        assert(texts(out@) =~= all.take(0));
    }
    while i < codes.len()
        invariant
            i <= codes.len(),
            index < codes.len(),
            all == texts(codes@),
            texts(out@) == (if i <= index {
                all.take(i as int)
            } else {
                all.remove(index as int).take(i - 1)
            }),
        decreases codes.len() - i,
    {
        if i != index {
            let c = codes[i].clone();
            proof {
                assert(texts(out@.push(c)) =~= texts(out@).push(c@));
                if i < index {
                    assert(all.take(i + 1) =~= all.take(i as int).push(c@));
                } else {
                    let rest = all.remove(index as int);
                    assert(rest[i - 1] == all[i as int]);
                    assert(rest.take(i as int) =~= rest.take(i - 1).push(c@));
                }
            }
            out.push(c);
        } else {
            proof {
                assert(all.remove(index as int).take(i as int) =~= all.take(i as int));
            }
        }
        i = i + 1;
    }
    proof {
        let rest = all.remove(index as int);
        assert(rest.take(rest.len() as int) =~= rest);
    }
    Some(out)
}

/// A password check that could not be made is told apart from one that failed.
pub proof fn password_checks_are_told_apart(check: PasswordCheck)
    ensures
        password_matches_of(check) == Ok::<bool, Reply>(true) <==> check == PasswordCheck::Matches,
        password_matches_of(check) == Ok::<bool, Reply>(false) <==> check == PasswordCheck::Differs,
        check == PasswordCheck::Unavailable ==> password_matches_of(check) == Err::<bool, Reply>(
            crate::reply::unavailable_of(),
        ),
{
}

/// A refusal over a second factor is out of reach exactly if its message begins so.
pub proof fn refused_factors_have_a_status(message: Seq<char>)
    ensures
        step_up_status_of(message) == 503 <==> text::begins_with(
            message,
            "Temporarily unavailable"@,
        ),
        step_up_status_of(message) == 400 <==> !text::begins_with(
            message,
            "Temporarily unavailable"@,
        ),
{
}

/// After a backup code was used, every other one is left, in the same order, and none where it was the
/// last.
pub proof fn other_codes_are_left(codes: Seq<Seq<char>>, index: int, i: int)
    requires
        0 <= index < codes.len(),
    ensures
        codes.len() == 1 ==> codes_left(codes, index) is None,
        codes.len() > 1 ==> codes_left(codes, index) is Some && codes_left(codes, index)->0.len()
            == codes.len() - 1,
        0 <= i < codes.len() && i != index ==> codes_left(codes, index)->0[if i < index {
            i
        } else {
            i - 1
        }] == codes[i],
{
}

} // verus!
