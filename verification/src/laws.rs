//! Properties that span several account endpoints.

use vstd::prelude::*;
use crate::forms::{EmailAuthInfo, RegisterForm, ResetPasswordInfo};
use crate::login::{login_rule, LoginCandidate, LoginOutcome};
use crate::password::{argon2_accepts, phc_string_parses};
use crate::password_reset::{lookup_rule, reset_refusal, sets_password, ResetOutcome};
use crate::registration::{account_of_form, email_auth_rule, EmailAuthOutcome};

verus! {

/// A registration confirmed with the e-mailed token and the same user name
/// creates exactly the account that was registered, and that account then
/// logs in with the password given at registration.
pub proof fn lemma_confirmed_registration_logs_in(form: RegisterForm, info: EmailAuthInfo, uid: i32, email_matches: u64)
    requires
        account_of_form(info, form),
        email_matches <= 1,
    ensures
        email_auth_rule(false, Some(info), form.username@) == EmailAuthOutcome::CreateAccount(info),
        login_rule(false, email_matches, seq![LoginCandidate { banned: false, password: info.password, id: uid }], form.password@)
            == LoginOutcome::LoggedIn(uid),
{
}

/// A login succeeds only for a single, unbanned account whose stored hash
/// accepts the password, and only when the session is not logged in.
pub proof fn lemma_login_requires_matching_password(logged_in: bool, email_matches: u64, candidates: Seq<LoginCandidate>, password: Seq<char>, uid: i32)
    requires
        login_rule(logged_in, email_matches, candidates, password) == LoginOutcome::LoggedIn(uid),
    ensures
        !logged_in,
        email_matches <= 1,
        candidates.len() == 1,
        candidates[0].id == uid,
        !candidates[0].banned,
        phc_string_parses(candidates[0].password@),
        argon2_accepts(password, candidates[0].password@),
{
}

/// A reset token issued for the account an identifier names is accepted by
/// the reset with the same identifier: none of the reset's checks refuses it.
pub proof fn lemma_issued_reset_token_accepted(email_matches: u64, ids: Seq<i32>)
    requires
        lookup_rule(email_matches, ids.len()) is None,
    ensures
        reset_refusal(false, email_matches, ids, Some(ResetPasswordInfo { uid: ids[0] })) is None,
        forall|other: i32| other != ids[0] ==>
            reset_refusal(false, email_matches, ids, Some(ResetPasswordInfo { uid: other })) == Some(ResetOutcome::WrongUid),
{
}

/// After a password reset, the account logs in with the new password.
pub proof fn lemma_reset_password_logs_in(outcome: ResetOutcome, uid: i32, password: Seq<char>, email_matches: u64)
    requires
        sets_password(outcome, uid, password),
        email_matches <= 1,
    ensures
        login_rule(false, email_matches, seq![LoginCandidate { banned: false, password: outcome->hash, id: uid }], password)
            == LoginOutcome::LoggedIn(uid),
{
}

} // verus!
