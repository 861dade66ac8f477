//! Resetting a forgotten password through an e-mailed token.

use vstd::prelude::*;
use crate::forms::{ResetPasswordForm, ResetPasswordInfo};
use crate::password::{argon2_hash, is_argon2id_hash_of, within_hash_limit};
use crate::text::{decimal, replace_all, replace_text, u64_to_decimal};

verus! {

/// An account found by the identifier of a reset request.
#[derive(Debug, Clone, PartialEq)]
pub struct ResetCandidate {
    pub id: i32,
    pub email: String,
}

/// Why an identifier does not name exactly one account.
#[derive(Debug, Clone, Copy, PartialEq, Eq)]
pub enum LookupFailure {
    /// Several accounts share the e-mail address.
    AmbiguousEmail,
    /// No account has it as e-mail address or user name.
    NotFound,
    /// It names several accounts.
    Ambiguous,
}

/// Whether an identifier names exactly one account, from the number of
/// accounts with it as e-mail address and the number with it as e-mail
/// address or user name.
pub open spec fn lookup_rule(email_matches: u64, found: nat) -> Option<LookupFailure> {
    if email_matches > 1 {
        Some(LookupFailure::AmbiguousEmail)
    } else if found == 0 {
        Some(LookupFailure::NotFound)
    } else if found > 1 {
        Some(LookupFailure::Ambiguous)
    } else {
        None
    }
}

/// An identifier names exactly one account, and so passes the lookup, when
/// at most one account has it as e-mail address and exactly one account has it
/// as e-mail address or user name: in particular a user name that is nobody's
/// e-mail address passes.
pub proof fn lemma_lookup_passes_for_one_account(email_matches: u64, found: nat)
    ensures
        lookup_rule(email_matches, found) is None <==> (email_matches <= 1 && found == 1),
        lookup_rule(0, 1) is None,
        lookup_rule(1, 1) is None,
{
}

/// What the reset-request handler has learned so far; `None` marks a fact
/// it has not looked up yet.
#[derive(Debug, Clone, PartialEq)]
pub struct RequireResetFacts {
    pub email_matches: Option<u64>,
    pub candidates: Option<Vec<ResetCandidate>>,
}

/// How a reset request ends.
#[derive(Debug, Clone, PartialEq)]
pub enum RequireResetOutcome {
    Refused(LookupFailure),
    /// Store the account id under a fresh token and e-mail the token to the address.
    SendResetMail { uid: i32, email: String },
}

/// What the reset-request handler does next.
#[derive(Debug, Clone, PartialEq)]
pub enum RequireResetStep {
    NeedEmailMatches,
    NeedCandidates,
    Done(RequireResetOutcome),
}

impl LookupFailure {
    /// The message a reset request shows for this failure.
    pub fn request_message(&self) -> (res: String)
        ensures
            res@ == (match *self {
                LookupFailure::AmbiguousEmail => "此邮箱对应多个账号，请使用用户名！"@,
                LookupFailure::NotFound => "用户名或邮箱错误!"@,
                LookupFailure::Ambiguous => "请使用用户名!"@,
            }),
    {
        match self {
            LookupFailure::AmbiguousEmail => String::from_str("此邮箱对应多个账号，请使用用户名！"),
            LookupFailure::NotFound => String::from_str("用户名或邮箱错误!"),
            LookupFailure::Ambiguous => String::from_str("请使用用户名!"),
        }
    }

    /// The message a password reset shows for this failure.
    pub fn reset_message(&self) -> (res: String)
        ensures
            res@ == (match *self {
                LookupFailure::AmbiguousEmail => "此邮箱对应多个账号，请使用用户名！"@,
                LookupFailure::NotFound => "用户名错误！"@,
                LookupFailure::Ambiguous => "请使用用户名！"@,
            }),
    {
        match self {
            LookupFailure::AmbiguousEmail => String::from_str("此邮箱对应多个账号，请使用用户名！"),
            LookupFailure::NotFound => String::from_str("用户名错误！"),
            LookupFailure::Ambiguous => String::from_str("请使用用户名！"),
        }
    }
}

/// The next step of a request for a reset e-mail.
pub fn require_reset_password(facts: &RequireResetFacts) -> (res: RequireResetStep)
    ensures
        facts.email_matches is None ==> res == RequireResetStep::NeedEmailMatches,
        facts.email_matches is Some && facts.email_matches->0 > 1
            ==> res == RequireResetStep::Done(RequireResetOutcome::Refused(LookupFailure::AmbiguousEmail)),
        facts.email_matches is Some && facts.email_matches->0 <= 1 && facts.candidates is None
            ==> res == RequireResetStep::NeedCandidates,
        facts.email_matches is Some && facts.candidates is Some ==> ({
            let c = facts.candidates->0@;
            match lookup_rule(facts.email_matches->0, c.len()) {
                Some(f) => res == RequireResetStep::Done(RequireResetOutcome::Refused(f)),
                None => res == RequireResetStep::Done(
                    RequireResetOutcome::SendResetMail { uid: c[0].id, email: c[0].email }),
            }
        }),
        facts.email_matches is Some && facts.email_matches->0 <= 1 && facts.candidates is Some
            && facts.candidates->0@.len() == 1 ==> res == RequireResetStep::Done(RequireResetOutcome::SendResetMail {
                uid: facts.candidates->0@[0].id,
                email: facts.candidates->0@[0].email,
            }),
        res matches RequireResetStep::Done(RequireResetOutcome::SendResetMail { .. }) ==> facts.email_matches is Some
            && facts.email_matches->0 <= 1 && facts.candidates is Some && facts.candidates->0@.len() == 1,
{
    let n = match facts.email_matches {
        None => { return RequireResetStep::NeedEmailMatches; },
        Some(n) => n,
    };
    if n > 1 {
        return RequireResetStep::Done(RequireResetOutcome::Refused(LookupFailure::AmbiguousEmail));
    }
    let c = match &facts.candidates {
        None => { return RequireResetStep::NeedCandidates; },
        Some(c) => c,
    };
    if c.len() == 0 {
        return RequireResetStep::Done(RequireResetOutcome::Refused(LookupFailure::NotFound));
    }
    if c.len() > 1 {
        return RequireResetStep::Done(RequireResetOutcome::Refused(LookupFailure::Ambiguous));
    }
    RequireResetStep::Done(RequireResetOutcome::SendResetMail { uid: c[0].id, email: c[0].email.clone() })
}

/// The reset e-mail: the configured template with `{reset_token}` replaced
/// by the token.
pub fn reset_mail_body(template: &str, token: &str) -> (res: String)
    ensures
        res@ == replace_all(template@, "{reset_token}"@, token@),
{
    proof { reveal_strlit("{reset_token}"); }
    replace_text(template, "{reset_token}", token)
}

/// The notice shown after the reset e-mail is sent.
pub fn reset_mail_notice(expire_seconds: u64) -> (res: String)
    ensures
        res@ == "一封邮件已经发送到您邮箱的垃圾箱，并将在 "@ + decimal(expire_seconds as nat)
            + " 秒后过期，请注意查收。"@,
{
    let mut s = String::from_str("一封邮件已经发送到您邮箱的垃圾箱，并将在 ");
    let n = u64_to_decimal(expire_seconds);
    s.append(n.as_str());
    s.append(" 秒后过期，请注意查收。");
    s
}

/// What the password-reset handler has learned so far; `None` marks a fact
/// it has not looked up yet.
#[derive(Debug, Clone, PartialEq)]
pub struct ResetFacts {
    pub phone_only: bool,
    pub email_matches: Option<u64>,
    /// The ids of the accounts the identifier names (at most two).
    pub candidate_ids: Option<Vec<i32>>,
    /// What the cache held under the token, once read.
    pub stored: Option<Option<ResetPasswordInfo>>,
}

/// How a password reset ends.
#[derive(Debug, Clone, PartialEq)]
pub enum ResetOutcome {
    PhoneOnly,
    Refused(LookupFailure),
    /// No reset waits under the token.
    BadToken,
    /// The token was issued for another account.
    WrongUid,
    /// Hashing the new password failed: an internal error.
    HashFailed,
    /// Store this hash for the account and end its other sessions.
    SetPassword { uid: i32, hash: String },
}

/// What the password-reset handler does next.
#[derive(Debug, Clone, PartialEq)]
pub enum ResetStep {
    NeedEmailMatches,
    NeedCandidates,
    NeedStoredReset,
    Done(ResetOutcome),
}

impl ResetOutcome {
    /// The message shown for this outcome; empty for internal errors.
    pub fn message(&self) -> (res: String)
        ensures
            res@ == (match *self {
                ResetOutcome::PhoneOnly => "当前不使用邮箱重置密码!"@,
                ResetOutcome::BadToken => "Token错误或已过期!"@,
                ResetOutcome::WrongUid => "UID错误!"@,
                ResetOutcome::SetPassword { .. } => "密码重置完成，请使用新密码登录。"@,
                _ => Seq::<char>::empty(),
            }),
    {
        match self {
            ResetOutcome::PhoneOnly => String::from_str("当前不使用邮箱重置密码!"),
            ResetOutcome::BadToken => String::from_str("Token错误或已过期!"),
            ResetOutcome::WrongUid => String::from_str("UID错误!"),
            ResetOutcome::SetPassword { .. } => String::from_str("密码重置完成，请使用新密码登录。"),
            _ => String::new(),
        }
    }
}

/// The refusals of a password reset before the new password is hashed, in
/// the order they are checked, once every fact is known; `None` when the
/// request passes them all.
pub open spec fn reset_refusal(phone_only: bool, email_matches: u64, ids: Seq<i32>, stored: Option<ResetPasswordInfo>) -> Option<ResetOutcome> {
    if phone_only {
        Some(ResetOutcome::PhoneOnly)
    } else if lookup_rule(email_matches, ids.len()) is Some {
        Some(ResetOutcome::Refused(lookup_rule(email_matches, ids.len())->0))
    } else {
        match stored {
            None => Some(ResetOutcome::BadToken),
            Some(info) => if info.uid != ids[0] { Some(ResetOutcome::WrongUid) } else { None },
        }
    }
}

/// Whether the outcome is a new Argon2id hash for account `uid` that accepts
/// `password`.
pub open spec fn sets_password(outcome: ResetOutcome, uid: i32, password: Seq<char>) -> bool {
    match outcome {
        ResetOutcome::SetPassword { uid: u, hash } =>
            u == uid && is_argon2id_hash_of(password, hash@),
        _ => false,
    }
}

/// The next step of a password reset.
pub fn reset_password(facts: &ResetFacts, form: &ResetPasswordForm) -> (res: ResetStep)
    ensures
        !facts.phone_only && facts.email_matches is Some && facts.email_matches->0 <= 1
            && facts.candidate_ids is Some && facts.candidate_ids->0@.len() == 1
            && facts.stored is Some && facts.stored->0 is Some
            && facts.stored->0->0.uid == facts.candidate_ids->0@[0] && within_hash_limit(form.password@)
            ==> res is Done && sets_password(res->0, facts.candidate_ids->0@[0], form.password@),
        res is Done && res->0 is SetPassword ==> !facts.phone_only && facts.email_matches is Some
            && facts.email_matches->0 <= 1 && facts.candidate_ids is Some && facts.candidate_ids->0@.len() == 1
            && facts.stored is Some && facts.stored->0 is Some
            && facts.stored->0->0.uid == facts.candidate_ids->0@[0],
        facts.phone_only ==> res == ResetStep::Done(ResetOutcome::PhoneOnly),
        !facts.phone_only && facts.email_matches is None ==> res == ResetStep::NeedEmailMatches,
        !facts.phone_only && facts.email_matches is Some && facts.email_matches->0 > 1
            ==> res == ResetStep::Done(ResetOutcome::Refused(LookupFailure::AmbiguousEmail)),
        !facts.phone_only && facts.email_matches is Some && facts.email_matches->0 <= 1
            && facts.candidate_ids is None ==> res == ResetStep::NeedCandidates,
        !facts.phone_only && facts.email_matches is Some && facts.candidate_ids is Some
            && lookup_rule(facts.email_matches->0, facts.candidate_ids->0@.len()) is None
            && facts.stored is None ==> res == ResetStep::NeedStoredReset,
        facts.email_matches is Some && facts.candidate_ids is Some && facts.stored is Some ==> ({
            let refusal = reset_refusal(facts.phone_only, facts.email_matches->0, facts.candidate_ids->0@, facts.stored->0);
            match refusal {
                Some(r) => res == ResetStep::Done(r),
                None => if within_hash_limit(form.password@) {
                    res is Done && sets_password(res->0, facts.candidate_ids->0@[0], form.password@)
                } else {
                    res == ResetStep::Done(ResetOutcome::HashFailed)
                },
            }
        }),
        facts.email_matches is Some && facts.candidate_ids is Some && !facts.phone_only
            && lookup_rule(facts.email_matches->0, facts.candidate_ids->0@.len()) is Some
            ==> res == ResetStep::Done(ResetOutcome::Refused(
                lookup_rule(facts.email_matches->0, facts.candidate_ids->0@.len())->0)),
{
    if facts.phone_only {
        return ResetStep::Done(ResetOutcome::PhoneOnly);
    }
    let n = match facts.email_matches {
        None => { return ResetStep::NeedEmailMatches; },
        Some(n) => n,
    };
    if n > 1 {
        return ResetStep::Done(ResetOutcome::Refused(LookupFailure::AmbiguousEmail));
    }
    let ids = match &facts.candidate_ids {
        None => { return ResetStep::NeedCandidates; },
        Some(ids) => ids,
    };
    if ids.len() == 0 {
        return ResetStep::Done(ResetOutcome::Refused(LookupFailure::NotFound));
    }
    if ids.len() > 1 {
        return ResetStep::Done(ResetOutcome::Refused(LookupFailure::Ambiguous));
    }
    let info = match facts.stored {
        None => { return ResetStep::NeedStoredReset; },
        Some(None) => { return ResetStep::Done(ResetOutcome::BadToken); },
        Some(Some(info)) => info,
    };
    if info.uid != ids[0] {
        return ResetStep::Done(ResetOutcome::WrongUid);
    }
    match argon2_hash(form.password.as_str()) {
        Err(_) => ResetStep::Done(ResetOutcome::HashFailed),
        Ok(hash) => ResetStep::Done(ResetOutcome::SetPassword { uid: ids[0], hash }),
    }
}

} // verus!
