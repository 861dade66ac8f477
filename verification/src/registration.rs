//! Registering an account, directly or through an e-mailed token.

use vstd::prelude::*;
use crate::forms::{EmailAuthForm, EmailAuthInfo, RegisterForm};
use crate::password::{argon2_hash, is_argon2id_hash_of, within_hash_limit};
use crate::pattern::{regex_compiles, regex_finds_match, username_matches};
use crate::text::{decimal, replace_all, replace_text, text_eq, u64_to_decimal};

verus! {

/// The settings the registration endpoints read.
#[derive(Debug, Clone, PartialEq)]
pub struct RegistrationSettings {
    /// Registration and password reset go through phone numbers, not e-mail.
    pub phone_only: bool,
    /// A new account must confirm its e-mail address first.
    pub require_email_auth: bool,
    /// The pattern a user name must match.
    pub username_pattern: String,
}

/// What the registration handler has learned so far; `None` marks a fact it
/// has not looked up yet.
#[derive(Debug, Clone, PartialEq)]
pub struct RegisterFacts {
    /// Whether the session already holds a user id.
    pub logged_in: bool,
    /// How many accounts already have the requested user name.
    pub name_taken_by: Option<u64>,
}

/// How a registration request ends.
#[derive(Debug, Clone, PartialEq)]
pub enum RegisterOutcome {
    PhoneOnly,
    AlreadyLoggedIn,
    /// The configured user-name pattern does not compile: an internal error.
    BadPattern,
    /// The user name does not match the pattern.
    NameRejected,
    NameTaken,
    /// Hashing the password failed: an internal error.
    HashFailed,
    /// Store this under a fresh token and e-mail the token to the address.
    SendAuthMail(EmailAuthInfo),
    /// Create this account and log the session into it.
    CreateAccount(EmailAuthInfo),
}

/// What the registration handler does next.
#[derive(Debug, Clone, PartialEq)]
pub enum RegisterStep {
    NeedNameTakenCount,
    Done(RegisterOutcome),
}

/// The refusals of a registration, in the order they are checked; `None`
/// when the request passes them all.
pub open spec fn register_refusal(settings: RegistrationSettings, logged_in: bool, name_taken_by: Option<u64>, username: Seq<char>) -> Option<RegisterOutcome> {
    if settings.phone_only {
        Some(RegisterOutcome::PhoneOnly)
    } else if logged_in {
        Some(RegisterOutcome::AlreadyLoggedIn)
    } else if !regex_compiles(settings.username_pattern@) {
        Some(RegisterOutcome::BadPattern)
    } else if !regex_finds_match(settings.username_pattern@, username) {
        Some(RegisterOutcome::NameRejected)
    } else if name_taken_by matches Some(n) && n != 0 {
        Some(RegisterOutcome::NameTaken)
    } else {
        None
    }
}

/// A registration passes its checks exactly when e-mail registration is on,
/// the session is not logged in, the user-name pattern compiles and matches
/// the name, and no account has the name yet (or that has not been counted):
/// with or without e-mail confirmation, a name that fails the pattern or that
/// an account already has is never registered.
pub proof fn lemma_registration_checks(settings: RegistrationSettings, logged_in: bool, name_taken_by: Option<u64>, username: Seq<char>)
    ensures
        register_refusal(settings, logged_in, name_taken_by, username) is None <==> {
            &&& !settings.phone_only
            &&& !logged_in
            &&& regex_compiles(settings.username_pattern@)
            &&& regex_finds_match(settings.username_pattern@, username)
            &&& (name_taken_by is None || name_taken_by == Some(0u64))
        },
        name_taken_by matches Some(n) && n > 0 ==> register_refusal(settings, logged_in, name_taken_by, username) is Some,
{
}

/// Whether `info` is the account that `form` asks for, with a stored Argon2id
/// hash that accepts the form's password.
pub open spec fn account_of_form(info: EmailAuthInfo, form: RegisterForm) -> bool {
    &&& info.username@ == form.username@
    &&& info.email@ == form.email@
    &&& is_argon2id_hash_of(form.password@, info.password@)
}

impl RegisterOutcome {
    /// The message shown for this outcome; for `NameRejected` it quotes the
    /// pattern, and for `SendAuthMail` the caller uses `auth_mail_notice`.
    pub open spec fn message_spec(self, pattern: Seq<char>) -> Seq<char> {
        match self {
            RegisterOutcome::PhoneOnly => "当前不使用邮箱注册!"@,
            RegisterOutcome::AlreadyLoggedIn => "你已登录!"@,
            RegisterOutcome::NameRejected => "用户名不合法！用户名需要满足政策表达式: "@ + pattern,
            RegisterOutcome::NameTaken => "此用户名已被使用!"@,
            _ => Seq::empty(),
        }
    }

    /// The message shown for this outcome.
    pub fn message(&self, pattern: &str) -> (res: String)
        ensures
            res@ == self.message_spec(pattern@),
    {
        match self {
            RegisterOutcome::PhoneOnly => String::from_str("当前不使用邮箱注册!"),
            RegisterOutcome::AlreadyLoggedIn => String::from_str("你已登录!"),
            RegisterOutcome::NameRejected => {
                let mut s = String::from_str("用户名不合法！用户名需要满足政策表达式: ");
                s.append(pattern);
                s
            },
            RegisterOutcome::NameTaken => String::from_str("此用户名已被使用!"),
            _ => String::new(),
        }
    }
}

/// The next step of a registration request.
pub fn register(settings: &RegistrationSettings, facts: &RegisterFacts, form: &RegisterForm) -> (res: RegisterStep)
    ensures
        register_refusal(*settings, facts.logged_in, facts.name_taken_by, form.username@) matches Some(r)
            ==> res == RegisterStep::Done(r),
        register_refusal(*settings, facts.logged_in, facts.name_taken_by, form.username@) is None
            ==> match res {
                RegisterStep::NeedNameTakenCount => facts.name_taken_by is None,
                RegisterStep::Done(RegisterOutcome::HashFailed) =>
                    facts.name_taken_by is Some && !within_hash_limit(form.password@),
                RegisterStep::Done(RegisterOutcome::SendAuthMail(info)) =>
                    facts.name_taken_by is Some && within_hash_limit(form.password@)
                        && settings.require_email_auth && account_of_form(info, *form),
                RegisterStep::Done(RegisterOutcome::CreateAccount(info)) =>
                    facts.name_taken_by is Some && within_hash_limit(form.password@)
                        && !settings.require_email_auth && account_of_form(info, *form),
                _ => false,
            },
        (res matches RegisterStep::Done(RegisterOutcome::SendAuthMail(_)))
            || (res matches RegisterStep::Done(RegisterOutcome::CreateAccount(_))) ==> {
            &&& !settings.phone_only
            &&& !facts.logged_in
            &&& regex_finds_match(settings.username_pattern@, form.username@)
            &&& facts.name_taken_by == Some(0u64)
        },
{
    if settings.phone_only {
        return RegisterStep::Done(RegisterOutcome::PhoneOnly);
    }
    if facts.logged_in {
        return RegisterStep::Done(RegisterOutcome::AlreadyLoggedIn);
    }
    match username_matches(settings.username_pattern.as_str(), form.username.as_str()) {
        Err(_) => { return RegisterStep::Done(RegisterOutcome::BadPattern); },
        Ok(false) => { return RegisterStep::Done(RegisterOutcome::NameRejected); },
        Ok(true) => {},
    }
    match facts.name_taken_by {
        None => { return RegisterStep::NeedNameTakenCount; },
        Some(n) => {
            if n != 0 {
                return RegisterStep::Done(RegisterOutcome::NameTaken);
            }
        },
    }
    let hashed = match argon2_hash(form.password.as_str()) {
        Err(_) => { return RegisterStep::Done(RegisterOutcome::HashFailed); },
        Ok(h) => h,
    };
    let info = EmailAuthInfo { username: form.username.clone(), email: form.email.clone(), password: hashed };
    if settings.require_email_auth {
        RegisterStep::Done(RegisterOutcome::SendAuthMail(info))
    } else {
        RegisterStep::Done(RegisterOutcome::CreateAccount(info))
    }
}

/// The confirmation e-mail: the configured template with `{auth_token}`
/// replaced by the token.
pub fn auth_mail_body(template: &str, token: &str) -> (res: String)
    ensures
        res@ == replace_all(template@, "{auth_token}"@, token@),
{
    proof { reveal_strlit("{auth_token}"); }
    replace_text(template, "{auth_token}", token)
}

/// The notice shown after the confirmation e-mail is sent.
pub fn auth_mail_notice(email: &str, expire_seconds: u64) -> (res: String)
    ensures
        res@ == "验证邮件已经发送到您的邮箱 "@ + email@ + " 的垃圾箱，并将于 "@
            + decimal(expire_seconds as nat) + " 秒后失效，请注意查收。"@,
{
    let mut s = String::from_str("验证邮件已经发送到您的邮箱 ");
    s.append(email);
    s.append(" 的垃圾箱，并将于 ");
    let n = u64_to_decimal(expire_seconds);
    s.append(n.as_str());
    s.append(" 秒后失效，请注意查收。");
    s
}

/// How the confirmation of a registration ends.
#[derive(Debug, Clone, PartialEq)]
pub enum EmailAuthOutcome {
    PhoneOnly,
    /// No registration waits under the token.
    BadToken,
    /// The user name differs from the one registered.
    WrongUsername,
    /// Create this account, log the session into it and answer its id.
    CreateAccount(EmailAuthInfo),
}

/// What the confirmation handler does next.
#[derive(Debug, Clone, PartialEq)]
pub enum EmailAuthStep {
    NeedStoredRegistration,
    Done(EmailAuthOutcome),
}

/// The confirmation rule, given the registration stored under the token.
pub open spec fn email_auth_rule(phone_only: bool, stored: Option<EmailAuthInfo>, username: Seq<char>) -> EmailAuthOutcome {
    if phone_only {
        EmailAuthOutcome::PhoneOnly
    } else {
        match stored {
            None => EmailAuthOutcome::BadToken,
            Some(info) => if info.username@ != username {
                EmailAuthOutcome::WrongUsername
            } else {
                EmailAuthOutcome::CreateAccount(info)
            },
        }
    }
}

/// A confirmation creates an account only from the registration stored under
/// the token and only when the user name given is exactly the one registered;
/// any other user name is refused.
pub proof fn lemma_confirmation_needs_same_name(phone_only: bool, stored: Option<EmailAuthInfo>, username: Seq<char>)
    ensures
        email_auth_rule(phone_only, stored, username) matches EmailAuthOutcome::CreateAccount(info)
            ==> !phone_only && stored == Some(info) && info.username@ == username,
        !phone_only && stored is Some && stored->0.username@ != username
            ==> email_auth_rule(phone_only, stored, username) == EmailAuthOutcome::WrongUsername,
        !phone_only && stored is Some && stored->0.username@ == username
            ==> email_auth_rule(phone_only, stored, username) == EmailAuthOutcome::CreateAccount(stored->0),
{
}

impl EmailAuthOutcome {
    /// The message shown for a refused confirmation; empty otherwise.
    pub fn message(&self) -> (res: String)
        ensures
            res@ == (match *self {
                EmailAuthOutcome::PhoneOnly => "当前不使用邮箱注册!"@,
                EmailAuthOutcome::BadToken => "您的token错误或者已过期!"@,
                EmailAuthOutcome::WrongUsername => "用户名错误!"@,
                _ => Seq::<char>::empty(),
            }),
    {
        match self {
            EmailAuthOutcome::PhoneOnly => String::from_str("当前不使用邮箱注册!"),
            EmailAuthOutcome::BadToken => String::from_str("您的token错误或者已过期!"),
            EmailAuthOutcome::WrongUsername => String::from_str("用户名错误!"),
            _ => String::new(),
        }
    }
}

/// The next step of a registration confirmation. `stored` is `None` until
/// the cache is read, then what the cache held under the token.
pub fn auth_email(phone_only: bool, stored: Option<Option<EmailAuthInfo>>, form: &EmailAuthForm) -> (res: EmailAuthStep)
    ensures
        phone_only ==> res == EmailAuthStep::Done(EmailAuthOutcome::PhoneOnly),
        !phone_only && stored is None ==> res == EmailAuthStep::NeedStoredRegistration,
        stored is Some ==> res == EmailAuthStep::Done(email_auth_rule(phone_only, stored->0, form.username@)),
        res matches EmailAuthStep::Done(EmailAuthOutcome::CreateAccount(info))
            ==> !phone_only && stored == Some(Some(info)) && info.username@ == form.username@,
        !phone_only && stored is Some && stored->0 is Some && stored->0->0.username@ != form.username@
            ==> res == EmailAuthStep::Done(EmailAuthOutcome::WrongUsername),
{
    if phone_only {
        return EmailAuthStep::Done(EmailAuthOutcome::PhoneOnly);
    }
    match stored {
        None => EmailAuthStep::NeedStoredRegistration,
        Some(None) => EmailAuthStep::Done(EmailAuthOutcome::BadToken),
        Some(Some(info)) => {
            if !text_eq(info.username.as_str(), form.username.as_str()) {
                EmailAuthStep::Done(EmailAuthOutcome::WrongUsername)
            } else {
                EmailAuthStep::Done(EmailAuthOutcome::CreateAccount(info))
            }
        },
    }
}

} // verus!
