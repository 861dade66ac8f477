//! Logging in and out.

use vstd::prelude::*;
use crate::password::{argon2_accepts, argon2_verify, phc_string_parses};

verus! {

/// An account that a login identifier names: by e-mail address or user name.
#[derive(Debug, Clone, PartialEq)]
pub struct LoginCandidate {
    pub banned: bool,
    /// The stored password hash.
    pub password: String,
    pub id: i32,
}

/// What the login handler has learned so far. `None` marks a fact it has
/// not looked up yet.
#[derive(Debug, Clone, PartialEq)]
pub struct LoginFacts {
    /// Whether the session already holds a user id.
    pub logged_in: bool,
    /// How many accounts have the identifier as e-mail address (at most two are counted).
    pub email_matches: Option<u64>,
    /// The accounts whose e-mail address or user name is the identifier (at most two).
    pub candidates: Option<Vec<LoginCandidate>>,
}

/// How a login request ends.
#[derive(Debug, Clone, Copy, PartialEq, Eq)]
pub enum LoginOutcome {
    AlreadyLoggedIn,
    /// Several accounts share the e-mail address.
    AmbiguousEmail,
    WrongCredentials,
    /// The identifier names several accounts.
    UseUsername,
    Banned,
    /// The stored hash is not a PHC hash string: an internal error.
    BrokenHash,
    /// The session is to hold this user id and the login time.
    LoggedIn(i32),
}

/// What the login handler does next.
#[derive(Debug, Clone, Copy, PartialEq, Eq)]
pub enum LoginStep {
    NeedEmailMatches,
    NeedCandidates,
    Done(LoginOutcome),
}

/// How a login ends once the accounts the identifier names are known.
pub open spec fn login_with_candidates(candidates: Seq<LoginCandidate>, password: Seq<char>) -> LoginOutcome {
    if candidates.len() == 0 {
        LoginOutcome::WrongCredentials
    } else if candidates.len() > 1 {
        LoginOutcome::UseUsername
    } else if candidates[0].banned {
        LoginOutcome::Banned
    } else if !phc_string_parses(candidates[0].password@) {
        LoginOutcome::BrokenHash
    } else if !argon2_accepts(password, candidates[0].password@) {
        LoginOutcome::WrongCredentials
    } else {
        LoginOutcome::LoggedIn(candidates[0].id)
    }
}

/// The login rule: refuse a logged-in session, then an e-mail address
/// shared by several accounts, then decide on the accounts found.
pub open spec fn login_rule(logged_in: bool, email_matches: u64, candidates: Seq<LoginCandidate>, password: Seq<char>) -> LoginOutcome {
    if logged_in {
        LoginOutcome::AlreadyLoggedIn
    } else if email_matches > 1 {
        LoginOutcome::AmbiguousEmail
    } else {
        login_with_candidates(candidates, password)
    }
}

impl LoginOutcome {
    /// The message shown for a refused login; empty for the others.
    pub open spec fn message_spec(self) -> Seq<char> {
        match self {
            LoginOutcome::AlreadyLoggedIn => "你已经登录了!"@,
            LoginOutcome::AmbiguousEmail => "此邮箱对应多个账号，请使用用户名登录!"@,
            LoginOutcome::WrongCredentials => "用户名或密码错误!"@,
            LoginOutcome::UseUsername => "请使用用户名登录！"@,
            LoginOutcome::Banned => "此账户已被封禁！"@,
            _ => Seq::empty(),
        }
    }

    /// The message shown for a refused login; empty for the others.
    pub fn message(&self) -> (res: String)
        ensures
            res@ == self.message_spec(),
    {
        match self {
            LoginOutcome::AlreadyLoggedIn => String::from_str("你已经登录了!"),
            LoginOutcome::AmbiguousEmail => String::from_str("此邮箱对应多个账号，请使用用户名登录!"),
            LoginOutcome::WrongCredentials => String::from_str("用户名或密码错误!"),
            LoginOutcome::UseUsername => String::from_str("请使用用户名登录！"),
            LoginOutcome::Banned => String::from_str("此账户已被封禁！"),
            _ => String::new(),
        }
    }
}

/// The next step of a login for `form_password`, given what is known.
pub fn login(facts: &LoginFacts, form_password: &str) -> (res: LoginStep)
    ensures
        facts.logged_in ==> res == LoginStep::Done(LoginOutcome::AlreadyLoggedIn),
        !facts.logged_in && facts.email_matches is None ==> res == LoginStep::NeedEmailMatches,
        !facts.logged_in && facts.email_matches is Some && facts.email_matches->0 > 1
            ==> res == LoginStep::Done(LoginOutcome::AmbiguousEmail),
        !facts.logged_in && facts.email_matches is Some && facts.email_matches->0 <= 1
            && facts.candidates is None ==> res == LoginStep::NeedCandidates,
        facts.email_matches is Some && facts.candidates is Some
            ==> res == LoginStep::Done(login_rule(
                facts.logged_in, facts.email_matches->0, facts.candidates->0@, form_password@)),
{
    if facts.logged_in {
        return LoginStep::Done(LoginOutcome::AlreadyLoggedIn);
    }
    let n = match facts.email_matches {
        None => { return LoginStep::NeedEmailMatches; },
        Some(n) => n,
    };
    if n > 1 {
        return LoginStep::Done(LoginOutcome::AmbiguousEmail);
    }
    let candidates = match &facts.candidates {
        None => { return LoginStep::NeedCandidates; },
        Some(c) => c,
    };
    if candidates.len() == 0 {
        return LoginStep::Done(LoginOutcome::WrongCredentials);
    }
    if candidates.len() > 1 {
        return LoginStep::Done(LoginOutcome::UseUsername);
    }
    let user = &candidates[0];
    if user.banned {
        return LoginStep::Done(LoginOutcome::Banned);
    }
    match argon2_verify(form_password, user.password.as_str()) {
        Err(_) => LoginStep::Done(LoginOutcome::BrokenHash),
        Ok(false) => LoginStep::Done(LoginOutcome::WrongCredentials),
        Ok(true) => LoginStep::Done(LoginOutcome::LoggedIn(user.id)),
    }
}

/// How a logout request ends.
#[derive(Debug, Clone, Copy, PartialEq, Eq)]
pub enum LogoutOutcome {
    NotLoggedIn,
    /// The session's user id and login time are removed, and the user's
    /// other sessions are ended by moving its forced-logout time to now.
    LogOut(i32),
}

impl LogoutOutcome {
    /// The message shown for a refused logout; empty otherwise.
    pub fn message(&self) -> (res: String)
        ensures
            res@ == (match *self {
                LogoutOutcome::NotLoggedIn => "你尚未登录!"@,
                _ => Seq::<char>::empty(),
            }),
    {
        match self {
            LogoutOutcome::NotLoggedIn => String::from_str("你尚未登录!"),
            _ => String::new(),
        }
    }
}

/// Decides a logout request from the session's user id.
pub fn logout(session_uid: Option<i32>) -> (res: LogoutOutcome)
    ensures
        res == (match session_uid {
            Some(uid) => LogoutOutcome::LogOut(uid),
            None => LogoutOutcome::NotLoggedIn,
        }),
{
    match session_uid {
        Some(uid) => LogoutOutcome::LogOut(uid),
        None => LogoutOutcome::NotLoggedIn,
    }
}

} // verus!
