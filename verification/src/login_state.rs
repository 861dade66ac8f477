//! What the front end learns about the session on its first request.

#![allow(non_snake_case)]

use vstd::prelude::*;
use crate::text::{i64_to_decimal, signed_decimal};

verus! {

/// The settings the login-state answer shows.
#[derive(Debug, Clone, PartialEq)]
pub struct LoginStateSettings {
    pub password_salt: String,
    /// The configured judge-status table, as the JSON text the front end
    /// receives.
    pub judge_status: String,
    pub app_name: String,
    pub use_polling: bool,
    /// Registration goes through phone numbers, not e-mail.
    pub phone_only: bool,
    pub gravatar_url_prefix: String,
    pub display_repo_in_footer: bool,
}

/// The login-state answer.
#[derive(Debug, Clone, PartialEq)]
pub struct QueryLoginStateResponse {
    pub code: i32,
    pub result: bool,
    pub uid: Option<i32>,
    pub group: Option<String>,
    pub group_name: Option<String>,
    pub backend_managable: Option<bool>,
    pub username: Option<String>,
    pub email: Option<String>,
    pub salt: String,
    /// The configured judge-status table, as JSON text.
    pub judgeStatus: String,
    pub appName: String,
    pub usePolling: bool,
    pub registerURL: String,
    pub gravatarURL: String,
    pub permissions: Option<Vec<String>>,
    pub canUseImageStore: bool,
    pub displayRepoInFooter: bool,
}

/// The logged-in user's fields that the answer shows.
#[derive(Debug, Clone, PartialEq)]
pub struct SessionUser {
    pub permission_group: String,
    pub username: String,
    pub email: String,
}

/// What the login-state handler has learned so far; `None` marks a fact it
/// has not looked up yet.
#[derive(Debug, Clone, PartialEq)]
pub struct LoginStateFacts {
    pub session_uid: Option<i32>,
    /// The session user's row; `Some(None)` if there is none.
    pub user: Option<Option<SessionUser>>,
    /// The name of the user's permission group; `Some(None)` if the group is missing.
    pub group_name: Option<Option<String>>,
    /// Whether the user holds `backend.manage`.
    pub backend_manage: Option<bool>,
    /// Whether the user holds `imagestore.use`.
    pub image_store: Option<bool>,
}

/// Why the login state cannot be answered.
#[derive(Debug, Clone, Copy, PartialEq, Eq)]
pub enum LoginStateError {
    /// The session names a user that does not exist.
    UserNotFound(i32),
    /// The user's permission group does not exist.
    InvalidGroup,
}

impl LoginStateError {
    /// The not-found message of this error.
    pub fn message(&self) -> (res: String)
        ensures
            res@ == (match *self {
                LoginStateError::UserNotFound(uid) => "User not found: "@ + signed_decimal(uid as int),
                LoginStateError::InvalidGroup => "Invalid permission group!"@,
            }),
    {
        match self {
            LoginStateError::UserNotFound(uid) => {
                let mut s = String::from_str("User not found: ");
                let n = i64_to_decimal(*uid as i64);
                s.append(n.as_str());
                s
            },
            LoginStateError::InvalidGroup => String::from_str("Invalid permission group!"),
        }
    }
}

/// What the login-state handler does next.
#[derive(Debug, PartialEq)]
pub enum LoginStateStep {
    NeedUser,
    NeedGroupName,
    NeedBackendManage,
    NeedImageStore,
    Done(Result<QueryLoginStateResponse, LoginStateError>),
}

/// The answer's fields that do not depend on the user.
pub open spec fn base_answer(settings: LoginStateSettings, r: QueryLoginStateResponse, logged_in: bool) -> bool {
    &&& r.code == 0
    &&& r.result == logged_in
    &&& r.salt == settings.password_salt
    &&& r.judgeStatus == settings.judge_status
    &&& r.appName == settings.app_name
    &&& r.usePolling == settings.use_polling
    &&& r.registerURL@ == (if settings.phone_only { "/phone/register"@ } else { "/register"@ })
    &&& r.gravatarURL == settings.gravatar_url_prefix
    &&& r.permissions is None
    &&& r.displayRepoInFooter == settings.display_repo_in_footer
}

/// The next step of a login-state request.
pub fn query_login_state(settings: &LoginStateSettings, facts: LoginStateFacts) -> (res: LoginStateStep)
    ensures
        facts.session_uid is None ==> res is Done && res->0 is Ok && ({
            let r = res->0->Ok_0;
            &&& base_answer(*settings, r, false)
            &&& r.uid is None && r.group is None && r.group_name is None
            &&& r.backend_managable is None && r.username is None && r.email is None
            &&& !r.canUseImageStore
        }),
        facts.session_uid is Some && facts.user is None ==> res == LoginStateStep::NeedUser,
        facts.session_uid is Some && facts.user == Some(None::<SessionUser>)
            ==> res == LoginStateStep::Done(Err(LoginStateError::UserNotFound(facts.session_uid->0))),
        facts.session_uid is Some && facts.user is Some && facts.user->0 is Some && facts.group_name is None
            ==> res == LoginStateStep::NeedGroupName,
        facts.session_uid is Some && facts.user is Some && facts.user->0 is Some && facts.group_name == Some(None::<String>)
            ==> res == LoginStateStep::Done(Err(LoginStateError::InvalidGroup)),
        facts.session_uid is Some && facts.user is Some && facts.user->0 is Some
            && facts.group_name is Some && facts.group_name->0 is Some && facts.backend_manage is None
            ==> res == LoginStateStep::NeedBackendManage,
        facts.session_uid is Some && facts.user is Some && facts.user->0 is Some
            && facts.group_name is Some && facts.group_name->0 is Some && facts.backend_manage is Some
            && facts.image_store is None ==> res == LoginStateStep::NeedImageStore,
        facts.session_uid is Some && facts.user is Some && facts.user->0 is Some
            && facts.group_name is Some && facts.group_name->0 is Some && facts.backend_manage is Some
            && facts.image_store is Some ==> res is Done && res->0 is Ok && ({
                let r = res->0->Ok_0;
                let u = facts.user->0->0;
                &&& base_answer(*settings, r, true)
                &&& r.uid == facts.session_uid
                &&& r.group == Some(u.permission_group)
                &&& r.group_name == facts.group_name->0
                &&& r.backend_managable == facts.backend_manage
                &&& r.username == Some(u.username)
                &&& r.email == Some(u.email)
                &&& r.canUseImageStore == facts.image_store->0
            }),
{
    let register_url = if settings.phone_only {
        String::from_str("/phone/register")
    } else {
        String::from_str("/register")
    };
    let mut result = QueryLoginStateResponse {
        code: 0,
        result: facts.session_uid.is_some(),
        uid: None,
        group: None,
        group_name: None,
        backend_managable: None,
        username: None,
        email: None,
        salt: settings.password_salt.clone(),
        judgeStatus: settings.judge_status.clone(),
        appName: settings.app_name.clone(),
        usePolling: settings.use_polling,
        registerURL: register_url,
        gravatarURL: settings.gravatar_url_prefix.clone(),
        permissions: None,
        canUseImageStore: false,
        displayRepoInFooter: settings.display_repo_in_footer,
    };
    let uid = match facts.session_uid {
        None => { return LoginStateStep::Done(Ok(result)); },
        Some(uid) => uid,
    };
    let user = match facts.user {
        None => { return LoginStateStep::NeedUser; },
        Some(None) => { return LoginStateStep::Done(Err(LoginStateError::UserNotFound(uid))); },
        Some(Some(u)) => u,
    };
    let group_name = match facts.group_name {
        None => { return LoginStateStep::NeedGroupName; },
        Some(None) => { return LoginStateStep::Done(Err(LoginStateError::InvalidGroup)); },
        Some(Some(g)) => g,
    };
    let backend = match facts.backend_manage {
        None => { return LoginStateStep::NeedBackendManage; },
        Some(b) => b,
    };
    let image_store = match facts.image_store {
        None => { return LoginStateStep::NeedImageStore; },
        Some(b) => b,
    };
    result.group = Some(user.permission_group);
    result.group_name = Some(group_name);
    result.backend_managable = Some(backend);
    result.canUseImageStore = image_store;
    result.username = Some(user.username);
    result.email = Some(user.email);
    result.uid = Some(uid);
    LoginStateStep::Done(Ok(result))
}

} // verus!
