//! Switching one's own account between the default and the admin permission group.

use vstd::prelude::*;
use crate::text::text_eq;

verus! {

/// The group a switch moves an account to: `admin` from `default`, and
/// `default` from any other group.
pub open spec fn switched_group(current: Seq<char>) -> Seq<char> {
    if current == "default"@ { "admin"@ } else { "default"@ }
}

/// The group a switch moves an account in `current` to.
pub fn next_permission_group(current: &str) -> (res: String)
    ensures
        res@ == switched_group(current@),
{
    if text_eq(current, "default") {
        String::from_str("admin")
    } else {
        String::from_str("default")
    }
}

/// Switching twice returns an account in `default` or `admin` to its group,
/// and an account in any other group ends in `admin` after the second switch.
pub proof fn lemma_switch_twice(current: Seq<char>)
    ensures
        (current == "default"@ || current == "admin"@) ==> switched_group(switched_group(current)) == current,
        !(current == "default"@ || current == "admin"@) ==> switched_group(switched_group(current)) == "admin"@,
{
    reveal_strlit("default");
    reveal_strlit("admin");
    assert("admin"@ != "default"@) by {
        assert("admin"@[0] != "default"@[0]);
    }
}

/// What the switch handler has learned so far; `None` marks a fact it has
/// not looked up yet.
#[derive(Debug, Clone, PartialEq)]
pub struct AdminModeFacts {
    /// The session's user id, if logged in.
    pub session_uid: Option<i32>,
    /// Whether that user holds `permission.manage`.
    pub may_manage_permissions: Option<bool>,
    /// That user's permission group, once read; `Some(None)` if the user row is missing.
    pub current_group: Option<Option<String>>,
}

/// How a switch request ends.
#[derive(Debug, Clone, PartialEq)]
pub enum AdminModeOutcome {
    NotLoggedIn,
    Forbidden,
    UserNotFound,
    /// Store this group for the user and clear the user's permission cache.
    SetGroup { uid: i32, group: String },
}

/// What the switch handler does next.
#[derive(Debug, Clone, PartialEq)]
pub enum AdminModeStep {
    NeedPermission,
    NeedCurrentGroup,
    Done(AdminModeOutcome),
}

impl AdminModeOutcome {
    /// The message shown for a refused switch; empty otherwise.
    pub fn message(&self) -> (res: String)
        ensures
            res@ == (match *self {
                AdminModeOutcome::NotLoggedIn => "请先登录！"@,
                AdminModeOutcome::Forbidden => "你没有权限进行此操作"@,
                AdminModeOutcome::UserNotFound => "User not found!"@,
                _ => Seq::<char>::empty(),
            }),
    {
        match self {
            AdminModeOutcome::NotLoggedIn => String::from_str("请先登录！"),
            AdminModeOutcome::Forbidden => String::from_str("你没有权限进行此操作"),
            AdminModeOutcome::UserNotFound => String::from_str("User not found!"),
            _ => String::new(),
        }
    }
}

/// The next step of a switch request.
pub fn toggle_admin_mode(facts: &AdminModeFacts) -> (res: AdminModeStep)
    ensures
        facts.session_uid is None ==> res == AdminModeStep::Done(AdminModeOutcome::NotLoggedIn),
        facts.session_uid is Some && facts.may_manage_permissions is None ==> res == AdminModeStep::NeedPermission,
        facts.session_uid is Some && facts.may_manage_permissions == Some(false)
            ==> res == AdminModeStep::Done(AdminModeOutcome::Forbidden),
        facts.session_uid is Some && facts.may_manage_permissions == Some(true) && facts.current_group is None
            ==> res == AdminModeStep::NeedCurrentGroup,
        facts.session_uid is Some && facts.may_manage_permissions == Some(true) && facts.current_group == Some(None::<String>)
            ==> res == AdminModeStep::Done(AdminModeOutcome::UserNotFound),
        facts.session_uid is Some && facts.may_manage_permissions == Some(true)
            && facts.current_group is Some && facts.current_group->0 is Some
            ==> res is Done && res->0 is SetGroup
                && res->0->uid == facts.session_uid->0
                && res->0->group@ == switched_group(facts.current_group->0->0@),
{
    let uid = match facts.session_uid {
        None => { return AdminModeStep::Done(AdminModeOutcome::NotLoggedIn); },
        Some(uid) => uid,
    };
    match facts.may_manage_permissions {
        None => { return AdminModeStep::NeedPermission; },
        Some(false) => { return AdminModeStep::Done(AdminModeOutcome::Forbidden); },
        Some(true) => {},
    }
    match &facts.current_group {
        None => AdminModeStep::NeedCurrentGroup,
        Some(None) => AdminModeStep::Done(AdminModeOutcome::UserNotFound),
        Some(Some(g)) => AdminModeStep::Done(AdminModeOutcome::SetGroup { uid, group: next_permission_group(g.as_str()) }),
    }
}

} // verus!
