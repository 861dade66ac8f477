use hellojudge_core::admin_mode::{next_permission_group, toggle_admin_mode, AdminModeFacts, AdminModeOutcome, AdminModeStep};
use hellojudge_core::email_change::{change_email, handle_change_email, redirect_change_email, user_redirect, EmailChangeOutcome};
use hellojudge_core::forms::{EmailAuthForm, EmailAuthInfo, EmailChangeStoreInfo, RegisterForm, ResetPasswordForm, ResetPasswordInfo};
use hellojudge_core::login::{login, logout, LoginCandidate, LoginFacts, LoginOutcome, LoginStep, LogoutOutcome};
use hellojudge_core::password::{argon2_hash, argon2_verify, PasswordError};
use hellojudge_core::password_reset::{
    require_reset_password, reset_mail_body, reset_mail_notice, reset_password, LookupFailure, RequireResetFacts,
    RequireResetOutcome, RequireResetStep, ResetCandidate, ResetFacts, ResetOutcome, ResetStep,
};
use hellojudge_core::registration::{
    auth_email, auth_mail_body, auth_mail_notice, register, EmailAuthOutcome, EmailAuthStep, RegisterFacts,
    RegisterOutcome, RegisterStep, RegistrationSettings,
};
use hellojudge_core::token::issue_token;

fn settings(require_auth: bool) -> RegistrationSettings {
    RegistrationSettings { phone_only: false, require_email_auth: require_auth, username_pattern: "^[a-z]{3,8}$".to_string() }
}

fn form() -> RegisterForm {
    RegisterForm { username: "alice".to_string(), email: "alice@example.org".to_string(), password: "s3cret!".to_string() }
}

#[test]
fn argon2_hashes_verify_their_password_only() {
    let h = argon2_hash("hunter2").unwrap();
    assert!(h.starts_with("$argon2id$v=19$"));
    let h2 = argon2_hash("hunter2").unwrap();
    assert_ne!(h, h2);
    assert_eq!(argon2_verify("hunter2", &h2), Ok(true));
    assert_eq!(argon2_verify("hunter2", &h), Ok(true));
    assert_eq!(argon2_verify("hunter3", &h), Ok(false));
    assert_eq!(argon2_verify("hunter2", "not a hash"), Err(PasswordError::InvalidHash));
}

#[test]
fn login_asks_for_facts_in_order() {
    let mut facts = LoginFacts { logged_in: false, email_matches: None, candidates: None };
    assert_eq!(login(&facts, "pw"), LoginStep::NeedEmailMatches);
    facts.email_matches = Some(2);
    assert_eq!(login(&facts, "pw"), LoginStep::Done(LoginOutcome::AmbiguousEmail));
    facts.email_matches = Some(1);
    assert_eq!(login(&facts, "pw"), LoginStep::NeedCandidates);
    facts.candidates = Some(Vec::new());
    assert_eq!(login(&facts, "pw"), LoginStep::Done(LoginOutcome::WrongCredentials));
    facts.logged_in = true;
    assert_eq!(login(&facts, "pw"), LoginStep::Done(LoginOutcome::AlreadyLoggedIn));
}

#[test]
fn login_checks_ban_and_password() {
    let h = argon2_hash("pw").unwrap();
    let c = |banned: bool, id: i32, password: &str| LoginCandidate { banned, password: password.to_string(), id };
    let facts = |cands: Vec<LoginCandidate>| LoginFacts { logged_in: false, email_matches: Some(0), candidates: Some(cands) };
    assert_eq!(login(&facts(vec![c(false, 1, &h), c(false, 2, &h)]), "pw"), LoginStep::Done(LoginOutcome::UseUsername));
    assert_eq!(login(&facts(vec![c(true, 1, &h)]), "pw"), LoginStep::Done(LoginOutcome::Banned));
    assert_eq!(login(&facts(vec![c(false, 1, "garbage")]), "pw"), LoginStep::Done(LoginOutcome::BrokenHash));
    assert_eq!(login(&facts(vec![c(false, 1, &h)]), "wrong"), LoginStep::Done(LoginOutcome::WrongCredentials));
    assert_eq!(login(&facts(vec![c(false, 7, &h)]), "pw"), LoginStep::Done(LoginOutcome::LoggedIn(7)));
}

#[test]
fn login_messages() {
    assert_eq!(LoginOutcome::AlreadyLoggedIn.message(), "你已经登录了!");
    assert_eq!(LoginOutcome::AmbiguousEmail.message(), "此邮箱对应多个账号，请使用用户名登录!");
    assert_eq!(LoginOutcome::WrongCredentials.message(), "用户名或密码错误!");
    assert_eq!(LoginOutcome::UseUsername.message(), "请使用用户名登录！");
    assert_eq!(LoginOutcome::Banned.message(), "此账户已被封禁！");
}

#[test]
fn logout_needs_a_session() {
    assert_eq!(logout(Some(5)), LogoutOutcome::LogOut(5));
    assert_eq!(logout(None), LogoutOutcome::NotLoggedIn);
    assert_eq!(LogoutOutcome::NotLoggedIn.message(), "你尚未登录!");
}

#[test]
fn register_refusals_in_order() {
    let f = form();
    let mut s = settings(false);
    s.phone_only = true;
    let facts = RegisterFacts { logged_in: true, name_taken_by: None };
    assert_eq!(register(&s, &facts, &f), RegisterStep::Done(RegisterOutcome::PhoneOnly));
    let s = settings(false);
    assert_eq!(register(&s, &facts, &f), RegisterStep::Done(RegisterOutcome::AlreadyLoggedIn));
    let facts = RegisterFacts { logged_in: false, name_taken_by: None };
    let mut bad = settings(false);
    bad.username_pattern = "([".to_string();
    assert_eq!(register(&bad, &facts, &f), RegisterStep::Done(RegisterOutcome::BadPattern));
    let mut long = form();
    long.username = "alexander_the_great".to_string();
    assert_eq!(register(&s, &facts, &long), RegisterStep::Done(RegisterOutcome::NameRejected));
    assert_eq!(register(&s, &facts, &f), RegisterStep::NeedNameTakenCount);
    let taken = RegisterFacts { logged_in: false, name_taken_by: Some(1) };
    assert_eq!(register(&s, &taken, &f), RegisterStep::Done(RegisterOutcome::NameTaken));
}

#[test]
fn register_messages() {
    assert_eq!(RegisterOutcome::PhoneOnly.message("p"), "当前不使用邮箱注册!");
    assert_eq!(RegisterOutcome::AlreadyLoggedIn.message("p"), "你已登录!");
    assert_eq!(RegisterOutcome::NameRejected.message("^[a-z]+$"), "用户名不合法！用户名需要满足政策表达式: ^[a-z]+$");
    assert_eq!(RegisterOutcome::NameTaken.message("p"), "此用户名已被使用!");
}

#[test]
fn direct_registration_creates_an_account_that_logs_in() {
    let f = form();
    let facts = RegisterFacts { logged_in: false, name_taken_by: Some(0) };
    let info = match register(&settings(false), &facts, &f) {
        RegisterStep::Done(RegisterOutcome::CreateAccount(info)) => info,
        other => panic!("unexpected {:?}", other),
    };
    assert_eq!(info.username, "alice");
    assert_eq!(info.email, "alice@example.org");
    let login_facts = LoginFacts {
        logged_in: false,
        email_matches: Some(0),
        candidates: Some(vec![LoginCandidate { banned: false, password: info.password.clone(), id: 11 }]),
    };
    assert_eq!(login(&login_facts, "s3cret!"), LoginStep::Done(LoginOutcome::LoggedIn(11)));
}

#[test]
fn confirmed_registration_creates_the_registered_account() {
    let f = form();
    let facts = RegisterFacts { logged_in: false, name_taken_by: Some(0) };
    let info = match register(&settings(true), &facts, &f) {
        RegisterStep::Done(RegisterOutcome::SendAuthMail(info)) => info,
        other => panic!("unexpected {:?}", other),
    };
    let token = issue_token();
    let confirm = EmailAuthForm { username: "alice".to_string(), token: token.clone() };
    assert_eq!(auth_email(false, None, &confirm), EmailAuthStep::NeedStoredRegistration);
    match auth_email(false, Some(Some(info.clone())), &confirm) {
        EmailAuthStep::Done(EmailAuthOutcome::CreateAccount(created)) => {
            assert_eq!(created, info);
            assert_eq!(argon2_verify("s3cret!", &created.password), Ok(true));
        }
        other => panic!("unexpected {:?}", other),
    }
    let wrong = EmailAuthForm { username: "bob".to_string(), token };
    assert_eq!(auth_email(false, Some(Some(info)), &wrong), EmailAuthStep::Done(EmailAuthOutcome::WrongUsername));
}

#[test]
fn email_confirmation_refusals() {
    let confirm = EmailAuthForm { username: "alice".to_string(), token: "t".to_string() };
    assert_eq!(auth_email(true, None, &confirm), EmailAuthStep::Done(EmailAuthOutcome::PhoneOnly));
    assert_eq!(auth_email(false, Some(None), &confirm), EmailAuthStep::Done(EmailAuthOutcome::BadToken));
    assert_eq!(EmailAuthOutcome::PhoneOnly.message(), "当前不使用邮箱注册!");
    assert_eq!(EmailAuthOutcome::BadToken.message(), "您的token错误或者已过期!");
    assert_eq!(EmailAuthOutcome::WrongUsername.message(), "用户名错误!");
    let info = EmailAuthInfo { username: "a".into(), email: "e".into(), password: "p".into() };
    assert_eq!(EmailAuthOutcome::CreateAccount(info).message(), "");
}

#[test]
fn tokens_are_hyphenated_uuids() {
    let t = issue_token();
    assert_eq!(t.len(), 36);
    for (i, c) in t.chars().enumerate() {
        if [8, 13, 18, 23].contains(&i) {
            assert_eq!(c, '-');
        } else {
            assert!(c.is_ascii_hexdigit() && !c.is_ascii_uppercase());
        }
    }
    assert_ne!(issue_token(), t);
}

#[test]
fn mail_bodies_and_notices() {
    assert_eq!(auth_mail_body("点击 http://x/auth/{auth_token} 完成", "tok"), "点击 http://x/auth/tok 完成");
    assert_eq!(reset_mail_body("reset: {reset_token}, again {reset_token}", "t1"), "reset: t1, again t1");
    assert_eq!(
        auth_mail_notice("a@b.c", 3600),
        "验证邮件已经发送到您的邮箱 a@b.c 的垃圾箱，并将于 3600 秒后失效，请注意查收。"
    );
    assert_eq!(reset_mail_notice(600), "一封邮件已经发送到您邮箱的垃圾箱，并将在 600 秒后过期，请注意查收。");
}

#[test]
fn reset_request_lookup() {
    let mut facts = RequireResetFacts { email_matches: None, candidates: None };
    assert_eq!(require_reset_password(&facts), RequireResetStep::NeedEmailMatches);
    facts.email_matches = Some(2);
    assert_eq!(
        require_reset_password(&facts),
        RequireResetStep::Done(RequireResetOutcome::Refused(LookupFailure::AmbiguousEmail))
    );
    facts.email_matches = Some(1);
    assert_eq!(require_reset_password(&facts), RequireResetStep::NeedCandidates);
    facts.candidates = Some(Vec::new());
    assert_eq!(require_reset_password(&facts), RequireResetStep::Done(RequireResetOutcome::Refused(LookupFailure::NotFound)));
    let c = |id: i32| ResetCandidate { id, email: format!("{}@x", id) };
    facts.candidates = Some(vec![c(1), c(2)]);
    assert_eq!(require_reset_password(&facts), RequireResetStep::Done(RequireResetOutcome::Refused(LookupFailure::Ambiguous)));
    facts.candidates = Some(vec![c(4)]);
    assert_eq!(
        require_reset_password(&facts),
        RequireResetStep::Done(RequireResetOutcome::SendResetMail { uid: 4, email: "4@x".to_string() })
    );
    assert_eq!(LookupFailure::AmbiguousEmail.request_message(), "此邮箱对应多个账号，请使用用户名！");
    assert_eq!(LookupFailure::NotFound.request_message(), "用户名或邮箱错误!");
    assert_eq!(LookupFailure::Ambiguous.request_message(), "请使用用户名!");
    assert_eq!(LookupFailure::NotFound.reset_message(), "用户名错误！");
    assert_eq!(LookupFailure::Ambiguous.reset_message(), "请使用用户名！");
}

#[test]
fn reset_with_issued_token_sets_a_password_that_logs_in() {
    let form = ResetPasswordForm { identifier: "alice".into(), reset_token: "t".into(), password: "new-pw".into() };
    let mut facts = ResetFacts { phone_only: false, email_matches: None, candidate_ids: None, stored: None };
    assert_eq!(reset_password(&facts, &form), ResetStep::NeedEmailMatches);
    facts.email_matches = Some(1);
    assert_eq!(reset_password(&facts, &form), ResetStep::NeedCandidates);
    facts.candidate_ids = Some(vec![4]);
    assert_eq!(reset_password(&facts, &form), ResetStep::NeedStoredReset);
    facts.stored = Some(None);
    assert_eq!(reset_password(&facts, &form), ResetStep::Done(ResetOutcome::BadToken));
    facts.stored = Some(Some(ResetPasswordInfo { uid: 5 }));
    assert_eq!(reset_password(&facts, &form), ResetStep::Done(ResetOutcome::WrongUid));
    facts.stored = Some(Some(ResetPasswordInfo { uid: 4 }));
    let hash = match reset_password(&facts, &form) {
        ResetStep::Done(ResetOutcome::SetPassword { uid: 4, hash }) => hash,
        other => panic!("unexpected {:?}", other),
    };
    let login_facts = LoginFacts {
        logged_in: false,
        email_matches: Some(1),
        candidates: Some(vec![LoginCandidate { banned: false, password: hash, id: 4 }]),
    };
    assert_eq!(login(&login_facts, "new-pw"), LoginStep::Done(LoginOutcome::LoggedIn(4)));
}

#[test]
fn reset_refusals() {
    let form = ResetPasswordForm { identifier: "a".into(), reset_token: "t".into(), password: "p".into() };
    let facts = ResetFacts { phone_only: true, email_matches: None, candidate_ids: None, stored: None };
    assert_eq!(reset_password(&facts, &form), ResetStep::Done(ResetOutcome::PhoneOnly));
    let facts = ResetFacts { phone_only: false, email_matches: Some(3), candidate_ids: None, stored: None };
    assert_eq!(reset_password(&facts, &form), ResetStep::Done(ResetOutcome::Refused(LookupFailure::AmbiguousEmail)));
    let facts = ResetFacts { phone_only: false, email_matches: Some(0), candidate_ids: Some(vec![1, 2]), stored: None };
    assert_eq!(reset_password(&facts, &form), ResetStep::Done(ResetOutcome::Refused(LookupFailure::Ambiguous)));
    assert_eq!(ResetOutcome::PhoneOnly.message(), "当前不使用邮箱重置密码!");
    assert_eq!(ResetOutcome::BadToken.message(), "Token错误或已过期!");
    assert_eq!(ResetOutcome::WrongUid.message(), "UID错误!");
    assert_eq!(ResetOutcome::SetPassword { uid: 1, hash: "h".into() }.message(), "密码重置完成，请使用新密码登录。");
}

#[test]
fn admin_mode_switches_between_default_and_admin() {
    assert_eq!(next_permission_group("default"), "admin");
    assert_eq!(next_permission_group("admin"), "default");
    assert_eq!(next_permission_group("teacher"), "default");
    assert_eq!(next_permission_group(&next_permission_group("default")), "default");
    assert_eq!(next_permission_group(&next_permission_group("teacher")), "admin");
}

#[test]
fn admin_mode_steps() {
    let mut facts = AdminModeFacts { session_uid: None, may_manage_permissions: None, current_group: None };
    assert_eq!(toggle_admin_mode(&facts), AdminModeStep::Done(AdminModeOutcome::NotLoggedIn));
    facts.session_uid = Some(9);
    assert_eq!(toggle_admin_mode(&facts), AdminModeStep::NeedPermission);
    facts.may_manage_permissions = Some(false);
    assert_eq!(toggle_admin_mode(&facts), AdminModeStep::Done(AdminModeOutcome::Forbidden));
    facts.may_manage_permissions = Some(true);
    assert_eq!(toggle_admin_mode(&facts), AdminModeStep::NeedCurrentGroup);
    facts.current_group = Some(None);
    assert_eq!(toggle_admin_mode(&facts), AdminModeStep::Done(AdminModeOutcome::UserNotFound));
    facts.current_group = Some(Some("default".into()));
    assert_eq!(
        toggle_admin_mode(&facts),
        AdminModeStep::Done(AdminModeOutcome::SetGroup { uid: 9, group: "admin".into() })
    );
    assert_eq!(AdminModeOutcome::NotLoggedIn.message(), "请先登录！");
    assert_eq!(AdminModeOutcome::Forbidden.message(), "你没有权限进行此操作");
    assert_eq!(AdminModeOutcome::UserNotFound.message(), "User not found!");
}

#[test]
fn email_change_confirmation_and_redirects() {
    let info = EmailChangeStoreInfo { uid: 3, new_email: "n@x.org".into() };
    assert_eq!(handle_change_email(Some(info.clone())), EmailChangeOutcome::Apply(info.clone()));
    assert_eq!(handle_change_email(None), EmailChangeOutcome::Expired);
    assert_eq!(EmailChangeOutcome::Expired.message(), "口令不正确或已过期！");
    assert_eq!(EmailChangeOutcome::Apply(info).message(), "修改成功！");
    let ok = change_email(&Ok("修改成功！".to_string()));
    assert_eq!(ok, format!("/success?message={}", urlencoding::encode("修改成功！")));
    assert_eq!(ok, "/success?message=%E4%BF%AE%E6%94%B9%E6%88%90%E5%8A%9F%EF%BC%81");
    assert_eq!(change_email(&Err("a b/c~d".to_string())), "/error?message=a%20b%2Fc~d");
    assert_eq!(redirect_change_email("abc-123"), "/api/user/change_email/abc-123");
    assert_eq!(user_redirect("login"), ("/login".to_string(), "/api/user/login".to_string()));
}
