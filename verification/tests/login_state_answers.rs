use hellojudge_core::login_state::{
    query_login_state, LoginStateError, LoginStateFacts, LoginStateSettings, LoginStateStep, SessionUser,
};

fn settings(phone_only: bool) -> LoginStateSettings {
    LoginStateSettings {
        password_salt: "salt".into(),
        judge_status: "{\"accepted\":{\"text\":\"Accepted\"}}".into(),
        app_name: "HelloJudge".into(),
        use_polling: true,
        phone_only,
        gravatar_url_prefix: "https://g/".into(),
        display_repo_in_footer: false,
    }
}

fn facts(uid: Option<i32>) -> LoginStateFacts {
    LoginStateFacts { session_uid: uid, user: None, group_name: None, backend_manage: None, image_store: None }
}

#[test]
fn anonymous_login_state() {
    match query_login_state(&settings(true), facts(None)) {
        LoginStateStep::Done(Ok(r)) => {
            assert!(!r.result);
            assert_eq!(r.registerURL, "/phone/register");
            assert_eq!(r.uid, None);
            assert_eq!(r.appName, "HelloJudge");
            assert_eq!(r.judgeStatus, "{\"accepted\":{\"text\":\"Accepted\"}}");
            assert!(!r.canUseImageStore);
        }
        other => panic!("unexpected {:?}", other),
    }
}

#[test]
fn logged_in_login_state() {
    let mut f = facts(Some(5));
    assert_eq!(query_login_state(&settings(false), f.clone()), LoginStateStep::NeedUser);
    f.user = Some(None);
    assert_eq!(
        query_login_state(&settings(false), f.clone()),
        LoginStateStep::Done(Err(LoginStateError::UserNotFound(5)))
    );
    f.user = Some(Some(SessionUser { permission_group: "default".into(), username: "dan".into(), email: "d@x".into() }));
    assert_eq!(query_login_state(&settings(false), f.clone()), LoginStateStep::NeedGroupName);
    f.group_name = Some(None);
    assert_eq!(query_login_state(&settings(false), f.clone()), LoginStateStep::Done(Err(LoginStateError::InvalidGroup)));
    f.group_name = Some(Some("默认".into()));
    assert_eq!(query_login_state(&settings(false), f.clone()), LoginStateStep::NeedBackendManage);
    f.backend_manage = Some(false);
    assert_eq!(query_login_state(&settings(false), f.clone()), LoginStateStep::NeedImageStore);
    f.image_store = Some(true);
    match query_login_state(&settings(false), f) {
        LoginStateStep::Done(Ok(r)) => {
            assert!(r.result);
            assert_eq!(r.uid, Some(5));
            assert_eq!(r.group.as_deref(), Some("default"));
            assert_eq!(r.group_name.as_deref(), Some("默认"));
            assert_eq!(r.backend_managable, Some(false));
            assert_eq!(r.username.as_deref(), Some("dan"));
            assert!(r.canUseImageStore);
            assert_eq!(r.registerURL, "/register");
        }
        other => panic!("unexpected {:?}", other),
    }
}

#[test]
fn login_state_error_messages() {
    assert_eq!(LoginStateError::UserNotFound(-3).message(), "User not found: -3");
    assert_eq!(LoginStateError::InvalidGroup.message(), "Invalid permission group!");
}
