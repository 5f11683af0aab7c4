use cookycardz::auth::{
    bearer_authorization, check_auth_start, check_auth_step, check_auth_url, conflict_question,
    contains_only, is_client_error, is_success, login_start, login_step, login_url,
    logout_start, logout_step, usernames_from_rows, CheckAuthAction, CheckAuthEvent,
    CheckAuthResponse, CheckAuthStage, Login, LoginAction, LoginEvent, LoginStage, LogoutAction,
    LogoutEvent, LogoutStage, Profile,
};

fn s(x: &str) -> String {
    x.to_string()
}

#[test]
fn contains_only_is_true_for_an_empty_list() {
    assert!(contains_only(&[], &s("ann")));
}

#[test]
fn contains_only_checks_every_entry() {
    assert!(contains_only(&[s("ann"), s("ann")], &s("ann")));
    assert!(!contains_only(&[s("ann"), s("bob")], &s("ann")));
    assert!(!contains_only(&[s("bob")], &s("ann")));
}

#[test]
fn status_classes() {
    assert!(is_success(200));
    assert!(is_success(299));
    assert!(!is_success(300));
    assert!(!is_success(199));
    assert!(is_client_error(400));
    assert!(is_client_error(401));
    assert!(is_client_error(499));
    assert!(!is_client_error(500));
}

#[test]
fn headers_and_addresses() {
    assert_eq!(bearer_authorization("tok"), "Bearer tok");
    assert_eq!(check_auth_url("http://localhost:3000/api"), "http://localhost:3000/api/auth/checkAuth");
    assert_eq!(login_url("http://x/api"), "http://x/api/auth/login");
}

#[test]
fn usernames_skip_rows_without_a_name() {
    let names = usernames_from_rows(&[Some(s("ann")), None, Some(s("bob"))]);
    assert_eq!(names, vec![s("ann"), s("bob")]);
}

#[test]
fn profile_holds_the_username() {
    let r = CheckAuthResponse { profile: Profile { username: s("ann") } };
    assert_eq!(r.profile.username, "ann");
}

#[test]
fn check_auth_with_a_token_and_a_success_answer_parses_it() {
    let (st, a) = check_auth_start();
    assert!(matches!(a, CheckAuthAction::ReadToken));
    let (st, a) = check_auth_step(st, CheckAuthEvent::Token(Some(s("t1"))));
    assert!(matches!(a, CheckAuthAction::ReadToken));
    let (st, a) = check_auth_step(st, CheckAuthEvent::Token(Some(s("t1"))));
    match a {
        CheckAuthAction::Request { authorization } => assert_eq!(authorization, "Bearer t1"),
        _ => panic!("expected a request"),
    }
    let (st, a) = check_auth_step(st, CheckAuthEvent::Responded(Ok(200)));
    assert!(matches!(a, CheckAuthAction::ParseResponse));
    assert_eq!(st, CheckAuthStage::Finished);
}

#[test]
fn check_auth_refreshes_a_missing_token_first() {
    let (st, _) = check_auth_start();
    let (st, a) = check_auth_step(st, CheckAuthEvent::Token(None));
    assert!(matches!(a, CheckAuthAction::Refresh));
    let (st, a) = check_auth_step(st, CheckAuthEvent::Refreshed(Ok(())));
    assert!(matches!(a, CheckAuthAction::ReadToken));
    let (_, a) = check_auth_step(st, CheckAuthEvent::Token(None));
    match a {
        CheckAuthAction::Fail { message } => assert_eq!(message, "Not logged in"),
        _ => panic!("expected a failure"),
    }
}

#[test]
fn check_auth_retries_a_refused_token_once() {
    let (st, _) = check_auth_start();
    let (st, _) = check_auth_step(st, CheckAuthEvent::Token(Some(s("old"))));
    let (st, _) = check_auth_step(st, CheckAuthEvent::Token(Some(s("old"))));
    let (st, a) = check_auth_step(st, CheckAuthEvent::Responded(Ok(401)));
    assert!(matches!(a, CheckAuthAction::Refresh));
    assert_eq!(st, CheckAuthStage::AwaitRefresh { retried: true });
    let (st, _) = check_auth_step(st, CheckAuthEvent::Refreshed(Ok(())));
    let (st, a) = check_auth_step(st, CheckAuthEvent::Token(Some(s("new"))));
    match a {
        CheckAuthAction::Request { authorization } => assert_eq!(authorization, "Bearer new"),
        _ => panic!("expected a request"),
    }
    let (st, a) = check_auth_step(st, CheckAuthEvent::Responded(Ok(401)));
    match a {
        CheckAuthAction::SignOut { message } => assert_eq!(message, "Not authenticated"),
        _ => panic!("expected a sign-out"),
    }
    assert_eq!(st, CheckAuthStage::Finished);
}

#[test]
fn check_auth_server_error_signs_out() {
    let st = CheckAuthStage::AwaitResponse { retried: false };
    let (_, a) = check_auth_step(st, CheckAuthEvent::Responded(Ok(500)));
    assert!(matches!(a, CheckAuthAction::SignOut { .. }));
}

#[test]
fn check_auth_passes_on_errors() {
    let st = CheckAuthStage::AwaitRefresh { retried: false };
    let (st2, a) = check_auth_step(st, CheckAuthEvent::Refreshed(Err(s("no keyring"))));
    assert_eq!(st2, CheckAuthStage::Finished);
    match a {
        CheckAuthAction::Fail { message } => assert_eq!(message, "no keyring"),
        _ => panic!("expected a failure"),
    }
    let st = CheckAuthStage::AwaitResponse { retried: true };
    let (_, a) = check_auth_step(st, CheckAuthEvent::Responded(Err(s("offline"))));
    match a {
        CheckAuthAction::Fail { message } => assert_eq!(message, "offline"),
        _ => panic!("expected a failure"),
    }
}

#[test]
fn check_auth_ignores_events_of_other_stages() {
    let (st, a) = check_auth_step(CheckAuthStage::Finished, CheckAuthEvent::Token(None));
    assert_eq!(st, CheckAuthStage::Finished);
    assert!(matches!(a, CheckAuthAction::Ignore));
}

fn login_until_profile(rows: Vec<Option<String>>) -> Login {
    let (l, a) = login_start(s("a@b.c"), s("pw"));
    assert!(matches!(a, LoginAction::LoadUsernames));
    let (l, a) = login_step(l, LoginEvent::Usernames(Ok(rows)));
    match a {
        LoginAction::SendLogin { email, password } => {
            assert_eq!(email, "a@b.c");
            assert_eq!(password, "pw");
        },
        _ => panic!("expected the credentials"),
    }
    let (l, a) = login_step(l, LoginEvent::LoginResponded(Ok(200)));
    assert!(matches!(a, LoginAction::ParseTokens));
    let (l, a) = login_step(l, LoginEvent::Tokens(Ok((s("acc"), s("ref")))));
    match a {
        LoginAction::RequestProfile { authorization } => assert_eq!(authorization, "Bearer acc"),
        _ => panic!("expected a profile request"),
    }
    let (l, a) = login_step(l, LoginEvent::ProfileResponded(Ok(200)));
    assert!(matches!(a, LoginAction::ParseProfile));
    l
}

#[test]
fn login_without_conflict_stores_the_session() {
    let l = login_until_profile(vec![Some(s("ann")), None]);
    let (l, a) = login_step(l, LoginEvent::Profile(Ok(s("ann"))));
    match a {
        LoginAction::StoreSession { access_token, refresh_token } => {
            assert_eq!(access_token, "acc");
            assert_eq!(refresh_token, "ref");
        },
        _ => panic!("expected the session to be stored"),
    }
    let (l, a) = login_step(l, LoginEvent::Stored(Ok(())));
    match a {
        LoginAction::Succeed { message } => assert_eq!(message, "Login successful"),
        _ => panic!("expected success"),
    }
    assert_eq!(l.stage, LoginStage::Finished);
}

#[test]
fn login_on_an_empty_computer_has_no_conflict() {
    let l = login_until_profile(vec![]);
    let (_, a) = login_step(l, LoginEvent::Profile(Ok(s("zoe"))));
    assert!(matches!(a, LoginAction::StoreSession { .. }));
}

#[test]
fn login_with_another_account_asks_first() {
    let l = login_until_profile(vec![Some(s("bob")), Some(s("ann"))]);
    let (l, a) = login_step(l, LoginEvent::Profile(Ok(s("ann"))));
    match a {
        LoginAction::ConfirmWipe { message } => {
            assert_eq!(message, conflict_question("bob"));
            assert!(message.starts_with(
                "You have recipes on this computer from another CookyCardz account: bob.\n"
            ));
            assert!(message.ends_with("go to More > Export All Recipes To Archive."));
        },
        _ => panic!("expected a question"),
    }
    let (l2, a) = login_step(Login { ..l }, LoginEvent::WipeAnswered(false));
    match a {
        LoginAction::Fail { message } => assert_eq!(message, "Login cancelled"),
        _ => panic!("expected a cancellation"),
    }
    assert_eq!(l2.stage, LoginStage::Finished);
}

#[test]
fn login_after_wiping_stores_the_session() {
    let l = login_until_profile(vec![Some(s("bob"))]);
    let (l, _) = login_step(l, LoginEvent::Profile(Ok(s("ann"))));
    let (l, a) = login_step(l, LoginEvent::WipeAnswered(true));
    assert!(matches!(a, LoginAction::WipeLocalData));
    let (_, a) = login_step(l, LoginEvent::Wiped(Ok(())));
    assert!(matches!(a, LoginAction::StoreSession { .. }));
}

#[test]
fn login_failures_and_their_messages() {
    let (l, _) = login_start(s("e"), s("p"));
    let (_, a) = login_step(l, LoginEvent::Usernames(Err(s("db"))));
    match a {
        LoginAction::Fail { message } => assert_eq!(message, "Login failed due to local database issues."),
        _ => panic!(),
    }
    let (l, _) = login_start(s("e"), s("p"));
    let (l, _) = login_step(l, LoginEvent::Usernames(Ok(vec![])));
    let (_, a) = login_step(l, LoginEvent::LoginResponded(Ok(401)));
    match a {
        LoginAction::Fail { message } => assert_eq!(message, "Login failed"),
        _ => panic!(),
    }
    let l = login_until_profile(vec![Some(s("bob"))]);
    let (l, _) = login_step(l, LoginEvent::Profile(Ok(s("ann"))));
    let (l, _) = login_step(l, LoginEvent::WipeAnswered(true));
    let (_, a) = login_step(l, LoginEvent::Wiped(Err(s("locked"))));
    match a {
        LoginAction::Fail { message } => assert_eq!(message, "Couldn't clear local data for sign-in"),
        _ => panic!(),
    }
    let l = login_until_profile(vec![]);
    let (l, _) = login_step(l, LoginEvent::Profile(Ok(s("ann"))));
    let (_, a) = login_step(l, LoginEvent::Stored(Err(s("keyring"))));
    match a {
        LoginAction::Fail { message } => assert_eq!(message, "keyring"),
        _ => panic!(),
    }
}

#[test]
fn logout_in_order() {
    let (st, a) = logout_start();
    assert!(matches!(a, LogoutAction::ForgetAccessToken));
    let (st, a) = logout_step(st, LogoutEvent::Forgotten);
    assert!(matches!(a, LogoutAction::ClearRefreshToken));
    let (st, a) = logout_step(st, LogoutEvent::Cleared(Ok(())));
    match a {
        LogoutAction::Emit { event, payload } => {
            assert_eq!(event, "logout");
            assert_eq!(payload, "Logged out");
        },
        _ => panic!(),
    }
    let (st, a) = logout_step(st, LogoutEvent::Emitted(Ok(())));
    match a {
        LogoutAction::Succeed { message } => assert_eq!(message, "Logout successful"),
        _ => panic!(),
    }
    assert_eq!(st, LogoutStage::Finished);
}

#[test]
fn logout_stops_when_the_refresh_token_stays() {
    let (st, a) = logout_step(LogoutStage::AwaitClear, LogoutEvent::Cleared(Err(s("denied"))));
    assert_eq!(st, LogoutStage::Finished);
    match a {
        LogoutAction::Fail { message } => assert_eq!(message, "denied"),
        _ => panic!(),
    }
}
