use smtp2larkapi::lark_api_mail::{
    Boot, BootAction, BootEvent,
    app_token_from, bearer_text, check_envelope, content_type_text, expiry, fetch_app_token,
    fetch_user_token, fetch_user_token_refresh, read_app_token, read_sent, read_user_token,
    timing_update, user_token_from, ApiError, AppInfo, AppToken, LarkMail, Operation, TokenAction,
    TokenEvent, UserFields, UserToken,
};

fn info() -> AppInfo {
    AppInfo { app_id: "cli_1".to_string(), app_secret: "s3cret".to_string() }
}

fn store(app_expires: u64, access_expires: u64, refresh_expires: u64) -> LarkMail {
    LarkMail::new(
        info(),
        AppToken { token: "app-1".to_string(), token_expires: app_expires },
        UserToken {
            access_token: "access-1".to_string(),
            refresh_token: "refresh-1".to_string(),
            access_token_expires: access_expires,
            refresh_token_expires: refresh_expires,
        },
    )
}

const APP_REPLY: &str =
    r#"{"code":0,"msg":"ok","app_access_token":"app-2","expire":7200,"tenant_access_token":"t"}"#;
const USER_REPLY: &str = r#"{"code":0,"data":{"access_token":"access-2","refresh_token":"refresh-2","expires_in":7200,"refresh_expires_in":2592000,"token_type":"Bearer"}}"#;

fn parse_failure(error: &ApiError, op: Operation) -> bool {
    matches!(error, ApiError::Parse(o) if *o == op)
}

#[test]
fn expiry_is_lifetime_plus_now_minus_twenty() {
    assert_eq!(expiry(7200, 1_700_000_000), Some(1_700_007_180));
    assert_eq!(expiry(20, 0), Some(0));
    assert_eq!(expiry(0, 20), Some(0));
    assert_eq!(expiry(5, 15), Some(0));
    assert_eq!(expiry(19, 0), None);
    assert_eq!(expiry(0, 0), None);
    assert_eq!(expiry(u64::MAX, 20), Some(u64::MAX));
    assert_eq!(expiry(u64::MAX, 21), None);
    assert_eq!(expiry(u64::MAX, 5), Some(u64::MAX - 15));
    assert_eq!(expiry(10, u64::MAX), Some(u64::MAX - 10));
}

#[test]
fn app_token_request_has_the_provider_fields() {
    let r = fetch_app_token(&info());
    assert_eq!(r.url, "https://open.larksuite.com/open-apis/auth/v3/app_access_token/internal");
    assert_eq!(r.authorization, None);
    assert_eq!(r.content_type, "application/json; charset=utf-8");
    assert_eq!(r.body, r#"{"app_id":"cli_1","app_secret":"s3cret"}"#);
}

#[test]
fn user_token_request_carries_the_code_and_the_app_token() {
    let app = AppToken { token: "app-1".to_string(), token_expires: 0 };
    let r = fetch_user_token(&app, "c0de");
    assert_eq!(r.url, "https://open.larksuite.com/open-apis/authen/v1/oidc/access_token");
    assert_eq!(r.authorization.as_deref(), Some("Bearer app-1"));
    assert_eq!(r.content_type, "application/json; charset=utf-8");
    assert_eq!(r.body, r#"{"grant_type":"authorization_code","code":"c0de"}"#);
}

#[test]
fn refresh_request_carries_the_refresh_token_and_the_app_token() {
    let app = AppToken { token: "app-1".to_string(), token_expires: 0 };
    let user = UserToken::from_record("refresh-0".to_string(), 99);
    assert_eq!(user.access_token, "");
    assert_eq!(user.access_token_expires, 0);
    assert_eq!(user.refresh_token_expires, 99);
    let r = fetch_user_token_refresh(&app, &user);
    assert_eq!(r.url, "https://open.larksuite.com/open-apis/authen/v1/oidc/refresh_access_token");
    assert_eq!(r.authorization.as_deref(), Some("Bearer app-1"));
    assert_eq!(r.body, r#"{"grant_type":"refresh_token","refresh_token":"refresh-0"}"#);
}

#[test]
fn headers_have_their_fixed_texts() {
    assert_eq!(content_type_text(), "application/json; charset=utf-8");
    assert_eq!(bearer_text("abc"), "Bearer abc");
    assert_eq!(Operation::SendMail.url_text(), "https://open.larksuite.com/open-apis/mail/v1/user_mailboxes/me/messages/send");
    assert_eq!(Operation::FetchUserTokenRefresh.name_text(), "fetch_user_token_refresh");
}

#[test]
fn app_token_is_read_from_a_reply() {
    let token = read_app_token(APP_REPLY, 1000).unwrap();
    assert_eq!(token.token, "app-2");
    assert_eq!(token.token_expires, 8180);
}

#[test]
fn app_token_reply_with_a_status_gives_the_remote_message() {
    let error = read_app_token(r#"{"code":10003,"msg":"invalid param"}"#, 1000).unwrap_err();
    assert!(matches!(&error, ApiError::Remote(m) if m == "invalid param  (fetch_app_token)"));
    assert_eq!(error.to_string(), "invalid param  (fetch_app_token)");
}

#[test]
fn app_token_reply_without_a_status_counts_as_refused() {
    let reply = r#"{"msg":"ok","app_access_token":"a","expire":7200}"#;
    let error = read_app_token(reply, 10).unwrap_err();
    assert_eq!(error.to_string(), "ok  (fetch_app_token)");
}

#[test]
fn app_token_reply_that_is_malformed_gives_a_parse_failure() {
    for reply in [
        "",
        "not json",
        "[]",
        r#"{"code":1}"#,
        r#"{"app_access_token":"a","expire":7200}"#,
        r#"{"code":"0","app_access_token":"a","expire":7200}"#,
        r#"{"code":0,"msg":"ok","expire":7200}"#,
        r#"{"code":0,"msg":"ok","app_access_token":"a"}"#,
        r#"{"code":0,"msg":"ok","app_access_token":"a","expire":-1}"#,
        r#"{"code":0,"msg":"ok","app_access_token":7,"expire":7200}"#,
        r#"{"code":0,"msg":"ok","app_access_token":"a","expire":3}"#,
    ] {
        let error = read_app_token(reply, 10).unwrap_err();
        assert!(parse_failure(&error, Operation::FetchAppToken), "{}", reply);
        assert_eq!(error.to_string(), "fetch_app_token: Unable to parse Lark response JSON");
    }
}

#[test]
fn user_token_is_read_from_a_reply() {
    let token = read_user_token(Operation::FetchUserToken, USER_REPLY, 1000).unwrap();
    assert_eq!(token.access_token, "access-2");
    assert_eq!(token.refresh_token, "refresh-2");
    assert_eq!(token.access_token_expires, 8180);
    assert_eq!(token.refresh_token_expires, 2_592_980);
}

#[test]
fn user_token_reply_with_a_status_gives_the_remote_message() {
    let reply = r#"{"code":20007,"message":"code expired","msg":"other"}"#;
    let error = read_user_token(Operation::FetchUserToken, reply, 1000).unwrap_err();
    assert_eq!(error.to_string(), "code expired  (fetch_user_token)");
    let error = read_user_token(Operation::FetchUserTokenRefresh, reply, 1000).unwrap_err();
    assert_eq!(error.to_string(), "code expired  (fetch_user_token_refresh)");
}

#[test]
fn user_token_reply_that_is_malformed_gives_a_parse_failure() {
    for reply in [
        "{",
        r#"{"code":3,"msg":"only msg"}"#,
        r#"{"code":0,"data":{"refresh_token":"r","expires_in":1,"refresh_expires_in":2}}"#,
        r#"{"code":0,"data":{"access_token":"a","expires_in":100,"refresh_expires_in":200}}"#,
        r#"{"code":0,"data":{"access_token":"a","refresh_token":"r","refresh_expires_in":200}}"#,
        r#"{"code":0,"data":{"access_token":"a","refresh_token":"r","expires_in":100}}"#,
        r#"{"code":0,"access_token":"a","refresh_token":"r","expires_in":100,"refresh_expires_in":200}"#,
    ] {
        let error = read_user_token(Operation::FetchUserTokenRefresh, reply, 1000).unwrap_err();
        assert!(parse_failure(&error, Operation::FetchUserTokenRefresh), "{}", reply);
        assert_eq!(
            error.to_string(),
            "fetch_user_token_refresh: Unable to parse Lark response JSON"
        );
    }
    let error = read_user_token(Operation::FetchUserToken, "{}", 1000).unwrap_err();
    assert_eq!(error.to_string(), "fetch_user_token: Unable to parse Lark response JSON");
}

#[test]
fn tokens_are_built_from_fields() {
    let token = app_token_from(Some(0), None, Some("t".to_string()), Some(100), 50).unwrap();
    assert_eq!(token.token, "t");
    assert_eq!(token.token_expires, 130);
    assert!(app_token_from(Some(0), None, Some("t".to_string()), Some(u64::MAX), 50).is_err());
    assert!(app_token_from(None, None, Some("t".to_string()), Some(100), 50).is_err());
    let fields = UserFields {
        access_token: Some("a".to_string()),
        refresh_token: Some("r".to_string()),
        expires_in: Some(30),
        refresh_expires_in: Some(40),
    };
    let token = user_token_from(Operation::FetchUserToken, Some(0), None, fields, 5).unwrap();
    assert_eq!(token.access_token_expires, 15);
    assert_eq!(token.refresh_token_expires, 25);
    let fields = UserFields {
        access_token: Some("a".to_string()),
        refresh_token: Some("r".to_string()),
        expires_in: Some(30),
        refresh_expires_in: Some(4),
    };
    assert!(user_token_from(Operation::FetchUserToken, Some(0), None, fields, 5).is_err());
}

#[test]
fn envelope_accepts_status_zero_only() {
    assert!(check_envelope(Operation::SendMail, Some(0), None).is_none());
    assert!(check_envelope(Operation::SendMail, Some(0), Some("ignored".to_string())).is_none());
    let error = check_envelope(Operation::SendMail, Some(1), Some("quota".to_string())).unwrap();
    assert_eq!(error.to_string(), "quota");
    let error = check_envelope(Operation::SendMail, None, None).unwrap();
    assert_eq!(error.to_string(), "send_mail: Unable to parse Lark response JSON");
    let error = check_envelope(Operation::FetchAppToken, Some(-1), Some("m".to_string())).unwrap();
    assert_eq!(error.to_string(), "m  (fetch_app_token)");
}

#[test]
fn send_reply_is_read() {
    assert!(read_sent(r#"{"code":0,"data":{}}"#).is_ok());
    let error = read_sent(r#"{"code":1234,"msg":"mailbox not found"}"#).unwrap_err();
    assert_eq!(error.to_string(), "mailbox not found");
    let error = read_sent("<html>").unwrap_err();
    assert_eq!(error.to_string(), "send_mail: Unable to parse Lark response JSON");
}

#[test]
fn fresh_tokens_need_no_call() {
    let mut lark = store(2000, 2000, 3000);
    assert!(matches!(lark.check_token_expires(TokenEvent::Start, 1999), TokenAction::Fresh));
    assert!(matches!(lark.check_token_expires(TokenEvent::Start, 2000), TokenAction::Fresh));
    assert!(matches!(lark.check_token_expires(TokenEvent::Start, 2000), TokenAction::Fresh));
    assert_eq!(lark.app_token().token, "app-1");
    assert_eq!(lark.user_token().access_token, "access-1");
    assert_eq!(lark.app_info().app_id, "cli_1");
}

#[test]
fn an_expired_app_token_is_fetched_first() {
    let mut lark = store(1000, 500, 500);
    match lark.check_token_expires(TokenEvent::Start, 1001) {
        TokenAction::Post(Operation::FetchAppToken, request) => {
            assert_eq!(request.body, r#"{"app_id":"cli_1","app_secret":"s3cret"}"#);
            assert_eq!(request.authorization, None);
        }
        other => panic!("expected the app token request, got {:?}", other),
    }
    match lark.check_token_expires(TokenEvent::AppToken(APP_REPLY.to_string()), 1001) {
        TokenAction::Post(Operation::FetchUserTokenRefresh, request) => {
            assert_eq!(request.authorization.as_deref(), Some("Bearer app-2"));
            assert_eq!(
                request.body,
                r#"{"grant_type":"refresh_token","refresh_token":"refresh-1"}"#
            );
        }
        other => panic!("expected the refresh request, got {:?}", other),
    }
    assert_eq!(lark.app_token().token, "app-2");
    assert_eq!(lark.app_token().token_expires, 8181);
    assert_eq!(lark.user_token().access_token, "access-1");
    assert!(matches!(
        lark.check_token_expires(TokenEvent::UserToken(USER_REPLY.to_string()), 1001),
        TokenAction::Renewed
    ));
    assert_eq!(lark.user_token().access_token, "access-2");
    assert_eq!(lark.user_token().refresh_token, "refresh-2");
    assert_eq!(lark.user_token().access_token_expires, 8181);
    assert_eq!(lark.user_token().refresh_token_expires, 2_592_981);
    assert!(matches!(lark.check_token_expires(TokenEvent::Start, 1001), TokenAction::Fresh));
}

#[test]
fn an_expired_access_or_refresh_token_is_renewed() {
    let mut lark = store(5000, 1000, 5000);
    assert!(matches!(
        lark.check_token_expires(TokenEvent::Start, 1001),
        TokenAction::Post(Operation::FetchUserTokenRefresh, _)
    ));
    let mut lark = store(5000, 5000, 1000);
    assert!(matches!(
        lark.check_token_expires(TokenEvent::Start, 1001),
        TokenAction::Post(Operation::FetchUserTokenRefresh, _)
    ));
    let mut lark = store(1000, 5000, 5000);
    assert!(matches!(
        lark.check_token_expires(TokenEvent::Start, 1001),
        TokenAction::Post(Operation::FetchAppToken, _)
    ));
    assert!(matches!(
        lark.check_token_expires(TokenEvent::AppToken(APP_REPLY.to_string()), 1001),
        TokenAction::Fresh
    ));
}

#[test]
fn a_refused_reply_replaces_nothing() {
    let mut lark = store(1000, 1000, 1000);
    match lark.check_token_expires(
        TokenEvent::AppToken(r#"{"code":9,"msg":"denied"}"#.to_string()),
        2000,
    ) {
        TokenAction::Failed(error) => assert_eq!(error.to_string(), "denied  (fetch_app_token)"),
        other => panic!("expected a failure, got {:?}", other),
    }
    assert_eq!(lark.app_token().token, "app-1");
    assert_eq!(lark.app_token().token_expires, 1000);
    match lark.check_token_expires(TokenEvent::UserToken("oops".to_string()), 2000) {
        TokenAction::Failed(error) => assert_eq!(
            error.to_string(),
            "fetch_user_token_refresh: Unable to parse Lark response JSON"
        ),
        other => panic!("expected a failure, got {:?}", other),
    }
    assert_eq!(lark.user_token().access_token, "access-1");
    assert_eq!(lark.user_token().refresh_token, "refresh-1");
    assert_eq!(lark.user_token().refresh_token_expires, 1000);
}

#[test]
fn the_renewal_task_waits_a_day_or_ten_minutes() {
    assert_eq!(timing_update(false), 86_400);
    assert_eq!(timing_update(true), 600);
}

#[test]
fn records_are_written_and_read_back() {
    let info = AppInfo { app_id: "cli \"1\"".to_string(), app_secret: "s\\3".to_string() };
    let text = info.to_json();
    assert_eq!(text, r#"{"app_id":"cli \"1\"","app_secret":"s\\3"}"#);
    let back = AppInfo::from_json(&text).unwrap();
    assert_eq!(back.app_id, "cli \"1\"");
    assert_eq!(back.app_secret, "s\\3");
    assert!(AppInfo::from_json(r#"{"app_id":"a"}"#).is_none());
    assert!(AppInfo::from_json(r#"{"app_id":1,"app_secret":"s"}"#).is_none());

    let user = UserToken {
        access_token: "access".to_string(),
        refresh_token: "refresh".to_string(),
        access_token_expires: 7,
        refresh_token_expires: 18_446_744_073_709_551_615,
    };
    let text = user.to_json();
    assert_eq!(text, r#"{"expires":18446744073709551615,"token":"refresh"}"#);
    let back = UserToken::from_json(&text).unwrap();
    assert_eq!(back.refresh_token, "refresh");
    assert_eq!(back.refresh_token_expires, u64::MAX);
    assert_eq!(back.access_token, "");
    assert_eq!(back.access_token_expires, 0);
    assert!(UserToken::from_json(r#"{"token":"t"}"#).is_none());
    assert!(UserToken::from_json(r#"{"token":"t","expires":"1"}"#).is_none());
}

#[test]
fn the_authorization_code_is_optional() {
    let text = r#"{"app_id":"a","app_secret":"s","code":"c0de"}"#;
    assert_eq!(smtp2larkapi::lark_api_mail::authorization_code(text).as_deref(), Some("c0de"));
    assert_eq!(smtp2larkapi::lark_api_mail::authorization_code(r#"{"app_id":"a"}"#), None);
    assert_eq!(smtp2larkapi::lark_api_mail::authorization_code(r#"{"code":null}"#), None);
}

fn posted(action: BootAction, operation: Operation) -> smtp2larkapi::lark_api_mail::Request {
    match action {
        BootAction::Post(op, request) if op == operation => request,
        other => panic!("expected a request, got {:?}", other),
    }
}

fn failed(action: BootAction) -> String {
    match action {
        BootAction::Failed(error) => error.to_string(),
        other => panic!("expected a failure, got {:?}", other),
    }
}

#[test]
fn start_with_a_code_uses_it_and_clears_it() {
    let mut boot = Boot::new();
    let config = r#"{"app_id":"cli_1","app_secret":"s3cret","code":"c0de"}"#;
    let request = posted(boot.step(BootEvent::Config(config.to_string()), 1000), Operation::FetchAppToken);
    assert_eq!(request.body, r#"{"app_id":"cli_1","app_secret":"s3cret"}"#);
    let request = posted(
        boot.step(BootEvent::AppToken(APP_REPLY.to_string()), 1000),
        Operation::FetchUserToken,
    );
    assert_eq!(request.authorization.as_deref(), Some("Bearer app-2"));
    assert_eq!(request.body, r#"{"grant_type":"authorization_code","code":"c0de"}"#);
    match boot.step(BootEvent::UserToken(USER_REPLY.to_string()), 1000) {
        BootAction::Ready(lark, config, record) => {
            assert_eq!(config.as_deref(), Some(r#"{"app_id":"cli_1","app_secret":"s3cret"}"#));
            assert_eq!(record, r#"{"expires":2592980,"token":"refresh-2"}"#);
            assert_eq!(lark.app_info().app_id, "cli_1");
            assert_eq!(lark.app_token().token, "app-2");
            assert_eq!(lark.app_token().token_expires, 8180);
            assert_eq!(lark.user_token().access_token, "access-2");
            assert_eq!(lark.user_token().refresh_token, "refresh-2");
        }
        other => panic!("expected the store, got {:?}", other),
    }
    assert!(matches!(boot, Boot::Done));
    assert_eq!(failed(boot.step(BootEvent::Config(config.to_string()), 1000)), "Unexpected event");
}

#[test]
fn start_without_a_code_renews_the_persisted_token() {
    let mut boot = Boot::new();
    let config = r#"{"app_id":"cli_1","app_secret":"s3cret"}"#;
    posted(boot.step(BootEvent::Config(config.to_string()), 1000), Operation::FetchAppToken);
    assert!(matches!(
        boot.step(BootEvent::AppToken(APP_REPLY.to_string()), 1000),
        BootAction::LoadStored
    ));
    let stored = r#"{"token":"refresh-0","expires":5}"#;
    let request = posted(
        boot.step(BootEvent::Stored(stored.to_string()), 1000),
        Operation::FetchUserTokenRefresh,
    );
    assert_eq!(request.authorization.as_deref(), Some("Bearer app-2"));
    assert_eq!(request.body, r#"{"grant_type":"refresh_token","refresh_token":"refresh-0"}"#);
    match boot.step(BootEvent::UserToken(USER_REPLY.to_string()), 1000) {
        BootAction::Ready(lark, config, record) => {
            assert_eq!(config, None);
            assert_eq!(record, r#"{"expires":2592980,"token":"refresh-2"}"#);
            assert_eq!(lark.user_token().refresh_token_expires, 2_592_980);
        }
        other => panic!("expected the store, got {:?}", other),
    }
}

#[test]
fn start_fails_where_something_is_not_accepted_and_can_be_taken_up_again() {
    let mut boot = Boot::new();
    assert_eq!(
        failed(boot.step(BootEvent::Config(r#"{"app_id":"cli_1"}"#.to_string()), 1000)),
        "Unable to parse json from app_info.json"
    );
    assert!(matches!(boot, Boot::Start));
    assert_eq!(failed(boot.step(BootEvent::Stored("{}".to_string()), 1000)), "Unexpected event");
    let config = r#"{"app_id":"cli_1","app_secret":"s3cret"}"#;
    posted(boot.step(BootEvent::Config(config.to_string()), 1000), Operation::FetchAppToken);
    assert_eq!(
        failed(boot.step(BootEvent::AppToken(r#"{"code":9,"msg":"denied"}"#.to_string()), 1000)),
        "denied  (fetch_app_token)"
    );
    assert!(matches!(boot, Boot::AwaitAppToken(_, None)));
    assert!(matches!(
        boot.step(BootEvent::AppToken(APP_REPLY.to_string()), 1000),
        BootAction::LoadStored
    ));
    assert_eq!(
        failed(boot.step(BootEvent::Stored(r#"{"token":"t"}"#.to_string()), 1000)),
        "Unable to parse json from refresh_token.json, please re-fill the code at app_info.json to get the token."
    );
    assert!(matches!(boot, Boot::AwaitStored(_, _)));
    posted(
        boot.step(BootEvent::Stored(r#"{"token":"t","expires":1}"#.to_string()), 1000),
        Operation::FetchUserTokenRefresh,
    );
    assert_eq!(
        failed(boot.step(BootEvent::UserToken(r#"{"code":1,"message":"no"}"#.to_string()), 1000)),
        "no  (fetch_user_token_refresh)"
    );
    assert!(matches!(boot, Boot::AwaitUserToken(_, _, false)));
    assert!(matches!(
        boot.step(BootEvent::UserToken(USER_REPLY.to_string()), 1000),
        BootAction::Ready(_, None, _)
    ));
}

#[test]
fn a_code_that_is_refused_is_not_cleared() {
    let mut boot = Boot::new();
    let config = r#"{"app_id":"cli_1","app_secret":"s3cret","code":"c0de"}"#;
    posted(boot.step(BootEvent::Config(config.to_string()), 1000), Operation::FetchAppToken);
    posted(boot.step(BootEvent::AppToken(APP_REPLY.to_string()), 1000), Operation::FetchUserToken);
    assert_eq!(
        failed(boot.step(BootEvent::UserToken(r#"{"code":20007,"message":"used"}"#.to_string()), 1000)),
        "used  (fetch_user_token)"
    );
    assert!(matches!(boot, Boot::AwaitUserToken(_, _, true)));
}
