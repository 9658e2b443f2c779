use smtp2larkapi::dispatch::{SendAction, SendEvent, SendFailure, Sending};
use smtp2larkapi::lark_api_mail::{
    send_request_text, ApiError, AppInfo, AppToken, LarkMail, Operation, Request, UserToken,
};
use smtp2larkapi::mime::{Head, Mime};
use smtp2larkapi::relay::SendError;
use smtp2larkapi::smtp_server::Addr;

const APP: &str = r#"{"code":0,"msg":"ok","app_access_token":"app-2","expire":7200}"#;
const USER: &str = r#"{"code":0,"data":{"access_token":"access-2","refresh_token":"refresh-2","expires_in":7200,"refresh_expires_in":2592000}}"#;
const BODY: &str = r#"{"body_html":"<b>x</b>","head_from":{"name":"Ann"},"subject":"Hi","to":[{"mail_address":"b@y","name":""}]}"#;

fn lark(app_expires: u64, access_expires: u64, refresh_expires: u64) -> LarkMail {
    LarkMail::new(
        AppInfo { app_id: "cli_1".to_string(), app_secret: "s3cret".to_string() },
        AppToken { token: "app-1".to_string(), token_expires: app_expires },
        UserToken {
            access_token: "access-1".to_string(),
            refresh_token: "refresh-1".to_string(),
            access_token_expires: access_expires,
            refresh_token_expires: refresh_expires,
        },
    )
}

fn message() -> SendEvent {
    SendEvent::Message(
        vec![Addr { mail_address: "b@y".to_string(), name: String::new() }],
        Some(Mime {
            head: Head {
                senders: vec![Some("Ann".to_string())],
                subject: Some("Hi".to_string()),
                html_bodies: vec![Some("<b>x</b>".to_string())],
            },
            parts: Vec::new(),
        }),
    )
}

fn posted(action: SendAction, operation: Operation) -> (Request, Option<String>) {
    match action {
        SendAction::Post(op, request, record) if op == operation => (request, record),
        other => panic!("expected a request, got {:?}", other),
    }
}

fn failed(action: SendAction) -> SendFailure {
    match action {
        SendAction::Failed(failure) => failure,
        other => panic!("expected a failure, got {:?}", other),
    }
}

#[test]
fn the_send_request_has_the_provider_address_and_the_token() {
    let request = send_request_text("access", "{}".to_string());
    assert_eq!(
        request.url,
        "https://open.larksuite.com/open-apis/mail/v1/user_mailboxes/me/messages/send"
    );
    assert_eq!(request.authorization.as_deref(), Some("Bearer access"));
    assert_eq!(request.content_type, "application/json; charset=utf-8");
    assert_eq!(request.body, "{}");
}

#[test]
fn with_fresh_credentials_the_message_is_sent_at_once() {
    let mut store = lark(2000, 2000, 2000);
    let mut sending = Sending::new();
    let (request, record) =
        posted(store.send_mail(&mut sending, message(), 1000), Operation::SendMail);
    assert_eq!(request.authorization.as_deref(), Some("Bearer access-1"));
    assert_eq!(request.body, BODY);
    assert_eq!(record, None);
    assert!(matches!(sending, Sending::AwaitSent));
    assert!(matches!(
        store.send_mail(&mut sending, SendEvent::Sent(r#"{"code":0}"#.to_string()), 1000),
        SendAction::Done
    ));
    assert!(matches!(sending, Sending::Idle));
}

#[test]
fn expired_credentials_are_renewed_before_the_message_is_sent() {
    let mut store = lark(500, 500, 500);
    let mut sending = Sending::new();
    let (request, record) =
        posted(store.send_mail(&mut sending, message(), 1000), Operation::FetchAppToken);
    assert_eq!(request.body, r#"{"app_id":"cli_1","app_secret":"s3cret"}"#);
    assert_eq!(record, None);
    assert!(matches!(sending, Sending::Checking(_, Operation::FetchAppToken)));
    let (request, record) = posted(
        store.send_mail(&mut sending, SendEvent::AppToken(APP.to_string()), 1000),
        Operation::FetchUserTokenRefresh,
    );
    assert_eq!(request.authorization.as_deref(), Some("Bearer app-2"));
    assert_eq!(request.body, r#"{"grant_type":"refresh_token","refresh_token":"refresh-1"}"#);
    assert_eq!(record, None);
    let (request, record) = posted(
        store.send_mail(&mut sending, SendEvent::UserToken(USER.to_string()), 1000),
        Operation::SendMail,
    );
    assert_eq!(request.authorization.as_deref(), Some("Bearer access-2"));
    assert_eq!(request.body, BODY);
    assert_eq!(record.as_deref(), Some(r#"{"expires":2592980,"token":"refresh-2"}"#));
    assert_eq!(store.user_token().refresh_token, "refresh-2");
    let failure = failed(store.send_mail(
        &mut sending,
        SendEvent::Sent(r#"{"code":7,"msg":"quota"}"#.to_string()),
        1000,
    ));
    assert_eq!(failure.to_string(), "quota");
    assert!(matches!(sending, Sending::Idle));
}

#[test]
fn only_the_app_token_is_fetched_where_the_user_token_is_fresh() {
    let mut store = lark(500, 5000, 5000);
    let mut sending = Sending::new();
    posted(store.send_mail(&mut sending, message(), 1000), Operation::FetchAppToken);
    let (request, record) = posted(
        store.send_mail(&mut sending, SendEvent::AppToken(APP.to_string()), 1000),
        Operation::SendMail,
    );
    assert_eq!(request.authorization.as_deref(), Some("Bearer access-1"));
    assert_eq!(record, None);
    assert_eq!(store.app_token().token, "app-2");
}

#[test]
fn a_failed_check_ends_the_sending_without_a_send_request() {
    let mut store = lark(5000, 500, 5000);
    let mut sending = Sending::new();
    posted(store.send_mail(&mut sending, message(), 1000), Operation::FetchUserTokenRefresh);
    let failure = failed(store.send_mail(
        &mut sending,
        SendEvent::UserToken(r#"{"code":3,"message":"revoked"}"#.to_string()),
        1000,
    ));
    assert!(matches!(&failure, SendFailure::Api(ApiError::Remote(_))));
    assert_eq!(failure.to_string(), "revoked  (fetch_user_token_refresh)");
    assert!(matches!(sending, Sending::Idle));
    assert_eq!(store.user_token().access_token, "access-1");
    let failure = failed(store.send_mail(
        &mut sending,
        SendEvent::Sent(r#"{"code":0}"#.to_string()),
        1000,
    ));
    assert_eq!(failure.to_string(), "Unexpected event");
}

#[test]
fn a_body_that_is_no_message_is_not_sent() {
    let mut store = lark(500, 500, 500);
    let mut sending = Sending::new();
    let event = SendEvent::Message(Vec::new(), None);
    let failure = failed(store.send_mail(&mut sending, event, 1000));
    assert!(matches!(failure, SendFailure::Letter(SendError::Unparsable)));
    assert_eq!(failure.to_string(), "Failed to parse the email content");
    assert!(matches!(sending, Sending::Idle));
}

#[test]
fn events_out_of_turn_end_the_sending() {
    let mut store = lark(500, 500, 500);
    let mut sending = Sending::new();
    let failure = failed(store.send_mail(&mut sending, SendEvent::AppToken(APP.to_string()), 1000));
    assert_eq!(failure.to_string(), "Unexpected event");
    assert_eq!(store.app_token().token, "app-1");
    posted(store.send_mail(&mut sending, message(), 1000), Operation::FetchAppToken);
    let failure =
        failed(store.send_mail(&mut sending, SendEvent::UserToken(USER.to_string()), 1000));
    assert_eq!(failure.to_string(), "Unexpected event");
    assert!(matches!(sending, Sending::Idle));
    assert_eq!(store.user_token().access_token, "access-1");
    posted(store.send_mail(&mut sending, message(), 1000), Operation::FetchAppToken);
    failed(store.send_mail(&mut sending, message(), 1000));
    assert!(matches!(sending, Sending::Idle));
}
