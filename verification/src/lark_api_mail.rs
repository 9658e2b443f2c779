//! The two credentials of the Lark API: how they are asked for, read from the
//! replies of the identity endpoints, and kept fresh.
//!
//! Nothing here performs a call. `LarkMail::check_token_expires` is handed what
//! happened (`TokenEvent`) and answers what is to happen next (`TokenAction`).

use crate::json::{
    json_integer, json_natural, json_quoted, json_string, opt_text, quote, read_integer,
    read_natural, read_string,
};
use crate::text::{decimal, decimal_text};
use vstd::prelude::*;
use vstd::string::*;

verus! {

/// The identity of the relay towards the API.
#[derive(Clone, Debug)]
pub struct AppInfo {
    pub app_id: String,
    pub app_secret: String,
}

/// The credential of the relay itself.
#[derive(Debug)]
pub struct AppToken {
    pub token: String,
    /// The second since the epoch after which the token is no longer used.
    pub token_expires: u64,
}

/// The credential that a mailbox owner delegated.
#[derive(Debug)]
pub struct UserToken {
    pub access_token: String,
    pub refresh_token: String,
    /// The second since the epoch after which the access token is no longer used.
    pub access_token_expires: u64,
    /// The second since the epoch after which the refresh token is no longer used.
    pub refresh_token_expires: u64,
}

/// The calls that the relay makes.
#[derive(Clone, Copy, Debug, PartialEq, Eq, Structural)]
pub enum Operation {
    FetchAppToken,
    FetchUserToken,
    FetchUserTokenRefresh,
    SendMail,
}

/// Why something that the relay was handed was not accepted.
#[derive(Debug)]
pub enum ApiError {
    /// The reply carries a status other than zero; this is the message it gives.
    Remote(String),
    /// The reply is not JSON, or lacks what the operation needs.
    Parse(Operation),
    /// The configuration record lacks the identity of the relay.
    Config,
    /// The persisted record lacks the refresh token or its expiry.
    Stored,
    /// The event does not answer what was asked for.
    Unexpected,
}

/// A POST that the caller is to perform.
#[derive(Debug)]
pub struct Request {
    pub url: String,
    /// The value of the `Authorization` header, if there is to be one.
    pub authorization: Option<String>,
    /// The value of the `Content-Type` header.
    pub content_type: String,
    pub body: String,
}

pub struct AppInfoView {
    pub app_id: Seq<char>,
    pub app_secret: Seq<char>,
}

pub struct AppTokenView {
    pub token: Seq<char>,
    pub token_expires: u64,
}

pub struct UserTokenView {
    pub access_token: Seq<char>,
    pub refresh_token: Seq<char>,
    pub access_token_expires: u64,
    pub refresh_token_expires: u64,
}

pub enum ApiErrorView {
    Remote(Seq<char>),
    Parse(Operation),
    Config,
    Stored,
    Unexpected,
}

pub struct RequestView {
    pub url: Seq<char>,
    pub authorization: Option<Seq<char>>,
    pub content_type: Seq<char>,
    pub body: Seq<char>,
}

impl View for AppInfo {
    type V = AppInfoView;

    open spec fn view(&self) -> AppInfoView {
        AppInfoView { app_id: self.app_id@, app_secret: self.app_secret@ }
    }
}

impl View for AppToken {
    type V = AppTokenView;

    open spec fn view(&self) -> AppTokenView {
        AppTokenView { token: self.token@, token_expires: self.token_expires }
    }
}

impl View for UserToken {
    type V = UserTokenView;

    open spec fn view(&self) -> UserTokenView {
        UserTokenView {
            access_token: self.access_token@,
            refresh_token: self.refresh_token@,
            access_token_expires: self.access_token_expires,
            refresh_token_expires: self.refresh_token_expires,
        }
    }
}

impl View for ApiError {
    type V = ApiErrorView;

    open spec fn view(&self) -> ApiErrorView {
        match self {
            ApiError::Remote(m) => ApiErrorView::Remote(m@),
            ApiError::Parse(op) => ApiErrorView::Parse(*op),
            ApiError::Config => ApiErrorView::Config,
            ApiError::Stored => ApiErrorView::Stored,
            ApiError::Unexpected => ApiErrorView::Unexpected,
        }
    }
}

impl View for Request {
    type V = RequestView;

    open spec fn view(&self) -> RequestView {
        RequestView {
            url: self.url@,
            authorization: opt_text(self.authorization),
            content_type: self.content_type@,
            body: self.body@,
        }
    }
}

impl Operation {
    /// The name under which the operation appears in messages.
    pub open spec fn name(self) -> Seq<char> {
        match self {
            Operation::FetchAppToken => "fetch_app_token"@,
            Operation::FetchUserToken => "fetch_user_token"@,
            Operation::FetchUserTokenRefresh => "fetch_user_token_refresh"@,
            Operation::SendMail => "send_mail"@,
        }
    }

    /// The address that the operation posts to.
    pub open spec fn url(self) -> Seq<char> {
        match self {
            Operation::FetchAppToken => {
                "https://open.larksuite.com/open-apis/auth/v3/app_access_token/internal"@
            },
            Operation::FetchUserToken => {
                "https://open.larksuite.com/open-apis/authen/v1/oidc/access_token"@
            },
            Operation::FetchUserTokenRefresh => {
                "https://open.larksuite.com/open-apis/authen/v1/oidc/refresh_access_token"@
            },
            Operation::SendMail => {
                "https://open.larksuite.com/open-apis/mail/v1/user_mailboxes/me/messages/send"@
            },
        }
    }

    /// What is added to the message of a reply that reports a failure.
    pub open spec fn suffix(self) -> Seq<char> {
        match self {
            Operation::FetchAppToken => "  (fetch_app_token)"@,
            Operation::FetchUserToken => "  (fetch_user_token)"@,
            Operation::FetchUserTokenRefresh => "  (fetch_user_token_refresh)"@,
            Operation::SendMail => Seq::empty(),
        }
    }

    /// The name under which the operation appears in messages.
    pub fn name_text(&self) -> (r: String)
        ensures
            r@ == self.name(),
    {
        match self {
            Operation::FetchAppToken => String::from_str("fetch_app_token"),
            Operation::FetchUserToken => String::from_str("fetch_user_token"),
            Operation::FetchUserTokenRefresh => String::from_str("fetch_user_token_refresh"),
            Operation::SendMail => String::from_str("send_mail"),
        }
    }

    /// The address that the operation posts to.
    pub fn url_text(&self) -> (r: String)
        ensures
            r@ == self.url(),
    {
        match self {
            Operation::FetchAppToken => String::from_str(
                "https://open.larksuite.com/open-apis/auth/v3/app_access_token/internal",
            ),
            Operation::FetchUserToken => String::from_str(
                "https://open.larksuite.com/open-apis/authen/v1/oidc/access_token",
            ),
            Operation::FetchUserTokenRefresh => String::from_str(
                "https://open.larksuite.com/open-apis/authen/v1/oidc/refresh_access_token",
            ),
            Operation::SendMail => String::from_str(
                "https://open.larksuite.com/open-apis/mail/v1/user_mailboxes/me/messages/send",
            ),
        }
    }
}

impl ApiErrorView {
    /// The message of the failure.
    pub open spec fn message(self) -> Seq<char> {
        match self {
            ApiErrorView::Remote(m) => m,
            ApiErrorView::Parse(op) => op.name() + ": Unable to parse Lark response JSON"@,
            ApiErrorView::Config => "Unable to parse json from app_info.json"@,
            ApiErrorView::Stored => "Unable to parse json from refresh_token.json, please re-fill the code at app_info.json to get the token."@,
            ApiErrorView::Unexpected => "Unexpected event"@,
        }
    }
}

impl ApiError {
    /// The message of the failure.
    pub fn to_string(&self) -> (r: String)
        ensures
            r@ == self@.message(),
    {
        match self {
            ApiError::Remote(m) => m.clone(),
            ApiError::Parse(op) => {
                let mut text = op.name_text();
                text.append(": Unable to parse Lark response JSON");
                text
            },
            ApiError::Config => String::from_str("Unable to parse json from app_info.json"),
            ApiError::Stored => String::from_str(
                "Unable to parse json from refresh_token.json, please re-fill the code at app_info.json to get the token.",
            ),
            ApiError::Unexpected => String::from_str("Unexpected event"),
        }
    }
}

/// The value of every request's `Content-Type` header.
pub open spec fn content_type() -> Seq<char> {
    "application/json; charset=utf-8"@
}

/// The value of the `Authorization` header for a token.
pub open spec fn bearer(token: Seq<char>) -> Seq<char> {
    "Bearer "@ + token
}

/// The request for the relay's own credential.
pub open spec fn app_token_request(info: AppInfoView) -> RequestView {
    RequestView {
        url: Operation::FetchAppToken.url(),
        authorization: None,
        content_type: content_type(),
        body: "{\"app_id\":\""@ + info.app_id + "\",\"app_secret\":\""@ + info.app_secret + "\"}"@,
    }
}

/// The request that turns a one-time authorization code into a user credential.
pub open spec fn user_token_request(app_token: Seq<char>, code: Seq<char>) -> RequestView {
    RequestView {
        url: Operation::FetchUserToken.url(),
        authorization: Some(bearer(app_token)),
        content_type: content_type(),
        body: "{\"grant_type\":\"authorization_code\",\"code\":\""@ + code + "\"}"@,
    }
}

/// The request that renews a user credential by its refresh token.
pub open spec fn refresh_request(app_token: Seq<char>, refresh_token: Seq<char>) -> RequestView {
    RequestView {
        url: Operation::FetchUserTokenRefresh.url(),
        authorization: Some(bearer(app_token)),
        content_type: content_type(),
        body: "{\"grant_type\":\"refresh_token\",\"refresh_token\":\""@ + refresh_token + "\"}"@,
    }
}

/// The request that submits a message, given its JSON text.
pub open spec fn send_request(access_token: Seq<char>, body: Seq<char>) -> RequestView {
    RequestView {
        url: Operation::SendMail.url(),
        authorization: Some(bearer(access_token)),
        content_type: content_type(),
        body: body,
    }
}

/// The second at which a token granted at `now` for `lifetime` seconds stops
/// being used: twenty seconds before it runs out.
pub open spec fn expiry_of(lifetime: int, now: int) -> int {
    lifetime + now - 20
}

/// Whether `expiry_of` is a second that a `u64` holds.
pub open spec fn expiry_fits(lifetime: int, now: int) -> bool {
    0 <= expiry_of(lifetime, now) <= u64::MAX
}

/// What a reply says before its payload is looked at: nothing to object to when
/// the status is zero; else the message it gives, with the operation's suffix;
/// and a parse failure when it gives none.
pub open spec fn envelope(op: Operation, code: Option<i64>, message: Option<Seq<char>>) -> Option<
    ApiErrorView,
> {
    if code == Some(0i64) {
        None
    } else {
        match message {
            Some(m) => Some(ApiErrorView::Remote(m + op.suffix())),
            None => Some(ApiErrorView::Parse(op)),
        }
    }
}

/// The relay's credential that a reply with these fields grants at `now`.
pub open spec fn app_token_of(
    code: Option<i64>,
    message: Option<Seq<char>>,
    token: Option<Seq<char>>,
    expire: Option<u64>,
    now: u64,
) -> Result<AppTokenView, ApiErrorView> {
    match envelope(Operation::FetchAppToken, code, message) {
        Some(e) => Err(e),
        None => match (token, expire) {
            (Some(t), Some(e)) => if expiry_fits(e as int, now as int) {
                Ok(AppTokenView { token: t, token_expires: expiry_of(e as int, now as int) as u64 })
            } else {
                Err(ApiErrorView::Parse(Operation::FetchAppToken))
            },
            _ => Err(ApiErrorView::Parse(Operation::FetchAppToken)),
        },
    }
}

/// The fields of a reply that grants a user credential.
pub struct UserGrant {
    pub access_token: Option<Seq<char>>,
    pub refresh_token: Option<Seq<char>>,
    pub expires_in: Option<u64>,
    pub refresh_expires_in: Option<u64>,
}

/// The user credential that a reply to `op` with these fields grants at `now`.
pub open spec fn user_token_of(
    op: Operation,
    code: Option<i64>,
    message: Option<Seq<char>>,
    grant: UserGrant,
    now: u64,
) -> Result<UserTokenView, ApiErrorView> {
    match envelope(op, code, message) {
        Some(e) => Err(e),
        None => match (
            grant.access_token,
            grant.refresh_token,
            grant.expires_in,
            grant.refresh_expires_in,
        ) {
            (Some(a), Some(r), Some(e), Some(f)) => if expiry_fits(e as int, now as int)
                && expiry_fits(f as int, now as int) {
                Ok(
                    UserTokenView {
                        access_token: a,
                        refresh_token: r,
                        access_token_expires: expiry_of(e as int, now as int) as u64,
                        refresh_token_expires: expiry_of(f as int, now as int) as u64,
                    },
                )
            } else {
                Err(ApiErrorView::Parse(op))
            },
            _ => Err(ApiErrorView::Parse(op)),
        },
    }
}

/// The outcome of sending that a reply with these fields reports.
pub open spec fn sent_of(code: Option<i64>, message: Option<Seq<char>>) -> Result<(), ApiErrorView> {
    match envelope(Operation::SendMail, code, message) {
        Some(e) => Err(e),
        None => Ok(()),
    }
}

/// The relay's credential that the reply `text` grants at `now`.
pub open spec fn app_token_in(text: Seq<char>, now: u64) -> Result<AppTokenView, ApiErrorView> {
    app_token_of(
        json_integer(text, "/code"@),
        json_string(text, "/msg"@),
        json_string(text, "/app_access_token"@),
        json_natural(text, "/expire"@),
        now,
    )
}

/// The user credential that the reply `text` to `op` grants at `now`.
pub open spec fn user_token_in(op: Operation, text: Seq<char>, now: u64) -> Result<
    UserTokenView,
    ApiErrorView,
> {
    user_token_of(
        op,
        json_integer(text, "/code"@),
        json_string(text, "/message"@),
        UserGrant {
            access_token: json_string(text, "/data/access_token"@),
            refresh_token: json_string(text, "/data/refresh_token"@),
            expires_in: json_natural(text, "/data/expires_in"@),
            refresh_expires_in: json_natural(text, "/data/refresh_expires_in"@),
        },
        now,
    )
}

/// The outcome of sending that the reply `text` reports.
pub open spec fn sent_in(text: Seq<char>) -> Result<(), ApiErrorView> {
    sent_of(json_integer(text, "/code"@), json_string(text, "/msg"@))
}

pub open spec fn app_result_view(r: Result<AppToken, ApiError>) -> Result<AppTokenView, ApiErrorView> {
    match r {
        Ok(t) => Ok(t@),
        Err(e) => Err(e@),
    }
}

pub open spec fn user_result_view(r: Result<UserToken, ApiError>) -> Result<
    UserTokenView,
    ApiErrorView,
> {
    match r {
        Ok(t) => Ok(t@),
        Err(e) => Err(e@),
    }
}

pub open spec fn unit_result_view(r: Result<(), ApiError>) -> Result<(), ApiErrorView> {
    match r {
        Ok(_) => Ok(()),
        Err(e) => Err(e@),
    }
}

pub open spec fn opt_error_view(r: Option<ApiError>) -> Option<ApiErrorView> {
    match r {
        Some(e) => Some(e@),
        None => None,
    }
}

/// Computes `expiry_of`, where it fits.
pub fn expiry(lifetime: u64, now: u64) -> (r: Option<u64>)
    ensures
        r is Some == expiry_fits(lifetime as int, now as int),
        r is Some ==> r->0 == expiry_of(lifetime as int, now as int),
{
    if now >= 20 {
        lifetime.checked_add(now - 20)
    } else if lifetime >= 20 - now {
        Some(lifetime - (20 - now))
    } else {
        None
    }
}

/// Judges the status and message of a reply.
pub fn check_envelope(op: Operation, code: Option<i64>, message: Option<String>) -> (r: Option<
    ApiError,
>)
    ensures
        opt_error_view(r) == envelope(op, code, opt_text(message)),
{
    let fine = match code {
        Some(c) => c == 0,
        None => false,
    };
    if fine {
        None
    } else {
        match message {
            Some(m) => {
                let mut text = m;
                match op {
                    Operation::FetchAppToken => text.append("  (fetch_app_token)"),
                    Operation::FetchUserToken => text.append("  (fetch_user_token)"),
                    Operation::FetchUserTokenRefresh => text.append("  (fetch_user_token_refresh)"),
                    Operation::SendMail => {},
                }
                Some(ApiError::Remote(text))
            },
            None => Some(ApiError::Parse(op)),
        }
    }
}

/// Builds the relay's credential from the fields of a reply.
pub fn app_token_from(
    code: Option<i64>,
    message: Option<String>,
    token: Option<String>,
    expire: Option<u64>,
    now: u64,
) -> (r: Result<AppToken, ApiError>)
    ensures
        app_result_view(r) == app_token_of(code, opt_text(message), opt_text(token), expire, now),
{
    match check_envelope(Operation::FetchAppToken, code, message) {
        Some(e) => Err(e),
        None => match (token, expire) {
            (Some(t), Some(e)) => match expiry(e, now) {
                Some(at) => Ok(AppToken { token: t, token_expires: at }),
                None => Err(ApiError::Parse(Operation::FetchAppToken)),
            },
            _ => Err(ApiError::Parse(Operation::FetchAppToken)),
        },
    }
}

/// The fields of a reply that grants a user credential, as they were read.
pub struct UserFields {
    pub access_token: Option<String>,
    pub refresh_token: Option<String>,
    pub expires_in: Option<u64>,
    pub refresh_expires_in: Option<u64>,
}

impl View for UserFields {
    type V = UserGrant;

    open spec fn view(&self) -> UserGrant {
        UserGrant {
            access_token: opt_text(self.access_token),
            refresh_token: opt_text(self.refresh_token),
            expires_in: self.expires_in,
            refresh_expires_in: self.refresh_expires_in,
        }
    }
}

/// Builds a user credential from the fields of a reply to `op`.
pub fn user_token_from(
    op: Operation,
    code: Option<i64>,
    message: Option<String>,
    fields: UserFields,
    now: u64,
) -> (r: Result<UserToken, ApiError>)
    ensures
        user_result_view(r) == user_token_of(op, code, opt_text(message), fields@, now),
{
    match check_envelope(op, code, message) {
        Some(e) => Err(e),
        None => match (
            fields.access_token,
            fields.refresh_token,
            fields.expires_in,
            fields.refresh_expires_in,
        ) {
            (Some(a), Some(r), Some(e), Some(f)) => match (expiry(e, now), expiry(f, now)) {
                (Some(access_at), Some(refresh_at)) => Ok(
                    UserToken {
                        access_token: a,
                        refresh_token: r,
                        access_token_expires: access_at,
                        refresh_token_expires: refresh_at,
                    },
                ),
                _ => Err(ApiError::Parse(op)),
            },
            _ => Err(ApiError::Parse(op)),
        },
    }
}

/// Reads the relay's credential from the reply to `FetchAppToken`.
pub fn read_app_token(reply: &str, now: u64) -> (r: Result<AppToken, ApiError>)
    ensures
        app_result_view(r) == app_token_in(reply@, now),
{
    let code = read_integer(reply, "/code");
    let message = read_string(reply, "/msg");
    let token = read_string(reply, "/app_access_token");
    let expire = read_natural(reply, "/expire");
    app_token_from(code, message, token, expire, now)
}

/// Reads a user credential from the reply to `op`.
pub fn read_user_token(op: Operation, reply: &str, now: u64) -> (r: Result<UserToken, ApiError>)
    ensures
        user_result_view(r) == user_token_in(op, reply@, now),
{
    let code = read_integer(reply, "/code");
    let message = read_string(reply, "/message");
    let fields = UserFields {
        access_token: read_string(reply, "/data/access_token"),
        refresh_token: read_string(reply, "/data/refresh_token"),
        expires_in: read_natural(reply, "/data/expires_in"),
        refresh_expires_in: read_natural(reply, "/data/refresh_expires_in"),
    };
    user_token_from(op, code, message, fields, now)
}

/// Reads the outcome of sending from the reply to `SendMail`.
pub fn read_sent(reply: &str) -> (r: Result<(), ApiError>)
    ensures
        unit_result_view(r) == sent_in(reply@),
{
    let code = read_integer(reply, "/code");
    let message = read_string(reply, "/msg");
    match check_envelope(Operation::SendMail, code, message) {
        Some(e) => Err(e),
        None => Ok(()),
    }
}

/// What the caller reports to the credential store.
#[derive(Debug)]
pub enum TokenEvent {
    /// A check is asked for.
    Start,
    /// The reply to `FetchAppToken` has arrived; this is its text.
    AppToken(String),
    /// The reply to `FetchUserTokenRefresh` has arrived; this is its text.
    UserToken(String),
}

/// What the credential store asks of the caller.
#[derive(Debug)]
pub enum TokenAction {
    /// Both credentials can be used; nothing is left to do.
    Fresh,
    /// The user credential was replaced: its refresh token is to be persisted,
    /// after which both credentials can be used.
    Renewed,
    /// Perform the request and report the text of the reply.
    Post(Operation, Request),
    /// The reply was not accepted; the check has failed.
    Failed(ApiError),
}

pub enum TokenEventView {
    Start,
    AppToken(Seq<char>),
    UserToken(Seq<char>),
}

pub enum TokenActionView {
    Fresh,
    Renewed,
    Post(Operation, RequestView),
    Failed(ApiErrorView),
}

impl View for TokenEvent {
    type V = TokenEventView;

    open spec fn view(&self) -> TokenEventView {
        match self {
            TokenEvent::Start => TokenEventView::Start,
            TokenEvent::AppToken(t) => TokenEventView::AppToken(t@),
            TokenEvent::UserToken(t) => TokenEventView::UserToken(t@),
        }
    }
}

impl View for TokenAction {
    type V = TokenActionView;

    open spec fn view(&self) -> TokenActionView {
        match self {
            TokenAction::Fresh => TokenActionView::Fresh,
            TokenAction::Renewed => TokenActionView::Renewed,
            TokenAction::Post(op, r) => TokenActionView::Post(*op, r@),
            TokenAction::Failed(e) => TokenActionView::Failed(e@),
        }
    }
}

/// The two credentials with the identity they belong to, as the contracts see them.
pub struct Store {
    pub app_info: AppInfoView,
    pub app_token: AppTokenView,
    pub user_token: UserTokenView,
}

impl Store {
    /// The relay's credential has expired at `now`.
    pub open spec fn app_due(self, now: u64) -> bool {
        self.app_token.token_expires < now
    }

    /// The access token or the refresh token of the user credential has expired at `now`.
    pub open spec fn user_due(self, now: u64) -> bool {
        self.user_token.access_token_expires < now || self.user_token.refresh_token_expires < now
    }

    /// The second half of a check: the user credential.
    pub open spec fn renew_user(self, now: u64) -> (Store, TokenActionView) {
        if self.user_due(now) {
            (
                self,
                TokenActionView::Post(
                    Operation::FetchUserTokenRefresh,
                    refresh_request(self.app_token.token, self.user_token.refresh_token),
                ),
            )
        } else {
            (self, TokenActionView::Fresh)
        }
    }

    /// The store after an event at `now`, with what the caller is to do next.
    pub open spec fn check_token_expires(self, event: TokenEventView, now: u64) -> (
        Store,
        TokenActionView,
    ) {
        match event {
            TokenEventView::Start => if self.app_due(now) {
                (
                    self,
                    TokenActionView::Post(Operation::FetchAppToken, app_token_request(self.app_info)),
                )
            } else {
                self.renew_user(now)
            },
            TokenEventView::AppToken(text) => match app_token_in(text, now) {
                Err(e) => (self, TokenActionView::Failed(e)),
                Ok(t) => Store { app_token: t, ..self }.renew_user(now),
            },
            TokenEventView::UserToken(text) => match user_token_in(
                Operation::FetchUserTokenRefresh,
                text,
                now,
            ) {
                Err(e) => (self, TokenActionView::Failed(e)),
                Ok(t) => (Store { user_token: t, ..self }, TokenActionView::Renewed),
            },
        }
    }
}

/// The credential store.
#[derive(Debug)]
pub struct LarkMail {
    app_info: AppInfo,
    app_token: AppToken,
    user_token: UserToken,
}

impl View for LarkMail {
    type V = Store;

    closed spec fn view(&self) -> Store {
        Store { app_info: self.app_info@, app_token: self.app_token@, user_token: self.user_token@ }
    }
}

/// The value of every request's `Content-Type` header.
pub fn content_type_text() -> (r: String)
    ensures
        r@ == content_type(),
{
    String::from_str("application/json; charset=utf-8")
}

/// The value of the `Authorization` header for a token.
pub fn bearer_text(token: &str) -> (r: String)
    ensures
        r@ == bearer(token@),
{
    let mut text = String::from_str("Bearer ");
    text.append(token);
    text
}

/// Builds the request for the relay's own credential.
pub fn fetch_app_token(info: &AppInfo) -> (r: Request)
    ensures
        r@ == app_token_request(info@),
{
    let mut body = String::from_str("{\"app_id\":\"");
    body.append(info.app_id.as_str());
    body.append("\",\"app_secret\":\"");
    body.append(info.app_secret.as_str());
    body.append("\"}");
    Request {
        url: Operation::FetchAppToken.url_text(),
        authorization: None,
        content_type: content_type_text(),
        body,
    }
}

/// Builds the request that turns a one-time authorization code into a user credential.
pub fn fetch_user_token(app_token: &AppToken, code: &str) -> (r: Request)
    ensures
        r@ == user_token_request(app_token@.token, code@),
{
    let mut body = String::from_str("{\"grant_type\":\"authorization_code\",\"code\":\"");
    body.append(code);
    body.append("\"}");
    Request {
        url: Operation::FetchUserToken.url_text(),
        authorization: Some(bearer_text(app_token.token.as_str())),
        content_type: content_type_text(),
        body,
    }
}

/// Builds the request that renews a user credential by its refresh token.
pub fn fetch_user_token_refresh(app_token: &AppToken, user_token: &UserToken) -> (r: Request)
    ensures
        r@ == refresh_request(app_token@.token, user_token@.refresh_token),
{
    let mut body = String::from_str("{\"grant_type\":\"refresh_token\",\"refresh_token\":\"");
    body.append(user_token.refresh_token.as_str());
    body.append("\"}");
    Request {
        url: Operation::FetchUserTokenRefresh.url_text(),
        authorization: Some(bearer_text(app_token.token.as_str())),
        content_type: content_type_text(),
        body,
    }
}

/// Builds the request that submits the JSON text of a message under an access token.
pub fn send_request_text(access_token: &str, body: String) -> (r: Request)
    ensures
        r@ == send_request(access_token@, body@),
{
    Request {
        url: Operation::SendMail.url_text(),
        authorization: Some(bearer_text(access_token)),
        content_type: content_type_text(),
        body,
    }
}

/// How long the renewal task sleeps before its next check: a day after a check
/// that succeeded, and at the start; ten minutes after one that failed.
pub fn timing_update(failed: bool) -> (seconds: u64)
    ensures
        seconds == if failed { 600u64 } else { 86400u64 },
{
    if failed {
        600
    } else {
        3600 * 24
    }
}

/// The record of the relay's identity as it is persisted once the one-time
/// authorization code has been used: the identity without the code.
pub open spec fn app_info_record(info: AppInfoView) -> Seq<char> {
    "{\"app_id\":"@ + json_quoted(info.app_id) + ",\"app_secret\":"@ + json_quoted(
        info.app_secret,
    ) + "}"@
}

/// The record of a user credential as it is persisted: the refresh token and
/// the second at which it expires.
pub open spec fn refresh_record(user: UserTokenView) -> Seq<char> {
    "{\"expires\":"@ + decimal(user.refresh_token_expires as nat) + ",\"token\":"@
        + json_quoted(user.refresh_token) + "}"@
}

/// The identity that the configuration record `text` holds.
pub open spec fn app_info_in(text: Seq<char>) -> Option<AppInfoView> {
    match (json_string(text, "/app_id"@), json_string(text, "/app_secret"@)) {
        (Some(id), Some(secret)) => Some(AppInfoView { app_id: id, app_secret: secret }),
        _ => None,
    }
}

/// The user credential that the persisted record `text` stands for until it is
/// first renewed.
pub open spec fn stored_user_token_in(text: Seq<char>) -> Option<UserTokenView> {
    match (json_string(text, "/token"@), json_natural(text, "/expires"@)) {
        (Some(token), Some(expires)) => Some(
            UserTokenView {
                access_token: Seq::empty(),
                refresh_token: token,
                access_token_expires: 0,
                refresh_token_expires: expires,
            },
        ),
        _ => None,
    }
}

pub open spec fn opt_app_info_view(r: Option<AppInfo>) -> Option<AppInfoView> {
    match r {
        Some(i) => Some(i@),
        None => None,
    }
}

pub open spec fn opt_user_token_view(r: Option<UserToken>) -> Option<UserTokenView> {
    match r {
        Some(t) => Some(t@),
        None => None,
    }
}

impl AppInfo {
    /// Reads the identity from the configuration record: its members `app_id`
    /// and `app_secret`, both strings.
    pub fn from_json(text: &str) -> (r: Option<AppInfo>)
        ensures
            opt_app_info_view(r) == app_info_in(text@),
    {
        match (read_string(text, "/app_id"), read_string(text, "/app_secret")) {
            (Some(app_id), Some(app_secret)) => Some(AppInfo { app_id, app_secret }),
            _ => None,
        }
    }

    /// Writes the configuration record without an authorization code.
    pub fn to_json(&self) -> (r: String)
        ensures
            r@ == app_info_record(self@),
    {
        let mut text = String::from_str("{\"app_id\":");
        text.append(quote(self.app_id.as_str()).as_str());
        text.append(",\"app_secret\":");
        text.append(quote(self.app_secret.as_str()).as_str());
        text.append("}");
        text
    }
}

/// Reads the one-time authorization code from the configuration record: its
/// member `code`, if that is a string.
pub fn authorization_code(text: &str) -> (r: Option<String>)
    ensures
        opt_text(r) == json_string(text@, "/code"@),
{
    read_string(text, "/code")
}

impl UserToken {
    /// Reads a persisted record: its members `token`, a string, and `expires`,
    /// an unsigned integer.
    pub fn from_json(text: &str) -> (r: Option<UserToken>)
        ensures
            opt_user_token_view(r) == stored_user_token_in(text@),
    {
        match (read_string(text, "/token"), read_natural(text, "/expires")) {
            (Some(token), Some(expires)) => Some(UserToken::from_record(token, expires)),
            _ => None,
        }
    }

    /// Writes the record to persist for this credential.
    pub fn to_json(&self) -> (r: String)
        ensures
            r@ == refresh_record(self@),
    {
        let mut text = String::from_str("{\"expires\":");
        text.append(decimal_text(self.refresh_token_expires).as_str());
        text.append(",\"token\":");
        text.append(quote(self.refresh_token.as_str()).as_str());
        text.append("}");
        text
    }

    /// The user credential that a persisted refresh token stands for until it is
    /// first renewed: no access token, expired since the epoch.
    pub fn from_record(token: String, expires: u64) -> (r: UserToken)
        ensures
            r@ == (UserTokenView {
                access_token: Seq::empty(),
                refresh_token: token@,
                access_token_expires: 0,
                refresh_token_expires: expires,
            }),
    {
        UserToken {
            access_token: String::new(),
            refresh_token: token,
            access_token_expires: 0,
            refresh_token_expires: expires,
        }
    }
}

impl LarkMail {
    /// A store that holds these credentials.
    pub fn new(app_info: AppInfo, app_token: AppToken, user_token: UserToken) -> (r: LarkMail)
        ensures
            r@ == (Store { app_info: app_info@, app_token: app_token@, user_token: user_token@ }),
    {
        LarkMail { app_info, app_token, user_token }
    }

    /// The identity that the store belongs to.
    pub fn app_info(&self) -> (r: &AppInfo)
        ensures
            r@ == self@.app_info,
    {
        &self.app_info
    }

    /// The relay's credential.
    pub fn app_token(&self) -> (r: &AppToken)
        ensures
            r@ == self@.app_token,
    {
        &self.app_token
    }

    /// The user credential.
    pub fn user_token(&self) -> (r: &UserToken)
        ensures
            r@ == self@.user_token,
    {
        &self.user_token
    }

    fn renew_user(&self, now: u64) -> (a: TokenAction)
        ensures
            a@ == self@.renew_user(now).1,
    {
        if self.user_token.access_token_expires < now || self.user_token.refresh_token_expires
            < now {
            TokenAction::Post(
                Operation::FetchUserTokenRefresh,
                fetch_user_token_refresh(&self.app_token, &self.user_token),
            )
        } else {
            TokenAction::Fresh
        }
    }

    /// One step of keeping both credentials fresh. Begin with `TokenEvent::Start`,
    /// perform each request that comes back and report its reply, until the
    /// answer is `Fresh`, `Renewed` or `Failed`. A credential is replaced as a
    /// whole, by the reply that grants its successor, and only then.
    pub fn check_token_expires(&mut self, event: TokenEvent, now: u64) -> (a: TokenAction)
        ensures
            final(self)@ == old(self)@.check_token_expires(event@, now).0,
            a@ == old(self)@.check_token_expires(event@, now).1,
    {
        match event {
            TokenEvent::Start => {
                if self.app_token.token_expires < now {
                    TokenAction::Post(Operation::FetchAppToken, fetch_app_token(&self.app_info))
                } else {
                    self.renew_user(now)
                }
            },
            TokenEvent::AppToken(text) => match read_app_token(text.as_str(), now) {
                Err(e) => TokenAction::Failed(e),
                Ok(t) => {
                    self.app_token = t;
                    self.renew_user(now)
                },
            },
            TokenEvent::UserToken(text) => match read_user_token(
                Operation::FetchUserTokenRefresh,
                text.as_str(),
                now,
            ) {
                Err(e) => TokenAction::Failed(e),
                Ok(t) => {
                    self.user_token = t;
                    TokenAction::Renewed
                },
            },
        }
    }
}

/// What the caller reports while the credentials are first obtained.
#[derive(Debug)]
pub enum BootEvent {
    /// The text of the configuration record.
    Config(String),
    /// The text of the reply to `FetchAppToken`.
    AppToken(String),
    /// The text of the persisted record of the refresh token.
    Stored(String),
    /// The text of the reply to the request for the user credential.
    UserToken(String),
}

/// What is asked of the caller while the credentials are first obtained.
#[derive(Debug)]
pub enum BootAction {
    /// Perform the request and report the text of the reply.
    Post(Operation, Request),
    /// Read the persisted record of the refresh token and report its text.
    LoadStored,
    /// Both credentials are there. The second field is the configuration record
    /// to write in place of the present one, where a one-time code was used;
    /// the third is the record of the refresh token to persist.
    Ready(LarkMail, Option<String>, String),
    /// The start has failed here; nothing is to be written.
    Failed(ApiError),
}

/// How far the start has come.
#[derive(Debug)]
pub enum Boot {
    /// Nothing is known yet; the configuration record is awaited.
    Start,
    /// The relay's credential was asked for. The second field is the one-time code
    /// of the configuration, if it has one.
    AwaitAppToken(AppInfo, Option<String>),
    /// The configuration has no code; the persisted record is awaited.
    AwaitStored(AppInfo, AppToken),
    /// The user credential was asked for; by the one-time code if the flag is set,
    /// else by the persisted refresh token.
    AwaitUserToken(AppInfo, AppToken, bool),
    /// The store was handed out.
    Done,
}

pub enum BootEventView {
    Config(Seq<char>),
    AppToken(Seq<char>),
    Stored(Seq<char>),
    UserToken(Seq<char>),
}

pub enum BootActionView {
    Post(Operation, RequestView),
    LoadStored,
    Ready(Store, Option<Seq<char>>, Seq<char>),
    Failed(ApiErrorView),
}

pub enum BootView {
    Start,
    AwaitAppToken(AppInfoView, Option<Seq<char>>),
    AwaitStored(AppInfoView, AppTokenView),
    AwaitUserToken(AppInfoView, AppTokenView, bool),
    Done,
}

impl View for BootEvent {
    type V = BootEventView;

    open spec fn view(&self) -> BootEventView {
        match self {
            BootEvent::Config(t) => BootEventView::Config(t@),
            BootEvent::AppToken(t) => BootEventView::AppToken(t@),
            BootEvent::Stored(t) => BootEventView::Stored(t@),
            BootEvent::UserToken(t) => BootEventView::UserToken(t@),
        }
    }
}

impl View for BootAction {
    type V = BootActionView;

    open spec fn view(&self) -> BootActionView {
        match self {
            BootAction::Post(op, r) => BootActionView::Post(*op, r@),
            BootAction::LoadStored => BootActionView::LoadStored,
            BootAction::Ready(store, config, record) => BootActionView::Ready(
                store@,
                opt_text(*config),
                record@,
            ),
            BootAction::Failed(e) => BootActionView::Failed(e@),
        }
    }
}

impl View for Boot {
    type V = BootView;

    open spec fn view(&self) -> BootView {
        match self {
            Boot::Start => BootView::Start,
            Boot::AwaitAppToken(info, code) => BootView::AwaitAppToken(info@, opt_text(*code)),
            Boot::AwaitStored(info, token) => BootView::AwaitStored(info@, token@),
            Boot::AwaitUserToken(info, token, by_code) => BootView::AwaitUserToken(
                info@,
                token@,
                *by_code,
            ),
            Boot::Done => BootView::Done,
        }
    }
}

/// The operation that first obtains the user credential: by the one-time code,
/// or by the persisted refresh token.
pub open spec fn first_grant(by_code: bool) -> Operation {
    if by_code {
        Operation::FetchUserToken
    } else {
        Operation::FetchUserTokenRefresh
    }
}

impl BootView {
    /// The start after an event at `now`, with what the caller is to do next.
    ///
    /// The configuration gives the identity, with which the relay's credential is
    /// asked for. Once that is granted, the user credential is asked for: by the
    /// one-time code where the configuration has one, else by the refresh token
    /// of the persisted record, which is loaded first. Once that is granted too,
    /// the store is handed out with what is to be written: the refresh token of
    /// the new credential, and the configuration without the code where the code
    /// was used. An event that is not accepted leaves the start where it was.
    pub open spec fn step(self, event: BootEventView, now: u64) -> (BootView, BootActionView) {
        match (self, event) {
            (BootView::Start, BootEventView::Config(text)) => match app_info_in(text) {
                None => (self, BootActionView::Failed(ApiErrorView::Config)),
                Some(info) => (
                    BootView::AwaitAppToken(info, json_string(text, "/code"@)),
                    BootActionView::Post(Operation::FetchAppToken, app_token_request(info)),
                ),
            },
            (BootView::AwaitAppToken(info, code), BootEventView::AppToken(text)) => match app_token_in(
                text,
                now,
            ) {
                Err(e) => (self, BootActionView::Failed(e)),
                Ok(token) => match code {
                    Some(c) => (
                        BootView::AwaitUserToken(info, token, true),
                        BootActionView::Post(
                            Operation::FetchUserToken,
                            user_token_request(token.token, c),
                        ),
                    ),
                    None => (BootView::AwaitStored(info, token), BootActionView::LoadStored),
                },
            },
            (BootView::AwaitStored(info, token), BootEventView::Stored(text)) => match stored_user_token_in(
                text,
            ) {
                None => (self, BootActionView::Failed(ApiErrorView::Stored)),
                Some(stored) => (
                    BootView::AwaitUserToken(info, token, false),
                    BootActionView::Post(
                        Operation::FetchUserTokenRefresh,
                        refresh_request(token.token, stored.refresh_token),
                    ),
                ),
            },
            (
                BootView::AwaitUserToken(info, token, by_code),
                BootEventView::UserToken(text),
            ) => match user_token_in(first_grant(by_code), text, now) {
                Err(e) => (self, BootActionView::Failed(e)),
                Ok(user) => (
                    BootView::Done,
                    BootActionView::Ready(
                        Store { app_info: info, app_token: token, user_token: user },
                        if by_code {
                            Some(app_info_record(info))
                        } else {
                            None
                        },
                        refresh_record(user),
                    ),
                ),
            },
            _ => (self, BootActionView::Failed(ApiErrorView::Unexpected)),
        }
    }
}

impl Boot {
    /// The start before anything is known.
    pub fn new() -> (r: Boot)
        ensures
            r@ == BootView::Start,
    {
        Boot::Start
    }

    /// One step of first obtaining both credentials. Begin with the text of the
    /// configuration record, do what comes back and report the outcome, until
    /// the answer is `Ready` or `Failed`.
    pub fn step(&mut self, event: BootEvent, now: u64) -> (a: BootAction)
        ensures
            final(self)@ == old(self)@.step(event@, now).0,
            a@ == old(self)@.step(event@, now).1,
    {
        let mut state = Boot::Done;
        core::mem::swap(self, &mut state);
        match (state, event) {
            (Boot::Start, BootEvent::Config(text)) => match AppInfo::from_json(text.as_str()) {
                None => {
                    *self = Boot::Start;
                    BootAction::Failed(ApiError::Config)
                },
                Some(info) => {
                    let code = authorization_code(text.as_str());
                    let request = fetch_app_token(&info);
                    *self = Boot::AwaitAppToken(info, code);
                    BootAction::Post(Operation::FetchAppToken, request)
                },
            },
            (Boot::AwaitAppToken(info, code), BootEvent::AppToken(text)) => match read_app_token(
                text.as_str(),
                now,
            ) {
                Err(e) => {
                    *self = Boot::AwaitAppToken(info, code);
                    BootAction::Failed(e)
                },
                Ok(token) => match code {
                    Some(c) => {
                        let request = fetch_user_token(&token, c.as_str());
                        *self = Boot::AwaitUserToken(info, token, true);
                        BootAction::Post(Operation::FetchUserToken, request)
                    },
                    None => {
                        *self = Boot::AwaitStored(info, token);
                        BootAction::LoadStored
                    },
                },
            },
            (Boot::AwaitStored(info, token), BootEvent::Stored(text)) => match UserToken::from_json(
                text.as_str(),
            ) {
                None => {
                    *self = Boot::AwaitStored(info, token);
                    BootAction::Failed(ApiError::Stored)
                },
                Some(stored) => {
                    let request = fetch_user_token_refresh(&token, &stored);
                    *self = Boot::AwaitUserToken(info, token, false);
                    BootAction::Post(Operation::FetchUserTokenRefresh, request)
                },
            },
            (Boot::AwaitUserToken(info, token, by_code), BootEvent::UserToken(text)) => {
                let op = if by_code {
                    Operation::FetchUserToken
                } else {
                    Operation::FetchUserTokenRefresh
                };
                match read_user_token(op, text.as_str(), now) {
                    Err(e) => {
                        *self = Boot::AwaitUserToken(info, token, by_code);
                        BootAction::Failed(e)
                    },
                    Ok(user) => {
                        let config = if by_code {
                            Some(info.to_json())
                        } else {
                            None
                        };
                        let record = user.to_json();
                        BootAction::Ready(LarkMail::new(info, token, user), config, record)
                    },
                }
            },
            (state, _) => {
                *self = state;
                BootAction::Failed(ApiError::Unexpected)
            },
        }
    }
}

/// The start hands out records to write only together with the store, and so
/// only once the user credential was granted: the refresh token of the granted
/// credential, and the configuration without the one-time code exactly where the
/// code was used. A refusal leaves the start where it was. The persisted record
/// is asked for only where the configuration has no code.
pub proof fn law_boot(s: BootView, event: BootEventView, now: u64)
    ensures
        ({
            let (next, action) = s.step(event, now);
            &&& action is Failed ==> next == s
            &&& action is Ready <==> s is AwaitUserToken && event is UserToken && user_token_in(
                first_grant(s->AwaitUserToken_2),
                event->UserToken_0,
                now,
            ) is Ok
            &&& action is Ready ==> {
                &&& next is Done
                &&& action->Ready_0.app_info == s->AwaitUserToken_0
                &&& action->Ready_0.app_token == s->AwaitUserToken_1
                &&& Ok::<UserTokenView, ApiErrorView>(action->Ready_0.user_token) == user_token_in(
                    first_grant(s->AwaitUserToken_2),
                    event->UserToken_0,
                    now,
                )
                &&& action->Ready_2 == refresh_record(action->Ready_0.user_token)
                &&& action->Ready_1 is Some <==> s->AwaitUserToken_2
                &&& action->Ready_1 is Some ==> action->Ready_1->0 == app_info_record(
                    s->AwaitUserToken_0,
                )
            }
            &&& action is LoadStored ==> s is AwaitAppToken && s->AwaitAppToken_1 is None
            &&& next is AwaitUserToken && !(s is AwaitUserToken) ==> (next->AwaitUserToken_2 <==> s
                is AwaitAppToken)
            &&& s is Done ==> action == BootActionView::Failed(ApiErrorView::Unexpected)
        }),
{
}

/// A check starts no call when neither credential has expired, and leaves the
/// store as it is; it starts one when either has: for the relay's credential
/// first, else for the user credential.
pub proof fn law_refresh_when_due(s: Store, now: u64)
    ensures
        !s.app_due(now) && !s.user_due(now) ==> s.check_token_expires(TokenEventView::Start, now)
            == (s, TokenActionView::Fresh),
        s.app_due(now) ==> s.check_token_expires(TokenEventView::Start, now).1
            == TokenActionView::Post(Operation::FetchAppToken, app_token_request(s.app_info)),
        !s.app_due(now) && s.user_due(now) ==> s.check_token_expires(TokenEventView::Start, now).1
            == TokenActionView::Post(
            Operation::FetchUserTokenRefresh,
            refresh_request(s.app_token.token, s.user_token.refresh_token),
        ),
        s.check_token_expires(TokenEventView::Start, now).0 == s,
{
}

/// A check that found both credentials fresh finds them fresh again at once, and
/// at every earlier second: the second check starts no call either.
pub proof fn law_check_idempotent(s: Store, now: u64, again: u64)
    requires
        s.check_token_expires(TokenEventView::Start, now).1 == TokenActionView::Fresh,
        again <= now,
    ensures
        s.check_token_expires(TokenEventView::Start, now).0.check_token_expires(
            TokenEventView::Start,
            again,
        ) == (s, TokenActionView::Fresh),
{
}

/// A reply replaces the credential it grants and no other; a reply that is not
/// accepted replaces nothing.
pub proof fn law_whole_replacement(s: Store, event: TokenEventView, now: u64)
    ensures
        ({
            let (next, action) = s.check_token_expires(event, now);
            &&& next.app_info == s.app_info
            &&& action is Failed ==> next == s
            &&& event is Start ==> next == s
            &&& event is AppToken ==> next.user_token == s.user_token
            &&& event is UserToken ==> next.app_token == s.app_token
            &&& event is AppToken && !(action is Failed) ==> Ok::<AppTokenView, ApiErrorView>(
                next.app_token,
            ) == app_token_in(event->AppToken_0, now)
            &&& event is UserToken && !(action is Failed) ==> Ok::<UserTokenView, ApiErrorView>(
                next.user_token,
            ) == user_token_in(Operation::FetchUserTokenRefresh, event->UserToken_0, now)
        }),
{
}

/// A credential that a reply grants expires twenty seconds before the lifetime
/// that the reply declares runs out.
pub proof fn law_safety_margin(
    code: Option<i64>,
    message: Option<Seq<char>>,
    token: Option<Seq<char>>,
    expire: Option<u64>,
    now: u64,
)
    requires
        app_token_of(code, message, token, expire, now) is Ok,
    ensures
        code == Some(0i64),
        token is Some && expire is Some,
        app_token_of(code, message, token, expire, now)->Ok_0.token == token->0,
        app_token_of(code, message, token, expire, now)->Ok_0.token_expires + 20 == expire->0 + now,
{
}

} // verus!
