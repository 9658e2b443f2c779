//! Sending one message, step by step: the letter is composed, both credentials
//! are made fresh, and only then is the send request handed out.
//!
//! `LarkMail::send_mail` performs no call. It is handed what happened
//! (`SendEvent`) and answers what is to happen next (`SendAction`).

use crate::json::opt_text;
use crate::lark_api_mail::{
    bearer, read_sent, refresh_record, send_request, send_request_text, sent_in, ApiError, ApiErrorView,
    LarkMail, Operation, Request, RequestView, Store, TokenAction, TokenActionView, TokenEvent,
    TokenEventView,
};
use crate::mime::{opt_mime_view, Mime, MimeView};
use crate::relay::{all_fit, compose, letter_json, letter_of, SendError};
use crate::smtp_server::{Addr, AddrView};
use vstd::prelude::*;
use vstd::string::*;

verus! {

/// What the caller reports while a message is sent.
#[derive(Debug)]
pub enum SendEvent {
    /// A session completed with these recipients; the second field is its body
    /// as the MIME parser read it, `None` where the parser found no message.
    Message(Vec<Addr>, Option<Mime>),
    /// The text of the reply to `FetchAppToken`.
    AppToken(String),
    /// The text of the reply to `FetchUserTokenRefresh`.
    UserToken(String),
    /// The text of the reply to `SendMail`.
    Sent(String),
}

/// Why a message was not sent.
#[derive(Debug)]
pub enum SendFailure {
    /// No letter could be made of the message.
    Letter(SendError),
    /// A reply was not accepted, or an event did not answer what was asked for.
    Api(ApiError),
}

/// What is asked of the caller while a message is sent.
#[derive(Debug)]
pub enum SendAction {
    /// Perform the request and report the text of the reply. The third field is
    /// the record of the refresh token to persist first; it is there where the
    /// user credential has just been replaced.
    Post(Operation, Request, Option<String>),
    /// The message was accepted for delivery.
    Done,
    /// The message was not sent; nothing is left to do for it.
    Failed(SendFailure),
}

/// How far the sending of a message has come.
#[derive(Debug)]
pub enum Sending {
    /// No message is being sent.
    Idle,
    /// The JSON text of the letter waits for the reply to the operation, which is
    /// `FetchAppToken` or `FetchUserTokenRefresh`.
    Checking(String, Operation),
    /// The send request was handed out; its reply is awaited.
    AwaitSent,
}

pub enum SendEventView {
    Message(Seq<AddrView>, Option<MimeView>),
    AppToken(Seq<char>),
    UserToken(Seq<char>),
    Sent(Seq<char>),
}

pub enum SendFailureView {
    Letter(SendError),
    Api(ApiErrorView),
}

pub enum SendActionView {
    Post(Operation, RequestView, Option<Seq<char>>),
    Done,
    Failed(SendFailureView),
}

pub enum SendingView {
    Idle,
    Checking(Seq<char>, Operation),
    AwaitSent,
}

impl View for SendEvent {
    type V = SendEventView;

    open spec fn view(&self) -> SendEventView {
        match self {
            SendEvent::Message(to, mime) => SendEventView::Message(
                to@.map_values(|a: Addr| a@),
                opt_mime_view(*mime),
            ),
            SendEvent::AppToken(t) => SendEventView::AppToken(t@),
            SendEvent::UserToken(t) => SendEventView::UserToken(t@),
            SendEvent::Sent(t) => SendEventView::Sent(t@),
        }
    }
}

impl View for SendFailure {
    type V = SendFailureView;

    open spec fn view(&self) -> SendFailureView {
        match self {
            SendFailure::Letter(e) => SendFailureView::Letter(*e),
            SendFailure::Api(e) => SendFailureView::Api(e@),
        }
    }
}

impl View for SendAction {
    type V = SendActionView;

    open spec fn view(&self) -> SendActionView {
        match self {
            SendAction::Post(op, request, record) => SendActionView::Post(
                *op,
                request@,
                opt_text(*record),
            ),
            SendAction::Done => SendActionView::Done,
            SendAction::Failed(e) => SendActionView::Failed(e@),
        }
    }
}

impl View for Sending {
    type V = SendingView;

    open spec fn view(&self) -> SendingView {
        match self {
            Sending::Idle => SendingView::Idle,
            Sending::Checking(body, op) => SendingView::Checking(body@, *op),
            Sending::AwaitSent => SendingView::AwaitSent,
        }
    }
}

impl SendFailureView {
    /// The message of the failure.
    pub open spec fn message(self) -> Seq<char> {
        match self {
            SendFailureView::Letter(e) => e.text(),
            SendFailureView::Api(e) => e.message(),
        }
    }
}

impl SendFailure {
    /// The message of the failure.
    pub fn to_string(&self) -> (r: String)
        ensures
            r@ == self@.message(),
    {
        match self {
            SendFailure::Letter(e) => e.to_string(),
            SendFailure::Api(e) => e.to_string(),
        }
    }
}

/// An event that does not answer what was asked for ends the sending.
pub open spec fn unexpected(store: Store) -> (SendingView, Store, SendActionView) {
    (
        SendingView::Idle,
        store,
        SendActionView::Failed(SendFailureView::Api(ApiErrorView::Unexpected)),
    )
}

/// The JSON text of the letter that the event brings, where it brings one.
pub open spec fn letter_text(event: SendEventView) -> Result<Seq<char>, SendError> {
    match event {
        SendEventView::Message(to, Some(mime)) => if all_fit(mime.parts) {
            Ok(letter_json(letter_of(to, mime.head, mime.parts)))
        } else {
            Err(SendError::Oversized)
        },
        _ => Err(SendError::Unparsable),
    }
}

/// What follows a step of the check of the credentials while the letter `body`
/// waits: the send request once both are fresh, together with the record of the
/// refresh token where it is new; the next request of the check; or the end of
/// the sending where the check has failed.
pub open spec fn advance(checked: (Store, TokenActionView), body: Seq<char>) -> (
    SendingView,
    Store,
    SendActionView,
) {
    let store = checked.0;
    match checked.1 {
        TokenActionView::Fresh => (
            SendingView::AwaitSent,
            store,
            SendActionView::Post(
                Operation::SendMail,
                send_request(store.user_token.access_token, body),
                None,
            ),
        ),
        TokenActionView::Renewed => (
            SendingView::AwaitSent,
            store,
            SendActionView::Post(
                Operation::SendMail,
                send_request(store.user_token.access_token, body),
                Some(refresh_record(store.user_token)),
            ),
        ),
        TokenActionView::Post(op, request) => (
            SendingView::Checking(body, op),
            store,
            SendActionView::Post(op, request, None),
        ),
        TokenActionView::Failed(e) => (
            SendingView::Idle,
            store,
            SendActionView::Failed(SendFailureView::Api(e)),
        ),
    }
}

/// The step of the check that an event stands for while the reply to `op` is
/// awaited, if it is that reply.
pub open spec fn answer(op: Operation, event: SendEventView) -> Option<TokenEventView> {
    match event {
        SendEventView::AppToken(text) => if op == Operation::FetchAppToken {
            Some(TokenEventView::AppToken(text))
        } else {
            None
        },
        SendEventView::UserToken(text) => if op == Operation::FetchUserTokenRefresh {
            Some(TokenEventView::UserToken(text))
        } else {
            None
        },
        _ => None,
    }
}

/// The sending and the store after an event at `now`, with what the caller is to
/// do next.
///
/// A message starts the sending: its letter is composed, and the check of the
/// credentials begins. Each reply of the check is handed on to the store. When
/// the check has ended well the send request goes out, under the access token
/// that the store then holds; its reply ends the sending. A message of which
/// no letter can be made, a check that fails and an event out of turn end the
/// sending at once.
pub open spec fn sending_step(sending: SendingView, store: Store, event: SendEventView, now: u64) -> (
    SendingView,
    Store,
    SendActionView,
) {
    match sending {
        SendingView::Idle => if event is Message {
            match letter_text(event) {
                Err(e) => (
                    SendingView::Idle,
                    store,
                    SendActionView::Failed(SendFailureView::Letter(e)),
                ),
                Ok(body) => advance(store.check_token_expires(TokenEventView::Start, now), body),
            }
        } else {
            unexpected(store)
        },
        SendingView::Checking(body, op) => match answer(op, event) {
            Some(reply) => advance(store.check_token_expires(reply, now), body),
            None => unexpected(store),
        },
        SendingView::AwaitSent => match event {
            SendEventView::Sent(text) => match sent_in(text) {
                Ok(_) => (SendingView::Idle, store, SendActionView::Done),
                Err(e) => (
                    SendingView::Idle,
                    store,
                    SendActionView::Failed(SendFailureView::Api(e)),
                ),
            },
            _ => unexpected(store),
        },
    }
}

fn advance_to(store: &LarkMail, action: TokenAction, body: String) -> (r: (Sending, SendAction))
    ensures
        (r.0@, store@, r.1@) == advance((store@, action@), body@),
{
    match action {
        TokenAction::Fresh => {
            let request = send_request_text(store.user_token().access_token.as_str(), body);
            (Sending::AwaitSent, SendAction::Post(Operation::SendMail, request, None))
        },
        TokenAction::Renewed => {
            let request = send_request_text(store.user_token().access_token.as_str(), body);
            let record = store.user_token().to_json();
            (Sending::AwaitSent, SendAction::Post(Operation::SendMail, request, Some(record)))
        },
        TokenAction::Post(op, request) => (
            Sending::Checking(body, op),
            SendAction::Post(op, request, None),
        ),
        TokenAction::Failed(e) => (Sending::Idle, SendAction::Failed(SendFailure::Api(e))),
    }
}

impl Sending {
    /// No message is being sent.
    pub fn new() -> (r: Sending)
        ensures
            r@ == SendingView::Idle,
    {
        Sending::Idle
    }
}

impl LarkMail {
    /// One step of sending a message. Begin with `SendEvent::Message`, perform
    /// each request that comes back and report its reply, until the answer is
    /// `Done` or `Failed`.
    pub fn send_mail(&mut self, sending: &mut Sending, event: SendEvent, now: u64) -> (a:
        SendAction)
        ensures
            (final(sending)@, final(self)@, a@) == sending_step(
                old(sending)@,
                old(self)@,
                event@,
                now,
            ),
    {
        let mut state = Sending::Idle;
        core::mem::swap(sending, &mut state);
        let unexpected = SendAction::Failed(SendFailure::Api(ApiError::Unexpected));
        match (state, event) {
            (Sending::Idle, SendEvent::Message(to, mime)) => match mime {
                None => SendAction::Failed(SendFailure::Letter(SendError::Unparsable)),
                Some(m) => match compose(to, m.head, m.parts) {
                    Err(e) => SendAction::Failed(SendFailure::Letter(e)),
                    Ok(letter) => {
                        let body = letter.to_json();
                        let checked = self.check_token_expires(TokenEvent::Start, now);
                        let (next, action) = advance_to(self, checked, body);
                        *sending = next;
                        action
                    },
                },
            },
            (Sending::Checking(body, op), SendEvent::AppToken(text)) => match op {
                Operation::FetchAppToken => {
                    let checked = self.check_token_expires(TokenEvent::AppToken(text), now);
                    let (next, action) = advance_to(self, checked, body);
                    *sending = next;
                    action
                },
                _ => unexpected,
            },
            (Sending::Checking(body, op), SendEvent::UserToken(text)) => match op {
                Operation::FetchUserTokenRefresh => {
                    let checked = self.check_token_expires(TokenEvent::UserToken(text), now);
                    let (next, action) = advance_to(self, checked, body);
                    *sending = next;
                    action
                },
                _ => unexpected,
            },
            (Sending::AwaitSent, SendEvent::Sent(text)) => match read_sent(text.as_str()) {
                Ok(_) => SendAction::Done,
                Err(e) => SendAction::Failed(SendFailure::Api(e)),
            },
            _ => unexpected,
        }
    }
}

/// The check that a step makes: the one it begins for a message of which a
/// letter can be made, or the one it continues with the reply that was awaited.
pub open spec fn check_made(sending: SendingView, store: Store, event: SendEventView, now: u64)
    -> Option<(Store, TokenActionView)> {
    match sending {
        SendingView::Idle => if event is Message && letter_text(event) is Ok {
            Some(store.check_token_expires(TokenEventView::Start, now))
        } else {
            None
        },
        SendingView::Checking(_, op) => match answer(op, event) {
            Some(reply) => Some(store.check_token_expires(reply, now)),
            None => None,
        },
        SendingView::AwaitSent => None,
    }
}

/// The send request is handed out exactly by a step whose check of the
/// credentials has answered `Fresh` or `Renewed`, and bears the access token that
/// the store holds after that check; the record of the refresh token comes with it
/// exactly after `Renewed`. After a failure of any kind, and after `Done`,
/// nothing is pending: no request follows but for a new message. The store
/// changes only as the check changes it.
pub proof fn law_send_follows_check(
    sending: SendingView,
    store: Store,
    event: SendEventView,
    now: u64,
)
    ensures
        ({
            let (next, after, action) = sending_step(sending, store, event, now);
            let check = check_made(sending, store, event, now);
            let sends = action is Post && action->Post_0 == Operation::SendMail;
            let fresh = check matches Some(c) && c.1 is Fresh;
            let renewed = check matches Some(c) && c.1 is Renewed;
            &&& sends <==> fresh || renewed
            &&& sends ==> {
                &&& next is AwaitSent
                &&& action->Post_1.url == Operation::SendMail.url()
                &&& action->Post_1.authorization == Some(bearer(after.user_token.access_token))
                &&& action->Post_2 is Some <==> renewed
                &&& action->Post_2 is Some ==> action->Post_2->0 == refresh_record(after.user_token)
            }
            &&& next is AwaitSent <==> sends
            &&& action is Failed || action is Done ==> next is Idle
            &&& action is Done ==> sending is AwaitSent && event is Sent
            &&& check is None ==> after == store
            &&& check matches Some(c) ==> after == c.0
            &&& sending is Idle && !(event is Message) ==> action is Failed
        }),
{
}

} // verus!
