//! The SMTP submission session: one line in, at most one reply out.
//!
//! A `Mail` holds everything one connection has said so far. It never touches a
//! socket: the connection driver hands it an `Event` and carries out the `Action`
//! that comes back. What each command does is defined over `Session`, the
//! mathematical view of a `Mail`, by the spec functions of this module; the
//! executable methods are proved to compute exactly those.

pub use crate::codec::plain_encode;
use crate::codec::{
    base64_standard, can_encode, plain_encodable, plain_payload, text_base64, text_encodable,
};
use crate::text::{
    chars_of, fields, find, find_char, first_token, first_word, same_text, split, texts, to_upper,
    trim_end, trimmed, uppercase,
};
use vstd::prelude::*;
use vstd::string::*;

verus! {

/// The seconds that a session waits for a line before the input counts as ended.
pub const IDLE_SECONDS: u64 = 10;

/// How a connection is secured.
#[derive(Clone, Copy, Debug, PartialEq, Eq, Structural)]
pub enum TlsType {
    /// The session starts in plain text and is upgraded on command.
    STARTTLS,
    /// The handshake precedes the first line.
    SSL,
}

/// How the next line is read, whatever it holds.
#[derive(Clone, Copy, Debug, PartialEq, Eq, Structural)]
pub enum LockMode {
    /// The line is a command.
    Idle,
    /// The line belongs to the message body.
    InData,
    /// The line is the credential blob of `AUTH PLAIN`.
    AwaitPlain,
    /// The line is the user name of `AUTH LOGIN`.
    AwaitUsername,
    /// The line is the password of `AUTH LOGIN`.
    AwaitPassword,
}

/// The commands that the session tells apart.
#[derive(Clone, Copy, Debug, PartialEq, Eq, Structural)]
pub enum Command {
    Helo,
    StartTls,
    Mail,
    Rcpt,
    Data,
    Quit,
    Auth,
    Unknown,
}

/// The mechanisms that `AUTH` tells apart.
#[derive(Clone, Copy, Debug, PartialEq, Eq, Structural)]
pub enum Mechanism {
    Plain,
    Login,
    Unknown,
}

/// Why a command was refused.
#[derive(Clone, Copy, Debug, PartialEq, Eq, Structural)]
pub enum SmtpError {
    /// `MAIL`, `RCPT` or `DATA` before a successful `AUTH`.
    NotAuthenticated,
    /// The line lacks `<` or `>`.
    Unparsable,
    /// Nothing stands between `<` and `>`.
    EmptyAddress,
    /// The first word of the line names no command.
    UnknownCommand,
    /// `AUTH` on a plain-text channel although TLS is configured.
    TlsRequired,
    /// `AUTH` without a mechanism, or with one that is neither `PLAIN` nor `LOGIN`.
    BadMechanism,
    /// The credentials do not match.
    AuthFailed,
    /// `STARTTLS` although TLS is not configured.
    TlsUnavailable,
}

/// A mailbox with the name to show for it.
#[derive(Clone, Debug)]
pub struct Addr {
    pub mail_address: String,
    pub name: String,
}

/// The message that a session assembles.
#[derive(Debug)]
pub struct MailData {
    pub from: Addr,
    pub to: Vec<Addr>,
    pub subject: String,
    pub body: String,
}

/// What a session is set up with.
pub struct MailConfig {
    pub user: String,
    pub passwd: String,
    pub host: String,
    pub default_name: String,
    pub tls_type: Option<TlsType>,
}

/// What the connection driver reports to the session.
#[derive(Debug)]
pub enum Event {
    /// The connection was accepted.
    Connected,
    /// The TLS handshake that the session asked for has completed.
    Secured,
    /// The client sent this line, terminator included.
    Line(String),
    /// The client closed its side.
    Eof,
    /// No line arrived within the idle limit.
    Timeout,
    /// Reading failed.
    Failed,
}

/// What the session asks of the connection driver.
#[derive(Debug)]
pub enum Action {
    /// Read the next line.
    Read,
    /// Send the text, then read the next line.
    Send(String),
    /// Send the text if it is not empty, then perform the TLS handshake and
    /// report `Event::Secured`.
    Handshake(String),
    /// Send the text if it is not empty, then close the connection. The flag says
    /// whether the session completed, so that its message is to be relayed.
    Close(String, bool),
}

pub struct AddrView {
    pub mail_address: Seq<char>,
    pub name: Seq<char>,
}

pub struct MailDataView {
    pub from: AddrView,
    pub to: Seq<AddrView>,
    pub subject: Seq<char>,
    pub body: Seq<char>,
}

pub enum EventView {
    Connected,
    Secured,
    Line(Seq<char>),
    Eof,
    Timeout,
    Failed,
}

pub enum ActionView {
    Read,
    Send(Seq<char>),
    Handshake(Seq<char>),
    Close(Seq<char>, bool),
}

/// The state of a session as the contracts see it.
pub struct Session {
    pub data: MailDataView,
    pub host: Seq<char>,
    pub user: Seq<char>,
    pub passwd: Seq<char>,
    pub tls_type: Option<TlsType>,
    /// TLS has been negotiated or is about to be.
    pub has_tls: bool,
    /// The client has authenticated.
    pub auth: bool,
    /// The connection is to be closed.
    pub quit: bool,
    /// `STARTTLS` was accepted and the driver has not yet been told.
    pub starttls: bool,
    pub lock: LockMode,
}

/// A session after a command, with the reply to it.
pub struct Outcome {
    pub next: Session,
    pub reply: Result<Seq<char>, SmtpError>,
}

impl View for Addr {
    type V = AddrView;

    open spec fn view(&self) -> AddrView {
        AddrView { mail_address: self.mail_address@, name: self.name@ }
    }
}

impl View for MailData {
    type V = MailDataView;

    open spec fn view(&self) -> MailDataView {
        MailDataView {
            from: self.from@,
            to: self.to@.map_values(|a: Addr| a@),
            subject: self.subject@,
            body: self.body@,
        }
    }
}

impl View for Event {
    type V = EventView;

    open spec fn view(&self) -> EventView {
        match self {
            Event::Connected => EventView::Connected,
            Event::Secured => EventView::Secured,
            Event::Line(s) => EventView::Line(s@),
            Event::Eof => EventView::Eof,
            Event::Timeout => EventView::Timeout,
            Event::Failed => EventView::Failed,
        }
    }
}

impl View for Action {
    type V = ActionView;

    open spec fn view(&self) -> ActionView {
        match self {
            Action::Read => ActionView::Read,
            Action::Send(s) => ActionView::Send(s@),
            Action::Handshake(s) => ActionView::Handshake(s@),
            Action::Close(s, done) => ActionView::Close(s@, *done),
        }
    }
}

/// The characters of a reply, or the refusal.
pub open spec fn reply_view(r: Result<String, SmtpError>) -> Result<Seq<char>, SmtpError> {
    match r {
        Ok(s) => Ok(s@),
        Err(e) => Err(e),
    }
}

impl SmtpError {
    /// The text that is sent to the client for this refusal.
    pub open spec fn text(self) -> Seq<char> {
        match self {
            SmtpError::NotAuthenticated => "530 Client is not authenticated\r\n"@,
            SmtpError::Unparsable => "500 Unable to parse content\r\n"@,
            SmtpError::EmptyAddress => "500\r\n"@,
            SmtpError::UnknownCommand => "500 Unknown command\r\n"@,
            SmtpError::TlsRequired => "530 5.7.0 Must issue a STARTTLS command first\r\n"@,
            SmtpError::BadMechanism => "500 The authentication type is incorrect.\r\n"@,
            SmtpError::AuthFailed => "535 Authentication failed\r\n"@,
            SmtpError::TlsUnavailable => "454 TLS not available due to temporary reason\r\n"@,
        }
    }

    /// The text that is sent to the client for this refusal.
    pub fn to_string(&self) -> (r: String)
        ensures
            r@ == self.text(),
    {
        match self {
            SmtpError::NotAuthenticated => String::from_str(
                "530 Client is not authenticated\r\n",
            ),
            SmtpError::Unparsable => String::from_str("500 Unable to parse content\r\n"),
            SmtpError::EmptyAddress => String::from_str("500\r\n"),
            SmtpError::UnknownCommand => String::from_str("500 Unknown command\r\n"),
            SmtpError::TlsRequired => String::from_str(
                "530 5.7.0 Must issue a STARTTLS command first\r\n",
            ),
            SmtpError::BadMechanism => String::from_str(
                "500 The authentication type is incorrect.\r\n",
            ),
            SmtpError::AuthFailed => String::from_str("535 Authentication failed\r\n"),
            SmtpError::TlsUnavailable => String::from_str(
                "454 TLS not available due to temporary reason\r\n",
            ),
        }
    }
}

/// The command that an upper-cased word names.
pub open spec fn command_of(word: Seq<char>) -> Command {
    if word == "HELO"@ || word == "EHLO"@ {
        Command::Helo
    } else if word == "STARTTLS"@ {
        Command::StartTls
    } else if word == "MAIL"@ {
        Command::Mail
    } else if word == "RCPT"@ {
        Command::Rcpt
    } else if word == "DATA"@ {
        Command::Data
    } else if word == "QUIT"@ {
        Command::Quit
    } else if word == "AUTH"@ {
        Command::Auth
    } else {
        Command::Unknown
    }
}

/// The mechanism that an upper-cased word names.
pub open spec fn mechanism_of(word: Seq<char>) -> Mechanism {
    if word == "PLAIN"@ {
        Mechanism::Plain
    } else if word == "LOGIN"@ {
        Mechanism::Login
    } else {
        Mechanism::Unknown
    }
}

/// The address between the first `<` and the first `>` of a line.
pub open spec fn bracketed(line: Seq<char>) -> Result<Seq<char>, SmtpError> {
    let open = find(line, '<', 0);
    let close = find(line, '>', 0);
    if open >= line.len() || close >= line.len() {
        Err(SmtpError::Unparsable)
    } else if close <= open + 1 {
        Err(SmtpError::EmptyAddress)
    } else {
        Ok(line.subrange(open + 1, close))
    }
}

/// The line that opens the conversation.
pub open spec fn greeting(host: Seq<char>) -> Seq<char> {
    "220 "@ + host + " Esmtp smtp2larkapi\r\n"@
}

/// The reply to `HELO` and `EHLO`, with or without the offer of `STARTTLS`.
pub open spec fn capabilities(host: Seq<char>, offer_tls: bool) -> Seq<char> {
    "250-"@ + host + "\r\n250-PIPELINING\r\n250-SIZE 73400320\r\n"@ + (if offer_tls {
        "250-STARTTLS\r\n"@
    } else {
        Seq::<char>::empty()
    }) + "250-AUTH LOGIN PLAIN\r\n250-AUTH=LOGIN\r\n250-SMTPUTF8\r\n250 8BITMIME\r\n"@
}

impl Session {
    /// A recipient, a sender and a body are all present.
    pub open spec fn complete(self) -> bool {
        self.data.to.len() != 0 && self.data.from.mail_address.len() != 0 && self.data.body.len()
            != 0
    }

    /// `STARTTLS` is on offer: the upgrade is configured and has not happened.
    pub open spec fn offers_tls(self) -> bool {
        self.tls_type == Some(TlsType::STARTTLS) && !self.has_tls
    }

    /// The command that `line` selects in this state.
    pub open spec fn selected(self, line: Seq<char>) -> Command {
        match self.lock {
            LockMode::Idle => command_of(uppercase(first_token(line))),
            LockMode::InData => Command::Data,
            _ => Command::Auth,
        }
    }

    pub open spec fn helo(self) -> Outcome {
        Outcome { next: self, reply: Ok(capabilities(self.host, self.offers_tls())) }
    }

    pub open spec fn starttls(self) -> Outcome {
        if self.tls_type is None {
            Outcome { next: self, reply: Err(SmtpError::TlsUnavailable) }
        } else {
            Outcome {
                next: Session { has_tls: true, starttls: true, ..self },
                reply: Ok("220 Ready to start TLS\r\n"@),
            }
        }
    }

    pub open spec fn mail(self, line: Seq<char>) -> Outcome {
        if !self.auth {
            Outcome { next: self, reply: Err(SmtpError::NotAuthenticated) }
        } else {
            match bracketed(line) {
                Err(e) => Outcome { next: self, reply: Err(e) },
                Ok(address) => Outcome {
                    next: Session {
                        data: MailDataView {
                            from: AddrView { mail_address: address, ..self.data.from },
                            ..self.data
                        },
                        ..self
                    },
                    reply: Ok("250 OK\r\n"@),
                },
            }
        }
    }

    pub open spec fn rcpt(self, line: Seq<char>) -> Outcome {
        if !self.auth {
            Outcome { next: self, reply: Err(SmtpError::NotAuthenticated) }
        } else {
            match bracketed(line) {
                Err(e) => Outcome { next: self, reply: Err(e) },
                Ok(address) => Outcome {
                    next: Session {
                        data: MailDataView {
                            to: self.data.to.push(
                                AddrView { mail_address: address, name: Seq::empty() },
                            ),
                            ..self.data
                        },
                        ..self
                    },
                    reply: Ok("250 OK\r\n"@),
                },
            }
        }
    }

    /// What a body line adds to the body: the line itself, but for the stuffed
    /// single dot, which loses its first dot.
    pub open spec fn unstuffed(line: Seq<char>) -> Seq<char> {
        if line == "..\r\n"@ {
            ".\r\n"@
        } else {
            line
        }
    }

    pub open spec fn data(self, line: Seq<char>) -> Outcome {
        if !self.auth {
            Outcome { next: self, reply: Err(SmtpError::NotAuthenticated) }
        } else if line == ".\r\n"@ {
            Outcome { next: Session { lock: LockMode::Idle, ..self }, reply: Ok("250 OK\r\n"@) }
        } else if self.lock == LockMode::InData {
            Outcome {
                next: Session {
                    data: MailDataView {
                        body: self.data.body + Self::unstuffed(line),
                        ..self.data
                    },
                    ..self
                },
                reply: Ok(Seq::empty()),
            }
        } else {
            Outcome {
                next: Session { lock: LockMode::InData, ..self },
                reply: Ok("354 Start mail input; end with <CRLF>.<CRLF>\r\n"@),
            }
        }
    }

    pub open spec fn quit(self) -> Outcome {
        Outcome { next: Session { quit: true, ..self }, reply: Ok("221 Bye\r\n"@) }
    }

    /// The session is authenticated.
    pub open spec fn accepted(self) -> Outcome {
        Outcome {
            next: Session { auth: true, lock: LockMode::Idle, ..self },
            reply: Ok("235 Authentication successful\r\n"@),
        }
    }

    /// The credentials did not match: the connection is to be closed.
    pub open spec fn rejected(self) -> Outcome {
        Outcome { next: Session { quit: true, ..self }, reply: Err(SmtpError::AuthFailed) }
    }

    /// The decision on a single-step credential blob.
    pub open spec fn plain(self, blob: Seq<char>) -> Outcome {
        if blob == text_base64(plain_payload(self.user, self.passwd)) {
            self.accepted()
        } else {
            Session { lock: LockMode::Idle, ..self }.rejected()
        }
    }

    /// `AUTH` as a command line: the second space-separated field names the
    /// mechanism, a third one carries the blob of `PLAIN`.
    pub open spec fn auth_command(self, line: Seq<char>) -> Outcome {
        let fields = split(line, ' ');
        if fields.len() < 2 {
            Outcome { next: self, reply: Err(SmtpError::BadMechanism) }
        } else {
            match mechanism_of(uppercase(trim_end(fields[1]))) {
                Mechanism::Plain => if fields.len() == 3 {
                    self.plain(trim_end(fields[2]))
                } else {
                    Outcome {
                        next: Session { lock: LockMode::AwaitPlain, ..self },
                        reply: Ok("334 \r\n"@),
                    }
                },
                Mechanism::Login => Outcome {
                    next: Session { lock: LockMode::AwaitUsername, ..self },
                    reply: Ok("334 VXNlcm5hbWU6\r\n"@),
                },
                Mechanism::Unknown => Outcome {
                    next: Session { quit: true, ..self },
                    reply: Err(SmtpError::BadMechanism),
                },
            }
        }
    }

    pub open spec fn auth(self, line: Seq<char>) -> Outcome {
        if self.tls_type is Some && !self.has_tls {
            Outcome { next: self, reply: Err(SmtpError::TlsRequired) }
        } else {
            match self.lock {
                LockMode::AwaitPlain => self.plain(trim_end(line)),
                LockMode::AwaitUsername => if trim_end(line) == text_base64(self.user) {
                    Outcome {
                        next: Session { lock: LockMode::AwaitPassword, ..self },
                        reply: Ok("334 UGFzc3dvcmQ6\r\n"@),
                    }
                } else {
                    self.rejected()
                },
                LockMode::AwaitPassword => if trim_end(line) == text_base64(self.passwd) {
                    self.accepted()
                } else {
                    self.rejected()
                },
                _ => self.auth_command(line),
            }
        }
    }

    /// What `command` does to the session when `line` carries it.
    pub open spec fn dispatch(self, command: Command, line: Seq<char>) -> Outcome {
        match command {
            Command::Helo => self.helo(),
            Command::StartTls => self.starttls(),
            Command::Mail => self.mail(line),
            Command::Rcpt => self.rcpt(line),
            Command::Data => self.data(line),
            Command::Quit => self.quit(),
            Command::Auth => self.auth(line),
            Command::Unknown => Outcome { next: self, reply: Err(SmtpError::UnknownCommand) },
        }
    }

    /// What one line does to the session.
    pub open spec fn scheduler(self, line: Seq<char>) -> Outcome {
        self.dispatch(self.selected(line), line)
    }

    /// What the driver is to do after a line, given the outcome of the line.
    pub open spec fn after_line(self, outcome: Outcome) -> (Session, ActionView) {
        let next = outcome.next;
        match outcome.reply {
            Ok(text) => if text.len() == 0 {
                (next, ActionView::Read)
            } else if next.quit {
                (next, ActionView::Close(text, true))
            } else if next.starttls {
                if self.has_tls {
                    (Session { starttls: false, ..next }, ActionView::Close(text, true))
                } else {
                    (Session { starttls: false, ..next }, ActionView::Handshake(text))
                }
            } else {
                (next, ActionView::Send(text))
            },
            Err(e) => if next.quit {
                (next, ActionView::Close(e.text(), next.complete()))
            } else {
                (next, ActionView::Send(e.text()))
            },
        }
    }

    /// The session after an event, with what the driver is to do next.
    pub open spec fn run(self, event: EventView) -> (Session, ActionView) {
        match event {
            EventView::Connected => if self.tls_type == Some(TlsType::SSL) {
                (Session { has_tls: true, ..self }, ActionView::Handshake(Seq::empty()))
            } else {
                (self, ActionView::Send(greeting(self.host)))
            },
            EventView::Secured => (self, ActionView::Send(greeting(self.host))),
            EventView::Line(line) => self.after_line(self.scheduler(line)),
            _ => (self, ActionView::Close(Seq::empty(), self.complete())),
        }
    }
}

impl MailConfig {
    /// The credentials are short enough for their base64 text to be computed on
    /// this machine.
    pub open spec fn usable(&self) -> bool {
        &&& text_encodable(self.user@)
        &&& text_encodable(self.passwd@)
        &&& text_encodable(plain_payload(self.user@, self.passwd@))
    }

    /// Whether a session can be made of this configuration.
    pub fn is_usable(&self) -> (r: bool)
        ensures
            r == self.usable(),
    {
        can_encode(self.user.as_str().as_bytes().len()) && can_encode(
            self.passwd.as_str().as_bytes().len(),
        ) && plain_encodable(self.user.as_str(), self.passwd.as_str())
    }

    /// The session that a connection starts in.
    pub open spec fn session(&self) -> Session {
        Session {
            data: MailDataView {
                from: AddrView { mail_address: Seq::empty(), name: self.default_name@ },
                to: Seq::empty(),
                subject: Seq::empty(),
                body: Seq::empty(),
            },
            host: self.host@,
            user: self.user@,
            passwd: self.passwd@,
            tls_type: self.tls_type,
            has_tls: false,
            auth: false,
            quit: false,
            starttls: false,
            lock: LockMode::Idle,
        }
    }
}

struct Status {
    has_tls: bool,
    auth: bool,
    quit: bool,
    starttls: bool,
    lock: LockMode,
}

/// The configured credentials, with the texts that a client sends for them.
struct Credentials {
    user: String,
    passwd: String,
    /// What the client sends for the user name in `AUTH LOGIN`.
    login_user: String,
    /// What the client sends for the password in `AUTH LOGIN`.
    login_passwd: String,
    /// What the client sends in `AUTH PLAIN`.
    plain_blob: String,
}

/// One SMTP session.
pub struct Mail {
    pub mail_data: MailData,
    host: String,
    credentials: Credentials,
    status: Status,
    tls_type: Option<TlsType>,
}

impl Credentials {
    #[verifier::type_invariant]
    spec fn inv(self) -> bool {
        &&& self.login_user@ == text_base64(self.user@)
        &&& self.login_passwd@ == text_base64(self.passwd@)
        &&& self.plain_blob@ == text_base64(plain_payload(self.user@, self.passwd@))
    }

    fn new(user: &str, passwd: &str) -> (r: Credentials)
        requires
            text_encodable(user@),
            text_encodable(passwd@),
            text_encodable(plain_payload(user@, passwd@)),
        ensures
            r.user@ == user@,
            r.passwd@ == passwd@,
    {
        Credentials {
            user: user.to_owned(),
            passwd: passwd.to_owned(),
            login_user: base64_standard(user.as_bytes()),
            login_passwd: base64_standard(passwd.as_bytes()),
            plain_blob: plain_encode(user, passwd),
        }
    }
}

impl View for Mail {
    type V = Session;

    closed spec fn view(&self) -> Session {
        Session {
            data: self.mail_data@,
            host: self.host@,
            user: self.credentials.user@,
            passwd: self.credentials.passwd@,
            tls_type: self.tls_type,
            has_tls: self.status.has_tls,
            auth: self.status.auth,
            quit: self.status.quit,
            starttls: self.status.starttls,
            lock: self.status.lock,
        }
    }
}

impl Command {
    /// Tells the commands apart by their upper-cased name.
    pub fn parse(word: &str) -> (c: Command)
        ensures
            c == command_of(word@),
    {
        if same_text(word, "HELO") || same_text(word, "EHLO") {
            Command::Helo
        } else if same_text(word, "STARTTLS") {
            Command::StartTls
        } else if same_text(word, "MAIL") {
            Command::Mail
        } else if same_text(word, "RCPT") {
            Command::Rcpt
        } else if same_text(word, "DATA") {
            Command::Data
        } else if same_text(word, "QUIT") {
            Command::Quit
        } else if same_text(word, "AUTH") {
            Command::Auth
        } else {
            Command::Unknown
        }
    }
}

impl Mechanism {
    /// Tells the mechanisms apart by their upper-cased name.
    pub fn parse(word: &str) -> (m: Mechanism)
        ensures
            m == mechanism_of(word@),
    {
        if same_text(word, "PLAIN") {
            Mechanism::Plain
        } else if same_text(word, "LOGIN") {
            Mechanism::Login
        } else {
            Mechanism::Unknown
        }
    }
}

/// Extracts the address between the first `<` and the first `>` of a line.
pub fn address_in(line: &str) -> (r: Result<String, SmtpError>)
    ensures
        reply_view(r) == bracketed(line@),
{
    let v = chars_of(line);
    let open = find_char(&v, '<', 0);
    let close = find_char(&v, '>', 0);
    if open >= v.len() || close >= v.len() {
        Err(SmtpError::Unparsable)
    } else if close <= open + 1 {
        Err(SmtpError::EmptyAddress)
    } else {
        Ok(line.substring_char(open + 1, close).to_owned())
    }
}

impl Mail {
    /// A session at the start of a connection.
    pub fn new(config: &MailConfig) -> (mail: Mail)
        requires
            config.usable(),
        ensures
            mail@ == config.session(),
    {
        let mail = Mail {
            mail_data: MailData {
                from: Addr { mail_address: String::new(), name: config.default_name.clone() },
                to: Vec::new(),
                subject: String::new(),
                body: String::new(),
            },
            host: config.host.clone(),
            credentials: Credentials::new(config.user.as_str(), config.passwd.as_str()),
            status: Status {
                has_tls: false,
                auth: false,
                quit: false,
                starttls: false,
                lock: LockMode::Idle,
            },
            tls_type: config.tls_type,
        };
        assert(mail.mail_data@.to =~= Seq::empty());
        mail
    }

    /// The message assembled so far.
    pub fn message(&self) -> (r: &MailData)
        ensures
            r@ == self@.data,
    {
        &self.mail_data
    }

    /// The message assembled so far; what is relayed once the session has completed.
    pub fn into_mail_data(self) -> (r: MailData)
        ensures
            r@ == self@.data,
    {
        self.mail_data
    }

    /// Whether the client has authenticated.
    pub fn authenticated(&self) -> (r: bool)
        ensures
            r == self@.auth,
    {
        self.status.auth
    }

    /// Whether TLS has been negotiated or is about to be.
    pub fn secured(&self) -> (r: bool)
        ensures
            r == self@.has_tls,
    {
        self.status.has_tls
    }

    /// Whether the connection is to be closed.
    pub fn closing(&self) -> (r: bool)
        ensures
            r == self@.quit,
    {
        self.status.quit
    }

    /// How the next line is read.
    pub fn lock(&self) -> (r: LockMode)
        ensures
            r == self@.lock,
    {
        self.status.lock
    }

    /// Whether a recipient, a sender and a body are all present.
    pub fn check_mail(&self) -> (r: bool)
        ensures
            r == self@.complete(),
    {
        self.mail_data.to.len() != 0 && !self.mail_data.from.mail_address.as_str().is_empty()
            && !self.mail_data.body.as_str().is_empty()
    }

    /// The reply to `HELO` and `EHLO`.
    pub fn helo(&self) -> (r: Result<String, SmtpError>)
        ensures
            reply_view(r) == self@.helo().reply,
    {
        let offer = match self.tls_type {
            Some(TlsType::STARTTLS) => !self.status.has_tls,
            _ => false,
        };
        let mut text = String::from_str("250-");
        text.append(self.host.as_str());
        text.append("\r\n250-PIPELINING\r\n250-SIZE 73400320\r\n");
        if offer {
            text.append("250-STARTTLS\r\n");
        }
        text.append("250-AUTH LOGIN PLAIN\r\n250-AUTH=LOGIN\r\n250-SMTPUTF8\r\n250 8BITMIME\r\n");
        Ok(text)
    }

    /// `STARTTLS`: refused unless TLS is configured; else the session counts as
    /// secured and the driver is owed the upgrade.
    pub fn starttls(&mut self) -> (r: Result<String, SmtpError>)
        ensures
            final(self)@ == old(self)@.starttls().next,
            reply_view(r) == old(self)@.starttls().reply,
    {
        if self.tls_type.is_none() {
            return Err(SmtpError::TlsUnavailable);
        }
        self.status.has_tls = true;
        self.status.starttls = true;
        Ok(String::from_str("220 Ready to start TLS\r\n"))
    }

    /// `MAIL`: names the sender.
    pub fn mail(&mut self, request: &str) -> (r: Result<String, SmtpError>)
        ensures
            final(self)@ == old(self)@.mail(request@).next,
            reply_view(r) == old(self)@.mail(request@).reply,
    {
        if !self.status.auth {
            return Err(SmtpError::NotAuthenticated);
        }
        match address_in(request) {
            Err(e) => Err(e),
            Ok(address) => {
                self.mail_data.from.mail_address = address;
                Ok(String::from_str("250 OK\r\n"))
            },
        }
    }

    /// `RCPT`: adds a recipient.
    pub fn rcpt(&mut self, request: &str) -> (r: Result<String, SmtpError>)
        ensures
            final(self)@ == old(self)@.rcpt(request@).next,
            reply_view(r) == old(self)@.rcpt(request@).reply,
    {
        if !self.status.auth {
            return Err(SmtpError::NotAuthenticated);
        }
        match address_in(request) {
            Err(e) => Err(e),
            Ok(address) => {
                let to = Addr { mail_address: address, name: String::new() };
                self.mail_data.to.push(to);
                assert(self.mail_data@.to =~= old(self).mail_data@.to.push(to@));
                Ok(String::from_str("250 OK\r\n"))
            },
        }
    }

    /// `DATA` and the lines that follow it, up to the single dot.
    pub fn data(&mut self, request: &str) -> (r: Result<String, SmtpError>)
        ensures
            final(self)@ == old(self)@.data(request@).next,
            reply_view(r) == old(self)@.data(request@).reply,
    {
        if !self.status.auth {
            return Err(SmtpError::NotAuthenticated);
        }
        if same_text(request, ".\r\n") {
            self.status.lock = LockMode::Idle;
            return Ok(String::from_str("250 OK\r\n"));
        }
        if self.status.lock == LockMode::InData {
            if same_text(request, "..\r\n") {
                self.mail_data.body.append(".\r\n");
            } else {
                self.mail_data.body.append(request);
            }
            return Ok(String::new());
        }
        self.status.lock = LockMode::InData;
        Ok(String::from_str("354 Start mail input; end with <CRLF>.<CRLF>\r\n"))
    }

    /// `QUIT`: the connection is to be closed.
    pub fn quit(&mut self) -> (r: Result<String, SmtpError>)
        ensures
            final(self)@ == old(self)@.quit().next,
            reply_view(r) == old(self)@.quit().reply,
    {
        self.status.quit = true;
        Ok(String::from_str("221 Bye\r\n"))
    }

    fn accept(&mut self) -> (r: Result<String, SmtpError>)
        ensures
            final(self)@ == old(self)@.accepted().next,
            reply_view(r) == old(self)@.accepted().reply,
    {
        self.status.auth = true;
        self.status.lock = LockMode::Idle;
        Ok(String::from_str("235 Authentication successful\r\n"))
    }

    fn reject(&mut self) -> (r: Result<String, SmtpError>)
        ensures
            final(self)@ == old(self)@.rejected().next,
            reply_view(r) == old(self)@.rejected().reply,
    {
        self.status.quit = true;
        Err(SmtpError::AuthFailed)
    }

    fn plain(&mut self, blob: &str) -> (r: Result<String, SmtpError>)
        ensures
            final(self)@ == old(self)@.plain(blob@).next,
            reply_view(r) == old(self)@.plain(blob@).reply,
    {
        proof {
            use_type_invariant(&self.credentials);
        }
        if same_text(blob, self.credentials.plain_blob.as_str()) {
            self.accept()
        } else {
            self.status.lock = LockMode::Idle;
            self.reject()
        }
    }

    fn auth_command(&mut self, request: &str) -> (r: Result<String, SmtpError>)
        ensures
            final(self)@ == old(self)@.auth_command(request@).next,
            reply_view(r) == old(self)@.auth_command(request@).reply,
    {
        let args = fields(request, ' ');
        if args.len() < 2 {
            return Err(SmtpError::BadMechanism);
        }
        let name = to_upper(trimmed(args[1].as_str()).as_str());
        match Mechanism::parse(name.as_str()) {
            Mechanism::Plain => {
                if args.len() == 3 {
                    let blob = trimmed(args[2].as_str());
                    self.plain(blob.as_str())
                } else {
                    self.status.lock = LockMode::AwaitPlain;
                    Ok(String::from_str("334 \r\n"))
                }
            },
            Mechanism::Login => {
                self.status.lock = LockMode::AwaitUsername;
                Ok(String::from_str("334 VXNlcm5hbWU6\r\n"))
            },
            Mechanism::Unknown => {
                self.status.quit = true;
                Err(SmtpError::BadMechanism)
            },
        }
    }

    /// `AUTH` and the lines that answer its challenges.
    pub fn auth(&mut self, request: &str) -> (r: Result<String, SmtpError>)
        ensures
            final(self)@ == old(self)@.auth(request@).next,
            reply_view(r) == old(self)@.auth(request@).reply,
    {
        proof {
            use_type_invariant(&self.credentials);
        }
        if self.tls_type.is_some() && !self.status.has_tls {
            return Err(SmtpError::TlsRequired);
        }
        match self.status.lock {
            LockMode::AwaitPlain => {
                let blob = trimmed(request);
                self.plain(blob.as_str())
            },
            LockMode::AwaitUsername => {
                let answer = trimmed(request);
                if same_text(answer.as_str(), self.credentials.login_user.as_str()) {
                    self.status.lock = LockMode::AwaitPassword;
                    Ok(String::from_str("334 UGFzc3dvcmQ6\r\n"))
                } else {
                    self.reject()
                }
            },
            LockMode::AwaitPassword => {
                let answer = trimmed(request);
                if same_text(answer.as_str(), self.credentials.login_passwd.as_str()) {
                    self.accept()
                } else {
                    self.reject()
                }
            },
            _ => self.auth_command(request),
        }
    }

    /// The command that `request` selects in the present state.
    pub fn select(&self, request: &str) -> (c: Command)
        ensures
            c == self@.selected(request@),
    {
        match self.status.lock {
            LockMode::Idle => {
                let word = to_upper(first_word(request).as_str());
                Command::parse(word.as_str())
            },
            LockMode::InData => Command::Data,
            _ => Command::Auth,
        }
    }

    /// Carries out `command` on the line that selected it.
    pub fn dispatch(&mut self, command: Command, request: &str) -> (r: Result<String, SmtpError>)
        ensures
            final(self)@ == old(self)@.dispatch(command, request@).next,
            reply_view(r) == old(self)@.dispatch(command, request@).reply,
    {
        match command {
            Command::Helo => self.helo(),
            Command::StartTls => self.starttls(),
            Command::Mail => self.mail(request),
            Command::Rcpt => self.rcpt(request),
            Command::Data => self.data(request),
            Command::Quit => self.quit(),
            Command::Auth => self.auth(request),
            Command::Unknown => Err(SmtpError::UnknownCommand),
        }
    }

    /// Handles one line of the client.
    pub fn scheduler(&mut self, request: &str) -> (r: Result<String, SmtpError>)
        ensures
            final(self)@ == old(self)@.scheduler(request@).next,
            reply_view(r) == old(self)@.scheduler(request@).reply,
    {
        let command = self.select(request);
        self.dispatch(command, request)
    }

    /// The line that opens the conversation.
    pub fn greeting(&self) -> (r: String)
        ensures
            r@ == greeting(self@.host),
    {
        let mut text = String::from_str("220 ");
        text.append(self.host.as_str());
        text.append(" Esmtp smtp2larkapi\r\n");
        text
    }

    /// Decides what the driver does after a line was handled with result `reply`.
    /// `secured` says whether TLS was in place before the line.
    fn after_line(&mut self, secured: bool, reply: Result<String, SmtpError>) -> (a: Action)
        ensures
            (final(self)@, a@) == (Session { has_tls: secured, ..old(self)@ }).after_line(
                Outcome { next: old(self)@, reply: reply_view(reply) },
            ),
    {
        match reply {
            Ok(text) => {
                if text.as_str().is_empty() {
                    Action::Read
                } else if self.status.quit {
                    Action::Close(text, true)
                } else if self.status.starttls {
                    self.status.starttls = false;
                    if secured {
                        Action::Close(text, true)
                    } else {
                        Action::Handshake(text)
                    }
                } else {
                    Action::Send(text)
                }
            },
            Err(e) => {
                if self.status.quit {
                    let complete = self.check_mail();
                    Action::Close(e.to_string(), complete)
                } else {
                    Action::Send(e.to_string())
                }
            },
        }
    }

    /// Takes one event of the connection and says what the driver is to do next.
    pub fn run(&mut self, event: Event) -> (a: Action)
        ensures
            final(self)@ == old(self)@.run(event@).0,
            a@ == old(self)@.run(event@).1,
    {
        match event {
            Event::Connected => {
                match self.tls_type {
                    Some(TlsType::SSL) => {
                        self.status.has_tls = true;
                        Action::Handshake(String::new())
                    },
                    _ => Action::Send(self.greeting()),
                }
            },
            Event::Secured => Action::Send(self.greeting()),
            Event::Line(line) => {
                let secured = self.status.has_tls;
                let reply = self.scheduler(line.as_str());
                self.after_line(secured, reply)
            },
            _ => {
                let complete = self.check_mail();
                Action::Close(String::new(), complete)
            },
        }
    }
}

} // verus!
