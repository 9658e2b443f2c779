//! What holds of every SMTP session, proved from the definitions in `smtp_server`.

use crate::codec::{plain_payload, text_base64};
use crate::smtp_server::{
    capabilities, greeting, mechanism_of, ActionView, Command, EventView, LockMode, MailConfig,
    MailDataView, Mechanism, Session, SmtpError,
};
use crate::text::{lemma_find, split, trim_end, uppercase};
use vstd::prelude::*;

verus! {

impl Session {
    /// `AUTH` is allowed on this channel: TLS is in place or not configured.
    pub open spec fn may_authenticate(self) -> bool {
        self.tls_type is None || self.has_tls
    }

    /// Every recipient has a mailbox.
    pub open spec fn recipients_named(self) -> bool {
        forall|i: int|
            0 <= i < self.data.to.len() ==> (#[trigger] self.data.to[i]).mail_address.len() > 0
    }

    /// What every session that a driver has run satisfies between two events:
    /// the body is only received after authentication; a challenge is only open
    /// where `AUTH` is allowed; every recipient has a mailbox; and an upgrade
    /// that was granted has been handed to the driver, unless the connection is
    /// being closed anyway.
    pub open spec fn consistent(self) -> bool {
        &&& self.lock == LockMode::InData ==> self.auth
        &&& (self.lock == LockMode::AwaitPlain || self.lock == LockMode::AwaitUsername || self.lock
            == LockMode::AwaitPassword) ==> self.may_authenticate()
        &&& self.recipients_named()
        &&& self.starttls ==> self.quit
    }

    /// The session after a sequence of lines, each handled in turn.
    pub open spec fn fed(self, lines: Seq<Seq<char>>) -> Session
        decreases lines.len(),
    {
        if lines.len() == 0 {
            self
        } else {
            self.fed(lines.drop_last()).scheduler(lines.last()).next
        }
    }
}

/// What a sequence of body lines adds to the body.
pub open spec fn stored(lines: Seq<Seq<char>>) -> Seq<char>
    decreases lines.len(),
{
    if lines.len() == 0 {
        Seq::empty()
    } else {
        stored(lines.drop_last()) + Session::unstuffed(lines.last())
    }
}

/// A body line that holds a single dot travels as two dots and is stored as one;
/// every other line that does not end the transfer, those that begin with a dot
/// among them, is stored as it came.
pub proof fn law_dot_unstuffing(s: Session, line: Seq<char>)
    requires
        s.auth,
        s.lock == LockMode::InData,
    ensures
        line == "..\r\n"@ ==> s.data(line).next.data.body == s.data.body + ".\r\n"@,
        line != "..\r\n"@ && line != ".\r\n"@ ==> s.data(line).next.data.body == s.data.body + line,
        line != ".\r\n"@ ==> s.data(line).reply == Ok::<Seq<char>, SmtpError>(Seq::empty())
            && s.data(line).next.lock == LockMode::InData,
        line == ".\r\n"@ ==> s.data(line).next.data.body == s.data.body && s.data(line).next.lock
            == LockMode::Idle,
{
    reveal_strlit("..\r\n");
    reveal_strlit(".\r\n");
}

/// While the body is transferred, the lines that do not end the transfer are
/// answered with nothing and stored in order, each unstuffed.
pub proof fn law_body_accumulates(s: Session, lines: Seq<Seq<char>>)
    requires
        s.auth,
        s.lock == LockMode::InData,
        forall|i: int| 0 <= i < lines.len() ==> lines[i] != ".\r\n"@,
    ensures
        s.fed(lines) == (Session {
            data: MailDataView {
                body: s.data.body + stored(lines),
                ..s.data
            },
            ..s
        }),
    decreases lines.len(),
{
    if lines.len() > 0 {
        let front = lines.drop_last();
        law_body_accumulates(s, front);
        assert((s.data.body + stored(front)) + Session::unstuffed(lines.last()) =~= s.data.body
            + stored(lines));
    }
}

/// The single-step blob decides `AUTH PLAIN`: the configured credentials are
/// answered with `235` and authenticate; anything else is answered with `535`
/// and closes the connection without authenticating.
pub proof fn law_auth_plain(s: Session, line: Seq<char>)
    requires
        s.may_authenticate(),
        s.lock == LockMode::AwaitPlain,
        !s.quit,
        !s.starttls,
    ensures
        trim_end(line) == text_base64(plain_payload(s.user, s.passwd)) ==> {
            &&& s.run(EventView::Line(line)).1 == ActionView::Send(
                "235 Authentication successful\r\n"@,
            )
            &&& s.run(EventView::Line(line)).0.auth
            &&& s.run(EventView::Line(line)).0.lock == LockMode::Idle
        },
        trim_end(line) != text_base64(plain_payload(s.user, s.passwd)) ==> {
            &&& s.run(EventView::Line(line)).1 == ActionView::Close(
                "535 Authentication failed\r\n"@,
                s.complete(),
            )
            &&& s.run(EventView::Line(line)).0.quit
            &&& s.run(EventView::Line(line)).0.auth == s.auth
        },
{
    reveal_strlit("235 Authentication successful\r\n");
}

/// `AUTH PLAIN` with the blob on the command line is decided as the blob alone is.
pub proof fn law_auth_plain_inline(s: Session, line: Seq<char>)
    requires
        s.may_authenticate(),
        s.lock == LockMode::Idle,
        split(line, ' ').len() == 3,
        mechanism_of(uppercase(trim_end(split(line, ' ')[1]))) == Mechanism::Plain,
    ensures
        s.auth(line) == s.plain(trim_end(split(line, ' ')[2])),
        s.auth(line).reply is Ok <==> trim_end(split(line, ' ')[2]) == text_base64(
            plain_payload(s.user, s.passwd),
        ),
        s.auth(line).reply is Ok ==> s.auth(line).next.auth,
        s.auth(line).reply is Err ==> s.auth(line).next.quit && s.auth(line).reply == Err::<
            Seq<char>,
            SmtpError,
        >(SmtpError::AuthFailed),
{
}

/// `AUTH LOGIN` asks for the user name, then, given the configured user name, for
/// the password, and only then decides: two challenges precede `235` or `535`.
/// A wrong user name is refused at once.
pub proof fn law_auth_login(s: Session, command: Seq<char>, username: Seq<char>, password: Seq<char>)
    requires
        s.may_authenticate(),
        s.lock == LockMode::Idle,
        split(command, ' ').len() >= 2,
        mechanism_of(uppercase(trim_end(split(command, ' ')[1]))) == Mechanism::Login,
    ensures
        ({
            let first = s.auth(command);
            let second = first.next.auth(username);
            let third = second.next.auth(password);
            &&& first.reply == Ok::<Seq<char>, SmtpError>("334 VXNlcm5hbWU6\r\n"@)
            &&& first.next.auth == s.auth && first.next.quit == s.quit
            &&& trim_end(username) == text_base64(s.user) ==> {
                &&& second.reply == Ok::<Seq<char>, SmtpError>("334 UGFzc3dvcmQ6\r\n"@)
                &&& second.next.auth == s.auth
                &&& trim_end(password) == text_base64(s.passwd) ==> third.reply == Ok::<
                    Seq<char>,
                    SmtpError,
                >("235 Authentication successful\r\n"@) && third.next.auth && third.next.lock
                    == LockMode::Idle
                &&& trim_end(password) != text_base64(s.passwd) ==> third.reply == Err::<
                    Seq<char>,
                    SmtpError,
                >(SmtpError::AuthFailed) && third.next.quit && third.next.auth == s.auth
            }
            &&& trim_end(username) != text_base64(s.user) ==> second.reply == Err::<
                Seq<char>,
                SmtpError,
            >(SmtpError::AuthFailed) && second.next.quit && second.next.auth == s.auth
        }),
{
}

/// Before authentication `MAIL`, `RCPT` and `DATA` are refused whatever the line
/// holds, and leave the session as it was.
pub proof fn law_authentication_first(s: Session, line: Seq<char>)
    requires
        !s.auth,
    ensures
        s.mail(line).reply == Err::<Seq<char>, SmtpError>(SmtpError::NotAuthenticated),
        s.rcpt(line).reply == Err::<Seq<char>, SmtpError>(SmtpError::NotAuthenticated),
        s.data(line).reply == Err::<Seq<char>, SmtpError>(SmtpError::NotAuthenticated),
        s.mail(line).next == s,
        s.rcpt(line).next == s,
        s.data(line).next == s,
{
}

/// `STARTTLS` is offered only while TLS is configured and not in place, and is
/// refused with `454`, the session unchanged, when TLS is not configured.
pub proof fn law_starttls(s: Session)
    ensures
        s.helo().reply == Ok::<Seq<char>, SmtpError>(capabilities(s.host, true)) ==> s.tls_type
            is Some && !s.has_tls,
        s.tls_type is None ==> s.starttls().reply == Err::<Seq<char>, SmtpError>(
            SmtpError::TlsUnavailable,
        ) && s.starttls().next == s,
        s.tls_type is None && !s.quit ==> s.after_line(s.starttls()) == (
            s,
            ActionView::Send("454 TLS not available due to temporary reason\r\n"@),
        ),
{
    reveal_strlit("250-STARTTLS\r\n");
    assert(capabilities(s.host, true).len() == capabilities(s.host, false).len() + 14);
}

/// A new session is consistent, and no event makes a consistent session
/// inconsistent: the body is only received after authentication, challenges are
/// only open where `AUTH` is allowed, and every recipient has a mailbox.
pub proof fn law_consistency(config: MailConfig, s: Session, event: EventView)
    ensures
        config.session().consistent(),
        s.consistent() ==> s.run(event).0.consistent(),
{
    if s.consistent() {
        match event {
            EventView::Line(line) => {
                let o = s.scheduler(line);
                assert(o.next.recipients_named()) by {
                    lemma_find(line, '<', 0);
                    lemma_find(line, '>', 0);
                }
                reveal_strlit("220 Ready to start TLS\r\n");
            },
            _ => {},
        }
    }
}

/// Authentication and TLS, once in place, stay in place; the credentials, the
/// host name and the TLS mode never change.
pub proof fn law_monotone(s: Session, event: EventView)
    ensures
        s.auth ==> s.run(event).0.auth,
        s.has_tls ==> s.run(event).0.has_tls,
        s.quit ==> s.run(event).0.quit,
        s.run(event).0.user == s.user,
        s.run(event).0.passwd == s.passwd,
        s.run(event).0.host == s.host,
        s.run(event).0.tls_type == s.tls_type,
{
}

/// When the input ends, by a closed connection, an idle timeout or a failed read,
/// the session is closed without a reply, and counts as completed exactly when
/// its message has a sender, a recipient and a body.
pub proof fn law_input_ends(s: Session, event: EventView)
    requires
        event is Eof || event is Timeout || event is Failed,
    ensures
        s.run(event) == (s, ActionView::Close(Seq::empty(), s.complete())),
{
}

/// The text ends with the line terminator.
pub open spec fn is_line(text: Seq<char>) -> bool {
    text.len() >= 2 && text[text.len() - 2] == '\r' && text[text.len() - 1] == '\n'
}

/// The text begins with one of the reply codes that the session uses.
pub open spec fn is_coded(text: Seq<char>) -> bool {
    text.len() >= 3 && {
        let code = text.take(3);
        ||| code == seq!['2', '2', '0']
        ||| code == seq!['2', '2', '1']
        ||| code == seq!['2', '3', '5']
        ||| code == seq!['2', '5', '0']
        ||| code == seq!['3', '3', '4']
        ||| code == seq!['3', '5', '4']
        ||| code == seq!['4', '5', '4']
        ||| code == seq!['5', '0', '0']
        ||| code == seq!['5', '3', '0']
        ||| code == seq!['5', '3', '5']
    }
}

/// Every refusal is sent as a reply line of its own: a code, `454`, `500`, `530`
/// or `535`, at its start and the line terminator at its end.
pub proof fn law_refusals_are_lines(e: SmtpError)
    ensures
        is_line(e.text()),
        is_coded(e.text()),
        e == SmtpError::TlsUnavailable <==> e.text().take(3) == seq!['4', '5', '4'],
        e == SmtpError::NotAuthenticated || e == SmtpError::TlsRequired <==> e.text().take(3)
            == seq!['5', '3', '0'],
        e == SmtpError::AuthFailed <==> e.text().take(3) == seq!['5', '3', '5'],
        e == SmtpError::Unparsable || e == SmtpError::EmptyAddress || e
            == SmtpError::UnknownCommand || e == SmtpError::BadMechanism <==> e.text().take(3)
            == seq!['5', '0', '0'],
{
    reveal_strlit("530 Client is not authenticated\r\n");
    reveal_strlit("500 Unable to parse content\r\n");
    reveal_strlit("500\r\n");
    reveal_strlit("500 Unknown command\r\n");
    reveal_strlit("530 5.7.0 Must issue a STARTTLS command first\r\n");
    reveal_strlit("500 The authentication type is incorrect.\r\n");
    reveal_strlit("535 Authentication failed\r\n");
    reveal_strlit("454 TLS not available due to temporary reason\r\n");
    assert(e.text().take(3) =~= seq![e.text()[0], e.text()[1], e.text()[2]]);
}

/// What a reply of the session is made of: nothing, or text that begins with a
/// reply code and ends with the line terminator.
pub open spec fn is_reply(text: Seq<char>) -> bool {
    text.len() == 0 || (is_line(text) && is_coded(text))
}

/// Whatever the session has sent is a reply: a command is answered with nothing
/// or with text that begins with a reply code and ends with the line terminator,
/// so that the next reply begins a line.
pub proof fn law_replies_are_lines(s: Session, event: EventView)
    ensures
        match s.run(event).1 {
            ActionView::Read => true,
            ActionView::Send(text) => is_line(text) && is_coded(text),
            ActionView::Handshake(text) => is_reply(text),
            ActionView::Close(text, _) => is_reply(text),
        },
{
    match event {
        EventView::Line(line) => {
            let o = s.scheduler(line);
            match o.reply {
                Err(e) => {
                    law_refusals_are_lines(e);
                },
                Ok(_) => {
                    lemma_accepted_are_lines(s, line);
                },
            }
        },
        EventView::Connected => {
            lemma_greeting_is_line(s.host);
        },
        EventView::Secured => {
            lemma_greeting_is_line(s.host);
        },
        _ => {},
    }
}

/// The greeting begins with `220` and ends with the line terminator.
pub proof fn lemma_greeting_is_line(host: Seq<char>)
    ensures
        is_line(greeting(host)),
        is_coded(greeting(host)),
        greeting(host).take(3) == seq!['2', '2', '0'],
{
    reveal_strlit("220 ");
    reveal_strlit(" Esmtp smtp2larkapi\r\n");
    let g = greeting(host);
    assert(g.take(3) =~= seq!['2', '2', '0']);
}

/// What a line is answered with, where it is not refused, is nothing or a reply.
pub proof fn lemma_accepted_are_lines(s: Session, line: Seq<char>)
    requires
        s.scheduler(line).reply is Ok,
    ensures
        is_reply(s.scheduler(line).reply->Ok_0),
{
    reveal_strlit("250-");
    reveal_strlit("\r\n250-PIPELINING\r\n250-SIZE 73400320\r\n");
    reveal_strlit("250-STARTTLS\r\n");
    reveal_strlit("250-AUTH LOGIN PLAIN\r\n250-AUTH=LOGIN\r\n250-SMTPUTF8\r\n250 8BITMIME\r\n");
    reveal_strlit("220 Ready to start TLS\r\n");
    reveal_strlit("250 OK\r\n");
    reveal_strlit("354 Start mail input; end with <CRLF>.<CRLF>\r\n");
    reveal_strlit("221 Bye\r\n");
    reveal_strlit("235 Authentication successful\r\n");
    reveal_strlit("334 \r\n");
    reveal_strlit("334 VXNlcm5hbWU6\r\n");
    reveal_strlit("334 UGFzc3dvcmQ6\r\n");
    let text = s.scheduler(line).reply->Ok_0;
    if text.len() > 0 {
        assert(text.take(3) =~= seq![text[0], text[1], text[2]]);
    }
}

} // verus!
