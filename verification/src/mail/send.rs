//! The mail that answers a request.

use vstd::prelude::*;
use crate::clock::{local_rfc3339, unix_now, LAST_SECOND_OF_YEAR_9999};
use crate::config::{Config, ServerConfig};
use crate::error::Failure;
use crate::payload::{build_payload_at, issued_token, token_verdict, Claim};
use crate::text::{decimal, push_decimal};

verus! {

/// A mail to be sent: the recipient, the subject line and the text.
#[derive(Debug)]
pub struct OutgoingMail {
    pub to: String,
    pub subject: String,
    pub text: String,
}

/// The address under which the service takes the token back.
pub open spec fn reset_link(domain: Seq<char>, port: u16, token: Seq<char>) -> Seq<char> {
    "http://"@ + domain + ":"@ + decimal(port as nat) + "/reset/"@ + token
}

/// The subject line of a reset mail.
pub open spec fn reset_subject() -> Seq<char> {
    "重置密码"@
}

/// The text of a reset mail: until when the link holds, and the link.
pub open spec fn reset_text(deadline: Seq<char>, link: Seq<char>) -> Seq<char> {
    "请点击以下链接重置密码，链接在 "@ + deadline + " 前有效 \n\n "@ + link
}

/// Writes the address under which the service takes `token` back.
pub fn reset_link_of(server: &ServerConfig, token: &str) -> (link: String)
    ensures
        link@ == reset_link(server.domain@, server.port, token@),
{
    let mut link = String::from_str("http://");
    link.append(server.domain.as_str());
    link.append(":");
    push_decimal(&mut link, server.port as u64);
    link.append("/reset/");
    link.append(token);
    link
}

/// Composes the mail that carries `token` to `to`, valid until `deadline`.
pub fn compose_reset_mail(server: &ServerConfig, to: &str, token: &str, deadline: &str) -> (mail:
    OutgoingMail)
    ensures
        mail.to@ == to@,
        mail.subject@ == reset_subject(),
        mail.text@ == reset_text(deadline@, reset_link(server.domain@, server.port, token@)),
{
    let link = reset_link_of(server, token);
    let mut text = String::from_str("请点击以下链接重置密码，链接在 ");
    text.append(deadline);
    text.append(" 前有效 \n\n ");
    text.append(link.as_str());
    OutgoingMail { to: String::from_str(to), subject: String::from_str("重置密码"), text }
}

/// The last second at which a token issued at `issued_at` is accepted, if
/// that second can be written as a timestamp.
pub fn expiry_instant(issued_at: i64, window: u64) -> (last: Option<i64>)
    ensures
        match last {
            Some(instant) => instant == issued_at + window,
            None => issued_at + window > i64::MAX,
        },
{
    let sum: i128 = issued_at as i128 + window as i128;
    if sum > i64::MAX as i128 {
        None
    } else {
        Some(sum as i64)
    }
}

/// Writes the end of the validity window of a token issued at `issued_at`
/// as a date and time in the machine's time zone. There is a text whenever
/// the window ends between 1970 and the end of the year 9999, and none when
/// its end cannot be written as a timestamp.
pub fn deadline_text(issued_at: i64, window: u64) -> (deadline: Option<String>)
    ensures
        0 <= issued_at + window <= LAST_SECOND_OF_YEAR_9999 ==> deadline is Some,
        issued_at + window > i64::MAX ==> deadline is None,
{
    match expiry_instant(issued_at, window) {
        Some(last) => local_rfc3339(last),
        None => None,
    }
}

/// Issues a token for `id` now and composes the mail that carries it to
/// `mail`, as [`prepare_reset_mail_at`] does for the time that the clock
/// gives and the deadline that the calendar writes for the end of the
/// window. A mail is prepared whenever the window ends between 1970 and the
/// end of the year 9999.
pub fn prepare_reset_mail(config: &Config, mail: &str, id: &str) -> (prepared: Option<
    OutgoingMail,
>)
    ensures
        exists|now: i64, deadline: Option<Seq<char>>|
            {
                &&& prepared_view(prepared) == #[trigger] prepared_mail(
                    *config,
                    mail@,
                    id@,
                    now,
                    deadline,
                )
                &&& 0 <= now + config.payload.oudate_secounds <= LAST_SECOND_OF_YEAR_9999
                    ==> deadline is Some
                &&& now + config.payload.oudate_secounds > i64::MAX ==> deadline is None
                &&& prepared is Some ==> token_verdict(
                    config.sign.key@,
                    issued_token(config.sign.key@, id@, now),
                ) == Ok::<Claim, Failure>(Claim { student_id: id@, issued_at: now as int })
            },
{
    let now = unix_now();
    let deadline = deadline_text(now, config.payload.oudate_secounds);
    let ghost written = text_view(deadline);
    let prepared = prepare_reset_mail_at(config, mail, id, now, deadline);
    assert(prepared_view(prepared) == prepared_mail(*config, mail@, id@, now, written));
    prepared
}

/// The content of an [`OutgoingMail`].
pub struct MailView {
    pub to: Seq<char>,
    pub subject: Seq<char>,
    pub text: Seq<char>,
}

impl View for OutgoingMail {
    type V = MailView;

    open spec fn view(&self) -> MailView {
        MailView { to: self.to@, subject: self.subject@, text: self.text@ }
    }
}

/// The content of a mail that may not have been prepared.
pub open spec fn prepared_view(prepared: Option<OutgoingMail>) -> Option<MailView> {
    match prepared {
        Some(outgoing) => Some(outgoing@),
        None => None,
    }
}

/// The content of a text that may not have been written.
pub open spec fn text_view(text: Option<String>) -> Option<Seq<char>> {
    match text {
        Some(written) => Some(written@),
        None => None,
    }
}

/// The mail that answers a request for `id`: it goes to `to`, and its text
/// names `deadline` and the link with the token issued for `id` at `now`.
pub open spec fn reset_mail(
    config: Config,
    to: Seq<char>,
    id: Seq<char>,
    now: i64,
    deadline: Seq<char>,
) -> MailView {
    MailView {
        to,
        subject: reset_subject(),
        text: reset_text(
            deadline,
            reset_link(
                config.server.domain@,
                config.server.port,
                issued_token(config.sign.key@, id, now),
            ),
        ),
    }
}

/// What is prepared for a request: the reset mail when the end of the
/// window could be written as a date, and nothing when it could not.
pub open spec fn prepared_mail(
    config: Config,
    to: Seq<char>,
    id: Seq<char>,
    now: i64,
    deadline: Option<Seq<char>>,
) -> Option<MailView> {
    match deadline {
        Some(written) => Some(reset_mail(config, to, id, now, written)),
        None => None,
    }
}

/// Issues a token for `id` at the time `now` and composes the mail that
/// carries it to `mail`, with `deadline` as the end of the validity window.
/// Without a deadline no token is issued and no mail is prepared.
pub fn prepare_reset_mail_at(
    config: &Config,
    mail: &str,
    id: &str,
    now: i64,
    deadline: Option<String>,
) -> (prepared: Option<OutgoingMail>)
    ensures
        prepared_view(prepared) == prepared_mail(*config, mail@, id@, now, text_view(deadline)),
        prepared is Some ==> token_verdict(
            config.sign.key@,
            issued_token(config.sign.key@, id@, now),
        ) == Ok::<Claim, Failure>(Claim { student_id: id@, issued_at: now as int }),
{
    match deadline {
        Some(written) => {
            let token = build_payload_at(&config.sign.key, id, now);
            Some(compose_reset_mail(&config.server, mail, token.as_str(), written.as_str()))
        },
        None => None,
    }
}

} // verus!
