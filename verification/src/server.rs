//! What the pages of the service show.
//!
//! The page that a reset link opens shows the identifier, the password that
//! a reset would set, and the link itself. Sending the form on that page
//! verifies the token once more and begins the reset.

use vstd::prelude::*;
use crate::command::{
    derived_password, derived_password_of, reset_asks, ResetAction, ResetExecution, ResetPhase,
};
use crate::config::{Config, ServerConfig};
use crate::error::Failure;
use crate::mail::send::{reset_link, reset_link_of};
use crate::clock::unix_now;
use crate::payload::{parse_payload_at, verification, Claim, Request};

verus! {

/// What the confirmation page shows.
pub struct ResetTemplate {
    pub id: String,
    pub password: String,
    pub link: String,
}

/// What the page shows after a reset.
pub struct ResetPostTemplate {
    pub id: String,
    pub password: String,
}

/// The text of the page that reports a failure.
pub open spec fn error_text(reason: Seq<char>) -> Seq<char> {
    "Invalid payload: "@ + reason + ", contact name1e5s@bupt.edu.cn for more info."@
}

/// Writes the page that reports `failure`.
pub fn error_page(failure: Failure) -> (text: String)
    ensures
        text@ == error_text(failure.description()),
{
    let reason = failure.message();
    let mut text = String::from_str("Invalid payload: ");
    text.append(reason.as_str());
    text.append(", contact name1e5s@bupt.edu.cn for more info.");
    text
}

/// Fills the confirmation page for a verified request that came in `token`.
pub fn confirmation_page(server: &ServerConfig, token: &str, request: &Request) -> (page:
    ResetTemplate)
    ensures
        page.id@ == request.id@,
        page.password@ == derived_password(request.id@),
        page.link@ == reset_link(server.domain@, server.port, token@),
{
    ResetTemplate {
        id: request.id.clone(),
        password: derived_password_of(request.id.as_str()),
        link: reset_link_of(server, token),
    }
}

/// Fills the page that is shown after the reset of `id`.
pub fn completion_page(id: &str) -> (page: ResetPostTemplate)
    ensures
        page.id@ == id@,
        page.password@ == derived_password(id@),
{
    ResetPostTemplate { id: String::from_str(id), password: derived_password_of(id) }
}

/// Answers a request for the confirmation page at the time `now`: the page
/// when `token` is accepted, the reason when it is not.
pub fn get_reset_at(config: &Config, token: &str, now: i64) -> (outcome: Result<
    ResetTemplate,
    Failure,
>)
    ensures
        match outcome {
            Ok(page) => {
                &&& verification(
                    config.sign.key@,
                    config.payload.oudate_secounds as int,
                    token@,
                    now as int,
                ) matches Ok(claim)
                &&& page.id@ == claim.student_id
                &&& page.password@ == derived_password(claim.student_id)
                &&& page.link@ == reset_link(config.server.domain@, config.server.port, token@)
            },
            Err(failure) => verification(
                config.sign.key@,
                config.payload.oudate_secounds as int,
                token@,
                now as int,
            ) == Err::<Claim, Failure>(failure),
        },
{
    match parse_payload_at(&config.sign.key, config.payload.oudate_secounds, token, now) {
        Ok(request) => Ok(confirmation_page(&config.server, token, &request)),
        Err(failure) => Err(failure),
    }
}

/// Answers a request for the confirmation page now.
pub fn get_reset_handler(config: &Config, token: &str) -> (outcome: Result<ResetTemplate, Failure>)
    ensures
        match outcome {
            Ok(page) => {
                &&& page.password@ == derived_password(page.id@)
                &&& page.link@ == reset_link(config.server.domain@, config.server.port, token@)
                &&& exists|now: i64|
                    (#[trigger] verification(
                        config.sign.key@,
                        config.payload.oudate_secounds as int,
                        token@,
                        now as int,
                    )) matches Ok(claim) && claim.student_id == page.id@
            },
            Err(failure) => exists|now: i64|
                (#[trigger] verification(
                    config.sign.key@,
                    config.payload.oudate_secounds as int,
                    token@,
                    now as int,
                )) == Err::<Claim, Failure>(failure),
        },
{
    let now = unix_now();
    let outcome = get_reset_at(config, token, now);
    proof {
        let v = verification(
            config.sign.key@,
            config.payload.oudate_secounds as int,
            token@,
            now as int,
        );
        if outcome is Ok {
            assert(v matches Ok(claim) && claim.student_id == outcome->Ok_0.id@);
        } else {
            assert(v == Err::<Claim, Failure>(outcome->Err_0));
        }
    }
    outcome
}

/// Answers the form of the confirmation page at the time `now`: when
/// `token` is accepted the reset of its identifier begins, with the command
/// that sets the password; when it is not, nothing is run.
pub fn post_reset_at(config: &Config, token: &str, now: i64) -> (outcome: Result<
    (ResetExecution, ResetAction),
    Failure,
>)
    ensures
        match outcome {
            Ok((execution, action)) => {
                &&& verification(
                    config.sign.key@,
                    config.payload.oudate_secounds as int,
                    token@,
                    now as int,
                ) matches Ok(claim)
                &&& execution.id@ == claim.student_id
                &&& execution.phase == ResetPhase::SettingPassword
                &&& reset_asks(execution.phase, claim.student_id, action)
            },
            Err(failure) => verification(
                config.sign.key@,
                config.payload.oudate_secounds as int,
                token@,
                now as int,
            ) == Err::<Claim, Failure>(failure),
        },
{
    match parse_payload_at(&config.sign.key, config.payload.oudate_secounds, token, now) {
        Ok(request) => Ok(ResetExecution::begin(request.id.as_str())),
        Err(failure) => Err(failure),
    }
}

/// Answers the form of the confirmation page now.
pub fn post_reset_handler(config: &Config, token: &str) -> (outcome: Result<
    (ResetExecution, ResetAction),
    Failure,
>)
    ensures
        match outcome {
            Ok((execution, action)) => {
                &&& execution.phase == ResetPhase::SettingPassword
                &&& reset_asks(execution.phase, execution.id@, action)
                &&& exists|now: i64|
                    (#[trigger] verification(
                        config.sign.key@,
                        config.payload.oudate_secounds as int,
                        token@,
                        now as int,
                    )) matches Ok(claim) && claim.student_id == execution.id@
            },
            Err(failure) => exists|now: i64|
                (#[trigger] verification(
                    config.sign.key@,
                    config.payload.oudate_secounds as int,
                    token@,
                    now as int,
                )) == Err::<Claim, Failure>(failure),
        },
{
    let now = unix_now();
    let outcome = post_reset_at(config, token, now);
    proof {
        let v = verification(
            config.sign.key@,
            config.payload.oudate_secounds as int,
            token@,
            now as int,
        );
        if outcome is Ok {
            assert(v matches Ok(claim) && claim.student_id == outcome->Ok_0.0.id@);
        } else {
            assert(v == Err::<Claim, Failure>(outcome->Err_0));
        }
    }
    outcome
}

} // verus!
