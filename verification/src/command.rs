//! Resetting a password: what is handed to the operating system, and in
//! which order.
//!
//! A reset is two commands. The first sets the password that is derived from
//! the identifier; the second marks that password as expired, so that the
//! member has to choose a new one at the next login. The second is run only
//! when the first has succeeded. When either fails the reset has failed, and
//! what the first has done is not undone.

use vstd::prelude::*;
use crate::error::Failure;

verus! {

/// The password that a reset gives to the account `id`.
pub open spec fn derived_password(id: Seq<char>) -> Seq<char> {
    "bupt"@ + id
}

/// The line that sets the derived password, as `chpasswd` reads it: account,
/// colon, password, line feed.
pub open spec fn password_line(id: Seq<char>) -> Seq<char> {
    id + ":"@ + derived_password(id) + "\n"@
}

/// The arguments with which `passwd` marks the password of `id` as expired.
pub open spec fn expire_arguments(id: Seq<char>) -> Seq<Seq<char>> {
    seq!["-e"@, id]
}

/// Writes the password that a reset gives to the account `id`.
pub fn derived_password_of(id: &str) -> (password: String)
    ensures
        password@ == derived_password(id@),
{
    let mut password = String::from_str("bupt");
    password.append(id);
    password
}

/// Writes the line that sets the derived password of `id`.
pub fn password_line_of(id: &str) -> (line: String)
    ensures
        line@ == password_line(id@),
{
    let mut line = String::from_str(id);
    line.append(":");
    line.append(derived_password_of(id).as_str());
    line.append("\n");
    line
}

/// Lists the arguments that mark the password of `id` as expired.
pub fn expire_arguments_of(id: &str) -> (arguments: Vec<String>)
    ensures
        arguments@.map_values(|a: String| a@) == expire_arguments(id@),
{
    let mut arguments: Vec<String> = Vec::new();
    arguments.push(String::from_str("-e"));
    arguments.push(String::from_str(id));
    assert(arguments@.map_values(|a: String| a@) =~= expire_arguments(id@));
    arguments
}

/// Where a reset stands.
#[derive(Clone, Copy, Debug, PartialEq, Eq, Structural)]
pub enum ResetPhase {
    /// The password is being set.
    SettingPassword,
    /// The password has been set and is being marked as expired.
    ExpiringPassword,
    /// Both commands have succeeded.
    Done,
    /// One of the commands has failed.
    Failed,
}

/// What to do next for a reset.
pub enum ResetAction {
    /// Run `chpasswd` and write this line to it.
    SetPassword(String),
    /// Run `passwd` with these arguments.
    ExpirePassword(Vec<String>),
    /// The reset is done.
    Finish,
    /// The reset has failed.
    Fail(Failure),
}

/// The reset of one account.
pub struct ResetExecution {
    pub phase: ResetPhase,
    pub id: String,
}

/// The phase after a command has ended, `succeeded` or not.
pub open spec fn reset_step(phase: ResetPhase, succeeded: bool) -> ResetPhase {
    match phase {
        ResetPhase::SettingPassword => if succeeded {
            ResetPhase::ExpiringPassword
        } else {
            ResetPhase::Failed
        },
        ResetPhase::ExpiringPassword => if succeeded {
            ResetPhase::Done
        } else {
            ResetPhase::Failed
        },
        ResetPhase::Done => ResetPhase::Done,
        ResetPhase::Failed => ResetPhase::Failed,
    }
}

/// Whether `action` is what a reset of `id` in the phase `phase` asks for.
pub open spec fn reset_asks(phase: ResetPhase, id: Seq<char>, action: ResetAction) -> bool {
    match phase {
        ResetPhase::SettingPassword => action matches ResetAction::SetPassword(line) && line@
            == password_line(id),
        ResetPhase::ExpiringPassword => action matches ResetAction::ExpirePassword(arguments)
            && arguments@.map_values(|a: String| a@) == expire_arguments(id),
        ResetPhase::Done => action is Finish,
        ResetPhase::Failed => action matches ResetAction::Fail(failure) && failure
            == Failure::OSResetError,
    }
}

impl ResetExecution {
    /// Begins the reset of the account `id`: the password is set first.
    pub fn begin(id: &str) -> (begun: (ResetExecution, ResetAction))
        ensures
            begun.0.phase == ResetPhase::SettingPassword,
            begun.0.id@ == id@,
            reset_asks(begun.0.phase, id@, begun.1),
    {
        let execution = ResetExecution {
            phase: ResetPhase::SettingPassword,
            id: String::from_str(id),
        };
        (execution, ResetAction::SetPassword(password_line_of(id)))
    }

    /// Takes the outcome of the command that was asked for and says what to
    /// do next.
    pub fn advance(self, succeeded: bool) -> (next: (ResetExecution, ResetAction))
        ensures
            next.0.phase == reset_step(self.phase, succeeded),
            next.0.id@ == self.id@,
            reset_asks(next.0.phase, self.id@, next.1),
    {
        let phase = match self.phase {
            ResetPhase::SettingPassword => if succeeded {
                ResetPhase::ExpiringPassword
            } else {
                ResetPhase::Failed
            },
            ResetPhase::ExpiringPassword => if succeeded {
                ResetPhase::Done
            } else {
                ResetPhase::Failed
            },
            ResetPhase::Done => ResetPhase::Done,
            ResetPhase::Failed => ResetPhase::Failed,
        };
        let action = match phase {
            ResetPhase::SettingPassword => ResetAction::SetPassword(
                password_line_of(self.id.as_str()),
            ),
            ResetPhase::ExpiringPassword => ResetAction::ExpirePassword(
                expire_arguments_of(self.id.as_str()),
            ),
            ResetPhase::Done => ResetAction::Finish,
            ResetPhase::Failed => ResetAction::Fail(Failure::OSResetError),
        };
        (ResetExecution { phase, id: self.id }, action)
    }
}

/// The password is marked as expired only after it has been set: a reset is
/// in the phase `ExpiringPassword` only when the command before it was the
/// one that sets the password, and it succeeded.
pub proof fn lemma_expiry_follows_success(phase: ResetPhase, succeeded: bool)
    ensures
        reset_step(phase, succeeded) == ResetPhase::ExpiringPassword <==> (phase
            == ResetPhase::SettingPassword && succeeded),
        reset_step(phase, succeeded) == ResetPhase::Done <==> (phase == ResetPhase::Done || (phase
            == ResetPhase::ExpiringPassword && succeeded)),
        !succeeded && phase != ResetPhase::Done ==> reset_step(phase, succeeded)
            == ResetPhase::Failed,
{
}

} // verus!
