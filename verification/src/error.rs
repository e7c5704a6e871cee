use vstd::prelude::*;

verus! {

/// Everything that can go wrong while a reset request is handled.
#[derive(Clone, Copy, Debug, PartialEq, Eq, Structural)]
pub enum Failure {
    /// A token could not be decoded.
    MalformedToken,
    /// The signature of a token does not belong to its request.
    TamperedToken,
    /// A token is older than the validity window.
    ExpiredToken,
    /// The sender of a request is not the address registered for the identifier.
    AuthorizationMismatch,
    /// The mail server could not be reached, or refused an operation.
    MailTransportError,
    /// One home directory could not be read while the registry was rebuilt.
    FilesystemWalkError,
    /// The operating system refused a password change.
    OSResetError,
}

impl Failure {
    /// Whether this failure is one that token verification reports.
    pub open spec fn is_token_failure(self) -> bool {
        self == Failure::MalformedToken || self == Failure::TamperedToken || self
            == Failure::ExpiredToken
    }

    /// The description of the failure in logs and on error pages.
    pub open spec fn description(self) -> Seq<char> {
        match self {
            Failure::MalformedToken => "payload is malformed"@,
            Failure::TamperedToken => "payload signature is invalid"@,
            Failure::ExpiredToken => "payload is outdated"@,
            Failure::AuthorizationMismatch => "sender is not the registered address"@,
            Failure::MailTransportError => "mail transport failed"@,
            Failure::FilesystemWalkError => "home directory could not be read"@,
            Failure::OSResetError => "password could not be reset"@,
        }
    }

    /// Writes the description of the failure.
    pub fn message(&self) -> (text: String)
        ensures
            text@ == self.description(),
    {
        match self {
            Failure::MalformedToken => String::from_str("payload is malformed"),
            Failure::TamperedToken => String::from_str("payload signature is invalid"),
            Failure::ExpiredToken => String::from_str("payload is outdated"),
            Failure::AuthorizationMismatch => String::from_str(
                "sender is not the registered address",
            ),
            Failure::MailTransportError => String::from_str("mail transport failed"),
            Failure::FilesystemWalkError => String::from_str("home directory could not be read"),
            Failure::OSResetError => String::from_str("password could not be reset"),
        }
    }
}

} // verus!
