//! The settings the service is started with.

use vstd::prelude::*;
use crate::codec::{base64url_decode, base64url_decoded, base64url_encode, base64url_encoded};
use crate::signature::random_seed;

verus! {

/// The 32 secret bytes from which the signing key pair is expanded.
#[derive(Clone, Copy)]
pub struct SigningSeed {
    pub bytes: [u8; 32],
}

impl View for SigningSeed {
    type V = Seq<u8>;

    open spec fn view(&self) -> Seq<u8> {
        self.bytes@
    }
}

/// All settings of the service.
#[derive(Clone)]
pub struct Config {
    pub mail: MailConfig,
    pub sign: SignConfig,
    pub payload: PayloadConfig,
    pub student: StudentConfig,
    pub server: ServerConfig,
    pub log: LogConfig,
}

/// The mailbox that is polled and the account that answers.
#[derive(Debug, Clone)]
pub struct MailConfig {
    pub domain: String,
    pub port: u16,
    pub user: String,
    pub password: String,
    pub directory: String,
    /// Seconds between two polls, counted from the end of a poll.
    pub check_duration: u64,
    /// Seconds to wait after each mail that was sent.
    pub send_duration: u64,
}

/// The key that tokens are signed with.
#[derive(Clone)]
pub struct SignConfig {
    pub key: SigningSeed,
}

/// How long a token is valid.
#[derive(Debug, Clone)]
pub struct PayloadConfig {
    /// The validity window of a token, in seconds.
    pub oudate_secounds: u64,
}

/// Where the members' home directories are, and how often they are read.
#[derive(Debug, Clone)]
pub struct StudentConfig {
    /// The directory whose children are the members' home directories.
    pub home_prefix: String,
    /// Seconds between two rebuilds of the registry.
    pub walk_duration: u64,
}

/// The address under which the service is reached from outside.
#[derive(Debug, Clone)]
pub struct ServerConfig {
    pub domain: String,
    pub port: u16,
}

/// Where the log files are written, and how they are named.
#[derive(Debug, Clone)]
pub struct LogConfig {
    pub path: String,
    pub prefix: String,
}

impl Default for MailConfig {
    fn default() -> (config: Self)
        ensures
            config.domain@.len() == 0,
            config.port == 0,
            config.user@.len() == 0,
            config.password@.len() == 0,
            config.directory@.len() == 0,
            config.check_duration == 0,
            config.send_duration == 0,
    {
        MailConfig {
            domain: String::new(),
            port: 0,
            user: String::new(),
            password: String::new(),
            directory: String::new(),
            check_duration: 0,
            send_duration: 0,
        }
    }
}

impl Default for SignConfig {
    /// A configuration with a freshly drawn key.
    fn default() -> (config: Self) {
        SignConfig { key: generate_signing_key() }
    }
}

impl Default for PayloadConfig {
    fn default() -> (config: Self)
        ensures
            config.oudate_secounds == 0,
    {
        PayloadConfig { oudate_secounds: 0 }
    }
}

impl Default for StudentConfig {
    fn default() -> (config: Self)
        ensures
            config.home_prefix@.len() == 0,
            config.walk_duration == 0,
    {
        StudentConfig { home_prefix: String::new(), walk_duration: 0 }
    }
}

impl Default for ServerConfig {
    fn default() -> (config: Self)
        ensures
            config.domain@.len() == 0,
            config.port == 0,
    {
        ServerConfig { domain: String::new(), port: 0 }
    }
}

impl Default for LogConfig {
    fn default() -> (config: Self)
        ensures
            config.path@.len() == 0,
            config.prefix@.len() == 0,
    {
        LogConfig { path: String::new(), prefix: String::new() }
    }
}

impl Default for Config {
    /// Empty settings, a window of zero seconds and a freshly drawn key.
    fn default() -> (config: Self)
        ensures
            config.mail.domain@.len() == 0,
            config.mail.port == 0,
            config.mail.user@.len() == 0,
            config.mail.password@.len() == 0,
            config.mail.directory@.len() == 0,
            config.mail.check_duration == 0,
            config.mail.send_duration == 0,
            config.payload.oudate_secounds == 0,
            config.student.home_prefix@.len() == 0,
            config.student.walk_duration == 0,
            config.server.domain@.len() == 0,
            config.server.port == 0,
            config.log.path@.len() == 0,
            config.log.prefix@.len() == 0,
    {
        Config {
            mail: MailConfig::default(),
            sign: SignConfig::default(),
            payload: PayloadConfig::default(),
            student: StudentConfig::default(),
            server: ServerConfig::default(),
            log: LogConfig::default(),
        }
    }
}

/// What the seed is when `text` is read as a configured key: the text must be
/// URL-safe base64 of exactly 32 bytes.
pub open spec fn seed_of_text(text: Seq<char>) -> Option<Seq<u8>> {
    match base64url_decoded(text) {
        Some(bytes) => if bytes.len() == 32 {
            Some(bytes)
        } else {
            None
        },
        None => None,
    }
}

/// Checks the length of decoded key material and copies it into a seed.
pub fn seed_from_bytes(bytes: &[u8]) -> (seed: Option<SigningSeed>)
    ensures
        match seed {
            Some(s) => bytes@.len() == 32 && s@ == bytes@,
            None => bytes@.len() != 32,
        },
{
    if bytes.len() != 32 {
        return None;
    }
    let mut copy = [0u8; 32];
    let mut i: usize = 0;
    while i < 32
        invariant
            i <= 32,
            bytes@.len() == 32,
            copy@.len() == 32,
            forall|j: int| 0 <= j < i ==> copy@[j] == bytes@[j],
        decreases 32 - i,
    {
        copy[i] = bytes[i];
        i += 1;
    }
    assert(copy@ =~= bytes@);
    Some(SigningSeed { bytes: copy })
}

/// Reads the signing key from its configured form, URL-safe base64 of the
/// 32-byte seed.
pub fn deserialize_signing_key(text: &str) -> (seed: Option<SigningSeed>)
    ensures
        match seed {
            Some(s) => seed_of_text(text@) == Some(s@),
            None => seed_of_text(text@) is None,
        },
{
    match base64url_decode(text) {
        Some(bytes) => seed_from_bytes(bytes.as_slice()),
        None => None,
    }
}

/// Writes the signing key in its configured form. Reading the text back
/// gives the same key.
pub fn serialize_signing_key(seed: &SigningSeed) -> (text: String)
    ensures
        text@ == base64url_encoded(seed@),
        seed_of_text(text@) == Some(seed@),
{
    base64url_encode(seed.bytes.as_slice())
}

/// Draws a fresh signing key.
pub fn generate_signing_key() -> (seed: SigningSeed) {
    SigningSeed { bytes: random_seed() }
}

} // verus!
