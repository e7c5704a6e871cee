//! Self-service password resets for the members of a lab.
//!
//! A member mails a reset request from the address registered for them. The
//! request is checked against the identity registry, answered with a signed,
//! time-bounded capability token, and the token, presented back, authorises
//! the password reset. This crate holds the rules of that protocol: the token
//! format and its verification, the registry and its rebuilding, the parsing
//! and authorisation of mail requests, and the step functions of the
//! background workers. Sockets, files and processes stay with the caller:
//! the workers say what is to be done next, and are told what came of it.

pub mod error;
pub mod config;
pub mod codec;
pub mod signature;
pub mod clock;
pub mod payload;
pub mod text;
pub mod mail;
pub mod student;
pub mod command;
pub mod server;
pub mod client;
