//! Mail intake: what is read from the mailbox, and what is answered.

pub mod receive;
pub mod send;
pub mod worker;
