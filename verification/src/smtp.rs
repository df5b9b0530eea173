//! The session of a mail-transfer server: one accepted connection carried
//! through greeting, envelope, body and hand-off.

pub mod command;
pub mod driver;
pub mod envelope;
pub mod laws;
pub mod reply;
pub mod session;
