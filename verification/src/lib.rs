//! Small protocol cores and utilities, each with a machine-checked contract.

pub mod calc;
pub mod chat;
pub mod dns;
pub mod ftp;
pub mod game;
pub mod image;
pub mod keys;
pub mod reply;
pub mod smtp;
pub mod stats;
pub mod text;
pub mod words;
pub mod xor;
