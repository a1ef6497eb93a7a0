//! Protocol core of a small FTP server: the control-channel state machine,
//! the data-channel session record and the path guard that keeps every
//! request inside the served directory. Sockets and the file system stay
//! with the caller, which performs the actions this crate decides on and
//! reports back what happened.

pub mod arg_parser;
pub mod commands;
pub mod ftp;
pub mod laws;
pub mod listing;
pub mod path;
pub mod protocol;
pub mod reply;
pub mod resume;
pub mod server;
pub mod session;
pub mod text;
pub mod transfer;
pub mod user;
