//! Request handling for a local note-keeping and media-download control
//! service, written so that every decision is a function from plain values
//! to plain values. The caller performs the file, process and network work
//! that the functions here ask for and hands the outcomes back.

pub mod config;
pub mod dates;
pub mod dispatch;
pub mod effects;
pub mod http;
pub mod notes;
pub mod protocol;
pub mod query;
pub mod runs;
pub mod shell;
pub mod startup;
pub mod text;
pub mod tls;
pub mod tools;
