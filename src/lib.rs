//! A chat bot's decision logic: command routing, the live-status check of a
//! streaming channel, reply formatting and the single-start guard of the
//! periodic load report. Network and host access live outside this crate;
//! they hand plain values in and carry the decided actions out.
pub mod command;
pub mod laws;
pub mod reply;
pub mod reporter;
pub mod status;
pub mod text;
