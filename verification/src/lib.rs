//! A text-to-speech keyboard client: every line typed is sent to a Mimic 3
//! speech service and the clip that comes back is played to its end before
//! the next line is read.
//!
//! The crate holds the decisions of that client: how a voice identifier is
//! encoded, what request is sent for a line, what is done with each answer of
//! the service and of the audio device, and which line ends the session.

pub mod config;
pub mod encoding;
pub mod processor;
pub mod query;
pub mod request;
pub mod session;
