//! Core of a chat-platform session bot: a name-keyed registry of interaction
//! handlers, a single-slot store for the one active scheduled session with its
//! RSVP roster, and the timer state machine that drives the session's
//! checkpoints. Transport, configuration I/O and rendering live outside this
//! crate; every decision the bot makes is specified and verified here.

pub mod clock;
pub mod commands;
pub mod config;
pub mod embed;
pub mod scheduler;
pub mod session;
pub mod text;
