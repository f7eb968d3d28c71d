//! The bot's interaction handlers: one module per command or control, plus
//! the registry and dispatcher that route inbound events to them.

pub mod allroles;
pub mod colors;
pub mod endhost;
pub mod help;
pub mod hostgame;
pub mod interaction_handler;
pub mod ip;
pub mod ping;
pub mod prelude;
pub mod roles;
pub mod status;
