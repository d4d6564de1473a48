//! Core of a terminal chat client: the interaction state machine, the bounded
//! message history and the layout of the message table.

pub mod app;
pub mod clock;
pub mod config;
pub mod layout;
pub mod lemmas;
pub mod message;
pub mod text;
