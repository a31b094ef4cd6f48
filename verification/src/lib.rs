//! Session coordination for a two-player guessing game: a registry that
//! seats players in sessions, and the decisions taken on each event that a
//! connection sends.

pub mod catalog;
pub mod clock;
pub mod connection;
pub mod coordinator;
pub mod laws;
pub mod lobby;
pub mod message;
pub mod model;
pub mod signal;
