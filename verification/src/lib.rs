//! Configuration, token and login rules of a small dashboard web service.
//!
//! The library decides; the surrounding service (HTTP, files, JWT encoding)
//! performs the effects and hands plain values back and forth.

pub mod config;
pub mod token;
pub mod login;
pub mod password_hash;
pub mod state;
