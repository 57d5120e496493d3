//! Rules of a small lending library service: accounts and sessions, the
//! catalogue, loans and renewal requests.

pub mod account;
pub mod catalog;
pub mod config;
pub mod credential;
pub mod laws;
pub mod lending;
pub mod model;
pub mod reply;
pub mod session;
pub mod step;
pub mod text;
pub mod time;
