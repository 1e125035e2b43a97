//! What each endpoint decides.
//!
//! An endpoint asks the stores in turn and decides in between. Each
//! function here is one of those decisions: it takes what is known so far,
//! the answer of a store included, and gives the next request to send, or
//! the reply. Sending and waiting are the caller's part.

pub mod admin;
pub mod auth;
pub mod health;
pub mod steps;
pub mod user;
