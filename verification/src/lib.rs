//! Bearer-token authentication with server-side session revocation.
//!
//! A signed token can be checked without asking anyone, and for that very
//! reason cannot be taken back. This library keeps the cheap check and
//! adds the two things that take a token back: a revocation ledger, in
//! which a logout records its token until the token would have expired,
//! and a session version per user, which every login raises, so that the
//! tokens of earlier sessions no longer match.
//!
//! The library decides; it sends nothing. Where a decision needs the
//! answer of a store, the function that asks returns the request, and the
//! function that goes on takes the answer. [`auth::session`] states what
//! the steps come to when they are run against stores that do what they
//! are asked.

pub mod auth;
pub mod config;
pub mod constants;
pub mod database;
pub mod errors;
pub mod handlers;
pub mod models;
pub mod text;
pub mod utils;
pub mod views;
