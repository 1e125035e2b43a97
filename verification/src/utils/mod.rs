//! Tokens, credentials and the clock.

pub mod clock;
pub mod password;
pub mod token;
