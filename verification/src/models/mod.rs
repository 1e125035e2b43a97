//! The data that requests, answers and the user store carry.

pub mod request;
pub mod response;
pub mod user;
