//! The two stores that the service leans on, seen from the service: what
//! it asks of them, and what their answers mean.

pub mod ledger;
pub mod repository;
