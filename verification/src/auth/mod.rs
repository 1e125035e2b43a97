//! Who a request comes from, and what they may do.
//!
//! Every protected request runs the same steps in the same order: read
//! the bearer token from the header, check its signature and expiry, ask
//! the revocation ledger, fetch the user, compare session versions. The
//! steps that ask a store are each split in two, the question and the
//! reading of the answer, so that whoever drives them may wait in between.

pub mod admin;
pub mod session;
pub mod user;
