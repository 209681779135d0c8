//! Semantic rules, kept apart from the types they check.
//!
//! `validator` holds reusable leaf checks. `server` holds the rules of the
//! server spec.

pub mod server;
pub mod validator;
