//! Configuration for the mini-redis server: the spec a file parses into, the
//! rules that check it, and the runtime form it lowers to.

pub mod conf;
pub mod text;
pub mod runtime;
