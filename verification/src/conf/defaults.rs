//! The value each setting takes when the configuration file omits it.
//!
//! Each constant is declared once here and read from both sides: the parser
//! fills it for an omitted field, and the library's default spec holds it, so
//! the value the parser fills and the value a caller gets without a file
//! cannot drift apart.

use vstd::prelude::*;

verus! {

/// The loopback interface, which keeps a server started without a
/// configuration file off the network.
pub const BIND_ADDRESS: &'static str = "127.0.0.1";

/// The port redis listens on by convention.
pub const PORT: i64 = 6379i64;

/// The verbosity `RUST_LOG` overrides when it is set.
pub const LOG_LEVEL: &'static str = "info";

/// The number of concurrent connections the listener accepts before it waits
/// for one to terminate.
///
/// This is set low to discourage running mini-redis in production.
pub const MAX_CONNECTIONS: i64 = 250i64;

/// The wait after the first failed accept, in seconds.
pub const INITIAL_BACKOFF_SECONDS: i64 = 1i64;

/// The longest the accept loop waits between retries before it gives up.
pub const MAX_BACKOFF_SECONDS: i64 = 64i64;

} // verus!
