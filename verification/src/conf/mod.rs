//! Configuration for the mini-redis server.
//!
//! A configuration file moves through four phases. Parsing produces the spec,
//! where every leaf keeps the span it came from. Validation fills a report with
//! every problem in one pass. A report that holds an error stops the load
//! there. Lowering produces the runtime types the server runs on.
//!
//! The layers are separate. `types::specification` holds the parsed shape,
//! `validation` holds the rules, and `types::runtime` holds the resolved form.

pub mod address;
pub mod constraints;
pub mod defaults;
pub mod diagnostic;
pub mod diff;
pub mod laws;
pub mod loader;
pub mod overrides;
pub mod resolve;
pub mod spanned;
pub mod types;
pub mod validation;

pub use address::{IpAddress, SocketAddress};
pub use diff::{classify_config_change, ConfigChange};
pub use loader::{defaults, invalid, load_parsed, LoadError};
pub use overrides::{resolve_config, ConfigOverrides};
pub use resolve::{lower_config, load_config, ResolvedConfig};
pub use spanned::Spanned;
pub use types::runtime::client_config::ClientConfig;
pub use types::runtime::server::{BackoffConfig, ServerConfig};
pub use types::specification::client_spec::ClientSpec;
pub use types::specification::server::{BackoffSpec, LogLevel, ServerSpec};
