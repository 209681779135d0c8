pub mod client_config;
pub mod server;
pub mod server_config;
