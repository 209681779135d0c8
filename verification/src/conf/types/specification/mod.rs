pub mod client_spec;
pub mod server;
pub mod server_spec;
