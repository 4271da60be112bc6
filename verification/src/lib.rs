pub mod layout;
pub mod text;
pub mod telemetry;
pub mod agent;
pub mod store;
pub mod archive;
pub mod config;
pub mod detect;
pub mod probe;
pub mod server;
