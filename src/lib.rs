//! A small fleet command-and-control layer: a registry that identifies
//! machines, agents that run commands in throw-away workspaces, and a
//! dispatcher that sends a command to one agent and keeps an audit record.
pub mod text;
pub mod types;
pub mod identity;
pub mod registry;
pub mod store;
pub mod agent;
pub mod execution;
pub mod dispatcher;
pub mod api;
pub mod pem;

pub use types::{
    ApiConfig, ClientConfig, ClientInfo, DispatchConfig, DispatchFile, DispatchFileMetadata, DispatchMessage,
    RegistrationConfig,
};
