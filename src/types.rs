//! The records that the registry, the agent and the dispatcher exchange,
//! and the configuration each role starts from.
use vstd::prelude::*;

use crate::text::{copy_bytes, copy_optional_text, opt_text};

verus! {

/// What one machine reports about itself, and what the registry stores.
#[derive(Debug, Clone, PartialEq, Eq)]
pub struct ClientInfo {
    pub uuid: String,
    pub hostname: Option<String>,
    pub ip: String,
    pub mac_address: Option<String>,
}

/// The abstract content of a [`ClientInfo`].
pub struct IdentityView {
    pub uuid: Seq<char>,
    pub hostname: Option<Seq<char>>,
    pub ip: Seq<char>,
    pub mac_address: Option<Seq<char>>,
}

impl View for ClientInfo {
    type V = IdentityView;

    open spec fn view(&self) -> IdentityView {
        IdentityView {
            uuid: self.uuid@,
            hostname: opt_text(self.hostname),
            ip: self.ip@,
            mac_address: opt_text(self.mac_address),
        }
    }
}

impl ClientInfo {
    /// A field-by-field copy.
    pub fn duplicate(&self) -> (r: ClientInfo)
        ensures
            r@ == self@,
    {
        ClientInfo {
            uuid: self.uuid.clone(),
            hostname: copy_optional_text(&self.hostname),
            ip: self.ip.clone(),
            mac_address: copy_optional_text(&self.mac_address),
        }
    }
}

/// Settings of an agent.
#[derive(Debug, Clone)]
pub struct ClientConfig {
    pub registration_server: String,
    pub use_tls_for_registration: bool,
    pub listen_port: u16,
    pub use_tls_for_listen: bool,
    pub cert_path: String,
    pub key_path: String,
    pub log_file_path: String,
    pub log_level: String,
    pub workspace_dir: Option<String>,
    pub database_url: String,
}

/// Settings of the dispatcher.
#[derive(Debug, Clone)]
pub struct DispatchConfig {
    pub database_url: String,
    pub client_connect_port: u16,
    pub use_tls: bool,
    pub cert_path: String,
    pub key_path: String,
}

/// Settings of the registry.
#[derive(Debug, Clone)]
pub struct RegistrationConfig {
    pub database_url: String,
    pub listen_address: String,
    pub use_tls: bool,
    pub cert_path: String,
    pub key_path: String,
    pub log_level: String,
}

/// Settings of the HTTP front end.
#[derive(Debug, Clone)]
pub struct ApiConfig {
    pub listen_address: String,
    pub dispatch_binary_path: Option<String>,
    pub use_tls: bool,
    pub cert_path: String,
    pub key_path: String,
    pub database_url: String,
    pub log_level: String,
}

/// A command, with the files it needs, sent from the dispatcher to one agent.
#[derive(Debug, Clone, PartialEq, Eq)]
pub struct DispatchMessage {
    pub command: String,
    pub files: Vec<DispatchFile>,
}

/// One file attached to a [`DispatchMessage`].
#[derive(Debug, Clone, PartialEq, Eq)]
pub struct DispatchFile {
    pub name: String,
    pub content: Vec<u8>,
}

/// What the audit record keeps of an attached file: its name, never its content.
#[derive(Debug, Clone, PartialEq, Eq)]
pub struct DispatchFileMetadata {
    pub name: String,
}

impl DispatchFile {
    /// A copy of the name and the content.
    pub fn duplicate(&self) -> (r: DispatchFile)
        ensures
            r.name@ == self.name@,
            r.content@ == self.content@,
    {
        DispatchFile { name: self.name.clone(), content: copy_bytes(&self.content) }
    }
}

} // verus!
