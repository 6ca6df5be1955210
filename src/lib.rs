//! Verified core of a Matrix application-service bridge: the authenticating
//! reverse proxy that re-authorises every call of the virtual clients, the
//! registry of virtual clients, identity records and configuration.

/// Errors of the library
pub mod error;
/// Text searches used on configuration values
pub mod text;
/// URLs as the components that the proxy reads and rewrites
pub mod url_parts;
/// HTTP header fields and their lookup
pub mod headers;
/// Identity records and secret generation
pub mod user;
/// The TLS identity of the internal proxy
pub mod tls;
/// Names of the record store's collections
pub mod store;
/// The authenticating reverse proxy
pub mod proxy;
/// The cache of virtual clients
pub mod registry;
/// Planning the construction of a virtual client
pub mod virtual_client;
/// Configuration and the registration document
pub mod config;
/// Kinds of events sent by the homeserver
pub mod event;
