//! Core of a remote file-browser backend: the error taxonomy, the path jail,
//! the binary wire envelope, the session registry, the file-event debouncer,
//! the per-connection state machine and the auth-token cache protocol.

pub mod error;
pub mod paths;
pub mod registry;
pub mod wire;
pub mod files;
pub mod auth;
pub mod user;
pub mod debounce;
pub mod session;
