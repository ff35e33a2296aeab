//! A typed client for a remote learning-management REST API.
//!
//! The crate models the client's state (base URL, client-identifier string,
//! session token), builds the requests the service understands, and decodes
//! the JSON payloads it answers with. All transport (HTTP, prompts, files)
//! is left to the embedding program; the library works on plain values.

pub mod text;
pub mod url;
pub mod json;
pub mod model;
pub mod decode;
pub mod codec;
pub mod client;
pub mod config;
