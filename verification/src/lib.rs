//! IndieAuth authentication core for a micropub command-line client.
//!
//! The library covers endpoint discovery, PKCE parameter generation, the
//! callback-result protocol, the authentication flow state machine, the
//! code-for-token exchange handling and token validation, together with the
//! configuration profiles and the small pure helpers the surrounding
//! command-line program relies on.

pub mod callback;
pub mod chars;
pub mod client;
pub mod config;
pub mod discovery;
pub mod domain;
pub mod flow;
pub mod mcp;
pub mod media;
pub mod numbers;
pub mod operations;
pub mod pkce;
pub mod push;
pub mod scope;
pub mod urlenc;
pub mod textparse;
pub mod tui;
pub mod validation;

pub use scope::validate_scope;
