//! Verified core of the PT-Depiler command line bridge: the message
//! protocol, the request router of the native host, instance discovery and
//! the decisions of the host and CLI commands.

pub mod protocol;
pub mod router;
pub mod text;
pub mod client;
pub mod daemon;
pub mod framing;
pub mod discovery;
pub mod registry;
pub mod commands;
