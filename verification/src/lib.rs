//! Shared protocol and data model of the OpenIoT platform, with the decision
//! logic of its server and desktop client.

pub mod protocol;
pub mod types;
pub mod server;
pub mod client;
