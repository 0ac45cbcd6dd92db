//! The data model of the remote service and the resolution of references
//! against it.

pub mod candidate;
pub mod client;
pub mod matcher;
pub mod render;
pub mod resolve;
pub mod types;
