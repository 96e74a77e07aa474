//! Server side of an agent-to-agent task exchange: the registry of tasks
//! with its rules for changing them, the JSON-RPC requests that drive it,
//! and the form of everything on the wire.

pub mod agent;
pub mod channel;
pub mod client;
pub mod error;
pub mod json;
pub mod server;
pub mod store;
pub mod time;
pub mod types;
pub mod wire;

pub use error::{A2AError, A2AResult};
