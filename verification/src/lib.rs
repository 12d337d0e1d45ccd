//! An in-process message broker: typed messages are routed to the handler
//! registered for their type and then offered to every enabled backend.
//!
//! The crate holds the decisions of the broker: which handler a message
//! reaches, in which order the backends are tried, how failures are
//! aggregated, how a configuration is read, and how the process-wide instance
//! is created once. Waiting on a handler or a backend is left to the caller,
//! who performs each step the broker asks for and reports its outcome.

pub mod broker;
pub mod config;
pub mod dispatch;
pub mod error;
pub mod holder;
pub mod message;
pub mod registry;
pub mod text;

pub use broker::Broker;
pub use config::{BackendKind, Config, LogRotation};
pub use dispatch::{Action, Backend, Dispatch};
pub use error::{BrokerError, ErrorKind};
pub use holder::{Access, Holder};
pub use message::{JsonMessage, Message, TextMessage, TypeKey};
pub use registry::Registry;
