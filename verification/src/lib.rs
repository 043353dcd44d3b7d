//! # gz-transport
//!
//! The Gazebo Transport protocol: topic naming, the discovery registry and how
//! discovery messages change it, discovery frames, and the ZeroMQ frames of
//! publishers, subscribers and service calls.
use vstd::prelude::*;

pub mod config;
pub mod discovery;
pub mod error;
pub mod msgs;
pub mod node;
pub mod partition;
pub mod text;
pub mod transport;

pub use config::{Config, ConfigBuilder};
pub use discovery::registry::{PublisherInfo, Registry, ServiceInfo, TopicInfo};
pub use error::{Error, Result};
pub use transport::{MessageMeta, Publisher, ServiceClient};

verus! {

} // verus!
