//! Discovery protocol: registry of what the network announces, message framing and handling.
pub mod client;
pub mod keyed;
pub mod message;
pub mod registry;

pub use client::DiscoveryClient;
pub use registry::{PublisherInfo, ServiceInfo, TopicInfo};
