//! Error type for gz-transport operations.
use vstd::prelude::*;

verus! {

/// Error type for gz-transport operations.
///
/// Variants that carry a value of another crate elsewhere (a ZeroMQ error
/// code, a protobuf or I/O failure, a duration) carry it here as a plain value:
/// the errno of the ZeroMQ error, the failure's text, a number of milliseconds.
#[derive(Debug)]
pub enum Error {
    /// Topic discovery timed out.
    DiscoveryTimeout {
        /// The topic that was not found.
        topic: String,
    },
    /// Topic not found in discovery.
    TopicNotFound(String),
    /// Service not found in discovery.
    ServiceNotFound(String),
    /// No publishers available for topic.
    NoPublishers(String),
    /// Connection to endpoint failed.
    ConnectionFailed {
        /// The address that failed.
        address: String,
        /// Error description.
        message: String,
    },
    /// ZeroMQ error, by its errno value.
    Zmq(i32),
    /// Socket closed unexpectedly.
    Disconnected,
    /// Failed to bind socket.
    BindFailed(String),
    /// Invalid frame: fewer bytes or frames than announced.
    InvalidFrame {
        /// Expected count.
        expected: usize,
        /// Actual count.
        actual: usize,
    },
    /// Message too large for frame encoding.
    MessageTooLarge {
        /// Actual message size.
        size: usize,
        /// Maximum allowed size.
        max: usize,
    },
    /// Protobuf decode error, by its description.
    Decode(String),
    /// Protobuf encode error, by its description.
    Encode(String),
    /// Invalid topic name.
    InvalidTopicName {
        /// Why the topic name is invalid.
        reason: String,
    },
    /// Invalid partition name.
    InvalidPartition {
        /// Why the partition name is invalid.
        reason: String,
    },
    /// Service call returned failure.
    ServiceCallFailed(String),
    /// Service call timed out after the given number of milliseconds.
    ServiceTimeout(u64),
    /// Service response correlation failed.
    ResponseMismatch,
    /// IO error, by its description.
    Io(String),
    /// Channel send error.
    ChannelClosed,
}

/// Result type for gz-transport operations.
pub type Result<T> = core::result::Result<T, Error>;

} // verus!
