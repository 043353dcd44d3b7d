//! ZeroMQ transport: the frames that publishers, subscribers and service clients
//! send and read.
pub mod publisher;
pub mod service;
pub mod subscriber;

pub use publisher::Publisher;
pub use service::ServiceClient;
pub use subscriber::MessageMeta;
