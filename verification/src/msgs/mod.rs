//! Gazebo discovery messages, as the library reads and builds them.
//!
//! The protobuf encoding of these messages is done where they are sent and received;
//! here they are plain values.
use vstd::prelude::*;

pub mod discovery;

verus! {

/// A discovery message: who sends it, what kind it is and what it is about.
#[derive(Debug)]
pub struct Discovery {
    /// Protocol wire version.
    pub version: u32,
    /// Process UUID of the sender.
    pub process_uuid: String,
    /// Message kind, as its wire value (see [`discovery::Type`]).
    pub kind: i32,
    /// What the message is about.
    pub disc_contents: Option<discovery::DiscContents>,
}

} // verus!
