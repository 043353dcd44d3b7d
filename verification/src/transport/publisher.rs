//! Publisher frames, in Gazebo's wire format:
//! frame 0 the topic FQN, frame 1 the sender address, frame 2 the protobuf bytes,
//! frame 3 the message type name.
use vstd::prelude::*;
use vstd::string::*;
use vstd::slice::slice_to_vec;
use vstd::utf8::encode_utf8;
use crate::partition::{fq_name, fully_qualified_name};

verus! {

/// A bound publisher endpoint: where it is bound, what topic and type it publishes.
#[derive(Debug)]
pub struct Publisher {
    address: String,
    topic: String,
    msg_type: String,
}

impl Publisher {
    /// The bound address.
    pub closed spec fn address_text(&self) -> Seq<char> {
        self.address@
    }

    /// The short topic name.
    pub closed spec fn topic_text(&self) -> Seq<char> {
        self.topic@
    }

    /// The message type name.
    pub closed spec fn msg_type_text(&self) -> Seq<char> {
        self.msg_type@
    }

    /// A publisher bound at `address` for `topic` and `msg_type`.
    pub fn from_endpoint(address: &str, topic: &str, msg_type: &str) -> (r: Publisher)
        ensures
            r.address_text() == address@,
            r.topic_text() == topic@,
            r.msg_type_text() == msg_type@,
    {
        Publisher { address: address.to_owned(), topic: topic.to_owned(), msg_type: msg_type.to_owned() }
    }

    /// The TCP address the PUB socket is bound to.
    pub fn address(&self) -> (r: &str)
        ensures
            r@ == self.address_text(),
    {
        self.address.as_str()
    }

    /// The short topic name.
    pub fn topic(&self) -> (r: &str)
        ensures
            r@ == self.topic_text(),
    {
        self.topic.as_str()
    }

    /// The protobuf message type name.
    pub fn msg_type(&self) -> (r: &str)
        ensures
            r@ == self.msg_type_text(),
    {
        self.msg_type.as_str()
    }

    /// The four frames that publish `data` on `partition`.
    pub fn publish_frames(&self, partition: &str, data: &[u8]) -> (r: Vec<Vec<u8>>)
        ensures
            r@.len() == 4,
            r@[0]@ == encode_utf8(fq_name(partition@, Seq::empty(), self.topic_text())),
            r@[1]@ == encode_utf8(self.address_text()),
            r@[2]@ == data@,
            r@[3]@ == encode_utf8(self.msg_type_text()),
    {
        proof {
            reveal_strlit("");
        }
        let fqn = fully_qualified_name(partition, "", self.topic.as_str());
        let mut frames: Vec<Vec<u8>> = Vec::new();
        frames.push(fqn.as_str().as_bytes_vec());
        frames.push(self.address.as_str().as_bytes_vec());
        frames.push(slice_to_vec(data));
        frames.push(self.msg_type.as_str().as_bytes_vec());
        frames
    }
}

} // verus!
