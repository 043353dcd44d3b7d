//! Parts of a discovery message.
use vstd::prelude::*;

verus! {

/// Kind of a discovery message.
#[derive(Debug, Clone, Copy, PartialEq, Eq)]
pub enum Type {
    Uninitialized,
    Advertise,
    Subscribe,
    Unadvertise,
    Heartbeat,
    Bye,
    NewConnection,
    EndConnection,
}

impl Type {
    /// The wire value of a kind.
    pub open spec fn wire(self) -> i32 {
        match self {
            Type::Uninitialized => 0,
            Type::Advertise => 1,
            Type::Subscribe => 2,
            Type::Unadvertise => 3,
            Type::Heartbeat => 4,
            Type::Bye => 5,
            Type::NewConnection => 6,
            Type::EndConnection => 7,
        }
    }

    /// The kind of a wire value; an unknown value reads as `Uninitialized`.
    pub open spec fn of_wire(v: i32) -> Type {
        if v == 1 {
            Type::Advertise
        } else if v == 2 {
            Type::Subscribe
        } else if v == 3 {
            Type::Unadvertise
        } else if v == 4 {
            Type::Heartbeat
        } else if v == 5 {
            Type::Bye
        } else if v == 6 {
            Type::NewConnection
        } else if v == 7 {
            Type::EndConnection
        } else {
            Type::Uninitialized
        }
    }

    /// The wire value of this kind.
    pub fn to_i32(&self) -> (r: i32)
        ensures
            r == self.wire(),
    {
        match self {
            Type::Uninitialized => 0,
            Type::Advertise => 1,
            Type::Subscribe => 2,
            Type::Unadvertise => 3,
            Type::Heartbeat => 4,
            Type::Bye => 5,
            Type::NewConnection => 6,
            Type::EndConnection => 7,
        }
    }

    /// The kind of a wire value; an unknown value reads as `Uninitialized`.
    pub fn from_i32(v: i32) -> (r: Type)
        ensures
            r == Type::of_wire(v),
    {
        if v == 1 {
            Type::Advertise
        } else if v == 2 {
            Type::Subscribe
        } else if v == 3 {
            Type::Unadvertise
        } else if v == 4 {
            Type::Heartbeat
        } else if v == 5 {
            Type::Bye
        } else if v == 6 {
            Type::NewConnection
        } else if v == 7 {
            Type::EndConnection
        } else {
            Type::Uninitialized
        }
    }
}

/// Every kind reads back from its wire value.
pub proof fn lemma_type_wire_roundtrip(t: Type)
    ensures
        Type::of_wire(t.wire()) == t,
{
}

/// Reach of an advertised publisher.
#[derive(Debug, Clone, Copy, PartialEq, Eq)]
pub enum Scope {
    Process,
    Host,
    All,
}

impl Scope {
    /// The wire value of a scope.
    pub open spec fn wire(self) -> i32 {
        match self {
            Scope::Process => 0,
            Scope::Host => 1,
            Scope::All => 2,
        }
    }

    /// The wire value of this scope.
    pub fn to_i32(&self) -> (r: i32)
        ensures
            r == self.wire(),
    {
        match self {
            Scope::Process => 0,
            Scope::Host => 1,
            Scope::All => 2,
        }
    }
}

/// A subscription request.
#[derive(Debug)]
pub struct Subscriber {
    /// Fully qualified topic name.
    pub topic: String,
}

/// A topic publisher.
#[derive(Debug)]
pub struct MessagePublisher {
    /// Control address (the process UUID the publisher answers to).
    pub ctrl: String,
    /// Message type name.
    pub msg_type: String,
    /// Whether the publisher is throttled.
    pub throttled: bool,
    /// Throttle rate.
    pub msgs_per_sec: u64,
}

/// A service publisher.
#[derive(Debug)]
pub struct ServicePublisher {
    /// ZMQ socket identity of the responder.
    pub socket_id: String,
    /// Request type name.
    pub request_type: String,
    /// Response type name.
    pub response_type: String,
}

/// What a publisher offers.
#[derive(Debug)]
pub enum PubType {
    MsgPub(MessagePublisher),
    SrvPub(ServicePublisher),
}

/// An advertised publisher of a topic or a service.
#[derive(Debug)]
pub struct Publisher {
    /// Fully qualified topic or service name.
    pub topic: String,
    /// ZMQ address.
    pub address: String,
    /// Process UUID.
    pub process_uuid: String,
    /// Node UUID.
    pub node_uuid: String,
    /// Scope, as its wire value.
    pub scope: i32,
    /// What is published.
    pub pub_type: Option<PubType>,
}

/// What a discovery message is about.
#[derive(Debug)]
pub enum DiscContents {
    Sub(Subscriber),
    Pub(Publisher),
}

} // verus!
