//! Service client frames, as Gazebo's ROUTER sockets exchange them.
//!
//! A request has nine frames: the responder's socket id, the service FQN, our
//! return address, our response receiver id, our node UUID, the request UUID,
//! the protobuf data, the request type and the response type. A response has at
//! least six: the sender id, the topic, the node UUID, the request UUID, the data
//! and the result ("1" for success).
use vstd::prelude::*;
use vstd::slice::slice_to_vec;
use vstd::string::*;
use vstd::utf8::encode_utf8;
use crate::discovery::client::{is_uuid_v4_text, new_uuid};
use crate::error::{Error, Result};
use crate::partition::{fq_name, fully_qualified_name};
use crate::text::{after_last, before_first, decimal, decimal_text, str_after_last, str_before_first, str_eq, str_starts_with};
use crate::transport::subscriber::{lossy_text, utf8_lossy};

verus! {

/// ZMQ monitor event number of a completed handshake.
pub const HANDSHAKE_SUCCEEDED: u16 = 4096;

/// A client of one Gazebo service: its identities and where requests go.
#[derive(Debug)]
pub struct ServiceClient {
    node_uuid: String,
    response_receiver_id: String,
    service: String,
    service_fqn: String,
    responder_socket_id: String,
}

/// A response to a service request.
#[derive(Debug)]
pub struct ServiceResponse {
    /// UUID of the request answered.
    pub request_uuid: String,
    /// Response data (protobuf bytes).
    pub data: Vec<u8>,
    /// Whether the call succeeded.
    pub success: bool,
}

impl ServiceClient {
    /// Our node UUID.
    pub closed spec fn node_text(&self) -> Seq<char> {
        self.node_uuid@
    }

    /// Our response receiver id.
    pub closed spec fn receiver_text(&self) -> Seq<char> {
        self.response_receiver_id@
    }

    /// The plain service name.
    pub closed spec fn service_text(&self) -> Seq<char> {
        self.service@
    }

    /// The fully qualified service name.
    pub closed spec fn fqn_text(&self) -> Seq<char> {
        self.service_fqn@
    }

    /// The responder's socket id.
    pub closed spec fn responder_text(&self) -> Seq<char> {
        self.responder_socket_id@
    }

    /// A client of `service` on `partition`, whose requests go to the responder
    /// socket `socket_id`; it gets a fresh node UUID and response receiver id.
    pub fn connect(service: &str, partition: &str, socket_id: &str) -> (r: ServiceClient)
        ensures
            r.service_text() == service@,
            r.fqn_text() == fq_name(partition@, Seq::empty(), service@),
            r.responder_text() == socket_id@,
            is_uuid_v4_text(r.node_text()),
            is_uuid_v4_text(r.receiver_text()),
    {
        proof {
            reveal_strlit("");
        }
        let node_uuid = new_uuid();
        let response_receiver_id = new_uuid();
        let service_fqn = fully_qualified_name(partition, "", service);
        ServiceClient {
            node_uuid,
            response_receiver_id,
            service: service.to_owned(),
            service_fqn,
            responder_socket_id: socket_id.to_owned(),
        }
    }

    /// Our node UUID.
    pub fn node_uuid(&self) -> (r: &str)
        ensures
            r@ == self.node_text(),
    {
        self.node_uuid.as_str()
    }

    /// Our response receiver id.
    pub fn response_receiver_id(&self) -> (r: &str)
        ensures
            r@ == self.receiver_text(),
    {
        self.response_receiver_id.as_str()
    }

    /// The fully qualified service name.
    pub fn service_fqn(&self) -> (r: &str)
        ensures
            r@ == self.fqn_text(),
    {
        self.service_fqn.as_str()
    }

    /// The nine frames of a request; the return address (frame 2) is left empty for
    /// the worker to fill in.
    pub fn request_frames(&self, request_uuid: &str, data: &[u8], request_type: &str, response_type: &str) -> (r: Vec<Vec<u8>>)
        ensures
            r@.len() == 9,
            r@[0]@ == encode_utf8(self.responder_text()),
            r@[1]@ == encode_utf8(self.fqn_text()),
            r@[2]@ == Seq::<u8>::empty(),
            r@[3]@ == encode_utf8(self.receiver_text()),
            r@[4]@ == encode_utf8(self.node_text()),
            r@[5]@ == encode_utf8(request_uuid@),
            r@[6]@ == data@,
            r@[7]@ == encode_utf8(request_type@),
            r@[8]@ == encode_utf8(response_type@),
    {
        let mut frames: Vec<Vec<u8>> = Vec::new();
        frames.push(self.responder_socket_id.as_str().as_bytes_vec());
        frames.push(self.service_fqn.as_str().as_bytes_vec());
        frames.push(Vec::new());
        frames.push(self.response_receiver_id.as_str().as_bytes_vec());
        frames.push(self.node_uuid.as_str().as_bytes_vec());
        frames.push(request_uuid.as_bytes_vec());
        frames.push(slice_to_vec(data));
        frames.push(request_type.as_bytes_vec());
        frames.push(response_type.as_bytes_vec());
        frames
    }
}

/// Fill in our return address as frame 2 of a request that has one.
pub fn set_return_address(frames: &mut Vec<Vec<u8>>, address: &str)
    ensures
        final(frames)@.len() == old(frames)@.len(),
        old(frames)@.len() >= 3 ==> final(frames)@[2]@ == encode_utf8(address@),
        forall|i: int| 0 <= i < old(frames)@.len() && (i != 2 || old(frames)@.len() < 3)
            ==> #[trigger] final(frames)@[i] == old(frames)@[i],
{
    if frames.len() >= 3 {
        frames.set(2, address.as_bytes_vec());
    }
}


/// Read a service response: frame 3 the request UUID, frame 4 the data, frame 5 the
/// result, which means success when it reads `1`. `None` when there are fewer than
/// six frames.
pub fn parse_service_response(frames: &Vec<Vec<u8>>) -> (r: Option<ServiceResponse>)
    ensures
        match r {
            Some(resp) => {
                &&& frames@.len() >= 6
                &&& resp.request_uuid@ == lossy_text(frames@[3]@)
                &&& resp.data@ == frames@[4]@
                &&& resp.success == (lossy_text(frames@[5]@) == "1"@)
            },
            None => frames@.len() < 6,
        },
{
    if frames.len() < 6 {
        return None;
    }
    let request_uuid = utf8_lossy(frames[3].as_slice());
    let data = slice_to_vec(frames[4].as_slice());
    let result = utf8_lossy(frames[5].as_slice());
    let success = str_eq(result.as_str(), "1");
    Some(ServiceResponse { request_uuid, data, success })
}

/// The address the response receiver binds: a fixed port, or `*` for an ephemeral one.
pub fn response_bind_address(port: Option<u16>) -> (r: String)
    ensures
        r@ == "tcp://0.0.0.0:"@ + match port {
            Some(p) => decimal(p as nat),
            None => "*"@,
        },
{
    let mut r = String::from_str("tcp://0.0.0.0:");
    match port {
        Some(p) => {
            let d = decimal_text(p as u32);
            r.append(d.as_str());
        },
        None => {
            r.append("*");
        },
    }
    r
}

/// The address we advertise for responses: `tcp://<local_ip>:<port>`, with the port
/// taken after the last `:` of the endpoint the receiver is bound to.
pub fn advertised_address(local_ip: &str, bound_endpoint: &str) -> (r: String)
    ensures
        r@ == "tcp://"@ + local_ip@ + ":"@ + after_last(bound_endpoint@, ':'),
{
    let port = str_after_last(bound_endpoint, ':');
    let mut r = String::from_str("tcp://");
    r.append(local_ip);
    r.append(":");
    r.append(port.as_str());
    r
}

/// The dotted-decimal text of an IPv4 address given as a big-endian `u32`.
pub open spec fn ipv4_dotted(addr: u32) -> Seq<char> {
    decimal((addr / 0x100_0000) as nat) + seq!['.'] + decimal(((addr / 0x1_0000) % 256) as nat) + seq!['.']
        + decimal(((addr / 0x100) % 256) as nat) + seq!['.'] + decimal((addr % 256) as nat)
}

/// The dotted-decimal text of an IPv4 address given as a big-endian `u32`.
pub fn ipv4_text(addr: u32) -> (r: String)
    ensures
        r@ == ipv4_dotted(addr),
{
    proof {
        reveal_strlit(".");
    }
    let mut r = decimal_text(addr / 0x100_0000);
    r.append(".");
    let b = decimal_text((addr / 0x1_0000) % 256);
    r.append(b.as_str());
    r.append(".");
    let c = decimal_text((addr / 0x100) % 256);
    r.append(c.as_str());
    r.append(".");
    let d = decimal_text(addr % 256);
    r.append(d.as_str());
    r
}

/// How to find the local IP to advertise for a service endpoint.
#[derive(Debug)]
pub enum LocalIp {
    /// This address.
    Known(String),
    /// Ask the OS which interface reaches this remote IP (fall back to `0.0.0.0`).
    Probe(String),
}

/// The remote IP of an endpoint: what follows `tcp://` up to the first `:`, or
/// `127.0.0.1` for an endpoint that does not start with `tcp://`.
pub open spec fn remote_ip(endpoint: Seq<char>) -> Seq<char> {
    if 6 <= endpoint.len() && endpoint.take(6) == "tcp://"@ {
        before_first(endpoint.skip(6), ':')
    } else {
        "127.0.0.1"@
    }
}

/// The local IP to advertise when connecting to `endpoint`: the configured host IP
/// if any; `127.0.0.1` for a local remote; otherwise probe towards the remote IP.
pub fn local_ip_choice(endpoint: &str, host_ip: Option<u32>) -> (r: LocalIp)
    ensures
        match host_ip {
            Some(ip) => r matches LocalIp::Known(s) && s@ == ipv4_dotted(ip),
            None => if remote_ip(endpoint@) == "127.0.0.1"@ || remote_ip(endpoint@) == "localhost"@ {
                r matches LocalIp::Known(s) && s@ == "127.0.0.1"@
            } else {
                r matches LocalIp::Probe(s) && s@ == remote_ip(endpoint@)
            },
        },
{
    let n: usize = endpoint.unicode_len();
    let remote = if str_starts_with(endpoint, "tcp://") {
        proof {
            reveal_strlit("tcp://");
        }
        let rest = endpoint.substring_char(6, n);
        assert(rest@ =~= endpoint@.skip(6));
        str_before_first(rest, ':')
    } else {
        proof {
            reveal_strlit("tcp://");
        }
        String::from_str("127.0.0.1")
    };
    assert(remote@ == remote_ip(endpoint@));
    if let Some(ip) = host_ip {
        return LocalIp::Known(ipv4_text(ip));
    }
    if str_eq(remote.as_str(), "127.0.0.1") || str_eq(remote.as_str(), "localhost") {
        return LocalIp::Known(String::from_str("127.0.0.1"));
    }
    LocalIp::Probe(remote)
}

/// The event number of a ZMQ monitor message: its first two bytes, little-endian;
/// 0 when it is shorter.
pub fn monitor_event(data: &[u8]) -> (r: u16)
    ensures
        r == (if data@.len() >= 2 {
            data@[0] + 256 * data@[1]
        } else {
            0
        }),
{
    if data.len() >= 2 {
        (data[0] as u16) + 256 * (data[1] as u16)
    } else {
        0
    }
}

/// `k` is the position of the last `::` in `s`.
pub open spec fn is_last_path_sep(s: Seq<char>, k: int) -> bool {
    &&& 0 <= k && k + 1 < s.len()
    &&& s[k] == ':' && s[k + 1] == ':'
    &&& forall|j: int| k < j && j + 1 < s.len() ==> !(#[trigger] s[j] == ':' && s[j + 1] == ':')
}

/// The last segment of a Rust type path (what follows its last `::`).
pub open spec fn last_path_segment(s: Seq<char>) -> Seq<char> {
    if exists|k: int| is_last_path_sep(s, k) {
        s.skip((choose|k: int| is_last_path_sep(s, k)) + 2)
    } else {
        s
    }
}

/// The Gazebo type name of a message type: `gz.msgs.` and the last segment of its
/// Rust type path.
pub fn gz_type_name(rust_type_name: &str) -> (r: String)
    ensures
        r@ == "gz.msgs."@ + last_path_segment(rust_type_name@),
{
    let n: usize = rust_type_name.unicode_len();
    let mut r = String::from_str("gz.msgs.");
    let mut i: usize = n;
    while i >= 2
        invariant
            n == rust_type_name@.len(),
            i <= n,
            r@ == "gz.msgs."@,
            forall|j: int|
                i - 1 <= j && j + 1 < n ==> !(#[trigger] rust_type_name@[j] == ':' && rust_type_name@[j + 1] == ':'),
        decreases i,
    {
        if rust_type_name.get_char(i - 2) == ':' && rust_type_name.get_char(i - 1) == ':' {
            proof {
                let s = rust_type_name@;
                let k = (i - 2) as int;
                assert(is_last_path_sep(s, k));
                let m = choose|m: int| is_last_path_sep(s, m);
                assert(is_last_path_sep(s, m));
                if m < k {
                    assert(s[k] == ':' && s[k + 1] == ':');
                } else if k < m {
                    assert(s[m] == ':' && s[m + 1] == ':');
                }
            }
            let seg = rust_type_name.substring_char(i, n);
            assert(seg@ =~= rust_type_name@.skip(i as int));
            r.append(seg);
            return r;
        }
        i = i - 1;
    }
    proof {
        let s = rust_type_name@;
        if exists|k: int| is_last_path_sep(s, k) {
            let k = choose|k: int| is_last_path_sep(s, k);
            assert(s[k] == ':' && s[k + 1] == ':');
        }
    }
    r.append(rust_type_name);
    r
}


/// What a call gets from a response: its data on success, `ServiceCallFailed` otherwise.
pub fn call_outcome(resp: ServiceResponse) -> (r: Result<Vec<u8>>)
    ensures
        match r {
            Ok(data) => resp.success && data@ == resp.data@,
            Err(e) => !resp.success && (e matches Error::ServiceCallFailed(m) && m@ == "Service returned failure"@),
        },
{
    if resp.success {
        Ok(resp.data)
    } else {
        Err(Error::ServiceCallFailed(String::from_str("Service returned failure")))
    }
}

/// Whether the requester is connected after a monitor event: once the handshake has
/// succeeded it stays connected.
pub fn connected_after(connected: bool, event: u16) -> (r: bool)
    ensures
        r == (connected || event == HANDSHAKE_SUCCEEDED),
{
    connected || event == HANDSHAKE_SUCCEEDED
}


/// A fresh UUID that names one request.
pub fn new_request_uuid() -> (r: String)
    ensures
        is_uuid_v4_text(r@),
{
    new_uuid()
}


/// The service worker's outgoing side: one request waits at a time, and it leaves
/// only once the requester's handshake has succeeded.
#[derive(Debug)]
pub struct Outbox<T> {
    connected: bool,
    waiting: Option<T>,
}

impl<T> Outbox<T> {
    /// Whether the requester is connected.
    pub closed spec fn is_connected(&self) -> bool {
        self.connected
    }

    /// The request waiting to be sent.
    pub closed spec fn waiting(&self) -> Option<T> {
        self.waiting
    }

    /// Not connected, nothing waiting.
    pub fn new() -> (r: Outbox<T>)
        ensures
            !r.is_connected(),
            r.waiting() is None,
    {
        Outbox { connected: false, waiting: None }
    }

    /// Whether a request is waiting (then no other is taken in).
    pub fn has_waiting(&self) -> (r: bool)
        ensures
            r == self.waiting() is Some,
    {
        self.waiting.is_some()
    }

    /// Take in a request if none is waiting; otherwise it is handed back.
    pub fn offer(&mut self, request: T) -> (r: Option<T>)
        ensures
            old(self).waiting() is None ==> r is None && final(self).waiting() == Some(request),
            old(self).waiting() is Some ==> r == Some(request) && final(self).waiting() == old(self).waiting(),
            final(self).is_connected() == old(self).is_connected(),
    {
        if self.waiting.is_none() {
            self.waiting = Some(request);
            None
        } else {
            Some(request)
        }
    }

    /// Record a monitor event of the requester.
    pub fn observe(&mut self, event: u16)
        ensures
            final(self).is_connected() == (old(self).is_connected() || event == HANDSHAKE_SUCCEEDED),
            final(self).waiting() == old(self).waiting(),
    {
        self.connected = connected_after(self.connected, event);
    }

    /// The waiting request, if the requester is connected; it leaves the outbox.
    pub fn take_ready(&mut self) -> (r: Option<T>)
        ensures
            old(self).is_connected() ==> r == old(self).waiting() && final(self).waiting() is None,
            !old(self).is_connected() ==> r is None && final(self).waiting() == old(self).waiting(),
            final(self).is_connected() == old(self).is_connected(),
    {
        if self.connected {
            self.waiting.take()
        } else {
            None
        }
    }
}

} // verus!
