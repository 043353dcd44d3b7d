//! Discovery client: what it remembers, what it asks the network, and how it reads
//! what the network announces.
use vstd::prelude::*;
use vstd::string::*;
use crate::config::{Config, SILENCE_TIMEOUT_MS, WIRE_VERSION};
use crate::discovery::keyed::{filter_values, keyed_map, unique_keys};
use crate::discovery::registry::{
    entry_ok, no_keys, publisher_not_from, retain_topics, service_not_from, service_views, with_publisher,
    without_publisher, PublisherView, Registry, RegistryView, ServiceInfo, ServiceView, TopicInfo,
    topic_views, topics_map, publisher_fresh, service_fresh, TopicView,
};
use crate::error::Error;
use crate::msgs::discovery::{
    DiscContents, MessagePublisher, PubType, Publisher, Scope, ServicePublisher, Subscriber, Type,
};
use crate::msgs::Discovery;
use crate::partition::{
    fq_name, fully_qualified_name, lemma_parse_of_fully_qualified, parse_fq, parse_fully_qualified,
    partition_problem, qualified_topic,
};
use crate::text::{all_space, starts_with};

verus! {

/// A request the discovery sender turns into a message.
#[derive(Debug)]
pub enum DiscoveryRequest {
    /// SUBSCRIBE to a topic.
    Subscribe(String),
    /// NEW_CONNECTION to the publisher whose process UUID is `publisher_ctrl`.
    NewConnection { topic: String, publisher_ctrl: String },
    /// ADVERTISE a publisher of ours.
    Advertise { topic: String, msg_type: String, address: String },
}

/// A publisher registered by this process, re-advertised periodically.
#[derive(Debug)]
pub struct OurPublisher {
    pub topic: String,
    pub msg_type: String,
    pub address: String,
}

/// The plain topic of a fully qualified name: its topic part, or the whole name if it
/// does not parse.
pub open spec fn plain_topic(fqn: Seq<char>) -> Seq<char> {
    match parse_fq(fqn) {
        Some((_, t)) => t,
        None => fqn,
    }
}

/// The plain topic of a fully qualified name.
pub fn plain_topic_of(fqn: &str) -> (r: String)
    ensures
        r@ == plain_topic(fqn@),
{
    match parse_fully_qualified(fqn) {
        Some((_, t)) => t,
        None => fqn.to_owned(),
    }
}

/// The message announces a publisher whose name carries a partition other than `ours`.
pub open spec fn foreign_partition(msg: Discovery, ours: Seq<char>) -> bool {
    match msg.disc_contents {
        Some(DiscContents::Pub(p)) => match parse_fq(p.topic@) {
            Some((part, _)) => part != ours,
            None => false,
        },
        _ => false,
    }
}

/// The registry after an ADVERTISE of `p`, sent by process `process` at time `now`.
pub open spec fn advertise_effect(rv: RegistryView, p: Publisher, process: Seq<char>, now: u64) -> RegistryView {
    let topic = plain_topic(p.topic@);
    match p.pub_type {
        Some(PubType::MsgPub(m)) => RegistryView {
            topics: with_publisher(
                rv.topics,
                topic,
                m.msg_type@,
                PublisherView {
                    address: p.address@,
                    ctrl_address: m.ctrl@,
                    node_uuid: p.node_uuid@,
                    process_uuid: process,
                    last_seen: now,
                },
            ),
            services: rv.services,
        },
        Some(PubType::SrvPub(s)) => RegistryView {
            topics: rv.topics,
            services: rv.services.insert(
                topic,
                ServiceView {
                    service: topic,
                    request_type: s.request_type@,
                    response_type: s.response_type@,
                    socket_id: s.socket_id@,
                    address: p.address@,
                    node_uuid: p.node_uuid@,
                    process_uuid: process,
                    last_seen: now,
                },
            ),
        },
        None => rv,
    }
}

/// The registry after an UNADVERTISE of `p`.
pub open spec fn unadvertise_effect(rv: RegistryView, p: Publisher) -> RegistryView {
    let topic = plain_topic(p.topic@);
    match p.pub_type {
        Some(PubType::MsgPub(_)) => RegistryView {
            topics: without_publisher(rv.topics, topic, p.node_uuid@),
            services: rv.services,
        },
        Some(PubType::SrvPub(_)) => RegistryView {
            topics: rv.topics,
            services: rv.services.remove(topic),
        },
        None => rv,
    }
}

/// The registry after the process `process` says BYE.
pub open spec fn bye_effect(rv: RegistryView, process: Seq<char>) -> RegistryView {
    RegistryView {
        topics: retain_topics(rv.topics, publisher_not_from(process)),
        services: filter_values(rv.services, service_not_from(process)),
    }
}

/// The registry after receiving `msg` on partition `ours` at time `now`: messages about
/// another partition are ignored; ADVERTISE, UNADVERTISE and BYE change the registry;
/// every other kind leaves it as it is.
pub open spec fn discovery_effect(rv: RegistryView, msg: Discovery, ours: Seq<char>, now: u64) -> RegistryView {
    if foreign_partition(msg, ours) {
        rv
    } else {
        match Type::of_wire(msg.kind) {
            Type::Advertise => match msg.disc_contents {
                Some(DiscContents::Pub(p)) => advertise_effect(rv, p, msg.process_uuid@, now),
                _ => rv,
            },
            Type::Unadvertise => match msg.disc_contents {
                Some(DiscContents::Pub(p)) => unadvertise_effect(rv, p),
                _ => rv,
            },
            Type::Bye => bye_effect(rv, msg.process_uuid@),
            _ => rv,
        }
    }
}

/// Handle an ADVERTISE message from process `process_uuid`, received at time `now`.
pub fn handle_advertise(registry: &mut Registry, publisher: &Publisher, process_uuid: &str, now: u64)
    requires
        old(registry).wf(),
    ensures
        final(registry).wf(),
        final(registry)@.topics == advertise_effect(old(registry)@, *publisher, process_uuid@, now).topics,
        final(registry)@.services == advertise_effect(old(registry)@, *publisher, process_uuid@, now).services,
{
    let topic = plain_topic_of(publisher.topic.as_str());
    match &publisher.pub_type {
        Some(PubType::MsgPub(m)) => {
            registry.add_publisher(
                topic.as_str(),
                m.msg_type.as_str(),
                publisher.address.as_str(),
                m.ctrl.as_str(),
                publisher.node_uuid.as_str(),
                process_uuid,
                now,
            );
        },
        Some(PubType::SrvPub(s)) => {
            registry.add_service(
                topic.as_str(),
                s.request_type.as_str(),
                s.response_type.as_str(),
                s.socket_id.as_str(),
                publisher.address.as_str(),
                publisher.node_uuid.as_str(),
                process_uuid,
                now,
            );
        },
        None => {},
    }
}

/// Handle an UNADVERTISE message.
pub fn handle_unadvertise(registry: &mut Registry, publisher: &Publisher)
    requires
        old(registry).wf(),
    ensures
        final(registry).wf(),
        final(registry)@.topics == unadvertise_effect(old(registry)@, *publisher).topics,
        final(registry)@.services == unadvertise_effect(old(registry)@, *publisher).services,
{
    let topic = plain_topic_of(publisher.topic.as_str());
    match &publisher.pub_type {
        Some(PubType::MsgPub(_)) => {
            registry.remove_publisher(topic.as_str(), publisher.node_uuid.as_str());
        },
        Some(PubType::SrvPub(_)) => {
            registry.remove_service(topic.as_str());
        },
        None => {},
    }
}

/// Handle a received discovery message on partition `our_partition` at time `now`.
pub fn handle_discovery_message(registry: &mut Registry, msg: &Discovery, our_partition: &str, now: u64)
    requires
        old(registry).wf(),
    ensures
        final(registry).wf(),
        final(registry)@.topics == discovery_effect(old(registry)@, *msg, our_partition@, now).topics,
        final(registry)@.services == discovery_effect(old(registry)@, *msg, our_partition@, now).services,
{
    if let Some(DiscContents::Pub(publisher)) = &msg.disc_contents {
        if let Some((partition, _topic)) = parse_fully_qualified(publisher.topic.as_str()) {
            let ours = our_partition.to_owned();
            if !(partition == ours) {
                return;
            }
        }
    }
    match Type::from_i32(msg.kind) {
        Type::Advertise => {
            if let Some(DiscContents::Pub(publisher)) = &msg.disc_contents {
                handle_advertise(registry, publisher, msg.process_uuid.as_str(), now);
            }
        },
        Type::Unadvertise => {
            if let Some(DiscContents::Pub(publisher)) = &msg.disc_contents {
                handle_unadvertise(registry, publisher);
            }
        },
        Type::Bye => {
            registry.remove_process(msg.process_uuid.as_str());
        },
        _ => {},
    }
}


/// A message with the protocol version, sender `process` and kind `kind`.
pub open spec fn stamped(msg: Discovery, process: Seq<char>, kind: Type) -> bool {
    &&& msg.version == WIRE_VERSION
    &&& msg.process_uuid@ == process
    &&& msg.kind == kind.wire()
}

/// `p` announces, for all scopes, a topic publisher of process `process` at `topic`,
/// with control address `ctrl`, type `msg_type`, address `address`, not throttled.
pub open spec fn announces(
    p: Publisher,
    topic: Seq<char>,
    address: Seq<char>,
    process: Seq<char>,
    ctrl: Seq<char>,
    msg_type: Seq<char>,
) -> bool {
    &&& p.topic@ == topic
    &&& p.address@ == address
    &&& p.process_uuid@ == process
    &&& p.node_uuid@ == process
    &&& p.scope == Scope::All.wire()
    &&& p.pub_type matches Some(PubType::MsgPub(m))
    &&& m.ctrl@ == ctrl
    &&& m.msg_type@ == msg_type
    &&& !m.throttled
    &&& m.msgs_per_sec == 0
}

/// The message the sender makes of `req` for process `process` on partition `partition`.
pub open spec fn request_message_ok(req: DiscoveryRequest, process: Seq<char>, partition: Seq<char>, msg: Discovery) -> bool {
    match req {
        DiscoveryRequest::Subscribe(topic) => {
            &&& stamped(msg, process, Type::Subscribe)
            &&& msg.disc_contents matches Some(DiscContents::Sub(s))
            &&& s.topic@ == fq_name(partition, Seq::empty(), topic@)
        },
        DiscoveryRequest::NewConnection { topic, publisher_ctrl } => {
            &&& stamped(msg, process, Type::NewConnection)
            &&& msg.disc_contents matches Some(DiscContents::Pub(p))
            &&& announces(
                p,
                fq_name(partition, Seq::empty(), topic@),
                Seq::empty(),
                process,
                publisher_ctrl@,
                "google.protobuf.Message"@,
            )
        },
        DiscoveryRequest::Advertise { topic, msg_type, address } => {
            &&& stamped(msg, process, Type::Advertise)
            &&& msg.disc_contents matches Some(DiscContents::Pub(p))
            &&& announces(
                p,
                fq_name(partition, Seq::empty(), topic@),
                address@,
                process,
                process,
                msg_type@,
            )
        },
    }
}

/// The HEARTBEAT message of process `process_uuid`.
pub fn heartbeat_message(process_uuid: &str) -> (r: Discovery)
    ensures
        stamped(r, process_uuid@, Type::Heartbeat),
        r.disc_contents is None,
{
    Discovery {
        version: WIRE_VERSION,
        process_uuid: process_uuid.to_owned(),
        kind: Type::Heartbeat.to_i32(),
        disc_contents: None,
    }
}

/// The BYE message of process `process_uuid`, sent when it shuts down.
pub fn bye_message(process_uuid: &str) -> (r: Discovery)
    ensures
        stamped(r, process_uuid@, Type::Bye),
        r.disc_contents is None,
{
    Discovery {
        version: WIRE_VERSION,
        process_uuid: process_uuid.to_owned(),
        kind: Type::Bye.to_i32(),
        disc_contents: None,
    }
}

fn topic_publisher(fq: String, address: String, process_uuid: &str, ctrl: String, msg_type: String) -> (r: Publisher)
    ensures
        announces(r, fq@, address@, process_uuid@, ctrl@, msg_type@),
{
    Publisher {
        topic: fq,
        address,
        process_uuid: process_uuid.to_owned(),
        node_uuid: process_uuid.to_owned(),
        scope: Scope::All.to_i32(),
        pub_type: Some(
            PubType::MsgPub(MessagePublisher { ctrl, msg_type, throttled: false, msgs_per_sec: 0 }),
        ),
    }
}

/// The message that process `process_uuid` on partition `partition` sends for `req`.
///
/// A NEW_CONNECTION is a publisher record addressed, by its control field, to the
/// publisher's process UUID, with the wildcard type `google.protobuf.Message`.
pub fn request_message(req: &DiscoveryRequest, process_uuid: &str, partition: &str) -> (r: Discovery)
    ensures
        request_message_ok(*req, process_uuid@, partition@, r),
{
    proof {
        reveal_strlit("");
    }
    match req {
        DiscoveryRequest::Subscribe(topic) => {
            let fq = fully_qualified_name(partition, "", topic.as_str());
            Discovery {
                version: WIRE_VERSION,
                process_uuid: process_uuid.to_owned(),
                kind: Type::Subscribe.to_i32(),
                disc_contents: Some(DiscContents::Sub(Subscriber { topic: fq })),
            }
        },
        DiscoveryRequest::NewConnection { topic, publisher_ctrl } => {
            let fq = fully_qualified_name(partition, "", topic.as_str());
            let p = topic_publisher(
                fq,
                String::new(),
                process_uuid,
                publisher_ctrl.clone(),
                String::from_str("google.protobuf.Message"),
            );
            Discovery {
                version: WIRE_VERSION,
                process_uuid: process_uuid.to_owned(),
                kind: Type::NewConnection.to_i32(),
                disc_contents: Some(DiscContents::Pub(p)),
            }
        },
        DiscoveryRequest::Advertise { topic, msg_type, address } => {
            let fq = fully_qualified_name(partition, "", topic.as_str());
            let p = topic_publisher(
                fq,
                address.clone(),
                process_uuid,
                process_uuid.to_owned(),
                msg_type.clone(),
            );
            Discovery {
                version: WIRE_VERSION,
                process_uuid: process_uuid.to_owned(),
                kind: Type::Advertise.to_i32(),
                disc_contents: Some(DiscContents::Pub(p)),
            }
        },
    }
}


/// What a process advertises for a topic is what a peer on the same partition
/// registers: the topic (as its plain topic name) with that process as publisher,
/// control address and node. Holds for every valid partition name that does not
/// start with `/` and is not blank.
pub proof fn law_advertise_is_registered(
    rv: RegistryView,
    req: DiscoveryRequest,
    msg: Discovery,
    process: Seq<char>,
    partition: Seq<char>,
    now: u64,
)
    requires
        req is Advertise,
        request_message_ok(req, process, partition, msg),
        partition_problem(partition) is None,
        !starts_with(partition, '/'),
        !all_space(partition),
    ensures
        discovery_effect(rv, msg, partition, now).services == rv.services,
        discovery_effect(rv, msg, partition, now).topics == with_publisher(
            rv.topics,
            qualified_topic(Seq::empty(), req->Advertise_topic@),
            req->Advertise_msg_type@,
            PublisherView {
                address: req->Advertise_address@,
                ctrl_address: process,
                node_uuid: process,
                process_uuid: process,
                last_seen: now,
            },
        ),
{
    lemma_parse_of_fully_qualified(partition, Seq::empty(), req->Advertise_topic@);
    assert(!foreign_partition(msg, partition));
    assert(Type::of_wire(msg.kind) == Type::Advertise);
}

/// The services other than `t` are the same in `a` and `b`.
pub open spec fn same_services_but(a: Map<Seq<char>, ServiceView>, b: Map<Seq<char>, ServiceView>, t: Seq<char>) -> bool {
    forall|k: Seq<char>|
        k != t ==> (#[trigger] a.contains_key(k) <==> b.contains_key(k)) && (a.contains_key(k) ==> a[k] == b[k])
}

/// The topics other than `t` are the same in `a` and `b`.
pub open spec fn same_topics_but(a: Map<Seq<char>, TopicView>, b: Map<Seq<char>, TopicView>, t: Seq<char>) -> bool {
    forall|k: Seq<char>|
        k != t ==> (#[trigger] a.contains_key(k) <==> b.contains_key(k)) && (a.contains_key(k) ==> a[k] == b[k])
}

/// `a` holds a publisher under node `n` of topic `t`.
pub open spec fn holds_publisher(a: Map<Seq<char>, TopicView>, t: Seq<char>, n: Seq<char>) -> bool {
    a.contains_key(t) && a[t].publishers.contains_key(n)
}

/// The publishers of topic `t` under nodes other than `node` are the same in `a` and `b`.
pub open spec fn same_publishers_but(
    a: Map<Seq<char>, TopicView>,
    b: Map<Seq<char>, TopicView>,
    t: Seq<char>,
    node: Seq<char>,
) -> bool {
    forall|n: Seq<char>|
        n != node ==> (#[trigger] holds_publisher(a, t, n) <==> holds_publisher(b, t, n)) && (holds_publisher(a, t, n)
            ==> a[t].publishers[n] == b[t].publishers[n])
}

/// `t` is the topic a handler reads from the name `fqn`: the topic part of a fully
/// qualified name, or the whole name where it does not parse.
pub open spec fn names_topic(fqn: Seq<char>, t: Seq<char>) -> bool {
    match parse_fq(fqn) {
        Some((_, x)) => x == t,
        None => fqn == t,
    }
}

/// A message about a publisher of another partition leaves the registry as it is,
/// whatever its kind.
pub proof fn law_foreign_partition_is_ignored(
    rv: RegistryView,
    msg: Discovery,
    ours: Seq<char>,
    now: u64,
    p: Publisher,
    part: Seq<char>,
    t: Seq<char>,
)
    requires
        msg.disc_contents == Some(DiscContents::Pub(p)),
        parse_fq(p.topic@) == Some((part, t)),
        part != ours,
    ensures
        discovery_effect(rv, msg, ours, now) == rv,
{
}

/// A message that names no publisher of another partition is not about another partition.
proof fn lemma_not_foreign(msg: Discovery, ours: Seq<char>)
    requires
        msg.disc_contents matches Some(DiscContents::Pub(p)) ==> match parse_fq(p.topic@) {
            Some((part, _)) => part == ours,
            None => true,
        },
    ensures
        !foreign_partition(msg, ours),
{
}

/// After a process says BYE, the registry holds no publisher and no service of it,
/// and every publisher and service of another process stays as it was.
pub proof fn law_bye_forgets_process(rv: RegistryView, msg: Discovery, ours: Seq<char>, now: u64)
    requires
        msg.kind == Type::Bye.wire(),
        msg.disc_contents matches Some(DiscContents::Pub(p)) ==> match parse_fq(p.topic@) {
            Some((part, _)) => part == ours,
            None => true,
        },
    ensures
        forall|k: Seq<char>, n: Seq<char>|
            #[trigger] holds_publisher(discovery_effect(rv, msg, ours, now).topics, k, n)
                ==> discovery_effect(rv, msg, ours, now).topics[k].publishers[n].process_uuid
                != msg.process_uuid@,
        forall|k: Seq<char>|
            #[trigger] discovery_effect(rv, msg, ours, now).services.contains_key(k)
                ==> discovery_effect(rv, msg, ours, now).services[k].process_uuid != msg.process_uuid@,
        forall|k: Seq<char>, n: Seq<char>|
            #[trigger] holds_publisher(rv.topics, k, n) && rv.topics[k].publishers[n].process_uuid != msg.process_uuid@
                ==> holds_publisher(discovery_effect(rv, msg, ours, now).topics, k, n)
                && discovery_effect(rv, msg, ours, now).topics[k].publishers[n] == rv.topics[k].publishers[n]
                && discovery_effect(rv, msg, ours, now).topics[k].msg_type == rv.topics[k].msg_type,
        forall|k: Seq<char>|
            #[trigger] rv.services.contains_key(k) && rv.services[k].process_uuid != msg.process_uuid@
                ==> discovery_effect(rv, msg, ours, now).services.contains_key(k)
                && discovery_effect(rv, msg, ours, now).services[k] == rv.services[k],
{
    lemma_not_foreign(msg, ours);
    let eff = discovery_effect(rv, msg, ours, now);
    assert(eff == bye_effect(rv, msg.process_uuid@));
    assert forall|k: Seq<char>, n: Seq<char>|
        #[trigger] holds_publisher(rv.topics, k, n) && rv.topics[k].publishers[n].process_uuid != msg.process_uuid@
            implies holds_publisher(eff.topics, k, n) && eff.topics[k].publishers[n] == rv.topics[k].publishers[n]
            && eff.topics[k].msg_type == rv.topics[k].msg_type by {
        let kept = filter_values(rv.topics[k].publishers, publisher_not_from(msg.process_uuid@));
        assert(kept.contains_key(n));
    }
}

/// After an ADVERTISE of a service publisher `p` by process `process`, the service `t`
/// it names is registered as `p` describes it, with `process` as its process; every
/// other service and every topic stays as it was.
pub proof fn law_advertise_registers_service(
    rv: RegistryView,
    p: Publisher,
    process: Seq<char>,
    now: u64,
    s: ServicePublisher,
    t: Seq<char>,
)
    requires
        p.pub_type == Some(PubType::SrvPub(s)),
        names_topic(p.topic@, t),
    ensures
        advertise_effect(rv, p, process, now).services.contains_key(t),
        advertise_effect(rv, p, process, now).services[t] == (ServiceView {
            service: t,
            request_type: s.request_type@,
            response_type: s.response_type@,
            socket_id: s.socket_id@,
            address: p.address@,
            node_uuid: p.node_uuid@,
            process_uuid: process,
            last_seen: now,
        }),
        same_services_but(advertise_effect(rv, p, process, now).services, rv.services, t),
        advertise_effect(rv, p, process, now).topics == rv.topics,
{
}

/// After an ADVERTISE of a topic publisher `p` by process `process`, the topic `t` it
/// names holds, under `p`'s node UUID, the publisher `p` describes with `process` as its
/// process; the topic keeps the message type it had (or takes `p`'s if new), its
/// publishers of other nodes stay, and so does every other topic and every service.
pub proof fn law_advertise_registers_publisher(
    rv: RegistryView,
    p: Publisher,
    process: Seq<char>,
    now: u64,
    m: MessagePublisher,
    t: Seq<char>,
)
    requires
        p.pub_type == Some(PubType::MsgPub(m)),
        names_topic(p.topic@, t),
    ensures
        holds_publisher(advertise_effect(rv, p, process, now).topics, t, p.node_uuid@),
        advertise_effect(rv, p, process, now).topics[t].publishers[p.node_uuid@] == (PublisherView {
            address: p.address@,
            ctrl_address: m.ctrl@,
            node_uuid: p.node_uuid@,
            process_uuid: process,
            last_seen: now,
        }),
        advertise_effect(rv, p, process, now).topics[t].msg_type == if rv.topics.contains_key(t) {
            rv.topics[t].msg_type
        } else {
            m.msg_type@
        },
        same_publishers_but(advertise_effect(rv, p, process, now).topics, rv.topics, t, p.node_uuid@),
        same_topics_but(advertise_effect(rv, p, process, now).topics, rv.topics, t),
        advertise_effect(rv, p, process, now).services == rv.services,
{
}

/// After an UNADVERTISE of a topic publisher `p`, the topic `t` it names holds no
/// publisher under `p`'s node UUID; its publishers of other nodes stay, with its message
/// type, and so does every other topic and every service.
pub proof fn law_unadvertise_removes_publisher(rv: RegistryView, p: Publisher, m: MessagePublisher, t: Seq<char>)
    requires
        p.pub_type == Some(PubType::MsgPub(m)),
        names_topic(p.topic@, t),
    ensures
        !holds_publisher(unadvertise_effect(rv, p).topics, t, p.node_uuid@),
        same_publishers_but(unadvertise_effect(rv, p).topics, rv.topics, t, p.node_uuid@),
        unadvertise_effect(rv, p).topics.contains_key(t) ==> unadvertise_effect(rv, p).topics[t].msg_type
            == rv.topics[t].msg_type,
        same_topics_but(unadvertise_effect(rv, p).topics, rv.topics, t),
        unadvertise_effect(rv, p).services == rv.services,
{
    let eff = unadvertise_effect(rv, p);
    if rv.topics.contains_key(t) {
        let rest = rv.topics[t].publishers.remove(p.node_uuid@);
        if no_keys(rest) {
            assert forall|n: Seq<char>| n != p.node_uuid@ implies !holds_publisher(rv.topics, t, n) by {
                assert(!rest.contains_key(n));
            }
        }
    }
}

/// After an UNADVERTISE of a service publisher `p`, the service `t` it names is gone;
/// every other service and every topic stays as it was.
pub proof fn law_unadvertise_removes_service(rv: RegistryView, p: Publisher, s: ServicePublisher, t: Seq<char>)
    requires
        p.pub_type == Some(PubType::SrvPub(s)),
        names_topic(p.topic@, t),
    ensures
        !unadvertise_effect(rv, p).services.contains_key(t),
        same_services_but(unadvertise_effect(rv, p).services, rv.services, t),
        unadvertise_effect(rv, p).topics == rv.topics,
{
}

/// An ADVERTISE message of a service on our partition registers the service as the
/// message's publisher describes it, with the message's sender as its process.
pub proof fn law_advertise_message_registers_service(
    rv: RegistryView,
    msg: Discovery,
    ours: Seq<char>,
    now: u64,
    p: Publisher,
    s: ServicePublisher,
    t: Seq<char>,
)
    requires
        msg.kind == Type::Advertise.wire(),
        msg.disc_contents == Some(DiscContents::Pub(p)),
        p.pub_type == Some(PubType::SrvPub(s)),
        parse_fq(p.topic@) == Some((ours, t)),
    ensures
        discovery_effect(rv, msg, ours, now).services.contains_key(t),
        discovery_effect(rv, msg, ours, now).services[t] == (ServiceView {
            service: t,
            request_type: s.request_type@,
            response_type: s.response_type@,
            socket_id: s.socket_id@,
            address: p.address@,
            node_uuid: p.node_uuid@,
            process_uuid: msg.process_uuid@,
            last_seen: now,
        }),
        same_services_but(discovery_effect(rv, msg, ours, now).services, rv.services, t),
        discovery_effect(rv, msg, ours, now).topics == rv.topics,
{
    law_advertise_registers_service(rv, p, msg.process_uuid@, now, s, t);
}

/// An ADVERTISE message of a topic publisher on our partition registers it under its
/// node UUID, with the message's sender as its process, and keeps the topic's other
/// publishers.
pub proof fn law_advertise_message_registers_publisher(
    rv: RegistryView,
    msg: Discovery,
    ours: Seq<char>,
    now: u64,
    p: Publisher,
    m: MessagePublisher,
    t: Seq<char>,
)
    requires
        msg.kind == Type::Advertise.wire(),
        msg.disc_contents == Some(DiscContents::Pub(p)),
        p.pub_type == Some(PubType::MsgPub(m)),
        parse_fq(p.topic@) == Some((ours, t)),
    ensures
        holds_publisher(discovery_effect(rv, msg, ours, now).topics, t, p.node_uuid@),
        discovery_effect(rv, msg, ours, now).topics[t].publishers[p.node_uuid@] == (PublisherView {
            address: p.address@,
            ctrl_address: m.ctrl@,
            node_uuid: p.node_uuid@,
            process_uuid: msg.process_uuid@,
            last_seen: now,
        }),
        same_publishers_but(discovery_effect(rv, msg, ours, now).topics, rv.topics, t, p.node_uuid@),
        same_topics_but(discovery_effect(rv, msg, ours, now).topics, rv.topics, t),
        discovery_effect(rv, msg, ours, now).services == rv.services,
{
    law_advertise_registers_publisher(rv, p, msg.process_uuid@, now, m, t);
}

/// An UNADVERTISE message of a topic publisher on our partition removes only the
/// publisher of its node from that topic.
pub proof fn law_unadvertise_message_removes_publisher(
    rv: RegistryView,
    msg: Discovery,
    ours: Seq<char>,
    now: u64,
    p: Publisher,
    m: MessagePublisher,
    t: Seq<char>,
)
    requires
        msg.kind == Type::Unadvertise.wire(),
        msg.disc_contents == Some(DiscContents::Pub(p)),
        p.pub_type == Some(PubType::MsgPub(m)),
        parse_fq(p.topic@) == Some((ours, t)),
    ensures
        !holds_publisher(discovery_effect(rv, msg, ours, now).topics, t, p.node_uuid@),
        same_publishers_but(discovery_effect(rv, msg, ours, now).topics, rv.topics, t, p.node_uuid@),
        same_topics_but(discovery_effect(rv, msg, ours, now).topics, rv.topics, t),
        discovery_effect(rv, msg, ours, now).services == rv.services,
{
    law_unadvertise_removes_publisher(rv, p, m, t);
}

/// An UNADVERTISE message of a service on our partition removes that service only.
pub proof fn law_unadvertise_message_removes_service(
    rv: RegistryView,
    msg: Discovery,
    ours: Seq<char>,
    now: u64,
    p: Publisher,
    s: ServicePublisher,
    t: Seq<char>,
)
    requires
        msg.kind == Type::Unadvertise.wire(),
        msg.disc_contents == Some(DiscContents::Pub(p)),
        p.pub_type == Some(PubType::SrvPub(s)),
        parse_fq(p.topic@) == Some((ours, t)),
    ensures
        !discovery_effect(rv, msg, ours, now).services.contains_key(t),
        same_services_but(discovery_effect(rv, msg, ours, now).services, rv.services, t),
        discovery_effect(rv, msg, ours, now).topics == rv.topics,
{
    law_unadvertise_removes_service(rv, p, s, t);
}

/// A lowercase hexadecimal digit.
pub open spec fn is_hex_lower(c: char) -> bool {
    ('0' <= c && c <= '9') || ('a' <= c && c <= 'f')
}

/// The hyphenated lowercase text of a version-4, RFC 4122 variant UUID.
pub open spec fn is_uuid_v4_text(s: Seq<char>) -> bool {
    &&& s.len() == 36
    &&& forall|i: int|
        0 <= i < 36 ==> (if i == 8 || i == 13 || i == 18 || i == 23 {
            #[trigger] s[i] == '-'
        } else {
            is_hex_lower(s[i])
        })
    &&& s[14] == '4'
    &&& (s[19] == '8' || s[19] == '9' || s[19] == 'a' || s[19] == 'b')
}

/// Calls `uuid::Uuid::new_v4` and formats the UUID with `to_string`: a random
/// version-4 UUID in hyphenated lowercase form.
#[verifier::external_body]
pub(crate) fn new_uuid() -> (r: String)
    ensures
        is_uuid_v4_text(r@),
{
    uuid::Uuid::new_v4().to_string()
}

/// One look at the registry while waiting for discovery.
#[derive(Debug)]
pub enum Lookup<T> {
    /// Discovered.
    Found(T),
    /// Not discovered and the time is up.
    TimedOut(Error),
    /// Not discovered yet; look again later.
    Pending,
}

/// Discovery client state: configuration, registry, process identity and the
/// publishers this process announces.
///
/// Network tasks hold it and feed it what they receive; what it asks to send
/// comes back as requests and messages.
pub struct DiscoveryClient {
    config: Config,
    registry: Registry,
    process_uuid: String,
    running: bool,
    our_publishers: Vec<OurPublisher>,
}

/// Our publishers as (topic, message type, address) text.
pub open spec fn our_publisher_texts(v: Seq<OurPublisher>) -> Seq<(Seq<char>, Seq<char>, Seq<char>)> {
    v.map_values(|p: OurPublisher| (p.topic@, p.msg_type@, p.address@))
}

impl DiscoveryClient {
    /// The registry is well formed.
    pub closed spec fn wf(&self) -> bool {
        self.registry.wf()
    }

    /// What has been discovered.
    pub closed spec fn registry_view(&self) -> RegistryView {
        self.registry@
    }

    /// Whether the client has been started and not stopped.
    pub closed spec fn is_running(&self) -> bool {
        self.running
    }

    /// This process's UUID.
    pub closed spec fn process_text(&self) -> Seq<char> {
        self.process_uuid@
    }

    /// The publishers this process announces, in the order they were registered.
    pub closed spec fn our_publishers_view(&self) -> Seq<(Seq<char>, Seq<char>, Seq<char>)> {
        our_publisher_texts(self.our_publishers@)
    }

    /// The configuration.
    pub closed spec fn config_view(&self) -> Config {
        self.config
    }

    /// Create a new discovery client with a fresh process UUID, nothing discovered,
    /// not started.
    pub fn new(config: Config) -> (r: DiscoveryClient)
        ensures
            r.wf(),
            no_keys(r.registry_view().topics),
            no_keys(r.registry_view().services),
            !r.is_running(),
            r.our_publishers_view().len() == 0,
            is_uuid_v4_text(r.process_text()),
            r.config_view() == config,
    {
        let r = DiscoveryClient {
            config,
            registry: Registry::new(),
            process_uuid: new_uuid(),
            running: false,
            our_publishers: Vec::new(),
        };
        assert(our_publisher_texts(r.our_publishers@) =~= Seq::empty());
        r
    }

    /// Mark the client started; `false` if it was already running (nothing to start).
    pub fn start(&mut self) -> (started: bool)
        ensures
            started == !old(self).is_running(),
            final(self).is_running(),
            final(self).wf() == old(self).wf(),
            final(self).registry_view() == old(self).registry_view(),
            final(self).process_text() == old(self).process_text(),
            final(self).our_publishers_view() == old(self).our_publishers_view(),
            final(self).config_view() == old(self).config_view(),
    {
        if self.running {
            return false;
        }
        self.running = true;
        true
    }

    /// Stop the discovery client: no further requests are made.
    pub fn stop(&mut self)
        ensures
            !final(self).is_running(),
            final(self).wf() == old(self).wf(),
            final(self).registry_view() == old(self).registry_view(),
            final(self).process_text() == old(self).process_text(),
            final(self).our_publishers_view() == old(self).our_publishers_view(),
            final(self).config_view() == old(self).config_view(),
    {
        self.running = false;
    }

    /// The subscribe request for a topic, to be sent while the client runs.
    pub fn subscribe(&self, topic: &str) -> (r: Option<DiscoveryRequest>)
        ensures
            r is Some <==> self.is_running(),
            r matches Some(req) ==> (req matches DiscoveryRequest::Subscribe(t) && t@ == topic@),
    {
        if self.running {
            Some(DiscoveryRequest::Subscribe(topic.to_owned()))
        } else {
            None
        }
    }

    /// The NEW_CONNECTION request that tells a publisher (by its process UUID) that we
    /// are connected, to be sent while the client runs.
    pub fn notify_connection(&self, topic: &str, publisher_process_uuid: &str) -> (r: Option<DiscoveryRequest>)
        ensures
            r is Some <==> self.is_running(),
            r matches Some(req) ==> (req matches DiscoveryRequest::NewConnection { topic: t, publisher_ctrl: c }
                && t@ == topic@ && c@ == publisher_process_uuid@),
    {
        if self.running {
            Some(
                DiscoveryRequest::NewConnection {
                    topic: topic.to_owned(),
                    publisher_ctrl: publisher_process_uuid.to_owned(),
                },
            )
        } else {
            None
        }
    }

    /// Register a publisher of ours: it is remembered for re-advertisement, and an
    /// immediate ADVERTISE request is returned while the client runs.
    pub fn advertise(&mut self, topic: &str, msg_type: &str, address: &str) -> (r: Option<DiscoveryRequest>)
        ensures
            final(self).our_publishers_view() == old(self).our_publishers_view().push(
                (topic@, msg_type@, address@),
            ),
            r is Some <==> old(self).is_running(),
            r matches Some(req) ==> (req matches DiscoveryRequest::Advertise { topic: t, msg_type: m, address: a }
                && t@ == topic@ && m@ == msg_type@ && a@ == address@),
            final(self).is_running() == old(self).is_running(),
            final(self).wf() == old(self).wf(),
            final(self).registry_view() == old(self).registry_view(),
            final(self).process_text() == old(self).process_text(),
            final(self).config_view() == old(self).config_view(),
    {
        let ghost before = self.our_publishers@;
        self.our_publishers.push(
            OurPublisher {
                topic: topic.to_owned(),
                msg_type: msg_type.to_owned(),
                address: address.to_owned(),
            },
        );
        assert(our_publisher_texts(self.our_publishers@) =~= our_publisher_texts(before).push(
            (topic@, msg_type@, address@),
        ));
        if self.running {
            Some(
                DiscoveryRequest::Advertise {
                    topic: topic.to_owned(),
                    msg_type: msg_type.to_owned(),
                    address: address.to_owned(),
                },
            )
        } else {
            None
        }
    }

    /// The ADVERTISE messages that re-announce our publishers on `partition`, in order.
    pub fn readvertise_messages(&self, partition: &str) -> (r: Vec<Discovery>)
        ensures
            r@.len() == self.our_publishers_view().len(),
            forall|i: int|
                0 <= i < r@.len() ==> {
                    let (t, m, a) = self.our_publishers_view()[i];
                    &&& stamped(#[trigger] r@[i], self.process_text(), Type::Advertise)
                    &&& r@[i].disc_contents matches Some(DiscContents::Pub(p))
                    &&& announces(
                        p,
                        fq_name(partition@, Seq::empty(), t),
                        a,
                        self.process_text(),
                        self.process_text(),
                        m,
                    )
                },
    {
        let n: usize = self.our_publishers.len();
        let mut out: Vec<Discovery> = Vec::new();
        let mut i: usize = 0;
        while i < n
            invariant
                n == self.our_publishers@.len(),
                i <= n,
                out@.len() == i,
                forall|j: int|
                    0 <= j < i ==> {
                        let (t, m, a) = our_publisher_texts(self.our_publishers@)[j];
                        &&& stamped(#[trigger] out@[j], self.process_uuid@, Type::Advertise)
                        &&& out@[j].disc_contents matches Some(DiscContents::Pub(p))
                        &&& announces(
                            p,
                            fq_name(partition@, Seq::empty(), t),
                            a,
                            self.process_uuid@,
                            self.process_uuid@,
                            m,
                        )
                    },
            decreases n - i,
        {
            let p = &self.our_publishers[i];
            let req = DiscoveryRequest::Advertise {
                topic: p.topic.clone(),
                msg_type: p.msg_type.clone(),
                address: p.address.clone(),
            };
            let msg = request_message(&req, self.process_uuid.as_str(), partition);
            out.push(msg);
            i = i + 1;
        }
        out
    }

    /// Get our process UUID.
    pub fn process_uuid(&self) -> (r: &str)
        ensures
            r@ == self.process_text(),
    {
        self.process_uuid.as_str()
    }

    /// Get the configuration.
    pub fn config(&self) -> (r: &Config)
        ensures
            *r == self.config_view(),
    {
        &self.config
    }

    /// Get the registry.
    pub fn registry(&self) -> (r: &Registry)
        ensures
            r@ == self.registry_view(),
            r.wf() == self.wf(),
    {
        &self.registry
    }

    /// Update the registry with a received message (see `handle_discovery_message`).
    pub fn handle_message(&mut self, msg: &Discovery, our_partition: &str, now: u64)
        requires
            old(self).wf(),
        ensures
            final(self).wf(),
            final(self).registry_view().topics == discovery_effect(
                old(self).registry_view(),
                *msg,
                our_partition@,
                now,
            ).topics,
            final(self).registry_view().services == discovery_effect(
                old(self).registry_view(),
                *msg,
                our_partition@,
                now,
            ).services,
            final(self).is_running() == old(self).is_running(),
            final(self).process_text() == old(self).process_text(),
            final(self).our_publishers_view() == old(self).our_publishers_view(),
            final(self).config_view() == old(self).config_view(),
    {
        handle_discovery_message(&mut self.registry, msg, our_partition, now);
    }

    /// Remove entries silent for `SILENCE_TIMEOUT_MS` or more at time `now`.
    pub fn cleanup(&mut self, now: u64)
        requires
            old(self).wf(),
        ensures
            final(self).wf(),
            final(self).registry_view().topics == retain_topics(
                old(self).registry_view().topics,
                publisher_fresh(now, SILENCE_TIMEOUT_MS),
            ),
            final(self).registry_view().services == filter_values(
                old(self).registry_view().services,
                service_fresh(now, SILENCE_TIMEOUT_MS),
            ),
            final(self).is_running() == old(self).is_running(),
            final(self).process_text() == old(self).process_text(),
            final(self).our_publishers_view() == old(self).our_publishers_view(),
            final(self).config_view() == old(self).config_view(),
    {
        self.registry.cleanup_stale(now, SILENCE_TIMEOUT_MS);
    }

    /// List all discovered topics.
    pub fn topics(&self) -> (r: Vec<TopicInfo>)
        requires
            self.wf(),
        ensures
            unique_keys(topic_views(r@)),
            topics_map(topic_views(r@)) == self.registry_view().topics,
    {
        self.registry.list_topics()
    }

    /// List all discovered services.
    pub fn services(&self) -> (r: Vec<ServiceInfo>)
        requires
            self.wf(),
        ensures
            unique_keys(service_views(r@)),
            keyed_map(service_views(r@)) == self.registry_view().services,
    {
        self.registry.list_services()
    }

    /// One look for a topic with publishers, `elapsed_ms` into a wait of `timeout_ms`.
    pub fn poll_topic(&self, topic: &str, elapsed_ms: u64, timeout_ms: u64) -> (r: Lookup<TopicInfo>)
        requires
            self.wf(),
        ensures
            match r {
                Lookup::Found(info) => {
                    &&& self.registry_view().topics.contains_key(topic@)
                    &&& info.topic@ == topic@
                    &&& info@.summary() == self.registry_view().topics[topic@]
                    &&& entry_ok(info@)
                },
                Lookup::TimedOut(e) => {
                    &&& !self.registry_view().topics.contains_key(topic@)
                    &&& elapsed_ms >= timeout_ms
                    &&& e matches Error::DiscoveryTimeout { topic: t }
                    &&& t@ == topic@
                },
                Lookup::Pending => !self.registry_view().topics.contains_key(topic@) && elapsed_ms
                    < timeout_ms,
            },
    {
        if let Some(info) = self.registry.get_topic(topic) {
            if info.publishers.len() > 0 {
                return Lookup::Found(info);
            }
        }
        if elapsed_ms >= timeout_ms {
            return Lookup::TimedOut(Error::DiscoveryTimeout { topic: topic.to_owned() });
        }
        Lookup::Pending
    }

    /// One look for a service, `elapsed_ms` into a wait of `timeout_ms`.
    pub fn poll_service(&self, service: &str, elapsed_ms: u64, timeout_ms: u64) -> (r: Lookup<ServiceInfo>)
        requires
            self.wf(),
        ensures
            match r {
                Lookup::Found(info) => self.registry_view().services.contains_key(service@) && info@
                    == self.registry_view().services[service@],
                Lookup::TimedOut(e) => {
                    &&& !self.registry_view().services.contains_key(service@)
                    &&& elapsed_ms >= timeout_ms
                    &&& e matches Error::ServiceNotFound(s)
                    &&& s@ == service@
                },
                Lookup::Pending => !self.registry_view().services.contains_key(service@)
                    && elapsed_ms < timeout_ms,
            },
    {
        if let Some(info) = self.registry.get_service(service) {
            return Lookup::Found(info);
        }
        if elapsed_ms >= timeout_ms {
            return Lookup::TimedOut(Error::ServiceNotFound(service.to_owned()));
        }
        Lookup::Pending
    }
}

} // verus!
