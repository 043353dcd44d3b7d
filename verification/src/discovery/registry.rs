//! Registry of discovered topics and services.
use vstd::prelude::*;
use vstd::string::*;
use crate::discovery::keyed::{
    filter_values, has_key, keyed_map, lemma_keyed_empty, lemma_keyed_filter_step, lemma_keyed_index,
    lemma_keyed_push, lemma_keyed_remove, lemma_keyed_take_step, lemma_keyed_update, lemma_take_all,
    unique_keys, Keyed,
};

verus! {

/// Information about a publisher.
#[derive(Debug, Clone)]
pub struct PublisherInfo {
    /// ZMQ TCP address (e.g., "tcp://192.168.1.100:45678").
    pub address: String,
    /// ZMQ control address (for NEW_CONNECTION messages).
    pub ctrl_address: String,
    /// Node UUID.
    pub node_uuid: String,
    /// Process UUID.
    pub process_uuid: String,
    /// Last seen time, in milliseconds of a monotonic clock.
    pub last_seen: u64,
}

/// Information about a discovered topic.
#[derive(Debug, Clone)]
pub struct TopicInfo {
    /// Topic name.
    pub topic: String,
    /// Message type name (e.g., "gz.msgs.Pose_V").
    pub msg_type: String,
    /// Publisher information.
    pub publishers: Vec<PublisherInfo>,
}

/// Information about a discovered service.
#[derive(Debug, Clone)]
pub struct ServiceInfo {
    /// Service name.
    pub service: String,
    /// Request type name.
    pub request_type: String,
    /// Response type name.
    pub response_type: String,
    /// ZMQ socket ID.
    pub socket_id: String,
    /// ZMQ TCP address.
    pub address: String,
    /// Node UUID.
    pub node_uuid: String,
    /// Process UUID.
    pub process_uuid: String,
    /// Last seen time, in milliseconds of a monotonic clock.
    pub last_seen: u64,
}

/// A publisher, as text.
pub struct PublisherView {
    pub address: Seq<char>,
    pub ctrl_address: Seq<char>,
    pub node_uuid: Seq<char>,
    pub process_uuid: Seq<char>,
    pub last_seen: u64,
}

/// A topic with its publishers in the order they are held.
pub struct TopicInfoView {
    pub topic: Seq<char>,
    pub msg_type: Seq<char>,
    pub publishers: Seq<PublisherView>,
}

/// A service, as text.
pub struct ServiceView {
    pub service: Seq<char>,
    pub request_type: Seq<char>,
    pub response_type: Seq<char>,
    pub socket_id: Seq<char>,
    pub address: Seq<char>,
    pub node_uuid: Seq<char>,
    pub process_uuid: Seq<char>,
    pub last_seen: u64,
}

/// A registered topic: its message type and its publishers by node UUID.
pub struct TopicView {
    pub msg_type: Seq<char>,
    pub publishers: Map<Seq<char>, PublisherView>,
}

/// The registry: topics by name and services by name.
pub struct RegistryView {
    pub topics: Map<Seq<char>, TopicView>,
    pub services: Map<Seq<char>, ServiceView>,
}

impl Keyed for PublisherView {
    open spec fn key(&self) -> Seq<char> {
        self.node_uuid
    }
}

impl Keyed for TopicInfoView {
    open spec fn key(&self) -> Seq<char> {
        self.topic
    }
}

impl Keyed for ServiceView {
    open spec fn key(&self) -> Seq<char> {
        self.service
    }
}

impl View for PublisherInfo {
    type V = PublisherView;

    open spec fn view(&self) -> PublisherView {
        PublisherView {
            address: self.address@,
            ctrl_address: self.ctrl_address@,
            node_uuid: self.node_uuid@,
            process_uuid: self.process_uuid@,
            last_seen: self.last_seen,
        }
    }
}

/// The publishers of a sequence, as text.
pub open spec fn publisher_views(v: Seq<PublisherInfo>) -> Seq<PublisherView> {
    v.map_values(|p: PublisherInfo| p@)
}

impl View for TopicInfo {
    type V = TopicInfoView;

    open spec fn view(&self) -> TopicInfoView {
        TopicInfoView {
            topic: self.topic@,
            msg_type: self.msg_type@,
            publishers: publisher_views(self.publishers@),
        }
    }
}

impl View for ServiceInfo {
    type V = ServiceView;

    open spec fn view(&self) -> ServiceView {
        ServiceView {
            service: self.service@,
            request_type: self.request_type@,
            response_type: self.response_type@,
            socket_id: self.socket_id@,
            address: self.address@,
            node_uuid: self.node_uuid@,
            process_uuid: self.process_uuid@,
            last_seen: self.last_seen,
        }
    }
}

impl TopicInfoView {
    /// The topic as the registry holds it: publishers by node UUID.
    pub open spec fn summary(self) -> TopicView {
        TopicView { msg_type: self.msg_type, publishers: keyed_map(self.publishers) }
    }
}

/// The topics of a sequence, as text.
pub open spec fn topic_views(v: Seq<TopicInfo>) -> Seq<TopicInfoView> {
    v.map_values(|t: TopicInfo| t@)
}

/// The services of a sequence, as text.
pub open spec fn service_views(v: Seq<ServiceInfo>) -> Seq<ServiceView> {
    v.map_values(|s: ServiceInfo| s@)
}

/// Topics by name.
pub open spec fn topics_map(s: Seq<TopicInfoView>) -> Map<Seq<char>, TopicView> {
    keyed_map(s).map_values(|e: TopicInfoView| e.summary())
}

/// A map with no key.
pub open spec fn no_keys<V>(m: Map<Seq<char>, V>) -> bool {
    forall|k: Seq<char>| !#[trigger] m.contains_key(k)
}

/// The topics after a publisher is added: the topic keeps the message type it was
/// registered with (or takes `msg_type` if new) and holds `p` under its node UUID.
pub open spec fn with_publisher(
    topics: Map<Seq<char>, TopicView>,
    topic: Seq<char>,
    msg_type: Seq<char>,
    p: PublisherView,
) -> Map<Seq<char>, TopicView> {
    if topics.contains_key(topic) {
        topics.insert(
            topic,
            TopicView {
                msg_type: topics[topic].msg_type,
                publishers: topics[topic].publishers.insert(p.node_uuid, p),
            },
        )
    } else {
        topics.insert(
            topic,
            TopicView { msg_type: msg_type, publishers: Map::empty().insert(p.node_uuid, p) },
        )
    }
}

/// The topics after the publisher of node `node` leaves `topic`; a topic left without
/// publishers is dropped.
pub open spec fn without_publisher(
    topics: Map<Seq<char>, TopicView>,
    topic: Seq<char>,
    node: Seq<char>,
) -> Map<Seq<char>, TopicView> {
    if !topics.contains_key(topic) {
        topics
    } else {
        let rest = topics[topic].publishers.remove(node);
        if no_keys(rest) {
            topics.remove(topic)
        } else {
            topics.insert(topic, TopicView { msg_type: topics[topic].msg_type, publishers: rest })
        }
    }
}

/// The topics that keep the publishers satisfying `p`; a topic left without
/// publishers is dropped.
pub open spec fn retain_topics(
    topics: Map<Seq<char>, TopicView>,
    p: spec_fn(PublisherView) -> bool,
) -> Map<Seq<char>, TopicView> {
    Map::new(
        |k: Seq<char>| topics.contains_key(k) && !no_keys(filter_values(topics[k].publishers, p)),
        |k: Seq<char>|
            TopicView {
                msg_type: topics[k].msg_type,
                publishers: filter_values(topics[k].publishers, p),
            },
    )
}

/// A publisher that does not belong to process `process`.
pub open spec fn publisher_not_from(process: Seq<char>) -> spec_fn(PublisherView) -> bool {
    |p: PublisherView| p.process_uuid != process
}

/// A service that does not belong to process `process`.
pub open spec fn service_not_from(process: Seq<char>) -> spec_fn(ServiceView) -> bool {
    |s: ServiceView| s.process_uuid != process
}

/// Time from `then` to `now`, zero when `then` is later.
pub open spec fn age(now: u64, then: u64) -> int {
    if now >= then {
        now - then
    } else {
        0
    }
}

/// A publisher seen less than `max_age` before `now`.
pub open spec fn publisher_fresh(now: u64, max_age: u64) -> spec_fn(PublisherView) -> bool {
    |p: PublisherView| age(now, p.last_seen) < max_age
}

/// A service seen less than `max_age` before `now`.
pub open spec fn service_fresh(now: u64, max_age: u64) -> spec_fn(ServiceView) -> bool {
    |s: ServiceView| age(now, s.last_seen) < max_age
}

/// A topic holds its publishers under distinct node UUIDs, and at least one.
pub open spec fn entry_ok(e: TopicInfoView) -> bool {
    unique_keys(e.publishers) && e.publishers.len() > 0
}

/// A rule by which the registry drops entries.
enum Rule {
    NotFrom(String),
    Fresh { now: u64, max_age: u64 },
}

impl Rule {
    spec fn publisher_pred(&self) -> spec_fn(PublisherView) -> bool {
        match self {
            Rule::NotFrom(p) => publisher_not_from(p@),
            Rule::Fresh { now, max_age } => publisher_fresh(*now, *max_age),
        }
    }

    spec fn service_pred(&self) -> spec_fn(ServiceView) -> bool {
        match self {
            Rule::NotFrom(p) => service_not_from(p@),
            Rule::Fresh { now, max_age } => service_fresh(*now, *max_age),
        }
    }

    fn keeps(&self, process_uuid: &String, last_seen: u64) -> (b: bool)
        ensures
            b == match self {
                Rule::NotFrom(p) => process_uuid@ != p@,
                Rule::Fresh { now, max_age } => age(*now, last_seen) < *max_age,
            },
    {
        match self {
            Rule::NotFrom(p) => !(*process_uuid == *p),
            Rule::Fresh { now, max_age } => {
                let a: u64 = if *now >= last_seen {
                    *now - last_seen
                } else {
                    0
                };
                a < *max_age
            },
        }
    }
}

/// Registry of discovered topics and services.
#[derive(Debug)]
pub struct Registry {
    topics: Vec<TopicInfo>,
    services: Vec<ServiceInfo>,
}

impl View for Registry {
    type V = RegistryView;

    closed spec fn view(&self) -> RegistryView {
        RegistryView {
            topics: topics_map(topic_views(self.topics@)),
            services: keyed_map(service_views(self.services@)),
        }
    }
}

proof fn lemma_map_values_insert<V, W>(m: Map<Seq<char>, V>, k: Seq<char>, v: V, f: spec_fn(V) -> W)
    ensures
        m.insert(k, v).map_values(f) == m.map_values(f).insert(k, f(v)),
{
    assert(m.insert(k, v).map_values(f) =~= m.map_values(f).insert(k, f(v)));
}

proof fn lemma_map_values_remove<V, W>(m: Map<Seq<char>, V>, k: Seq<char>, f: spec_fn(V) -> W)
    ensures
        m.remove(k).map_values(f) == m.map_values(f).remove(k),
{
    assert(m.remove(k).map_values(f) =~= m.map_values(f).remove(k));
}

/// A sequence with distinct keys is empty exactly when its map has no key.
proof fn lemma_keyed_no_keys<V: Keyed>(s: Seq<V>)
    requires
        unique_keys(s),
    ensures
        no_keys(keyed_map(s)) <==> s.len() == 0,
{
    if s.len() > 0 {
        lemma_keyed_index(s, 0);
    } else {
        lemma_keyed_empty(s);
    }
}

fn copy_publisher(p: &PublisherInfo) -> (r: PublisherInfo)
    ensures
        r@ == p@,
{
    PublisherInfo {
        address: p.address.clone(),
        ctrl_address: p.ctrl_address.clone(),
        node_uuid: p.node_uuid.clone(),
        process_uuid: p.process_uuid.clone(),
        last_seen: p.last_seen,
    }
}

fn copy_service(s: &ServiceInfo) -> (r: ServiceInfo)
    ensures
        r@ == s@,
{
    ServiceInfo {
        service: s.service.clone(),
        request_type: s.request_type.clone(),
        response_type: s.response_type.clone(),
        socket_id: s.socket_id.clone(),
        address: s.address.clone(),
        node_uuid: s.node_uuid.clone(),
        process_uuid: s.process_uuid.clone(),
        last_seen: s.last_seen,
    }
}

fn copy_topic(t: &TopicInfo) -> (r: TopicInfo)
    ensures
        r@ == t@,
{
    let mut pubs: Vec<PublisherInfo> = Vec::new();
    let n: usize = t.publishers.len();
    let mut i: usize = 0;
    while i < n
        invariant
            n == t.publishers@.len(),
            i <= n,
            pubs@.len() == i,
            forall|j: int| 0 <= j < i ==> #[trigger] pubs@[j]@ == t.publishers@[j]@,
        decreases n - i,
    {
        let p = copy_publisher(&t.publishers[i]);
        pubs.push(p);
        i = i + 1;
    }
    assert(publisher_views(pubs@) =~= publisher_views(t.publishers@));
    TopicInfo { topic: t.topic.clone(), msg_type: t.msg_type.clone(), publishers: pubs }
}

fn find_topic(topics: &Vec<TopicInfo>, name: &String) -> (r: Option<usize>)
    ensures
        match r {
            Some(i) => i < topics@.len() && topics@[i as int].topic@ == name@,
            None => !has_key(topic_views(topics@), name@),
        },
{
    let n: usize = topics.len();
    let mut i: usize = 0;
    while i < n
        invariant
            n == topics@.len(),
            i <= n,
            forall|j: int| 0 <= j < i ==> #[trigger] topics@[j].topic@ != name@,
        decreases n - i,
    {
        if topics[i].topic == *name {
            return Some(i);
        }
        i = i + 1;
    }
    proof {
        if has_key(topic_views(topics@), name@) {
            let j = choose|j: int| 0 <= j < n && #[trigger] topic_views(topics@)[j].key() == name@;
            assert(topics@[j].topic@ == name@);
        }
    }
    None
}

fn find_publisher(pubs: &Vec<PublisherInfo>, node: &String) -> (r: Option<usize>)
    ensures
        match r {
            Some(i) => i < pubs@.len() && pubs@[i as int].node_uuid@ == node@,
            None => !has_key(publisher_views(pubs@), node@),
        },
{
    let n: usize = pubs.len();
    let mut i: usize = 0;
    while i < n
        invariant
            n == pubs@.len(),
            i <= n,
            forall|j: int| 0 <= j < i ==> #[trigger] pubs@[j].node_uuid@ != node@,
        decreases n - i,
    {
        if pubs[i].node_uuid == *node {
            return Some(i);
        }
        i = i + 1;
    }
    proof {
        if has_key(publisher_views(pubs@), node@) {
            let j = choose|j: int| 0 <= j < n && #[trigger] publisher_views(pubs@)[j].key() == node@;
            assert(pubs@[j].node_uuid@ == node@);
        }
    }
    None
}

fn find_service(services: &Vec<ServiceInfo>, name: &String) -> (r: Option<usize>)
    ensures
        match r {
            Some(i) => i < services@.len() && services@[i as int].service@ == name@,
            None => !has_key(service_views(services@), name@),
        },
{
    let n: usize = services.len();
    let mut i: usize = 0;
    while i < n
        invariant
            n == services@.len(),
            i <= n,
            forall|j: int| 0 <= j < i ==> #[trigger] services@[j].service@ != name@,
        decreases n - i,
    {
        if services[i].service == *name {
            return Some(i);
        }
        i = i + 1;
    }
    proof {
        if has_key(service_views(services@), name@) {
            let j = choose|j: int| 0 <= j < n && #[trigger] service_views(services@)[j].key() == name@;
            assert(services@[j].service@ == name@);
        }
    }
    None
}


fn retain_publishers(pubs: &Vec<PublisherInfo>, rule: &Rule) -> (r: Vec<PublisherInfo>)
    requires
        unique_keys(publisher_views(pubs@)),
    ensures
        unique_keys(publisher_views(r@)),
        keyed_map(publisher_views(r@)) == filter_values(
            keyed_map(publisher_views(pubs@)),
            rule.publisher_pred(),
        ),
{
    let ghost s = publisher_views(pubs@);
    let ghost pred = rule.publisher_pred();
    let n: usize = pubs.len();
    let mut out: Vec<PublisherInfo> = Vec::new();
    let mut i: usize = 0;
    proof {
        lemma_keyed_empty(publisher_views(out@));
        lemma_keyed_empty(s.take(0));
        assert(keyed_map(publisher_views(out@)) =~= filter_values(keyed_map(s.take(0)), pred));
    }
    while i < n
        invariant
            n == pubs@.len(),
            s == publisher_views(pubs@),
            pred == rule.publisher_pred(),
            unique_keys(s),
            i <= n,
            unique_keys(publisher_views(out@)),
            keyed_map(publisher_views(out@)) == filter_values(keyed_map(s.take(i as int)), pred),
        decreases n - i,
    {
        let keep = rule.keeps(&pubs[i].process_uuid, pubs[i].last_seen);
        proof {
            lemma_keyed_filter_step(s, publisher_views(out@), i as int, pred);
        }
        if keep {
            let ghost before = out@;
            let p = copy_publisher(&pubs[i]);
            out.push(p);
            assert(publisher_views(out@) =~= publisher_views(before).push(s[i as int]));
        }
        i = i + 1;
    }
    proof {
        lemma_take_all(s);
    }
    out
}

fn retain_services(services: &Vec<ServiceInfo>, rule: &Rule) -> (r: Vec<ServiceInfo>)
    requires
        unique_keys(service_views(services@)),
    ensures
        unique_keys(service_views(r@)),
        keyed_map(service_views(r@)) == filter_values(
            keyed_map(service_views(services@)),
            rule.service_pred(),
        ),
{
    let ghost s = service_views(services@);
    let ghost pred = rule.service_pred();
    let n: usize = services.len();
    let mut out: Vec<ServiceInfo> = Vec::new();
    let mut i: usize = 0;
    proof {
        lemma_keyed_empty(service_views(out@));
        lemma_keyed_empty(s.take(0));
        assert(keyed_map(service_views(out@)) =~= filter_values(keyed_map(s.take(0)), pred));
    }
    while i < n
        invariant
            n == services@.len(),
            s == service_views(services@),
            pred == rule.service_pred(),
            unique_keys(s),
            i <= n,
            unique_keys(service_views(out@)),
            keyed_map(service_views(out@)) == filter_values(keyed_map(s.take(i as int)), pred),
        decreases n - i,
    {
        let keep = rule.keeps(&services[i].process_uuid, services[i].last_seen);
        proof {
            lemma_keyed_filter_step(s, service_views(out@), i as int, pred);
        }
        if keep {
            let ghost before = out@;
            let x = copy_service(&services[i]);
            out.push(x);
            assert(service_views(out@) =~= service_views(before).push(s[i as int]));
        }
        i = i + 1;
    }
    proof {
        lemma_take_all(s);
    }
    out
}

impl Registry {
    /// The registry holds each topic, each publisher of a topic and each service once,
    /// and every topic with at least one publisher.
    pub closed spec fn wf(&self) -> bool {
        let ts = topic_views(self.topics@);
        &&& unique_keys(ts)
        &&& forall|i: int| 0 <= i < ts.len() ==> entry_ok(#[trigger] ts[i])
        &&& unique_keys(service_views(self.services@))
    }

    /// Create a new registry.
    pub fn new() -> (r: Registry)
        ensures
            r.wf(),
            no_keys(r@.topics),
            no_keys(r@.services),
    {
        let r = Registry { topics: Vec::new(), services: Vec::new() };
        proof {
            lemma_keyed_empty(topic_views(r.topics@));
            lemma_keyed_empty(service_views(r.services@));
        }
        r
    }

    /// Add or update a topic publisher, seen at time `now`.
    pub fn add_publisher(
        &mut self,
        topic: &str,
        msg_type: &str,
        address: &str,
        ctrl_address: &str,
        node_uuid: &str,
        process_uuid: &str,
        now: u64,
    )
        requires
            old(self).wf(),
        ensures
            final(self).wf(),
            final(self)@.services == old(self)@.services,
            final(self)@.topics == with_publisher(
                old(self)@.topics,
                topic@,
                msg_type@,
                PublisherView {
                    address: address@,
                    ctrl_address: ctrl_address@,
                    node_uuid: node_uuid@,
                    process_uuid: process_uuid@,
                    last_seen: now,
                },
            ),
    {
        let name = topic.to_owned();
        let p = PublisherInfo {
            address: address.to_owned(),
            ctrl_address: ctrl_address.to_owned(),
            node_uuid: node_uuid.to_owned(),
            process_uuid: process_uuid.to_owned(),
            last_seen: now,
        };
        let ghost pv = p@;
        let ghost ts = topic_views(self.topics@);
        match find_topic(&self.topics, &name) {
            Some(i) => {
                let mut entry = TopicInfo {
                    topic: String::new(),
                    msg_type: String::new(),
                    publishers: Vec::new(),
                };
                self.topics.set_and_swap(i, &mut entry);
                let ghost old_e = entry@;
                assert(old_e == ts[i as int]);
                assert(entry_ok(old_e));
                match find_publisher(&entry.publishers, &p.node_uuid) {
                    Some(j) => {
                        let ghost before = entry.publishers@;
                        entry.publishers.set(j, p);
                        proof {
                            assert(publisher_views(entry.publishers@) =~= publisher_views(
                                before,
                            ).update(j as int, pv));
                            lemma_keyed_update(publisher_views(before), j as int, pv);
                        }
                    },
                    None => {
                        let ghost before = entry.publishers@;
                        entry.publishers.push(p);
                        proof {
                            assert(publisher_views(entry.publishers@) =~= publisher_views(
                                before,
                            ).push(pv));
                            lemma_keyed_push(publisher_views(before), pv);
                        }
                    },
                }
                let ghost new_e = entry@;
                assert(entry_ok(new_e));
                assert(new_e.summary() == TopicView {
                    msg_type: old_e.msg_type,
                    publishers: keyed_map(old_e.publishers).insert(pv.node_uuid, pv),
                });
                self.topics.set(i, entry);
                proof {
                    assert(topic_views(self.topics@) =~= ts.update(i as int, new_e));
                    lemma_keyed_update(ts, i as int, new_e);
                    lemma_keyed_index(ts, i as int);
                    lemma_map_values_insert(
                        keyed_map(ts),
                        topic@,
                        new_e,
                        |e: TopicInfoView| e.summary(),
                    );
                    let nts = topic_views(self.topics@);
                    assert forall|a: int| 0 <= a < nts.len() implies entry_ok(#[trigger] nts[a]) by {
                        if a != i {
                            assert(nts[a] == ts[a]);
                        }
                    }
                }
            },
            None => {
                let mut pubs: Vec<PublisherInfo> = Vec::new();
                pubs.push(p);
                let entry = TopicInfo { topic: name, msg_type: msg_type.to_owned(), publishers: pubs };
                let ghost new_e = entry@;
                proof {
                    let e0 = Seq::<PublisherView>::empty();
                    lemma_keyed_empty(e0);
                    assert(new_e.publishers =~= e0.push(pv));
                    lemma_keyed_push(e0, pv);
                }
                self.topics.push(entry);
                proof {
                    assert(topic_views(self.topics@) =~= ts.push(new_e));
                    lemma_keyed_push(ts, new_e);
                    lemma_map_values_insert(
                        keyed_map(ts),
                        topic@,
                        new_e,
                        |e: TopicInfoView| e.summary(),
                    );
                    let nts = topic_views(self.topics@);
                    assert forall|a: int| 0 <= a < nts.len() implies entry_ok(#[trigger] nts[a]) by {
                        if a < ts.len() {
                            assert(nts[a] == ts[a]);
                        }
                    }
                }
            },
        }
    }

    /// Remove the publisher of node `node_uuid` from `topic`; a topic left without
    /// publishers is removed.
    pub fn remove_publisher(&mut self, topic: &str, node_uuid: &str)
        requires
            old(self).wf(),
        ensures
            final(self).wf(),
            final(self)@.services == old(self)@.services,
            final(self)@.topics == without_publisher(old(self)@.topics, topic@, node_uuid@),
    {
        let name = topic.to_owned();
        let node = node_uuid.to_owned();
        let ghost ts = topic_views(self.topics@);
        match find_topic(&self.topics, &name) {
            None => {
                proof {
                    assert(!keyed_map(ts).contains_key(topic@));
                }
            },
            Some(i) => {
                let mut entry = TopicInfo {
                    topic: String::new(),
                    msg_type: String::new(),
                    publishers: Vec::new(),
                };
                self.topics.set_and_swap(i, &mut entry);
                let ghost old_e = entry@;
                assert(old_e == ts[i as int]);
                proof {
                    lemma_keyed_index(ts, i as int);
                }
                let ghost rest = keyed_map(old_e.publishers).remove(node@);
                match find_publisher(&entry.publishers, &node) {
                    Some(j) => {
                        let ghost before = entry.publishers@;
                        entry.publishers.remove(j);
                        proof {
                            assert(publisher_views(entry.publishers@) =~= publisher_views(
                                before,
                            ).remove(j as int));
                            lemma_keyed_remove(publisher_views(before), j as int);
                        }
                    },
                    None => {
                        proof {
                            assert(keyed_map(old_e.publishers).remove(node@) =~= keyed_map(
                                old_e.publishers,
                            ));
                        }
                    },
                }
                let ghost new_e = entry@;
                assert(unique_keys(new_e.publishers));
                assert(keyed_map(new_e.publishers) == rest);
                proof {
                    lemma_keyed_no_keys(new_e.publishers);
                }
                if entry.publishers.len() == 0 {
                    self.topics.remove(i);
                    proof {
                        assert(topic_views(self.topics@) =~= ts.remove(i as int));
                        lemma_keyed_remove(ts, i as int);
                        lemma_map_values_remove(keyed_map(ts), topic@, |e: TopicInfoView| e.summary());
                        let nts = topic_views(self.topics@);
                        assert forall|a: int| 0 <= a < nts.len() implies entry_ok(#[trigger] nts[a]) by {
                            if a < i {
                                assert(nts[a] == ts[a]);
                            } else {
                                assert(nts[a] == ts[a + 1]);
                            }
                        }
                    }
                } else {
                    self.topics.set(i, entry);
                    proof {
                        assert(topic_views(self.topics@) =~= ts.update(i as int, new_e));
                        lemma_keyed_update(ts, i as int, new_e);
                        lemma_map_values_insert(
                            keyed_map(ts),
                            topic@,
                            new_e,
                            |e: TopicInfoView| e.summary(),
                        );
                        let nts = topic_views(self.topics@);
                        assert forall|a: int| 0 <= a < nts.len() implies entry_ok(#[trigger] nts[a]) by {
                            if a != i {
                                assert(nts[a] == ts[a]);
                            }
                        }
                    }
                }
            },
        }
    }

    /// Add or update a service, seen at time `now`.
    pub fn add_service(
        &mut self,
        service: &str,
        request_type: &str,
        response_type: &str,
        socket_id: &str,
        address: &str,
        node_uuid: &str,
        process_uuid: &str,
        now: u64,
    )
        requires
            old(self).wf(),
        ensures
            final(self).wf(),
            final(self)@.topics == old(self)@.topics,
            final(self)@.services == old(self)@.services.insert(
                service@,
                ServiceView {
                    service: service@,
                    request_type: request_type@,
                    response_type: response_type@,
                    socket_id: socket_id@,
                    address: address@,
                    node_uuid: node_uuid@,
                    process_uuid: process_uuid@,
                    last_seen: now,
                },
            ),
    {
        let info = ServiceInfo {
            service: service.to_owned(),
            request_type: request_type.to_owned(),
            response_type: response_type.to_owned(),
            socket_id: socket_id.to_owned(),
            address: address.to_owned(),
            node_uuid: node_uuid.to_owned(),
            process_uuid: process_uuid.to_owned(),
            last_seen: now,
        };
        let ghost sv = info@;
        let ghost ss = service_views(self.services@);
        match find_service(&self.services, &info.service) {
            Some(i) => {
                self.services.set(i, info);
                proof {
                    assert(service_views(self.services@) =~= ss.update(i as int, sv));
                    lemma_keyed_update(ss, i as int, sv);
                }
            },
            None => {
                self.services.push(info);
                proof {
                    assert(service_views(self.services@) =~= ss.push(sv));
                    lemma_keyed_push(ss, sv);
                }
            },
        }
    }

    /// Remove a service.
    pub fn remove_service(&mut self, service: &str)
        requires
            old(self).wf(),
        ensures
            final(self).wf(),
            final(self)@.topics == old(self)@.topics,
            final(self)@.services == old(self)@.services.remove(service@),
    {
        let name = service.to_owned();
        let ghost ss = service_views(self.services@);
        match find_service(&self.services, &name) {
            Some(i) => {
                self.services.remove(i);
                proof {
                    assert(service_views(self.services@) =~= ss.remove(i as int));
                    lemma_keyed_remove(ss, i as int);
                }
            },
            None => {
                proof {
                    assert(keyed_map(ss).remove(service@) =~= keyed_map(ss));
                }
            },
        }
    }

    /// Get topic info.
    pub fn get_topic(&self, topic: &str) -> (r: Option<TopicInfo>)
        requires
            self.wf(),
        ensures
            match r {
                Some(info) => {
                    &&& self@.topics.contains_key(topic@)
                    &&& info.topic@ == topic@
                    &&& info@.summary() == self@.topics[topic@]
                    &&& entry_ok(info@)
                },
                None => !self@.topics.contains_key(topic@),
            },
    {
        let name = topic.to_owned();
        let ghost ts = topic_views(self.topics@);
        match find_topic(&self.topics, &name) {
            Some(i) => {
                let info = copy_topic(&self.topics[i]);
                proof {
                    lemma_keyed_index(ts, i as int);
                    assert(ts[i as int] == info@);
                }
                Some(info)
            },
            None => None,
        }
    }

    /// Get service info.
    pub fn get_service(&self, service: &str) -> (r: Option<ServiceInfo>)
        requires
            self.wf(),
        ensures
            match r {
                Some(info) => self@.services.contains_key(service@) && info@ == self@.services[service@],
                None => !self@.services.contains_key(service@),
            },
    {
        let name = service.to_owned();
        let ghost ss = service_views(self.services@);
        match find_service(&self.services, &name) {
            Some(i) => {
                let info = copy_service(&self.services[i]);
                proof {
                    lemma_keyed_index(ss, i as int);
                    assert(ss[i as int] == info@);
                }
                Some(info)
            },
            None => None,
        }
    }

    /// List all topics.
    pub fn list_topics(&self) -> (r: Vec<TopicInfo>)
        requires
            self.wf(),
        ensures
            unique_keys(topic_views(r@)),
            topics_map(topic_views(r@)) == self@.topics,
            forall|i: int| 0 <= i < r@.len() ==> entry_ok(#[trigger] r@[i]@),
    {
        let n: usize = self.topics.len();
        let mut out: Vec<TopicInfo> = Vec::new();
        let mut i: usize = 0;
        while i < n
            invariant
                n == self.topics@.len(),
                i <= n,
                out@.len() == i,
                forall|j: int| 0 <= j < i ==> #[trigger] out@[j]@ == self.topics@[j]@,
            decreases n - i,
        {
            let t = copy_topic(&self.topics[i]);
            out.push(t);
            i = i + 1;
        }
        assert(topic_views(out@) =~= topic_views(self.topics@));
        proof {
            let ts = topic_views(self.topics@);
            assert forall|j: int| 0 <= j < out@.len() implies entry_ok(#[trigger] out@[j]@) by {
                assert(ts[j] == out@[j]@);
            }
        }
        out
    }

    /// List all services.
    pub fn list_services(&self) -> (r: Vec<ServiceInfo>)
        requires
            self.wf(),
        ensures
            unique_keys(service_views(r@)),
            keyed_map(service_views(r@)) == self@.services,
    {
        let n: usize = self.services.len();
        let mut out: Vec<ServiceInfo> = Vec::new();
        let mut i: usize = 0;
        while i < n
            invariant
                n == self.services@.len(),
                i <= n,
                out@.len() == i,
                forall|j: int| 0 <= j < i ==> #[trigger] out@[j]@ == self.services@[j]@,
            decreases n - i,
        {
            let s = copy_service(&self.services[i]);
            out.push(s);
            i = i + 1;
        }
        assert(service_views(out@) =~= service_views(self.services@));
        out
    }

    /// Keep the publishers and services that `rule` keeps; drop topics left empty.
    fn retain_by(&mut self, rule: &Rule)
        requires
            old(self).wf(),
        ensures
            final(self).wf(),
            final(self)@.topics == retain_topics(old(self)@.topics, rule.publisher_pred()),
            final(self)@.services == filter_values(old(self)@.services, rule.service_pred()),
    {
        let ghost ts = topic_views(self.topics@);
        let ghost pred = rule.publisher_pred();
        let n: usize = self.topics.len();
        let mut out: Vec<TopicInfo> = Vec::new();
        let mut i: usize = 0;
        proof {
            lemma_keyed_empty(topic_views(out@));
            lemma_keyed_empty(ts.take(0));
            assert(topics_map(topic_views(out@)) =~= retain_topics(topics_map(ts.take(0)), pred));
        }
        while i < n
            invariant
                n == self.topics@.len(),
                ts == topic_views(self.topics@),
                pred == rule.publisher_pred(),
                unique_keys(ts),
                forall|a: int| 0 <= a < ts.len() ==> entry_ok(#[trigger] ts[a]),
                i <= n,
                unique_keys(topic_views(out@)),
                forall|a: int| 0 <= a < out@.len() ==> entry_ok(#[trigger] out@[a]@),
                topics_map(topic_views(out@)) == retain_topics(topics_map(ts.take(i as int)), pred),
            decreases n - i,
        {
            let ghost e = ts[i as int];
            assert(entry_ok(e));
            let np = retain_publishers(&self.topics[i].publishers, rule);
            let ghost m = topics_map(ts.take(i as int));
            let ghost k = e.topic;
            proof {
                lemma_keyed_take_step(ts, i as int);
                lemma_map_values_insert(keyed_map(ts.take(i as int)), k, e, |x: TopicInfoView| x.summary());
                assert(topics_map(ts.take(i + 1)) == m.insert(k, e.summary()));
                lemma_keyed_no_keys(publisher_views(np@));
                assert(!m.contains_key(k));
            }
            let ghost out_before = topic_views(out@);
            if np.len() > 0 {
                let ne = TopicInfo {
                    topic: self.topics[i].topic.clone(),
                    msg_type: self.topics[i].msg_type.clone(),
                    publishers: np,
                };
                let ghost nev = ne@;
                out.push(ne);
                proof {
                    assert(topic_views(out@) =~= out_before.push(nev));
                    if has_key(out_before, k) {
                        assert(keyed_map(out_before).contains_key(k));
                        assert(topics_map(out_before).contains_key(k));
                    }
                    lemma_keyed_push(out_before, nev);
                    lemma_map_values_insert(keyed_map(out_before), k, nev, |x: TopicInfoView| x.summary());
                    assert(retain_topics(m.insert(k, e.summary()), pred) =~= retain_topics(m, pred).insert(
                        k,
                        nev.summary(),
                    ));
                    let outs = topic_views(out@);
                    assert forall|a: int| 0 <= a < out@.len() implies entry_ok(#[trigger] out@[a]@) by {
                        if a < out_before.len() {
                            assert(outs[a] == out_before[a]);
                        }
                    }
                }
            } else {
                proof {
                    assert(retain_topics(m.insert(k, e.summary()), pred) =~= retain_topics(m, pred));
                }
            }
            i = i + 1;
        }
        proof {
            lemma_take_all(ts);
        }
        self.topics = out;
        let ss = retain_services(&self.services, rule);
        self.services = ss;
    }

    /// Remove all publishers and services of a process; drop topics left empty.
    pub fn remove_process(&mut self, process_uuid: &str)
        requires
            old(self).wf(),
        ensures
            final(self).wf(),
            final(self)@.topics == retain_topics(old(self)@.topics, publisher_not_from(process_uuid@)),
            final(self)@.services == filter_values(old(self)@.services, service_not_from(process_uuid@)),
    {
        let rule = Rule::NotFrom(process_uuid.to_owned());
        self.retain_by(&rule);
    }

    /// Remove publishers and services last seen `max_age` or more before `now`;
    /// drop topics left empty.
    pub fn cleanup_stale(&mut self, now: u64, max_age: u64)
        requires
            old(self).wf(),
        ensures
            final(self).wf(),
            final(self)@.topics == retain_topics(old(self)@.topics, publisher_fresh(now, max_age)),
            final(self)@.services == filter_values(old(self)@.services, service_fresh(now, max_age)),
    {
        let rule = Rule::Fresh { now, max_age };
        self.retain_by(&rule);
    }
}


/// Every topic the registry holds has at least one publisher.
pub proof fn law_topics_have_publishers(r: &Registry)
    requires
        r.wf(),
    ensures
        forall|k: Seq<char>| #[trigger] r@.topics.contains_key(k) ==> !no_keys(r@.topics[k].publishers),
{
    let ts = topic_views(r.topics@);
    assert forall|k: Seq<char>| #[trigger] r@.topics.contains_key(k) implies !no_keys(r@.topics[k].publishers) by {
        let i = choose|i: int| 0 <= i < ts.len() && #[trigger] ts[i].key() == k;
        lemma_keyed_index(ts, i);
        assert(entry_ok(ts[i]));
        lemma_keyed_no_keys(ts[i].publishers);
    }
}

/// After a publisher is added, its topic is registered and holds that publisher under
/// its node UUID; a topic that was registered keeps its message type, and no other
/// topic changes.
pub proof fn law_added_publisher_is_listed(
    topics: Map<Seq<char>, TopicView>,
    topic: Seq<char>,
    msg_type: Seq<char>,
    p: PublisherView,
)
    ensures
        with_publisher(topics, topic, msg_type, p).contains_key(topic),
        with_publisher(topics, topic, msg_type, p)[topic].publishers.contains_key(p.node_uuid),
        with_publisher(topics, topic, msg_type, p)[topic].publishers[p.node_uuid] == p,
        with_publisher(topics, topic, msg_type, p)[topic].msg_type == (if topics.contains_key(topic) {
            topics[topic].msg_type
        } else {
            msg_type
        }),
        forall|k: Seq<char>|
            k != topic ==> #[trigger] with_publisher(topics, topic, msg_type, p).contains_key(k)
                == topics.contains_key(k) && (topics.contains_key(k) ==> with_publisher(
                topics,
                topic,
                msg_type,
                p,
            )[k] == topics[k]),
{
}

/// Removing a publisher that was just added under a new node UUID gives back the
/// topics as they were, when every registered topic had a publisher.
pub proof fn law_remove_undoes_add(
    topics: Map<Seq<char>, TopicView>,
    topic: Seq<char>,
    msg_type: Seq<char>,
    p: PublisherView,
)
    requires
        forall|k: Seq<char>| #[trigger] topics.contains_key(k) ==> !no_keys(topics[k].publishers),
        !(topics.contains_key(topic) && topics[topic].publishers.contains_key(p.node_uuid)),
    ensures
        without_publisher(with_publisher(topics, topic, msg_type, p), topic, p.node_uuid) == topics,
{
    let added = with_publisher(topics, topic, msg_type, p);
    let rest = added[topic].publishers.remove(p.node_uuid);
    if topics.contains_key(topic) {
        assert(rest =~= topics[topic].publishers);
        assert(added.insert(topic, TopicView { msg_type: added[topic].msg_type, publishers: rest })
            =~= topics);
    } else {
        assert(rest =~= Map::<Seq<char>, PublisherView>::empty());
        assert(no_keys(rest));
        assert(added.remove(topic) =~= topics);
    }
}

/// After a process is removed, no publisher and no service of it remains.
pub proof fn law_removed_process_leaves_nothing(
    topics: Map<Seq<char>, TopicView>,
    services: Map<Seq<char>, ServiceView>,
    process: Seq<char>,
)
    ensures
        forall|k: Seq<char>, n: Seq<char>|
            #[trigger] retain_topics(topics, publisher_not_from(process)).contains_key(k)
                && #[trigger] retain_topics(topics, publisher_not_from(process))[k].publishers.contains_key(n)
                ==> retain_topics(topics, publisher_not_from(process))[k].publishers[n].process_uuid != process,
        forall|k: Seq<char>|
            #[trigger] filter_values(services, service_not_from(process)).contains_key(k)
                ==> filter_values(services, service_not_from(process))[k].process_uuid != process,
{
}

/// After a cleanup, every remaining publisher and service was seen less than
/// `max_age` before `now`.
pub proof fn law_cleanup_keeps_only_fresh(
    topics: Map<Seq<char>, TopicView>,
    services: Map<Seq<char>, ServiceView>,
    now: u64,
    max_age: u64,
)
    ensures
        forall|k: Seq<char>, n: Seq<char>|
            #[trigger] retain_topics(topics, publisher_fresh(now, max_age)).contains_key(k)
                && #[trigger] retain_topics(topics, publisher_fresh(now, max_age))[k].publishers.contains_key(n)
                ==> age(now, retain_topics(topics, publisher_fresh(now, max_age))[k].publishers[n].last_seen) < max_age,
        forall|k: Seq<char>|
            #[trigger] filter_values(services, service_fresh(now, max_age)).contains_key(k)
                ==> age(now, filter_values(services, service_fresh(now, max_age))[k].last_seen) < max_age,
{
}

/// Dropping the entries a rule refuses twice is the same as dropping them once:
/// a second cleanup or a second removal of a process changes nothing.
pub proof fn law_retain_is_idempotent(
    topics: Map<Seq<char>, TopicView>,
    services: Map<Seq<char>, ServiceView>,
    p: spec_fn(PublisherView) -> bool,
    q: spec_fn(ServiceView) -> bool,
)
    ensures
        retain_topics(retain_topics(topics, p), p) == retain_topics(topics, p),
        filter_values(filter_values(services, q), q) == filter_values(services, q),
{
    let once = retain_topics(topics, p);
    let twice = retain_topics(once, p);
    assert forall|k: Seq<char>| #[trigger] once.contains_key(k) implies filter_values(once[k].publishers, p)
        == once[k].publishers by {
        assert(filter_values(once[k].publishers, p) =~= once[k].publishers);
    }
    assert(twice =~= once);
    assert(filter_values(filter_values(services, q), q) =~= filter_values(services, q));
}

/// A service that is added is found with what was added; one that is removed is not found.
pub proof fn law_service_read_after_write(
    services: Map<Seq<char>, ServiceView>,
    name: Seq<char>,
    s: ServiceView,
)
    ensures
        services.insert(name, s).contains_key(name),
        services.insert(name, s)[name] == s,
        !services.remove(name).contains_key(name),
{
}

} // verus!
