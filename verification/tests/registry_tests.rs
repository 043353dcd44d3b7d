use gz_transport::discovery::client::{
    bye_message, handle_discovery_message, heartbeat_message, request_message, DiscoveryClient,
    DiscoveryRequest, Lookup,
};
use gz_transport::msgs::discovery::{
    DiscContents, MessagePublisher, PubType, Publisher, ServicePublisher, Type,
};
use gz_transport::msgs::Discovery;
use gz_transport::{Config, Error, Registry};

fn topic_pub(topic: &str, node: &str, ctrl: &str, msg_type: &str) -> Publisher {
    Publisher {
        topic: topic.to_string(),
        address: format!("tcp://10.0.0.1:{}", node.len()),
        process_uuid: "ignored".to_string(),
        node_uuid: node.to_string(),
        scope: 2,
        pub_type: Some(PubType::MsgPub(MessagePublisher {
            ctrl: ctrl.to_string(),
            msg_type: msg_type.to_string(),
            throttled: false,
            msgs_per_sec: 0,
        })),
    }
}

fn msg(kind: Type, process: &str, contents: Option<DiscContents>) -> Discovery {
    Discovery { version: 10, process_uuid: process.to_string(), kind: kind.to_i32(), disc_contents: contents }
}

#[test]
fn add_publisher_then_get_topic() {
    let mut r = Registry::new();
    r.add_publisher("/clock", "gz.msgs.Clock", "tcp://a:1", "ctrl", "node1", "proc1", 100);
    r.add_publisher("/clock", "gz.msgs.Other", "tcp://b:2", "ctrl2", "node2", "proc2", 200);
    let info = r.get_topic("/clock").unwrap();
    assert_eq!(info.topic, "/clock");
    assert_eq!(info.msg_type, "gz.msgs.Clock");
    assert_eq!(info.publishers.len(), 2);
    // Same node again: replaced, not duplicated.
    r.add_publisher("/clock", "gz.msgs.Clock", "tcp://c:3", "ctrl3", "node1", "proc1", 300);
    let info = r.get_topic("/clock").unwrap();
    assert_eq!(info.publishers.len(), 2);
    let p = info.publishers.iter().find(|p| p.node_uuid == "node1").unwrap();
    assert_eq!(p.address, "tcp://c:3");
    assert_eq!(p.last_seen, 300);
    assert!(r.get_topic("/missing").is_none());
}

#[test]
fn remove_last_publisher_removes_topic() {
    let mut r = Registry::new();
    r.add_publisher("/t", "T", "a", "c", "n1", "p1", 0);
    r.add_publisher("/t", "T", "a", "c", "n2", "p1", 0);
    r.remove_publisher("/t", "n1");
    assert_eq!(r.get_topic("/t").unwrap().publishers.len(), 1);
    r.remove_publisher("/t", "unknown");
    assert_eq!(r.get_topic("/t").unwrap().publishers.len(), 1);
    r.remove_publisher("/t", "n2");
    assert!(r.get_topic("/t").is_none());
    assert!(r.list_topics().is_empty());
}

#[test]
fn remove_process_drops_its_publishers_and_services() {
    let mut r = Registry::new();
    r.add_publisher("/a", "T", "x", "c", "n1", "p1", 0);
    r.add_publisher("/a", "T", "x", "c", "n2", "p2", 0);
    r.add_publisher("/b", "T", "x", "c", "n3", "p1", 0);
    r.add_service("/s1", "Req", "Rep", "sock", "x", "n4", "p1", 0);
    r.add_service("/s2", "Req", "Rep", "sock", "x", "n5", "p2", 0);
    r.remove_process("p1");
    assert_eq!(r.get_topic("/a").unwrap().publishers.len(), 1);
    assert!(r.get_topic("/b").is_none());
    assert!(r.get_service("/s1").is_none());
    assert_eq!(r.get_service("/s2").unwrap().process_uuid, "p2");
    assert_eq!(r.list_topics().len(), 1);
    assert_eq!(r.list_services().len(), 1);
}

#[test]
fn cleanup_stale_keeps_recent_entries() {
    let mut r = Registry::new();
    r.add_publisher("/old", "T", "x", "c", "n1", "p1", 1000);
    r.add_publisher("/new", "T", "x", "c", "n2", "p1", 3500);
    r.add_service("/s_old", "Q", "R", "k", "x", "n3", "p1", 500);
    r.add_service("/s_new", "Q", "R", "k", "x", "n4", "p1", 4000);
    r.cleanup_stale(4000, 3000);
    assert!(r.get_topic("/old").is_none());
    assert!(r.get_topic("/new").is_some());
    assert!(r.get_service("/s_old").is_none());
    assert!(r.get_service("/s_new").is_some());
    // Seen "in the future": age zero, kept.
    r.add_publisher("/future", "T", "x", "c", "n5", "p1", 9000);
    r.cleanup_stale(4000, 3000);
    assert!(r.get_topic("/future").is_some());
    // A second cleanup at the same time changes nothing.
    let before = r.list_topics().len();
    r.cleanup_stale(4000, 3000);
    assert_eq!(r.list_topics().len(), before);
}

#[test]
fn add_and_remove_service() {
    let mut r = Registry::new();
    r.add_service("/world/default/create", "gz.msgs.EntityFactory", "gz.msgs.Boolean", "sock", "tcp://h:1", "n", "p", 7);
    let s = r.get_service("/world/default/create").unwrap();
    assert_eq!(s.request_type, "gz.msgs.EntityFactory");
    assert_eq!(s.response_type, "gz.msgs.Boolean");
    assert_eq!(s.socket_id, "sock");
    r.add_service("/world/default/create", "A", "B", "sock2", "tcp://h:2", "n", "p", 8);
    assert_eq!(r.list_services().len(), 1);
    assert_eq!(r.get_service("/world/default/create").unwrap().socket_id, "sock2");
    r.remove_service("/world/default/create");
    assert!(r.get_service("/world/default/create").is_none());
}

#[test]
fn advertise_in_our_partition_registers_topic() {
    let mut r = Registry::new();
    let m = msg(
        Type::Advertise,
        "gz-process",
        Some(DiscContents::Pub(topic_pub("@/part@/world/clock", "node", "ctrl-id", "gz.msgs.Clock"))),
    );
    handle_discovery_message(&mut r, &m, "part", 42);
    let info = r.get_topic("/world/clock").unwrap();
    assert_eq!(info.msg_type, "gz.msgs.Clock");
    assert_eq!(info.publishers[0].ctrl_address, "ctrl-id");
    assert_eq!(info.publishers[0].process_uuid, "gz-process");
    assert_eq!(info.publishers[0].last_seen, 42);
}

#[test]
fn advertise_in_other_partition_is_ignored() {
    let mut r = Registry::new();
    let m = msg(
        Type::Advertise,
        "gz-process",
        Some(DiscContents::Pub(topic_pub("@/other@/world/clock", "node", "c", "T"))),
    );
    handle_discovery_message(&mut r, &m, "part", 0);
    assert!(r.list_topics().is_empty());
}

#[test]
fn service_advertise_and_unadvertise() {
    let mut r = Registry::new();
    let srv = Publisher {
        topic: "@/part@/world/default/create".to_string(),
        address: "tcp://192.168.1.100:54321".to_string(),
        process_uuid: "gazebo".to_string(),
        node_uuid: "user-commands".to_string(),
        scope: 2,
        pub_type: Some(PubType::SrvPub(ServicePublisher {
            socket_id: "entity-factory-socket".to_string(),
            request_type: "gz.msgs.EntityFactory".to_string(),
            response_type: "gz.msgs.Boolean".to_string(),
        })),
    };
    handle_discovery_message(&mut r, &msg(Type::Advertise, "gazebo", Some(DiscContents::Pub(srv))), "part", 1);
    let s = r.get_service("/world/default/create").unwrap();
    assert_eq!(s.socket_id, "entity-factory-socket");
    assert_eq!(s.address, "tcp://192.168.1.100:54321");
    let srv2 = Publisher {
        topic: "@/part@/world/default/create".to_string(),
        address: String::new(),
        process_uuid: "gazebo".to_string(),
        node_uuid: "user-commands".to_string(),
        scope: 2,
        pub_type: Some(PubType::SrvPub(ServicePublisher {
            socket_id: String::new(),
            request_type: String::new(),
            response_type: String::new(),
        })),
    };
    handle_discovery_message(&mut r, &msg(Type::Unadvertise, "gazebo", Some(DiscContents::Pub(srv2))), "part", 2);
    assert!(r.get_service("/world/default/create").is_none());
}

#[test]
fn unadvertise_and_bye() {
    let mut r = Registry::new();
    handle_discovery_message(&mut r, &msg(Type::Advertise, "p1", Some(DiscContents::Pub(topic_pub("@/x@/a", "n1", "c", "T")))), "x", 0);
    handle_discovery_message(&mut r, &msg(Type::Advertise, "p1", Some(DiscContents::Pub(topic_pub("@/x@/b", "n2", "c", "T")))), "x", 0);
    handle_discovery_message(&mut r, &msg(Type::Unadvertise, "p1", Some(DiscContents::Pub(topic_pub("@/x@/a", "n1", "c", "T")))), "x", 0);
    assert!(r.get_topic("/a").is_none());
    assert!(r.get_topic("/b").is_some());
    handle_discovery_message(&mut r, &msg(Type::Heartbeat, "p1", None), "x", 0);
    assert!(r.get_topic("/b").is_some());
    handle_discovery_message(&mut r, &msg(Type::Bye, "p1", None), "x", 0);
    assert!(r.get_topic("/b").is_none());
}

#[test]
fn unparseable_topic_name_is_used_as_is() {
    let mut r = Registry::new();
    handle_discovery_message(&mut r, &msg(Type::Advertise, "p", Some(DiscContents::Pub(topic_pub("/plain", "n", "c", "T")))), "x", 0);
    assert!(r.get_topic("/plain").is_some());
}

#[test]
fn request_messages_have_the_wire_format() {
    let sub = request_message(&DiscoveryRequest::Subscribe("/world/default/clock".to_string()), "test-process-uuid-1234", "test_partition");
    assert_eq!(sub.version, 10);
    assert_eq!(sub.kind, Type::Subscribe.to_i32());
    assert_eq!(sub.process_uuid, "test-process-uuid-1234");
    match sub.disc_contents {
        Some(DiscContents::Sub(s)) => assert_eq!(s.topic, "@/test_partition@/world/default/clock"),
        other => panic!("unexpected {:?}", other),
    }

    let nc = request_message(
        &DiscoveryRequest::NewConnection { topic: "/world/default/clock".to_string(), publisher_ctrl: "publisher-process-uuid".to_string() },
        "subscriber-process-uuid",
        "test_partition",
    );
    assert_eq!(nc.kind, Type::NewConnection.to_i32());
    match nc.disc_contents {
        Some(DiscContents::Pub(p)) => {
            assert_eq!(p.topic, "@/test_partition@/world/default/clock");
            assert_eq!(p.address, "");
            assert_eq!(p.process_uuid, "subscriber-process-uuid");
            assert_eq!(p.node_uuid, "subscriber-process-uuid");
            assert_eq!(p.scope, 2);
            match p.pub_type {
                Some(PubType::MsgPub(m)) => {
                    assert_eq!(m.ctrl, "publisher-process-uuid");
                    assert_eq!(m.msg_type, "google.protobuf.Message");
                }
                other => panic!("unexpected {:?}", other),
            }
        }
        other => panic!("unexpected {:?}", other),
    }

    let adv = request_message(
        &DiscoveryRequest::Advertise { topic: "/cmd".to_string(), msg_type: "gz.msgs.Double".to_string(), address: "tcp://1.2.3.4:5".to_string() },
        "me",
        "part",
    );
    assert_eq!(adv.kind, Type::Advertise.to_i32());
    match adv.disc_contents {
        Some(DiscContents::Pub(p)) => {
            assert_eq!(p.topic, "@/part@/cmd");
            assert_eq!(p.address, "tcp://1.2.3.4:5");
            match p.pub_type {
                Some(PubType::MsgPub(m)) => {
                    assert_eq!(m.ctrl, "me");
                    assert_eq!(m.msg_type, "gz.msgs.Double");
                }
                other => panic!("unexpected {:?}", other),
            }
        }
        other => panic!("unexpected {:?}", other),
    }

    let hb = heartbeat_message("heartbeat-process-uuid");
    assert_eq!(hb.kind, 4);
    assert!(hb.disc_contents.is_none());
    let bye = bye_message("p");
    assert_eq!(bye.kind, 5);
}

#[test]
fn own_advertisement_is_registered_by_a_peer() {
    let adv = request_message(
        &DiscoveryRequest::Advertise { topic: "/cmd".to_string(), msg_type: "gz.msgs.Double".to_string(), address: "tcp://1.2.3.4:5".to_string() },
        "me",
        "host:user",
    );
    let mut r = Registry::new();
    handle_discovery_message(&mut r, &adv, "host:user", 5);
    let info = r.get_topic("/cmd").unwrap();
    assert_eq!(info.msg_type, "gz.msgs.Double");
    assert_eq!(info.publishers[0].address, "tcp://1.2.3.4:5");
    assert_eq!(info.publishers[0].ctrl_address, "me");
}

#[test]
fn client_requests_only_while_running() {
    let mut c = DiscoveryClient::new(Config::default());
    assert_eq!(c.process_uuid().len(), 36);
    assert_eq!(&c.process_uuid()[14..15], "4");
    assert!(c.subscribe("/t").is_none());
    assert!(c.advertise("/mine", "T", "tcp://x:1").is_none());
    assert!(c.start());
    assert!(!c.start());
    match c.subscribe("/t") {
        Some(DiscoveryRequest::Subscribe(t)) => assert_eq!(t, "/t"),
        other => panic!("unexpected {:?}", other),
    }
    match c.notify_connection("/t", "pub-uuid") {
        Some(DiscoveryRequest::NewConnection { topic, publisher_ctrl }) => {
            assert_eq!(topic, "/t");
            assert_eq!(publisher_ctrl, "pub-uuid");
        }
        other => panic!("unexpected {:?}", other),
    }
    assert!(c.advertise("/mine2", "T2", "tcp://x:2").is_some());
    let msgs = c.readvertise_messages("part");
    assert_eq!(msgs.len(), 2);
    match &msgs[1].disc_contents {
        Some(DiscContents::Pub(p)) => assert_eq!(p.topic, "@/part@/mine2"),
        other => panic!("unexpected {:?}", other),
    }
    c.stop();
    assert!(c.subscribe("/t").is_none());
}

#[test]
fn client_polls_until_timeout() {
    let mut c = DiscoveryClient::new(Config::default());
    assert!(matches!(c.poll_topic("/t", 10, 100), Lookup::Pending));
    match c.poll_topic("/t", 100, 100) {
        Lookup::TimedOut(Error::DiscoveryTimeout { topic }) => assert_eq!(topic, "/t"),
        other => panic!("unexpected {:?}", other),
    }
    match c.poll_service("/s", 200, 100) {
        Lookup::TimedOut(Error::ServiceNotFound(s)) => assert_eq!(s, "/s"),
        other => panic!("unexpected {:?}", other),
    }
    let adv = msg(Type::Advertise, "p", Some(DiscContents::Pub(topic_pub("@/x@/t", "n", "c", "T"))));
    c.handle_message(&adv, "x", 1);
    assert!(matches!(c.poll_topic("/t", 500, 100), Lookup::Found(_)));
    assert_eq!(c.topics().len(), 1);
    c.cleanup(1 + 3000);
    assert!(c.topics().is_empty());
}
