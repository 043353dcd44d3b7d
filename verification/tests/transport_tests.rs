use gz_transport::node::{check_publishers, connect_addresses};
use gz_transport::transport::service::{
    call_outcome, new_request_uuid, Outbox, ServiceResponse, HANDSHAKE_SUCCEEDED,
    advertised_address, gz_type_name, ipv4_text, local_ip_choice, monitor_event,
    parse_service_response, response_bind_address, set_return_address, LocalIp,
};
use gz_transport::transport::subscriber::{check_endpoints, parse_message_frames, utf8_lossy};
use gz_transport::{Error, Publisher, PublisherInfo, ServiceClient, TopicInfo};

fn pi(address: &str, node: &str) -> PublisherInfo {
    PublisherInfo {
        address: address.to_string(),
        ctrl_address: String::new(),
        node_uuid: node.to_string(),
        process_uuid: String::new(),
        last_seen: 0,
    }
}

#[test]
fn publisher_frames_are_four() {
    let p = Publisher::from_endpoint("tcp://0.0.0.0:45678", "/test/topic", "gz.msgs.Any");
    assert_eq!(p.address(), "tcp://0.0.0.0:45678");
    assert_eq!(p.topic(), "/test/topic");
    assert_eq!(p.msg_type(), "gz.msgs.Any");
    let frames = p.publish_frames("testhost:testuser", &[1, 2, 3]);
    assert_eq!(frames.len(), 4);
    assert_eq!(frames[0], b"@/testhost:testuser@/test/topic".to_vec());
    assert_eq!(frames[1], b"tcp://0.0.0.0:45678".to_vec());
    assert_eq!(frames[2], vec![1, 2, 3]);
    assert_eq!(frames[3], b"gz.msgs.Any".to_vec());
}

#[test]
fn subscriber_reads_frames() {
    let frames = vec![b"@/p@/t".to_vec(), b"tcp://x:1".to_vec(), vec![9, 8], b"gz.msgs.Clock".to_vec(), b"stats".to_vec()];
    let (meta, data) = parse_message_frames(&frames).unwrap();
    assert_eq!(meta.topic, "@/p@/t");
    assert_eq!(meta.sender, "tcp://x:1");
    assert_eq!(meta.msg_type, "gz.msgs.Clock");
    assert_eq!(data, vec![9, 8]);
    assert!(parse_message_frames(&frames[..3].to_vec()).is_none());
    assert_eq!(utf8_lossy(&[0x66, 0xff, 0x6f]), "f\u{FFFD}o");
}

#[test]
fn endpoints_and_publishers_must_exist() {
    match check_endpoints(&vec![], "/t") {
        Err(Error::NoPublishers(t)) => assert_eq!(t, "/t"),
        other => panic!("unexpected {:?}", other),
    }
    assert!(check_endpoints(&vec!["tcp://a:1".to_string()], "/t").is_ok());
    let info = TopicInfo { topic: "/t".to_string(), msg_type: "T".to_string(), publishers: vec![] };
    assert!(matches!(check_publishers(&info, "/t"), Err(Error::NoPublishers(_))));
}

#[test]
fn connect_addresses_are_unique() {
    let pubs = vec![pi("tcp://a:1", "n1"), pi("tcp://b:2", "n2"), pi("tcp://a:1", "n3")];
    let addrs = connect_addresses(&pubs);
    assert_eq!(addrs, vec!["tcp://a:1".to_string(), "tcp://b:2".to_string()]);
}

#[test]
fn service_request_and_response_frames() {
    let c = ServiceClient::connect("/world/shapes/control", "part", "sock-id");
    assert_eq!(c.service_fqn(), "@/part@/world/shapes/control");
    assert_eq!(c.node_uuid().len(), 36);
    assert_ne!(c.node_uuid(), c.response_receiver_id());
    let mut frames = c.request_frames("req-1", &[5, 6], "gz.msgs.WorldControl", "gz.msgs.Boolean");
    assert_eq!(frames.len(), 9);
    assert_eq!(frames[0], b"sock-id".to_vec());
    assert_eq!(frames[1], b"@/part@/world/shapes/control".to_vec());
    assert!(frames[2].is_empty());
    assert_eq!(frames[3], c.response_receiver_id().as_bytes().to_vec());
    assert_eq!(frames[5], b"req-1".to_vec());
    assert_eq!(frames[6], vec![5, 6]);
    assert_eq!(frames[8], b"gz.msgs.Boolean".to_vec());
    set_return_address(&mut frames, "tcp://10.0.0.2:5555");
    assert_eq!(frames[2], b"tcp://10.0.0.2:5555".to_vec());

    let resp = vec![b"id".to_vec(), b"topic".to_vec(), b"node".to_vec(), b"req-1".to_vec(), vec![1], b"1".to_vec()];
    let r = parse_service_response(&resp).unwrap();
    assert_eq!(r.request_uuid, "req-1");
    assert_eq!(r.data, vec![1]);
    assert!(r.success);
    let mut fail = resp.clone();
    fail[5] = b"0".to_vec();
    assert!(!parse_service_response(&fail).unwrap().success);
    assert!(parse_service_response(&resp[..5].to_vec()).is_none());
}

#[test]
fn service_addresses() {
    assert_eq!(response_bind_address(Some(4242)), "tcp://0.0.0.0:4242");
    assert_eq!(response_bind_address(None), "tcp://0.0.0.0:*");
    assert_eq!(advertised_address("10.0.0.5", "tcp://0.0.0.0:38211"), "tcp://10.0.0.5:38211");
    assert_eq!(advertised_address("10.0.0.5", "noport"), "tcp://10.0.0.5:noport");
    assert_eq!(ipv4_text(0xC0A8_0164), "192.168.1.100");
    assert_eq!(ipv4_text(0), "0.0.0.0");
    match local_ip_choice("tcp://127.0.0.1:5000", None) {
        LocalIp::Known(s) => assert_eq!(s, "127.0.0.1"),
        other => panic!("unexpected {:?}", other),
    }
    match local_ip_choice("tcp://localhost:5000", None) {
        LocalIp::Known(s) => assert_eq!(s, "127.0.0.1"),
        other => panic!("unexpected {:?}", other),
    }
    match local_ip_choice("tcp://192.168.1.100:5000", None) {
        LocalIp::Probe(s) => assert_eq!(s, "192.168.1.100"),
        other => panic!("unexpected {:?}", other),
    }
    match local_ip_choice("udp://x", None) {
        LocalIp::Known(s) => assert_eq!(s, "127.0.0.1"),
        other => panic!("unexpected {:?}", other),
    }
    match local_ip_choice("tcp://192.168.1.100:5000", Some(0x0A00_0002)) {
        LocalIp::Known(s) => assert_eq!(s, "10.0.0.2"),
        other => panic!("unexpected {:?}", other),
    }
}

#[test]
fn monitor_events_and_type_names() {
    assert_eq!(monitor_event(&[0x00, 0x10, 7, 7]), 4096);
    assert_eq!(monitor_event(&[1]), 0);
    assert_eq!(gz_type_name("gz_transport::msgs::WorldControl"), "gz.msgs.WorldControl");
    assert_eq!(gz_type_name("Boolean"), "gz.msgs.Boolean");
}

#[test]
fn outbox_sends_only_after_handshake() {
    let mut o: Outbox<u32> = Outbox::new();
    assert!(o.offer(1).is_none());
    assert_eq!(o.offer(2), Some(2));
    assert!(o.has_waiting());
    assert!(o.take_ready().is_none());
    o.observe(1);
    assert!(o.take_ready().is_none());
    o.observe(HANDSHAKE_SUCCEEDED);
    assert_eq!(o.take_ready(), Some(1));
    assert!(!o.has_waiting());
    o.observe(2);
    assert!(o.offer(3).is_none());
    assert_eq!(o.take_ready(), Some(3));
    let a = new_request_uuid();
    let b = new_request_uuid();
    assert_eq!(a.len(), 36);
    assert_ne!(a, b);
}

#[test]
fn call_outcome_cases() {
    let ok = call_outcome(ServiceResponse { request_uuid: "r".to_string(), data: vec![1, 2], success: true });
    assert_eq!(ok.unwrap(), vec![1, 2]);
    match call_outcome(ServiceResponse { request_uuid: "r".to_string(), data: vec![], success: false }) {
        Err(Error::ServiceCallFailed(m)) => assert_eq!(m, "Service returned failure"),
        other => panic!("unexpected {:?}", other),
    }
}
