use gz_transport::config::{DEFAULT_MSG_DISCOVERY_PORT, DEFAULT_SRV_DISCOVERY_PORT, WIRE_VERSION};
use gz_transport::discovery::message::{decode_frame, encode_frame, MAX_FRAME_SIZE};
use gz_transport::msgs::discovery;
use gz_transport::Error;

#[test]
fn test_roundtrip() {
    // A Boolean { header: None, data: true } encodes as field 2, varint 1.
    let body = vec![0x10u8, 0x01];
    let encoded = encode_frame(&body).unwrap();
    let decoded = decode_frame(&encoded).unwrap();
    assert_eq!(decoded, body);
    assert!(decoded[1] == 1);
}

#[test]
fn test_decode_short() {
    assert!(decode_frame(&[]).is_err());
    assert!(decode_frame(&[0]).is_err());
}

#[test]
fn test_fully_qualified_name_format() {
    let partition = "test_partition";
    let topic = "/world/default/clock";

    let fqn = format!("@/{}@{}", partition, topic);
    assert_eq!(fqn, "@/test_partition@/world/default/clock");
    assert!(fqn.starts_with("@/"));
    assert!(fqn.contains("@/world"));
    assert_eq!(gz_transport::partition::fully_qualified_name(partition, "", topic), fqn);
}

#[test]
fn test_wire_version() {
    assert_eq!(WIRE_VERSION, 10);
}

#[test]
fn test_message_type_values() {
    assert_eq!(discovery::Type::Uninitialized.to_i32(), 0);
    assert_eq!(discovery::Type::Advertise.to_i32(), 1);
    assert_eq!(discovery::Type::Subscribe.to_i32(), 2);
    assert_eq!(discovery::Type::Unadvertise.to_i32(), 3);
    assert_eq!(discovery::Type::Heartbeat.to_i32(), 4);
    assert_eq!(discovery::Type::Bye.to_i32(), 5);
    assert_eq!(discovery::Type::NewConnection.to_i32(), 6);
    assert_eq!(discovery::Type::EndConnection.to_i32(), 7);
}

#[test]
fn test_discovery_ports_are_separate() {
    assert_eq!(DEFAULT_MSG_DISCOVERY_PORT, 10317, "Topic discovery port");
    assert_eq!(DEFAULT_SRV_DISCOVERY_PORT, 10318, "Service discovery port");
    assert_ne!(
        DEFAULT_MSG_DISCOVERY_PORT, DEFAULT_SRV_DISCOVERY_PORT,
        "Topics and services MUST use different ports"
    );
}

#[test]
fn frame_has_little_endian_length() {
    let body: Vec<u8> = (0..300u32).map(|i| (i % 251) as u8).collect();
    let f = encode_frame(&body).unwrap();
    assert_eq!(f[0], 44);
    assert_eq!(f[1], 1);
    assert_eq!(&f[2..], &body[..]);
    let mut with_tail = f.clone();
    with_tail.extend_from_slice(&[9, 9, 9]);
    assert_eq!(decode_frame(&with_tail).unwrap(), body);
}

#[test]
fn frame_too_large_is_refused() {
    let body = vec![0u8; MAX_FRAME_SIZE + 1];
    match encode_frame(&body) {
        Err(Error::MessageTooLarge { size, max }) => {
            assert_eq!(size, 65536);
            assert_eq!(max, 65535);
        }
        other => panic!("unexpected {:?}", other.map(|v| v.len())),
    }
    assert_eq!(encode_frame(&vec![7u8; MAX_FRAME_SIZE]).unwrap().len(), 65537);
}

#[test]
fn frame_shorter_than_announced_is_refused() {
    match decode_frame(&[5, 0, 1, 2]) {
        Err(Error::InvalidFrame { expected, actual }) => {
            assert_eq!(expected, 5);
            assert_eq!(actual, 2);
        }
        other => panic!("unexpected {:?}", other),
    }
    match decode_frame(&[1]) {
        Err(Error::InvalidFrame { expected, actual }) => {
            assert_eq!(expected, 2);
            assert_eq!(actual, 1);
        }
        other => panic!("unexpected {:?}", other),
    }
    assert_eq!(decode_frame(&[0, 0]).unwrap(), Vec::<u8>::new());
}

#[test]
fn type_from_wire_values() {
    for v in 0..8 {
        assert_eq!(discovery::Type::from_i32(v).to_i32(), v);
    }
    assert_eq!(discovery::Type::from_i32(42), discovery::Type::Uninitialized);
    assert_eq!(discovery::Scope::All.to_i32(), 2);
}
