use gz_transport::config::{
    default_partition_name, EnvVars, DEFAULT_MULTICAST_ADDR, DEFAULT_MSG_DISCOVERY_PORT,
    DEFAULT_SRV_DISCOVERY_PORT,
};
use gz_transport::text::{decimal_text, parse_ipv4, parse_u16};
use gz_transport::Config;

#[test]
fn builder_sets_fields() {
    let c = Config::builder()
        .partition(Some("my_partition"))
        .discovery_timeout(10_000)
        .service_timeout(2_000)
        .heartbeat_interval(500)
        .msg_discovery_port(1)
        .srv_discovery_port(2)
        .multicast_addr(0x0A00_0001)
        .host_ip(Some(0x7F00_0001))
        .service_response_port(Some(4242))
        .build();
    assert_eq!(c.partition.as_deref(), Some("my_partition"));
    assert_eq!(c.discovery_timeout_ms, 10_000);
    assert_eq!(c.service_timeout_ms, 2_000);
    assert_eq!(c.heartbeat_interval_ms, 500);
    assert_eq!(c.msg_discovery_port, 1);
    assert_eq!(c.srv_discovery_port, 2);
    assert_eq!(c.multicast_addr, 0x0A00_0001);
    assert_eq!(c.host_ip, Some(0x7F00_0001));
    assert_eq!(c.service_response_port, Some(4242));
    assert_eq!(c.effective_partition(), "my_partition");
}

#[test]
fn default_config() {
    let c = Config::default();
    assert_eq!(c.multicast_addr, (239u32 << 24) | (255 << 16) | 7);
    assert_eq!(c.msg_discovery_port, 10317);
    assert_eq!(c.srv_discovery_port, 10318);
    assert_eq!(c.discovery_timeout_ms, 5000);
    assert_eq!(c.heartbeat_interval_ms, 1000);
    assert!(c.partition.is_none());
    assert!(c.effective_partition().contains(':'));
}

#[test]
fn default_partition_is_host_and_user() {
    assert_eq!(default_partition_name(Some("box".to_string()), "me"), "box:me");
    assert_eq!(default_partition_name(None, "me"), "localhost:me");
}

#[test]
fn config_from_environment_values() {
    let vars = EnvVars {
        partition: Some("p".to_string()),
        multicast_ip: Some("239.1.2.3".to_string()),
        msg_port: Some("+11000".to_string()),
        srv_port: Some("70000".to_string()),
        host_ip: Some("192.168.001.1".to_string()),
        service_response_port: Some("0".to_string()),
    };
    let c = Config::from_env(&vars);
    assert_eq!(c.partition.as_deref(), Some("p"));
    assert_eq!(c.multicast_addr, 0xEF01_0203);
    assert_eq!(c.msg_discovery_port, 11000);
    assert_eq!(c.srv_discovery_port, DEFAULT_SRV_DISCOVERY_PORT);
    assert_eq!(c.host_ip, None);
    assert_eq!(c.service_response_port, Some(0));
    let empty = EnvVars { partition: None, multicast_ip: None, msg_port: None, srv_port: None, host_ip: None, service_response_port: None };
    let d = Config::from_env(&empty);
    assert_eq!(d.multicast_addr, DEFAULT_MULTICAST_ADDR);
    assert_eq!(d.msg_discovery_port, DEFAULT_MSG_DISCOVERY_PORT);
}

#[test]
fn parse_u16_matches_std() {
    for s in ["0", "65535", "65536", "+1", "+", "", "-1", "007", "12a", " 1", "99999999999", "１"] {
        assert_eq!(parse_u16(s), s.parse::<u16>().ok(), "input {:?}", s);
    }
}

#[test]
fn parse_ipv4_cases() {
    let cases: [(&str, Option<u32>); 15] = [
        ("0.0.0.0", Some(0)),
        ("255.255.255.255", Some(u32::MAX)),
        ("256.0.0.1", None),
        ("1.2.3", None),
        ("1.2.3.4.5", None),
        ("01.2.3.4", None),
        ("1.2.3.04", None),
        ("1.2.3.0", Some(0x0102_0300)),
        ("a.b.c.d", None),
        ("", None),
        ("1..2.3", None),
        ("1.2.3.4 ", None),
        ("+1.2.3.4", None),
        ("1000.1.1.1", None),
        ("127.0.0.1", Some(0x7F00_0001)),
    ];
    for (s, expected) in cases {
        assert_eq!(parse_ipv4(s), expected, "input {:?}", s);
    }
}

#[test]
fn decimal_text_matches_display() {
    for n in [0u32, 7, 10, 99, 100, 65535, 4_294_967_295] {
        assert_eq!(decimal_text(n), n.to_string());
    }
}
