use gz_transport::partition::{
    fully_qualified_name, parse_fully_qualified, validate_partition, validate_topic,
};
use gz_transport::Error;

#[test]
fn test_validate_topic() {
    assert!(validate_topic("/world/default/pose/info").is_ok());
    assert!(validate_topic("pose").is_ok());
    assert!(validate_topic("").is_err());
    assert!(validate_topic("/invalid//topic").is_err());
    assert!(validate_topic("invalid@topic").is_err());
    assert!(validate_topic("invalid topic").is_err());
}

#[test]
fn test_fully_qualified_name() {
    assert_eq!(
        fully_qualified_name("mypartition", "", "/world/default/pose"),
        "@/mypartition@/world/default/pose"
    );

    assert_eq!(
        fully_qualified_name("mypartition", "ns", "topic"),
        "@/mypartition@/ns/topic"
    );
}

#[test]
fn test_parse_fully_qualified() {
    let (partition, topic) = parse_fully_qualified("@mypartition@/world/default/pose").unwrap();
    assert_eq!(partition, "mypartition");
    assert_eq!(topic, "/world/default/pose");
}

fn topic_reason(r: gz_transport::Result<()>) -> String {
    match r {
        Err(Error::InvalidTopicName { reason }) => reason,
        other => panic!("expected an invalid topic name, got {:?}", other),
    }
}

#[test]
fn validate_topic_reports_the_first_problem() {
    assert_eq!(topic_reason(validate_topic("")), "Topic name cannot be empty");
    assert_eq!(topic_reason(validate_topic("a//b@c")), "Topic name cannot contain '//'");
    assert_eq!(topic_reason(validate_topic("a~b@c")), "Topic name cannot contain '~'");
    assert_eq!(topic_reason(validate_topic("a:b@c")), "Topic name cannot contain '@'");
    assert_eq!(topic_reason(validate_topic("a:b")), "Topic name cannot contain ':'");
    assert_eq!(topic_reason(validate_topic("a\tb")), "Topic name cannot contain whitespace");
    assert_eq!(topic_reason(validate_topic("a\u{3000}b")), "Topic name cannot contain whitespace");
    assert!(validate_topic("/a/b_c-d.e").is_ok());
}

#[test]
fn validate_partition_cases() {
    match validate_partition("") {
        Err(Error::InvalidPartition { reason }) => assert_eq!(reason, "Partition name cannot be empty"),
        other => panic!("unexpected {:?}", other),
    }
    match validate_partition("a@b") {
        Err(Error::InvalidPartition { reason }) => assert_eq!(reason, "Partition name cannot contain '@'"),
        other => panic!("unexpected {:?}", other),
    }
    assert!(validate_partition("host:user").is_ok());
}

#[test]
fn fully_qualified_name_namespaces() {
    assert_eq!(fully_qualified_name("p", "/ns/", "t"), "@/p@/ns/t");
    assert_eq!(fully_qualified_name("p", "/ns", "t"), "@/p@/ns/t");
    assert_eq!(fully_qualified_name("p", "", "t"), "@/p@/t");
    assert_eq!(fully_qualified_name("p", "ns", "/abs"), "@/p@/abs");
}

#[test]
fn parse_fully_qualified_cases() {
    assert_eq!(
        parse_fully_qualified("@/part@/topic"),
        Some(("part".to_string(), "/topic".to_string()))
    );
    assert_eq!(
        parse_fully_qualified("@//part@x@y"),
        Some(("part".to_string(), "x@y".to_string()))
    );
    assert_eq!(parse_fully_qualified("part@/topic"), None);
    assert_eq!(parse_fully_qualified("@part"), None);
    assert_eq!(parse_fully_qualified("@/@/topic"), None);
    assert_eq!(parse_fully_qualified("@ @/topic"), None);
    assert_eq!(parse_fully_qualified("@part@  "), None);
}

#[test]
fn fully_qualified_name_reads_back() {
    for (p, ns, t) in [("host:user", "", "/world/clock"), ("p", "ns", "topic"), ("x", "/a/", "b")] {
        let fqn = fully_qualified_name(p, ns, t);
        let (part, topic) = parse_fully_qualified(&fqn).unwrap();
        assert_eq!(part, p);
        assert!(fqn.ends_with(&topic));
        assert!(topic.starts_with('/'));
    }
}
