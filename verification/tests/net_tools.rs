use orion_ai::func::system::net::{is_valid_host, parse_ping_stats};
use orion_ai::json::{JsonMember, JsonValue};

#[test]
fn test_is_valid_host() {
    assert!(is_valid_host("example.com"));
    assert!(is_valid_host("localhost"));
    assert!(is_valid_host("192.168.1.1"));
    assert!(is_valid_host("sub.domain.com"));
    assert!(is_valid_host("test-host"));

    assert!(!is_valid_host(""));
    assert!(!is_valid_host("a".repeat(254).as_str()));
    assert!(!is_valid_host("example;com"));
    assert!(!is_valid_host("example|com"));
    assert!(!is_valid_host("example&com"));
    assert!(!is_valid_host("example>com"));
    assert!(!is_valid_host("example<com"));
}

#[test]
fn hosts_with_shell_characters_or_too_long_are_rejected() {
    assert!(!is_valid_host("a;b"));
    assert!(!is_valid_host("a|b"));
    assert!(!is_valid_host("x".repeat(300).as_str()));
    assert!(is_valid_host("x".repeat(253).as_str()));
    assert!(is_valid_host("example.com"));
    assert!(is_valid_host("192.168.1.1"));
    assert!(is_valid_host("sub.host-name.io"));
    assert!(!is_valid_host("höst"));
}

#[test]
fn test_parse_ping_stats() {
    let ping_output = "PING example.com (93.184.216.34) 56(84) bytes of data.
64 bytes from 93.184.216.34 (93.184.216.34): icmp_seq=1 ttl=52 time=15.2 ms
64 bytes from 93.184.216.34 (93.184.216.34): icmp_seq=2 ttl=52 time=15.1 ms
64 bytes from 93.184.216.34 (93.184.216.34): icmp_seq=3 ttl=52 time=15.3 ms
64 bytes from 93.184.216.34 (93.184.216.34): icmp_seq=4 ttl=52 time=15.2 ms

--- example.com ping statistics ---
4 packets transmitted, 4 received, 0% packet loss, time 3005ms
rtt min/avg/max/mdev = 15.123/15.234/15.345/0.123 ms";

    let stats = parse_ping_stats(ping_output);
    assert!(stats.is_some());
    let stats = stats.unwrap();
    assert!(matches!(stats, JsonValue::Object(_)));
    assert!(matches!(stats.get("summary"), Some(JsonValue::Text(_))));
    let summary = stats.get("summary").unwrap().as_str().unwrap();
    assert!(summary.contains("4 packets transmitted"));
}

#[test]
fn the_summary_of_a_ping_is_its_last_line_on_packets() {
    let stats = parse_ping_stats("1 packets transmitted\n  2 packets transmitted, 2 received \nrtt");
    assert_eq!(
        stats,
        Some(JsonValue::object(vec![JsonMember::text(
            "summary",
            "2 packets transmitted, 2 received"
        )]))
    );
    assert_eq!(parse_ping_stats("no statistics here"), None);
    assert_eq!(parse_ping_stats(""), None);
}
