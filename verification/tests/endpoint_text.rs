use edge_gateway::endpoint::{parse_endpoint, FormatError};

fn parsed(text: &str) -> (String, u16) {
    let endpoint = parse_endpoint(text).expect(text);
    (endpoint.host().to_string(), endpoint.port())
}

#[test]
fn host_and_port_with_each_separator() {
    assert_eq!(parsed("1.2.3.4:443"), ("1.2.3.4".to_string(), 443));
    assert_eq!(parsed("example.org=8080"), ("example.org".to_string(), 8080));
    assert_eq!(parsed("example.org-80"), ("example.org".to_string(), 80));
}

#[test]
fn host_keeps_earlier_separators() {
    assert_eq!(parsed("a-b-c-8080"), ("a-b-c".to_string(), 8080));
    assert_eq!(parsed("::1:53"), ("::1".to_string(), 53));
    assert_eq!(parsed("k=v=1:2=3"), ("k=v=1:2".to_string(), 3));
    assert_eq!(parsed("host::80"), ("host:".to_string(), 80));
}

#[test]
fn port_bounds() {
    assert_eq!(parsed("h:1"), ("h".to_string(), 1));
    assert_eq!(parsed("h:65535"), ("h".to_string(), 65535));
    assert_eq!(parse_endpoint("h:0"), Err(FormatError::PortRange));
    assert_eq!(parse_endpoint("h:00000"), Err(FormatError::PortRange));
    assert_eq!(parse_endpoint("h:65536"), Err(FormatError::PortRange));
    assert_eq!(parse_endpoint("h:99999"), Err(FormatError::PortRange));
}

#[test]
fn leading_zeros_count_as_digits() {
    assert_eq!(parsed("h:00080"), ("h".to_string(), 80));
    assert_eq!(parsed("h:0443"), ("h".to_string(), 443));
    assert_eq!(parse_endpoint("h:000080"), Err(FormatError::Malformed));
}

#[test]
fn malformed_texts() {
    for text in [
        "", ":", "h", "h:", ":80", "80", "h:123456", "h:8a", "h:80 ", "h:+80", "h 80", "h:-", "=1",
        "not-an-endpoint!!", "h:８０", "a\nb:80", "\n:80",
    ] {
        assert_eq!(parse_endpoint(text), Err(FormatError::Malformed), "{:?}", text);
    }
}

#[test]
fn host_may_hold_any_other_character() {
    assert_eq!(parsed("höst.example:80"), ("höst.example".to_string(), 80));
    assert_eq!(parsed("a b\tc:7"), ("a b\tc".to_string(), 7));
    assert_eq!(parsed("日本:443"), ("日本".to_string(), 443));
    assert_eq!(parsed("12345:6"), ("12345".to_string(), 6));
    assert_eq!(parsed("1:2"), ("1".to_string(), 2));
}

#[test]
fn line_feed_behind_the_separator_search_is_part_of_no_host() {
    assert_eq!(parse_endpoint("a:1\nb:80"), Err(FormatError::Malformed));
    assert_eq!(parsed("a\rb:80"), ("a\rb".to_string(), 80));
}

#[test]
fn clone_keeps_host_and_port() {
    let endpoint = parse_endpoint("1.2.3.4:443").unwrap();
    let copy = endpoint.clone();
    assert_eq!(copy, endpoint);
    assert_eq!(copy.host(), "1.2.3.4");
    assert_eq!(copy.port(), 443);
}
