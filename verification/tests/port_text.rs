use port_scanner::{format_port, parse_port, parse_port_or, probe_address};

#[test]
fn parses_plain_numerals() {
    assert_eq!(parse_port("1"), Some(1));
    assert_eq!(parse_port("80"), Some(80));
    assert_eq!(parse_port("1024"), Some(1024));
    assert_eq!(parse_port("65535"), Some(65535));
}

#[test]
fn accepts_a_leading_plus_and_leading_zeros() {
    assert_eq!(parse_port("+80"), Some(80));
    assert_eq!(parse_port("0080"), Some(80));
    assert_eq!(parse_port("+00443"), Some(443));
    assert_eq!(parse_port("000000000000000000000000022"), Some(22));
}

#[test]
fn rejects_text_that_is_no_numeral() {
    assert_eq!(parse_port(""), None);
    assert_eq!(parse_port("+"), None);
    assert_eq!(parse_port("-"), None);
    assert_eq!(parse_port("abc"), None);
    assert_eq!(parse_port("8o"), None);
    assert_eq!(parse_port("80 "), None);
    assert_eq!(parse_port(" 80"), None);
    assert_eq!(parse_port("-1"), None);
    assert_eq!(parse_port("++1"), None);
    assert_eq!(parse_port("1+"), None);
    assert_eq!(parse_port("8.0"), None);
    assert_eq!(parse_port("0x50"), None);
}

#[test]
fn rejects_digits_outside_ascii() {
    assert_eq!(parse_port("\u{0663}"), None);
    assert_eq!(parse_port("8\u{0660}"), None);
    assert_eq!(parse_port("\u{ff18}\u{ff10}"), None);
    assert_eq!(parse_port("80\u{00e9}"), None);
}

#[test]
fn rejects_numbers_that_are_no_port() {
    assert_eq!(parse_port("0"), None);
    assert_eq!(parse_port("000"), None);
    assert_eq!(parse_port("+0"), None);
    assert_eq!(parse_port("65536"), None);
    assert_eq!(parse_port("70000"), None);
    assert_eq!(parse_port("655350"), None);
    assert_eq!(parse_port("4294967296"), None);
    assert_eq!(parse_port("4294967376"), None);
    assert_eq!(parse_port("99999999999999999999999999"), None);
}

#[test]
fn agrees_with_the_standard_parser_on_every_port() {
    for port in 1..=65535u16 {
        let text = port.to_string();
        assert_eq!(parse_port(&text), Some(port));
        assert_eq!(text.parse::<u16>().ok(), Some(port));
    }
}

#[test]
fn falls_back_where_the_text_denotes_no_port() {
    assert_eq!(parse_port_or("abc", 1), 1);
    assert_eq!(parse_port_or("", 1024), 1024);
    assert_eq!(parse_port_or("70000", 1024), 1024);
    assert_eq!(parse_port_or("0", 1), 1);
    assert_eq!(parse_port_or("443", 1), 443);
    assert_eq!(parse_port_or("22", 1024), 22);
}

#[test]
fn formats_ports_in_decimal() {
    assert_eq!(format_port(0), "0");
    assert_eq!(format_port(7), "7");
    assert_eq!(format_port(10), "10");
    assert_eq!(format_port(80), "80");
    assert_eq!(format_port(1024), "1024");
    assert_eq!(format_port(40009), "40009");
    assert_eq!(format_port(65535), "65535");
}

#[test]
fn formatting_and_parsing_are_inverse_on_ports() {
    for port in 1..=65535u16 {
        assert_eq!(format_port(port), port.to_string());
        assert_eq!(parse_port(&format_port(port)), Some(port));
    }
}

#[test]
fn joins_host_and_port_with_a_colon() {
    assert_eq!(probe_address("127.0.0.1", 80), "127.0.0.1:80");
    assert_eq!(probe_address("example.org", 65535), "example.org:65535");
    assert_eq!(probe_address("::1", 1), "::1:1");
    assert_eq!(probe_address("", 0), ":0");
}
