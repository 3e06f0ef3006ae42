//! Header and status-line parsing behaviour.

use httpstat::{Header, HttpResponseHeader, HttpstatError};

#[test]
fn status_line_with_reason() {
    let h = HttpResponseHeader::parse("HTTP/1.1 200 OK\r\n").unwrap();
    assert_eq!(h.http_version, "1.1");
    assert_eq!(h.response_code, 200);
    assert_eq!(h.response_message, Some("OK".to_string()));
}

#[test]
fn status_line_without_reason() {
    let h = HttpResponseHeader::parse("HTTP/2 404").unwrap();
    assert_eq!(h.http_version, "2");
    assert_eq!(h.response_code, 404);
    assert_eq!(h.response_message, None);
}

#[test]
fn status_line_reason_is_third_token() {
    let h = HttpResponseHeader::parse("HTTP/1.1 404 Not Found").unwrap();
    assert_eq!(h.http_version, "1.1");
    assert_eq!(h.response_code, 404);
    assert_eq!(h.response_message, Some("Not".to_string()));
}

#[test]
fn status_line_rejects_non_numeric_code() {
    let r = HttpResponseHeader::parse("HTTP/1.1 abc OK");
    match r {
        Err(HttpstatError::Parse(m)) => {
            assert_eq!(m, "invalid status line: HTTP/1.1 abc OK");
        }
        _ => panic!("a non-numeric code must be a parse error"),
    }
}

#[test]
fn status_line_rejects_missing_code() {
    assert!(HttpResponseHeader::parse("HTTP/1.1").is_err());
    assert!(HttpResponseHeader::parse("no slash here").is_err());
}

#[test]
fn status_line_code_out_of_range() {
    assert!(HttpResponseHeader::parse("HTTP/1.1 99999999999999999999 OK").is_err());
    assert!(HttpResponseHeader::parse("HTTP/1.1 2147483648").is_err());
    let h = HttpResponseHeader::parse("HTTP/1.1 2147483647").unwrap();
    assert_eq!(h.response_code, 2147483647);
    let l = HttpResponseHeader::parse("HTTP/1.1 -2147483648").unwrap();
    assert_eq!(l.response_code, -2147483648);
}

#[test]
fn status_line_code_with_leading_zeros() {
    let h = HttpResponseHeader::parse("HTTP/1.1 007").unwrap();
    assert_eq!(h.response_code, 7);
    let z = HttpResponseHeader::parse("HTTP/1.1 000").unwrap();
    assert_eq!(z.response_code, 0);
}

#[test]
fn header_parse_basic() {
    let h = Header::parse("Content-Type: text/html").unwrap();
    assert_eq!(h.name, "Content-Type");
    assert_eq!(h.value, "text/html");
}

#[test]
fn header_parse_trims_value_and_terminators() {
    let h = Header::parse("X-Flag: \t on \r\n").unwrap();
    assert_eq!(h.name, "X-Flag");
    assert_eq!(h.value, "on");
}

#[test]
fn header_parse_keeps_name_verbatim() {
    let h = Header::parse("  Host : example").unwrap();
    assert_eq!(h.name, "  Host ");
    assert_eq!(h.value, "example");
}

#[test]
fn header_parse_rejects_missing_colon() {
    match Header::parse("nocolon") {
        Err(HttpstatError::Parse(m)) => {
            assert_eq!(m, "invalid header line: nocolon");
        }
        _ => panic!("a line without a colon must be a parse error"),
    }
}

#[test]
fn header_round_trip() {
    let original = Header {
        name: "Accept".to_string(),
        value: "text/plain".to_string(),
    };
    let line = original.to_line();
    assert_eq!(line, "Accept: text/plain");
    let back = Header::parse(&line).unwrap();
    assert_eq!(back.name, original.name);
    assert_eq!(back.value, original.value);
}

#[test]
fn header_value_may_hold_colons() {
    let h = Header::parse("Location: https://example.test/a:b").unwrap();
    assert_eq!(h.name, "Location");
    assert_eq!(h.value, "https://example.test/a:b");
}
