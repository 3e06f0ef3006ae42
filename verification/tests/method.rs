//! Request methods and the default configuration.

use httpstat::{Config, RequestMethod};

#[test]
fn fixed_verbs_parse_case_insensitively() {
    assert!(matches!(RequestMethod::from_token("get"), RequestMethod::Get));
    assert!(matches!(RequestMethod::from_token("GET"), RequestMethod::Get));
    assert!(matches!(RequestMethod::from_token("Put"), RequestMethod::Put));
    assert!(matches!(RequestMethod::from_token("delete"), RequestMethod::Delete));
    assert!(matches!(RequestMethod::from_token("head"), RequestMethod::Head));
    assert!(matches!(RequestMethod::from_token("options"), RequestMethod::Options));
    assert!(matches!(RequestMethod::from_token("patch"), RequestMethod::Patch));
    assert!(matches!(RequestMethod::from_token("post"), RequestMethod::Post));
    assert!(matches!(RequestMethod::from_token("trace"), RequestMethod::Trace));
}

#[test]
fn unknown_tokens_become_upper_cased_custom_methods() {
    match RequestMethod::from_token("brew") {
        RequestMethod::Custom(t) => assert_eq!(t, "BREW"),
        _ => panic!("an unknown token is a custom method"),
    }
}

#[test]
fn methods_print_their_wire_tokens() {
    assert_eq!(RequestMethod::Get.as_str(), "GET");
    assert_eq!(RequestMethod::Options.as_str(), "OPTIONS");
    assert_eq!(RequestMethod::Trace.as_str(), "TRACE");
    assert_eq!(RequestMethod::Custom("BREW".to_string()).as_str(), "BREW");
}

#[test]
fn default_config_is_a_plain_get() {
    let c = Config::default();
    assert!(!c.location);
    assert_eq!(c.connect_timeout, None);
    assert!(matches!(c.request_method, RequestMethod::Get));
    assert!(c.data.is_none());
    assert!(c.headers.is_none());
    assert!(!c.insecure);
    assert_eq!(c.url, "");
    assert!(!c.verbose);
    assert_eq!(c.max_response_size, None);
}
