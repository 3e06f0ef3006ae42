//! The setup plan: order of settings and the field-size policy.

use httpstat::{setup_actions, Config, Header, RequestMethod, SetupAction};

#[test]
fn plan_opens_with_base_settings() {
    let mut config = Config::default();
    config.url = "http://example.test/".to_string();
    config.verbose = true;
    let plan = setup_actions(&config);
    match &plan[0] {
        SetupAction::Url(u) => assert_eq!(u, "http://example.test/"),
        _ => panic!("the URL comes first"),
    }
    assert!(matches!(plan[1], SetupAction::ShowHeader(false)));
    assert!(matches!(plan[2], SetupAction::Progress(true)));
    assert!(matches!(plan[3], SetupAction::Verbose(true)));
}

#[test]
fn plan_applies_options_in_order() {
    let mut config = Config::default();
    config.insecure = true;
    config.location = true;
    config.connect_timeout = Some(1500);
    let plan = setup_actions(&config);
    assert!(matches!(plan[4], SetupAction::SslVerifyHost(false)));
    assert!(matches!(plan[5], SetupAction::SslVerifyPeer(false)));
    assert!(matches!(plan[6], SetupAction::FollowLocation(true)));
    assert!(matches!(plan[7], SetupAction::ConnectTimeoutMs(1500)));
    assert!(matches!(plan[8], SetupAction::SelectGet));
    assert_eq!(plan.len(), 9);
}

#[test]
fn put_with_empty_body_never_advertises_field_size() {
    let mut config = Config::default();
    config.request_method = RequestMethod::Put;
    config.data = Some(String::new());
    let plan = setup_actions(&config);
    assert!(plan.iter().any(|a| matches!(a, SetupAction::Upload(true))));
    assert!(plan.iter().any(|a| matches!(a, SetupAction::InFileSize(0))));
    assert!(!plan.iter().any(|a| matches!(a, SetupAction::PostFieldSize(_))));
}

#[test]
fn put_with_body_advertises_input_size_only() {
    let mut config = Config::default();
    config.request_method = RequestMethod::Put;
    config.data = Some("abcd".to_string());
    let plan = setup_actions(&config);
    assert!(plan.iter().any(|a| matches!(a, SetupAction::InFileSize(4))));
    assert!(!plan.iter().any(|a| matches!(a, SetupAction::PostFieldSize(_))));
}

#[test]
fn get_with_body_advertises_field_size() {
    let mut config = Config::default();
    config.request_method = RequestMethod::Get;
    config.data = Some("hello".to_string());
    let plan = setup_actions(&config);
    assert!(plan.iter().any(|a| matches!(a, SetupAction::SelectGet)));
    assert!(plan.iter().any(|a| matches!(a, SetupAction::PostFieldSize(5))));
    assert!(!plan.iter().any(|a| matches!(a, SetupAction::Upload(_))));
}

#[test]
fn verbs_select_their_modes() {
    let mut config = Config::default();
    config.request_method = RequestMethod::Head;
    assert!(setup_actions(&config).iter().any(|a| matches!(a, SetupAction::SelectNoBody)));
    config.request_method = RequestMethod::Post;
    assert!(setup_actions(&config).iter().any(|a| matches!(a, SetupAction::SelectPost)));
    config.request_method = RequestMethod::Delete;
    let plan = setup_actions(&config);
    match plan.last().unwrap() {
        SetupAction::CustomRequest(t) => assert_eq!(t, "DELETE"),
        _ => panic!("other verbs go out as custom request tokens"),
    }
    config.request_method = RequestMethod::Custom("BREW".to_string());
    let plan = setup_actions(&config);
    assert!(plan.iter().any(|a| matches!(a, SetupAction::CustomRequest(t) if t == "BREW")));
}

#[test]
fn headers_append_in_insertion_order() {
    let mut config = Config::default();
    config.headers = Some(vec![
        Header { name: "A".to_string(), value: "1".to_string() },
        Header { name: "B".to_string(), value: "2".to_string() },
        Header { name: "A".to_string(), value: "3".to_string() },
    ]);
    let plan = setup_actions(&config);
    let lines: Vec<&String> = plan
        .iter()
        .filter_map(|a| match a {
            SetupAction::AppendHeader(l) => Some(l),
            _ => None,
        })
        .collect();
    assert_eq!(lines.len(), 3);
    assert_eq!(lines[0], "A: 1");
    assert_eq!(lines[1], "B: 2");
    assert_eq!(lines[2], "A: 3");
}
