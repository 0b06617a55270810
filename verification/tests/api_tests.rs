use mnemnk_agent::api::{AgentConfig, IngressValue, StoreOutcome, StoreRequest, handle_store, process_line};

fn open_config() -> AgentConfig {
    AgentConfig { address: "localhost:3296".to_string(), api_key: None }
}

fn keyed_config() -> AgentConfig {
    AgentConfig { address: "localhost:3296".to_string(), api_key: Some("secret".to_string()) }
}

fn valid_request() -> StoreRequest {
    StoreRequest {
        agent: "x".to_string(),
        kind: "note".to_string(),
        value: IngressValue::Json("{\"a\":1}".to_string()),
    }
}

#[test]
fn default_config_has_documented_values() {
    let c = AgentConfig::default();
    assert_eq!(c.address, "localhost:3296");
    assert!(c.api_key.is_none());
}

#[test]
fn config_takes_present_fields() {
    let c = AgentConfig::from_json_str("{\"address\":\"0.0.0.0:8080\",\"api_key\":\"k\"}");
    assert_eq!(c.address, "0.0.0.0:8080");
    assert_eq!(c.api_key.as_deref(), Some("k"));
}

#[test]
fn partial_config_keeps_defaults_for_absent_fields() {
    let c = AgentConfig::from_json_str("{\"api_key\":\"k\"}");
    assert_eq!(c.address, "localhost:3296");
    assert_eq!(c.api_key.as_deref(), Some("k"));
    let c = AgentConfig::from_json_str("{\"address\":\"a:1\"}");
    assert_eq!(c.address, "a:1");
    assert!(c.api_key.is_none());
}

#[test]
fn malformed_field_falls_back_to_default() {
    let c = AgentConfig::from_json_str("{\"address\":5}");
    assert_eq!(c.address, "localhost:3296");
}

#[test]
fn non_object_payload_yields_defaults() {
    let c = AgentConfig::from_json_str("[1,2]");
    assert_eq!(c.address, "localhost:3296");
    assert!(c.api_key.is_none());
    let c = AgentConfig::from_json_str("not json at all");
    assert_eq!(c.address, "localhost:3296");
}

#[test]
fn store_rejects_empty_kind() {
    let req = StoreRequest {
        agent: "x".to_string(),
        kind: "".to_string(),
        value: IngressValue::Json("1".to_string()),
    };
    match handle_store(&open_config(), "", &req) {
        StoreOutcome::Rejected { message } => assert_eq!(message, "Kind is empty"),
        StoreOutcome::Accepted { .. } => panic!("empty kind must be rejected"),
    }
}

#[test]
fn store_rejects_null_value() {
    let req = StoreRequest {
        agent: "x".to_string(),
        kind: "note".to_string(),
        value: IngressValue::Null,
    };
    match handle_store(&open_config(), "", &req) {
        StoreOutcome::Rejected { message } => assert_eq!(message, "Value is null"),
        StoreOutcome::Accepted { .. } => panic!("null value must be rejected"),
    }
}

#[test]
fn store_accepts_valid_request_with_correct_token() {
    match handle_store(&keyed_config(), "secret", &valid_request()) {
        StoreOutcome::Accepted { line, body } => {
            assert_eq!(line, ".OUT note note {\"a\":1}");
            assert_eq!(body, "{\"status\":\"ok\"}");
        }
        StoreOutcome::Rejected { message } => panic!("rejected: {}", message),
    }
}

#[test]
fn store_rejects_wrong_token() {
    match handle_store(&keyed_config(), "bad", &valid_request()) {
        StoreOutcome::Rejected { message } => assert_eq!(message, "Unauthorized"),
        StoreOutcome::Accepted { .. } => panic!("wrong token must be rejected"),
    }
}

#[test]
fn empty_key_is_open_mode() {
    let cfg = AgentConfig { address: "a".to_string(), api_key: Some("".to_string()) };
    match handle_store(&cfg, "anything", &valid_request()) {
        StoreOutcome::Accepted { .. } => {}
        StoreOutcome::Rejected { message } => panic!("rejected: {}", message),
    }
}

#[test]
fn auth_is_checked_before_validation() {
    let req = StoreRequest {
        agent: "x".to_string(),
        kind: "".to_string(),
        value: IngressValue::Null,
    };
    match handle_store(&keyed_config(), "bad", &req) {
        StoreOutcome::Rejected { message } => assert_eq!(message, "Unauthorized"),
        StoreOutcome::Accepted { .. } => panic!("must be rejected"),
    }
}

#[test]
fn resubmission_is_accepted_again() {
    let cfg = keyed_config();
    let req = valid_request();
    let first = handle_store(&cfg, "secret", &req);
    let second = handle_store(&cfg, "secret", &req);
    let line1 = match first {
        StoreOutcome::Accepted { line, .. } => line,
        StoreOutcome::Rejected { message } => panic!("rejected: {}", message),
    };
    let line2 = match second {
        StoreOutcome::Accepted { line, .. } => line,
        StoreOutcome::Rejected { message } => panic!("rejected: {}", message),
    };
    assert_eq!(line1, line2);
    assert_eq!(line1, ".OUT note note {\"a\":1}");
}

#[test]
fn config_line_replaces_config() {
    let mut c = AgentConfig::default();
    let quit = process_line(&mut c, ".CONFIG {\"address\":\"b:2\"}\n");
    assert!(!quit);
    assert_eq!(c.address, "b:2");
    assert!(c.api_key.is_none());
}

#[test]
fn quit_line_requests_quit_and_keeps_config() {
    let mut c = AgentConfig::from_json_str("{\"address\":\"b:2\"}");
    let quit = process_line(&mut c, ".QUIT\n");
    assert!(quit);
    assert_eq!(c.address, "b:2");
}

#[test]
fn unknown_verb_changes_nothing() {
    let mut c = AgentConfig::from_json_str("{\"address\":\"b:2\"}");
    let quit = process_line(&mut c, ".BOGUS stuff\n");
    assert!(!quit);
    assert_eq!(c.address, "b:2");
    let quit = process_line(&mut c, "\n");
    assert!(!quit);
    assert_eq!(c.address, "b:2");
}
