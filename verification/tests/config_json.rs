//! The configuration model and its feature-negotiation JSON.

use nsq_client::config::ConfigBuilder;

fn plain_config_json() -> Vec<u8> {
    ConfigBuilder::new().client_id(None).hostname(None).build().to_json()
}

#[test]
fn default_config_renders_every_field_in_order() {
    let expected = "{\"client_id\":null,\"hostname\":null,\"feature_negotiation\":true,\"heartbeat_interval\":30000,\"output_buffer_size\":16384,\"output_buffer_timeout\":250,\"tls_v1\":false,\"snappy\":false,\"deflate\":false,\"deflate_level\":6,\"sample_rate\":0,\"user_agent\":\"rust nsq\",\"message_timeout\":0}";
    assert_eq!(plain_config_json(), expected.as_bytes().to_vec());
}

#[test]
fn rendered_json_parses_back() {
    let json = plain_config_json();
    let v: serde_json::Value = serde_json::from_slice(&json).unwrap();
    assert_eq!(v["feature_negotiation"], serde_json::Value::Bool(true));
    assert_eq!(v["heartbeat_interval"].as_i64(), Some(30000));
    assert_eq!(v["output_buffer_size"].as_u64(), Some(16384));
    assert_eq!(v["user_agent"].as_str(), Some("rust nsq"));
    assert!(v["client_id"].is_null());
    assert_eq!(v.as_object().unwrap().len(), 13);
}

#[test]
fn heartbeat_disable_sentinel_is_numeric() {
    let json = ConfigBuilder::new()
        .client_id(None)
        .hostname(None)
        .heartbeat_interval(-1)
        .build()
        .to_json();
    let s = String::from_utf8(json).unwrap();
    assert!(s.contains("\"heartbeat_interval\":-1,"));
}

#[test]
fn string_fields_are_escaped() {
    let json = ConfigBuilder::new()
        .client_id(Some("a\"b\\c\nd".to_string()))
        .hostname(None)
        .build()
        .to_json();
    let v: serde_json::Value = serde_json::from_slice(&json).unwrap();
    assert_eq!(v["client_id"].as_str(), Some("a\"b\\c\nd"));
    let s = String::from_utf8(json).unwrap();
    assert!(s.contains("\"client_id\":\"a\\\"b\\\\c\\nd\""));
}

#[test]
fn non_ascii_strings_survive() {
    let json = ConfigBuilder::new()
        .client_id(Some("überhost".to_string()))
        .hostname(None)
        .build()
        .to_json();
    let v: serde_json::Value = serde_json::from_slice(&json).unwrap();
    assert_eq!(v["client_id"].as_str(), Some("überhost"));
}

#[test]
fn caller_side_fields_never_reach_the_wire() {
    let json = ConfigBuilder::new()
        .client_id(None)
        .hostname(None)
        .auth("token-1".to_string())
        .cafile("/tmp/ca.pem".to_string())
        .channel("ch".to_string(), "tp".to_string())
        .rdy(7)
        .build()
        .to_json();
    let s = String::from_utf8(json).unwrap();
    assert!(!s.contains("token-1"));
    assert!(!s.contains("ca.pem"));
    assert!(!s.contains("rdy"));
    assert!(!s.contains("channel"));
    assert!(!s.contains("topic"));
}

#[test]
fn builder_setters_land_in_the_config() {
    let c = ConfigBuilder::new()
        .client_id(Some("me".to_string()))
        .user_agent("agent-1".to_string())
        .hostname(Some("node-1".to_string()))
        .deflate(true)
        .deflate_level(3)
        .snappy(true)
        .tls_v1(true)
        .feature_negotiation(false)
        .heartbeat_interval(1000)
        .message_timeout(60000)
        .output_buffer_size(64)
        .output_buffer_timeout(1)
        .sample_rate(99)
        .rdy(123)
        .build();
    assert_eq!(c.client_id.as_deref(), Some("me"));
    assert_eq!(c.user_agent, "agent-1");
    assert_eq!(c.hostname.as_deref(), Some("node-1"));
    assert!(c.deflate);
    assert_eq!(c.deflate_level, 3);
    assert!(c.snappy);
    assert!(c.tls_v1);
    assert!(!c.feature_negotiation);
    assert_eq!(c.heartbeat_interval, 1000);
    assert_eq!(c.message_timeout, 60000);
    assert_eq!(c.output_buffer_size, 64);
    assert_eq!(c.output_buffer_timeout, 1);
    assert_eq!(c.sample_rate, 99);
    assert_eq!(c.rdy, 123);
}
