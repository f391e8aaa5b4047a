//! The client façade.

use nsq_client::client::{Client, TcpConnection};
use nsq_client::config::{ConfigBuilder, ConfigResponse};

#[test]
fn client_collects_the_lifecycle_inputs() {
    let config = ConfigBuilder::new().client_id(None).hostname(None).build();
    let c = Client::new(
        "127.0.0.1:4150".to_string(),
        config,
        Some("secret".to_string()),
        None,
    );
    assert_eq!(c.addr, "127.0.0.1:4150");
    assert_eq!(c.auth.as_deref(), Some("secret"));
    assert!(c.cafile.is_none());
    assert!(!c.config.tls_v1);
}

#[test]
fn connection_record_builds_by_chaining() {
    let n = ConfigResponse::default();
    let _conn = TcpConnection::new()
        .auth(Some("tok".to_string()))
        .config(n)
        .channel("ch".to_string(), "tp".to_string())
        .rdy(5);
}
