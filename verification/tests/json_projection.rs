//! Tests for the JSON projection of an aggregated configuration.

use proxy_parser::configs::{ProxyConfig, VirtualHost};

fn s(v: &str) -> String {
    v.to_string()
}

#[test]
fn projection_has_one_value_per_host() {
    let mut pc = ProxyConfig::default();
    pc.add_virtual_host(VirtualHost::builder().host(s("1.1.1.1")).server_name(s("a.example.com")).build());
    pc.add_virtual_host(VirtualHost::builder().host(s("2.2.2.2")).server_name(s("b.example.com")).build());
    let values = pc.to_json();
    assert_eq!(values.len(), 2);
    assert_eq!(values[0], serde_json::Value::String(s("a.example.com")));
    assert_eq!(values[1], serde_json::Value::String(s("b.example.com")));
}

#[test]
fn projection_of_empty_config_is_empty() {
    let pc = ProxyConfig::default();
    assert!(pc.to_json().is_empty());
}
