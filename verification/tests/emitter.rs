//! Tests for command emission: name derivation, address/port split, and the
//! exact statement text.

use proxy_parser::configs::VirtualHost;
use proxy_parser::directive::Directive;
use proxy_parser::emit::{derive_name, middleware_commands, scheme_for_port, split_host_port};

fn s(v: &str) -> String {
    v.to_string()
}

fn args(vs: &[&str]) -> Vec<String> {
    vs.iter().map(|v| v.to_string()).collect()
}

#[test]
fn name_derivation_strips_scheme_and_dashes_dots() {
    assert_eq!(derive_name("https://my.app.example.com"), "my-app-example-com");
}

#[test]
fn name_derivation_handles_plain_and_http_names() {
    assert_eq!(derive_name("my.app.example.com"), "my-app-example-com");
    assert_eq!(derive_name("http://a.b"), "a-b");
    assert_eq!(derive_name("nodots"), "nodots");
    assert_eq!(derive_name(""), "");
}

#[test]
fn name_derivation_is_deterministic() {
    assert_eq!(derive_name("https://x.y.z"), derive_name("https://x.y.z"));
}

#[test]
fn port_and_scheme_inference_with_explicit_port() {
    let (addr, port) = split_host_port("10.0.0.5:443");
    assert_eq!(addr, "10.0.0.5");
    assert_eq!(port, "443");
    assert_eq!(scheme_for_port(&port), "https");
}

#[test]
fn port_defaults_to_80_without_suffix() {
    let (addr, port) = split_host_port("10.0.0.5");
    assert_eq!(addr, "10.0.0.5");
    assert_eq!(port, "80");
    assert_eq!(scheme_for_port(&port), "http");
}

#[test]
fn other_ports_mean_http() {
    let (addr, port) = split_host_port("10.0.0.5:8080");
    assert_eq!(addr, "10.0.0.5");
    assert_eq!(port, "8080");
    assert_eq!(scheme_for_port(&port), "http");
}

#[test]
fn split_tolerates_malformed_host_tokens() {
    let (addr, port) = split_host_port("strange:");
    assert_eq!(addr, "strange");
    assert_eq!(port, "");
    let (addr, port) = split_host_port(":9090");
    assert_eq!(addr, "");
    assert_eq!(port, "9090");
    let (addr, port) = split_host_port("");
    assert_eq!(addr, "");
    assert_eq!(port, "80");
}

#[test]
fn empty_server_name_emits_nothing() {
    let vh = VirtualHost::builder().host(s("10.0.0.1:443")).build();
    assert!(vh.etcd_statements().is_empty());
    assert_eq!(vh.to_etcd_config(), "");
}

#[test]
fn emission_is_idempotent() {
    let vh = VirtualHost::builder()
        .host(s("10.0.0.1:443"))
        .server_name(s("my.app.example.com"))
        .build();
    assert_eq!(vh.to_etcd_config(), vh.to_etcd_config());
    assert_eq!(vh.etcd_statements(), vh.etcd_statements());
}

#[test]
fn full_statement_sequence_for_https_host() {
    let vh = VirtualHost::builder()
        .host(s("10.0.0.1:443"))
        .server_name(s("my.app.example.com"))
        .build();
    let lines = vh.etcd_statements();
    let expected = vec![
        "put traefik/http/routers/my-app-example-com/rule Host(`my.app.example.com`)",
        "put traefik/http/routers/my-app-example-com/tls true",
        "put traefik/http/routers/my-app-example-com/entryPoints/0 websecure",
        "put traefik/http/routers/my-app-example-com/middlewares/0 https-only",
        "put traefik/http/routers/my-app-example-com/middlewares/1 follow-redirects",
        "put traefik/http/routers/my-app-example-com/service my-app-example-com",
        "put traefik/http/services/my-app-example-com/loadbalancer/servers/0/scheme https",
        "put traefik/http/services/my-app-example-com/loadbalancer/servers/0/url https://10.0.0.1",
        "put traefik/http/services/my-app-example-com/loadbalancer/servers/0/port 443",
        "put traefik/http/services/my-app-example-com/loadbalancer/responseForwarding/flushInterval 100ms",
        "put traefik/http/serversTransports/my-app-example-com-transport/insecureSkipVerify true",
        "put traefik/http/serversTransports/my-app-example-com-transport/forwardingTimeouts/responseHeaderTimeout 30s",
        "put traefik/http/serversTransports/my-app-example-com-transport/forwardingTimeouts/idleConnTimeout 30s",
        "put traefik/http/services/my-app-example-com/loadbalancer/serversTransport my-app-example-com-transport",
    ];
    assert_eq!(lines, expected);
    let text = vh.to_etcd_config();
    assert_eq!(text, expected.join("\n") + "\n");
}

#[test]
fn end_to_end_directive_tree_to_commands() {
    let d = Directive::block(
        s("VirtualHost"),
        args(&["10.0.0.1:443"]),
        vec![
            Directive::leaf(s("ServerName"), args(&["my.app.example.com"])),
            Directive::leaf(s("SSLEngine"), args(&["On"])),
            Directive::leaf(s("SSLCertificateFile"), args(&["/etc/ssl/cert.pem"])),
        ],
    );
    let vh = VirtualHost::from_directive(&d).unwrap();
    assert!(vh.ssl_config.enabled);
    assert_eq!(vh.ssl_config.certificate_file, "/etc/ssl/cert.pem");
    let text = vh.to_etcd_config();
    assert!(text.contains("put traefik/http/routers/my-app-example-com/tls true\n"));
    assert!(
        text.contains(
            "put traefik/http/services/my-app-example-com/loadbalancer/servers/0/scheme https\n"
        )
    );
}

#[test]
fn http_host_uses_http_scheme_and_url() {
    let vh = VirtualHost::builder().host(s("10.0.0.2")).server_name(s("plain.example.com")).build();
    let text = vh.to_etcd_config();
    assert!(
        text.contains(
            "put traefik/http/services/plain-example-com/loadbalancer/servers/0/scheme http\n"
        )
    );
    assert!(
        text.contains(
            "put traefik/http/services/plain-example-com/loadbalancer/servers/0/url http://10.0.0.2\n"
        )
    );
    assert!(
        text.contains("put traefik/http/services/plain-example-com/loadbalancer/servers/0/port 80\n")
    );
}

#[test]
fn nonstandard_port_emits_http_scheme_and_keeps_port() {
    let vh = VirtualHost::builder().host(s("10.0.0.4:8080")).server_name(s("o.example.com")).build();
    let text = vh.to_etcd_config();
    assert!(
        text.contains("put traefik/http/services/o-example-com/loadbalancer/servers/0/scheme http\n")
    );
    assert!(
        text.contains(
            "put traefik/http/services/o-example-com/loadbalancer/servers/0/url http://10.0.0.4\n"
        )
    );
    assert!(
        text.contains("put traefik/http/services/o-example-com/loadbalancer/servers/0/port 8080\n")
    );
}

#[test]
fn rule_keeps_unstripped_server_name() {
    let vh = VirtualHost::builder().host(s("10.0.0.3:443")).server_name(
        s("https://sch.example.com"),
    ).build();
    let lines = vh.etcd_statements();
    assert_eq!(lines[0], "put traefik/http/routers/sch-example-com/rule Host(`https://sch.example.com`)");
    assert_eq!(lines[5], "put traefik/http/routers/sch-example-com/service sch-example-com");
}

#[test]
fn middleware_commands_are_fixed() {
    let lines = middleware_commands();
    assert_eq!(lines.len(), 12);
    assert_eq!(lines[0], "put traefik.http.middlewares.secured.chain.middlewares https-only");
    assert_eq!(lines[6], "put traefik/http/middlewares/https-only/redirectScheme/port 443");
    assert_eq!(
        lines[10],
        "put traefik/http/middlewares/enable-headers/headers/accessControlMaxAge \"3600\""
    );
    assert_eq!(middleware_commands(), lines);
}
