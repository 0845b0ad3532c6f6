//! Tests for the spreadsheet row ingestion path.

use proxy_parser::rows::{ingest_row, row_map, RowError};

fn strings(vs: &[&str]) -> Vec<String> {
    vs.iter().map(|v| v.to_string()).collect()
}

#[test]
fn affirmative_row_yields_host() {
    let headers = strings(&["Needed for Traefik", "Host Name", "Blue Webproxy IP"]);
    let cells = strings(&["Y", "my.app.example.com", "10.0.0.9"]);
    let r = ingest_row(&headers, &cells).unwrap().unwrap();
    assert_eq!(r.host, "10.0.0.9");
    assert_eq!(r.server_name, "my.app.example.com");
    assert_eq!(r.document_root, "");
    assert!(!r.rewrite_engine);
}

#[test]
fn negative_row_yields_none() {
    let headers = strings(&["Needed for Traefik", "Host Name", "Blue Webproxy IP"]);
    let cells = strings(&["N", "my.app.example.com", "10.0.0.9"]);
    assert!(ingest_row(&headers, &cells).unwrap().is_none());
}

#[test]
fn missing_flag_column_skips_without_error() {
    let headers = strings(&["Host Name", "Blue Webproxy IP"]);
    let cells = strings(&["my.app.example.com", "10.0.0.9"]);
    assert!(ingest_row(&headers, &cells).unwrap().is_none());
}

#[test]
fn flag_is_case_insensitive() {
    let headers = strings(&["Needed for Traefik", "Host Name", "Blue Webproxy IP"]);
    let cells = strings(&["y", "a.example.com", "10.0.0.1"]);
    assert!(ingest_row(&headers, &cells).unwrap().is_some());
}

#[test]
fn header_matching_trims_and_ignores_case() {
    let headers = strings(&["  NEEDED FOR TRAEFIK  ", " HOST NAME ", " BLUE WEBPROXY IP "]);
    let cells = strings(&["Y", "a.example.com", "10.0.0.1"]);
    let r = ingest_row(&headers, &cells).unwrap().unwrap();
    assert_eq!(r.host, "10.0.0.1");
    assert_eq!(r.server_name, "a.example.com");
}

#[test]
fn cell_values_are_trimmed() {
    let headers = strings(&["Needed for Traefik", "Host Name", "Blue Webproxy IP"]);
    let cells = strings(&["Y", "  a.example.com  ", "  10.0.0.1  "]);
    let r = ingest_row(&headers, &cells).unwrap().unwrap();
    assert_eq!(r.host, "10.0.0.1");
    assert_eq!(r.server_name, "a.example.com");
}

#[test]
fn missing_host_name_is_malformed_row() {
    let headers = strings(&["Needed for Traefik", "Blue Webproxy IP"]);
    let cells = strings(&["Y", "10.0.0.9"]);
    assert!(matches!(ingest_row(&headers, &cells), Err(RowError::MissingHostName)));
}

#[test]
fn missing_proxy_address_is_malformed_row() {
    let headers = strings(&["Needed for Traefik", "Host Name"]);
    let cells = strings(&["Y", "my.app.example.com"]);
    assert!(matches!(ingest_row(&headers, &cells), Err(RowError::MissingProxyAddress)));
}

#[test]
fn short_cell_row_ignores_extra_headers() {
    let headers = strings(&["Needed for Traefik", "Host Name", "Blue Webproxy IP"]);
    let cells = strings(&["Y", "my.app.example.com"]);
    assert!(matches!(ingest_row(&headers, &cells), Err(RowError::MissingProxyAddress)));
}

#[test]
fn row_map_normalizes_keys_and_keeps_values_verbatim() {
    let headers = strings(&[" Needed For Traefik "]);
    let cells = strings(&["Y"]);
    let m = row_map(&headers, &cells);
    assert_eq!(m, vec![("needed for traefik".to_string(), "Y".to_string())]);
}

#[test]
fn cell_values_keep_their_case() {
    let headers = strings(&["Needed for Traefik", "Host Name", "Blue Webproxy IP"]);
    let cells = strings(&["Y", "MY.App.Example.Com", "10.0.0.9"]);
    let r = ingest_row(&headers, &cells).unwrap().unwrap();
    assert_eq!(r.server_name, "MY.App.Example.Com");
    assert_eq!(r.host, "10.0.0.9");
}

#[test]
fn duplicate_column_later_value_wins() {
    let headers = strings(&["Host Name", "host name"]);
    let cells = strings(&["first.example.com", "second.example.com"]);
    let m = row_map(&headers, &cells);
    assert_eq!(m.len(), 1);
    assert_eq!(m[0].1, "second.example.com");
}
