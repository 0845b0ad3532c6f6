//! Translation of Apache-style virtual-host configuration into commands for a
//! reverse-proxy control plane.
//!
//! The crate models one virtual host as a plain value ([`configs::VirtualHost`]),
//! builds such values from a parsed directive tree ([`directive::Directive`]) or
//! from a spreadsheet row ([`rows::ingest_row`]), aggregates them into a
//! [`configs::ProxyConfig`], and renders them into `put <key> <value>`
//! statements ([`emit`]) or a JSON projection ([`jsonval`]).

pub mod builder;
pub mod configs;
pub mod directive;
pub mod emit;
pub mod jsonval;
pub mod rows;
pub mod strutil;
pub mod table;
