//! Verified core of an nginx access-log shipper: parsing of log lines,
//! IP matchers, watch specifications and Loki batching.
pub mod text;
pub mod ip_filter;
pub mod geoip;
pub mod config;
pub mod logs;
pub mod glob_pattern;
pub mod tailer;
pub mod loki;
