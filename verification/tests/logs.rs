use nginx_loki::config::LogFormat;
use nginx_loki::logs::{
    nginx_time_to_ns, parse_json_at, parse_line, query_string, time_overflows, try_parse_line,
    url_path, ParseError,
};
use serde_json::Value;

#[test]
fn parses_combined_timestamp() {
    let line = r#"217.198.191.213 - - [31/Jul/2026:15:33:55 +0000] "GET / HTTP/1.1" 200 832 "-" "Mozilla/5.0""#;
    let parsed = parse_line(LogFormat::Combined, line).unwrap();
    assert_eq!(parsed.timestamp_ns, "1785512035000000000");
    assert_eq!(parsed.remote_addr, Some("217.198.191.213".parse().unwrap()));
    assert_eq!(parsed.request_path.as_deref(), Some("/"));
    assert_eq!(parsed.status, Some(200));
    let value: Value = serde_json::from_str(&parsed.line).unwrap();
    assert_eq!(value["remote_addr"], "217.198.191.213");
    assert_eq!(value["remote_user"], "");
    assert_eq!(value["time_iso8601"], "2026-07-31T15:33:55+00:00");
    assert_eq!(value["method"], "GET");
    assert_eq!(value["request_method"], "GET");
    assert_eq!(value["path"], "/");
    assert_eq!(value["request"], "GET / HTTP/1.1");
    assert_eq!(value["request_uri"], "/");
    assert_eq!(value["args"], "");
    assert_eq!(value["protocol"], "HTTP/1.1");
    assert_eq!(value["server_protocol"], "HTTP/1.1");
    assert_eq!(value["status"], 200);
    assert_eq!(value["body_bytes_sent"], 832);
    assert_eq!(value["referer"], "");
    assert_eq!(value["http_referer"], "");
    assert_eq!(value["user_agent"], "Mozilla/5.0");
    assert_eq!(value["http_user_agent"], "Mozilla/5.0");
    assert_eq!(value["request_time"], 0.0);
    assert_eq!(value["geoip_country_code"], "");
    assert_eq!(value["geoip_country_iso3"], "");
    assert_eq!(value["geoip_city_name"], "");
    assert_eq!(value["geoip_latitude"], Value::Null);
    assert_eq!(value["geoip_longitude"], Value::Null);
    assert_eq!(value["message"], line);
}

#[test]
fn parses_query_string_for_dashboard_request_uri() {
    let line = r#"192.168.111.186 - meka [31/Jul/2026:15:33:55 +0000] "GET /api/search?q=test HTTP/2.0" 200 53 "https://grafana.sys.it.com/" "Firefox""#;
    let parsed = parse_line(LogFormat::Combined, line).unwrap();
    assert_eq!(parsed.request_path.as_deref(), Some("/api/search"));
    let value: Value = serde_json::from_str(&parsed.line).unwrap();
    assert_eq!(value["request_uri"], "/api/search?q=test");
    assert_eq!(value["args"], "q=test");
    assert_eq!(value["http_referer"], "https://grafana.sys.it.com/");
    assert_eq!(value["remote_user"], "meka");
}

#[test]
fn parses_json_rfc3339_timestamp() {
    let parsed = parse_line(
        LogFormat::Json,
        r#"{"time":"2026-07-31T15:33:55Z","status":200}"#,
    )
    .unwrap();
    assert_eq!(parsed.timestamp_ns, "1785512035000000000");
    assert_eq!(parsed.remote_addr, None);
    assert_eq!(parsed.status, Some(200));
}

#[test]
fn parses_json_string_status() {
    let parsed = parse_line(
        LogFormat::Json,
        r#"{"time":"2026-07-31T15:33:55Z","status":"302"}"#,
    )
    .unwrap();
    assert_eq!(parsed.status, Some(302));
}

#[test]
fn parses_json_remote_addr() {
    let parsed = parse_line(
        LogFormat::Json,
        r#"{"time":"2026-07-31T15:33:55Z","remote_addr":"2001:db8::1"}"#,
    )
    .unwrap();
    assert_eq!(parsed.remote_addr, Some("2001:db8::1".parse().unwrap()));
}

#[test]
fn parses_json_request_path() {
    let parsed = parse_line(
        LogFormat::Json,
        r#"{"time":"2026-07-31T15:33:55Z","request_uri":"/status?full=1"}"#,
    )
    .unwrap();
    assert_eq!(parsed.request_path.as_deref(), Some("/status"));

    let parsed = parse_line(
        LogFormat::Json,
        r#"{"time":"2026-07-31T15:33:55Z","request":"GET /api/ping?x=1 HTTP/2.0"}"#,
    )
    .unwrap();
    assert_eq!(parsed.request_path.as_deref(), Some("/api/ping"));
}

#[test]
fn rejects_invalid_combined() {
    assert!(parse_line(LogFormat::Combined, "not nginx").is_err());
}

#[test]
fn combined_line_with_dash_body_and_escapes() {
    let line = "10.0.0.1 - - [01/Jan/2024:00:00:00 +0100] \"POST /a\\b?x=1 HTTP/1.0\" 404 - \"-\" \"a\tb\" trailing";
    let parsed = parse_line(LogFormat::Combined, line).unwrap();
    assert_eq!(parsed.timestamp_ns, "1704063600000000000");
    assert_eq!(parsed.status, Some(404));
    assert_eq!(parsed.request_path.as_deref(), Some("/a\\b"));
    let value: Value = serde_json::from_str(&parsed.line).unwrap();
    assert_eq!(value["body_bytes_sent"], Value::Null);
    assert_eq!(value["args"], "x=1");
    assert_eq!(value["user_agent"], "a\tb");
    assert_eq!(value["time_iso8601"], "2024-01-01T00:00:00+01:00");
    assert_eq!(value["message"], line);
}

#[test]
fn combined_record_is_compact_and_sorted() {
    let line = r#"1.2.3.4 - u [31/Jul/2026:15:33:55 +0000] "GET /p HTTP/1.1" 200 5 "r" "a""#;
    let parsed = parse_line(LogFormat::Combined, line).unwrap();
    let expected = format!(
        "{{\"args\":\"\",\"body_bytes_sent\":5,\"geoip_city_name\":\"\",\"geoip_country_code\":\"\",\"geoip_country_iso3\":\"\",\"geoip_latitude\":null,\"geoip_longitude\":null,\"http_referer\":\"r\",\"http_user_agent\":\"a\",\"message\":{},\"method\":\"GET\",\"path\":\"/p\",\"protocol\":\"HTTP/1.1\",\"referer\":\"r\",\"remote_addr\":\"1.2.3.4\",\"remote_user\":\"u\",\"request\":\"GET /p HTTP/1.1\",\"request_method\":\"GET\",\"request_time\":0.0,\"request_uri\":\"/p\",\"server_protocol\":\"HTTP/1.1\",\"status\":200,\"time_iso8601\":\"2026-07-31T15:33:55+00:00\",\"time_local\":\"31/Jul/2026:15:33:55 +0000\",\"user_agent\":\"a\"}}",
        serde_json::to_string(line).unwrap()
    );
    assert_eq!(parsed.line, expected);
}

#[test]
fn combined_path_runs_to_last_space() {
    let line = r#"1.2.3.4 - - [31/Jul/2026:15:33:55 +0000] "GET /a b HTTP/1.1" 200 5 "r" "a""#;
    let parsed = parse_line(LogFormat::Combined, line).unwrap();
    assert_eq!(parsed.request_path.as_deref(), Some("/a b"));
    let value: Value = serde_json::from_str(&parsed.line).unwrap();
    assert_eq!(value["protocol"], "HTTP/1.1");
}

#[test]
fn combined_bad_time_is_a_timestamp_error() {
    let line = r#"1.2.3.4 - - [yesterday] "GET / HTTP/1.1" 200 5 "r" "a""#;
    match parse_line(LogFormat::Combined, line) {
        Err(ParseError::Timestamp(t)) => assert_eq!(t, "yesterday"),
        other => panic!("unexpected {:?}", other),
    }
}

#[test]
fn combined_oversized_body_is_rejected() {
    let line = r#"1.2.3.4 - - [31/Jul/2026:15:33:55 +0000] "GET / HTTP/1.1" 200 99999999999999999999999 "r" "a""#;
    assert!(matches!(parse_line(LogFormat::Combined, line), Err(ParseError::Combined)));
}

#[test]
fn combined_non_ascii_digits_reach_the_time_check() {
    let line = "1.2.3.4 - - [bad] \"GET / HTTP/1.1\" 2\u{0663}0 5 \"r\" \"a\"";
    assert!(matches!(parse_line(LogFormat::Combined, line), Err(ParseError::Timestamp(_))));
    let line = "1.2.3.4 - - [31/Jul/2026:15:33:55 +0000] \"GET / HTTP/1.1\" 2\u{0663}0 5 \"r\" \"a\"";
    assert!(matches!(parse_line(LogFormat::Combined, line), Err(ParseError::Combined)));
}

#[test]
fn combined_needs_every_field() {
    assert!(matches!(
        parse_line(LogFormat::Combined, r#"1.2.3.4 - - [31/Jul/2026:15:33:55 +0000] "GET /" 200 5 "r" "a""#),
        Err(ParseError::Combined)
    ));
    assert!(matches!(
        parse_line(LogFormat::Combined, r#"1.2.3.4 - - [31/Jul/2026:15:33:55 +0000] "GET / HTTP/1.1" 20 5 "r" "a""#),
        Err(ParseError::Combined)
    ));
    assert!(matches!(
        parse_line(LogFormat::Combined, r#"1.2.3.4 - - [31/Jul/2026:15:33:55 +0000] "GET / HTTP/1.1" 200 5 "r" "a"#),
        Err(ParseError::Combined)
    ));
}

#[test]
fn json_line_is_shipped_unchanged() {
    let line = r#"{"time_local":"31/Jul/2026:15:33:55 +0000","path":"/x?y","status":70000}"#;
    let parsed = parse_line(LogFormat::Json, line).unwrap();
    assert_eq!(parsed.line, line);
    assert_eq!(parsed.timestamp_ns, "1785512035000000000");
    assert_eq!(parsed.request_path.as_deref(), Some("/x"));
    assert_eq!(parsed.status, None);
}

#[test]
fn json_without_time_uses_the_clock() {
    let parsed = parse_json_at(r#"{"status":"404"}"#, Some(-5)).unwrap();
    assert_eq!(parsed.timestamp_ns, "-5");
    assert_eq!(parsed.status, Some(404));
    let parsed = parse_line(LogFormat::Json, r#"[1,2]"#).unwrap();
    assert!(parsed.timestamp_ns.chars().all(|c| c.is_ascii_digit()));
    assert_eq!(parsed.request_path, None);
}

#[test]
fn json_errors() {
    assert!(matches!(parse_line(LogFormat::Json, "{"), Err(ParseError::Json(_))));
    match parse_line(LogFormat::Json, r#"{"time":"soon"}"#) {
        Err(ParseError::Timestamp(t)) => assert_eq!(t, "soon"),
        other => panic!("unexpected {:?}", other),
    }
}

#[test]
fn json_remote_addr_falls_through_keys() {
    let parsed = parse_json_at(r#"{"remote_addr":"nope","remote_ip":7,"client_ip":"10.1.2.3"}"#, Some(0)).unwrap();
    assert_eq!(parsed.remote_addr, Some("10.1.2.3".parse().unwrap()));
    let parsed = parse_json_at(r#"{"path":5,"uri":"/u?q","request":"GET /r HTTP/1.1"}"#, Some(0)).unwrap();
    assert_eq!(parsed.request_path.as_deref(), Some("/u"));
    let parsed = parse_json_at(r#"{"request":"GET"}"#, Some(0)).unwrap();
    assert_eq!(parsed.request_path, None);
}

#[test]
fn splits_request_uri() {
    assert_eq!(url_path("/a/b?c=d&e"), "/a/b");
    assert_eq!(query_string("/a/b?c=d&e"), "c=d&e");
    assert_eq!(url_path("/a?b?c"), "/a");
    assert_eq!(query_string("/a?b?c"), "b?c");
    assert_eq!(url_path("/plain"), "/plain");
    assert_eq!(query_string("/plain"), "");
    assert_eq!(query_string("/plain?"), "");
}

#[test]
fn reads_nginx_times() {
    assert_eq!(nginx_time_to_ns("31/Jul/2026:15:33:55 +0000").unwrap(), "1785512035000000000");
    assert_eq!(nginx_time_to_ns("31/Jul/2026:17:33:55 +0200").unwrap(), "1785512035000000000");
    assert_eq!(nginx_time_to_ns("01/Jan/1960:00:00:00 +0000").unwrap(), "-315619200000000000");
    assert!(matches!(nginx_time_to_ns("2026-07-31T15:33:55Z"), Err(ParseError::Timestamp(_))));
}

#[test]
fn times_beyond_nanosecond_range_are_set_apart() {
    let far = r#"1.2.3.4 - - [01/Jan/2300:00:00:00 +0000] "GET / HTTP/1.1" 200 5 "r" "a""#;
    assert!(time_overflows(LogFormat::Combined, far));
    assert!(try_parse_line(LogFormat::Combined, far).is_none());
    let far_bad_body = r#"1.2.3.4 - - [01/Jan/2300:00:00:00 +0000] "GET / HTTP/1.1" 200 99999999999999999999999 "r" "a""#;
    assert!(!time_overflows(LogFormat::Combined, far_bad_body));
    assert!(matches!(
        try_parse_line(LogFormat::Combined, far_bad_body),
        Some(Err(ParseError::Combined))
    ));
    let near = r#"1.2.3.4 - - [31/Jul/2026:15:33:55 +0000] "GET / HTTP/1.1" 200 5 "r" "a""#;
    assert!(!time_overflows(LogFormat::Combined, near));
    assert_eq!(
        try_parse_line(LogFormat::Combined, near).unwrap().unwrap().timestamp_ns,
        "1785512035000000000"
    );
    assert!(time_overflows(LogFormat::Json, r#"{"time":"2300-01-01T00:00:00Z"}"#));
    assert!(time_overflows(LogFormat::Json, r#"{"time_local":"01/Jan/2300:00:00:00 +0000"}"#));
    assert!(try_parse_line(LogFormat::Json, r#"{"time":"2300-01-01T00:00:00Z"}"#).is_none());
    assert!(!time_overflows(LogFormat::Json, r#"{"time":2300}"#));
    assert!(!time_overflows(LogFormat::Json, "{"));
    assert!(matches!(
        try_parse_line(LogFormat::Json, r#"{"time":"2026-07-31T15:33:55Z"}"#),
        Some(Ok(_))
    ));
}

#[test]
fn parse_error_messages() {
    assert_eq!(ParseError::Combined.message(), "line is not nginx combined format");
    assert_eq!(
        ParseError::Timestamp("soon".to_owned()).message(),
        "invalid nginx timestamp: soon"
    );
    match parse_line(LogFormat::Json, "{") {
        Err(e) => assert!(e.message().starts_with("invalid json: EOF while parsing")),
        Ok(_) => panic!("accepted broken JSON"),
    }
}

#[test]
fn numbers_are_spelled_and_read_as_std_does() {
    let line = |ts: &str, status: &str, body: &str| {
        format!("1.2.3.4 - - [{ts}] \"GET / HTTP/1.1\" {status} {body} \"r\" \"a\"")
    };
    let p = parse_line(LogFormat::Combined, &line("31/Dec/1969:23:59:59 +0000", "200", "18446744073709551615")).unwrap();
    assert_eq!(p.timestamp_ns, "-1000000000");
    let value: Value = serde_json::from_str(&p.line).unwrap();
    assert_eq!(value["body_bytes_sent"], 18446744073709551615u64);
    assert!(matches!(
        parse_line(LogFormat::Combined, &line("01/Jan/2000:00:00:00 +0000", "200", "18446744073709551616")),
        Err(ParseError::Combined)
    ));
    let p = parse_line(LogFormat::Combined, &line("01/Jan/1970:00:00:00 +0000", "007", "0")).unwrap();
    assert_eq!(p.timestamp_ns, "0");
    assert_eq!(p.status, Some(7));
    let p = parse_json_at(r#"{"status":"+65535"}"#, Some(i64::MIN)).unwrap();
    assert_eq!(p.status, Some(65535));
    assert_eq!(p.timestamp_ns, i64::MIN.to_string());
    assert_eq!(parse_json_at(r#"{"status":"65536"}"#, Some(0)).unwrap().status, None);
    assert_eq!(parse_json_at(r#"{"status":"-1"}"#, Some(0)).unwrap().status, None);
    assert_eq!(parse_json_at(r#"{"status":"+"}"#, Some(0)).unwrap().status, None);
}
