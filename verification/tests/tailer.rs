use std::path::PathBuf;

use nginx_loki::config::{Labels, LogFormat, WatchConfig};
use nginx_loki::ip_filter::IpMatcher;
use nginx_loki::tailer::{
    file_labels, glob_parent, process_line, to_spec, trim_line_end, FileCursor, GlobPattern,
    LineFilter, LineOutcome, Skip, SpecError, TailerLoop, WatchSpec,
};

#[test]
fn finds_parent_before_glob_magic() {
    assert_eq!(
        PathBuf::from(glob_parent("/var/log/nginx/*.log")),
        PathBuf::from("/var/log/nginx")
    );
    assert_eq!(PathBuf::from(glob_parent("logs/**/*.log")), PathBuf::from("logs"));
    assert_eq!(PathBuf::from(glob_parent("*.log")), PathBuf::from("."));
}

#[test]
fn watch_spec_ignores_matching_paths() {
    let spec = WatchSpec {
        glob: "/var/log/nginx/*.log".to_owned(),
        ignore: vec![
            GlobPattern::new("/var/log/nginx/error.log").unwrap(),
            GlobPattern::new("/var/log/nginx/*.old.log").unwrap(),
        ],
        ignore_ips: Vec::new(),
        ignore_paths: vec![GlobPattern::new("/stub_status").unwrap()],
        ignore_status: vec![301, 302],
        format: LogFormat::Combined,
        from_beginning: false,
        labels: Labels::new(),
    };

    assert!(spec.is_ignored("/var/log/nginx/error.log"));
    assert!(spec.is_ignored("/var/log/nginx/access.old.log"));
    assert!(!spec.is_ignored("/var/log/nginx/access.log"));
}

#[test]
fn url_path_ignore_patterns_use_globs() {
    let patterns = [GlobPattern::new("/api/*").unwrap()];

    assert!(patterns.iter().any(|pattern| pattern.matches("/api/ping")));
    assert!(patterns
        .iter()
        .any(|pattern| pattern.matches("/api/v1/users")));
    assert!(!patterns
        .iter()
        .any(|pattern| pattern.matches("/assets/app.css")));
}

#[test]
fn glob_parent_of_plain_names() {
    assert_eq!(glob_parent("/var/log/access*.log"), "/var/log");
    assert_eq!(glob_parent("/var/log/access.log"), "/var/log");
    assert_eq!(glob_parent("access?.log"), "");
    assert_eq!(glob_parent("/*.log"), "/");
    assert_eq!(glob_parent("/var/{a,b}/x.log"), "/var/");
}

#[test]
fn trims_line_terminators() {
    assert_eq!(trim_line_end("abc\r\n"), "abc");
    assert_eq!(trim_line_end("abc\n\n\r"), "abc");
    assert_eq!(trim_line_end("a\nb\n"), "a\nb");
    assert_eq!(trim_line_end("\r\n"), "");
    assert_eq!(trim_line_end(&trim_line_end("x\n")), "x");
}

fn watch(ignore: Vec<&str>, ips: Vec<&str>, paths: Vec<&str>) -> WatchConfig {
    let mut labels = Labels::new();
    labels.insert("job".to_owned(), "nginx".to_owned());
    WatchConfig {
        glob: "/var/log/nginx/*.log".to_owned(),
        ignore: ignore.into_iter().map(str::to_owned).collect(),
        ignore_ips: ips.into_iter().map(str::to_owned).collect(),
        ignore_paths: paths.into_iter().map(str::to_owned).collect(),
        ignore_status: vec![404],
        format: LogFormat::Json,
        from_beginning: true,
        labels,
    }
}

#[test]
fn builds_spec_with_merged_labels() {
    let mut global = Labels::new();
    global.insert("job".to_owned(), "global".to_owned());
    global.insert("host".to_owned(), "web1".to_owned());
    let spec = to_spec(&global, &watch(vec!["*.old"], vec!["10.0.0.0/8"], vec!["/health"])).unwrap();
    let pairs: Vec<(String, String)> = spec.labels.pairs().clone();
    assert_eq!(
        pairs,
        vec![
            ("host".to_owned(), "web1".to_owned()),
            ("job".to_owned(), "nginx".to_owned())
        ]
    );
    assert_eq!(spec.ignore.len(), 1);
    assert_eq!(spec.ignore[0].as_str(), "*.old");
    assert_eq!(spec.ignore_ips, vec![IpMatcher::parse("10.0.0.0/8").unwrap()]);
    assert_eq!(spec.ignore_status, vec![404]);
    assert_eq!(spec.format, LogFormat::Json);
    assert!(spec.from_beginning);
}

#[test]
fn refuses_bad_spec_entries() {
    let global = Labels::new();
    match to_spec(&global, &watch(vec!["ok", "[bad"], vec!["nope"], vec![])) {
        Err(SpecError::IgnorePattern { pattern, glob, .. }) => {
            assert_eq!(pattern, "[bad");
            assert_eq!(glob, "/var/log/nginx/*.log");
        }
        other => panic!("unexpected {:?}", other),
    }
    match to_spec(&global, &watch(vec![], vec!["1.2.3.4", "nope"], vec!["[bad"])) {
        Err(e @ SpecError::IgnoreIp { .. }) => {
            assert_eq!(
                e.message(),
                "invalid ignore IP matcher \"nope\" for watch /var/log/nginx/*.log"
            );
            match e {
                SpecError::IgnoreIp { matcher, matcher_error, .. } => {
                    assert_eq!(matcher, "nope");
                    assert_eq!(matcher_error.message(), "invalid IP matcher \"nope\"");
                }
                _ => unreachable!(),
            }
        }
        other => panic!("unexpected {:?}", other),
    }
    match to_spec(&global, &watch(vec![], vec![], vec!["[bad"])) {
        Err(e @ SpecError::IgnorePath { .. }) => {
            assert_eq!(
                e.message(),
                "invalid ignore path glob pattern \"[bad\" for watch /var/log/nginx/*.log"
            )
        }
        other => panic!("unexpected {:?}", other),
    }
}

fn filter() -> LineFilter {
    LineFilter {
        ignore_ips: vec![IpMatcher::parse("10.0.0.0/8").unwrap()],
        ignore_paths: vec![GlobPattern::new("/health*").unwrap()],
        ignore_status: vec![301],
    }
}

#[test]
fn process_line_skips_by_status_path_and_address() {
    let f = filter();
    let line = |addr: &str, path: &str, status: u16| {
        format!(
            "{} - - [31/Jul/2026:15:33:55 +0000] \"GET {} HTTP/1.1\" {} 5 \"-\" \"ua\"\n",
            addr, path, status
        )
    };
    assert!(matches!(
        process_line(LogFormat::Combined, &line("10.1.1.1", "/healthz", 301), &f),
        LineOutcome::Skipped(Skip::Status)
    ));
    assert!(matches!(
        process_line(LogFormat::Combined, &line("10.1.1.1", "/healthz", 200), &f),
        LineOutcome::Skipped(Skip::Path)
    ));
    assert!(matches!(
        process_line(LogFormat::Combined, &line("10.1.1.1", "/x", 200), &f),
        LineOutcome::Skipped(Skip::Address)
    ));
    match process_line(LogFormat::Combined, &line("11.1.1.1", "/x", 200), &f) {
        LineOutcome::Ship(p) => assert_eq!(p.status, Some(200)),
        other => panic!("unexpected {:?}", other),
    }
    assert!(matches!(process_line(LogFormat::Combined, "\r\n", &f), LineOutcome::Empty));
    assert!(matches!(
        process_line(LogFormat::Combined, "garbage\n", &f),
        LineOutcome::Unparsable(_)
    ));
}

#[test]
fn cursor_tracks_file_identity() {
    let mut c = FileCursor::open(1, 2, 100, false);
    assert_eq!(c.offset, 100);
    assert_eq!(FileCursor::open(1, 2, 100, true).offset, 0);
    assert!(!c.replaced_on_disk(Some((1, 2))));
    assert!(c.replaced_on_disk(Some((1, 3))));
    assert!(!c.replaced_on_disk(None));
    assert!(c.truncated_on_disk(Some((1, 2, 50))));
    assert!(!c.truncated_on_disk(Some((1, 2, 100))));
    assert!(!c.truncated_on_disk(Some((9, 2, 50))));
    assert!(!c.truncated_on_disk(None));
    assert!(!c.should_reopen(Some(Some((1, 2)))));
    assert!(c.should_reopen(Some(Some((3, 2)))));
    assert!(!c.should_reopen(Some(None)));
    assert!(c.should_reopen(None));
    c.advance(20);
    assert_eq!(c.offset, 120);
    c.rewind();
    assert_eq!(c.offset, 0);
}

#[test]
fn file_labels_add_filename() {
    let mut labels = Labels::new();
    labels.insert("job".to_owned(), "nginx".to_owned());
    labels.insert("filename".to_owned(), "old".to_owned());
    let l = file_labels(&labels, "/var/log/a.log");
    assert_eq!(
        l.pairs().clone(),
        vec![
            ("filename".to_owned(), "/var/log/a.log".to_owned()),
            ("job".to_owned(), "nginx".to_owned())
        ]
    );
}

#[test]
fn tailer_loop_reads_first_and_after_events() {
    let mut state = TailerLoop::new();
    assert!(state.start_pass());
    assert!(!state.after_events(0));
    assert!(!state.start_pass());
    assert!(state.after_events(3));
    assert!(!state.start_pass());
    assert!(!state.after_events(0));
}

#[test]
fn process_line_sets_apart_times_out_of_range() {
    let f = filter();
    let far = "1.2.3.4 - - [01/Jan/2300:00:00:00 +0000] \"GET / HTTP/1.1\" 200 5 \"r\" \"a\"\r\n";
    assert!(matches!(
        process_line(LogFormat::Combined, far, &f),
        LineOutcome::TimestampOutOfRange
    ));
    assert!(matches!(
        process_line(LogFormat::Json, "{\"time\":\"2300-01-01T00:00:00Z\"}\n", &f),
        LineOutcome::TimestampOutOfRange
    ));
}

#[test]
fn file_labels_take_precedence_over_watch_and_global() {
    let mut global = Labels::new();
    global.insert("job".to_owned(), "global".to_owned());
    global.insert("filename".to_owned(), "global".to_owned());
    global.insert("env".to_owned(), "prod".to_owned());
    let spec = to_spec(&global, &watch(vec![], vec![], vec![])).unwrap();
    let labels = file_labels(&spec.labels, "/var/log/nginx/access.log");
    assert_eq!(
        labels.pairs().clone(),
        vec![
            ("env".to_owned(), "prod".to_owned()),
            ("filename".to_owned(), "/var/log/nginx/access.log".to_owned()),
            ("job".to_owned(), "nginx".to_owned())
        ]
    );
}
