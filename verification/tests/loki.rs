use nginx_loki::config::{Labels, LokiConfig};
use nginx_loki::logs::ParsedLine;
use nginx_loki::loki::{group_streams, push_streams, LokiBatch, LokiTarget};

fn labels(pairs: &[(&str, &str)]) -> Labels {
    let mut l = Labels::new();
    for (k, v) in pairs {
        l.insert((*k).to_owned(), (*v).to_owned());
    }
    l
}

fn line(ts: &str, text: &str) -> ParsedLine {
    ParsedLine {
        timestamp_ns: ts.to_owned(),
        line: text.to_owned(),
        remote_addr: None,
        request_path: None,
        status: None,
    }
}

#[test]
fn groups_lines_by_label_set_in_order() {
    let entries = vec![
        (labels(&[("f", "b")]), line("1", "one")),
        (labels(&[("f", "a")]), line("2", "two")),
        (labels(&[("f", "b")]), line("3", "three")),
        (labels(&[("f", "a"), ("g", "x")]), line("4", "four")),
    ];
    let streams = group_streams(&entries);
    assert_eq!(streams.len(), 3);
    assert_eq!(streams[0].stream.pairs().clone(), vec![("f".to_owned(), "a".to_owned())]);
    assert_eq!(streams[0].values, vec![("2".to_owned(), "two".to_owned())]);
    assert_eq!(streams[1].stream.pairs().len(), 2);
    assert_eq!(streams[1].values, vec![("4".to_owned(), "four".to_owned())]);
    assert_eq!(
        streams[2].values,
        vec![("1".to_owned(), "one".to_owned()), ("3".to_owned(), "three".to_owned())]
    );
    let total: usize = streams.iter().map(|s| s.values.len()).sum();
    assert_eq!(total, entries.len());
    assert!(group_streams(&Vec::new()).is_empty());
}

#[test]
fn batch_reports_when_full_and_due() {
    let mut batch = LokiBatch::new(2, 1000, 5000);
    assert!(!batch.flush_due(10_000));
    assert!(!batch.push(labels(&[]), line("1", "a")));
    assert!(!batch.flush_due(5999));
    assert!(batch.flush_due(6000));
    assert!(!batch.flush_due(100));
    assert!(batch.push(labels(&[]), line("2", "b")));
    let taken = batch.flush();
    assert_eq!(taken.len(), 2);
    assert_eq!(taken[1].1.line, "b");
    assert!(!batch.flush_due(1_000_000));
    batch.mark_flushed(7000);
    assert!(!batch.push(labels(&[]), line("3", "c")));
    assert!(!batch.flush_due(7999));
    assert!(batch.flush_due(8000));
    assert!(batch.flush_if_due(7999).is_none());
    let due = batch.flush_if_due(8000).unwrap();
    assert_eq!(due.len(), 1);
    assert_eq!(due[0].1.line, "c");
    assert!(batch.flush_if_due(9000).is_none());
}

#[test]
fn target_drops_empty_tenant() {
    let config = |tenant: Option<&str>| LokiConfig {
        url: "http://l".to_owned(),
        tenant_id: tenant.map(str::to_owned),
        batch_size: 7,
        batch_timeout_ms: 8,
        timeout_secs: 9,
        labels: Labels::new(),
    };
    assert_eq!(LokiTarget::from_config(&config(Some(""))).tenant_id, None);
    assert_eq!(LokiTarget::from_config(&config(None)).tenant_id, None);
    let t = LokiTarget::from_config(&config(Some("team")));
    assert_eq!(t.tenant_id.as_deref(), Some("team"));
    assert_eq!((t.batch_size, t.batch_timeout_ms, t.timeout_secs), (7, 8, 9));
    assert_eq!(t.url, "http://l");
}

#[test]
fn push_streams_skips_empty_batches() {
    assert!(push_streams(&Vec::new()).is_none());
    let entries = vec![
        (labels(&[("job", "a")]), line("1", "one")),
        (labels(&[("job", "a")]), line("2", "two")),
    ];
    let streams = push_streams(&entries).unwrap();
    assert_eq!(streams.len(), 1);
    assert_eq!(
        streams[0].values,
        vec![("1".to_owned(), "one".to_owned()), ("2".to_owned(), "two".to_owned())]
    );
}

#[test]
fn batch_stays_below_its_size_when_flushed_on_full() {
    let mut batch = LokiBatch::new(3, 1000, 0);
    for i in 0..10 {
        let full = batch.push(labels(&[]), line(&i.to_string(), "x"));
        if full {
            assert_eq!(batch.flush().len(), 3);
        }
    }
    assert_eq!(batch.flush().len(), 1);
}
