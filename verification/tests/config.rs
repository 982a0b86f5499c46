use nginx_loki::config::{
    default_batch_size, default_batch_timeout_ms, default_timeout_secs, Config, ConfigError,
    Labels, LogFormat, LokiConfig, WatchConfig,
};

fn config(watches: usize, batch_size: usize) -> Config {
    Config {
        geoip: None,
        loki: LokiConfig {
            url: "http://loki:3100/loki/api/v1/push".to_owned(),
            tenant_id: None,
            batch_size,
            batch_timeout_ms: default_batch_timeout_ms(),
            timeout_secs: default_timeout_secs(),
            labels: Labels::new(),
        },
        watch: (0..watches)
            .map(|_| WatchConfig {
                glob: "*.log".to_owned(),
                ignore: Vec::new(),
                ignore_ips: Vec::new(),
                ignore_paths: Vec::new(),
                ignore_status: Vec::new(),
                format: LogFormat::Combined,
                from_beginning: false,
                labels: Labels::new(),
            })
            .collect(),
    }
}

#[test]
fn defaults() {
    assert_eq!(default_batch_size(), 100);
    assert_eq!(default_batch_timeout_ms(), 1000);
    assert_eq!(default_timeout_secs(), 10);
}

#[test]
fn load_checks_watch_and_batch_size() {
    assert_eq!(Config::load(config(0, 10)).unwrap_err(), ConfigError::NoWatch);
    assert_eq!(Config::load(config(0, 0)).unwrap_err(), ConfigError::NoWatch);
    assert_eq!(Config::load(config(1, 0)).unwrap_err(), ConfigError::ZeroBatchSize);
    let ok = Config::load(config(2, 5)).unwrap();
    assert_eq!(ok.watch.len(), 2);
    assert_eq!(ok.loki.batch_size, 5);
    assert_eq!(
        ConfigError::NoWatch.message(),
        "config must contain at least one [[watch]] entry"
    );
}

#[test]
fn labels_keep_key_order_and_last_value() {
    let mut labels = Labels::new();
    labels.insert("b".to_owned(), "1".to_owned());
    labels.insert("a".to_owned(), "2".to_owned());
    labels.insert("c".to_owned(), "3".to_owned());
    labels.insert("b".to_owned(), "4".to_owned());
    assert_eq!(labels.len(), 3);
    assert_eq!(
        labels.pairs().clone(),
        vec![
            ("a".to_owned(), "2".to_owned()),
            ("b".to_owned(), "4".to_owned()),
            ("c".to_owned(), "3".to_owned())
        ]
    );
}

#[test]
fn labels_extend_overrides() {
    let mut a = Labels::new();
    a.insert("x".to_owned(), "1".to_owned());
    a.insert("y".to_owned(), "1".to_owned());
    let mut b = Labels::new();
    b.insert("y".to_owned(), "2".to_owned());
    b.insert("z".to_owned(), "2".to_owned());
    a.extend(&b);
    assert_eq!(
        a.pairs().clone(),
        vec![
            ("x".to_owned(), "1".to_owned()),
            ("y".to_owned(), "2".to_owned()),
            ("z".to_owned(), "2".to_owned())
        ]
    );
    assert!(a.clone().same_as(&a));
    assert!(!a.same_as(&b));
    assert!(a.less_than(&b));
    assert!(!b.less_than(&a));
}

#[test]
fn labels_order_by_code_point() {
    let mut labels = Labels::new();
    labels.insert("é".to_owned(), "1".to_owned());
    labels.insert("z".to_owned(), "1".to_owned());
    labels.insert("Z".to_owned(), "1".to_owned());
    let keys: Vec<String> = labels.pairs().iter().map(|p| p.0.clone()).collect();
    assert_eq!(keys, vec!["Z".to_owned(), "z".to_owned(), "é".to_owned()]);
}
