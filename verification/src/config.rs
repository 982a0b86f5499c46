//! The shipper's configuration, as read from its TOML file, and the label
//! sets attached to log streams.
use vstd::prelude::*;

use crate::text::{chars_of, lemma_text_less_order, text_less, text_less_exec};

verus! {

/// How the lines of a watched log are written.
#[derive(Clone, Copy, Debug, PartialEq, Eq, Structural)]
pub enum LogFormat {
    Combined,
    Json,
}

pub open spec fn pairs_view(v: Seq<(String, String)>) -> Seq<(Seq<char>, Seq<char>)> {
    v.map_values(|p: (String, String)| (p.0@, p.1@))
}

/// Keys in strictly increasing order (so each key occurs once).
pub open spec fn keys_sorted(p: Seq<(Seq<char>, Seq<char>)>) -> bool {
    forall|i: int, j: int| 0 <= i < j < p.len() ==> text_less(#[trigger] p[i].0, #[trigger] p[j].0)
}

pub open spec fn has_key(p: Seq<(Seq<char>, Seq<char>)>, key: Seq<char>) -> bool {
    exists|i: int| 0 <= i < p.len() && #[trigger] p[i].0 == key
}

pub open spec fn key_index(p: Seq<(Seq<char>, Seq<char>)>, key: Seq<char>) -> int {
    choose|i: int| 0 <= i < p.len() && #[trigger] p[i].0 == key
}

/// The value that a label set gives a key.
pub open spec fn label_value(p: Seq<(Seq<char>, Seq<char>)>, key: Seq<char>) -> Option<Seq<char>> {
    if has_key(p, key) {
        Some(p[key_index(p, key)].1)
    } else {
        None
    }
}

/// In a label set with sorted keys, the value of an entry's key is that
/// entry's value.
pub proof fn lemma_label_value_at(p: Seq<(Seq<char>, Seq<char>)>, i: int)
    requires
        keys_sorted(p),
        0 <= i < p.len(),
    ensures
        label_value(p, p[i].0) == Some(p[i].1),
{
    let k = p[i].0;
    assert(0 <= i < p.len() && p[i].0 == k);
    assert(has_key(p, k));
    let j = key_index(p, k);
    if j != i {
        lemma_text_less_order(k, k, k);
        if j < i {
            assert(text_less(p[j].0, p[i].0));
        } else {
            assert(text_less(p[i].0, p[j].0));
        }
    }
    assert(j == i);
}

/// A set of labels: string keys, each with one string value, kept in key
/// order.
#[derive(Debug)]
pub struct Labels {
    pairs: Vec<(String, String)>,
}

impl View for Labels {
    type V = Seq<(Seq<char>, Seq<char>)>;

    closed spec fn view(&self) -> Seq<(Seq<char>, Seq<char>)> {
        pairs_view(self.pairs@)
    }
}

impl Labels {
    /// Every label set keeps its keys in order.
    #[verifier::type_invariant]
    spec fn keys_in_order(self) -> bool {
        keys_sorted(pairs_view(self.pairs@))
    }

    /// The empty label set.
    pub fn new() -> (r: Labels)
        ensures
            r@ == Seq::<(Seq<char>, Seq<char>)>::empty(),
    {
        let r = Labels { pairs: Vec::new() };
        assert(r@ =~= Seq::<(Seq<char>, Seq<char>)>::empty());
        r
    }

    /// The key-value pairs, in key order.
    pub fn pairs(&self) -> (r: &Vec<(String, String)>)
        ensures
            pairs_view(r@) == self@,
    {
        &self.pairs
    }

    /// The number of labels.
    pub fn len(&self) -> (r: usize)
        ensures
            r == self@.len(),
    {
        self.pairs.len()
    }

    /// Sets the value of a key, replacing any value it had.
    pub fn insert(&mut self, key: String, value: String)
        ensures
            forall|k: Seq<char>|
                label_value(final(self)@, k) == if k == key@ {
                    Some(value@)
                } else {
                    label_value(old(self)@, k)
                },
    {
        proof {
            use_type_invariant(&*self);
        }
        let ghost p = self@;
        let mut pairs: Vec<(String, String)> = Vec::new();
        std::mem::swap(&mut pairs, &mut self.pairs);
        assert(pairs_view(pairs@) == p);
        let key_chars = chars_of(key.as_str());
        let mut j: usize = 0;
        while j < pairs.len() && text_less_exec(&chars_of(pairs[j].0.as_str()), &key_chars)
            invariant
                j <= pairs@.len(),
                pairs_view(pairs@) == p,
                key_chars@ == key@,
                forall|i: int| 0 <= i < j ==> text_less(#[trigger] p[i].0, key@),
            decreases pairs@.len() - j,
        {
            j = j + 1;
        }
        if j < pairs.len() && pairs[j].0 == key {
            let ghost v = value@;
            pairs.set(j, (key, value));
            proof {
                let q = pairs_view(pairs@);
                assert(q =~= p.update(j as int, (key@, v)));
                assert forall|a: int, b: int| 0 <= a < b < q.len() implies text_less(
                    #[trigger] q[a].0,
                    #[trigger] q[b].0,
                ) by {
                    assert(q[a].0 == p[a].0);
                    assert(q[b].0 == p[b].0);
                }
                assert forall|k: Seq<char>|
                    label_value(q, k) == if k == key@ {
                        Some(v)
                    } else {
                        label_value(p, k)
                    } by {
                    lemma_label_value_at(q, j as int);
                    if k != key@ {
                        if has_key(p, k) {
                            let i = key_index(p, k);
                            lemma_label_value_at(p, i);
                            assert(q[i] == p[i]);
                            lemma_label_value_at(q, i);
                        } else {
                            assert forall|i: int| 0 <= i < q.len() implies #[trigger] q[i].0 != k by {
                                if i != j {
                                    assert(q[i] == p[i]);
                                }
                            }
                        }
                    }
                }
            }
        } else {
            let ghost v = value@;
            proof {
                if j < p.len() {
                    lemma_text_less_order(p[j as int].0, key@, key@);
                    assert(p[j as int].0 != key@);
                    assert(text_less(key@, p[j as int].0));
                }
            }
            pairs.insert(j, (key, value));
            proof {
                let q = pairs_view(pairs@);
                assert(q =~= p.insert(j as int, (key@, v)));
                assert forall|a: int, b: int| 0 <= a < b < q.len() implies text_less(
                    #[trigger] q[a].0,
                    #[trigger] q[b].0,
                ) by {
                    if a < j && b < j {
                    } else if a < j && b == j {
                    } else if a < j && b > j {
                        assert(q[b] == p[b - 1]);
                        assert(text_less(p[a].0, p[b - 1].0));
                    } else if a == j {
                        assert(q[b] == p[b - 1]);
                        if b - 1 > j {
                            assert(text_less(p[j as int].0, p[b - 1].0));
                            lemma_text_less_order(key@, p[j as int].0, p[b - 1].0);
                        }
                    } else {
                        assert(q[a] == p[a - 1]);
                        assert(q[b] == p[b - 1]);
                    }
                }
                assert forall|k: Seq<char>|
                    label_value(q, k) == if k == key@ {
                        Some(v)
                    } else {
                        label_value(p, k)
                    } by {
                    lemma_label_value_at(q, j as int);
                    if k != key@ {
                        if has_key(p, k) {
                            let i = key_index(p, k);
                            lemma_label_value_at(p, i);
                            if i < j {
                                assert(q[i] == p[i]);
                                lemma_label_value_at(q, i);
                            } else {
                                assert(q[i + 1] == p[i]);
                                lemma_label_value_at(q, i + 1);
                            }
                        } else {
                            assert forall|i: int| 0 <= i < q.len() implies #[trigger] q[i].0 != k by {
                                if i < j {
                                    assert(q[i] == p[i]);
                                } else if i > j {
                                    assert(q[i] == p[i - 1]);
                                }
                            }
                        }
                    }
                }
            }
        }
        self.pairs = pairs;
    }

    /// Sets every label of `other`, replacing the values of keys that both
    /// have.
    pub fn extend(&mut self, other: &Labels)
        ensures
            forall|k: Seq<char>|
                label_value(final(self)@, k) == if has_key(other@, k) {
                    label_value(other@, k)
                } else {
                    label_value(old(self)@, k)
                },
    {
        proof {
            use_type_invariant(other);
        }
        let ghost start = self@;
        let ghost o = other@;
        let mut i: usize = 0;
        while i < other.pairs.len()
            invariant
                i <= other.pairs@.len(),
                o == other@,
                keys_sorted(o),
                forall|k: Seq<char>|
                    label_value(self@, k) == if has_key(o.subrange(0, i as int), k) {
                        label_value(o.subrange(0, i as int), k)
                    } else {
                        label_value(start, k)
                    },
            decreases other.pairs@.len() - i,
        {
            let ghost before = self@;
            let key = other.pairs[i].0.clone();
            let value = other.pairs[i].1.clone();
            assert(key@ == o[i as int].0 && value@ == o[i as int].1);
            self.insert(key, value);
            proof {
                let a = o.subrange(0, i as int);
                let b = o.subrange(0, i + 1);
                assert(keys_sorted(b));
                assert(b[i as int] == o[i as int]);
                lemma_label_value_at(b, i as int);
                assert forall|k: Seq<char>|
                    label_value(self@, k) == if has_key(b, k) {
                        label_value(b, k)
                    } else {
                        label_value(start, k)
                    } by {
                    if k != o[i as int].0 {
                        if has_key(a, k) {
                            let j = key_index(a, k);
                            assert(a[j] == b[j]);
                            assert(keys_sorted(a));
                            lemma_label_value_at(a, j);
                            lemma_label_value_at(b, j);
                        } else {
                            assert forall|j: int| 0 <= j < b.len() implies #[trigger] b[j].0 != k by {
                                if j < i {
                                    assert(b[j] == a[j]);
                                }
                            }
                        }
                    }
                }
            }
            i = i + 1;
        }
        assert(o.subrange(0, o.len() as int) =~= o);
    }
}

impl Clone for Labels {
    fn clone(&self) -> (r: Self)
        ensures
            r@ == self@,
    {
        proof {
            use_type_invariant(self);
        }
        let mut pairs: Vec<(String, String)> = Vec::new();
        let mut i: usize = 0;
        while i < self.pairs.len()
            invariant
                i <= self.pairs@.len(),
                pairs@.len() == i,
                pairs_view(pairs@) == pairs_view(self.pairs@).subrange(0, i as int),
            decreases self.pairs@.len() - i,
        {
            let ghost before = pairs@;
            let k = self.pairs[i].0.clone();
            let v = self.pairs[i].1.clone();
            pairs.push((k, v));
            assert(pairs@ == before.push((k, v)));
            assert(k@ == self.pairs@[i as int].0@ && v@ == self.pairs@[i as int].1@);
            i = i + 1;
            assert forall|j: int| 0 <= j < i implies #[trigger] pairs_view(pairs@)[j] == pairs_view(
                self.pairs@,
            )[j] by {
                if j < i - 1 {
                    assert(before.push((k, v))[j] == before[j]);
                    assert(pairs@[j] == before[j]);
                    assert(pairs_view(before)[j] == pairs_view(self.pairs@).subrange(0, i - 1)[j]);
                }
            }
            assert(pairs_view(pairs@) =~= pairs_view(self.pairs@).subrange(0, i as int));
        }
        assert(pairs_view(self.pairs@).subrange(0, i as int) =~= pairs_view(self.pairs@));
        Labels { pairs }
    }
}

/// Where the GeoIP City database lies.
#[derive(Debug)]
pub struct GeoIpConfig {
    pub database: String,
}

/// Where and how to push to Loki.
#[derive(Debug)]
pub struct LokiConfig {
    pub url: String,
    pub tenant_id: Option<String>,
    pub batch_size: usize,
    pub batch_timeout_ms: u64,
    pub timeout_secs: u64,
    pub labels: Labels,
}

/// One set of log files to watch.
#[derive(Debug)]
pub struct WatchConfig {
    pub glob: String,
    pub ignore: Vec<String>,
    pub ignore_ips: Vec<String>,
    pub ignore_paths: Vec<String>,
    pub ignore_status: Vec<u16>,
    pub format: LogFormat,
    pub from_beginning: bool,
    pub labels: Labels,
}

/// The whole configuration.
#[derive(Debug)]
pub struct Config {
    pub geoip: Option<GeoIpConfig>,
    pub loki: LokiConfig,
    pub watch: Vec<WatchConfig>,
}

/// Why a configuration is refused.
#[derive(Clone, Copy, Debug, PartialEq, Eq, Structural)]
pub enum ConfigError {
    /// There is no `[[watch]]` entry.
    NoWatch,
    /// `loki.batch_size` is zero.
    ZeroBatchSize,
}

impl ConfigError {
    /// A human-readable description of the error.
    pub fn message(&self) -> (r: &'static str)
        ensures
            r@ == match self {
                ConfigError::NoWatch => "config must contain at least one [[watch]] entry"@,
                ConfigError::ZeroBatchSize => "loki.batch_size must be greater than zero"@,
            },
    {
        match self {
            ConfigError::NoWatch => "config must contain at least one [[watch]] entry",
            ConfigError::ZeroBatchSize => "loki.batch_size must be greater than zero",
        }
    }
}

impl Config {
    /// Accepts a configuration read from its TOML file: it needs at least one
    /// watch entry and a batch size above zero.
    pub fn load(config: Config) -> (r: Result<Config, ConfigError>)
        ensures
            config.watch@.len() == 0 ==> r == Err::<Config, ConfigError>(ConfigError::NoWatch),
            config.watch@.len() > 0 && config.loki.batch_size == 0 ==> r == Err::<
                Config,
                ConfigError,
            >(ConfigError::ZeroBatchSize),
            config.watch@.len() > 0 && config.loki.batch_size > 0 ==> r == Ok::<
                Config,
                ConfigError,
            >(config),
    {
        if config.watch.len() == 0 {
            return Err(ConfigError::NoWatch);
        }
        if config.loki.batch_size == 0 {
            return Err(ConfigError::ZeroBatchSize);
        }
        Ok(config)
    }
}

/// Lines per push when `loki.batch_size` is not set.
pub fn default_batch_size() -> (r: usize)
    ensures
        r == 100,
{
    100
}

/// Milliseconds before a partial batch is pushed when `loki.batch_timeout_ms`
/// is not set.
pub fn default_batch_timeout_ms() -> (r: u64)
    ensures
        r == 1000,
{
    1_000
}

/// Seconds before a push times out when `loki.timeout_secs` is not set.
pub fn default_timeout_secs() -> (r: u64)
    ensures
        r == 10,
{
    10
}

/// The order of labels: by key, then by value.
pub open spec fn label_less(a: (Seq<char>, Seq<char>), b: (Seq<char>, Seq<char>)) -> bool {
    text_less(a.0, b.0) || (a.0 == b.0 && text_less(a.1, b.1))
}

pub proof fn lemma_label_less_order(
    a: (Seq<char>, Seq<char>),
    b: (Seq<char>, Seq<char>),
    c: (Seq<char>, Seq<char>),
)
    ensures
        !label_less(a, a),
        label_less(a, b) && label_less(b, c) ==> label_less(a, c),
        a != b ==> label_less(a, b) || label_less(b, a),
{
    lemma_text_less_order(a.0, b.0, c.0);
    lemma_text_less_order(a.1, b.1, c.1);
    lemma_text_less_order(b.0, a.0, c.0);
    lemma_text_less_order(b.1, a.1, c.1);
    lemma_text_less_order(a.0, a.0, a.0);
    lemma_text_less_order(a.1, a.1, a.1);
    lemma_text_less_order(b.0, c.0, a.0);
    lemma_text_less_order(a.0, c.0, b.0);
}

/// Lexicographic order of label sequences, from index `i` on.
pub open spec fn labels_less_from(
    a: Seq<(Seq<char>, Seq<char>)>,
    b: Seq<(Seq<char>, Seq<char>)>,
    i: int,
) -> bool
    decreases a.len() - i,
{
    if i >= a.len() {
        i < b.len()
    } else if i >= b.len() {
        false
    } else if a[i] != b[i] {
        label_less(a[i], b[i])
    } else {
        labels_less_from(a, b, i + 1)
    }
}

/// The order of label sets: lexicographic over their labels in key order
/// (the order of `BTreeMap`s of strings).
pub open spec fn labels_less(a: Seq<(Seq<char>, Seq<char>)>, b: Seq<(Seq<char>, Seq<char>)>) -> bool {
    labels_less_from(a, b, 0)
}

proof fn lemma_labels_less_from_irreflexive(a: Seq<(Seq<char>, Seq<char>)>, i: int)
    requires
        0 <= i,
    ensures
        !labels_less_from(a, a, i),
    decreases a.len() - i,
{
    if i < a.len() {
        lemma_labels_less_from_irreflexive(a, i + 1);
    }
}

proof fn lemma_labels_less_from_transitive(
    a: Seq<(Seq<char>, Seq<char>)>,
    b: Seq<(Seq<char>, Seq<char>)>,
    c: Seq<(Seq<char>, Seq<char>)>,
    i: int,
)
    requires
        0 <= i,
        labels_less_from(a, b, i),
        labels_less_from(b, c, i),
    ensures
        labels_less_from(a, c, i),
    decreases a.len() - i,
{
    if i < a.len() && i < b.len() && i < c.len() {
        lemma_label_less_order(a[i], b[i], c[i]);
        if a[i] == b[i] && b[i] == c[i] {
            lemma_labels_less_from_transitive(a, b, c, i + 1);
        }
    }
}

proof fn lemma_labels_less_from_total(
    a: Seq<(Seq<char>, Seq<char>)>,
    b: Seq<(Seq<char>, Seq<char>)>,
    i: int,
)
    requires
        0 <= i <= a.len(),
        i <= b.len(),
        a.subrange(0, i) == b.subrange(0, i),
        !labels_less_from(a, b, i),
        !labels_less_from(b, a, i),
    ensures
        a == b,
    decreases a.len() - i,
{
    if i < a.len() && i < b.len() {
        lemma_label_less_order(a[i], b[i], b[i]);
        assert(a[i] == b[i]);
        assert(a.subrange(0, i + 1) =~= a.subrange(0, i).push(a[i]));
        assert(b.subrange(0, i + 1) =~= b.subrange(0, i).push(b[i]));
        lemma_labels_less_from_total(a, b, i + 1);
    } else {
        assert(a =~= a.subrange(0, i));
        assert(b =~= b.subrange(0, i));
    }
}

/// `labels_less` is a strict total order.
pub proof fn lemma_labels_less_order(
    a: Seq<(Seq<char>, Seq<char>)>,
    b: Seq<(Seq<char>, Seq<char>)>,
    c: Seq<(Seq<char>, Seq<char>)>,
)
    ensures
        !labels_less(a, a),
        labels_less(a, b) && labels_less(b, c) ==> labels_less(a, c),
        a != b ==> labels_less(a, b) || labels_less(b, a),
{
    lemma_labels_less_from_irreflexive(a, 0);
    if labels_less(a, b) && labels_less(b, c) {
        lemma_labels_less_from_transitive(a, b, c, 0);
    }
    if !labels_less(a, b) && !labels_less(b, a) {
        assert(a.subrange(0, 0) =~= b.subrange(0, 0));
        lemma_labels_less_from_total(a, b, 0);
    }
}

fn text_less_strings(a: &String, b: &String) -> (r: bool)
    ensures
        r == text_less(a@, b@),
{
    text_less_exec(&chars_of(a.as_str()), &chars_of(b.as_str()))
}

impl Labels {
    /// Whether two label sets hold the same labels.
    pub fn same_as(&self, other: &Labels) -> (r: bool)
        ensures
            r == (self@ == other@),
    {
        if self.pairs.len() != other.pairs.len() {
            return false;
        }
        let mut i: usize = 0;
        while i < self.pairs.len()
            invariant
                i <= self.pairs@.len(),
                self.pairs@.len() == other.pairs@.len(),
                forall|j: int| 0 <= j < i ==> #[trigger] self@[j] == other@[j],
            decreases self.pairs@.len() - i,
        {
            if !(self.pairs[i].0 == other.pairs[i].0 && self.pairs[i].1 == other.pairs[i].1) {
                assert(self@[i as int] != other@[i as int]);
                return false;
            }
            i = i + 1;
        }
        assert(self@ =~= other@);
        true
    }

    /// Whether this label set comes before another in `labels_less`.
    pub fn less_than(&self, other: &Labels) -> (r: bool)
        ensures
            r == labels_less(self@, other@),
    {
        let mut i: usize = 0;
        while i < self.pairs.len() && i < other.pairs.len() && self.pairs[i].0 == other.pairs[i].0
            && self.pairs[i].1 == other.pairs[i].1
            invariant
                i <= self.pairs@.len(),
                i <= other.pairs@.len(),
                labels_less_from(self@, other@, i as int) == labels_less(self@, other@),
            decreases self.pairs@.len() - i,
        {
            assert(self@[i as int] == other@[i as int]);
            i = i + 1;
        }
        if i >= self.pairs.len() {
            i < other.pairs.len()
        } else if i >= other.pairs.len() {
            false
        } else {
            assert(self@[i as int] != other@[i as int]);
            text_less_strings(&self.pairs[i].0, &other.pairs[i].0) || (self.pairs[i].0
                == other.pairs[i].0 && text_less_strings(&self.pairs[i].1, &other.pairs[i].1))
        }
    }
}

} // verus!
