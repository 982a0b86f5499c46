//! Batching of parsed lines for Loki and their grouping into streams, one
//! per label set.
use vstd::prelude::*;

use crate::config::{labels_less, lemma_labels_less_order, pairs_view, Labels, LokiConfig};
use crate::logs::ParsedLine;

verus! {

/// Where to push and how to batch, from the `[loki]` configuration.
#[derive(Debug)]
pub struct LokiTarget {
    pub url: String,
    /// The tenant sent as `X-Scope-OrgID`; never empty.
    pub tenant_id: Option<String>,
    pub batch_size: usize,
    pub batch_timeout_ms: u64,
    pub timeout_secs: u64,
}

impl LokiTarget {
    /// The target of a configuration; an empty tenant counts as none.
    pub fn from_config(config: &LokiConfig) -> (r: LokiTarget)
        ensures
            r.url@ == config.url@,
            r.tenant_id matches Some(t) ==> config.tenant_id matches Some(c) && c@ == t@
                && t@.len() > 0,
            r.tenant_id is None ==> (config.tenant_id matches Some(c) ==> c@.len() == 0),
            r.batch_size == config.batch_size,
            r.batch_timeout_ms == config.batch_timeout_ms,
            r.timeout_secs == config.timeout_secs,
    {
        let tenant_id = match &config.tenant_id {
            Some(t) => if t.as_str().is_empty() {
                None
            } else {
                Some(t.clone())
            },
            None => None,
        };
        LokiTarget {
            url: config.url.clone(),
            tenant_id,
            batch_size: config.batch_size,
            batch_timeout_ms: config.batch_timeout_ms,
            timeout_secs: config.timeout_secs,
        }
    }
}

/// A label set with the timestamp and line of a parsed log line.
pub open spec fn entry_view(e: (Labels, ParsedLine)) -> (
    Seq<(Seq<char>, Seq<char>)>,
    (Seq<char>, Seq<char>),
) {
    (e.0@, (e.1.timestamp_ns@, e.1.line@))
}

pub open spec fn entries_view(v: Seq<(Labels, ParsedLine)>) -> Seq<
    (Seq<(Seq<char>, Seq<char>)>, (Seq<char>, Seq<char>)),
> {
    v.map_values(|e: (Labels, ParsedLine)| entry_view(e))
}

/// Lines waiting to be pushed, with what decides when to push them.
#[derive(Debug)]
pub struct LokiBatch {
    entries: Vec<(Labels, ParsedLine)>,
    max_size: usize,
    last_flush_ms: u64,
    flush_after_ms: u64,
}

impl LokiBatch {
    pub closed spec fn pending(&self) -> Seq<(Labels, ParsedLine)> {
        self.entries@
    }

    pub closed spec fn max_size(&self) -> usize {
        self.max_size
    }

    pub closed spec fn last_flush_ms(&self) -> u64 {
        self.last_flush_ms
    }

    pub closed spec fn flush_after_ms(&self) -> u64 {
        self.flush_after_ms
    }

    /// An empty batch, last flushed at `now_ms`.
    pub fn new(max_size: usize, flush_after_ms: u64, now_ms: u64) -> (r: LokiBatch)
        ensures
            r.pending().len() == 0,
            r.max_size() == max_size,
            r.flush_after_ms() == flush_after_ms,
            r.last_flush_ms() == now_ms,
    {
        LokiBatch { entries: Vec::new(), max_size, last_flush_ms: now_ms, flush_after_ms }
    }

    /// Adds a line; the result says whether the batch is full and must be
    /// flushed now.
    pub fn push(&mut self, labels: Labels, line: ParsedLine) -> (full: bool)
        ensures
            final(self).pending() == old(self).pending().push((labels, line)),
            final(self).max_size() == old(self).max_size(),
            final(self).flush_after_ms() == old(self).flush_after_ms(),
            final(self).last_flush_ms() == old(self).last_flush_ms(),
            full == (final(self).pending().len() >= final(self).max_size()),
    {
        self.entries.push((labels, line));
        self.entries.len() >= self.max_size
    }

    /// Whether a flush is due at `now`: lines are waiting and the time since
    /// the last flush (zero if the clock reads earlier) has reached the limit.
    pub open spec fn flush_due_at(&self, now: int) -> bool {
        self.pending().len() > 0 && (if now >= self.last_flush_ms() {
            now - self.last_flush_ms()
        } else {
            0
        }) >= self.flush_after_ms()
    }

    /// Whether a flush is due at `now_ms`.
    pub fn flush_due(&self, now_ms: u64) -> (r: bool)
        ensures
            r == self.flush_due_at(now_ms as int),
    {
        let elapsed = if now_ms >= self.last_flush_ms {
            now_ms - self.last_flush_ms
        } else {
            0
        };
        self.entries.len() > 0 && elapsed >= self.flush_after_ms
    }

    /// Takes out the waiting lines, in the order they came, to be pushed.
    pub fn flush(&mut self) -> (r: Vec<(Labels, ParsedLine)>)
        ensures
            r@ == old(self).pending(),
            final(self).pending().len() == 0,
            final(self).max_size() == old(self).max_size(),
            final(self).flush_after_ms() == old(self).flush_after_ms(),
            final(self).last_flush_ms() == old(self).last_flush_ms(),
    {
        let mut taken: Vec<(Labels, ParsedLine)> = Vec::new();
        std::mem::swap(&mut taken, &mut self.entries);
        taken
    }

    /// At `now_ms`, takes out the waiting lines when a flush is due, and
    /// leaves the batch as it is otherwise.
    pub fn flush_if_due(&mut self, now_ms: u64) -> (r: Option<Vec<(Labels, ParsedLine)>>)
        ensures
            old(self).flush_due_at(now_ms as int) ==> (r matches Some(v) && v@ == old(
                self,
            ).pending() && final(self).pending().len() == 0),
            !old(self).flush_due_at(now_ms as int) ==> r is None && final(self).pending() == old(
                self,
            ).pending(),
            final(self).max_size() == old(self).max_size(),
            final(self).flush_after_ms() == old(self).flush_after_ms(),
            final(self).last_flush_ms() == old(self).last_flush_ms(),
    {
        if self.flush_due(now_ms) {
            Some(self.flush())
        } else {
            None
        }
    }

    /// Records a successful push at `now_ms`.
    pub fn mark_flushed(&mut self, now_ms: u64)
        ensures
            final(self).last_flush_ms() == now_ms,
            final(self).pending() == old(self).pending(),
            final(self).max_size() == old(self).max_size(),
            final(self).flush_after_ms() == old(self).flush_after_ms(),
    {
        self.last_flush_ms = now_ms;
    }
}

/// A batch stays below its size.  Take a batch of size at least one that is
/// below its size, `pushed` as `LokiBatch::push` leaves it after one more
/// line, and `flushed` as `LokiBatch::flush` leaves `pushed`: either the push
/// keeps the batch below its size (and reports it not full), or it fills the
/// batch exactly (and reports it full), and the flush that follows leaves it
/// below its size.
pub proof fn law_batch_stays_below_size(
    before: LokiBatch,
    pushed: LokiBatch,
    flushed: LokiBatch,
    entry: (Labels, ParsedLine),
)
    requires
        1 <= before.max_size(),
        before.pending().len() < before.max_size(),
        pushed.pending() == before.pending().push(entry),
        pushed.max_size() == before.max_size(),
        flushed.pending().len() == 0,
        flushed.max_size() == pushed.max_size(),
    ensures
        pushed.pending().len() < pushed.max_size() || (pushed.pending().len()
            == pushed.max_size() && flushed.pending().len() < flushed.max_size()),
{
}

/// The lines of one stream: a label set and the `[timestamp, line]` pairs
/// pushed under it.
#[derive(Debug)]
pub struct PushStream {
    pub stream: Labels,
    pub values: Vec<(String, String)>,
}

pub open spec fn streams_view(v: Seq<PushStream>) -> Seq<
    (Seq<(Seq<char>, Seq<char>)>, Seq<(Seq<char>, Seq<char>)>),
> {
    v.map_values(|s: PushStream| (s.stream@, pairs_view(s.values@)))
}

/// The `[timestamp, line]` pairs of the entries with a label set, in order.
pub open spec fn stream_values(
    es: Seq<(Seq<(Seq<char>, Seq<char>)>, (Seq<char>, Seq<char>))>,
    labels: Seq<(Seq<char>, Seq<char>)>,
) -> Seq<(Seq<char>, Seq<char>)>
    decreases es.len(),
{
    if es.len() == 0 {
        Seq::empty()
    } else {
        let rest = stream_values(es.drop_last(), labels);
        if es.last().0 == labels {
            rest.push(es.last().1)
        } else {
            rest
        }
    }
}

proof fn lemma_stream_values_push(
    es: Seq<(Seq<(Seq<char>, Seq<char>)>, (Seq<char>, Seq<char>))>,
    e: (Seq<(Seq<char>, Seq<char>)>, (Seq<char>, Seq<char>)),
    labels: Seq<(Seq<char>, Seq<char>)>,
)
    ensures
        stream_values(es.push(e), labels) == if e.0 == labels {
            stream_values(es, labels).push(e.1)
        } else {
            stream_values(es, labels)
        },
{
    assert(es.push(e).drop_last() =~= es);
}

proof fn lemma_stream_values_absent(
    es: Seq<(Seq<(Seq<char>, Seq<char>)>, (Seq<char>, Seq<char>))>,
    labels: Seq<(Seq<char>, Seq<char>)>,
)
    requires
        forall|k: int| 0 <= k < es.len() ==> (#[trigger] es[k]).0 != labels,
    ensures
        stream_values(es, labels) == Seq::<(Seq<char>, Seq<char>)>::empty(),
    decreases es.len(),
{
    if es.len() > 0 {
        lemma_stream_values_absent(es.drop_last(), labels);
    }
}

/// Whether streams group entries as Loki receives them: one stream per label
/// set that occurs, in `labels_less` order, each holding the pairs of its
/// entries in order.
pub open spec fn groups(
    sv: Seq<(Seq<(Seq<char>, Seq<char>)>, Seq<(Seq<char>, Seq<char>)>)>,
    es: Seq<(Seq<(Seq<char>, Seq<char>)>, (Seq<char>, Seq<char>))>,
) -> bool {
    &&& forall|a: int, b: int| 0 <= a < b < sv.len() ==> labels_less(#[trigger] sv[a].0, #[trigger] sv[b].0)
    &&& forall|a: int|
        0 <= a < sv.len() ==> (#[trigger] sv[a]).1 == stream_values(es, sv[a].0) && sv[a].1.len() > 0
    &&& forall|k: int| 0 <= k < es.len() ==> exists|a: int| 0 <= a < sv.len() && #[trigger] sv[a].0 == (#[trigger] es[k]).0
}

fn clone_pair(p: &(String, String)) -> (r: (String, String))
    ensures
        r.0@ == p.0@ && r.1@ == p.1@,
{
    (p.0.clone(), p.1.clone())
}

/// Groups entries into streams by label set.
pub fn group_streams(entries: &Vec<(Labels, ParsedLine)>) -> (r: Vec<PushStream>)
    ensures
        groups(streams_view(r@), entries_view(entries@)),
{
    let ghost all = entries_view(entries@);
    let mut streams: Vec<PushStream> = Vec::new();
    let mut i: usize = 0;
    assert(groups(streams_view(streams@), all.subrange(0, 0)));
    while i < entries.len()
        invariant
            i <= entries@.len(),
            all == entries_view(entries@),
            groups(streams_view(streams@), all.subrange(0, i as int)),
        decreases entries@.len() - i,
    {
        let ghost old_sv = streams_view(streams@);
        let ghost es = all.subrange(0, i as int);
        let ghost e = all[i as int];
        assert(all.subrange(0, i + 1) =~= es.push(e));
        let labels = &entries[i].0;
        let value = (entries[i].1.timestamp_ns.clone(), entries[i].1.line.clone());
        assert(e == (labels@, (value.0@, value.1@)));
        let mut j: usize = 0;
        while j < streams.len() && streams[j].stream.less_than(labels)
            invariant
                j <= streams@.len(),
                old_sv == streams_view(streams@),
                labels@ == e.0,
                forall|a: int| 0 <= a < j ==> labels_less(#[trigger] old_sv[a].0, e.0),
            decreases streams@.len() - j,
        {
            assert(old_sv[j as int].0 == streams@[j as int].stream@);
            j = j + 1;
        }
        if j < streams.len() && streams[j].stream.same_as(labels) {
            assert(old_sv[j as int].0 == e.0);
            let mut st = streams.remove(j);
            st.values.push(value);
            streams.insert(j, st);
            proof {
                let sv = streams_view(streams@);
                assert(sv.len() == old_sv.len());
                assert forall|a: int| 0 <= a < sv.len() implies #[trigger] sv[a] == if a == j {
                    (old_sv[a].0, old_sv[a].1.push(e.1))
                } else {
                    old_sv[a]
                } by {
                    if a == j {
                        assert(pairs_view(st.values@) =~= old_sv[a].1.push(e.1));
                    }
                }
                assert forall|a: int| 0 <= a < sv.len() implies (#[trigger] sv[a]).1 == stream_values(
                    es.push(e),
                    sv[a].0,
                ) && sv[a].1.len() > 0 by {
                    assert(old_sv[a].1 == stream_values(es, old_sv[a].0));
                    lemma_stream_values_push(es, e, sv[a].0);
                }
                assert forall|k: int| 0 <= k < es.push(e).len() implies exists|a: int|
                    0 <= a < sv.len() && #[trigger] sv[a].0 == (#[trigger] es.push(e)[k]).0 by {
                    if k < es.len() {
                        assert(es.push(e)[k] == es[k]);
                        let a = choose|a: int| 0 <= a < old_sv.len() && #[trigger] old_sv[a].0 == es[k].0;
                        assert(sv[a].0 == old_sv[a].0);
                    } else {
                        assert(sv[j as int].0 == e.0);
                    }
                }
            }
        } else {
            proof {
                if j < old_sv.len() {
                    assert(old_sv[j as int].0 == streams@[j as int].stream@);
                    lemma_labels_less_order(old_sv[j as int].0, e.0, e.0);
                }
            }
            let mut values: Vec<(String, String)> = Vec::new();
            values.push(value);
            assert(pairs_view(values@) =~= seq![e.1]);
            let stream = PushStream { stream: labels.clone(), values };
            assert(stream.stream@ == e.0);
            let ghost old_streams = streams@;
            streams.insert(j, stream);
            proof {
                let sv = streams_view(streams@);
                assert(streams@ == old_streams.insert(j as int, stream));
                assert forall|a: int| 0 <= a < sv.len() implies #[trigger] sv[a] == old_sv.insert(
                    j as int,
                    (e.0, seq![e.1]),
                )[a] by {
                    if a < j {
                        assert(streams@[a] == old_streams[a]);
                    } else if a > j {
                        assert(streams@[a] == old_streams[a - 1]);
                    }
                }
                assert(sv =~= old_sv.insert(j as int, (e.0, seq![e.1])));
                // No earlier stream has this label set, so no earlier entry does.
                assert forall|a: int| 0 <= a < old_sv.len() implies #[trigger] old_sv[a].0 != e.0 by {
                    lemma_labels_less_order(old_sv[a].0, e.0, e.0);
                    if a > j {
                        lemma_labels_less_order(e.0, old_sv[j as int].0, old_sv[a].0);
                    }
                }
                assert forall|k: int| 0 <= k < es.len() implies (#[trigger] es[k]).0 != e.0 by {
                    let a = choose|a: int| 0 <= a < old_sv.len() && #[trigger] old_sv[a].0 == es[k].0;
                }
                lemma_stream_values_absent(es, e.0);
                lemma_stream_values_push(es, e, e.0);
                assert forall|a: int, b: int| 0 <= a < b < sv.len() implies labels_less(
                    #[trigger] sv[a].0,
                    #[trigger] sv[b].0,
                ) by {
                    if a < j && b < j {
                    } else if a < j && b == j {
                    } else if a < j && b > j {
                        assert(sv[b] == old_sv[b - 1]);
                    } else if a == j {
                        assert(sv[b] == old_sv[b - 1]);
                        if b - 1 > j {
                            lemma_labels_less_order(e.0, old_sv[j as int].0, old_sv[b - 1].0);
                        }
                    } else {
                        assert(sv[a] == old_sv[a - 1]);
                        assert(sv[b] == old_sv[b - 1]);
                    }
                }
                assert forall|a: int| 0 <= a < sv.len() implies (#[trigger] sv[a]).1 == stream_values(
                    es.push(e),
                    sv[a].0,
                ) && sv[a].1.len() > 0 by {
                    if a < j {
                        assert(sv[a] == old_sv[a]);
                        lemma_stream_values_push(es, e, sv[a].0);
                    } else if a > j {
                        assert(sv[a] == old_sv[a - 1]);
                        lemma_stream_values_push(es, e, sv[a].0);
                    } else {
                        assert(seq![e.1] =~= Seq::<(Seq<char>, Seq<char>)>::empty().push(e.1));
                    }
                }
                assert forall|k: int| 0 <= k < es.push(e).len() implies exists|a: int|
                    0 <= a < sv.len() && #[trigger] sv[a].0 == (#[trigger] es.push(e)[k]).0 by {
                    if k < es.len() {
                        assert(es.push(e)[k] == es[k]);
                        let a = choose|a: int| 0 <= a < old_sv.len() && #[trigger] old_sv[a].0 == es[k].0;
                        if a < j {
                            assert(sv[a] == old_sv[a]);
                        } else {
                            assert(sv[a + 1] == old_sv[a]);
                        }
                    } else {
                        assert(sv[j as int].0 == e.0);
                    }
                }
            }
        }
        i = i + 1;
    }
    assert(all.subrange(0, entries@.len() as int) =~= all);
    streams
}

/// The streams of the request that pushes entries, or `None` when there are
/// no entries and nothing is to be sent.
pub fn push_streams(entries: &Vec<(Labels, ParsedLine)>) -> (r: Option<Vec<PushStream>>)
    ensures
        r is None <==> entries@.len() == 0,
        r matches Some(v) ==> groups(streams_view(v@), entries_view(entries@)),
{
    if entries.len() == 0 {
        None
    } else {
        Some(group_streams(entries))
    }
}

/// The number of pairs that streams hold in all, each stream taken with its
/// pairs among entries `es`.
pub open spec fn total_values(
    sv: Seq<(Seq<(Seq<char>, Seq<char>)>, Seq<(Seq<char>, Seq<char>)>)>,
    es: Seq<(Seq<(Seq<char>, Seq<char>)>, (Seq<char>, Seq<char>))>,
) -> nat
    decreases sv.len(),
{
    if sv.len() == 0 {
        0
    } else {
        total_values(sv.drop_last(), es) + stream_values(es, sv.last().0).len()
    }
}

/// The number of streams with a label set.
pub open spec fn streams_with(
    sv: Seq<(Seq<(Seq<char>, Seq<char>)>, Seq<(Seq<char>, Seq<char>)>)>,
    labels: Seq<(Seq<char>, Seq<char>)>,
) -> nat
    decreases sv.len(),
{
    if sv.len() == 0 {
        0
    } else {
        streams_with(sv.drop_last(), labels) + if sv.last().0 == labels {
            1nat
        } else {
            0nat
        }
    }
}

proof fn lemma_total_values_push(
    sv: Seq<(Seq<(Seq<char>, Seq<char>)>, Seq<(Seq<char>, Seq<char>)>)>,
    es: Seq<(Seq<(Seq<char>, Seq<char>)>, (Seq<char>, Seq<char>))>,
    e: (Seq<(Seq<char>, Seq<char>)>, (Seq<char>, Seq<char>)),
)
    ensures
        total_values(sv, es.push(e)) == total_values(sv, es) + streams_with(sv, e.0),
    decreases sv.len(),
{
    if sv.len() > 0 {
        lemma_total_values_push(sv.drop_last(), es, e);
        lemma_stream_values_push(es, e, sv.last().0);
    }
}

proof fn lemma_streams_with_sorted(
    sv: Seq<(Seq<(Seq<char>, Seq<char>)>, Seq<(Seq<char>, Seq<char>)>)>,
    labels: Seq<(Seq<char>, Seq<char>)>,
)
    requires
        forall|a: int, b: int| 0 <= a < b < sv.len() ==> labels_less(#[trigger] sv[a].0, #[trigger] sv[b].0),
    ensures
        (exists|a: int| 0 <= a < sv.len() && #[trigger] sv[a].0 == labels) ==> streams_with(sv, labels) == 1,
        (forall|a: int| 0 <= a < sv.len() ==> #[trigger] sv[a].0 != labels) ==> streams_with(sv, labels) == 0,
    decreases sv.len(),
{
    if sv.len() > 0 {
        let init = sv.drop_last();
        assert forall|a: int, b: int| 0 <= a < b < init.len() implies labels_less(#[trigger] init[a].0, #[trigger] init[b].0) by {
            assert(init[a] == sv[a] && init[b] == sv[b]);
        }
        lemma_streams_with_sorted(init, labels);
        if sv.last().0 == labels {
            assert forall|a: int| 0 <= a < init.len() implies #[trigger] init[a].0 != labels by {
                assert(init[a] == sv[a]);
                assert(labels_less(sv[a].0, sv[sv.len() - 1].0));
                lemma_labels_less_order(labels, labels, labels);
            }
        } else {
            if exists|a: int| 0 <= a < sv.len() && #[trigger] sv[a].0 == labels {
                let a = choose|a: int| 0 <= a < sv.len() && #[trigger] sv[a].0 == labels;
                assert(init[a] == sv[a]);
            }
            assert forall|a: int| 0 <= a < init.len() && (forall|b: int| 0 <= b < sv.len() ==> #[trigger] sv[b].0 != labels) implies #[trigger] init[a].0 != labels by {
                assert(init[a] == sv[a]);
            }
        }
    }
}

proof fn lemma_total_values_covers(
    sv: Seq<(Seq<(Seq<char>, Seq<char>)>, Seq<(Seq<char>, Seq<char>)>)>,
    es: Seq<(Seq<(Seq<char>, Seq<char>)>, (Seq<char>, Seq<char>))>,
)
    requires
        forall|a: int, b: int| 0 <= a < b < sv.len() ==> labels_less(#[trigger] sv[a].0, #[trigger] sv[b].0),
        forall|k: int| 0 <= k < es.len() ==> exists|a: int| 0 <= a < sv.len() && #[trigger] sv[a].0 == (#[trigger] es[k]).0,
    ensures
        total_values(sv, es) == es.len(),
    decreases es.len(),
{
    if es.len() == 0 {
        lemma_total_values_empty(sv, es);
    } else {
        let init = es.drop_last();
        let e = es.last();
        assert(init.push(e) =~= es);
        assert forall|k: int| 0 <= k < init.len() implies exists|a: int| 0 <= a < sv.len() && #[trigger] sv[a].0 == (#[trigger] init[k]).0 by {
            assert(init[k] == es[k]);
        }
        lemma_total_values_covers(sv, init);
        lemma_total_values_push(sv, init, e);
        assert(es[es.len() - 1] == e);
        lemma_streams_with_sorted(sv, e.0);
    }
}

proof fn lemma_total_values_empty(
    sv: Seq<(Seq<(Seq<char>, Seq<char>)>, Seq<(Seq<char>, Seq<char>)>)>,
    es: Seq<(Seq<(Seq<char>, Seq<char>)>, (Seq<char>, Seq<char>))>,
)
    requires
        es.len() == 0,
    ensures
        total_values(sv, es) == 0,
    decreases sv.len(),
{
    if sv.len() > 0 {
        lemma_total_values_empty(sv.drop_last(), es);
    }
}

/// Grouping neither loses nor repeats a line: the streams hold as many pairs
/// in all as there are entries.
pub proof fn law_grouping_keeps_every_line(
    sv: Seq<(Seq<(Seq<char>, Seq<char>)>, Seq<(Seq<char>, Seq<char>)>)>,
    es: Seq<(Seq<(Seq<char>, Seq<char>)>, (Seq<char>, Seq<char>))>,
)
    requires
        groups(sv, es),
    ensures
        total_values(sv, es) == es.len(),
{
    lemma_total_values_covers(sv, es);
}

} // verus!
