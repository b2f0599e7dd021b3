//! The correlator: a spatial join between pattern findings and measurement
//! findings of the same source file. A pattern finding lying fully inside a
//! measurement finding's scope attributes that scope's metrics to the
//! pattern's kind, weighted by the fraction of the scope the pattern
//! covers; pairings covering less than a tenth of the scope are discarded
//! as too small to be meaningful attribution.

use vstd::prelude::*;

use crate::finding::{
    finding_wf, findings_view, inside, payload_metrics, size_ratio, span_len, Finding, FindingV,
};
use crate::metrics::{
    merge_fits, metrics_merge, metrics_weigh, metrics_wf, metrics_zero, weigh_fits, Metrics,
    MetricsV,
};
use crate::tool::ToolName;

verus! {

/// The bucket map built from an entry list: later entries win, though the
/// list is kept duplicate-free throughout.
pub open spec fn buckets_map(entries: Seq<(String, Metrics)>) -> Map<Seq<char>, MetricsV>
    decreases entries,
{
    if entries.len() == 0 {
        Map::<Seq<char>, MetricsV>::empty()
    } else {
        buckets_map(entries.drop_last()).insert(entries.last().0@, entries.last().1@)
    }
}

/// No two entries name the same kind.
pub open spec fn entries_unique(entries: Seq<(String, Metrics)>) -> bool {
    forall|i: int, j: int|
        0 <= i < j < entries.len() ==> (#[trigger] entries[i]).0@ != (#[trigger] entries[j]).0@
}

/// Unique kinds, and a well-formed accumulator under each.
pub open spec fn entries_wf(entries: Seq<(String, Metrics)>) -> bool {
    entries_unique(entries) && (forall|i: int|
        0 <= i < entries.len() ==> metrics_wf((#[trigger] entries[i]).1@))
}

/// A key is in the bucket map exactly when some entry names it.
proof fn lemma_buckets_map_contains(entries: Seq<(String, Metrics)>, k: Seq<char>)
    ensures
        buckets_map(entries).contains_key(k) <==> exists|i: int|
            0 <= i < entries.len() && (#[trigger] entries[i]).0@ == k,
    decreases entries,
{
    if entries.len() > 0 {
        lemma_buckets_map_contains(entries.drop_last(), k);
        if entries.last().0@ == k {
            assert(entries[entries.len() - 1].0@ == k);
        } else if buckets_map(entries).contains_key(k) {
            let i = choose|i: int|
                0 <= i < entries.drop_last().len() && (#[trigger] entries.drop_last()[i]).0@ == k;
            assert(entries[i].0@ == k);
        } else {
            assert forall|i: int|
                0 <= i < entries.len() && (#[trigger] entries[i]).0@ == k implies false by {
                if i < entries.len() - 1 {
                    assert(entries.drop_last()[i].0@ == k);
                }
            }
        }
    }
}

/// With unique kinds, the map holds each entry's accumulator under its
/// kind.
proof fn lemma_buckets_map_value(entries: Seq<(String, Metrics)>, i: int)
    requires
        entries_unique(entries),
        0 <= i < entries.len(),
    ensures
        buckets_map(entries)[entries[i].0@] == entries[i].1@,
    decreases entries,
{
    if i == entries.len() - 1 {
    } else {
        assert(entries_unique(entries.drop_last())) by {
            let d = entries.drop_last();
            assert forall|a: int, b: int| 0 <= a < b < d.len() implies (#[trigger] d[a]).0@ != (
            #[trigger] d[b]).0@ by {
                assert(entries[a].0@ != entries[b].0@);
            }
        }
        assert(entries.drop_last()[i] == entries[i]);
        lemma_buckets_map_value(entries.drop_last(), i);
        assert(entries[i].0@ != entries.last().0@);
    }
}

/// Updating the entry of one kind updates the map at that kind alone.
proof fn lemma_buckets_map_update(entries: Seq<(String, Metrics)>, i: int, v: (String, Metrics))
    requires
        entries_unique(entries),
        0 <= i < entries.len(),
        v.0@ == entries[i].0@,
    ensures
        buckets_map(entries.update(i, v)) =~= buckets_map(entries).insert(v.0@, v.1@),
    decreases entries,
{
    if i == entries.len() - 1 {
        assert(entries.update(i, v).drop_last() =~= entries.drop_last());
        assert(entries.update(i, v).last() == v);
    } else {
        assert(entries_unique(entries.drop_last())) by {
            let d = entries.drop_last();
            assert forall|a: int, b: int| 0 <= a < b < d.len() implies (#[trigger] d[a]).0@ != (
            #[trigger] d[b]).0@ by {
                assert(entries[a].0@ != entries[b].0@);
            }
        }
        assert(entries.drop_last()[i] == entries[i]);
        lemma_buckets_map_update(entries.drop_last(), i, v);
        assert(entries.update(i, v).drop_last() =~= entries.drop_last().update(i, v));
        assert(entries.update(i, v).last() == entries.last());
        assert(entries[i].0@ != entries.last().0@);
    }
}

/// The accumulator buckets of one correlation run, keyed by pattern kind.
pub struct KindBuckets {
    pub entries: Vec<(String, Metrics)>,
}

impl View for KindBuckets {
    type V = Map<Seq<char>, MetricsV>;

    open spec fn view(&self) -> Map<Seq<char>, MetricsV> {
        buckets_map(self.entries@)
    }
}

/// Adding a contribution to a bucket map: the contribution is merged into
/// the kind's accumulator, a fresh kind starting from the empty
/// accumulator; a merge that would leave the machine-integer range leaves
/// the map unchanged.
pub open spec fn bucket_add(
    m: Map<Seq<char>, MetricsV>,
    kind: Seq<char>,
    c: MetricsV,
) -> Map<Seq<char>, MetricsV> {
    let cur = if m.contains_key(kind) {
        m[kind]
    } else {
        metrics_zero()
    };
    if merge_fits(cur, c) {
        m.insert(kind, metrics_merge(cur, c))
    } else {
        m
    }
}

impl KindBuckets {
    /// Unique kinds, and a well-formed accumulator under each.
    pub open spec fn wf(self) -> bool {
        entries_wf(self.entries@)
    }

    /// The empty bucket map.
    pub fn new() -> (r: KindBuckets)
        ensures
            r@ == Map::<Seq<char>, MetricsV>::empty(),
            r.wf(),
    {
        KindBuckets { entries: Vec::new() }
    }

    /// The accumulator of one kind, or `None` for a kind never
    /// contributed to.
    pub fn get(&self, kind: &String) -> (r: Option<Metrics>)
        requires
            self.wf(),
        ensures
            r is Some <==> self@.contains_key(kind@),
            r matches Some(m) ==> m@ == self@[kind@] && metrics_wf(m@),
    {
        let mut i: usize = 0;
        while i < self.entries.len()
            invariant
                i <= self.entries@.len(),
                self.wf(),
                forall|j: int| 0 <= j < i ==> (#[trigger] self.entries@[j]).0@ != kind@,
            decreases self.entries.len() - i,
        {
            if self.entries[i].0 == *kind {
                proof {
                    lemma_buckets_map_contains(self.entries@, kind@);
                    lemma_buckets_map_value(self.entries@, i as int);
                }
                return Some(self.entries[i].1);
            }
            i = i + 1;
        }
        proof {
            lemma_buckets_map_contains(self.entries@, kind@);
        }
        None
    }

    /// Merges one contribution into the bucket of the given kind.
    pub fn merge_into(&mut self, kind: &String, sample: &Metrics)
        requires
            old(self).wf(),
            metrics_wf(sample@),
        ensures
            final(self)@ == bucket_add(old(self)@, kind@, sample@),
            final(self).wf(),
    {
        let mut i: usize = 0;
        while i < self.entries.len()
            invariant
                i <= self.entries@.len(),
                self == old(self),
                self.wf(),
                metrics_wf(sample@),
                forall|j: int| 0 <= j < i ==> (#[trigger] self.entries@[j]).0@ != kind@,
            decreases self.entries.len() - i,
        {
            if self.entries[i].0 == *kind {
                proof {
                    lemma_buckets_map_contains(self.entries@, kind@);
                    lemma_buckets_map_value(self.entries@, i as int);
                }
                proof {
                    assert(metrics_wf(self.entries@[i as int].1@));
                }
                match self.entries[i].1.merge(sample) {
                    Some(m) => {
                        let k = self.entries[i].0.clone();
                        let ghost pre = self.entries@;
                        self.entries[i] = (k, m);
                        proof {
                            lemma_buckets_map_update(pre, i as int, self.entries@[i as int]);
                            assert(self@ =~= bucket_add(old(self)@, kind@, sample@));
                            let ghost cur = self.entries@;
                            assert forall|a: int, b: int| 0 <= a < b < cur.len() implies (
                            #[trigger] cur[a]).0@ != (#[trigger] cur[b]).0@ by {
                                assert(pre[a].0@ == cur[a].0@ || a == i);
                                assert(pre[b].0@ == cur[b].0@ || b == i);
                            }
                        }
                    },
                    None => {
                    },
                }
                return ;
            }
            i = i + 1;
        }
        proof {
            lemma_buckets_map_contains(self.entries@, kind@);
        }
        let zero = Metrics::zero();
        match zero.merge(sample) {
            Some(m) => {
                let ghost pre = self.entries@;
                self.entries.push((kind.clone(), m));
                proof {
                    assert(self.entries@.drop_last() =~= pre);
                    assert(self@ =~= bucket_add(old(self)@, kind@, sample@));
                    let ghost cur = self.entries@;
                    assert forall|a: int, b: int| 0 <= a < b < cur.len() implies (
                    #[trigger] cur[a]).0@ != (#[trigger] cur[b]).0@ by {
                        if b < cur.len() - 1 {
                            assert(pre[a].0@ != pre[b].0@);
                        } else {
                            assert(cur[a].0@ != kind@);
                        }
                    }
                }
            },
            None => {
            },
        }
    }
}

/// Another bucket list folded in from index `j` on, entry by entry.
pub open spec fn absorb_from(
    acc: Map<Seq<char>, MetricsV>,
    entries: Seq<(String, Metrics)>,
    j: int,
) -> Map<Seq<char>, MetricsV>
    decreases entries.len() - j,
{
    if j < 0 || j >= entries.len() {
        acc
    } else {
        absorb_from(bucket_add(acc, entries[j].0@, entries[j].1@), entries, j + 1)
    }
}

impl KindBuckets {
    /// Folds another run's buckets into this one, kind by kind: the
    /// order-independent reduction that combines the source files of one
    /// repository.
    pub fn absorb(&mut self, other: &KindBuckets)
        requires
            old(self).wf(),
            other.wf(),
        ensures
            final(self)@ == absorb_from(old(self)@, other.entries@, 0),
            final(self).wf(),
    {
        let mut j: usize = 0;
        while j < other.entries.len()
            invariant
                j <= other.entries@.len(),
                self.wf(),
                other.wf(),
                absorb_from(self@, other.entries@, j as int) == absorb_from(
                    old(self)@,
                    other.entries@,
                    0,
                ),
            decreases other.entries.len() - j,
        {
            proof {
                assert(metrics_wf(other.entries@[j as int].1@));
            }
            self.merge_into(&other.entries[j].0, &other.entries[j].1);
            j = j + 1;
        }
    }
}

/// The attribution weight of a pair meets the fixed minimum threshold of
/// one tenth: the pattern covers at least a tenth of the enclosing scope.
pub open spec fn ratio_meets_threshold(p: FindingV, m: FindingV) -> bool {
    10 * span_len(p) >= span_len(m)
}

/// A pair contributes when the pattern finding comes from the pattern
/// finder, the measurement finding from the AST-metrics tool, the pattern
/// lies fully inside the measurement's scope, the attribution weight meets
/// the threshold, and the measurement's payload reads cleanly.
pub open spec fn pair_contributes(p: FindingV, m: FindingV) -> bool {
    &&& p.tool == ToolName::Finder
    &&& m.tool == ToolName::Rca
    &&& inside(p, m)
    &&& ratio_meets_threshold(p, m)
    &&& payload_metrics(m) is Some
}

/// One pair folded into the bucket map: a contributing pair merges the
/// measurement's metrics, weighted by the size ratio, into the bucket of
/// the pattern's kind; a weighting that would leave the machine-integer
/// range contributes nothing.
pub open spec fn corr_pair(
    acc: Map<Seq<char>, MetricsV>,
    p: FindingV,
    m: FindingV,
) -> Map<Seq<char>, MetricsV> {
    if pair_contributes(p, m) {
        let base = payload_metrics(m)->0;
        let w = size_ratio(p, m);
        if weigh_fits(base, w) {
            bucket_add(acc, p.kind, metrics_weigh(base, w))
        } else {
            acc
        }
    } else {
        acc
    }
}

/// One pattern finding paired against every finding from index `j` on.
pub open spec fn corr_row(
    acc: Map<Seq<char>, MetricsV>,
    p: FindingV,
    fs: Seq<FindingV>,
    j: int,
) -> Map<Seq<char>, MetricsV>
    decreases fs.len() - j,
{
    if j < 0 || j >= fs.len() {
        acc
    } else {
        corr_row(corr_pair(acc, p, fs[j]), p, fs, j + 1)
    }
}

/// Every pattern finding from index `i` on paired against every finding.
pub open spec fn corr_all(
    acc: Map<Seq<char>, MetricsV>,
    fs: Seq<FindingV>,
    i: int,
) -> Map<Seq<char>, MetricsV>
    decreases fs.len() - i,
{
    if i < 0 || i >= fs.len() {
        acc
    } else {
        corr_all(corr_row(acc, fs[i], fs, 0), fs, i + 1)
    }
}

/// The bucket map of one source file's findings.
pub open spec fn correlate_spec(fs: Seq<FindingV>) -> Map<Seq<char>, MetricsV> {
    corr_all(Map::<Seq<char>, MetricsV>::empty(), fs, 0)
}

/// Attribution is reflexive-safe: a pattern finding only ever attributes
/// to a measurement whose range fully encloses its own. In particular it
/// never attributes to a finding with a strictly smaller range, nor to
/// one whose range is disjoint from its own.
pub proof fn lemma_attribution_containment(p: FindingV, m: FindingV)
    requires
        finding_wf(p),
        finding_wf(m),
    ensures
        pair_contributes(p, m) ==> inside(p, m),
        pair_contributes(p, m) ==> span_len(p) <= span_len(m),
        pair_contributes(p, m) ==> m.start_line <= p.start_line && p.end_line <= m.end_line,
{
}

/// The ratio threshold is a closed bound: a pairing whose weight sits
/// exactly at one tenth is retained, one strictly below is discarded.
pub proof fn lemma_threshold_boundary(p: FindingV, m: FindingV)
    ensures
        10 * span_len(p) == span_len(m) ==> ratio_meets_threshold(p, m),
        10 * span_len(p) < span_len(m) ==> !ratio_meets_threshold(p, m),
{
}

/// A row headed by a finding that is no pattern finding contributes
/// nothing.
proof fn lemma_row_no_pattern(acc: Map<Seq<char>, MetricsV>, p: FindingV, fs: Seq<FindingV>, j: int)
    requires
        p.tool != ToolName::Finder,
    ensures
        corr_row(acc, p, fs, j) == acc,
    decreases fs.len() - j,
{
    if 0 <= j < fs.len() {
        lemma_row_no_pattern(acc, p, fs, j + 1);
    }
}

/// Correlates one source file's findings: attributes measurement metrics
/// to every pattern finding whose range they enclose, weighted by the
/// exact fraction of the scope the pattern covers.
pub fn correlate(findings: &Vec<Finding>) -> (r: KindBuckets)
    requires
        forall|i: int| 0 <= i < findings@.len() ==> (#[trigger] findings@[i]).wf(),
    ensures
        r@ == correlate_spec(findings_view(findings@)),
        r.wf(),
{
    let ghost fv = findings_view(findings@);
    let mut buckets = KindBuckets::new();
    let mut i: usize = 0;
    while i < findings.len()
        invariant
            i <= findings.len(),
            fv == findings_view(findings@),
            forall|k: int| 0 <= k < findings@.len() ==> (#[trigger] findings@[k]).wf(),
            buckets.wf(),
            corr_all(buckets@, fv, i as int) == correlate_spec(fv),
        decreases findings.len() - i,
    {
        let p = &findings[i];
        if p.tool_name == ToolName::Finder {
            let ghost row_start = buckets@;
            let mut j: usize = 0;
            while j < findings.len()
                invariant
                    j <= findings.len(),
                    i < findings.len(),
                    fv == findings_view(findings@),
                    forall|k: int| 0 <= k < findings@.len() ==> (#[trigger] findings@[k]).wf(),
                    buckets.wf(),
                    *p == findings@[i as int],
                    fv[i as int].tool == ToolName::Finder,
                    corr_row(buckets@, fv[i as int], fv, j as int) == corr_row(
                        row_start,
                        fv[i as int],
                        fv,
                        0,
                    ),
                decreases findings.len() - j,
            {
                let ghost pre = buckets@;
                let m = &findings[j];
                proof {
                    assert(fv[i as int] == findings@[i as int]@);
                    assert(fv[j as int] == findings@[j as int]@);
                }
                if m.tool_name == ToolName::Rca && p.is_inside(m) {
                    let p_len = (p.end_line - p.start_line) as u128 + 1;
                    let m_len = (m.end_line - m.start_line) as u128 + 1;
                    proof {
                        assert(p_len as int == span_len(fv[i as int]));
                        assert(m_len as int == span_len(fv[j as int]));
                    }
                    if 10 * p_len >= m_len {
                        match m.get_metrics() {
                            Some(base) => {
                                let w = p.get_size_ratio(m);
                                match base.weigh(w) {
                                    Some(sample) => {
                                        buckets.merge_into(&p.kind, &sample);
                                    },
                                    None => {
                                    },
                                }
                            },
                            None => {
                            },
                        }
                    }
                }
                proof {
                    assert(buckets@ == corr_pair(pre, fv[i as int], fv[j as int]));
                }
                j = j + 1;
            }
        } else {
            proof {
                lemma_row_no_pattern(buckets@, fv[i as int], fv, 0);
            }
        }
        i = i + 1;
    }
    buckets
}

} // verus!
