//! Rolling window store: a time-bounded buffer of scalar samples, newest
//! first, that evicts entries older than a fixed retention behind the newest
//! sample on every append.

use std::collections::VecDeque;
use vstd::prelude::*;

verus! {

/// One time-stamped scalar reading. Immutable once created.
#[derive(Clone, Copy, PartialEq, Eq, Structural, Debug)]
pub struct Sample {
    pub timestamp_ms: i64,
    pub value: i64,
}

/// Retention used by every store the dashboard creates: sixty seconds.
pub const DEFAULT_RETENTION_MS: i64 = 60000;

/// What remains of `s` (newest first) after eviction: samples are dropped
/// from the old end while the one at the old end lies more than
/// `retention_ms` behind the newest, stopping as soon as the oldest remaining
/// sample is inside the window or a single sample remains. A sample whose
/// timestamp lies ahead of the newest (a clock adjustment) yields a negative
/// difference and is never evicted.
pub open spec fn evict_spec(s: Seq<Sample>, retention_ms: int) -> Seq<Sample>
    decreases s.len(),
{
    if s.len() > 1 && s[0].timestamp_ms - s[s.len() - 1].timestamp_ms > retention_ms {
        evict_spec(s.drop_last(), retention_ms)
    } else {
        s
    }
}

/// The sequence a store holds after appending `(timestamp_ms, value)` to `s`:
/// the new sample enters at the newest end, then stale samples leave the old
/// end.
pub open spec fn push_spec(s: Seq<Sample>, timestamp_ms: i64, value: i64, retention_ms: int) -> Seq<Sample> {
    evict_spec(seq![Sample { timestamp_ms, value }] + s, retention_ms)
}

/// Newest-first ordering: every sample's timestamp is at least that of any
/// later (older) entry.
pub open spec fn sorted_newest_first(s: Seq<Sample>) -> bool {
    forall|i: int, j: int| 0 <= i <= j < s.len() ==> s[i].timestamp_ms >= s[j].timestamp_ms
}

/// Every retained sample lies within `retention_ms` of the newest one.
pub open spec fn within_window(s: Seq<Sample>, retention_ms: int) -> bool {
    forall|i: int| #![trigger s[i]] 0 <= i < s.len() ==> s[0].timestamp_ms - s[i].timestamp_ms <= retention_ms
}

/// Adjacent samples (newest first) are spaced at least `gap_ms` apart.
pub open spec fn min_gap(s: Seq<Sample>, gap_ms: int) -> bool {
    forall|i: int| #![trigger s[i]] 0 <= i < s.len() - 1 ==> s[i].timestamp_ms - s[i + 1].timestamp_ms >= gap_ms
}

/// A time-bounded sample buffer for one metric, plus the unit label and the
/// nominal axis ceiling the presentation layer scales by (the ceiling never
/// clamps data).
pub struct RollingStore {
    samples: VecDeque<Sample>,
    retention_ms: i64,
    unit: String,
    ceiling: i64,
}

impl View for RollingStore {
    type V = Seq<Sample>;

    closed spec fn view(&self) -> Seq<Sample> {
        self.samples@
    }
}

impl RollingStore {
    /// The retention window in milliseconds.
    pub closed spec fn retention_spec(&self) -> int {
        self.retention_ms as int
    }

    /// The unit label attached to the metric.
    pub closed spec fn unit_spec(&self) -> Seq<char> {
        self.unit@
    }

    /// The nominal maximum used for axis scaling.
    pub closed spec fn ceiling_spec(&self) -> int {
        self.ceiling as int
    }

    /// A store is well formed when it holds at least one sample (so a chart is
    /// never empty) and its retention is non-negative.
    pub open spec fn wf(&self) -> bool {
        &&& self@.len() >= 1
        &&& self.retention_spec() >= 0
    }

    /// How an append relates the store after (`post`) to the store before
    /// (`pre`): the sample sequence follows `push_spec` and the fixed fields
    /// are unchanged.
    pub open spec fn push_post(post: RollingStore, pre: RollingStore, timestamp_ms: i64, value: i64) -> bool {
        &&& post@ == push_spec(pre@, timestamp_ms, value, pre.retention_spec())
        &&& post.retention_spec() == pre.retention_spec()
        &&& post.unit_spec() == pre.unit_spec()
        &&& post.ceiling_spec() == pre.ceiling_spec()
    }

    /// A store holding exactly its seed sample, with the default sixty-second
    /// retention.
    pub fn new(seed_timestamp_ms: i64, seed_value: i64, unit: String, ceiling: i64) -> (store: RollingStore)
        ensures
            store@ == seq![Sample { timestamp_ms: seed_timestamp_ms, value: seed_value }],
            store.retention_spec() == DEFAULT_RETENTION_MS as int,
            store.unit_spec() == unit@,
            store.ceiling_spec() == ceiling as int,
            store.wf(),
    {
        RollingStore::new_with_retention(seed_timestamp_ms, seed_value, unit, DEFAULT_RETENTION_MS, ceiling)
    }

    /// A store holding exactly its seed sample, with a caller-chosen
    /// retention.
    pub fn new_with_retention(
        seed_timestamp_ms: i64,
        seed_value: i64,
        unit: String,
        retention_ms: i64,
        ceiling: i64,
    ) -> (store: RollingStore)
        requires
            retention_ms >= 0,
        ensures
            store@ == seq![Sample { timestamp_ms: seed_timestamp_ms, value: seed_value }],
            store.retention_spec() == retention_ms as int,
            store.unit_spec() == unit@,
            store.ceiling_spec() == ceiling as int,
            store.wf(),
    {
        let mut samples: VecDeque<Sample> = VecDeque::new();
        samples.push_front(Sample { timestamp_ms: seed_timestamp_ms, value: seed_value });
        proof {
            assert(samples@ =~= seq![Sample { timestamp_ms: seed_timestamp_ms, value: seed_value }]);
        }
        RollingStore { samples, retention_ms, unit, ceiling }
    }

    /// Append a sample at the newest end, then evict from the old end until
    /// the oldest remaining sample is within the retention window or only one
    /// sample remains. Every call invalidates whatever render cache the
    /// presentation layer keeps over this store: the return from this call is
    /// the invalidation point.
    pub fn push(&mut self, timestamp_ms: i64, value: i64)
        ensures
            RollingStore::push_post(*final(self), *old(self), timestamp_ms, value),
            final(self)@.len() >= 1,
            old(self).wf() ==> final(self).wf(),
    {
        self.samples.push_front(Sample { timestamp_ms, value });
        let ghost pushed: Seq<Sample> = self.samples@;
        proof {
            assert(pushed =~= seq![Sample { timestamp_ms, value }] + old(self)@);
        }
        while self.samples.len() > 1
            && (self.samples[0].timestamp_ms as i128) - (self.samples[self.samples.len() - 1].timestamp_ms as i128)
                > (self.retention_ms as i128)
            invariant
                self.samples@.len() >= 1,
                evict_spec(self.samples@, self.retention_ms as int) == evict_spec(pushed, self.retention_ms as int),
                self.retention_ms == old(self).retention_ms,
                self.unit == old(self).unit,
                self.ceiling == old(self).ceiling,
            decreases self.samples@.len(),
        {
            proof {
                assert(evict_spec(self.samples@, self.retention_ms as int)
                    == evict_spec(self.samples@.drop_last(), self.retention_ms as int));
            }
            self.samples.pop_back();
        }
        proof {
            assert(evict_spec(self.samples@, self.retention_ms as int) == self.samples@);
        }
    }

    /// The full ordered sequence, newest first, for read-only consumption.
    pub fn samples(&self) -> (s: &VecDeque<Sample>)
        ensures
            s@ == self@,
    {
        &self.samples
    }

    /// How many samples the store currently holds.
    pub fn len(&self) -> (n: usize)
        ensures
            n == self@.len(),
    {
        self.samples.len()
    }

    /// The unit label attached to the metric.
    pub fn unit(&self) -> (u: &String)
        ensures
            u@ == self.unit_spec(),
    {
        &self.unit
    }

    /// The nominal axis ceiling.
    pub fn ceiling(&self) -> (c: i64)
        ensures
            c as int == self.ceiling_spec(),
    {
        self.ceiling
    }

    /// The retention window in milliseconds.
    pub fn retention_ms(&self) -> (r: i64)
        ensures
            r as int == self.retention_spec(),
    {
        self.retention_ms
    }
}

/// After eviction the store still holds its newest sample, what remains is a
/// prefix of the input, and unless a single sample remains the oldest one is
/// inside the window.
pub proof fn lemma_evict_props(s: Seq<Sample>, retention_ms: int)
    requires
        s.len() >= 1,
    ensures
        1 <= evict_spec(s, retention_ms).len() <= s.len(),
        evict_spec(s, retention_ms) == s.subrange(0, evict_spec(s, retention_ms).len() as int),
        evict_spec(s, retention_ms).len() > 1 ==> evict_spec(s, retention_ms)[0].timestamp_ms
            - evict_spec(s, retention_ms)[evict_spec(s, retention_ms).len() - 1].timestamp_ms <= retention_ms,
    decreases s.len(),
{
    if s.len() > 1 && s[0].timestamp_ms - s[s.len() - 1].timestamp_ms > retention_ms {
        lemma_evict_props(s.drop_last(), retention_ms);
        let r = evict_spec(s, retention_ms);
        assert(s.drop_last().subrange(0, r.len() as int) =~= s.subrange(0, r.len() as int));
    } else {
        assert(s.subrange(0, s.len() as int) =~= s);
    }
}

/// Window invariant: appending a sample whose timestamp is at or past the
/// newest one to a newest-first store leaves every retained sample within the
/// retention window of the (new) newest sample, keeps the ordering, and never
/// empties the store.
pub proof fn lemma_push_window_invariant(s: Seq<Sample>, timestamp_ms: i64, value: i64, retention_ms: int)
    requires
        sorted_newest_first(s),
        retention_ms >= 0,
        s.len() > 0 ==> timestamp_ms >= s[0].timestamp_ms,
    ensures
        within_window(push_spec(s, timestamp_ms, value, retention_ms), retention_ms),
        sorted_newest_first(push_spec(s, timestamp_ms, value, retention_ms)),
        push_spec(s, timestamp_ms, value, retention_ms).len() >= 1,
{
    let t = seq![Sample { timestamp_ms, value }] + s;
    assert forall|i: int, j: int| 0 <= i <= j < t.len() implies t[i].timestamp_ms >= t[j].timestamp_ms by {
        if 1 <= i {
            assert(t[i] == s[i - 1]);
            assert(t[j] == s[j - 1]);
        } else if 1 <= j {
            assert(t[j] == s[j - 1]);
            assert(s[0].timestamp_ms >= s[j - 1].timestamp_ms);
        }
    }
    lemma_evict_props(t, retention_ms);
    let r = evict_spec(t, retention_ms);
    assert forall|i: int| #![trigger r[i]] 0 <= i < r.len() implies r[0].timestamp_ms - r[i].timestamp_ms
        <= retention_ms by {
        assert(r[i] == t[i]);
        assert(r[0] == t[0]);
        if r.len() > 1 {
            assert(r[i].timestamp_ms >= r[r.len() - 1].timestamp_ms);
        }
    }
}

/// In a sequence whose adjacent samples are spaced at least `gap_ms` apart,
/// the newest and oldest samples are at least `(len - 1) * gap_ms` apart.
pub proof fn lemma_min_gap_span(s: Seq<Sample>, gap_ms: int)
    requires
        min_gap(s, gap_ms),
        gap_ms >= 0,
        s.len() >= 1,
    ensures
        s[0].timestamp_ms - s[s.len() - 1].timestamp_ms >= (s.len() - 1) * gap_ms,
    decreases s.len(),
{
    if s.len() == 1 {
        assert((s.len() - 1) * gap_ms == 0) by (nonlinear_arith)
            requires
                s.len() == 1,
        ;
    } else {
        let t = s.drop_last();
        assert forall|i: int| #![trigger t[i]] 0 <= i < t.len() - 1 implies t[i].timestamp_ms - t[i + 1].timestamp_ms
            >= gap_ms by {
            assert(t[i] == s[i]);
            assert(t[i + 1] == s[i + 1]);
        }
        lemma_min_gap_span(t, gap_ms);
        assert(s[s.len() - 2].timestamp_ms - s[s.len() - 1].timestamp_ms >= gap_ms);
        assert((s.len() - 2) * gap_ms + gap_ms == (s.len() - 1) * gap_ms) by (nonlinear_arith);
    }
}

/// Monotonic retention: however many samples were ever pushed, a store whose
/// samples are spaced at least `gap_ms` apart and all lie within the
/// retention window holds at most `retention_ms / gap_ms + 1` samples.
pub proof fn lemma_monotonic_retention(s: Seq<Sample>, retention_ms: int, gap_ms: int)
    requires
        within_window(s, retention_ms),
        min_gap(s, gap_ms),
        gap_ms > 0,
        retention_ms >= 0,
        s.len() >= 1,
    ensures
        s.len() <= retention_ms / gap_ms + 1,
{
    lemma_min_gap_span(s, gap_ms);
    assert(s[0].timestamp_ms - s[s.len() - 1].timestamp_ms <= retention_ms);
    assert((s.len() - 1) * gap_ms <= retention_ms);
    assert(s.len() - 1 <= retention_ms / gap_ms) by (nonlinear_arith)
        requires
            (s.len() - 1) * gap_ms <= retention_ms,
            gap_ms > 0,
            retention_ms >= 0,
            s.len() >= 1,
    ;
}

/// Samples spaced one second apart in a sixty-second window: at most 61 are
/// ever retained.
pub proof fn lemma_sixty_second_bound(s: Seq<Sample>)
    requires
        within_window(s, 60000),
        min_gap(s, 1000),
        s.len() >= 1,
    ensures
        s.len() <= 61,
{
    lemma_monotonic_retention(s, 60000, 1000);
}

/// The store contents after appending every sample of `pushes`, in order,
/// to a store holding `s`.
pub open spec fn push_all(s: Seq<Sample>, pushes: Seq<Sample>, retention_ms: int) -> Seq<Sample>
    decreases pushes.len(),
{
    if pushes.len() == 0 {
        s
    } else {
        push_all(
            push_spec(s, pushes[0].timestamp_ms, pushes[0].value, retention_ms),
            pushes.drop_first(),
            retention_ms,
        )
    }
}

/// For every sequence of pushes spaced at least `gap_ms` apart and starting
/// at least `gap_ms` past the newest sample of a well-ordered, in-window
/// store: the store stays ordered and in-window, keeps the spacing, and never
/// holds more than `retention_ms / gap_ms + 1` samples, however many samples
/// are pushed.
pub proof fn lemma_spaced_pushes_stay_bounded(s: Seq<Sample>, pushes: Seq<Sample>, retention_ms: int, gap_ms: int)
    requires
        sorted_newest_first(s),
        within_window(s, retention_ms),
        min_gap(s, gap_ms),
        s.len() >= 1,
        retention_ms >= 0,
        gap_ms > 0,
        pushes.len() > 0 ==> pushes[0].timestamp_ms - s[0].timestamp_ms >= gap_ms,
        forall|i: int| #![trigger pushes[i]] 0 <= i < pushes.len() - 1 ==> pushes[i + 1].timestamp_ms
            - pushes[i].timestamp_ms >= gap_ms,
    ensures
        sorted_newest_first(push_all(s, pushes, retention_ms)),
        within_window(push_all(s, pushes, retention_ms), retention_ms),
        min_gap(push_all(s, pushes, retention_ms), gap_ms),
        1 <= push_all(s, pushes, retention_ms).len() <= retention_ms / gap_ms + 1,
    decreases pushes.len(),
{
    if pushes.len() == 0 {
        lemma_monotonic_retention(s, retention_ms, gap_ms);
    } else {
        let x = pushes[0];
        lemma_push_window_invariant(s, x.timestamp_ms, x.value, retention_ms);
        lemma_push_preserves_gap(s, x.timestamp_ms, x.value, retention_ms, gap_ms);
        let t = seq![Sample { timestamp_ms: x.timestamp_ms, value: x.value }] + s;
        lemma_evict_props(t, retention_ms);
        let s2 = push_spec(s, x.timestamp_ms, x.value, retention_ms);
        assert(s2[0] == t[0]);
        let rest = pushes.drop_first();
        assert forall|i: int| #![trigger rest[i]] 0 <= i < rest.len() - 1 implies rest[i + 1].timestamp_ms
            - rest[i].timestamp_ms >= gap_ms by {
            assert(rest[i] == pushes[i + 1]);
            assert(rest[i + 1] == pushes[i + 2]);
        }
        if rest.len() > 0 {
            assert(rest[0] == pushes[1]);
        }
        lemma_spaced_pushes_stay_bounded(s2, rest, retention_ms, gap_ms);
    }
}

/// Appending a sample at least `gap_ms` past the newest one preserves the
/// minimum spacing between adjacent samples, since eviction only drops a
/// suffix at the old end.
pub proof fn lemma_push_preserves_gap(s: Seq<Sample>, timestamp_ms: i64, value: i64, retention_ms: int, gap_ms: int)
    requires
        min_gap(s, gap_ms),
        s.len() > 0 ==> timestamp_ms - s[0].timestamp_ms >= gap_ms,
    ensures
        min_gap(push_spec(s, timestamp_ms, value, retention_ms), gap_ms),
{
    let t = seq![Sample { timestamp_ms, value }] + s;
    assert forall|i: int| #![trigger t[i]] 0 <= i < t.len() - 1 implies t[i].timestamp_ms - t[i + 1].timestamp_ms
        >= gap_ms by {
        if i == 0 {
            assert(t[0].timestamp_ms == timestamp_ms);
            assert(t[1] == s[0]);
        } else {
            assert(t[i] == s[i - 1]);
            assert(t[i + 1] == s[i]);
        }
    }
    lemma_evict_props(t, retention_ms);
    let r = evict_spec(t, retention_ms);
    assert forall|i: int| #![trigger r[i]] 0 <= i < r.len() - 1 implies r[i].timestamp_ms - r[i + 1].timestamp_ms
        >= gap_ms by {
        assert(r[i] == t[i]);
        assert(r[i + 1] == t[i + 1]);
    }
}

} // verus!
