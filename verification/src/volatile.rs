//! In-memory volatile store: a bounded recency buffer with entry and byte
//! caps.
//!
//! The byte counter uses saturating arithmetic: it sticks at `usize::MAX`
//! if the tracked payload bytes ever exceed it, which only makes the byte
//! cap evict more eagerly.

use vstd::prelude::*;

use crate::record::{MemoryRecord, MemoryRecordModel};

verus! {

/// Saturating addition on the byte counter.
pub open spec fn sat_add(a: nat, b: nat) -> nat {
    if a + b > usize::MAX {
        usize::MAX as nat
    } else {
        a + b
    }
}

/// Saturating subtraction on the byte counter.
pub open spec fn sat_sub(a: nat, b: nat) -> nat {
    if a >= b {
        (a - b) as nat
    } else {
        0
    }
}

/// Configuration for the volatile memory buffer.
#[derive(Debug, Clone, Copy, PartialEq, Eq, Structural)]
pub struct VolatileConfig {
    capacity: usize,
    max_total_bytes: Option<usize>,
}

impl VolatileConfig {
    /// The entry-count cap.
    pub closed spec fn spec_capacity(self) -> usize {
        self.capacity
    }

    /// The optional total-bytes cap.
    pub closed spec fn spec_max_total_bytes(self) -> Option<usize> {
        self.max_total_bytes
    }

    /// A valid configuration: both caps, where present, are at least one.
    pub open spec fn wf(self) -> bool {
        &&& self.spec_capacity() >= 1
        &&& match self.spec_max_total_bytes() {
            Some(b) => b >= 1,
            None => true,
        }
    }

    /// Creates a configuration with the provided entry-count cap, which
    /// must be at least one.
    pub fn new(capacity: usize) -> (r: VolatileConfig)
        requires
            capacity >= 1,
        ensures
            r.spec_capacity() == capacity,
            r.spec_max_total_bytes() is None,
            r.wf(),
    {
        VolatileConfig { capacity, max_total_bytes: None }
    }

    /// Sets the optional total byte ceiling for the buffer, which must be
    /// at least one.
    pub fn with_max_total_bytes(self, max_total_bytes: usize) -> (r: VolatileConfig)
        requires
            max_total_bytes >= 1,
        ensures
            r.spec_capacity() == self.spec_capacity(),
            r.spec_max_total_bytes() == Some(max_total_bytes),
            self.wf() ==> r.wf(),
    {
        VolatileConfig { capacity: self.capacity, max_total_bytes: Some(max_total_bytes) }
    }

    /// Returns the configured entry-count cap.
    pub fn capacity(self) -> (r: usize)
        ensures
            r == self.spec_capacity(),
    {
        self.capacity
    }

    /// Returns the maximum total bytes, if configured.
    pub fn max_total_bytes(self) -> (r: Option<usize>)
        ensures
            r == self.spec_max_total_bytes(),
    {
        self.max_total_bytes
    }
}

impl Default for VolatileConfig {
    /// The default configuration: 256 entries, no byte cap.
    fn default() -> (r: Self)
        ensures
            r.spec_capacity() == 256,
            r.spec_max_total_bytes() is None,
            r.wf(),
    {
        VolatileConfig { capacity: 256, max_total_bytes: None }
    }
}

/// Drops oldest entries until the count fits the cap, updating the byte
/// counter for each eviction.
pub open spec fn spec_evict_count(s: Seq<MemoryRecordModel>, t: nat, cap: nat) -> (
    Seq<MemoryRecordModel>,
    nat,
)
    decreases s.len(),
{
    if s.len() <= cap {
        (s, t)
    } else {
        spec_evict_count(s.drop_first(), sat_sub(t, s[0].payload.len()), cap)
    }
}

/// Drops oldest entries until the byte counter fits the cap or a single
/// entry remains.
pub open spec fn spec_evict_bytes(s: Seq<MemoryRecordModel>, t: nat, limit: nat) -> (
    Seq<MemoryRecordModel>,
    nat,
)
    decreases s.len(),
{
    if t <= limit || s.len() <= 1 {
        (s, t)
    } else {
        spec_evict_bytes(s.drop_first(), sat_sub(t, s[0].payload.len()), limit)
    }
}

/// What one push does to the buffer: append the record, update the byte
/// counter, then evict for the entry cap and, if configured, the byte cap.
pub open spec fn spec_push(
    s: Seq<MemoryRecordModel>,
    t: nat,
    config: VolatileConfig,
    r: MemoryRecordModel,
) -> (Seq<MemoryRecordModel>, nat) {
    let appended = s.push(r);
    let t1 = sat_add(t, r.payload.len());
    let counted = spec_evict_count(appended, t1, config.spec_capacity() as nat);
    match config.spec_max_total_bytes() {
        Some(limit) => spec_evict_bytes(counted.0, counted.1, limit as nat),
        None => counted,
    }
}

/// The most recent `limit` entries, oldest first.
pub open spec fn spec_recent(s: Seq<MemoryRecordModel>, limit: nat) -> Seq<MemoryRecordModel> {
    if limit >= s.len() {
        s
    } else {
        s.skip(s.len() - limit)
    }
}

/// Snapshot describing utilisation of the volatile buffer.
#[derive(Debug, Clone, Copy, PartialEq, Eq, Structural)]
pub struct VolatileStats {
    /// Entries currently stored in the buffer.
    pub entries: usize,
    /// Accumulated payload bytes currently retained (saturating).
    pub total_bytes: usize,
    /// Maximum number of entries permitted.
    pub capacity: usize,
    /// Optional total byte limit when configured.
    pub max_total_bytes: Option<usize>,
}

/// Volatile memory ring retaining the most recent records.
#[derive(Debug)]
pub struct VolatileMemory {
    config: VolatileConfig,
    entries: Vec<MemoryRecord>,
    total_bytes: usize,
}

impl VolatileMemory {
    /// The configuration the buffer was built with.
    pub closed spec fn spec_config(&self) -> VolatileConfig {
        self.config
    }

    /// The buffered records, oldest first.
    pub closed spec fn spec_entries(&self) -> Seq<MemoryRecordModel> {
        self.entries.deep_view()
    }

    /// The byte counter.
    pub closed spec fn spec_total_bytes(&self) -> nat {
        self.total_bytes as nat
    }

    /// The buffer invariant: the entry count respects the cap, and when a
    /// byte cap is set, the byte counter respects it unless a single entry
    /// remains.
    pub open spec fn wf(&self) -> bool {
        &&& self.spec_config().wf()
        &&& self.spec_entries().len() <= self.spec_config().spec_capacity()
        &&& match self.spec_config().spec_max_total_bytes() {
            Some(limit) => self.spec_total_bytes() <= limit || self.spec_entries().len() <= 1,
            None => true,
        }
    }

    /// Creates a new buffer using the supplied configuration.
    pub fn new(config: VolatileConfig) -> (r: VolatileMemory)
        requires
            config.wf(),
        ensures
            r.spec_config() == config,
            r.spec_entries() == Seq::<MemoryRecordModel>::empty(),
            r.spec_total_bytes() == 0,
            r.wf(),
    {
        let r = VolatileMemory { config, entries: Vec::new(), total_bytes: 0 };
        proof {
            assert(r.spec_entries() =~= Seq::<MemoryRecordModel>::empty());
        }
        r
    }

    /// Inserts a record, evicting the oldest entries if the caps are
    /// exceeded. The result is exactly what `spec_push` yields, and the
    /// caps hold afterwards.
    #[verifier::loop_isolation(false)]
    pub fn push(&mut self, record: MemoryRecord)
        requires
            old(self).wf(),
        ensures
            final(self).wf(),
            final(self).spec_config() == old(self).spec_config(),
            (final(self).spec_entries(), final(self).spec_total_bytes()) == spec_push(
                old(self).spec_entries(),
                old(self).spec_total_bytes(),
                old(self).spec_config(),
                record@,
            ),
    {
        let ghost r_model = record@;
        let payload_len = record.payload().len();
        proof {
            assert(record@.payload.len() == payload_len);
        }
        self.total_bytes = match self.total_bytes.checked_add(payload_len) {
            Some(v) => v,
            None => usize::MAX,
        };
        self.entries.push(record);
        let ghost appended = self.entries.deep_view();
        let ghost t1 = self.total_bytes as nat;
        proof {
            assert(appended =~= old(self).spec_entries().push(r_model));
            assert(t1 == sat_add(old(self).spec_total_bytes(), r_model.payload.len()));
        }

        let cap = self.config.capacity();
        while self.entries.len() > cap
            invariant
                self.spec_config() == old(self).spec_config(),
                cap == self.spec_config().spec_capacity(),
                spec_evict_count(appended, t1, cap as nat) == spec_evict_count(
                    self.entries.deep_view(),
                    self.total_bytes as nat,
                    cap as nat,
                ),
            decreases self.entries.len(),
        {
            let ghost before = self.entries.deep_view();
            let evicted = self.entries.remove(0);
            let evicted_len = evicted.payload().len();
            self.total_bytes =
            if self.total_bytes >= evicted_len {
                self.total_bytes - evicted_len
            } else {
                0
            };
            proof {
                assert(self.entries.deep_view() =~= before.drop_first());
            }
        }
        let ghost counted = (self.entries.deep_view(), self.total_bytes as nat);
        proof {
            assert(spec_evict_count(appended, t1, cap as nat) == counted);
        }

        match self.config.max_total_bytes() {
            Some(limit) => {
                while self.total_bytes > limit && self.entries.len() > 1
                    invariant
                        self.spec_config() == old(self).spec_config(),
                        spec_evict_bytes(counted.0, counted.1, limit as nat) == spec_evict_bytes(
                            self.entries.deep_view(),
                            self.total_bytes as nat,
                            limit as nat,
                        ),
                    decreases self.entries.len(),
                {
                    let ghost before = self.entries.deep_view();
                    let evicted = self.entries.remove(0);
                    let evicted_len = evicted.payload().len();
                    self.total_bytes =
                    if self.total_bytes >= evicted_len {
                        self.total_bytes - evicted_len
                    } else {
                        0
                    };
                    proof {
                        assert(self.entries.deep_view() =~= before.drop_first());
                    }
                }
            },
            None => {},
        }
        proof {
            lemma_push_respects_caps(
                old(self).spec_entries(),
                old(self).spec_total_bytes(),
                old(self).spec_config(),
                r_model,
            );
        }
    }

    /// Returns the most recent records up to the requested limit, oldest
    /// first.
    #[verifier::loop_isolation(false)]
    pub fn recent(&self, limit: usize) -> (r: Vec<MemoryRecord>)
        ensures
            r.deep_view() == spec_recent(self.spec_entries(), limit as nat),
    {
        let n = self.entries.len();
        let take = if limit <= n {
            limit
        } else {
            n
        };
        let start = n - take;
        let mut out: Vec<MemoryRecord> = Vec::new();
        let mut i: usize = start;
        while i < n
            invariant
                start <= i <= n,
                n == self.entries@.len(),
                out.deep_view() =~= self.spec_entries().subrange(start as int, i as int),
            decreases n - i,
        {
            out.push(self.entries[i].clone());
            proof {
                assert(out.deep_view() =~= self.spec_entries().subrange(
                    start as int,
                    i as int + 1,
                ));
            }
            i = i + 1;
        }
        proof {
            assert(self.spec_entries().subrange(start as int, n as int) =~= spec_recent(
                self.spec_entries(),
                limit as nat,
            ));
        }
        out
    }

    /// Returns statistics about the buffer utilisation.
    pub fn stats(&self) -> (r: VolatileStats)
        ensures
            r.entries == self.spec_entries().len(),
            r.total_bytes == self.spec_total_bytes(),
            r.capacity == self.spec_config().spec_capacity(),
            r.max_total_bytes == self.spec_config().spec_max_total_bytes(),
    {
        VolatileStats {
            entries: self.entries.len(),
            total_bytes: self.total_bytes,
            capacity: self.config.capacity(),
            max_total_bytes: self.config.max_total_bytes(),
        }
    }
}

/// Eviction for the entry cap lands at or below the cap and never loses
/// the newest entry.
proof fn lemma_evict_count_bounds(s: Seq<MemoryRecordModel>, t: nat, cap: nat)
    requires
        cap >= 1,
        s.len() >= 1,
    ensures
        spec_evict_count(s, t, cap).0.len() <= cap,
        spec_evict_count(s, t, cap).0.len() >= 1,
        spec_evict_count(s, t, cap).0.last() == s.last(),
    decreases s.len(),
{
    if s.len() <= cap {
    } else {
        lemma_evict_count_bounds(s.drop_first(), sat_sub(t, s[0].payload.len()), cap);
    }
}

/// Eviction for the byte cap ends under the limit or with one entry, and
/// never loses the newest entry.
proof fn lemma_evict_bytes_bounds(s: Seq<MemoryRecordModel>, t: nat, limit: nat)
    requires
        s.len() >= 1,
    ensures
        spec_evict_bytes(s, t, limit).1 <= limit || spec_evict_bytes(s, t, limit).0.len() <= 1,
        spec_evict_bytes(s, t, limit).0.len() >= 1,
        spec_evict_bytes(s, t, limit).0.len() <= s.len(),
        spec_evict_bytes(s, t, limit).0.last() == s.last(),
    decreases s.len(),
{
    if t <= limit || s.len() <= 1 {
    } else {
        lemma_evict_bytes_bounds(s.drop_first(), sat_sub(t, s[0].payload.len()), limit);
    }
}

/// Law: after every push the caps hold. The entry count stays at or below
/// the configured capacity, and when a byte cap is set, either the byte
/// counter is at or below it or exactly one entry remains.
pub proof fn lemma_push_respects_caps(
    s: Seq<MemoryRecordModel>,
    t: nat,
    config: VolatileConfig,
    r: MemoryRecordModel,
)
    requires
        config.wf(),
        s.len() <= config.spec_capacity(),
    ensures
        spec_push(s, t, config, r).0.len() <= config.spec_capacity(),
        spec_push(s, t, config, r).0.len() >= 1,
        match config.spec_max_total_bytes() {
            Some(limit) => spec_push(s, t, config, r).1 <= limit || spec_push(
                s,
                t,
                config,
                r,
            ).0.len() == 1,
            None => true,
        },
{
    let appended = s.push(r);
    let t1 = sat_add(t, r.payload.len());
    let cap = config.spec_capacity() as nat;
    lemma_evict_count_bounds(appended, t1, cap);
    let counted = spec_evict_count(appended, t1, cap);
    match config.spec_max_total_bytes() {
        Some(limit) => {
            lemma_evict_bytes_bounds(counted.0, counted.1, limit as nat);
        },
        None => {},
    }
}

/// Law: a pushed record is what `recent(1)` returns next. After a push,
/// the newest entry is exactly the pushed record, so the most recent one
/// entry is that record alone.
pub proof fn lemma_push_then_recent_one(
    s: Seq<MemoryRecordModel>,
    t: nat,
    config: VolatileConfig,
    r: MemoryRecordModel,
)
    requires
        config.wf(),
        s.len() <= config.spec_capacity(),
    ensures
        spec_recent(spec_push(s, t, config, r).0, 1) =~= seq![r],
{
    let appended = s.push(r);
    let t1 = sat_add(t, r.payload.len());
    let cap = config.spec_capacity() as nat;
    lemma_evict_count_bounds(appended, t1, cap);
    let counted = spec_evict_count(appended, t1, cap);
    let result = spec_push(s, t, config, r);
    match config.spec_max_total_bytes() {
        Some(limit) => {
            lemma_evict_bytes_bounds(counted.0, counted.1, limit as nat);
        },
        None => {},
    }
    assert(result.0.last() == r);
    assert(result.0.len() >= 1);
    assert(spec_recent(result.0, 1) =~= seq![r]);
}

} // verus!
