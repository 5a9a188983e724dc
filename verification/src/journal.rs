//! Durable episodic journal: the interface the memory bus appends to, the
//! meaning of a tail read, and the newline framing a file-backed journal
//! uses for its records.
//!
//! A journal implementation supplies the storage; its contract says what
//! `append`, `tail` and `clear` mean over the entry sequence. The records
//! of a file-backed journal are serialised one per line; the framing
//! functions here split and join those lines.

use vstd::prelude::*;

use crate::memory_error::MemoryResult;
use crate::record::{MemoryRecord, MemoryRecordModel};
use crate::volatile::spec_recent;

verus! {

/// Trait implemented by durable journals.
///
/// An implementation is trusted to meet these contracts; the library's
/// own reasoning rests on them.
pub trait Journal: Sized {
    /// The entries the journal holds, oldest first.
    spec fn entries(&self) -> Seq<MemoryRecordModel>;

    /// Appends a record; on success the record stands at the end of the
    /// entries, and a failure leaves the entries as they were.
    fn append(&mut self, record: &MemoryRecord) -> (r: MemoryResult<()>)
        ensures
            r is Ok ==> final(self).entries() == old(self).entries().push(record@),
            r is Err ==> final(self).entries() == old(self).entries(),
    ;

    /// Returns the most recent `limit` records, oldest first.
    fn tail(&self, limit: usize) -> (r: MemoryResult<Vec<MemoryRecord>>)
        ensures
            r matches Ok(v) ==> v.deep_view() == spec_recent(self.entries(), limit as nat),
    ;

    /// Clears the journal contents.
    fn clear(&mut self) -> (r: MemoryResult<()>)
        ensures
            r is Ok ==> final(self).entries() == Seq::<MemoryRecordModel>::empty(),
    ;
}

/// An in-memory journal: the verified reference implementation of the
/// [`Journal`] contract. A host that wants durability layers file
/// persistence around it, using the framing functions below for the
/// on-disk lines.
#[derive(Debug)]
pub struct VecJournal {
    records: Vec<MemoryRecord>,
}

impl VecJournal {
    /// Creates an empty journal.
    pub fn new() -> (r: VecJournal)
        ensures
            r.entries() == Seq::<MemoryRecordModel>::empty(),
    {
        let r = VecJournal { records: Vec::new() };
        proof {
            assert(r.entries() =~= Seq::<MemoryRecordModel>::empty());
        }
        r
    }
}

impl Journal for VecJournal {
    closed spec fn entries(&self) -> Seq<MemoryRecordModel> {
        self.records.deep_view()
    }

    fn append(&mut self, record: &MemoryRecord) -> (r: MemoryResult<()>)
        ensures
            r is Ok,
    {
        let ghost before = self.records.deep_view();
        self.records.push(record.clone());
        proof {
            assert(self.records.deep_view() =~= before.push(record@));
        }
        Ok(())
    }

    #[verifier::loop_isolation(false)]
    fn tail(&self, limit: usize) -> (r: MemoryResult<Vec<MemoryRecord>>)
        ensures
            r is Ok,
    {
        let n = self.records.len();
        let take = if limit <= n {
            limit
        } else {
            n
        };
        let start = n - take;
        let mut out: Vec<MemoryRecord> = Vec::new();
        let mut i: usize = start;
        while i < n
            invariant
                start <= i <= n,
                out.deep_view() =~= self.entries().subrange(start as int, i as int),
            decreases n - i,
        {
            let ghost prev = out.deep_view();
            let c = self.records[i].clone();
            proof {
                assert(c@ == self.entries()[i as int]);
            }
            out.push(c);
            proof {
                assert(out.deep_view() =~= prev.push(c@));
                assert(out.deep_view() =~= self.entries().subrange(start as int, i as int + 1));
            }
            i = i + 1;
        }
        proof {
            assert(self.entries().subrange(start as int, n as int) =~= spec_recent(
                self.entries(),
                limit as nat,
            ));
        }
        Ok(out)
    }

    fn clear(&mut self) -> (r: MemoryResult<()>)
        ensures
            r is Ok,
    {
        self.records = Vec::new();
        proof {
            assert(self.entries() =~= Seq::<MemoryRecordModel>::empty());
        }
        Ok(())
    }
}

/// How many entries carry the given identifier.
pub open spec fn spec_count_id(s: Seq<MemoryRecordModel>, id: u128) -> nat
    decreases s.len(),
{
    if s.len() == 0 {
        0
    } else {
        spec_count_id(s.drop_last(), id) + if s.last().id == id {
            1nat
        } else {
            0nat
        }
    }
}

/// Law: an appended record is what a tail of one yields next. After an
/// append, the newest entry is exactly the appended record.
pub proof fn lemma_append_then_tail_one(s: Seq<MemoryRecordModel>, r: MemoryRecordModel)
    ensures
        spec_recent(s.push(r), 1) =~= seq![r],
{
}

/// Law: a full tail after an append returns every entry in append order,
/// ending with the appended record; when the appended record's identifier
/// is fresh, the tail contains it exactly once.
pub proof fn lemma_append_then_tail_all(s: Seq<MemoryRecordModel>, r: MemoryRecordModel, n: nat)
    requires
        n >= s.len() + 1,
    ensures
        spec_recent(s.push(r), n) == s.push(r),
        spec_recent(s.push(r), n).last() == r,
        (forall|i: int| 0 <= i < s.len() ==> (#[trigger] s[i]).id != r.id) ==> spec_count_id(
            s.push(r),
            r.id,
        ) == 1,
    decreases s.len(),
{
    assert(s.push(r).last() == r);
    if forall|i: int| 0 <= i < s.len() ==> (#[trigger] s[i]).id != r.id {
        lemma_count_id_absent(s, r.id);
        assert(s.push(r).drop_last() =~= s);
    }
}

/// A sequence without an identifier counts zero occurrences of it.
proof fn lemma_count_id_absent(s: Seq<MemoryRecordModel>, id: u128)
    requires
        forall|i: int| 0 <= i < s.len() ==> (#[trigger] s[i]).id != id,
    ensures
        spec_count_id(s, id) == 0,
    decreases s.len(),
{
    if s.len() > 0 {
        lemma_count_id_absent(s.drop_last(), id);
    }
}

/// The newline-separated frames of a byte stream from position `i` on,
/// with the current frame starting at `start`: frames are split on the
/// newline byte and empty segments are skipped.
pub open spec fn spec_frames_from(data: Seq<u8>, i: int, start: int) -> Seq<Seq<u8>>
    decreases data.len() - i,
{
    if i < 0 || start < 0 || start > i {
        Seq::empty()
    } else if i >= data.len() {
        if start < data.len() && i > start {
            seq![data.subrange(start, data.len() as int)]
        } else {
            Seq::empty()
        }
    } else if data[i] == 10 {
        let rest = spec_frames_from(data, i + 1, i + 1);
        if i > start {
            seq![data.subrange(start, i)] + rest
        } else {
            rest
        }
    } else {
        spec_frames_from(data, i + 1, start)
    }
}

/// The newline-separated frames of a byte stream, empty segments skipped.
pub open spec fn spec_frames(data: Seq<u8>) -> Seq<Seq<u8>> {
    spec_frames_from(data, 0, 0)
}

/// Splits a byte stream into its newline-separated frames, skipping empty
/// segments; this is the read half of the journal's line framing.
#[verifier::loop_isolation(false)]
pub fn split_frames(data: &[u8]) -> (r: Vec<Vec<u8>>)
    ensures
        r.deep_view() == spec_frames(data@),
{
    let n = data.len();
    let mut out: Vec<Vec<u8>> = Vec::new();
    let mut start: usize = 0;
    let mut i: usize = 0;
    while i < n
        invariant
            0 <= start <= i <= n,
            out.deep_view() + spec_frames_from(data@, i as int, start as int) =~~= spec_frames(
                data@,
            ),
        decreases n - i,
    {
        if data[i] == 10 {
            if i > start {
                let ghost before = out.deep_view();
                let frame = vstd::slice::slice_subrange(data, start, i);
                let owned = vstd::slice::slice_to_vec(frame);
                out.push(owned);
                proof {
                    assert(out.deep_view() =~~= before.push(data@.subrange(
                        start as int,
                        i as int,
                    )));
                    assert(before.push(data@.subrange(start as int, i as int))
                        + spec_frames_from(data@, i as int + 1, i as int + 1) =~~= before + (seq![
                        data@.subrange(start as int, i as int),
                    ] + spec_frames_from(data@, i as int + 1, i as int + 1)));
                }
            }
            start = i + 1;
        }
        i = i + 1;
    }
    if start < n {
        let ghost before = out.deep_view();
        let frame = vstd::slice::slice_subrange(data, start, n);
        let owned = vstd::slice::slice_to_vec(frame);
        out.push(owned);
        proof {
            assert(out.deep_view() =~~= before.push(data@.subrange(start as int, n as int)));
        }
    }
    proof {
        assert(out.deep_view() =~~= spec_frames(data@));
    }
    out
}

/// The byte stream that frames each line in order, a newline after each.
pub open spec fn spec_join_frames(lines: Seq<Seq<u8>>) -> Seq<u8>
    decreases lines.len(),
{
    if lines.len() == 0 {
        Seq::empty()
    } else {
        lines[0] + seq![10u8] + spec_join_frames(lines.drop_first())
    }
}

/// Scanning moves freely across newline-free bytes.
proof fn lemma_frames_scan(data: Seq<u8>, i: int, start: int, end: int)
    requires
        0 <= start <= i <= end <= data.len(),
        forall|j: int| i <= j < end ==> data[j] != 10,
    ensures
        spec_frames_from(data, i, start) == spec_frames_from(data, end, start),
    decreases end - i,
{
    if i < end {
        lemma_frames_scan(data, i + 1, start, end);
    }
}

/// Scanning a suffix is independent of the bytes before it.
proof fn lemma_frames_shift(pre: Seq<u8>, suffix: Seq<u8>, i: int, start: int)
    requires
        0 <= start <= i <= suffix.len(),
    ensures
        spec_frames_from(pre + suffix, pre.len() + i, pre.len() + start) =~~= spec_frames_from(
            suffix,
            i,
            start,
        ),
    decreases suffix.len() - i,
{
    let data = pre + suffix;
    let off = pre.len() as int;
    if i >= suffix.len() {
        if start < suffix.len() && i > start {
            assert(data.subrange(off + start, data.len() as int) =~= suffix.subrange(
                start,
                suffix.len() as int,
            ));
        }
    } else if suffix[i] == 10 {
        lemma_frames_shift(pre, suffix, i + 1, i + 1);
        if i > start {
            assert(data.subrange(off + start, off + i) =~= suffix.subrange(start, i));
        }
    } else {
        lemma_frames_shift(pre, suffix, i + 1, start);
    }
}

/// Law: splitting a framed stream recovers the lines. For lines that are
/// non-empty and hold no newline byte, framing each line and splitting
/// the result yields exactly the original lines, in order.
pub proof fn lemma_frames_round_trip(lines: Seq<Seq<u8>>)
    requires
        forall|k: int|
            0 <= k < lines.len() ==> (#[trigger] lines[k]).len() >= 1 && (forall|j: int|
                0 <= j < lines[k].len() ==> lines[k][j] != 10),
    ensures
        spec_frames(spec_join_frames(lines)) =~~= lines,
    decreases lines.len(),
{
    if lines.len() == 0 {
    } else {
        let l0 = lines[0];
        let rest = lines.drop_first();
        let data = spec_join_frames(lines);
        let n = l0.len() as int;
        assert(data =~= l0 + seq![10u8] + spec_join_frames(rest));
        assert forall|j: int| 0 <= j < n implies data[j] != 10 by {
            assert(data[j] == l0[j]);
        }
        lemma_frames_scan(data, 0, 0, n);
        assert(data[n] == 10);
        assert(data.subrange(0, n) =~= l0);
        let pre = l0 + seq![10u8];
        let suffix = spec_join_frames(rest);
        assert(data =~= pre + suffix);
        lemma_frames_shift(pre, suffix, 0, 0);
        assert(spec_frames_from(data, n + 1, n + 1) =~~= spec_frames(suffix));
        lemma_frames_round_trip(rest);
        assert(spec_frames(data) =~~= seq![l0] + rest);
        assert(seq![l0] + rest =~= lines);
    }
}

/// Appends a frame and its newline terminator to a byte stream; this is
/// the write half of the journal's line framing.
pub fn frame_line(out: &mut Vec<u8>, line: &[u8])
    ensures
        final(out)@ == old(out)@ + line@ + seq![10u8],
{
    let ghost prior = out@;
    let mut i: usize = 0;
    let n = line.len();
    while i < n
        invariant
            0 <= i <= n,
            n == line@.len(),
            out@ =~= prior + line@.take(i as int),
        decreases n - i,
    {
        out.push(line[i]);
        proof {
            assert(out@ =~= prior + line@.take(i as int + 1));
        }
        i = i + 1;
    }
    out.push(10);
    proof {
        assert(line@.take(n as int) =~= line@);
        assert(out@ =~= prior + line@ + seq![10u8]);
    }
}

} // verus!
