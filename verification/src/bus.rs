//! Coordinates volatile memory, journal persistence, and similarity
//! indexing.

use vstd::prelude::*;

use crate::embedding::EmbeddingVector;
use crate::journal::Journal;
use crate::memory_error::{MemoryError, MemoryResult};
use crate::meta::MetaMap;
use crate::record::{MemoryRecord, MemoryRecordModel};
use crate::vector_index::{
    LocalVectorStore, VectorMatch, VectorPoint, VectorPointModel, VectorQuery, ranked_from,
    sorted_desc, spec_candidates,
};
use crate::volatile::{spec_push, spec_recent, VolatileConfig, VolatileMemory, VolatileStats};

verus! {

/// Builder for [`MemoryBus`] instances.
pub struct MemoryBusBuilder<J: Journal> {
    volatile_config: VolatileConfig,
    journal: Option<J>,
    vector_store: Option<LocalVectorStore>,
}

impl<J: Journal> MemoryBusBuilder<J> {
    /// The volatile configuration the builder holds.
    pub closed spec fn spec_volatile_config(&self) -> VolatileConfig {
        self.volatile_config
    }

    /// Whether a journal was installed.
    pub closed spec fn spec_has_journal(&self) -> bool {
        self.journal is Some
    }

    /// Starts a new builder using the supplied volatile config.
    pub fn new(volatile_config: VolatileConfig) -> (r: MemoryBusBuilder<J>)
        requires
            volatile_config.wf(),
        ensures
            r.spec_volatile_config() == volatile_config,
            !r.spec_has_journal(),
    {
        MemoryBusBuilder { volatile_config, journal: None, vector_store: None }
    }

    /// Installs the journal implementation; required before `build`.
    pub fn with_journal(self, journal: J) -> (r: MemoryBusBuilder<J>)
        ensures
            r.spec_volatile_config() == self.spec_volatile_config(),
            r.spec_has_journal(),
    {
        let MemoryBusBuilder { volatile_config, journal: _, vector_store } = self;
        MemoryBusBuilder { volatile_config, journal: Some(journal), vector_store }
    }

    /// Installs an optional similarity index.
    pub fn with_vector_store(self, store: LocalVectorStore) -> (r: MemoryBusBuilder<J>)
        requires
            store.wf(),
        ensures
            r.spec_volatile_config() == self.spec_volatile_config(),
            r.spec_has_journal() == self.spec_has_journal(),
    {
        let MemoryBusBuilder { volatile_config, journal, vector_store: _ } = self;
        MemoryBusBuilder { volatile_config, journal, vector_store: Some(store) }
    }

    /// Builds the [`MemoryBus`]; fails exactly when no journal was
    /// provided.
    pub fn build(self) -> (r: MemoryResult<MemoryBus<J>>)
        requires
            self.spec_volatile_config().wf(),
            (match self.spec_vector_store_wf() {
                Some(b) => b,
                None => true,
            }),
        ensures
            r is Ok <==> self.spec_has_journal(),
            r matches Err(e) ==> e is MissingJournal,
            r matches Ok(bus) ==> bus.wf() && bus.spec_volatile_entries() == Seq::<
                MemoryRecordModel,
            >::empty(),
    {
        let MemoryBusBuilder { volatile_config, journal, vector_store } = self;
        let journal = match journal {
            Some(j) => j,
            None => {
                return Err(MemoryError::MissingJournal);
            },
        };
        Ok(MemoryBus { volatile: VolatileMemory::new(volatile_config), journal, vector_store })
    }

    /// Whether any installed index satisfies its invariant.
    pub closed spec fn spec_vector_store_wf(&self) -> Option<bool> {
        match self.vector_store {
            Some(s) => Some(s.wf()),
            None => None,
        }
    }
}

/// Central memory facade used by the runtime: records fan out to the
/// volatile ring, the journal, and (for records carrying an embedding)
/// the similarity index.
pub struct MemoryBus<J: Journal> {
    volatile: VolatileMemory,
    journal: J,
    vector_store: Option<LocalVectorStore>,
}

impl<J: Journal> MemoryBus<J> {
    /// The volatile ring's entries.
    pub closed spec fn spec_volatile_entries(&self) -> Seq<MemoryRecordModel> {
        self.volatile.spec_entries()
    }

    /// The volatile byte counter.
    pub closed spec fn spec_volatile_total(&self) -> nat {
        self.volatile.spec_total_bytes()
    }

    /// The volatile configuration.
    pub closed spec fn spec_volatile_config(&self) -> VolatileConfig {
        self.volatile.spec_config()
    }

    /// The journal's entries.
    pub closed spec fn spec_journal_entries(&self) -> Seq<MemoryRecordModel> {
        self.journal.entries()
    }

    /// The index's points, if an index is configured.
    pub closed spec fn spec_index_points(&self) -> Option<Seq<VectorPointModel>> {
        match self.vector_store {
            Some(s) => Some(s.spec_points()),
            None => None,
        }
    }

    /// The bus invariant: the ring respects its caps and the index keys
    /// are unique.
    pub open spec fn wf(&self) -> bool {
        &&& self.spec_volatile_wf()
        &&& self.spec_index_wf()
    }

    /// The volatile ring's own invariant.
    pub closed spec fn spec_volatile_wf(&self) -> bool {
        self.volatile.wf()
    }

    /// The index's own invariant, where one is configured.
    pub closed spec fn spec_index_wf(&self) -> bool {
        match self.vector_store {
            Some(s) => s.wf(),
            None => true,
        }
    }

    /// Creates a builder for a memory bus.
    pub fn builder(config: VolatileConfig) -> (r: MemoryBusBuilder<J>)
        requires
            config.wf(),
        ensures
            r.spec_volatile_config() == config,
            !r.spec_has_journal(),
    {
        MemoryBusBuilder::new(config)
    }

    /// Returns the underlying volatile store.
    pub fn volatile(&self) -> (r: &VolatileMemory)
        ensures
            r.spec_entries() == self.spec_volatile_entries(),
    {
        &self.volatile
    }

    /// Returns the configured journal.
    pub fn journal(&self) -> (r: &J)
        ensures
            r.entries() == self.spec_journal_entries(),
    {
        &self.journal
    }

    /// Returns the configured similarity index, if present.
    pub fn vector_store(&self) -> (r: Option<&LocalVectorStore>)
        ensures
            match r {
                Some(s) => self.spec_index_points() == Some(s.spec_points()),
                None => self.spec_index_points() is None,
            },
    {
        match &self.vector_store {
            Some(s) => Some(s),
            None => None,
        }
    }

    /// Persists a record across all configured stores: it is pushed into
    /// the volatile ring, appended to the journal (a journal failure
    /// propagates, with the ring already updated), and, when it carries an
    /// embedding and an index is configured, upserted there under its
    /// identifier.
    pub fn record(&mut self, record: MemoryRecord) -> (r: MemoryResult<()>)
        requires
            old(self).wf(),
        ensures
            final(self).wf(),
            final(self).spec_volatile_config() == old(self).spec_volatile_config(),
            (final(self).spec_volatile_entries(), final(self).spec_volatile_total()) == spec_push(
                old(self).spec_volatile_entries(),
                old(self).spec_volatile_total(),
                old(self).spec_volatile_config(),
                record@,
            ),
            r is Ok <==> final(self).spec_journal_entries() == old(self).spec_journal_entries().push(record@),
            r is Err ==> final(self).spec_journal_entries() == old(self).spec_journal_entries(),
            (r is Ok && record@.embedding is Some && old(self).spec_index_points() is Some) ==> (
            final(self).spec_index_points() is Some
                && final(self).spec_index_points().unwrap().contains(spec_index_entry(record@))
                && (forall|p: VectorPointModel|
                p.id != record@.id ==> (#[trigger] final(self).spec_index_points().unwrap().contains(
                    p,
                ) <==> old(self).spec_index_points().unwrap().contains(p)))),
            (record@.embedding is None || old(self).spec_index_points() is None) ==> final(self).spec_index_points() == old(self).spec_index_points(),
            r is Err ==> final(self).spec_index_points() == old(self).spec_index_points(),
    {
        let copy = record.clone();
        self.volatile.push(copy);

        match self.journal.append(&record) {
            Ok(()) => {},
            Err(e) => {
                proof {
                    assert(self.spec_journal_entries().len() != old(self).spec_journal_entries().push(record@).len());
                }
                return Err(e);
            },
        }

        let has_embedding = match record.embedding() {
            Some(_) => true,
            None => false,
        };
        if has_embedding {
            match &mut self.vector_store {
                Some(store) => {
                    let embedding = match record.embedding() {
                        Some(e) => e.clone(),
                        None => {
                            // Unreachable: the embedding was just seen.
                            proof {
                                assert(false);
                            }
                            return Err(MemoryError::vector_store("missing embedding"));
                        },
                    };
                    let point = build_index_entry(&record, embedding);
                    store.upsert(point);
                },
                None => {},
            }
        }
        Ok(())
    }

    /// Returns recent records from volatile memory, oldest first.
    pub fn recent(&self, limit: usize) -> (r: Vec<MemoryRecord>)
        ensures
            r.deep_view() == spec_recent(self.spec_volatile_entries(), limit as nat),
    {
        self.volatile.recent(limit)
    }

    /// Reads the tail of the journal.
    pub fn journal_tail(&self, limit: usize) -> (r: MemoryResult<Vec<MemoryRecord>>)
        ensures
            r matches Ok(v) ==> v.deep_view() == spec_recent(
                self.spec_journal_entries(),
                limit as nat,
            ),
    {
        self.journal.tail(limit)
    }

    /// Returns the stored points of the configured index that answer the
    /// query, in store order; fails exactly when no index is configured.
    pub fn candidates(&self, query: &VectorQuery) -> (r: MemoryResult<Vec<VectorPoint>>)
        ensures
            r is Ok <==> self.spec_index_points() is Some,
            r matches Ok(v) ==> v.deep_view() == spec_candidates(
                self.spec_index_points().unwrap(),
                query@,
            ),
            r matches Err(e) ==> e is MissingVectorStore,
    {
        match &self.vector_store {
            Some(store) => Ok(store.candidates(query)),
            None => Err(MemoryError::MissingVectorStore),
        }
    }

    /// Answers a similarity query given one score per candidate, ranked by
    /// non-increasing score and cut to the query's requested count; fails
    /// exactly when no index is configured.
    pub fn recall(&self, query: &VectorQuery, scores: &Vec<u32>) -> (r: MemoryResult<
        Vec<VectorMatch>,
    >)
        requires
            self.wf(),
            query.wf(),
            self.spec_index_points() matches Some(points) ==> scores@.len() == spec_candidates(
                points,
                query@,
            ).len(),
        ensures
            r is Ok <==> self.spec_index_points() is Some,
            r matches Err(e) ==> e is MissingVectorStore,
            r matches Ok(v) ==> {
                &&& sorted_desc(v.deep_view())
                &&& ranked_from(
                    v.deep_view(),
                    spec_candidates(self.spec_index_points().unwrap(), query@),
                    scores@,
                )
                &&& forall|i: int, j: int|
                    0 <= i < j < v.deep_view().len() ==> #[trigger] v.deep_view()[i]
                        != #[trigger] v.deep_view()[j]
            },
    {
        match &self.vector_store {
            Some(store) => Ok(store.query_ranked(query, scores)),
            None => Err(MemoryError::MissingVectorStore),
        }
    }

    /// Returns utilisation statistics for the volatile store.
    pub fn stats(&self) -> (r: VolatileStats)
        ensures
            r.entries == self.spec_volatile_entries().len(),
            r.total_bytes == self.spec_volatile_total(),
    {
        self.volatile.stats()
    }
}

/// The index entry a record with an embedding produces: its identifier,
/// embedding and tags, with the metadata null when the record's is empty.
pub open spec fn spec_index_entry(r: MemoryRecordModel) -> VectorPointModel {
    VectorPointModel {
        id: r.id,
        embedding: r.embedding.unwrap(),
        metadata: if r.metadata.len() == 0 {
            None
        } else {
            Some(r.metadata)
        },
        tags: r.tags,
    }
}

/// Builds the index entry for a record carrying an embedding.
fn build_index_entry(record: &MemoryRecord, embedding: EmbeddingVector) -> (r: VectorPoint)
    requires
        record@.embedding == Some(embedding@),
    ensures
        r@ == spec_index_entry(record@),
{
    let point = VectorPoint::new(record.id(), embedding);
    let point = if record.metadata().is_empty() {
        point
    } else {
        let metadata: MetaMap = record.metadata().clone();
        point.with_metadata(metadata)
    };
    let tags = record.tags().clone();
    proof {
        assert(tags.deep_view() =~= record@.tags);
    }
    point.with_tags(tags)
}

} // verus!
