//! Shared record types for the memory subsystem.

use vstd::prelude::*;

use crate::clock::now_unix_millis;
use crate::embedding::EmbeddingVector;
use crate::ids::fresh_v4_bits;
use crate::memory_error::{MemoryError, MemoryResult};
use crate::meta::{MetaMap, MetaValue, MetaValueModel};
use crate::text::{is_blank, spec_blank};

verus! {

/// Mathematical model of a memory channel.
pub ghost enum ChannelModel {
    /// Messages originating from outside the agent.
    Input,
    /// Messages produced by the agent.
    Output,
    /// Tool invocation results or intermediate tool state.
    Tool,
    /// Internal agent or runtime events.
    System,
    /// Custom channel with its label.
    Custom(Seq<char>),
}

/// Channel categorising a memory entry.
#[derive(Debug)]
pub enum MemoryChannel {
    /// Messages originating from outside the agent (for example call
    /// payloads arriving over the mesh).
    Input,
    /// Messages produced by the agent (responses to mesh calls).
    Output,
    /// Tool invocation results or intermediate tool state.
    Tool,
    /// Internal agent or runtime events (checkpoints, policy results).
    System,
    /// Custom channel tagged by implementers for domain-specific routing.
    Custom(String),
}

impl View for MemoryChannel {
    type V = ChannelModel;

    open spec fn view(&self) -> ChannelModel {
        match self {
            MemoryChannel::Input => ChannelModel::Input,
            MemoryChannel::Output => ChannelModel::Output,
            MemoryChannel::Tool => ChannelModel::Tool,
            MemoryChannel::System => ChannelModel::System,
            MemoryChannel::Custom(label) => ChannelModel::Custom(label@),
        }
    }
}

impl Clone for MemoryChannel {
    fn clone(&self) -> (res: Self)
        ensures
            res@ == self@,
    {
        match self {
            MemoryChannel::Input => MemoryChannel::Input,
            MemoryChannel::Output => MemoryChannel::Output,
            MemoryChannel::Tool => MemoryChannel::Tool,
            MemoryChannel::System => MemoryChannel::System,
            MemoryChannel::Custom(label) => MemoryChannel::Custom(label.clone()),
        }
    }
}

impl MemoryChannel {
    /// Creates a custom channel after validating the provided label.
    ///
    /// Succeeds exactly when the label is not blank.
    pub fn custom(label: &str) -> (r: MemoryResult<MemoryChannel>)
        ensures
            r is Ok <==> !spec_blank(label@),
            r matches Ok(c) ==> c@ == ChannelModel::Custom(label@),
            r matches Err(e) ==> e is InvalidRecord,
    {
        if is_blank(label) {
            return Err(MemoryError::InvalidRecord(
                "custom memory channel label must not be empty".to_owned(),
            ));
        }
        Ok(MemoryChannel::Custom(label.to_owned()))
    }
}

/// Mathematical model of a memory record.
pub ghost struct MemoryRecordModel {
    /// The 128-bit record identifier.
    pub id: u128,
    /// Milliseconds since the Unix epoch.
    pub timestamp_millis: i64,
    /// The channel the record belongs to.
    pub channel: ChannelModel,
    /// The payload bytes.
    pub payload: Seq<u8>,
    /// The tag labels.
    pub tags: Seq<Seq<char>>,
    /// The metadata entries.
    pub metadata: Seq<(Seq<char>, MetaValueModel)>,
    /// The optional embedding components.
    pub embedding: Option<Seq<u32>>,
}

/// A record is well formed when every tag is non-blank, a custom channel
/// label is non-blank, and any embedding is valid.
pub open spec fn spec_record_wf(m: MemoryRecordModel) -> bool {
    &&& forall|i: int| 0 <= i < m.tags.len() ==> !spec_blank(#[trigger] m.tags[i])
    &&& match m.channel {
        ChannelModel::Custom(label) => !spec_blank(label),
        _ => true,
    }
    &&& match m.embedding {
        Some(e) => crate::embedding::spec_valid_embedding(e),
        None => true,
    }
}

/// Describes a single captured piece of memory.
#[derive(Debug)]
pub struct MemoryRecord {
    id: u128,
    timestamp_millis: i64,
    channel: MemoryChannel,
    payload: Vec<u8>,
    tags: Vec<String>,
    metadata: MetaMap,
    embedding: Option<EmbeddingVector>,
}

impl View for MemoryRecord {
    type V = MemoryRecordModel;

    closed spec fn view(&self) -> MemoryRecordModel {
        MemoryRecordModel {
            id: self.id,
            timestamp_millis: self.timestamp_millis,
            channel: self.channel@,
            payload: self.payload@,
            tags: self.tags.deep_view(),
            metadata: self.metadata@,
            embedding: match self.embedding {
                Some(e) => Some(e@),
                None => None,
            },
        }
    }
}

impl DeepView for MemoryRecord {
    type V = MemoryRecordModel;

    open spec fn deep_view(&self) -> MemoryRecordModel {
        self.view()
    }
}

impl Clone for MemoryRecord {
    fn clone(&self) -> (res: Self)
        ensures
            res@ == self@,
    {
        let payload = self.payload.clone();
        let tags = self.tags.clone();
        proof {
            assert(payload@ =~= self.payload@);
            assert(tags.deep_view() =~= self.tags.deep_view());
        }
        MemoryRecord {
            id: self.id,
            timestamp_millis: self.timestamp_millis,
            channel: self.channel.clone(),
            payload,
            tags,
            metadata: self.metadata.clone(),
            embedding: match &self.embedding {
                Some(e) => Some(e.clone()),
                None => None,
            },
        }
    }
}

impl MemoryRecord {
    /// Creates a builder for a new memory record on the given channel with
    /// the given payload; a fresh random identifier and the current time
    /// are filled in.
    pub fn builder(channel: MemoryChannel, payload: Vec<u8>) -> (r: MemoryRecordBuilder)
        ensures
            r@.channel == channel@,
            r@.payload == payload@,
            r@.tags == Seq::<Seq<char>>::empty(),
            r@.metadata == Seq::<(Seq<char>, MetaValueModel)>::empty(),
            r@.embedding is None,
    {
        let r = MemoryRecordBuilder {
            id: fresh_v4_bits(),
            timestamp_millis: now_unix_millis(),
            channel,
            payload,
            tags: Vec::new(),
            metadata: MetaMap::new(),
            embedding: None,
        };
        proof {
            assert(r@.tags =~= Seq::<Seq<char>>::empty());
        }
        r
    }

    /// Returns the unique identifier for this record.
    pub fn id(&self) -> (r: u128)
        ensures
            r == self@.id,
    {
        self.id
    }

    /// Returns the timestamp associated with the record, in milliseconds
    /// since the Unix epoch.
    pub fn timestamp_millis(&self) -> (r: i64)
        ensures
            r == self@.timestamp_millis,
    {
        self.timestamp_millis
    }

    /// Returns the channel.
    pub fn channel(&self) -> (r: &MemoryChannel)
        ensures
            r@ == self@.channel,
    {
        &self.channel
    }

    /// Returns the payload bytes.
    pub fn payload(&self) -> (r: &Vec<u8>)
        ensures
            r@ == self@.payload,
    {
        &self.payload
    }

    /// Returns associated tags.
    pub fn tags(&self) -> (r: &Vec<String>)
        ensures
            r.deep_view() == self@.tags,
    {
        &self.tags
    }

    /// Returns the metadata map.
    pub fn metadata(&self) -> (r: &MetaMap)
        ensures
            r@ == self@.metadata,
    {
        &self.metadata
    }

    /// Returns the optional embedding associated with the record.
    pub fn embedding(&self) -> (r: Option<&EmbeddingVector>)
        ensures
            match r {
                Some(e) => self@.embedding == Some(e@),
                None => self@.embedding is None,
            },
    {
        match &self.embedding {
            Some(e) => Some(e),
            None => None,
        }
    }
}

/// Builder type used to assemble [`MemoryRecord`] instances safely.
#[derive(Debug)]
pub struct MemoryRecordBuilder {
    id: u128,
    timestamp_millis: i64,
    channel: MemoryChannel,
    payload: Vec<u8>,
    tags: Vec<String>,
    metadata: MetaMap,
    embedding: Option<EmbeddingVector>,
}

impl View for MemoryRecordBuilder {
    type V = MemoryRecordModel;

    closed spec fn view(&self) -> MemoryRecordModel {
        MemoryRecordModel {
            id: self.id,
            timestamp_millis: self.timestamp_millis,
            channel: self.channel@,
            payload: self.payload@,
            tags: self.tags.deep_view(),
            metadata: self.metadata@,
            embedding: match self.embedding {
                Some(e) => Some(e@),
                None => None,
            },
        }
    }
}

impl MemoryRecordBuilder {
    /// Overrides the record identifier.
    pub fn id(self, id: u128) -> (r: MemoryRecordBuilder)
        ensures
            r@ == (MemoryRecordModel { id, ..self@ }),
    {
        let MemoryRecordBuilder { id: _, timestamp_millis, channel, payload, tags, metadata, embedding } =
            self;
        MemoryRecordBuilder { id, timestamp_millis, channel, payload, tags, metadata, embedding }
    }

    /// Sets the timestamp for the record, in milliseconds since the Unix
    /// epoch.
    pub fn timestamp_millis(self, timestamp_millis: i64) -> (r: MemoryRecordBuilder)
        ensures
            r@ == (MemoryRecordModel { timestamp_millis, ..self@ }),
    {
        let MemoryRecordBuilder { id, timestamp_millis: _, channel, payload, tags, metadata, embedding } =
            self;
        MemoryRecordBuilder { id, timestamp_millis, channel, payload, tags, metadata, embedding }
    }

    /// Adds a single tag after validating that it is not blank.
    ///
    /// Succeeds exactly when the tag is not blank; the tag is then
    /// appended.
    pub fn tag(self, tag: &str) -> (r: MemoryResult<MemoryRecordBuilder>)
        ensures
            r is Ok <==> !spec_blank(tag@),
            r matches Ok(b) ==> b@ == (MemoryRecordModel { tags: self@.tags.push(tag@), ..self@ }),
            r matches Err(e) ==> e is InvalidRecord,
    {
        if is_blank(tag) {
            return Err(MemoryError::InvalidRecord("memory tags must not be empty".to_owned()));
        }
        let MemoryRecordBuilder { id, timestamp_millis, channel, payload, mut tags, metadata, embedding } =
            self;
        tags.push(tag.to_owned());
        let b = MemoryRecordBuilder { id, timestamp_millis, channel, payload, tags, metadata, embedding };
        proof {
            assert(b@.tags =~= self@.tags.push(tag@));
        }
        Ok(b)
    }

    /// Extends the record with multiple tags.
    ///
    /// Succeeds exactly when every supplied tag is non-blank; the tags up
    /// to the first blank one are appended in order.
    pub fn tags(self, tags: &Vec<String>) -> (r: MemoryResult<MemoryRecordBuilder>)
        ensures
            r is Ok <==> (forall|i: int| 0 <= i < tags@.len() ==> !spec_blank(tags.deep_view()[i])),
            r matches Ok(b) ==> b@ == (MemoryRecordModel {
                tags: self@.tags + tags.deep_view(),
                ..self@
            }),
            r matches Err(e) ==> e is InvalidRecord,
    {
        let mut b = self;
        let ghost start = b@;
        let n = tags.len();
        let mut i: usize = 0;
        while i < n
            invariant
                0 <= i <= n,
                n == tags@.len(),
                b@ == (MemoryRecordModel {
                    tags: start.tags + tags.deep_view().take(i as int),
                    ..start
                }),
                forall|j: int| 0 <= j < i ==> !spec_blank(tags.deep_view()[j]),
            decreases n - i,
        {
            proof {
                assert(tags.deep_view()[i as int] == tags@[i as int]@);
            }
            match b.tag(tags[i].as_str()) {
                Ok(next) => {
                    b = next;
                },
                Err(e) => {
                    return Err(e);
                },
            }
            i = i + 1;
            proof {
                assert((start.tags + tags.deep_view().take(i as int - 1)).push(
                    tags.deep_view()[i as int - 1],
                ) =~= start.tags + tags.deep_view().take(i as int));
            }
        }
        proof {
            assert(tags.deep_view().take(n as int) =~= tags.deep_view());
        }
        Ok(b)
    }

    /// Adds a metadata entry.
    pub fn metadata(self, key: &str, value: MetaValue) -> (r: MemoryRecordBuilder)
        ensures
            r@ == (MemoryRecordModel { metadata: self@.metadata.push((key@, value@)), ..self@ }),
    {
        let MemoryRecordBuilder { id, timestamp_millis, channel, payload, tags, mut metadata, embedding } =
            self;
        metadata.insert(key, value);
        MemoryRecordBuilder { id, timestamp_millis, channel, payload, tags, metadata, embedding }
    }

    /// Attaches an embedding to the record.
    pub fn embedding(self, embedding: EmbeddingVector) -> (r: MemoryRecordBuilder)
        ensures
            r@ == (MemoryRecordModel { embedding: Some(embedding@), ..self@ }),
    {
        let MemoryRecordBuilder { id, timestamp_millis, channel, payload, tags, metadata, embedding: _ } =
            self;
        MemoryRecordBuilder {
            id,
            timestamp_millis,
            channel,
            payload,
            tags,
            metadata,
            embedding: Some(embedding),
        }
    }

    /// Finalises the builder and produces the record, carrying every field
    /// over unchanged.
    pub fn build(self) -> (r: MemoryResult<MemoryRecord>)
        ensures
            r matches Ok(rec) && rec@ == self@,
    {
        let MemoryRecordBuilder { id, timestamp_millis, channel, payload, tags, metadata, embedding } =
            self;
        Ok(MemoryRecord { id, timestamp_millis, channel, payload, tags, metadata, embedding })
    }
}

} // verus!
