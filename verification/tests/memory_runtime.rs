//! Tests for the memory subsystem: records, the volatile ring, journal
//! framing, the similarity index and the memory bus.

use mxp_agents::{
    EmbeddingVector, Journal, LocalVectorStore, MemoryBus, MemoryChannel, MemoryError,
    MemoryRecord, MetaValue, TopK, VecJournal, VectorPoint, VectorQuery, VolatileConfig,
    VolatileMemory, frame_line, split_frames,
};

fn f32_bits(values: &[f32]) -> Vec<u32> {
    values.iter().map(|v| v.to_bits()).collect()
}

/// Cosine similarity over component bit patterns, as the host computes it.
fn cosine_bits(a: &[u32], b: &[u32]) -> u32 {
    let av: Vec<f32> = a.iter().map(|x| f32::from_bits(*x)).collect();
    let bv: Vec<f32> = b.iter().map(|x| f32::from_bits(*x)).collect();
    let dot: f32 = av.iter().zip(bv.iter()).map(|(x, y)| x * y).sum();
    let ma: f32 = av.iter().map(|x| x * x).sum::<f32>().sqrt();
    let mb: f32 = bv.iter().map(|x| x * x).sum::<f32>().sqrt();
    let score = if ma * mb == 0.0 { 0.0 } else { dot / (ma * mb) };
    score.to_bits()
}

fn record_with_payload(payload: &[u8]) -> MemoryRecord {
    MemoryRecord::builder(MemoryChannel::Input, payload.to_vec())
        .build()
        .unwrap()
}

#[test]
fn builder_rejects_empty_tags() {
    let err = MemoryRecord::builder(MemoryChannel::Input, b"payload".to_vec())
        .tag("")
        .expect_err("empty tag should fail");
    assert!(matches!(err, MemoryError::InvalidRecord(_)));

    let err = MemoryRecord::builder(MemoryChannel::Input, b"payload".to_vec())
        .tags(&vec!["ok".to_owned(), " ".to_owned()])
        .expect_err("whitespace tag should fail");
    assert!(matches!(err, MemoryError::InvalidRecord(_)));
}

#[test]
fn builder_constructs_record() {
    let record = MemoryRecord::builder(MemoryChannel::Output, b"payload".to_vec())
        .tag("mxp")
        .unwrap()
        .metadata("key", MetaValue::Text("value".to_owned()))
        .build()
        .unwrap();

    assert_eq!(record.payload(), &b"payload".to_vec());
    assert_eq!(record.tags(), &vec!["mxp".to_owned()]);
    match record.metadata().get("key") {
        Some(MetaValue::Text(s)) => assert_eq!(s, "value"),
        other => panic!("unexpected metadata value: {other:?}"),
    }
}

#[test]
fn custom_channel_label_rejected_when_blank() {
    assert!(MemoryChannel::custom(" ").is_err());
    assert!(MemoryChannel::custom("audit").is_ok());
}

#[test]
fn respects_capacity() {
    let config = VolatileConfig::new(2);
    let mut memory = VolatileMemory::new(config);

    memory.push(record_with_payload(b"one"));
    memory.push(record_with_payload(b"two"));
    memory.push(record_with_payload(b"three"));

    let recent = memory.recent(10);
    assert_eq!(recent.len(), 2);
    assert_eq!(recent[0].payload(), &b"two".to_vec());
    assert_eq!(recent[1].payload(), &b"three".to_vec());
}

#[test]
fn respects_total_byte_limit() {
    let config = VolatileConfig::new(10).with_max_total_bytes(8);
    let mut memory = VolatileMemory::new(config);

    for value in [b"aaaa", b"bbbb", b"cccc"] {
        memory.push(record_with_payload(value));
    }

    let stats = memory.stats();
    assert!(stats.total_bytes <= 8 || stats.entries == 1);
}

#[test]
fn push_then_recent_one_returns_it() {
    let mut memory = VolatileMemory::new(VolatileConfig::new(4));
    let record = record_with_payload(b"latest");
    let id = record.id();
    memory.push(record);
    let recent = memory.recent(1);
    assert_eq!(recent.len(), 1);
    assert_eq!(recent[0].id(), id);
}

#[test]
fn frames_split_and_join() {
    let mut data: Vec<u8> = Vec::new();
    frame_line(&mut data, b"one");
    frame_line(&mut data, b"two");
    data.extend_from_slice(b"\n");
    frame_line(&mut data, b"three");
    let frames = split_frames(&data);
    assert_eq!(
        frames,
        vec![b"one".to_vec(), b"two".to_vec(), b"three".to_vec()]
    );

    let unterminated = split_frames(b"alpha\nbeta");
    assert_eq!(unterminated, vec![b"alpha".to_vec(), b"beta".to_vec()]);
    assert!(split_frames(b"").is_empty());
}

#[test]
fn records_to_all_components() {
    let bus = MemoryBus::<VecJournal>::builder(VolatileConfig::new(8))
        .with_journal(VecJournal::new())
        .with_vector_store(LocalVectorStore::new());
    let mut bus = bus.build().unwrap();

    let record = MemoryRecord::builder(MemoryChannel::Input, b"hello".to_vec())
        .tag("mxp")
        .unwrap()
        .build()
        .unwrap();

    bus.record(record).unwrap();

    let recent = bus.recent(1);
    assert_eq!(recent.len(), 1);
    assert_eq!(recent[0].payload(), &b"hello".to_vec());

    let journal_tail = bus.journal_tail(1).unwrap();
    assert_eq!(journal_tail.len(), 1);

    // Without an embedding the index receives nothing.
    let query = VectorQuery::new(
        EmbeddingVector::new(f32_bits(&[1.0])).unwrap(),
        TopK::new(1).unwrap(),
    );
    let candidates = bus.candidates(&query).unwrap();
    assert!(candidates.is_empty());
}

#[test]
fn journal_append_then_tail_one_returns_it() {
    let mut journal = VecJournal::new();
    let record = record_with_payload(b"entry");
    let id = record.id();
    journal.append(&record).unwrap();
    let tail = journal.tail(1).unwrap();
    assert_eq!(tail.len(), 1);
    assert_eq!(tail[0].id(), id);
}

#[test]
fn missing_vector_store_errors() {
    let bus = MemoryBus::<VecJournal>::builder(VolatileConfig::new(4))
        .with_journal(VecJournal::new())
        .build()
        .unwrap();

    let query = VectorQuery::new(
        EmbeddingVector::new(f32_bits(&[1.0])).unwrap(),
        TopK::new(1).unwrap(),
    );
    let err = bus.candidates(&query).expect_err("missing vector store should error");
    assert!(matches!(err, MemoryError::MissingVectorStore));
}

#[test]
fn missing_journal_errors() {
    let builder: mxp_agents::MemoryBusBuilder<VecJournal> =
        MemoryBus::<VecJournal>::builder(VolatileConfig::new(4));
    match builder.build() {
        Err(err) => assert!(matches!(err, MemoryError::MissingJournal)),
        Ok(_) => panic!("missing journal should error"),
    }
}

#[test]
fn record_with_embedding_reaches_index() {
    let bus = MemoryBus::<VecJournal>::builder(VolatileConfig::new(8))
        .with_journal(VecJournal::new())
        .with_vector_store(LocalVectorStore::new());
    let mut bus = bus.build().unwrap();

    let embedding = EmbeddingVector::new(f32_bits(&[1.0, 0.0])).unwrap();
    let record = MemoryRecord::builder(MemoryChannel::Input, b"vec".to_vec())
        .tag("alpha")
        .unwrap()
        .embedding(embedding)
        .build()
        .unwrap();
    let id = record.id();
    bus.record(record).unwrap();

    let query = VectorQuery::new(
        EmbeddingVector::new(f32_bits(&[1.0, 0.0])).unwrap(),
        TopK::new(1).unwrap(),
    );
    let candidates = bus.candidates(&query).unwrap();
    assert_eq!(candidates.len(), 1);
    assert_eq!(candidates[0].id(), id);
}

#[test]
fn zero_top_k_cannot_be_constructed() {
    assert!(TopK::new(0).is_none());
    assert!(TopK::new(1).is_some());
}

#[test]
fn basic_query() {
    let mut store = LocalVectorStore::new();

    store.upsert(
        VectorPoint::new(1, EmbeddingVector::new(f32_bits(&[1.0, 0.0, 0.0])).unwrap())
            .with_tags(vec!["alpha".to_owned()]),
    );
    store.upsert(
        VectorPoint::new(2, EmbeddingVector::new(f32_bits(&[0.0, 1.0, 0.0])).unwrap())
            .with_tags(vec!["beta".to_owned()]),
    );

    let query = VectorQuery::new(
        EmbeddingVector::new(f32_bits(&[1.0, 0.0, 0.0])).unwrap(),
        TopK::new(1).unwrap(),
    );
    let candidates = store.candidates(&query);
    let scores: Vec<u32> = candidates
        .iter()
        .map(|p| cosine_bits(p.embedding().as_slice(), query.embedding().as_slice()))
        .collect();
    let matches = store.query_ranked(&query, &scores);
    assert_eq!(matches.len(), 1);
    assert_eq!(matches[0].tags(), &vec!["alpha".to_owned()]);
    assert!((f32::from_bits(matches[0].score_bits()) - 1.0).abs() < f32::EPSILON);
}

#[test]
fn respects_tag_filter() {
    let mut store = LocalVectorStore::new();
    store.upsert(
        VectorPoint::new(7, EmbeddingVector::new(f32_bits(&[1.0, 1.0])).unwrap())
            .with_tags(vec!["alpha".to_owned(), "beta".to_owned()]),
    );

    let query = VectorQuery::new(
        EmbeddingVector::new(f32_bits(&[1.0, 1.0])).unwrap(),
        TopK::new(5).unwrap(),
    )
    .with_tags(vec!["beta".to_owned(), "alpha".to_owned()]);
    let candidates = store.candidates(&query);
    let scores: Vec<u32> = candidates
        .iter()
        .map(|p| cosine_bits(p.embedding().as_slice(), query.embedding().as_slice()))
        .collect();
    let matches = store.query_ranked(&query, &scores);
    assert_eq!(matches.len(), 1);
    assert_eq!(matches[0].id(), 7);

    let narrow = VectorQuery::new(
        EmbeddingVector::new(f32_bits(&[1.0, 1.0])).unwrap(),
        TopK::new(5).unwrap(),
    )
    .with_tags(vec!["beta".to_owned(), "alpha".to_owned(), "gamma".to_owned()]);
    let candidates = store.candidates(&narrow);
    assert!(candidates.is_empty());
}

#[test]
fn upsert_replaces_and_remove_is_idempotent() {
    let mut store = LocalVectorStore::new();
    store.upsert(VectorPoint::new(1, EmbeddingVector::new(f32_bits(&[1.0])).unwrap()));
    store.upsert(
        VectorPoint::new(1, EmbeddingVector::new(f32_bits(&[1.0])).unwrap())
            .with_tags(vec!["new".to_owned()]),
    );

    let query = VectorQuery::new(
        EmbeddingVector::new(f32_bits(&[1.0])).unwrap(),
        TopK::new(5).unwrap(),
    );
    let candidates = store.candidates(&query);
    assert_eq!(candidates.len(), 1);
    assert_eq!(candidates[0].tags(), &vec!["new".to_owned()]);

    store.remove(1);
    store.remove(1);
    assert!(store.candidates(&query).is_empty());
}

#[test]
fn scores_rank_in_descending_order() {
    let mut store = LocalVectorStore::new();
    store.upsert(
        VectorPoint::new(1, EmbeddingVector::new(f32_bits(&[1.0, 0.0])).unwrap()),
    );
    store.upsert(
        VectorPoint::new(2, EmbeddingVector::new(f32_bits(&[0.8, 0.6])).unwrap()),
    );
    store.upsert(
        VectorPoint::new(3, EmbeddingVector::new(f32_bits(&[0.0, 1.0])).unwrap()),
    );

    let query = VectorQuery::new(
        EmbeddingVector::new(f32_bits(&[1.0, 0.0])).unwrap(),
        TopK::new(2).unwrap(),
    );
    let candidates = store.candidates(&query);
    let scores: Vec<u32> = candidates
        .iter()
        .map(|p| cosine_bits(p.embedding().as_slice(), query.embedding().as_slice()))
        .collect();
    let matches = store.query_ranked(&query, &scores);
    assert_eq!(matches.len(), 2);
    assert_eq!(matches[0].id(), 1);
    assert_eq!(matches[1].id(), 2);
    assert!(
        f32::from_bits(matches[0].score_bits()) >= f32::from_bits(matches[1].score_bits())
    );
}
