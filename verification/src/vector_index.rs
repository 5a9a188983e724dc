//! Similarity index: a flat store keyed by record id with tag filtering
//! and ranked retrieval.
//!
//! Scores are carried as the bit patterns of IEEE-754 single-precision
//! values and ordered by the standard's total order (negative NaNs below
//! every number, positive NaNs above). The scoring arithmetic itself is
//! supplied by the caller that owns the floating-point representation:
//! the index filters the candidates and ranks whatever scores each
//! candidate was given.

use vstd::prelude::*;

use crate::embedding::EmbeddingVector;
use crate::meta::{MetaMap, MetaValueModel};

verus! {

/// A positive result count: a `top_k` of zero cannot be constructed.
#[derive(Debug, Clone, Copy, PartialEq, Eq, Structural)]
pub struct TopK {
    count: usize,
}

impl TopK {
    /// The requested count.
    pub closed spec fn spec_count(self) -> usize {
        self.count
    }

    /// Every constructed value is positive.
    pub open spec fn wf(self) -> bool {
        self.spec_count() >= 1
    }

    /// Creates a positive result count; zero is rejected.
    pub fn new(count: usize) -> (r: Option<TopK>)
        ensures
            r is Some <==> count >= 1,
            r matches Some(k) ==> k.spec_count() == count && k.wf(),
    {
        if count >= 1 {
            Some(TopK { count })
        } else {
            None
        }
    }

    /// Returns the count.
    pub fn get(self) -> (r: usize)
        ensures
            r == self.spec_count(),
    {
        self.count
    }
}

/// The key under which a score's bit pattern is ordered: the IEEE-754
/// total order on single-precision values.
pub open spec fn score_key(bits: u32) -> int {
    if bits >= 0x8000_0000 {
        -((bits - 0x8000_0000) as int) - 1
    } else {
        bits as int
    }
}

/// Compares two scores under the total order.
pub fn score_ge(a: u32, b: u32) -> (r: bool)
    ensures
        r == (score_key(a) >= score_key(b)),
{
    let a_neg = a >= 0x8000_0000;
    let b_neg = b >= 0x8000_0000;
    if a_neg && b_neg {
        a <= b
    } else if a_neg {
        false
    } else if b_neg {
        true
    } else {
        a >= b
    }
}

/// Mathematical model of a stored vector point.
pub ghost struct VectorPointModel {
    /// The record identifier.
    pub id: u128,
    /// The embedding components.
    pub embedding: Seq<u32>,
    /// The metadata, absent standing for a null payload.
    pub metadata: Option<Seq<(Seq<char>, MetaValueModel)>>,
    /// The tag labels.
    pub tags: Seq<Seq<char>>,
}

/// Record stored in the similarity index.
#[derive(Debug)]
pub struct VectorPoint {
    id: u128,
    embedding: EmbeddingVector,
    metadata: Option<MetaMap>,
    tags: Vec<String>,
}

impl View for VectorPoint {
    type V = VectorPointModel;

    closed spec fn view(&self) -> VectorPointModel {
        VectorPointModel {
            id: self.id,
            embedding: self.embedding@,
            metadata: match self.metadata {
                Some(m) => Some(m@),
                None => None,
            },
            tags: self.tags.deep_view(),
        }
    }
}

impl DeepView for VectorPoint {
    type V = VectorPointModel;

    open spec fn deep_view(&self) -> VectorPointModel {
        self.view()
    }
}

impl Clone for VectorPoint {
    fn clone(&self) -> (res: Self)
        ensures
            res@ == self@,
    {
        let tags = self.tags.clone();
        proof {
            assert(tags.deep_view() =~= self.tags.deep_view());
        }
        VectorPoint {
            id: self.id,
            embedding: self.embedding.clone(),
            metadata: match &self.metadata {
                Some(m) => Some(m.clone()),
                None => None,
            },
            tags,
        }
    }
}

impl VectorPoint {
    /// Creates a new vector point with no metadata and no tags.
    pub fn new(id: u128, embedding: EmbeddingVector) -> (r: VectorPoint)
        ensures
            r@.id == id,
            r@.embedding == embedding@,
            r@.metadata is None,
            r@.tags == Seq::<Seq<char>>::empty(),
    {
        let r = VectorPoint { id, embedding, metadata: None, tags: Vec::new() };
        proof {
            assert(r@.tags =~= Seq::<Seq<char>>::empty());
        }
        r
    }

    /// Assigns metadata to the point.
    pub fn with_metadata(self, metadata: MetaMap) -> (r: VectorPoint)
        ensures
            r@ == (VectorPointModel { metadata: Some(metadata@), ..self@ }),
    {
        let VectorPoint { id, embedding, metadata: _, tags } = self;
        VectorPoint { id, embedding, metadata: Some(metadata), tags }
    }

    /// Assigns tags to the point, replacing any earlier ones.
    pub fn with_tags(self, tags: Vec<String>) -> (r: VectorPoint)
        ensures
            r@ == (VectorPointModel { tags: tags.deep_view(), ..self@ }),
    {
        let VectorPoint { id, embedding, metadata, tags: _ } = self;
        VectorPoint { id, embedding, metadata, tags }
    }

    /// Returns the identifier.
    pub fn id(&self) -> (r: u128)
        ensures
            r == self@.id,
    {
        self.id
    }

    /// Returns the embedding reference.
    pub fn embedding(&self) -> (r: &EmbeddingVector)
        ensures
            r@ == self@.embedding,
    {
        &self.embedding
    }

    /// Returns tags associated with the point.
    pub fn tags(&self) -> (r: &Vec<String>)
        ensures
            r.deep_view() == self@.tags,
    {
        &self.tags
    }

    /// Returns the metadata payload, if one was assigned.
    pub fn metadata(&self) -> (r: Option<&MetaMap>)
        ensures
            match r {
                Some(m) => self@.metadata == Some(m@),
                None => self@.metadata is None,
            },
    {
        match &self.metadata {
            Some(m) => Some(m),
            None => None,
        }
    }
}

/// Mathematical model of a similarity query.
pub ghost struct VectorQueryModel {
    /// The query embedding components.
    pub embedding: Seq<u32>,
    /// The positive number of results requested.
    pub top_k: usize,
    /// Tags every returned point must carry.
    pub tags: Seq<Seq<char>>,
}

/// Query parameters for retrieving similar vectors.
#[derive(Debug)]
pub struct VectorQuery {
    embedding: EmbeddingVector,
    top_k: TopK,
    tags: Vec<String>,
}

impl View for VectorQuery {
    type V = VectorQueryModel;

    closed spec fn view(&self) -> VectorQueryModel {
        VectorQueryModel {
            embedding: self.embedding@,
            top_k: self.top_k.spec_count(),
            tags: self.tags.deep_view(),
        }
    }
}

impl VectorQuery {
    /// The requested count is positive by construction.
    pub closed spec fn wf(&self) -> bool {
        self.top_k.wf()
    }

    /// Creates a new query request.
    pub fn new(embedding: EmbeddingVector, top_k: TopK) -> (r: VectorQuery)
        requires
            top_k.wf(),
        ensures
            r@.embedding == embedding@,
            r@.top_k == top_k.spec_count(),
            r@.tags == Seq::<Seq<char>>::empty(),
            r.wf(),
    {
        let r = VectorQuery { embedding, top_k, tags: Vec::new() };
        proof {
            assert(r@.tags =~= Seq::<Seq<char>>::empty());
        }
        r
    }

    /// Restricts results to vectors tagged with all provided labels.
    pub fn with_tags(self, tags: Vec<String>) -> (r: VectorQuery)
        ensures
            r@ == (VectorQueryModel { tags: tags.deep_view(), ..self@ }),
            self.wf() ==> r.wf(),
    {
        let VectorQuery { embedding, top_k, tags: _ } = self;
        VectorQuery { embedding, top_k, tags }
    }

    /// Returns the embedding driving the query.
    pub fn embedding(&self) -> (r: &EmbeddingVector)
        ensures
            r@ == self@.embedding,
    {
        &self.embedding
    }

    /// Returns the desired number of results.
    pub fn top_k(&self) -> (r: usize)
        requires
            self.wf(),
        ensures
            r == self@.top_k,
            r >= 1,
    {
        self.top_k.get()
    }

    /// Returns tags to enforce during search.
    pub fn tags(&self) -> (r: &Vec<String>)
        ensures
            r.deep_view() == self@.tags,
    {
        &self.tags
    }
}

/// Mathematical model of a returned match.
pub ghost struct VectorMatchModel {
    /// The record identifier.
    pub id: u128,
    /// The similarity score's bit pattern.
    pub score_bits: u32,
    /// The metadata, absent standing for a null payload.
    pub metadata: Option<Seq<(Seq<char>, MetaValueModel)>>,
    /// The tag labels.
    pub tags: Seq<Seq<char>>,
}

/// Match returned from a similarity query.
#[derive(Debug)]
pub struct VectorMatch {
    id: u128,
    score_bits: u32,
    metadata: Option<MetaMap>,
    tags: Vec<String>,
}

impl View for VectorMatch {
    type V = VectorMatchModel;

    closed spec fn view(&self) -> VectorMatchModel {
        VectorMatchModel {
            id: self.id,
            score_bits: self.score_bits,
            metadata: match self.metadata {
                Some(m) => Some(m@),
                None => None,
            },
            tags: self.tags.deep_view(),
        }
    }
}

impl DeepView for VectorMatch {
    type V = VectorMatchModel;

    open spec fn deep_view(&self) -> VectorMatchModel {
        self.view()
    }
}

impl Clone for VectorMatch {
    fn clone(&self) -> (res: Self)
        ensures
            res@ == self@,
    {
        let tags = self.tags.clone();
        proof {
            assert(tags.deep_view() =~= self.tags.deep_view());
        }
        VectorMatch {
            id: self.id,
            score_bits: self.score_bits,
            metadata: match &self.metadata {
                Some(m) => Some(m.clone()),
                None => None,
            },
            tags,
        }
    }
}

impl VectorMatch {
    /// Creates a match structure.
    pub fn new(id: u128, score_bits: u32, metadata: Option<MetaMap>, tags: Vec<String>) -> (r:
        VectorMatch)
        ensures
            r@.id == id,
            r@.score_bits == score_bits,
            r@.metadata == (match metadata {
                Some(m) => Some(m@),
                None => None::<Seq<(Seq<char>, MetaValueModel)>>,
            }),
            r@.tags == tags.deep_view(),
    {
        VectorMatch { id, score_bits, metadata, tags }
    }

    /// Returns the identifier.
    pub fn id(&self) -> (r: u128)
        ensures
            r == self@.id,
    {
        self.id
    }

    /// Returns the similarity score's bit pattern.
    pub fn score_bits(&self) -> (r: u32)
        ensures
            r == self@.score_bits,
    {
        self.score_bits
    }

    /// Returns the metadata payload, if any.
    pub fn metadata(&self) -> (r: Option<&MetaMap>)
        ensures
            match r {
                Some(m) => self@.metadata == Some(m@),
                None => self@.metadata is None,
            },
    {
        match &self.metadata {
            Some(m) => Some(m),
            None => None,
        }
    }

    /// Returns tags associated with the match.
    pub fn tags(&self) -> (r: &Vec<String>)
        ensures
            r.deep_view() == self@.tags,
    {
        &self.tags
    }
}

/// Whether a stored point answers a query: it carries every required tag
/// and its dimensionality matches the query's.
pub open spec fn spec_matches_query(p: VectorPointModel, q: VectorQueryModel) -> bool {
    &&& forall|i: int| 0 <= i < q.tags.len() ==> p.tags.contains(#[trigger] q.tags[i])
    &&& p.embedding.len() == q.embedding.len()
}

/// The stored points that answer a query, in store order.
pub open spec fn spec_candidates(points: Seq<VectorPointModel>, q: VectorQueryModel) -> Seq<
    VectorPointModel,
>
    decreases points.len(),
{
    if points.len() == 0 {
        Seq::empty()
    } else {
        spec_candidates(points.drop_last(), q) + if spec_matches_query(points.last(), q) {
            seq![points.last()]
        } else {
            Seq::empty()
        }
    }
}

/// Every candidate is one of the stored points and answers the query.
pub proof fn lemma_candidates_sound(points: Seq<VectorPointModel>, q: VectorQueryModel)
    ensures
        forall|i: int|
            0 <= i < spec_candidates(points, q).len() ==> points.contains(
                #[trigger] spec_candidates(points, q)[i],
            ) && spec_matches_query(spec_candidates(points, q)[i], q),
    decreases points.len(),
{
    if points.len() > 0 {
        lemma_candidates_sound(points.drop_last(), q);
        let rest = spec_candidates(points.drop_last(), q);
        assert forall|i: int|
            0 <= i < spec_candidates(points, q).len() implies points.contains(
            #[trigger] spec_candidates(points, q)[i],
        ) && spec_matches_query(spec_candidates(points, q)[i], q) by {
            if i < rest.len() {
                assert(spec_candidates(points, q)[i] == rest[i]);
                assert(points.drop_last().contains(rest[i]));
                let j = choose|j: int|
                    0 <= j < points.drop_last().len() && #[trigger] points.drop_last()[j]
                        == rest[i];
                assert(points[j] == rest[i]);
            } else {
                assert(spec_candidates(points, q)[i] == points.last());
            }
        }
    }
}

/// Two distinct positions holding the same value give a count of at
/// least two.
proof fn lemma_count_two_positions(s: Seq<VectorMatchModel>, i: int, j: int, m: VectorMatchModel)
    requires
        0 <= i < j < s.len(),
        s[i] == m,
        s[j] == m,
    ensures
        spec_count_match(s, m) >= 2,
    decreases s.len(),
{
    if j == s.len() - 1 {
        lemma_count_one_position(s.drop_last(), i, m);
    } else {
        assert(s.drop_last()[i] == m);
        assert(s.drop_last()[j] == m);
        lemma_count_two_positions(s.drop_last(), i, j, m);
    }
}

/// A position holding the value gives a count of at least one.
proof fn lemma_count_one_position(s: Seq<VectorMatchModel>, i: int, m: VectorMatchModel)
    requires
        0 <= i < s.len(),
        s[i] == m,
    ensures
        spec_count_match(s, m) >= 1,
    decreases s.len(),
{
    if i < s.len() - 1 {
        lemma_count_one_position(s.drop_last(), i, m);
    }
}

/// A list whose entries all differ from `m` counts zero occurrences.
proof fn lemma_count_none(s: Seq<VectorMatchModel>, m: VectorMatchModel)
    requires
        forall|k: int| 0 <= k < s.len() ==> #[trigger] s[k] != m,
    ensures
        spec_count_match(s, m) == 0,
    decreases s.len(),
{
    if s.len() > 0 {
        lemma_count_none(s.drop_last(), m);
    }
}

/// A list with pairwise-distinct identifiers counts every value at most
/// once.
proof fn lemma_count_unique_ids(s: Seq<VectorMatchModel>, m: VectorMatchModel)
    requires
        forall|a: int, b: int|
            0 <= a < b < s.len() ==> (#[trigger] s[a]).id != (#[trigger] s[b]).id,
    ensures
        spec_count_match(s, m) <= 1,
    decreases s.len(),
{
    if s.len() > 0 {
        if s.last() == m {
            assert forall|k: int| 0 <= k < s.drop_last().len() implies #[trigger] s.drop_last()[k]
                != m by {
                assert(s[k].id != s[s.len() - 1].id);
            }
            lemma_count_none(s.drop_last(), m);
        } else {
            lemma_count_unique_ids(s.drop_last(), m);
        }
    }
}

/// Candidates of a store with unique identifiers keep them unique.
proof fn lemma_candidates_unique(points: Seq<VectorPointModel>, q: VectorQueryModel)
    requires
        forall|a: int, b: int|
            0 <= a < b < points.len() ==> (#[trigger] points[a]).id != (#[trigger] points[b]).id,
    ensures
        forall|a: int, b: int|
            0 <= a < b < spec_candidates(points, q).len() ==> (#[trigger] spec_candidates(
                points,
                q,
            )[a]).id != (#[trigger] spec_candidates(points, q)[b]).id,
    decreases points.len(),
{
    if points.len() > 0 {
        let pre = points.drop_last();
        lemma_candidates_unique(pre, q);
        lemma_candidates_sound(pre, q);
        let cands = spec_candidates(points, q);
        let prefix = spec_candidates(pre, q);
        assert forall|a: int, b: int|
            0 <= a < b < cands.len() implies (#[trigger] cands[a]).id != (
        #[trigger] cands[b]).id by {
            if b < prefix.len() {
                assert(cands[a] == prefix[a]);
                assert(cands[b] == prefix[b]);
            } else {
                assert(cands[b] == points.last());
                assert(cands[a] == prefix[a]);
                assert(pre.contains(prefix[a]));
                let k = choose|k: int| 0 <= k < pre.len() && #[trigger] pre[k] == prefix[a];
                assert(points[k] == prefix[a]);
                assert(points[k].id != points[points.len() - 1].id);
            }
        }
    }
}

/// Whether the matches are sorted by non-increasing score.
pub open spec fn sorted_desc(s: Seq<VectorMatchModel>) -> bool {
    forall|i: int, j: int|
        0 <= i <= j < s.len() ==> score_key(#[trigger] s[i].score_bits) >= score_key(
            #[trigger] s[j].score_bits,
        )
}

/// Simple in-memory similarity index over embeddings, keyed by identifier.
#[derive(Debug)]
pub struct LocalVectorStore {
    points: Vec<VectorPoint>,
}

impl LocalVectorStore {
    /// The stored points, in insertion order.
    pub closed spec fn spec_points(&self) -> Seq<VectorPointModel> {
        self.points.deep_view()
    }

    /// Identifiers are unique in the store.
    pub open spec fn wf(&self) -> bool {
        forall|i: int, j: int|
            0 <= i < j < self.spec_points().len() ==> (#[trigger] self.spec_points()[i]).id != (
            #[trigger] self.spec_points()[j]).id
    }

    /// Creates an empty store.
    pub fn new() -> (r: LocalVectorStore)
        ensures
            r.spec_points() == Seq::<VectorPointModel>::empty(),
            r.wf(),
    {
        let r = LocalVectorStore { points: Vec::new() };
        proof {
            assert(r.spec_points() =~= Seq::<VectorPointModel>::empty());
        }
        r
    }

    /// Inserts a point, replacing any stored point with the same
    /// identifier.
    #[verifier::loop_isolation(false)]
    pub fn upsert(&mut self, point: VectorPoint)
        requires
            old(self).wf(),
        ensures
            final(self).wf(),
            final(self).spec_points().contains(point@),
            forall|p: VectorPointModel|
                p.id != point@.id ==> (#[trigger] final(self).spec_points().contains(p) <==> old(
                    self,
                ).spec_points().contains(p)),
    {
        let ghost start = self.spec_points();
        let n = self.points.len();
        let mut i: usize = 0;
        while i < n
            invariant
                0 <= i <= n,
                n == self.points@.len(),
                self.spec_points() == start,
                forall|j: int| 0 <= j < i ==> (#[trigger] start[j]).id != point@.id,
            decreases n - i,
        {
            if self.points[i].id() == point.id() {
                let ghost p_model = point@;
                self.points.set(i, point);
                proof {
                    assert(self.spec_points() =~= start.update(i as int, p_model));
                    assert(self.spec_points()[i as int] == p_model);
                    assert forall|p: VectorPointModel|
                        p.id != p_model.id implies (#[trigger] self.spec_points().contains(p)
                        <==> start.contains(p)) by {
                        if self.spec_points().contains(p) {
                            let j = choose|j: int|
                                0 <= j < self.spec_points().len()
                                    && #[trigger] self.spec_points()[j] == p;
                            assert(j != i);
                            assert(start[j] == p);
                        }
                        if start.contains(p) {
                            let j = choose|j: int|
                                0 <= j < start.len() && #[trigger] start[j] == p;
                            assert(start[i as int].id == p_model.id);
                            assert(j != i);
                            assert(self.spec_points()[j] == p);
                        }
                    }
                }
                return ;
            }
            i = i + 1;
        }
        let ghost p_model = point@;
        self.points.push(point);
        proof {
            assert(self.spec_points() =~= start.push(p_model));
            assert(self.spec_points().last() == p_model);
            assert forall|p: VectorPointModel|
                p.id != p_model.id implies (#[trigger] self.spec_points().contains(p)
                <==> start.contains(p)) by {
                if self.spec_points().contains(p) {
                    let j = choose|j: int|
                        0 <= j < self.spec_points().len() && #[trigger] self.spec_points()[j] == p;
                    assert(j < start.len());
                    assert(start[j] == p);
                }
                if start.contains(p) {
                    let j = choose|j: int| 0 <= j < start.len() && #[trigger] start[j] == p;
                    assert(self.spec_points()[j] == p);
                }
            }
        }
    }

    /// Removes the point with the given identifier, if present; removal is
    /// idempotent.
    #[verifier::loop_isolation(false)]
    pub fn remove(&mut self, id: u128)
        requires
            old(self).wf(),
        ensures
            final(self).wf(),
            forall|p: VectorPointModel|
                #[trigger] final(self).spec_points().contains(p) <==> (old(
                    self,
                ).spec_points().contains(p) && p.id != id),
    {
        let ghost start = self.spec_points();
        let n = self.points.len();
        let mut i: usize = 0;
        while i < n
            invariant
                0 <= i <= n,
                n == self.points@.len(),
                self.spec_points() == start,
                forall|j: int| 0 <= j < i ==> (#[trigger] start[j]).id != id,
            decreases n - i,
        {
            if self.points[i].id() == id {
                let ghost removed = start[i as int];
                let _ = self.points.remove(i);
                proof {
                    assert(self.spec_points() =~= start.remove(i as int));
                    assert forall|p: VectorPointModel|
                        #[trigger] self.spec_points().contains(p) <==> (start.contains(p) && p.id
                            != id) by {
                        if self.spec_points().contains(p) {
                            let j = choose|j: int|
                                0 <= j < self.spec_points().len()
                                    && #[trigger] self.spec_points()[j] == p;
                            if j < i as int {
                                assert(start[j] == p);
                            } else {
                                assert(start[j + 1] == p);
                            }
                        }
                        if start.contains(p) && p.id != id {
                            let j = choose|j: int|
                                0 <= j < start.len() && #[trigger] start[j] == p;
                            assert(j != i);
                            if j < i as int {
                                assert(self.spec_points()[j] == p);
                            } else {
                                assert(self.spec_points()[j - 1] == p);
                            }
                        }
                    }
                }
                return ;
            }
            i = i + 1;
        }
        proof {
            assert forall|p: VectorPointModel|
                #[trigger] self.spec_points().contains(p) <==> (start.contains(p) && p.id != id) by {
                if self.spec_points().contains(p) {
                    let j = choose|j: int|
                        0 <= j < self.spec_points().len() && #[trigger] self.spec_points()[j] == p;
                    assert((#[trigger] start[j]).id != id);
                }
            }
        }
    }

    /// Returns the stored points that answer the query, in store order:
    /// those carrying every required tag whose dimensionality matches the
    /// query's.
    #[verifier::loop_isolation(false)]
    pub fn candidates(&self, query: &VectorQuery) -> (r: Vec<VectorPoint>)
        ensures
            r.deep_view() == spec_candidates(self.spec_points(), query@),
    {
        let n = self.points.len();
        let mut out: Vec<VectorPoint> = Vec::new();
        let mut i: usize = 0;
        proof {
            assert(self.spec_points().take(0) =~= Seq::<VectorPointModel>::empty());
        }
        while i < n
            invariant
                0 <= i <= n,
                out.deep_view() =~= spec_candidates(self.spec_points().take(i as int), query@),
            decreases n - i,
        {
            proof {
                assert(self.spec_points().take(i as int + 1).drop_last() =~= self.spec_points()
                    .take(i as int));
                assert(self.spec_points().take(i as int + 1).last() == self.spec_points()[
                i as int]);
            }
            if self.point_matches(i, query) {
                let ghost prev = out.deep_view();
                let c = self.points[i].clone();
                proof {
                    assert(c@ == self.spec_points()[i as int]);
                }
                out.push(c);
                proof {
                    assert(out.deep_view() =~= prev.push(c@));
                    assert(prev.push(c@) =~= prev + seq![c@]);
                }
            }
            i = i + 1;
        }
        proof {
            assert(self.spec_points().take(n as int) =~= self.spec_points());
        }
        out
    }

    /// Returns whether the stored point at `i` answers the query.
    #[verifier::loop_isolation(false)]
    fn point_matches(&self, i: usize, query: &VectorQuery) -> (r: bool)
        requires
            i < self.spec_points().len(),
        ensures
            r == spec_matches_query(self.spec_points()[i as int], query@),
    {
        let p = &self.points[i];
        if p.embedding.len() != query.embedding().len() {
            proof {
                assert(!spec_matches_query(self.spec_points()[i as int], query@));
            }
            return false;
        }
        let q_tags = query.tags();
        let m = q_tags.len();
        let mut j: usize = 0;
        while j < m
            invariant
                0 <= j <= m,
                forall|k: int|
                    0 <= k < j ==> self.spec_points()[i as int].tags.contains(
                        #[trigger] query@.tags[k],
                    ),
                i < self.spec_points().len(),
                m == query@.tags.len(),
            decreases m - j,
        {
            proof {
                assert(q_tags.deep_view()[j as int] == q_tags@[j as int]@);
            }
            if !contains_label(&self.points[i].tags, &q_tags[j]) {
                proof {
                    assert(!self.spec_points()[i as int].tags.contains(query@.tags[j as int]));
                }
                return false;
            }
            j = j + 1;
        }
        true
    }
}

/// Returns whether a label list holds the given label.
fn contains_label(labels: &Vec<String>, label: &String) -> (r: bool)
    ensures
        r == labels.deep_view().contains(label@),
{
    let n = labels.len();
    let mut i: usize = 0;
    while i < n
        invariant
            0 <= i <= n,
            n == labels@.len(),
            forall|j: int| 0 <= j < i ==> labels.deep_view()[j] != label@,
        decreases n - i,
    {
        if labels[i] == *label {
            proof {
                assert(labels.deep_view()[i as int] == label@);
            }
            return true;
        }
        proof {
            assert(labels.deep_view()[i as int] == labels@[i as int]@);
        }
        i = i + 1;
    }
    proof {
        if labels.deep_view().contains(label@) {
            let j = choose|j: int|
                0 <= j < labels.deep_view().len() && #[trigger] labels.deep_view()[j] == label@;
        }
    }
    false
}

impl VectorQuery {
    /// Returns the requested count as a [`TopK`] value.
    pub(crate) fn top_k_bound(&self) -> (r: TopK)
        requires
            self.wf(),
        ensures
            r.spec_count() == self@.top_k,
            r.wf(),
    {
        self.top_k
    }
}

/// How many entries of a match list equal `m`.
pub open spec fn spec_count_match(s: Seq<VectorMatchModel>, m: VectorMatchModel) -> nat
    decreases s.len(),
{
    if s.len() == 0 {
        0
    } else {
        spec_count_match(s.drop_last(), m) + if s.last() == m {
            1nat
        } else {
            0nat
        }
    }
}

/// Inserting an element raises its own count by one and no other.
proof fn lemma_count_insert(s: Seq<VectorMatchModel>, p: int, x: VectorMatchModel, m: VectorMatchModel)
    requires
        0 <= p <= s.len(),
    ensures
        spec_count_match(s.insert(p, x), m) == spec_count_match(s, m) + if x == m {
            1nat
        } else {
            0nat
        },
    decreases s.len(),
{
    if p == s.len() {
        assert(s.insert(p, x).drop_last() =~= s);
        assert(s.insert(p, x).last() == x);
    } else {
        assert(s.insert(p, x).drop_last() =~= s.drop_last().insert(p, x));
        assert(s.insert(p, x).last() == s.last());
        lemma_count_insert(s.drop_last(), p, x, m);
    }
}

/// A prefix counts no more occurrences than the whole.
proof fn lemma_count_take_le(s: Seq<VectorMatchModel>, k: int, m: VectorMatchModel)
    requires
        0 <= k <= s.len(),
    ensures
        spec_count_match(s.take(k), m) <= spec_count_match(s, m),
    decreases s.len(),
{
    if k == s.len() {
        assert(s.take(k) =~= s);
    } else {
        assert(s.take(k) =~= s.drop_last().take(k));
        lemma_count_take_le(s.drop_last(), k, m);
    }
}

/// Sorts matches by non-increasing score under the total order and keeps
/// at most `top_k` of them. Every returned match is one of the given
/// matches, each drawn from a distinct input position: no input match is
/// returned more often than it was given.
#[verifier::loop_isolation(false)]
pub fn rank_matches(matches: Vec<VectorMatch>, top_k: TopK) -> (r: Vec<VectorMatch>)
    ensures
        sorted_desc(r.deep_view()),
        r.deep_view().len() == if top_k.spec_count() <= matches.deep_view().len() {
            top_k.spec_count() as int
        } else {
            matches.deep_view().len() as int
        },
        forall|i: int|
            0 <= i < r.deep_view().len() ==> matches.deep_view().contains(
                #[trigger] r.deep_view()[i],
            ),
        forall|m: VectorMatchModel| #[trigger]
            spec_count_match(r.deep_view(), m) <= spec_count_match(matches.deep_view(), m),
{
    let ghost input = matches.deep_view();
    let n = matches.len();
    let mut sorted: Vec<VectorMatch> = Vec::new();
    let mut i: usize = 0;
    while i < n
        invariant
            0 <= i <= n,
            sorted.deep_view().len() == i,
            sorted_desc(sorted.deep_view()),
            forall|k: int|
                0 <= k < sorted.deep_view().len() ==> input.contains(
                    #[trigger] sorted.deep_view()[k],
                ),
            forall|m: VectorMatchModel| #[trigger]
                spec_count_match(sorted.deep_view(), m) == spec_count_match(
                    input.take(i as int),
                    m,
                ),
        decreases n - i,
    {
        let m = matches[i].clone();
        proof {
            assert(m@ == input[i as int]);
        }
        let key_len = sorted.len();
        let mut pos: usize = 0;
        while pos < key_len && score_ge(sorted[pos].score_bits, m.score_bits)
            invariant
                0 <= pos <= key_len,
                key_len == sorted.deep_view().len(),
                forall|k: int|
                    0 <= k < pos ==> score_key((#[trigger] sorted.deep_view()[k]).score_bits)
                        >= score_key(m@.score_bits),
            decreases key_len - pos,
        {
            proof {
                assert(sorted.deep_view()[pos as int].score_bits == sorted@[pos as int]@.score_bits);
            }
            pos = pos + 1;
        }
        let ghost before = sorted.deep_view();
        sorted.insert(pos, m);
        proof {
            assert(sorted.deep_view() =~= before.insert(pos as int, input[i as int]));
            let cur = sorted.deep_view();
            assert forall|a: int, b: int|
                0 <= a <= b < cur.len() implies score_key((#[trigger] cur[a]).score_bits)
                >= score_key((#[trigger] cur[b]).score_bits) by {
                if a < pos as int && b == pos as int {
                    assert(cur[a] == before[a]);
                } else if a == pos as int && b > pos as int {
                    assert(cur[b] == before[b - 1]);
                    assert(!(score_key(before[pos as int].score_bits) >= score_key(
                        input[i as int].score_bits,
                    )) ==> score_key(input[i as int].score_bits) >= score_key(
                        before[pos as int].score_bits,
                    ));
                } else if a < pos as int && b > pos as int {
                    assert(cur[a] == before[a]);
                    assert(cur[b] == before[b - 1]);
                } else if a != pos as int && b != pos as int {
                    if a < pos as int {
                        assert(cur[a] == before[a]);
                    } else {
                        assert(cur[a] == before[a - 1]);
                    }
                    if b < pos as int {
                        assert(cur[b] == before[b]);
                    } else {
                        assert(cur[b] == before[b - 1]);
                    }
                }
            }
            assert forall|k: int|
                0 <= k < cur.len() implies input.contains(#[trigger] cur[k]) by {
                if k < pos as int {
                    assert(cur[k] == before[k]);
                } else if k == pos as int {
                    assert(cur[k] == input[i as int]);
                } else {
                    assert(cur[k] == before[k - 1]);
                }
            }
            assert forall|m2: VectorMatchModel| #[trigger]
                spec_count_match(cur, m2) == spec_count_match(
                    input.take(i as int + 1),
                    m2,
                ) by {
                lemma_count_insert(before, pos as int, input[i as int], m2);
                assert(input.take(i as int + 1).drop_last() =~= input.take(i as int));
                assert(input.take(i as int + 1).last() == input[i as int]);
            }
        }
        i = i + 1;
    }
    let keep = if top_k.get() <= n {
        top_k.get()
    } else {
        n
    };
    let ghost full = sorted.deep_view();
    sorted.truncate(keep);
    proof {
        assert(sorted.deep_view() =~= full.take(keep as int));
        assert forall|k: int|
            0 <= k < sorted.deep_view().len() implies input.contains(
            #[trigger] sorted.deep_view()[k],
        ) by {
            assert(sorted.deep_view()[k] == full[k]);
        }
        assert(input.take(n as int) =~= input);
        assert forall|m: VectorMatchModel| #[trigger]
            spec_count_match(sorted.deep_view(), m) <= spec_count_match(input, m) by {
            lemma_count_take_le(full, keep as int, m);
        }
    }
    sorted
}

} // verus!

verus! {

/// Whether match `m` is candidate `j` carrying that candidate's score.
pub open spec fn match_drawn_from(
    m: VectorMatchModel,
    cands: Seq<VectorPointModel>,
    scores: Seq<u32>,
    j: int,
) -> bool {
    &&& 0 <= j < cands.len()
    &&& m.id == cands[j].id
    &&& m.tags == cands[j].tags
    &&& m.metadata == cands[j].metadata
    &&& m.score_bits == scores[j]
}

/// Whether a match is some candidate carrying that candidate's score.
pub open spec fn ranked_entry(
    m: VectorMatchModel,
    cands: Seq<VectorPointModel>,
    scores: Seq<u32>,
) -> bool {
    exists|j: int| #[trigger] match_drawn_from(m, cands, scores, j)
}

/// Whether every returned match is one of the candidates carrying the
/// score that candidate was given.
pub open spec fn ranked_from(
    r: Seq<VectorMatchModel>,
    cands: Seq<VectorPointModel>,
    scores: Seq<u32>,
) -> bool {
    forall|i: int| 0 <= i < r.len() ==> ranked_entry(#[trigger] r[i], cands, scores)
}

impl LocalVectorStore {
    /// Answers a query given one score per candidate: the matches are the
    /// query's candidates carrying their given scores, ranked by
    /// non-increasing score and cut to the query's requested count.
    ///
    /// `scores[j]` is the score of the `j`-th candidate (in store order),
    /// as produced by the caller's scoring arithmetic over the embedding
    /// bit patterns.
    #[verifier::loop_isolation(false)]
    pub fn query_ranked(&self, query: &VectorQuery, scores: &Vec<u32>) -> (r: Vec<VectorMatch>)
        requires
            self.wf(),
            query.wf(),
            scores@.len() == spec_candidates(self.spec_points(), query@).len(),
        ensures
            forall|i: int, j: int|
                0 <= i < j < r.deep_view().len() ==> #[trigger] r.deep_view()[i]
                    != #[trigger] r.deep_view()[j],
            sorted_desc(r.deep_view()),
            r.deep_view().len() == ({
                let c = spec_candidates(self.spec_points(), query@).len() as int;
                if query@.top_k <= c {
                    query@.top_k as int
                } else {
                    c
                }
            }),
            ranked_from(
                r.deep_view(),
                spec_candidates(self.spec_points(), query@),
                scores@,
            ),
    {
        let ghost cands_model = spec_candidates(self.spec_points(), query@);
        let cands = self.candidates(query);
        let n = cands.len();
        let mut matches: Vec<VectorMatch> = Vec::new();
        let mut i: usize = 0;
        while i < n
            invariant
                0 <= i <= n,
                n == cands@.len(),
                matches.deep_view().len() == i,
                forall|k: int|
                    0 <= k < i ==> {
                        &&& (#[trigger] matches.deep_view()[k]).id == cands_model[k].id
                        &&& matches.deep_view()[k].tags == cands_model[k].tags
                        &&& matches.deep_view()[k].metadata == cands_model[k].metadata
                        &&& matches.deep_view()[k].score_bits == scores@[k]
                    },
            decreases n - i,
        {
            let p = &cands[i];
            proof {
                assert(p@ == cands_model[i as int]);
            }
            let metadata = match p.metadata() {
                Some(m) => Some(m.clone()),
                None => None,
            };
            let tags = p.tags().clone();
            proof {
                assert(tags.deep_view() =~= p@.tags);
            }
            let m = VectorMatch::new(p.id(), scores[i], metadata, tags);
            proof {
                assert(m@.id == cands_model[i as int].id);
                assert(m@.tags == cands_model[i as int].tags);
                assert(m@.metadata == cands_model[i as int].metadata);
                assert(m@.score_bits == scores@[i as int]);
            }
            let ghost before = matches.deep_view();
            matches.push(m);
            proof {
                assert(matches.deep_view() =~= before.push(m@));
            }
            i = i + 1;
        }
        let ghost matches_model = matches.deep_view();
        let r = rank_matches(matches, query.top_k_bound());
        proof {
            assert forall|i: int|
                0 <= i < r.deep_view().len() implies ranked_entry(
                #[trigger] r.deep_view()[i],
                cands_model,
                scores@,
            ) by {
                assert(matches_model.contains(r.deep_view()[i]));
                let j = choose|j: int|
                    0 <= j < matches_model.len() && #[trigger] matches_model[j]
                        == r.deep_view()[i];
                assert(match_drawn_from(r.deep_view()[i], cands_model, scores@, j));
            }
            assert(ranked_from(r.deep_view(), cands_model, scores@));
            lemma_candidates_unique(self.spec_points(), query@);
            assert forall|i: int, j: int|
                0 <= i < j < matches_model.len() implies (#[trigger] matches_model[i]).id != (
            #[trigger] matches_model[j]).id by {
                assert(matches_model[i].id == cands_model[i].id);
                assert(matches_model[j].id == cands_model[j].id);
            }
            assert forall|i: int, j: int|
                0 <= i < j < r.deep_view().len() implies #[trigger] r.deep_view()[i]
                != #[trigger] r.deep_view()[j] by {
                if r.deep_view()[i] == r.deep_view()[j] {
                    let m = r.deep_view()[i];
                    lemma_count_two_positions(r.deep_view(), i, j, m);
                    lemma_count_unique_ids(matches_model, m);
                }
            }
        }
        r
    }
}

} // verus!
