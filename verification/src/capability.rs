//! Capability descriptors shared across the agent runtime.

use vstd::prelude::*;

use crate::text::{is_blank, lemma_seq_char_le_total, lemma_seq_char_le_trans, seq_char_le, spec_blank, str_le};

verus! {

/// Errors that can occur while manipulating agent primitive types.
#[derive(Debug, Clone)]
pub enum Error {
    /// Capability identifier failed validation.
    InvalidCapabilityId {
        /// The offending identifier string.
        id: String,
        /// Human-readable reason for rejection.
        reason: String,
    },
    /// Capability or manifest definition failed validation.
    InvalidCapability {
        /// Human-readable reason for rejection.
        reason: String,
    },
}

/// Result alias used throughout the agent runtime primitives.
pub type PrimitiveResult<T> = Result<T, Error>;

/// Whether `c` may appear in a capability identifier: lowercase
/// alphanumerics, dash, underscore, or dot.
pub open spec fn is_id_char(c: char) -> bool {
    ('a' <= c && c <= 'z') || ('0' <= c && c <= '9') || c == '-' || c == '_' || c == '.'
}

/// A valid capability identifier: non-empty, at most 64 characters, all
/// drawn from the identifier alphabet.
pub open spec fn spec_valid_identifier(t: Seq<char>) -> bool {
    &&& 1 <= t.len() <= 64
    &&& forall|i: int| 0 <= i < t.len() ==> is_id_char(t[i])
}

/// A valid scope label: not blank and at most 64 characters.
pub open spec fn spec_valid_scope(t: Seq<char>) -> bool {
    !spec_blank(t) && t.len() <= 64
}

/// Checks a capability identifier against the identifier rules.
///
/// Succeeds exactly on texts that `spec_valid_identifier` accepts; a
/// rejection names the offending identifier.
pub fn validate_identifier(id: &str) -> (r: PrimitiveResult<()>)
    ensures
        r is Ok <==> spec_valid_identifier(id@),
        r matches Err(e) ==> e matches Error::InvalidCapabilityId { id: bad, .. } && bad@ == id@,
{
    let n = id.unicode_len();
    if n == 0 {
        return Err(Error::InvalidCapabilityId {
            id: id.to_owned(),
            reason: "identifier cannot be empty".to_owned(),
        });
    }

    let mut i: usize = 0;
    while i < n
        invariant
            0 <= i <= n,
            n == id@.len(),
            forall|j: int| 0 <= j < i ==> is_id_char(id@[j]),
        decreases n - i,
    {
        let c = id.get_char(i);
        if !(('a' <= c && c <= 'z') || ('0' <= c && c <= '9') || c == '-' || c == '_' || c == '.') {
            return Err(Error::InvalidCapabilityId {
                id: id.to_owned(),
                reason: "identifier must contain lowercase alphanumeric, dash, underscore, or dot"
                    .to_owned(),
            });
        }
        i = i + 1;
    }

    if n > 64 {
        return Err(Error::InvalidCapabilityId {
            id: id.to_owned(),
            reason: "identifier length must be <= 64".to_owned(),
        });
    }

    Ok(())
}

/// Checks a scope label: it must not be blank and must stay within 64
/// characters.
pub fn validate_scope(scope: &str) -> (r: PrimitiveResult<()>)
    ensures
        r is Ok <==> spec_valid_scope(scope@),
{
    if is_blank(scope) {
        return Err(Error::InvalidCapability { reason: "scope cannot be empty".to_owned() });
    }
    if scope.unicode_len() > 64 {
        return Err(Error::InvalidCapability {
            reason: "scope length must be <= 64".to_owned(),
        });
    }
    Ok(())
}

/// Identifier for a capability that an agent may expose.
#[derive(Debug)]
pub struct CapabilityId {
    id: String,
}

impl Clone for CapabilityId {
    fn clone(&self) -> (res: Self)
        ensures
            res.spec_text() == self.spec_text(),
            res.wf() == self.wf(),
    {
        CapabilityId { id: self.id.clone() }
    }
}

impl CapabilityId {
    /// The identifier text.
    pub closed spec fn spec_text(&self) -> Seq<char> {
        self.id@
    }

    /// Every constructed identifier satisfies the identifier rules.
    pub closed spec fn wf(&self) -> bool {
        spec_valid_identifier(self.id@)
    }

    /// Creates a new capability identifier after validating its format.
    ///
    /// Succeeds exactly when the text satisfies the identifier rules.
    pub fn new(id: &str) -> (r: PrimitiveResult<CapabilityId>)
        ensures
            r matches Ok(c) ==> c.spec_text() == id@ && c.wf(),
            r is Ok <==> spec_valid_identifier(id@),
            r matches Err(e) ==> e matches Error::InvalidCapabilityId { id: bad, .. } && bad@
                == id@,
    {
        match validate_identifier(id) {
            Ok(()) => Ok(CapabilityId { id: id.to_owned() }),
            Err(e) => Err(e),
        }
    }

    /// Returns the capability identifier as a string slice.
    pub fn as_str(&self) -> (r: &str)
        ensures
            r@ == self.spec_text(),
    {
        self.id.as_str()
    }

    /// Returns whether two identifiers hold the same text.
    pub fn same_as(&self, other: &CapabilityId) -> (r: bool)
        ensures
            r == (self.spec_text() == other.spec_text()),
    {
        self.id == other.id
    }
}

/// Describes a capability exposed by an agent.
#[derive(Clone, Debug)]
pub struct Capability {
    id: CapabilityId,
    name: String,
    description: Option<String>,
    version: String,
    scopes: Vec<String>,
}

impl Capability {
    /// The unique identifier text.
    pub closed spec fn spec_id(&self) -> Seq<char> {
        self.id.spec_text()
    }

    /// The display name.
    pub closed spec fn spec_name(&self) -> Seq<char> {
        self.name@
    }

    /// The optional description.
    pub closed spec fn spec_description(&self) -> Option<Seq<char>> {
        match self.description {
            Some(d) => Some(d@),
            None => None,
        }
    }

    /// The version text.
    pub closed spec fn spec_version(&self) -> Seq<char> {
        self.version@
    }

    /// The scope labels.
    pub closed spec fn spec_scopes(&self) -> Seq<Seq<char>> {
        self.scopes@.map_values(|s: String| s@)
    }

    /// A well-formed capability: valid identifier, non-blank name and
    /// version, and at least one valid scope.
    pub closed spec fn wf(&self) -> bool {
        &&& spec_valid_identifier(self.id.spec_text())
        &&& !spec_blank(self.name@)
        &&& self.name@.len() <= 96
        &&& !spec_blank(self.version@)
        &&& self.scopes@.len() >= 1
        &&& forall|i: int|
            0 <= i < self.scopes@.len() ==> spec_valid_scope(#[trigger] self.scopes@[i]@)
    }

    /// Starts building a capability descriptor.
    pub fn builder(id: CapabilityId) -> (r: CapabilityBuilder)
        ensures
            r.spec_id() == id.spec_text(),
            r.spec_name() is None,
            r.spec_version() is None,
            r.spec_scopes() == Seq::<Seq<char>>::empty(),
            id.wf() ==> r.id_wf(),
    {
        CapabilityBuilder {
            id,
            name: None,
            description: None,
            version: None,
            scopes: Vec::new(),
        }
    }

    /// Returns the unique capability identifier.
    pub fn id(&self) -> (r: &CapabilityId)
        ensures
            r.spec_text() == self.spec_id(),
    {
        &self.id
    }

    /// Human-friendly capability name.
    pub fn name(&self) -> (r: &str)
        ensures
            r@ == self.spec_name(),
    {
        self.name.as_str()
    }

    /// Optional capability description.
    pub fn description(&self) -> (r: Option<&str>)
        ensures
            match r {
                Some(d) => self.spec_description() == Some(d@),
                None => self.spec_description() is None,
            },
    {
        match &self.description {
            Some(d) => Some(d.as_str()),
            None => None,
        }
    }

    /// Semantic version string of the capability schema.
    pub fn version(&self) -> (r: &str)
        ensures
            r@ == self.spec_version(),
    {
        self.version.as_str()
    }

    /// Capability scopes advertised to the governance engine.
    pub fn scopes(&self) -> (r: &Vec<String>)
        ensures
            r@.map_values(|s: String| s@) == self.spec_scopes(),
    {
        &self.scopes
    }
}

/// How many entries of a label list equal `t`.
pub open spec fn spec_count_label(s: Seq<Seq<char>>, t: Seq<char>) -> nat
    decreases s.len(),
{
    if s.len() == 0 {
        0
    } else {
        spec_count_label(s.drop_last(), t) + if s.last() == t {
            1nat
        } else {
            0nat
        }
    }
}

/// Inserting a label raises its own count by one and no other.
proof fn lemma_label_count_insert(s: Seq<Seq<char>>, p: int, x: Seq<char>, t: Seq<char>)
    requires
        0 <= p <= s.len(),
    ensures
        spec_count_label(s.insert(p, x), t) == spec_count_label(s, t) + if x == t {
            1nat
        } else {
            0nat
        },
    decreases s.len(),
{
    if p == s.len() {
        assert(s.insert(p, x).drop_last() =~= s);
        assert(s.insert(p, x).last() == x);
    } else {
        assert(s.insert(p, x).drop_last() =~= s.drop_last().insert(p, x));
        assert(s.insert(p, x).last() == s.last());
        lemma_label_count_insert(s.drop_last(), p, x, t);
    }
}

/// A held position gives a positive count, and a positive count gives a
/// held position.
proof fn lemma_label_count_contains(s: Seq<Seq<char>>, t: Seq<char>)
    ensures
        spec_count_label(s, t) >= 1 <==> s.contains(t),
    decreases s.len(),
{
    if s.len() > 0 {
        lemma_label_count_contains(s.drop_last(), t);
        if s.last() != t && s.contains(t) {
            let k = choose|k: int| 0 <= k < s.len() && #[trigger] s[k] == t;
            assert(s.drop_last()[k] == t);
        }
        if s.drop_last().contains(t) {
            let k = choose|k: int| 0 <= k < s.drop_last().len() && #[trigger] s.drop_last()[k] == t;
            assert(s[k] == t);
        }
    }
}

/// Whether a label list is sorted under the lexicographic text order.
pub open spec fn sorted_labels(s: Seq<Seq<char>>) -> bool {
    forall|i: int, j: int| 0 <= i <= j < s.len() ==> seq_char_le(#[trigger] s[i], #[trigger] s[j])
}

/// Sorts labels under the lexicographic text order; the result is a
/// permutation of the input.
#[verifier::loop_isolation(false)]
fn sort_labels(labels: Vec<String>) -> (r: Vec<String>)
    ensures
        r.deep_view().len() == labels.deep_view().len(),
        sorted_labels(r.deep_view()),
        forall|t: Seq<char>| #[trigger]
            spec_count_label(r.deep_view(), t) == spec_count_label(labels.deep_view(), t),
{
    let ghost input = labels.deep_view();
    let n = labels.len();
    let mut sorted: Vec<String> = Vec::new();
    let mut i: usize = 0;
    while i < n
        invariant
            0 <= i <= n,
            sorted.deep_view().len() == i,
            sorted_labels(sorted.deep_view()),
            forall|t: Seq<char>| #[trigger]
                spec_count_label(sorted.deep_view(), t) == spec_count_label(
                    input.take(i as int),
                    t,
                ),
        decreases n - i,
    {
        let x = labels[i].clone();
        proof {
            assert(x@ == input[i as int]);
        }
        let m = sorted.len();
        let mut pos: usize = 0;
        while pos < m && str_le(sorted[pos].as_str(), x.as_str())
            invariant
                0 <= pos <= m,
                m == sorted.deep_view().len(),
                forall|k: int|
                    0 <= k < pos ==> seq_char_le(#[trigger] sorted.deep_view()[k], x@),
            decreases m - pos,
        {
            proof {
                assert(sorted.deep_view()[pos as int] == sorted@[pos as int]@);
            }
            pos = pos + 1;
        }
        proof {
            if pos < m {
                assert(sorted.deep_view()[pos as int] == sorted@[pos as int]@);
                lemma_seq_char_le_total(sorted.deep_view()[pos as int], x@);
            }
        }
        let ghost before = sorted.deep_view();
        sorted.insert(pos, x);
        proof {
            assert(sorted.deep_view() =~= before.insert(pos as int, input[i as int]));
            let cur = sorted.deep_view();
            assert forall|a: int, b: int|
                0 <= a <= b < cur.len() implies seq_char_le(#[trigger] cur[a], #[trigger] cur[b]) by {
                if a == b {
                    lemma_seq_char_le_total(cur[a], cur[a]);
                } else if a < pos as int && b == pos as int {
                    assert(cur[a] == before[a]);
                } else if a == pos as int && b > pos as int {
                    assert(cur[b] == before[b - 1]);
                    if pos as int <= b - 1 && pos < m {
                        lemma_seq_char_le_trans(cur[a], before[pos as int], before[b - 1]);
                    }
                } else if a < pos as int && b > pos as int {
                    assert(cur[a] == before[a]);
                    assert(cur[b] == before[b - 1]);
                } else if a != pos as int && b != pos as int {
                    if a < pos as int {
                        assert(cur[a] == before[a]);
                    } else {
                        assert(cur[a] == before[a - 1]);
                    }
                    if b < pos as int {
                        assert(cur[b] == before[b]);
                    } else {
                        assert(cur[b] == before[b - 1]);
                    }
                }
            }
            assert forall|t: Seq<char>| #[trigger]
                spec_count_label(cur, t) == spec_count_label(input.take(i as int + 1), t) by {
                lemma_label_count_insert(before, pos as int, input[i as int], t);
                assert(input.take(i as int + 1).drop_last() =~= input.take(i as int));
                assert(input.take(i as int + 1).last() == input[i as int]);
            }
        }
        i = i + 1;
    }
    proof {
        assert(input.take(n as int) =~= input);
    }
    sorted
}

/// Builder for [`Capability`].
#[derive(Debug)]
pub struct CapabilityBuilder {
    id: CapabilityId,
    name: Option<String>,
    description: Option<String>,
    version: Option<String>,
    scopes: Vec<String>,
}

impl CapabilityBuilder {
    /// The identifier under construction.
    pub closed spec fn spec_id(&self) -> Seq<char> {
        self.id.spec_text()
    }

    /// Whether the identifier was validated at construction.
    pub closed spec fn id_wf(&self) -> bool {
        self.id.wf()
    }

    /// The name, if one has been set.
    pub closed spec fn spec_name(&self) -> Option<Seq<char>> {
        match self.name {
            Some(n) => Some(n@),
            None => None,
        }
    }

    /// The version, if one has been set.
    pub closed spec fn spec_version(&self) -> Option<Seq<char>> {
        match self.version {
            Some(v) => Some(v@),
            None => None,
        }
    }

    /// The description, if one has been set.
    pub closed spec fn spec_description(&self) -> Option<Seq<char>> {
        match self.description {
            Some(d) => Some(d@),
            None => None,
        }
    }

    /// The scopes collected so far.
    pub closed spec fn spec_scopes(&self) -> Seq<Seq<char>> {
        self.scopes@.map_values(|s: String| s@)
    }

    /// The builder's collected state is valid: any set name is non-blank and
    /// within bounds, any set version is non-blank, and all scopes are valid.
    pub closed spec fn wf(&self) -> bool {
        &&& self.id.wf()
        &&& match self.name {
            Some(n) => !spec_blank(n@) && n@.len() <= 96,
            None => true,
        }
        &&& match self.version {
            Some(v) => !spec_blank(v@),
            None => true,
        }
        &&& forall|i: int|
            0 <= i < self.scopes@.len() ==> spec_valid_scope(#[trigger] self.scopes@[i]@)
    }

    /// Sets the display name for the capability.
    ///
    /// Rejects blank names and names longer than 96 characters; everything
    /// else is accepted and recorded.
    pub fn name(self, name: &str) -> (r: PrimitiveResult<CapabilityBuilder>)
        ensures
            r is Ok <==> (!spec_blank(name@) && name@.len() <= 96),
            r matches Ok(b) ==> {
                &&& b.spec_name() == Some(name@)
                &&& b.spec_id() == self.spec_id()
                &&& b.spec_version() == self.spec_version()
                &&& b.spec_description() == self.spec_description()
                &&& b.spec_scopes() == self.spec_scopes()
                &&& self.wf() ==> b.wf()
            },
    {
        if is_blank(name) {
            return Err(Error::InvalidCapability { reason: "name cannot be empty".to_owned() });
        }
        if name.unicode_len() > 96 {
            return Err(Error::InvalidCapability {
                reason: "name length must be <= 96".to_owned(),
            });
        }
        let CapabilityBuilder { id, name: _, description, version, scopes } = self;
        Ok(CapabilityBuilder { id, name: Some(name.to_owned()), description, version, scopes })
    }

    /// Sets an optional description.
    pub fn description(self, description: &str) -> (r: CapabilityBuilder)
        ensures
            r.spec_id() == self.spec_id(),
            r.spec_name() == self.spec_name(),
            r.spec_version() == self.spec_version(),
            r.spec_description() == Some(description@),
            r.spec_scopes() == self.spec_scopes(),
            self.wf() ==> r.wf(),
    {
        let CapabilityBuilder { id, name, description: _, version, scopes } = self;
        CapabilityBuilder { id, name, description: Some(description.to_owned()), version, scopes }
    }

    /// Sets the version string for the capability.
    ///
    /// Rejects blank version strings.
    pub fn version(self, version: &str) -> (r: PrimitiveResult<CapabilityBuilder>)
        ensures
            r is Ok <==> !spec_blank(version@),
            r matches Ok(b) ==> {
                &&& b.spec_version() == Some(version@)
                &&& b.spec_id() == self.spec_id()
                &&& b.spec_name() == self.spec_name()
                &&& b.spec_description() == self.spec_description()
                &&& b.spec_scopes() == self.spec_scopes()
                &&& self.wf() ==> b.wf()
            },
    {
        if is_blank(version) {
            return Err(Error::InvalidCapability {
                reason: "version cannot be empty".to_owned(),
            });
        }
        let CapabilityBuilder { id, name, description, version: _, scopes } = self;
        Ok(CapabilityBuilder { id, name, description, version: Some(version.to_owned()), scopes })
    }

    /// Adds a scope entry, deduplicating repeats.
    ///
    /// Rejects blank scopes and scopes longer than 64 characters.
    pub fn add_scope(self, scope: &str) -> (r: PrimitiveResult<CapabilityBuilder>)
        ensures
            r is Ok <==> spec_valid_scope(scope@),
            r matches Ok(b) ==> {
                &&& b.spec_id() == self.spec_id()
                &&& b.spec_name() == self.spec_name()
                &&& b.spec_version() == self.spec_version()
                &&& b.spec_description() == self.spec_description()
                &&& b.spec_scopes() == (if self.spec_scopes().contains(scope@) {
                    self.spec_scopes()
                } else {
                    self.spec_scopes().push(scope@)
                })
                &&& self.wf() ==> b.wf()
            },
    {
        match validate_scope(scope) {
            Ok(()) => {
                let mut b = self;
                let owned = scope.to_owned();
                let mut present = false;
                let mut i: usize = 0;
                let n = b.scopes.len();
                while i < n
                    invariant
                        0 <= i <= n,
                        n == b.scopes@.len(),
                        owned@ == scope@,
                        present <==> (exists|k: int|
                            0 <= k < i && (#[trigger] b.scopes@[k])@ == scope@),
                    decreases n - i,
                {
                    if b.scopes[i] == owned {
                        present = true;
                    }
                    i = i + 1;
                }
                proof {
                    if present {
                        let k = choose|k: int| 0 <= k < n && (#[trigger] b.scopes@[k])@ == scope@;
                        assert(b.spec_scopes()[k] == scope@);
                        assert(b.spec_scopes().contains(scope@));
                    } else {
                        if b.spec_scopes().contains(scope@) {
                            let k = choose|k: int|
                                0 <= k < b.spec_scopes().len() && #[trigger] b.spec_scopes()[k]
                                    == scope@;
                            assert((b.scopes@[k])@ == scope@);
                        }
                    }
                }
                if !present {
                    let ghost before = b.spec_scopes();
                    b.scopes.push(owned);
                    proof {
                        assert(b.spec_scopes() =~= before.push(scope@));
                    }
                }
                Ok(b)
            },
            Err(e) => Err(e),
        }
    }

    /// Finalises the capability descriptor.
    ///
    /// Succeeds exactly when a name and a version were set and at least one
    /// scope was registered; the capability then carries the collected
    /// fields, with the scopes as a sorted, duplicate-free list under the
    /// lexicographic text order.
    pub fn build(self) -> (r: PrimitiveResult<Capability>)
        ensures
            r is Ok <==> (self.spec_name() is Some && self.spec_version() is Some
                && self.spec_scopes().len() >= 1),
            r matches Ok(c) ==> {
                &&& c.spec_id() == self.spec_id()
                &&& Some(c.spec_name()) == self.spec_name()
                &&& Some(c.spec_version()) == self.spec_version()
                &&& c.spec_description() == self.spec_description()
                &&& c.spec_scopes().len() == self.spec_scopes().len()
                &&& sorted_labels(c.spec_scopes())
                &&& forall|t: Seq<char>| #[trigger]
                    spec_count_label(c.spec_scopes(), t) == spec_count_label(
                        self.spec_scopes(),
                        t,
                    )
                &&& self.wf() ==> c.wf()
            },
    {
        let ghost orig = self;
        let CapabilityBuilder { id, name, description, version, scopes } = self;
        let name = match name {
            Some(n) => n,
            None => {
                return Err(Error::InvalidCapability {
                    reason: "name must be provided".to_owned(),
                });
            },
        };
        let version = match version {
            Some(v) => v,
            None => {
                return Err(Error::InvalidCapability {
                    reason: "version must be provided".to_owned(),
                });
            },
        };
        if scopes.len() == 0 {
            return Err(Error::InvalidCapability {
                reason: "at least one scope must be specified".to_owned(),
            });
        }
        proof {
            assert(orig.spec_scopes() =~= scopes.deep_view());
        }
        let ghost pre = scopes.deep_view();
        let scopes = sort_labels(scopes);
        let ghost post = scopes.deep_view();
        let c = Capability { id, name, description, version, scopes };
        proof {
            assert(c.spec_scopes() =~= post);
            assert forall|t: Seq<char>| #[trigger]
                spec_count_label(c.spec_scopes(), t) == spec_count_label(
                orig.spec_scopes(),
                t,
            ) by {
                assert(spec_count_label(post, t) == spec_count_label(pre, t));
            }
            if orig.wf() {
                assert forall|k: int|
                    0 <= k < c.spec_scopes().len() implies spec_valid_scope(
                    #[trigger] c.spec_scopes()[k],
                ) by {
                    let t = c.spec_scopes()[k];
                    lemma_label_count_contains(c.spec_scopes(), t);
                    assert(c.spec_scopes().contains(t));
                    lemma_label_count_contains(orig.spec_scopes(), t);
                    assert(orig.spec_scopes().contains(t));
                    let j = choose|j: int|
                        0 <= j < orig.spec_scopes().len() && #[trigger] orig.spec_scopes()[j] == t;
                }
                assert forall|i: int|
                    0 <= i < c.scopes@.len() implies spec_valid_scope(
                    (#[trigger] c.scopes@[i])@,
                ) by {
                    assert(c.spec_scopes()[i] == c.scopes@[i]@);
                }
            }
        }
        Ok(c)
    }
}

} // verus!
