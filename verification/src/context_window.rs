//! Context window management with compression strategies: a recent window
//! that is always kept, removal of low-importance history, optional
//! summarisation, and pinned messages that are never dropped.

use vstd::prelude::*;

use crate::volatile::sat_add;

verus! {

/// Errors that can occur during context window management.
#[derive(Debug)]
pub enum ContextError {
    /// Context window budget exceeded.
    BudgetExceeded {
        /// Current token count.
        current: usize,
        /// Maximum allowed tokens.
        max: usize,
    },
    /// Compression failed.
    CompressionError {
        /// Reason for the failure.
        reason: String,
    },
}

/// Result alias for context operations.
pub type ContextResult<T> = Result<T, ContextError>;

/// Mathematical model of a context message.
pub ghost struct ContextMessageModel {
    /// The author role.
    pub role: Seq<char>,
    /// The message text.
    pub content: Seq<char>,
    /// The estimated token count.
    pub estimated_tokens: usize,
    /// The importance score, 0 to 100.
    pub importance: u8,
    /// Whether the message is pinned.
    pub pinned: bool,
}

/// A single message in the context window.
#[derive(Debug)]
pub struct ContextMessage {
    /// Role of the message author.
    pub role: String,
    /// Message content.
    pub content: String,
    /// Estimated token count (approximate).
    pub estimated_tokens: usize,
    /// Importance score (0-100, higher = more important).
    pub importance: u8,
    /// Whether this message should be pinned (never compressed).
    pub pinned: bool,
}

impl View for ContextMessage {
    type V = ContextMessageModel;

    open spec fn view(&self) -> ContextMessageModel {
        ContextMessageModel {
            role: self.role@,
            content: self.content@,
            estimated_tokens: self.estimated_tokens,
            importance: self.importance,
            pinned: self.pinned,
        }
    }
}

impl DeepView for ContextMessage {
    type V = ContextMessageModel;

    open spec fn deep_view(&self) -> ContextMessageModel {
        self.view()
    }
}

impl Clone for ContextMessage {
    fn clone(&self) -> (res: Self)
        ensures
            res@ == self@,
    {
        ContextMessage {
            role: self.role.clone(),
            content: self.content.clone(),
            estimated_tokens: self.estimated_tokens,
            importance: self.importance,
            pinned: self.pinned,
        }
    }
}

/// The estimated token count of a text: roughly one token per four
/// characters, and at least one.
pub open spec fn spec_estimate_tokens(chars_len: nat) -> nat {
    if chars_len / 4 >= 1 {
        chars_len / 4
    } else {
        1
    }
}

/// Estimates the token count for a given text, from its character length.
pub fn estimate_tokens(text: &str) -> (r: usize)
    ensures
        r == spec_estimate_tokens(text@.len()),
{
    let quarter = text.unicode_len() / 4;
    if quarter >= 1 {
        quarter
    } else {
        1
    }
}

impl ContextMessage {
    /// Creates a new context message with medium importance and an
    /// estimated token count derived from the content length.
    pub fn new(role: &str, content: &str) -> (r: ContextMessage)
        ensures
            r@.role == role@,
            r@.content == content@,
            r@.estimated_tokens == spec_estimate_tokens(content@.len()),
            r@.importance == 50,
            !r@.pinned,
    {
        let estimated_tokens = estimate_tokens(content);
        ContextMessage {
            role: role.to_owned(),
            content: content.to_owned(),
            estimated_tokens,
            importance: 50,
            pinned: false,
        }
    }

    /// Sets the importance score, clamped to 100.
    pub fn with_importance(self, importance: u8) -> (r: ContextMessage)
        ensures
            r@ == (ContextMessageModel {
                importance: if importance <= 100 {
                    importance
                } else {
                    100
                },
                ..self@
            }),
    {
        let clamped = if importance <= 100 {
            importance
        } else {
            100
        };
        let ContextMessage { role, content, estimated_tokens, importance: _, pinned } = self;
        ContextMessage { role, content, estimated_tokens, importance: clamped, pinned }
    }

    /// Marks this message as pinned (never compressed).
    pub fn pinned(self) -> (r: ContextMessage)
        ensures
            r@ == (ContextMessageModel { pinned: true, ..self@ }),
    {
        let ContextMessage { role, content, estimated_tokens, importance, pinned: _ } = self;
        ContextMessage { role, content, estimated_tokens, importance, pinned: true }
    }
}

/// Configuration for context window management.
#[derive(Debug, Clone)]
pub struct ContextWindowConfig {
    /// Maximum tokens allowed in the context window.
    pub max_tokens: usize,
    /// Number of recent messages to always keep.
    pub recent_window_size: usize,
    /// Minimum importance score to preserve during compression (0-100).
    pub min_importance_threshold: u8,
    /// Whether to enable automatic summarization.
    pub enable_summarization: bool,
}

impl Default for ContextWindowConfig {
    /// The default budget: 8192 tokens, a recent window of 10, an
    /// importance threshold of 30, summarisation enabled.
    fn default() -> (r: Self)
        ensures
            r.max_tokens == 8192,
            r.recent_window_size == 10,
            r.min_importance_threshold == 30,
            r.enable_summarization,
    {
        ContextWindowConfig {
            max_tokens: 8192,
            recent_window_size: 10,
            min_importance_threshold: 30,
            enable_summarization: true,
        }
    }
}

/// Whether `xs` is a subsequence of `ys` (same order, possibly fewer
/// elements).
pub open spec fn subsequence_of(xs: Seq<ContextMessageModel>, ys: Seq<ContextMessageModel>) -> bool
    decreases xs.len() + ys.len(),
{
    if xs.len() == 0 {
        true
    } else if ys.len() == 0 {
        false
    } else if xs.last() == ys.last() {
        subsequence_of(xs.drop_last(), ys.drop_last())
    } else {
        subsequence_of(xs, ys.drop_last())
    }
}

/// A subsequence stays one after dropping its own last element.
proof fn lemma_subsequence_drop_last(xs: Seq<ContextMessageModel>, ys: Seq<ContextMessageModel>)
    requires
        subsequence_of(xs, ys),
        xs.len() >= 1,
    ensures
        subsequence_of(xs.drop_last(), ys),
    decreases ys.len(), 0int,
{
    if ys.len() == 0 {
    } else if xs.last() == ys.last() {
        if xs.drop_last().len() == 0 {
        } else {
            lemma_subsequence_drop_last(xs.drop_last(), ys.drop_last());
            lemma_subsequence_extend(xs.drop_last().drop_last(), ys.drop_last(), ys.last());
            assert(ys.drop_last().push(ys.last()) =~= ys);
        }
    } else {
        lemma_subsequence_drop_last(xs, ys.drop_last());
        lemma_subsequence_extend(xs.drop_last(), ys.drop_last(), ys.last());
        assert(ys.drop_last().push(ys.last()) =~= ys);
    }
}

/// A subsequence survives appending to the larger sequence.
proof fn lemma_subsequence_extend(
    xs: Seq<ContextMessageModel>,
    ys: Seq<ContextMessageModel>,
    e: ContextMessageModel,
)
    requires
        subsequence_of(xs, ys),
    ensures
        subsequence_of(xs, ys.push(e)),
    decreases ys.len(), 1int,
{
    let zs = ys.push(e);
    assert(zs.drop_last() =~= ys);
    if xs.len() == 0 {
    } else if xs.last() == e {
        lemma_subsequence_drop_last(xs, ys);
    } else {
    }
}

/// Appending the same element to both sides preserves the subsequence
/// relation.
proof fn lemma_subsequence_push_both(
    xs: Seq<ContextMessageModel>,
    ys: Seq<ContextMessageModel>,
    e: ContextMessageModel,
)
    requires
        subsequence_of(xs, ys),
    ensures
        subsequence_of(xs.push(e), ys.push(e)),
{
    assert(xs.push(e).last() == ys.push(e).last());
    assert(xs.push(e).drop_last() =~= xs);
    assert(ys.push(e).drop_last() =~= ys);
}

/// Dropping the first element of the larger sequence preserves containment
/// of sequences that do not use it; stated for the front-eviction loop.
proof fn lemma_subsequence_drop_first(ys: Seq<ContextMessageModel>)
    requires
        ys.len() >= 1,
    ensures
        subsequence_of(ys.drop_first(), ys),
    decreases ys.len(),
{
    if ys.len() == 1 {
        assert(ys.drop_first() =~= Seq::<ContextMessageModel>::empty());
    } else {
        assert(ys.drop_first().last() == ys.last());
        assert(ys.drop_first().drop_last() =~= ys.drop_last().drop_first());
        lemma_subsequence_drop_first(ys.drop_last());
        assert(ys.drop_last().drop_first() =~= ys.drop_first().drop_last());
    }
}

/// The subsequence relation is transitive.
proof fn lemma_subsequence_trans(
    xs: Seq<ContextMessageModel>,
    ys: Seq<ContextMessageModel>,
    zs: Seq<ContextMessageModel>,
)
    requires
        subsequence_of(xs, ys),
        subsequence_of(ys, zs),
    ensures
        subsequence_of(xs, zs),
    decreases zs.len(),
{
    if xs.len() == 0 {
    } else if ys.len() == 0 {
    } else if zs.len() == 0 {
    } else {
        if ys.last() == zs.last() {
            if xs.last() == ys.last() {
                lemma_subsequence_trans(xs.drop_last(), ys.drop_last(), zs.drop_last());
                assert(xs.last() == zs.last());
            } else {
                lemma_subsequence_trans(xs, ys.drop_last(), zs.drop_last());
                lemma_subsequence_extend(xs, zs.drop_last(), zs.last());
                assert(zs.drop_last().push(zs.last()) =~= zs);
            }
        } else {
            lemma_subsequence_trans(xs, ys, zs.drop_last());
            lemma_subsequence_extend(xs, zs.drop_last(), zs.last());
            assert(zs.drop_last().push(zs.last()) =~= zs);
        }
    }
}

/// A subsequence of messages keeps every pinned message it was asked to
/// keep; pinned preservation is stated directly via `contains`.
pub open spec fn keeps_pinned(
    before: Seq<ContextMessageModel>,
    after: Seq<ContextMessageModel>,
) -> bool {
    forall|m: ContextMessageModel|
        #[trigger] before.contains(m) && m.pinned ==> after.contains(m)
}

/// Manages a context window with compression.
#[derive(Debug)]
pub struct ContextWindowManager {
    config: ContextWindowConfig,
    messages: Vec<ContextMessage>,
    summarized_history: Option<String>,
    current_tokens: usize,
}

impl ContextWindowManager {
    /// The messages currently held, oldest first.
    pub closed spec fn spec_messages(&self) -> Seq<ContextMessageModel> {
        self.messages.deep_view()
    }

    /// The current token counter.
    pub closed spec fn spec_current_tokens(&self) -> usize {
        self.current_tokens
    }

    /// The configured budget.
    pub closed spec fn spec_max_tokens(&self) -> usize {
        self.config.max_tokens
    }

    /// The summarised history, if any.
    pub closed spec fn spec_summarized_history(&self) -> Option<Seq<char>> {
        match self.summarized_history {
            Some(s) => Some(s@),
            None => None,
        }
    }

    /// Creates a new context window manager with the supplied
    /// configuration.
    pub fn new(config: ContextWindowConfig) -> (r: ContextWindowManager)
        ensures
            r.spec_messages() == Seq::<ContextMessageModel>::empty(),
            r.spec_current_tokens() == 0,
            r.spec_max_tokens() == config.max_tokens,
            r.spec_summarized_history() is None,
    {
        let r = ContextWindowManager {
            config,
            messages: Vec::new(),
            summarized_history: None,
            current_tokens: 0,
        };
        proof {
            assert(r.spec_messages() =~= Seq::<ContextMessageModel>::empty());
        }
        r
    }

    /// Adds a message to the context window. When the counter passes the
    /// budget, compression runs: what remains is a subsequence of the old
    /// messages plus the new one, and every pinned message survives.
    pub fn add_message(&mut self, message: ContextMessage)
        ensures
            final(self).spec_max_tokens() == old(self).spec_max_tokens(),
            subsequence_of(final(self).spec_messages(), old(self).spec_messages().push(message@)),
            keeps_pinned(old(self).spec_messages().push(message@), final(self).spec_messages()),
            sat_add(
                old(self).spec_current_tokens() as nat,
                message@.estimated_tokens as nat,
            ) <= old(self).spec_max_tokens() ==> final(self).spec_messages() == old(
                self,
            ).spec_messages().push(message@) && final(self).spec_current_tokens() == sat_add(
                old(self).spec_current_tokens() as nat,
                message@.estimated_tokens as nat,
            ),
    {
        let ghost m_model = message@;
        self.current_tokens = match self.current_tokens.checked_add(message.estimated_tokens) {
            Some(v) => v,
            None => usize::MAX,
        };
        self.messages.push(message);
        let ghost appended = self.messages.deep_view();
        proof {
            assert(appended =~= old(self).spec_messages().push(m_model));
            lemma_subsequence_refl(old(self).spec_messages());
            lemma_subsequence_push_both(
                old(self).spec_messages(),
                old(self).spec_messages(),
                m_model,
            );
        }
        if self.current_tokens > self.config.max_tokens {
            self.compress();
            proof {
                lemma_subsequence_refl(appended);
            }
        } else {
            proof {
                lemma_subsequence_refl(appended);
            }
        }
    }

    /// Returns all messages in the context window, oldest first.
    #[verifier::loop_isolation(false)]
    pub fn get_messages(&self) -> (r: Vec<ContextMessage>)
        ensures
            r.deep_view() == self.spec_messages(),
    {
        let n = self.messages.len();
        let mut out: Vec<ContextMessage> = Vec::new();
        let mut i: usize = 0;
        while i < n
            invariant
                0 <= i <= n,
                out.deep_view() =~= self.spec_messages().take(i as int),
            decreases n - i,
        {
            let ghost prev = out.deep_view();
            let c = self.messages[i].clone();
            proof {
                assert(c@ == self.messages@[i as int]@);
            }
            out.push(c);
            proof {
                assert(out.deep_view() =~= prev.push(c.deep_view()));
                assert(c.deep_view() == self.spec_messages()[i as int]);
                assert(out.deep_view() =~= self.spec_messages().take(i as int + 1));
            }
            i = i + 1;
        }
        proof {
            assert(self.spec_messages().take(n as int) =~= self.spec_messages());
        }
        out
    }

    /// Returns the summarised history if available.
    pub fn summarized_history(&self) -> (r: Option<&str>)
        ensures
            match r {
                Some(s) => self.spec_summarized_history() == Some(s@),
                None => self.spec_summarized_history() is None,
            },
    {
        match &self.summarized_history {
            Some(s) => Some(s.as_str()),
            None => None,
        }
    }

    /// Returns the current token count.
    pub fn current_tokens(&self) -> (r: usize)
        ensures
            r == self.spec_current_tokens(),
    {
        self.current_tokens
    }

    /// Returns the maximum token budget.
    pub fn max_tokens(&self) -> (r: usize)
        ensures
            r == self.spec_max_tokens(),
    {
        self.config.max_tokens
    }

    /// Clears all messages, the summary, and the counter.
    pub fn clear(&mut self)
        ensures
            final(self).spec_messages() == Seq::<ContextMessageModel>::empty(),
            final(self).spec_current_tokens() == 0,
            final(self).spec_summarized_history() is None,
            final(self).spec_max_tokens() == old(self).spec_max_tokens(),
    {
        self.messages = Vec::new();
        self.summarized_history = None;
        self.current_tokens = 0;
        proof {
            assert(self.spec_messages() =~= Seq::<ContextMessageModel>::empty());
        }
    }

    /// Compresses the context window: drops low-importance history outside
    /// the recent window, summarises older messages when enabled and still
    /// over budget, and finally evicts from the front, never past a pinned
    /// message. What remains is a subsequence of what was there, and every
    /// pinned message survives.
    #[verifier::loop_isolation(false)]
    fn compress(&mut self)
        ensures
            final(self).spec_max_tokens() == old(self).spec_max_tokens(),
            subsequence_of(final(self).spec_messages(), old(self).spec_messages()),
            keeps_pinned(old(self).spec_messages(), final(self).spec_messages()),
    {
        let ghost start = self.spec_messages();
        let len0 = self.messages.len();
        let recent_count = if self.config.recent_window_size <= len0 {
            self.config.recent_window_size
        } else {
            len0
        };
        let keep_from = len0 - recent_count;

        // Strategy 1: drop low-importance, unpinned messages outside the
        // recent window.
        let mut kept: Vec<ContextMessage> = Vec::new();
        let mut i: usize = 0;
        while i < len0
            invariant
                0 <= i <= len0,
                len0 == self.messages@.len(),
                self.spec_messages() == start,
                self.config == old(self).config,
                subsequence_of(kept.deep_view(), start.take(i as int)),
                forall|m: ContextMessageModel|
                    #[trigger] start.take(i as int).contains(m) && m.pinned
                        ==> kept.deep_view().contains(m),
            decreases len0 - i,
        {
            let keep = i >= keep_from || self.messages[i].pinned || self.messages[i].importance
                >= self.config.min_importance_threshold;
            let ghost kept_before = kept.deep_view();
            let ghost e = start[i as int];
            if keep {
                kept.push(self.messages[i].clone());
                proof {
                    assert(kept.deep_view() =~= kept_before.push(e));
                    lemma_subsequence_push_both(kept_before, start.take(i as int), e);
                    assert(start.take(i as int).push(e) =~= start.take(i as int + 1));
                }
            } else {
                let dropped = self.messages[i].estimated_tokens;
                self.current_tokens = if self.current_tokens >= dropped {
                    self.current_tokens - dropped
                } else {
                    0
                };
                proof {
                    lemma_subsequence_extend(kept_before, start.take(i as int), e);
                    assert(start.take(i as int).push(e) =~= start.take(i as int + 1));
                }
            }
            proof {
                assert forall|m: ContextMessageModel|
                    #[trigger] start.take(i as int + 1).contains(m) && m.pinned implies kept
                    .deep_view().contains(m) by {
                    let j = choose|j: int|
                        0 <= j < i as int + 1 && #[trigger] start.take(i as int + 1)[j] == m;
                    if j < i as int {
                        assert(start.take(i as int)[j] == m);
                        assert(start.take(i as int).contains(m));
                        assert(kept_before.contains(m));
                        if keep {
                            let k = choose|k: int|
                                0 <= k < kept_before.len() && #[trigger] kept_before[k] == m;
                            assert(kept.deep_view()[k] == m);
                        }
                    } else {
                        assert(m == e);
                        if keep {
                            assert(kept.deep_view().last() == e);
                        } else {
                            assert(!e.pinned);
                        }
                    }
                }
            }
            i = i + 1;
        }
        proof {
            assert(start.take(len0 as int) =~= start);
            assert(subsequence_of(kept.deep_view(), start));
            assert forall|m: ContextMessageModel| #[trigger]
                start.contains(m) && m.pinned implies kept.deep_view().contains(m) by {
                assert(start.take(len0 as int).contains(m));
            }
        }
        self.messages = kept;
        let ghost after1 = self.spec_messages();

        // Strategy 2: if still over budget, summarise older messages.
        proof {
            lemma_subsequence_refl(after1);
        }
        if self.current_tokens > self.config.max_tokens && self.config.enable_summarization {
            self.summarize_older_messages();
        }
        let ghost after2 = self.spec_messages();
        proof {
            lemma_subsequence_trans(after2, after1, start);
            lemma_subsequence_refl(after2);
        }

        // Strategy 3: if still over budget, evict from the front, stopping
        // at a pinned message.
        while self.current_tokens > self.config.max_tokens && self.messages.len() > recent_count
            invariant
                subsequence_of(self.spec_messages(), after2),
                keeps_pinned(after2, self.spec_messages()),
                self.config == old(self).config,
            decreases self.messages.len(),
        {
            let ghost cur = self.spec_messages();
            if self.messages[0].pinned {
                break ;
            }
            let removed = self.messages.remove(0);
            let dropped = removed.estimated_tokens;
            self.current_tokens = if self.current_tokens >= dropped {
                self.current_tokens - dropped
            } else {
                0
            };
            proof {
                assert(self.spec_messages() =~= cur.drop_first());
                lemma_subsequence_drop_first(cur);
                lemma_subsequence_trans(self.spec_messages(), cur, after2);
                assert forall|m: ContextMessageModel|
                    #[trigger] after2.contains(m) && m.pinned implies self.spec_messages()
                    .contains(m) by {
                    assert(cur.contains(m));
                    let j = choose|j: int| 0 <= j < cur.len() && #[trigger] cur[j] == m;
                    assert(!cur[0].pinned);
                    assert(j >= 1);
                    assert(cur.drop_first()[j - 1] == m);
                }
            }
        }
        proof {
            lemma_subsequence_trans(self.spec_messages(), after2, start);
            assert forall|m: ContextMessageModel| #[trigger]
                start.contains(m) && m.pinned implies self.spec_messages().contains(m) by {
                assert(after1.contains(m));
                assert(after2.contains(m));
            }
        }
    }

    /// Summarises messages outside the recent window that are not pinned,
    /// replacing them with a summary text. The kept messages are a
    /// subsequence of what was there, and every pinned message survives.
    #[verifier::loop_isolation(false)]
    fn summarize_older_messages(&mut self)
        ensures
            final(self).spec_max_tokens() == old(self).spec_max_tokens(),
            subsequence_of(final(self).spec_messages(), old(self).spec_messages()),
            keeps_pinned(old(self).spec_messages(), final(self).spec_messages()),
            final(self).config == old(self).config,
    {
        let ghost start = self.spec_messages();
        let len0 = self.messages.len();
        let recent_count = if self.config.recent_window_size <= len0 {
            self.config.recent_window_size
        } else {
            len0
        };
        if len0 <= recent_count {
            proof {
                lemma_subsequence_refl(start);
            }
            return ;
        }
        let keep_from = len0 - recent_count;

        let mut kept: Vec<ContextMessage> = Vec::new();
        let mut summarized: Vec<ContextMessage> = Vec::new();
        let mut i: usize = 0;
        while i < len0
            invariant
                0 <= i <= len0,
                len0 == self.messages@.len(),
                self.spec_messages() == start,
                subsequence_of(kept.deep_view(), start.take(i as int)),
                forall|m: ContextMessageModel|
                    #[trigger] start.take(i as int).contains(m) && m.pinned
                        ==> kept.deep_view().contains(m),
            decreases len0 - i,
        {
            let keep = i >= keep_from || self.messages[i].pinned;
            let ghost kept_before = kept.deep_view();
            let ghost e = start[i as int];
            if keep {
                kept.push(self.messages[i].clone());
                proof {
                    assert(kept.deep_view() =~= kept_before.push(e));
                    lemma_subsequence_push_both(kept_before, start.take(i as int), e);
                    assert(start.take(i as int).push(e) =~= start.take(i as int + 1));
                }
            } else {
                summarized.push(self.messages[i].clone());
                proof {
                    lemma_subsequence_extend(kept_before, start.take(i as int), e);
                    assert(start.take(i as int).push(e) =~= start.take(i as int + 1));
                }
            }
            proof {
                assert forall|m: ContextMessageModel|
                    #[trigger] start.take(i as int + 1).contains(m) && m.pinned implies kept
                    .deep_view().contains(m) by {
                    let j = choose|j: int|
                        0 <= j < i as int + 1 && #[trigger] start.take(i as int + 1)[j] == m;
                    if j < i as int {
                        assert(start.take(i as int)[j] == m);
                        assert(start.take(i as int).contains(m));
                        assert(kept_before.contains(m));
                        if keep {
                            let k = choose|k: int|
                                0 <= k < kept_before.len() && #[trigger] kept_before[k] == m;
                            assert(kept.deep_view()[k] == m);
                        }
                    } else {
                        assert(m == e);
                        if keep {
                            assert(kept.deep_view().last() == e);
                        } else {
                            assert(!e.pinned);
                        }
                    }
                }
            }
            i = i + 1;
        }
        proof {
            assert(start.take(len0 as int) =~= start);
            assert(subsequence_of(kept.deep_view(), start));
            assert forall|m: ContextMessageModel| #[trigger]
                start.contains(m) && m.pinned implies kept.deep_view().contains(m) by {
                assert(start.take(len0 as int).contains(m));
            }
        }

        if summarized.len() > 0 {
            let summary = create_simple_summary(&summarized);
            let mut j: usize = 0;
            let m = summarized.len();
            while j < m
                invariant
                    0 <= j <= m,
                    m == summarized@.len(),
                    self.config == old(self).config,
                    self.messages@ == old(self).messages@,
                decreases m - j,
            {
                let dropped = summarized[j].estimated_tokens;
                self.current_tokens = if self.current_tokens >= dropped {
                    self.current_tokens - dropped
                } else {
                    0
                };
                j = j + 1;
            }
            let extra = estimate_tokens(summary.as_str());
            self.current_tokens = match self.current_tokens.checked_add(extra) {
                Some(v) => v,
                None => usize::MAX,
            };
            self.summarized_history = Some(summary);
            self.messages = kept;
        } else {
            proof {
                lemma_subsequence_refl(start);
            }
        }
    }
}

/// The subsequence relation is reflexive.
proof fn lemma_subsequence_refl(xs: Seq<ContextMessageModel>)
    ensures
        subsequence_of(xs, xs),
    decreases xs.len(),
{
    if xs.len() > 0 {
        lemma_subsequence_refl(xs.drop_last());
    }
}

/// The decimal digits of a number, most significant first.
pub open spec fn spec_decimal(n: nat) -> Seq<char>
    decreases n,
{
    if n < 10 {
        seq![spec_digit_char(n)]
    } else {
        spec_decimal(n / 10).push(spec_digit_char(n % 10))
    }
}

/// The character for one decimal digit.
pub open spec fn spec_digit_char(d: nat) -> char {
    if d == 0 {
        '0'
    } else if d == 1 {
        '1'
    } else if d == 2 {
        '2'
    } else if d == 3 {
        '3'
    } else if d == 4 {
        '4'
    } else if d == 5 {
        '5'
    } else if d == 6 {
        '6'
    } else if d == 7 {
        '7'
    } else if d == 8 {
        '8'
    } else {
        '9'
    }
}

/// Appends the character for one decimal digit.
fn push_digit(out: &mut String, d: usize)
    requires
        d < 10,
    ensures
        final(out)@ == old(out)@.push(spec_digit_char(d as nat)),
{
    let ghost prior = out@;
    if d == 0 {
        out.append("0");
        proof {
            reveal_strlit("0");
        }
    } else if d == 1 {
        out.append("1");
        proof {
            reveal_strlit("1");
        }
    } else if d == 2 {
        out.append("2");
        proof {
            reveal_strlit("2");
        }
    } else if d == 3 {
        out.append("3");
        proof {
            reveal_strlit("3");
        }
    } else if d == 4 {
        out.append("4");
        proof {
            reveal_strlit("4");
        }
    } else if d == 5 {
        out.append("5");
        proof {
            reveal_strlit("5");
        }
    } else if d == 6 {
        out.append("6");
        proof {
            reveal_strlit("6");
        }
    } else if d == 7 {
        out.append("7");
        proof {
            reveal_strlit("7");
        }
    } else if d == 8 {
        out.append("8");
        proof {
            reveal_strlit("8");
        }
    } else {
        out.append("9");
        proof {
            reveal_strlit("9");
        }
    }
    proof {
        assert(final(out)@ =~= prior.push(spec_digit_char(d as nat)));
    }
}

/// Appends the decimal digits of `n`.
fn push_decimal(out: &mut String, n: usize)
    ensures
        final(out)@ == old(out)@ + spec_decimal(n as nat),
    decreases n,
{
    if n >= 10 {
        push_decimal(out, n / 10);
        push_digit(out, n % 10);
        proof {
            assert(final(out)@ =~= old(out)@ + spec_decimal(n as nat));
        }
    } else {
        push_digit(out, n);
        proof {
            assert(final(out)@ =~= old(out)@ + spec_decimal(n as nat));
        }
    }
}

/// How many messages of a role a list holds.
pub open spec fn spec_count_role(msgs: Seq<ContextMessageModel>, role: Seq<char>) -> nat
    decreases msgs.len(),
{
    if msgs.len() == 0 {
        0
    } else {
        spec_count_role(msgs.drop_last(), role) + if msgs.last().role == role {
            1nat
        } else {
            0nat
        }
    }
}

/// The summary line for a list of messages: a heading, the user and
/// assistant counts, the tool-call count when there is one, and a final
/// period.
pub open spec fn spec_summary(msgs: Seq<ContextMessageModel>) -> Seq<char> {
    let users = spec_count_role(msgs, "user"@);
    let assistants = spec_count_role(msgs, "assistant"@);
    let tools = spec_count_role(msgs, "tool"@);
    "[Earlier conversation summary]\n"@ + "Exchanged "@ + spec_decimal(users)
        + " user messages, "@ + spec_decimal(assistants) + " assistant responses"@ + (if tools > 0 {
        ", "@ + spec_decimal(tools) + " tool calls"@
    } else {
        Seq::<char>::empty()
    }) + "."@
}

/// Creates a simple textual summary of messages: their counts by role.
pub fn create_simple_summary(messages: &Vec<ContextMessage>) -> (r: String)
    ensures
        r@ == spec_summary(messages.deep_view()),
{
    proof {
        reveal_strlit("user");
        reveal_strlit("assistant");
        reveal_strlit("tool");
    }
    let user_label: String = String::from_str("user");
    let assistant_label: String = String::from_str("assistant");
    let tool_label: String = String::from_str("tool");

    let n = messages.len();
    let mut user_count: usize = 0;
    let mut assistant_count: usize = 0;
    let mut tool_count: usize = 0;
    let mut i: usize = 0;
    proof {
        assert(messages.deep_view().take(0) =~= Seq::<ContextMessageModel>::empty());
    }
    while i < n
        invariant
            0 <= i <= n,
            n == messages@.len(),
            user_label@ == "user"@,
            assistant_label@ == "assistant"@,
            tool_label@ == "tool"@,
            user_count == spec_count_role(messages.deep_view().take(i as int), "user"@),
            assistant_count == spec_count_role(messages.deep_view().take(i as int), "assistant"@),
            tool_count == spec_count_role(messages.deep_view().take(i as int), "tool"@),
            user_count <= i && assistant_count <= i && tool_count <= i,
        decreases n - i,
    {
        proof {
            assert(messages.deep_view().take(i as int + 1).drop_last() =~= messages.deep_view()
                .take(i as int));
            assert(messages.deep_view().take(i as int + 1).last() == messages.deep_view()[i as int]);
            assert(messages.deep_view()[i as int].role == messages@[i as int].role@);
            reveal_strlit("user");
            reveal_strlit("assistant");
            reveal_strlit("tool");
            assert("user"@.len() == 4 && "assistant"@.len() == 9 && "tool"@.len() == 4);
            assert("user"@[0] == 'u' && "tool"@[0] == 't');
            assert("user"@ != "assistant"@ && "user"@ != "tool"@ && "assistant"@ != "tool"@);
        }
        if messages[i].role == user_label {
            user_count = user_count + 1;
        } else if messages[i].role == assistant_label {
            assistant_count = assistant_count + 1;
        } else if messages[i].role == tool_label {
            tool_count = tool_count + 1;
        }
        i = i + 1;
    }
    proof {
        assert(messages.deep_view().take(n as int) =~= messages.deep_view());
    }

    let mut summary = String::from_str("[Earlier conversation summary]\n");
    summary.append("Exchanged ");
    push_decimal(&mut summary, user_count);
    summary.append(" user messages, ");
    push_decimal(&mut summary, assistant_count);
    summary.append(" assistant responses");
    if tool_count > 0 {
        summary.append(", ");
        push_decimal(&mut summary, tool_count);
        summary.append(" tool calls");
    }
    summary.append(".");
    proof {
        assert(summary@ =~= spec_summary(messages.deep_view()));
    }
    summary
}

} // verus!
