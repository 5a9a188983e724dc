//! A small string-keyed metadata map used by policy contexts and memory
//! records, with plain values.

use vstd::prelude::*;

verus! {

/// Mathematical model of a metadata value.
pub ghost enum MetaValueModel {
    /// Free text.
    Text(Seq<char>),
    /// A numeric count.
    Count(u64),
    /// A list of labels.
    Labels(Seq<Seq<char>>),
}

/// A metadata value: free text, a count, or a list of labels.
#[derive(Debug)]
pub enum MetaValue {
    /// Free text.
    Text(String),
    /// A numeric count.
    Count(u64),
    /// A list of labels.
    Labels(Vec<String>),
}

impl View for MetaValue {
    type V = MetaValueModel;

    open spec fn view(&self) -> MetaValueModel {
        match self {
            MetaValue::Text(s) => MetaValueModel::Text(s@),
            MetaValue::Count(n) => MetaValueModel::Count(*n),
            MetaValue::Labels(v) => MetaValueModel::Labels(v.deep_view()),
        }
    }
}

impl Clone for MetaValue {
    fn clone(&self) -> (res: Self)
        ensures
            res@ == self@,
    {
        match self {
            MetaValue::Text(s) => MetaValue::Text(s.clone()),
            MetaValue::Count(n) => MetaValue::Count(*n),
            MetaValue::Labels(v) => {
                let c = v.clone();
                proof {
                    assert(c.deep_view() =~= v.deep_view());
                }
                MetaValue::Labels(c)
            },
        }
    }
}

/// The value associated with `key` in an entry list, where a later entry
/// for the same key supersedes an earlier one.
pub open spec fn assoc_get(s: Seq<(Seq<char>, MetaValueModel)>, key: Seq<char>) -> Option<
    MetaValueModel,
>
    decreases s.len(),
{
    if s.len() == 0 {
        None
    } else if s.last().0 == key {
        Some(s.last().1)
    } else {
        assoc_get(s.drop_last(), key)
    }
}

/// Metadata attached to a request context or memory record: a map from
/// string keys to [`MetaValue`]s.
#[derive(Debug)]
pub struct MetaMap {
    entries: Vec<(String, MetaValue)>,
}

impl View for MetaMap {
    type V = Seq<(Seq<char>, MetaValueModel)>;

    closed spec fn view(&self) -> Seq<(Seq<char>, MetaValueModel)> {
        self.entries@.map_values(|p: (String, MetaValue)| (p.0@, p.1@))
    }
}

impl Clone for MetaMap {
    fn clone(&self) -> (res: Self)
        ensures
            res@ == self@,
    {
        let mut entries: Vec<(String, MetaValue)> = Vec::new();
        let n = self.entries.len();
        let mut i: usize = 0;
        while i < n
            invariant
                0 <= i <= n,
                n == self.entries@.len(),
                entries@.len() == i,
                forall|j: int|
                    0 <= j < i ==> (#[trigger] entries@[j]).0@ == self.entries@[j].0@
                        && entries@[j].1@ == self.entries@[j].1@,
            decreases n - i,
        {
            let (k, v) = (&self.entries[i].0, &self.entries[i].1);
            entries.push((k.clone(), v.clone()));
            i = i + 1;
        }
        let res = MetaMap { entries };
        proof {
            assert forall|j: int| 0 <= j < n implies res@[j] == self@[j] by {
                assert(res@[j] == (entries@[j].0@, entries@[j].1@));
                assert(self@[j] == (self.entries@[j].0@, self.entries@[j].1@));
            }
            assert(res@ =~= self@);
        }
        res
    }
}

impl MetaMap {
    /// The value stored under `key`, if any.
    pub open spec fn spec_get(&self, key: Seq<char>) -> Option<MetaValueModel> {
        assoc_get(self@, key)
    }

    /// Whether `key` is present.
    pub open spec fn spec_contains(&self, key: Seq<char>) -> bool {
        self.spec_get(key) is Some
    }

    /// Creates an empty map.
    pub fn new() -> (r: MetaMap)
        ensures
            r@ == Seq::<(Seq<char>, MetaValueModel)>::empty(),
    {
        let r = MetaMap { entries: Vec::new() };
        proof {
            assert(r@ =~= Seq::<(Seq<char>, MetaValueModel)>::empty());
        }
        r
    }

    /// The number of entries recorded (an entry superseded by a later one
    /// for the same key still counts).
    pub fn len(&self) -> (r: usize)
        ensures
            r == self@.len(),
    {
        self.entries.len()
    }

    /// Whether no entry has been recorded.
    pub fn is_empty(&self) -> (r: bool)
        ensures
            r == (self@.len() == 0),
    {
        self.entries.len() == 0
    }

    /// Records `value` under `key`, superseding any earlier entry for the
    /// same key; every other key keeps its value.
    pub fn insert(&mut self, key: &str, value: MetaValue)
        ensures
            final(self)@ == old(self)@.push((key@, value@)),
            final(self).spec_get(key@) == Some(value@),
            forall|k: Seq<char>|
                k != key@ ==> #[trigger] final(self).spec_get(k) == old(self).spec_get(k),
    {
        let ghost value_model = value@;
        let owned: String = key.to_owned();
        self.entries.push((owned, value));
        proof {
            assert(self@ =~= old(self)@.push((key@, value_model)));
            assert(self@.last() == (key@, value_model));
            assert(self@.drop_last() =~= old(self)@);
        }
    }

    /// Returns the value stored under `key`, if any.
    pub fn get(&self, key: &str) -> (r: Option<&MetaValue>)
        ensures
            match r {
                Some(v) => self.spec_get(key@) == Some(v@),
                None => self.spec_get(key@) is None,
            },
    {
        let owned: String = key.to_owned();
        let n = self.entries.len();
        proof {
            assert(self@.take(n as int) =~= self@);
        }
        let mut i: usize = n;
        while i > 0
            invariant
                0 <= i <= n,
                n == self.entries@.len(),
                n == self@.len(),
                owned@ == key@,
                assoc_get(self@, key@) == assoc_get(self@.take(i as int), key@),
            decreases i,
        {
            i = i - 1;
            if self.entries[i].0 == owned {
                proof {
                    assert(self@.take(i as int + 1).last() == self@[i as int]);
                    assert(self@[i as int] == (self.entries@[i as int].0@,
                    self.entries@[i as int].1@));
                }
                return Some(&self.entries[i].1);
            }
            proof {
                assert(self@.take(i as int + 1).last() == self@[i as int]);
                assert(self@.take(i as int + 1).drop_last() =~= self@.take(i as int));
            }
        }
        proof {
            assert(self@.take(0) =~= Seq::<(Seq<char>, MetaValueModel)>::empty());
        }
        None
    }

    /// Returns the recorded entries in order, for enumeration by codecs
    /// and emitters; a later entry supersedes an earlier one for the same
    /// key.
    pub fn entries(&self) -> (r: &Vec<(String, MetaValue)>)
        ensures
            r@.len() == self@.len(),
            forall|i: int|
                0 <= i < r@.len() ==> ((#[trigger] r@[i]).0@, r@[i].1@) == self@[i],
    {
        &self.entries
    }

    /// Returns whether `key` is present.
    pub fn contains_key(&self, key: &str) -> (r: bool)
        ensures
            r == self.spec_contains(key@),
    {
        match self.get(key) {
            Some(_) => true,
            None => false,
        }
    }
}

} // verus!
