use vstd::prelude::*;

verus! {

/// The map that a list of (key, value) entries stands for: a later entry
/// for a key replaces an earlier one.
pub open spec fn entries_map(es: Seq<(String, String)>) -> Map<Seq<char>, Seq<char>>
    decreases es.len(),
{
    if es.len() == 0 {
        Map::empty()
    } else {
        entries_map(es.drop_last()).insert(es.last().0@, es.last().1@)
    }
}

/// Whether no two entries have the same key.
pub open spec fn keys_distinct(es: Seq<(String, String)>) -> bool {
    forall|i: int, j: int| 0 <= i < j < es.len() ==> es[i].0@ != es[j].0@
}

/// A store of learned facts: successful outputs and strategies, each under a
/// key of its own. Its view is the map from keys to values.
pub struct KnowledgeBase {
    entries: Vec<(String, String)>,
}

impl View for KnowledgeBase {
    type V = Map<Seq<char>, Seq<char>>;

    closed spec fn view(&self) -> Map<Seq<char>, Seq<char>> {
        entries_map(self.entries@)
    }
}

proof fn lemma_entries_map_has(es: Seq<(String, String)>, i: int)
    requires
        keys_distinct(es),
        0 <= i < es.len(),
    ensures
        entries_map(es).contains_key(es[i].0@),
        entries_map(es)[es[i].0@] == es[i].1@,
    decreases es.len(),
{
    if i < es.len() - 1 {
        lemma_entries_map_has(es.drop_last(), i);
    }
}

proof fn lemma_entries_map_lacks(es: Seq<(String, String)>, k: Seq<char>)
    requires
        forall|i: int| 0 <= i < es.len() ==> es[i].0@ != k,
    ensures
        !entries_map(es).contains_key(k),
    decreases es.len(),
{
    if es.len() > 0 {
        lemma_entries_map_lacks(es.drop_last(), k);
    }
}

proof fn lemma_entries_map_update(es: Seq<(String, String)>, i: int, e: (String, String))
    requires
        keys_distinct(es),
        0 <= i < es.len(),
        es[i].0@ == e.0@,
    ensures
        entries_map(es.update(i, e)) =~= entries_map(es).insert(e.0@, e.1@),
    decreases es.len(),
{
    if i == es.len() - 1 {
        assert(es.update(i, e).drop_last() =~= es.drop_last());
    } else {
        assert(es.update(i, e).drop_last() =~= es.drop_last().update(i, e));
        lemma_entries_map_update(es.drop_last(), i, e);
        assert(es.last().0@ != e.0@);
    }
}

impl KnowledgeBase {
    #[verifier::type_invariant]
    spec fn inv(self) -> bool {
        keys_distinct(self.entries@)
    }

    /// An empty store.
    pub fn new() -> (kb: KnowledgeBase)
        ensures
            kb@ == Map::<Seq<char>, Seq<char>>::empty(),
    {
        KnowledgeBase { entries: Vec::new() }
    }

    /// The number of keys in the store.
    pub fn len(&self) -> (n: usize)
        ensures
            n == self@.len(),
    {
        proof {
            use_type_invariant(self);
            self.lemma_len();
        }
        self.entries.len()
    }

    proof fn lemma_len(&self)
        requires
            keys_distinct(self.entries@),
        ensures
            self@.dom().finite(),
            self@.len() == self.entries@.len(),
    {
        lemma_entries_map_len(self.entries@);
    }

    /// Where `key` stands among the entries, if it does.
    fn position(&self, key: &String) -> (r: Option<usize>)
        ensures
            match r {
                Some(i) => i < self.entries@.len() && self.entries@[i as int].0@ == key@,
                None => forall|i: int| 0 <= i < self.entries@.len() ==> self.entries@[i].0@ != key@,
            },
    {
        let mut i: usize = 0;
        while i < self.entries.len()
            invariant
                i <= self.entries@.len(),
                forall|j: int| 0 <= j < i ==> self.entries@[j].0@ != key@,
            decreases self.entries@.len() - i,
        {
            if self.entries[i].0 == *key {
                return Some(i);
            }
            i = i + 1;
        }
        None
    }

    /// The value stored under `key`, if any.
    pub fn get(&self, key: &str) -> (r: Option<&String>)
        ensures
            match r {
                Some(v) => self@.contains_key(key@) && self@[key@] == v@,
                None => !self@.contains_key(key@),
            },
    {
        proof {
            use_type_invariant(self);
        }
        let k = String::from_str(key);
        match self.position(&k) {
            Some(i) => {
                proof {
                    lemma_entries_map_has(self.entries@, i as int);
                }
                Some(&self.entries[i].1)
            },
            None => {
                proof {
                    lemma_entries_map_lacks(self.entries@, key@);
                }
                None
            },
        }
    }

    /// Stores `value` under `key`, in place of what was there.
    pub fn insert(&mut self, key: String, value: String)
        ensures
            final(self)@ == old(self)@.insert(key@, value@),
    {
        proof {
            use_type_invariant(&*self);
        }
        let pos = self.position(&key);
        let ghost es = self.entries@;
        let mut entries: Vec<(String, String)> = Vec::new();
        std::mem::swap(&mut entries, &mut self.entries);
        match pos {
            Some(i) => {
                proof {
                    lemma_entries_map_update(es, i as int, (key, value));
                }
                entries.set(i, (key, value));
                assert(entries@ =~= es.update(i as int, (key, value)));
            },
            None => {
                entries.push((key, value));
                assert(entries@.drop_last() =~= es);
            },
        }
        self.entries = entries;
    }
}

/// A read after a write gives back what was written, and a write leaves
/// every other key as it was.
pub proof fn law_read_after_write(
    before: KnowledgeBase,
    after: KnowledgeBase,
    key: Seq<char>,
    value: Seq<char>,
    other: Seq<char>,
)
    requires
        after@ == before@.insert(key, value),
    ensures
        after@.contains_key(key),
        after@[key] == value,
        other != key ==> (after@.contains_key(other) <==> before@.contains_key(other)),
        other != key && before@.contains_key(other) ==> after@[other] == before@[other],
{
}

proof fn lemma_entries_map_len(es: Seq<(String, String)>)
    requires
        keys_distinct(es),
    ensures
        entries_map(es).dom().finite(),
        entries_map(es).len() == es.len(),
    decreases es.len(),
{
    if es.len() > 0 {
        lemma_entries_map_len(es.drop_last());
        lemma_entries_map_lacks(es.drop_last(), es.last().0@);
    }
}

} // verus!
