//! The shared store: a mapping from textual keys to binary values, viewed in
//! specifications as a `Map<Seq<char>, Seq<u8>>`. Entries are overwritten by
//! repeated `set` on the same key and never deleted.

use vstd::pervasive::VecAdditionalExecFns;
use vstd::prelude::*;

verus! {

/// One key/value pair held by the store.
struct Entry {
    key: String,
    value: Vec<u8>,
}

/// The key-value mapping constituting all server state. Created once with
/// zero entries; mutated only by `set`.
pub struct Store {
    entries: Vec<Entry>,
}

/// No two entries hold the same key.
spec fn unique_keys(s: Seq<Entry>) -> bool {
    forall|i: int, j: int| 0 <= i < j < s.len() ==> s[i].key@ != s[j].key@
}

/// The mapping the entries denote; a later entry for a key shadows an earlier
/// one (with `unique_keys` there is at most one).
spec fn map_of(s: Seq<Entry>) -> Map<Seq<char>, Seq<u8>>
    decreases s.len(),
{
    if s.len() == 0 {
        Map::empty()
    } else {
        map_of(s.drop_last()).insert(s.last().key@, s.last().value@)
    }
}

proof fn lemma_map_of_domain(s: Seq<Entry>, k: Seq<char>)
    ensures
        map_of(s).contains_key(k) <==> exists|i: int| 0 <= i < s.len() && s[i].key@ == k,
    decreases s.len(),
{
    if s.len() > 0 {
        lemma_map_of_domain(s.drop_last(), k);
        if s.last().key@ == k {
            assert(s[s.len() - 1].key@ == k);
        } else if map_of(s).contains_key(k) {
            let i = choose|i: int| 0 <= i < s.drop_last().len() && s.drop_last()[i].key@ == k;
            assert(s[i].key@ == k);
        } else if exists|i: int| 0 <= i < s.len() && s[i].key@ == k {
            let i = choose|i: int| 0 <= i < s.len() && s[i].key@ == k;
            assert(s.drop_last()[i].key@ == k);
        }
    }
}

proof fn lemma_map_of_at(s: Seq<Entry>, i: int)
    requires
        unique_keys(s),
        0 <= i < s.len(),
    ensures
        map_of(s).contains_key(s[i].key@),
        map_of(s)[s[i].key@] == s[i].value@,
    decreases s.len(),
{
    if i < s.len() - 1 {
        lemma_map_of_at(s.drop_last(), i);
        assert(s.drop_last()[i] == s[i]);
        assert(s.last().key@ != s[i].key@);
    }
}

proof fn lemma_map_of_update(s: Seq<Entry>, i: int, e: Entry)
    requires
        unique_keys(s),
        0 <= i < s.len(),
        e.key@ == s[i].key@,
    ensures
        map_of(s.update(i, e)) == map_of(s).insert(e.key@, e.value@),
    decreases s.len(),
{
    let t = s.update(i, e);
    if i == s.len() - 1 {
        assert(t.drop_last() =~= s.drop_last());
        assert(map_of(t) =~= map_of(s).insert(e.key@, e.value@));
    } else {
        assert(t.drop_last() =~= s.drop_last().update(i, e));
        lemma_map_of_update(s.drop_last(), i, e);
        assert(s.drop_last()[i] == s[i]);
        assert(s.last().key@ != e.key@);
        assert(map_of(t) =~= map_of(s).insert(e.key@, e.value@));
    }
}

/// Copies a binary value byte for byte.
fn clone_value(v: &Vec<u8>) -> (r: Vec<u8>)
    ensures
        r@ == v@,
{
    let mut r: Vec<u8> = Vec::new();
    let mut i: usize = 0;
    while i < v.len()
        invariant
            0 <= i <= v@.len(),
            r@ == v@.subrange(0, i as int),
        decreases v@.len() - i,
    {
        r.push(v[i]);
        assert(r@ =~= v@.subrange(0, i as int + 1));
        i += 1;
    }
    assert(r@ =~= v@);
    r
}

impl Store {
    /// Every reachable store satisfies this: no key is held twice.
    pub closed spec fn wf(&self) -> bool {
        unique_keys(self.entries@)
    }

    /// A store starts with zero entries.
    pub fn new() -> (s: Store)
        ensures
            s.wf(),
            s@ == Map::<Seq<char>, Seq<u8>>::empty(),
    {
        Store { entries: Vec::new() }
    }

    /// The index of the entry holding `key`, if one does.
    fn find(&self, key: &String) -> (r: Option<usize>)
        requires
            self.wf(),
        ensures
            match r {
                Some(i) => i < self.entries@.len() && self.entries@[i as int].key@ == key@,
                None => forall|j: int|
                    0 <= j < self.entries@.len() ==> self.entries@[j].key@ != key@,
            },
    {
        let n = self.entries.len();
        let mut i: usize = 0;
        while i < n
            invariant
                n == self.entries@.len(),
                0 <= i <= n,
                forall|j: int| 0 <= j < i ==> self.entries@[j].key@ != key@,
            decreases n - i,
        {
            if self.entries[i].key == *key {
                return Some(i);
            }
            i += 1;
        }
        None
    }

    /// Returns the current value for `key`, or `None` when the key is absent.
    /// Absence is a normal return, not a failure; the store is not changed.
    pub fn get(&self, key: &String) -> (r: Option<Vec<u8>>)
        requires
            self.wf(),
        ensures
            match r {
                Some(v) => self@.contains_key(key@) && v@ == self@[key@],
                None => !self@.contains_key(key@),
            },
    {
        proof {
            lemma_map_of_domain(self.entries@, key@);
        }
        match self.find(key) {
            Some(i) => {
                proof {
                    lemma_map_of_at(self.entries@, i as int);
                }
                Some(clone_value(&self.entries[i].value))
            },
            None => None,
        }
    }

    /// Replaces any existing value for `key` with `value`; every other key
    /// keeps its binding. Cannot fail.
    pub fn set(&mut self, key: String, value: Vec<u8>)
        requires
            old(self).wf(),
        ensures
            final(self).wf(),
            final(self)@ == old(self)@.insert(key@, value@),
    {
        let ghost s0 = self.entries@;
        match self.find(&key) {
            Some(i) => {
                let e = Entry { key, value };
                proof {
                    lemma_map_of_update(s0, i as int, e);
                }
                self.entries.set(i, e);
            },
            None => {
                let e = Entry { key, value };
                self.entries.push(e);
                proof {
                    assert(self.entries@.drop_last() =~= s0);
                }
            },
        }
    }
}

impl View for Store {
    type V = Map<Seq<char>, Seq<u8>>;

    closed spec fn view(&self) -> Map<Seq<char>, Seq<u8>> {
        map_of(self.entries@)
    }
}

} // verus!
