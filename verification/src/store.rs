//! A map from string keys to objects, in which no key occurs twice.
use vstd::prelude::*;

use crate::kubeapi::controller::uids::{holds_text, texts_cover};
use crate::model::{DynamicObject, DynamicObjectView, name_any_spec};

verus! {

/// No key occurs twice among the entries.
pub open spec fn keys_distinct(entries: Seq<(String, DynamicObject)>) -> bool {
    forall|i: int, j: int|
        0 <= i < entries.len() && 0 <= j < entries.len() && i != j ==> #[trigger] entries[i].0@
            != #[trigger] entries[j].0@
}

/// Some entry has key `k`.
pub open spec fn has_key(entries: Seq<(String, DynamicObject)>, k: Seq<char>) -> bool {
    exists|i: int| 0 <= i < entries.len() && #[trigger] entries[i].0@ == k
}

/// The map that the entries stand for.
pub open spec fn map_of(entries: Seq<(String, DynamicObject)>) -> Map<Seq<char>, DynamicObjectView> {
    Map::new(
        |k: Seq<char>| has_key(entries, k),
        |k: Seq<char>|
            entries[choose|i: int| 0 <= i < entries.len() && #[trigger] entries[i].0@ == k].1@,
    )
}

/// With distinct keys, the map gives each entry's object under the entry's key.
pub proof fn lemma_map_of_entry(entries: Seq<(String, DynamicObject)>, i: int)
    requires
        keys_distinct(entries),
        0 <= i < entries.len(),
    ensures
        map_of(entries).contains_key(entries[i].0@),
        map_of(entries)[entries[i].0@] == entries[i].1@,
{
    let k = entries[i].0@;
    assert(has_key(entries, k));
    let j: int = choose|j: int| 0 <= j < entries.len() && #[trigger] entries[j].0@ == k;
    assert(j == i);
}

/// Appending an entry with a new key adds that key to the map.
pub proof fn lemma_map_of_push(entries: Seq<(String, DynamicObject)>, e: (String, DynamicObject))
    requires
        keys_distinct(entries),
        !has_key(entries, e.0@),
    ensures
        keys_distinct(entries.push(e)),
        map_of(entries.push(e)) == map_of(entries).insert(e.0@, e.1@),
{
    let s = entries.push(e);
    assert forall|i: int, j: int|
        0 <= i < s.len() && 0 <= j < s.len() && i != j implies #[trigger] s[i].0@
        != #[trigger] s[j].0@ by {
        if i < entries.len() && j < entries.len() {
            assert(s[i] == entries[i] && s[j] == entries[j]);
        } else if i < entries.len() {
            assert(s[i] == entries[i]);
        } else {
            assert(s[j] == entries[j]);
        }
    }
    let m = map_of(entries).insert(e.0@, e.1@);
    assert forall|k: Seq<char>| #[trigger] map_of(s).contains_key(k) <==> m.contains_key(k) by {
        if has_key(entries, k) {
            let i: int = choose|i: int| 0 <= i < entries.len() && #[trigger] entries[i].0@ == k;
            assert(s[i] == entries[i]);
        }
        if has_key(s, k) && k != e.0@ {
            let i: int = choose|i: int| 0 <= i < s.len() && #[trigger] s[i].0@ == k;
            assert(i < entries.len());
            assert(s[i] == entries[i]);
        }
        assert(s[entries.len() as int] == e);
    }
    assert forall|k: Seq<char>| #[trigger] map_of(s).contains_key(k) implies map_of(s)[k] == m[k] by {
        let i: int = choose|i: int| 0 <= i < s.len() && #[trigger] s[i].0@ == k;
        lemma_map_of_entry(s, i);
        if i < entries.len() {
            assert(s[i] == entries[i]);
            lemma_map_of_entry(entries, i);
        } else {
            assert(s[i] == e);
        }
    }
    assert(map_of(s) =~= m);
}

/// Replacing the object of an entry replaces it in the map.
pub proof fn lemma_map_of_update(
    entries: Seq<(String, DynamicObject)>,
    i: int,
    e: (String, DynamicObject),
)
    requires
        keys_distinct(entries),
        0 <= i < entries.len(),
        entries[i].0@ == e.0@,
    ensures
        keys_distinct(entries.update(i, e)),
        map_of(entries.update(i, e)) == map_of(entries).insert(e.0@, e.1@),
{
    let s = entries.update(i, e);
    assert forall|a: int, b: int|
        0 <= a < s.len() && 0 <= b < s.len() && a != b implies #[trigger] s[a].0@
        != #[trigger] s[b].0@ by {
        assert(s[a].0@ == entries[a].0@);
        assert(s[b].0@ == entries[b].0@);
    }
    let m = map_of(entries).insert(e.0@, e.1@);
    assert forall|k: Seq<char>| #[trigger] map_of(s).contains_key(k) <==> m.contains_key(k) by {
        if has_key(entries, k) {
            let j: int = choose|j: int| 0 <= j < entries.len() && #[trigger] entries[j].0@ == k;
            assert(s[j].0@ == entries[j].0@);
        }
        if has_key(s, k) {
            let j: int = choose|j: int| 0 <= j < s.len() && #[trigger] s[j].0@ == k;
            assert(s[j].0@ == entries[j].0@);
        }
        assert(s[i] == e);
    }
    assert forall|k: Seq<char>| #[trigger] map_of(s).contains_key(k) implies map_of(s)[k] == m[k] by {
        let j: int = choose|j: int| 0 <= j < s.len() && #[trigger] s[j].0@ == k;
        lemma_map_of_entry(s, j);
        if j != i {
            assert(s[j] == entries[j]);
            lemma_map_of_entry(entries, j);
        } else {
            assert(s[j] == e);
        }
    }
    assert(map_of(s) =~= m);
}

/// Objects by key, with no key twice.
#[derive(Debug)]
pub struct Store {
    entries: Vec<(String, DynamicObject)>,
}

impl View for Store {
    type V = Map<Seq<char>, DynamicObjectView>;

    closed spec fn view(&self) -> Map<Seq<char>, DynamicObjectView> {
        map_of(self.entries@)
    }
}

impl Store {
    #[verifier::type_invariant]
    closed spec fn inv(self) -> bool {
        keys_distinct(self.entries@)
    }

    /// A store that holds nothing.
    pub fn new() -> (res: Self)
        ensures
            res@ == Map::<Seq<char>, DynamicObjectView>::empty(),
    {
        let res = Store { entries: Vec::new() };
        assert(res@ =~= Map::<Seq<char>, DynamicObjectView>::empty());
        res
    }

    /// The index of the entry with key `key`.
    fn position(&self, key: &str) -> (res: Option<usize>)
        ensures
            match res {
                Some(i) => i < self.entries@.len() && self.entries@[i as int].0@ == key@,
                None => !has_key(self.entries@, key@),
            },
    {
        let n: usize = self.entries.len();
        let mut i: usize = 0;
        while i < n
            invariant
                n == self.entries@.len(),
                i <= n,
                forall|j: int| 0 <= j < i ==> #[trigger] self.entries@[j].0@ != key@,
            decreases n - i,
        {
            if crate::text::str_eq(self.entries[i].0.as_str(), key) {
                return Some(i);
            }
            i = i + 1;
        }
        None
    }

    /// Whether an object is stored under `key`.
    pub fn contains_key(&self, key: &str) -> (res: bool)
        ensures
            res == self@.contains_key(key@),
    {
        self.position(key).is_some()
    }

    /// The object stored under `key`.
    pub fn get(&self, key: &str) -> (res: Option<&DynamicObject>)
        ensures
            match res {
                Some(v) => self@.contains_key(key@) && self@[key@] == v@,
                None => !self@.contains_key(key@),
            },
    {
        proof {
            use_type_invariant(self);
        }
        match self.position(key) {
            Some(i) => {
                proof {
                    lemma_map_of_entry(self.entries@, i as int);
                }
                Some(&self.entries[i].1)
            },
            None => None,
        }
    }

    /// Stores `value` under `key`, in place of what was there.
    pub fn insert(&mut self, key: String, value: DynamicObject)
        ensures
            final(self)@ == old(self)@.insert(key@, value@),
    {
        proof {
            use_type_invariant(&*self);
        }
        let ghost old_entries = self.entries@;
        let position = self.position(key.as_str());
        let mut entries: Vec<(String, DynamicObject)> = Vec::new();
        std::mem::swap(&mut entries, &mut self.entries);
        match position {
            Some(i) => {
                proof {
                    lemma_map_of_update(old_entries, i as int, (key, value));
                }
                entries.set(i, (key, value));
            },
            None => {
                proof {
                    lemma_map_of_push(old_entries, (key, value));
                }
                entries.push((key, value));
            },
        }
        self.entries = entries;
    }

    /// Appends to `out` the uid of every stored object that has one; what `out` held
    /// stays.
    pub fn push_uids(&self, out: &mut Vec<String>)
        ensures
            forall|u: Seq<char>| #[trigger]
                holds_text(old(out)@, u) ==> holds_text(final(out)@, u),
            texts_cover(self@, final(out)@),
    {
        proof {
            use_type_invariant(self);
        }
        let ghost start = out@;
        let n: usize = self.entries.len();
        let mut i: usize = 0;
        while i < n
            invariant
                n == self.entries@.len(),
                i <= n,
                keys_distinct(self.entries@),
                forall|u: Seq<char>| #[trigger] holds_text(start, u) ==> holds_text(out@, u),
                forall|j: int|
                    0 <= j < i ==> (#[trigger] self.entries@[j].1@.metadata.uid matches Some(u)
                        ==> holds_text(out@, u)),
            decreases n - i,
        {
            let ghost before = out@;
            match &self.entries[i].1.metadata.uid {
                Some(u) => {
                    out.push(u.clone());
                    assert(out@[before.len() as int]@ == u@);
                },
                None => {},
            }
            assert forall|u: Seq<char>| #[trigger] holds_text(before, u) implies holds_text(
                out@,
                u,
            ) by {
                let k: int = choose|k: int| 0 <= k < before.len() && #[trigger] before[k]@ == u;
                assert(out@[k] == before[k]);
            }
            i = i + 1;
        }
        proof {
            assert forall|k: Seq<char>| #[trigger] self@.contains_key(k) implies (
            self@[k].metadata.uid matches Some(u) ==> holds_text(out@, u)) by {
                let j: int = choose|j: int|
                    0 <= j < self.entries@.len() && #[trigger] self.entries@[j].0@ == k;
                lemma_map_of_entry(self.entries@, j);
                assert(self.entries@[j].1@.metadata.uid == self@[k].metadata.uid);
            }
        }
    }

    /// Some stored object whose name (else `generateName`) is `name`.
    pub fn find_by_name(&self, name: &str) -> (res: Option<&DynamicObject>)
        ensures
            match res {
                Some(v) => exists|k: Seq<char>| #[trigger]
                    self@.contains_key(k) && self@[k] == v@ && name_any_spec(v@.metadata)
                        == name@,
                None => forall|k: Seq<char>| #[trigger]
                    self@.contains_key(k) ==> name_any_spec(self@[k].metadata) != name@,
            },
    {
        proof {
            use_type_invariant(self);
        }
        let n: usize = self.entries.len();
        let mut i: usize = 0;
        while i < n
            invariant
                n == self.entries@.len(),
                i <= n,
                keys_distinct(self.entries@),
                forall|j: int|
                    0 <= j < i ==> name_any_spec(#[trigger] self.entries@[j].1@.metadata)
                        != name@,
            decreases n - i,
        {
            let candidate = self.entries[i].1.name_any();
            if crate::text::str_eq(candidate.as_str(), name) {
                proof {
                    lemma_map_of_entry(self.entries@, i as int);
                }
                return Some(&self.entries[i].1);
            }
            i = i + 1;
        }
        proof {
            assert forall|k: Seq<char>| #[trigger]
                self@.contains_key(k) implies name_any_spec(self@[k].metadata) != name@ by {
                let j: int = choose|j: int|
                    0 <= j < self.entries@.len() && #[trigger] self.entries@[j].0@ == k;
                lemma_map_of_entry(self.entries@, j);
            }
        }
        None
    }
}

} // verus!
