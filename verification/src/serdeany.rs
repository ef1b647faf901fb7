//! A registry of metadata: at most one value of each kind, kept in its serial
//! form under the key of its kind.

use vstd::prelude::*;

verus! {

/// A kind of metadata that can be kept in a registry: it has a key of its own,
/// one per kind, and a serial form.
pub trait SerdeAny: Sized {
    /// The key under which values of this kind are filed.
    open spec fn spec_key() -> u64 {
        arbitrary()
    }

    /// The serial form of this value.
    open spec fn spec_to_bytes(&self) -> Seq<u8> {
        arbitrary()
    }

    /// The value that a serial form stands for, if it stands for one.
    open spec fn spec_from_bytes(bytes: Seq<u8>) -> Option<Self> {
        arbitrary()
    }

    /// The key of this kind.
    fn key() -> (key: u64)
        ensures
            key == Self::spec_key(),
    ;

    /// This value in its serial form.
    fn to_bytes(&self) -> (bytes: Vec<u8>)
        ensures
            bytes@ == self.spec_to_bytes(),
    ;

    /// The value that `bytes` stands for, if it stands for one.
    fn from_bytes(bytes: &[u8]) -> (value: Option<Self>)
        ensures
            value == Self::spec_from_bytes(bytes@),
    ;
}

/// No two of `entries` have the same key.
pub open spec fn distinct_keys(entries: Seq<(u64, Vec<u8>)>) -> bool {
    forall|i: int, j: int|
        0 <= i < entries.len() && 0 <= j < entries.len() && i != j ==> entries[i].0
            != entries[j].0
}

/// `key` is the key of one of `entries`.
pub open spec fn has_key(entries: Seq<(u64, Vec<u8>)>, key: u64) -> bool {
    exists|i: int| 0 <= i < entries.len() && #[trigger] entries[i].0 == key
}

/// The place of an entry with `key` among `entries`.
pub open spec fn place_of(entries: Seq<(u64, Vec<u8>)>, key: u64) -> int {
    choose|i: int| 0 <= i < entries.len() && #[trigger] entries[i].0 == key
}

/// The map that `entries` spell: each key to the bytes that stand beside it.
pub open spec fn spelled(entries: Seq<(u64, Vec<u8>)>) -> Map<u64, Seq<u8>> {
    Map::new(|key: u64| has_key(entries, key), |key: u64| entries[place_of(entries, key)].1@)
}

/// Among entries with distinct keys, each entry is the one that its key maps
/// to.
pub proof fn lemma_spelled_at(entries: Seq<(u64, Vec<u8>)>, i: int)
    requires
        distinct_keys(entries),
        0 <= i < entries.len(),
    ensures
        spelled(entries).contains_key(entries[i].0),
        spelled(entries)[entries[i].0] == entries[i].1@,
{
}

/// Entries with distinct keys spell a map with as many keys as there are
/// entries.
pub proof fn lemma_spelled_len(entries: Seq<(u64, Vec<u8>)>)
    requires
        distinct_keys(entries),
    ensures
        spelled(entries).dom().finite(),
        spelled(entries).dom().len() == entries.len(),
    decreases entries.len(),
{
    if entries.len() == 0 {
        assert(spelled(entries).dom() =~= Set::<u64>::empty());
    } else {
        let front = entries.drop_last();
        let last = entries.last();
        lemma_spelled_len(front);
        assert(!has_key(front, last.0)) by {
            if has_key(front, last.0) {
                assert(front[place_of(front, last.0)].0 == last.0);
            }
        }
        assert forall|key: u64| has_key(entries, key) <==> (has_key(front, key) || key
            == last.0) by {
            if has_key(entries, key) {
                let i = place_of(entries, key);
                if i < front.len() {
                    assert(front[i].0 == key);
                }
            }
            if has_key(front, key) {
                assert(entries[place_of(front, key)].0 == key);
            }
        }
        assert(spelled(entries).dom() =~= spelled(front).dom().insert(last.0));
    }
}

/// Putting `value` in the place of the entry of `key`, among entries with
/// distinct keys, leaves the keys distinct and spells the map with `key`
/// mapped to `value`.
pub proof fn lemma_spelled_update(entries: Seq<(u64, Vec<u8>)>, i: int, value: Vec<u8>)
    requires
        distinct_keys(entries),
        0 <= i < entries.len(),
    ensures
        distinct_keys(entries.update(i, (entries[i].0, value))),
        spelled(entries.update(i, (entries[i].0, value))) == spelled(entries).insert(
            entries[i].0,
            value@,
        ),
{
    let key = entries[i].0;
    let updated = entries.update(i, (key, value));
    assert forall|k: u64| has_key(updated, k) <==> has_key(entries, k) by {
        if has_key(updated, k) {
            assert(entries[place_of(updated, k)].0 == k);
        }
        if has_key(entries, k) {
            assert(updated[place_of(entries, k)].0 == k);
        }
    }
    assert forall|k: u64| has_key(updated, k) implies #[trigger] spelled(updated)[k] == spelled(
        entries,
    ).insert(key, value@)[k] by {
        let j = place_of(updated, k);
        lemma_spelled_at(updated, j);
        if k != key {
            lemma_spelled_at(entries, j);
        }
    }
}

/// Putting an entry with a new key behind entries with distinct keys leaves
/// the keys distinct and spells the map with the new key mapped to the new
/// value.
pub proof fn lemma_spelled_push(entries: Seq<(u64, Vec<u8>)>, key: u64, value: Vec<u8>)
    requires
        distinct_keys(entries),
        !has_key(entries, key),
    ensures
        distinct_keys(entries.push((key, value))),
        spelled(entries.push((key, value))) == spelled(entries).insert(key, value@),
{
    let pushed = entries.push((key, value));
    assert forall|k: u64| has_key(pushed, k) <==> (has_key(entries, k) || k == key) by {
        if has_key(pushed, k) {
            let j = place_of(pushed, k);
            if j < entries.len() {
                assert(entries[j].0 == k);
            }
        }
        if has_key(entries, k) {
            assert(pushed[place_of(entries, k)].0 == k);
        }
        if k == key {
            assert(pushed[pushed.len() - 1].0 == k);
        }
    }
    assert forall|k: u64| has_key(pushed, k) implies #[trigger] spelled(pushed)[k] == spelled(
        entries,
    ).insert(key, value@)[k] by {
        let j = place_of(pushed, k);
        lemma_spelled_at(pushed, j);
        if k != key {
            lemma_spelled_at(entries, j);
        }
    }
}

/// A registry that holds at most one value of each kind of metadata.
pub struct SerdeAnyMap {
    entries: Vec<(u64, Vec<u8>)>,
}

impl View for SerdeAnyMap {
    type V = Map<u64, Seq<u8>>;

    /// The serial form on file under each key.
    closed spec fn view(&self) -> Map<u64, Seq<u8>> {
        spelled(self.entries@)
    }
}

impl SerdeAnyMap {
    #[verifier::type_invariant]
    spec fn well_formed(&self) -> bool {
        distinct_keys(self.entries@)
    }

    /// A registry with nothing on file.
    pub fn new() -> (registry: Self)
        ensures
            registry@ == (Map::<u64, Seq<u8>>::empty()),
    {
        let registry = SerdeAnyMap { entries: Vec::new() };
        registry
    }

    /// Files `bytes` under `key`, in place of what was there.
    pub fn insert_bytes(&mut self, key: u64, bytes: Vec<u8>)
        ensures
            final(self)@ == old(self)@.insert(key, bytes@),
    {
        proof {
            use_type_invariant(&*self);
        }
        let mut entries = Vec::new();
        std::mem::swap(&mut entries, &mut self.entries);
        let ghost before = entries@;
        let mut i: usize = 0;
        while i < entries.len()
            invariant
                i <= entries.len(),
                entries@ == before,
                distinct_keys(before),
                spelled(before) == old(self)@,
                forall|j: int| 0 <= j < i ==> before[j].0 != key,
            decreases entries.len() - i,
        {
            if entries[i].0 == key {
                proof {
                    lemma_spelled_update(before, i as int, bytes);
                }
                entries.set(i, (key, bytes));
                self.entries = entries;
                return ;
            }
            i += 1;
        }
        proof {
            lemma_spelled_push(before, key, bytes);
        }
        entries.push((key, bytes));
        self.entries = entries;
    }

    /// The bytes on file under `key`, if any are.
    pub fn get_bytes(&self, key: u64) -> (bytes: Option<&Vec<u8>>)
        ensures
            match bytes {
                Some(found) => self@.contains_key(key) && found@ == self@[key],
                None => !self@.contains_key(key),
            },
    {
        proof {
            use_type_invariant(self);
        }
        let mut i: usize = 0;
        while i < self.entries.len()
            invariant
                i <= self.entries.len(),
                distinct_keys(self.entries@),
                forall|j: int| 0 <= j < i ==> self.entries@[j].0 != key,
            decreases self.entries.len() - i,
        {
            if self.entries[i].0 == key {
                proof {
                    lemma_spelled_at(self.entries@, i as int);
                }
                return Some(&self.entries[i].1);
            }
            i += 1;
        }
        None
    }

    /// Files `meta` under the key of its kind, in place of what was there.
    pub fn insert<M: SerdeAny>(&mut self, meta: M)
        ensures
            final(self)@ == old(self)@.insert(M::spec_key(), meta.spec_to_bytes()),
    {
        self.insert_bytes(M::key(), meta.to_bytes());
    }

    /// The value of kind `M` on file, read back from its serial form.
    pub fn get<M: SerdeAny>(&self) -> (value: Option<M>)
        ensures
            value == (if self@.contains_key(M::spec_key()) {
                M::spec_from_bytes(self@[M::spec_key()])
            } else {
                None
            }),
    {
        match self.get_bytes(M::key()) {
            Some(bytes) => M::from_bytes(bytes.as_slice()),
            None => None,
        }
    }

    /// Whether a value of kind `M` is on file.
    pub fn contains<M: SerdeAny>(&self) -> (found: bool)
        ensures
            found == self@.contains_key(M::spec_key()),
    {
        self.get_bytes(M::key()).is_some()
    }

    /// The number of kinds on file.
    pub fn len(&self) -> (n: usize)
        ensures
            self@.dom().finite(),
            n == self@.len(),
    {
        proof {
            use_type_invariant(self);
            lemma_spelled_len(self.entries@);
        }
        self.entries.len()
    }

    /// What is on file, entry by entry: each key once, with its bytes.
    pub fn entries(&self) -> (entries: &Vec<(u64, Vec<u8>)>)
        ensures
            distinct_keys(entries@),
            spelled(entries@) == self@,
    {
        proof {
            use_type_invariant(self);
        }
        &self.entries
    }
}

} // verus!
