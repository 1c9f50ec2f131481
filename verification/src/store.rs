use vstd::prelude::*;

use crate::bytes::{bytes_clone, bytes_eq, bytes_to_vec};

verus! {

/// A storage area keyed by byte strings whose values are byte strings, with the
/// semantics of contract storage: reading an absent key gives the empty value, and
/// writing the empty value clears the key.
pub struct ByteStore {
    keys: Vec<Vec<u8>>,
    vals: Vec<Vec<u8>>,
    contents: Ghost<Map<Seq<u8>, Seq<u8>>>,
}

/// What a storage read gives for `key`: the stored value, or the empty value.
pub open spec fn stored_or_empty(m: Map<Seq<u8>, Seq<u8>>, key: Seq<u8>) -> Seq<u8> {
    if m.contains_key(key) {
        m[key]
    } else {
        Seq::empty()
    }
}

/// A storage write: the empty value clears the key, any other value replaces it.
pub open spec fn store_write(m: Map<Seq<u8>, Seq<u8>>, key: Seq<u8>, value: Seq<u8>) -> Map<
    Seq<u8>,
    Seq<u8>,
> {
    if value.len() == 0 {
        m.remove(key)
    } else {
        m.insert(key, value)
    }
}

/// No key holds the empty value.
pub open spec fn no_empty_values(m: Map<Seq<u8>, Seq<u8>>) -> bool {
    forall|k: Seq<u8>| #[trigger] m.contains_key(k) ==> m[k].len() > 0
}

impl View for ByteStore {
    type V = Map<Seq<u8>, Seq<u8>>;

    closed spec fn view(&self) -> Map<Seq<u8>, Seq<u8>> {
        self.contents@
    }
}

impl ByteStore {
    /// Well-formedness: the key list has no duplicates and matches the contents.
    pub closed spec fn wf(&self) -> bool {
        &&& self.keys.len() == self.vals.len()
        &&& forall|i: int, j: int|
            0 <= i < self.keys.len() && 0 <= j < self.keys.len() && i != j ==> self.keys[i]@
                != self.keys[j]@
        &&& forall|i: int|
            0 <= i < self.keys.len() ==> {
                &&& self.contents@.contains_key(#[trigger] self.keys[i]@)
                &&& self.contents@[self.keys[i]@] == self.vals[i]@
                &&& self.vals[i]@.len() > 0
            }
        &&& forall|k: Seq<u8>| #[trigger]
            self.contents@.contains_key(k) ==> exists|i: int|
                0 <= i < self.keys.len() && self.keys[i]@ == k
    }

    /// A well-formed store never holds the empty value.
    pub proof fn lemma_no_empty_values(&self)
        requires
            self.wf(),
        ensures
            no_empty_values(self@),
    {
        assert forall|k: Seq<u8>| #[trigger] self@.contains_key(k) implies self@[k].len() > 0 by {
            let i = choose|i: int| 0 <= i < self.keys.len() && self.keys[i]@ == k;
            assert(self.contents@.contains_key(self.keys[i]@));
        }
    }

    /// The empty store.
    pub fn new() -> (r: ByteStore)
        ensures
            r.wf(),
            r@ == Map::<Seq<u8>, Seq<u8>>::empty(),
    {
        ByteStore { keys: Vec::new(), vals: Vec::new(), contents: Ghost(Map::empty()) }
    }

    fn find(&self, key: &[u8]) -> (r: Option<usize>)
        requires
            self.wf(),
        ensures
            match r {
                Some(i) => i < self.keys.len() && self.keys[i as int]@ == key@,
                None => !self@.contains_key(key@),
            },
    {
        let mut i: usize = 0;
        while i < self.keys.len()
            invariant
                self.wf(),
                i <= self.keys.len(),
                forall|j: int| 0 <= j < i ==> self.keys[j]@ != key@,
            decreases self.keys.len() - i,
        {
            if bytes_eq(self.keys[i].as_slice(), key) {
                return Some(i);
            }
            i = i + 1;
        }
        None
    }

    /// Reads `key`: the stored value, or the empty value if nothing is stored.
    pub fn get(&self, key: &[u8]) -> (r: Vec<u8>)
        requires
            self.wf(),
        ensures
            r@ == stored_or_empty(self@, key@),
    {
        match self.find(key) {
            Some(i) => bytes_clone(&self.vals[i]),
            None => Vec::new(),
        }
    }

    /// Whether nothing is stored under `key`.
    pub fn is_empty(&self, key: &[u8]) -> (r: bool)
        requires
            self.wf(),
        ensures
            r == !self@.contains_key(key@),
            r == (stored_or_empty(self@, key@).len() == 0),
    {
        proof {
            self.lemma_no_empty_values();
        }
        self.find(key).is_none()
    }

    /// Writes `value` under `key`; writing the empty value clears the key.
    pub fn set(&mut self, key: &[u8], value: Vec<u8>)
        requires
            old(self).wf(),
        ensures
            final(self).wf(),
            final(self)@ == store_write(old(self)@, key@, value@),
    {
        let ghost old_keys = self.keys@;
        let ghost old_vals = self.vals@;
        match self.find(key) {
            Some(i) => {
                if value.len() == 0 {
                    self.keys.remove(i);
                    self.vals.remove(i);
                    self.contents = Ghost(self.contents@.remove(key@));
                    assert forall|k: Seq<u8>| #[trigger]
                        self.contents@.contains_key(k) implies exists|j: int|
                        0 <= j < self.keys.len() && self.keys[j]@ == k by {
                        let j0 = choose|j: int| 0 <= j < old_keys.len() && old_keys[j]@ == k;
                        if j0 < i {
                            assert(self.keys[j0]@ == k);
                        } else {
                            assert(j0 != i);
                            assert(self.keys[j0 - 1]@ == k);
                        }
                    }
                    assert forall|a: int|
                        0 <= a < self.keys.len() implies {
                        &&& self.contents@.contains_key(#[trigger] self.keys[a]@)
                        &&& self.contents@[self.keys[a]@] == self.vals[a]@
                        &&& self.vals[a]@.len() > 0
                    } by {
                        let b = if a < i { a } else { a + 1 };
                        assert(self.keys[a] == old_keys[b]);
                        assert(self.vals[a] == old_vals[b]);
                        assert(old_keys[b]@ != old_keys[i as int]@);
                    }
                    assert forall|a: int, c: int|
                        0 <= a < self.keys.len() && 0 <= c < self.keys.len() && a
                            != c implies self.keys[a]@ != self.keys[c]@ by {
                        let b = if a < i { a } else { a + 1 };
                        let d = if c < i { c } else { c + 1 };
                        assert(self.keys[a] == old_keys[b]);
                        assert(self.keys[c] == old_keys[d]);
                    }
                } else {
                    self.vals.set(i, value);
                    self.contents = Ghost(self.contents@.insert(key@, self.vals[i as int]@));
                    assert forall|k: Seq<u8>| #[trigger]
                        self.contents@.contains_key(k) implies exists|j: int|
                        0 <= j < self.keys.len() && self.keys[j]@ == k by {
                        if k != key@ {
                            let j0 = choose|j: int| 0 <= j < old_keys.len() && old_keys[j]@ == k;
                            assert(self.keys[j0]@ == k);
                        } else {
                            assert(self.keys[i as int]@ == k);
                        }
                    }
                    assert forall|a: int|
                        0 <= a < self.keys.len() implies {
                        &&& self.contents@.contains_key(#[trigger] self.keys[a]@)
                        &&& self.contents@[self.keys[a]@] == self.vals[a]@
                        &&& self.vals[a]@.len() > 0
                    } by {
                        assert(self.keys[a] == old_keys[a]);
                        if a != i {
                            assert(old_keys[a]@ != old_keys[i as int]@);
                        }
                    }
                }
            },
            None => {
                if value.len() != 0 {
                    let k = bytes_to_vec(key);
                    self.keys.push(k);
                    self.vals.push(value);
                    self.contents = Ghost(self.contents@.insert(key@, value@));
                    assert forall|k: Seq<u8>| #[trigger]
                        self.contents@.contains_key(k) implies exists|j: int|
                        0 <= j < self.keys.len() && self.keys[j]@ == k by {
                        if k == key@ {
                            assert(self.keys[self.keys.len() - 1]@ == k);
                        } else {
                            let j0 = choose|j: int| 0 <= j < old_keys.len() && old_keys[j]@ == k;
                            assert(self.keys[j0]@ == k);
                        }
                    }
                    let n = self.keys.len() - 1;
                    assert forall|a: int|
                        0 <= a < self.keys.len() implies {
                        &&& self.contents@.contains_key(#[trigger] self.keys[a]@)
                        &&& self.contents@[self.keys[a]@] == self.vals[a]@
                        &&& self.vals[a]@.len() > 0
                    } by {
                        if a < n {
                            assert(self.keys[a] == old_keys[a]);
                            assert(self.vals[a] == old_vals[a]);
                            assert(old(self).contents@.contains_key(old_keys[a]@));
                        }
                    }
                    assert forall|a: int, c: int|
                        0 <= a < self.keys.len() && 0 <= c < self.keys.len() && a
                            != c implies self.keys[a]@ != self.keys[c]@ by {
                        if a < n {
                            assert(old(self).contents@.contains_key(old_keys[a]@));
                        }
                        if c < n {
                            assert(old(self).contents@.contains_key(old_keys[c]@));
                        }
                    }
                } else {
                    assert(self.contents@.remove(key@) =~= self.contents@);
                }
            },
        }
    }
}

/// Where a token stands on the other chain: its identifier and nonce.
pub struct DcdtInfo {
    pub token_identifier: Vec<u8>,
    pub token_nonce: u64,
}

impl View for DcdtInfo {
    type V = (Seq<u8>, u64);

    open spec fn view(&self) -> (Seq<u8>, u64) {
        (self.token_identifier@, self.token_nonce)
    }
}

impl DcdtInfo {
    /// A copy of this record.
    pub fn copy(&self) -> (r: DcdtInfo)
        ensures
            r@ == self@,
    {
        DcdtInfo { token_identifier: bytes_clone(&self.token_identifier), token_nonce: self.token_nonce }
    }
}

/// A storage area keyed by a token identifier and a nonce, holding `DcdtInfo` records.
pub struct InfoStore {
    ids: Vec<Vec<u8>>,
    nonces: Vec<u64>,
    vals: Vec<DcdtInfo>,
    contents: Ghost<Map<(Seq<u8>, u64), (Seq<u8>, u64)>>,
}

impl View for InfoStore {
    type V = Map<(Seq<u8>, u64), (Seq<u8>, u64)>;

    closed spec fn view(&self) -> Map<(Seq<u8>, u64), (Seq<u8>, u64)> {
        self.contents@
    }
}

impl InfoStore {
    /// Well-formedness: keys are distinct and match the contents.
    pub closed spec fn wf(&self) -> bool {
        &&& self.ids.len() == self.nonces.len()
        &&& self.ids.len() == self.vals.len()
        &&& forall|i: int, j: int|
            0 <= i < self.ids.len() && 0 <= j < self.ids.len() && i != j ==> (self.ids[i]@,
            self.nonces[i]) != (self.ids[j]@, self.nonces[j])
        &&& forall|i: int|
            0 <= i < self.ids.len() ==> {
                &&& self.contents@.contains_key((#[trigger] self.ids[i]@, self.nonces[i]))
                &&& self.contents@[(self.ids[i]@, self.nonces[i])] == self.vals[i]@
            }
        &&& forall|k: (Seq<u8>, u64)| #[trigger]
            self.contents@.contains_key(k) ==> exists|i: int|
                0 <= i < self.ids.len() && (self.ids[i]@, self.nonces[i]) == k
    }

    /// The empty store.
    pub fn new() -> (r: InfoStore)
        ensures
            r.wf(),
            r@ == Map::<(Seq<u8>, u64), (Seq<u8>, u64)>::empty(),
    {
        InfoStore {
            ids: Vec::new(),
            nonces: Vec::new(),
            vals: Vec::new(),
            contents: Ghost(Map::empty()),
        }
    }

    fn find(&self, id: &[u8], nonce: u64) -> (r: Option<usize>)
        requires
            self.wf(),
        ensures
            match r {
                Some(i) => i < self.ids.len() && self.ids[i as int]@ == id@ && self.nonces[i as int]
                    == nonce,
                None => !self@.contains_key((id@, nonce)),
            },
    {
        let mut i: usize = 0;
        while i < self.ids.len()
            invariant
                self.wf(),
                i <= self.ids.len(),
                forall|j: int| 0 <= j < i ==> (self.ids[j]@, self.nonces[j]) != (id@, nonce),
            decreases self.ids.len() - i,
        {
            if self.nonces[i] == nonce && bytes_eq(self.ids[i].as_slice(), id) {
                return Some(i);
            }
            i = i + 1;
        }
        None
    }

    /// Reads the record under `(id, nonce)`, if one is stored.
    pub fn get(&self, id: &[u8], nonce: u64) -> (r: Option<DcdtInfo>)
        requires
            self.wf(),
        ensures
            match r {
                Some(info) => self@.contains_key((id@, nonce)) && self@[(id@, nonce)] == info@,
                None => !self@.contains_key((id@, nonce)),
            },
    {
        match self.find(id, nonce) {
            Some(i) => Some(self.vals[i].copy()),
            None => None,
        }
    }

    /// Whether nothing is stored under `(id, nonce)`.
    pub fn is_empty(&self, id: &[u8], nonce: u64) -> (r: bool)
        requires
            self.wf(),
        ensures
            r == !self@.contains_key((id@, nonce)),
    {
        self.find(id, nonce).is_none()
    }

    /// Writes `info` under `(id, nonce)`, replacing any earlier record.
    pub fn set(&mut self, id: &[u8], nonce: u64, info: DcdtInfo)
        requires
            old(self).wf(),
        ensures
            final(self).wf(),
            final(self)@ == old(self)@.insert((id@, nonce), info@),
    {
        let ghost old_ids = self.ids@;
        let ghost old_nonces = self.nonces@;
        let ghost old_vals = self.vals@;
        let ghost key = (id@, nonce);
        match self.find(id, nonce) {
            Some(i) => {
                self.vals.set(i, info);
                self.contents = Ghost(self.contents@.insert(key, self.vals[i as int]@));
                assert forall|k: (Seq<u8>, u64)| #[trigger]
                    self.contents@.contains_key(k) implies exists|j: int|
                    0 <= j < self.ids.len() && (self.ids[j]@, self.nonces[j]) == k by {
                    if k != key {
                        let j0 = choose|j: int|
                            0 <= j < old_ids.len() && (old_ids[j]@, old_nonces[j]) == k;
                        assert((self.ids[j0]@, self.nonces[j0]) == k);
                    } else {
                        assert((self.ids[i as int]@, self.nonces[i as int]) == k);
                    }
                }
                assert forall|a: int|
                    0 <= a < self.ids.len() implies {
                    &&& self.contents@.contains_key((#[trigger] self.ids[a]@, self.nonces[a]))
                    &&& self.contents@[(self.ids[a]@, self.nonces[a])] == self.vals[a]@
                } by {
                    if a != i {
                        assert((old_ids[a]@, old_nonces[a]) != (old_ids[i as int]@,
                        old_nonces[i as int]));
                    }
                }
            },
            None => {
                let k = bytes_to_vec(id);
                self.ids.push(k);
                self.nonces.push(nonce);
                self.vals.push(info);
                self.contents = Ghost(self.contents@.insert(key, info@));
                let n = self.ids.len() - 1;
                assert forall|k: (Seq<u8>, u64)| #[trigger]
                    self.contents@.contains_key(k) implies exists|j: int|
                    0 <= j < self.ids.len() && (self.ids[j]@, self.nonces[j]) == k by {
                    if k == key {
                        assert((self.ids[n as int]@, self.nonces[n as int]) == k);
                    } else {
                        let j0 = choose|j: int|
                            0 <= j < old_ids.len() && (old_ids[j]@, old_nonces[j]) == k;
                        assert((self.ids[j0]@, self.nonces[j0]) == k);
                    }
                }
                assert forall|a: int|
                    0 <= a < self.ids.len() implies {
                    &&& self.contents@.contains_key((#[trigger] self.ids[a]@, self.nonces[a]))
                    &&& self.contents@[(self.ids[a]@, self.nonces[a])] == self.vals[a]@
                } by {
                    if a < n {
                        assert(self.ids[a] == old_ids[a]);
                        assert(self.nonces[a] == old_nonces[a]);
                        assert(self.vals[a] == old_vals[a]);
                        assert(old(self).contents@.contains_key((old_ids[a]@, old_nonces[a])));
                    }
                }
                assert forall|a: int, c: int|
                    0 <= a < self.ids.len() && 0 <= c < self.ids.len() && a != c implies (
                    self.ids[a]@, self.nonces[a]) != (self.ids[c]@, self.nonces[c]) by {
                    if a < n {
                        assert(old(self).contents@.contains_key((old_ids[a]@, old_nonces[a])));
                    }
                    if c < n {
                        assert(old(self).contents@.contains_key((old_ids[c]@, old_nonces[c])));
                    }
                }
            },
        }
    }
}

/// A set of addresses without order, such as the admins of a contract.
pub struct AddressSet {
    items: Vec<Vec<u8>>,
    contents: Ghost<Set<Seq<u8>>>,
}

impl View for AddressSet {
    type V = Set<Seq<u8>>;

    closed spec fn view(&self) -> Set<Seq<u8>> {
        self.contents@
    }
}

impl AddressSet {
    /// Well-formedness: items are distinct and make up the contents.
    pub closed spec fn wf(&self) -> bool {
        &&& forall|i: int, j: int|
            0 <= i < self.items.len() && 0 <= j < self.items.len() && i != j ==> self.items[i]@
                != self.items[j]@
        &&& forall|i: int| 0 <= i < self.items.len() ==> self.contents@.contains(#[trigger] self.items[i]@)
        &&& forall|k: Seq<u8>| #[trigger]
            self.contents@.contains(k) ==> exists|i: int|
                0 <= i < self.items.len() && self.items[i]@ == k
    }

    /// The empty set.
    pub fn new() -> (r: AddressSet)
        ensures
            r.wf(),
            r@ == Set::<Seq<u8>>::empty(),
    {
        AddressSet { items: Vec::new(), contents: Ghost(Set::empty()) }
    }

    fn find(&self, address: &[u8]) -> (r: Option<usize>)
        requires
            self.wf(),
        ensures
            match r {
                Some(i) => i < self.items.len() && self.items[i as int]@ == address@,
                None => !self@.contains(address@),
            },
    {
        let mut i: usize = 0;
        while i < self.items.len()
            invariant
                self.wf(),
                i <= self.items.len(),
                forall|j: int| 0 <= j < i ==> self.items[j]@ != address@,
            decreases self.items.len() - i,
        {
            if bytes_eq(self.items[i].as_slice(), address) {
                return Some(i);
            }
            i = i + 1;
        }
        None
    }

    /// Whether `address` is in the set.
    pub fn contains(&self, address: &[u8]) -> (r: bool)
        requires
            self.wf(),
        ensures
            r == self@.contains(address@),
    {
        self.find(address).is_some()
    }

    /// Adds `address`; tells whether it was absent before.
    pub fn insert(&mut self, address: &[u8]) -> (r: bool)
        requires
            old(self).wf(),
        ensures
            final(self).wf(),
            final(self)@ == old(self)@.insert(address@),
            r == !old(self)@.contains(address@),
    {
        match self.find(address) {
            Some(_) => {
                assert(self.contents@.insert(address@) =~= self.contents@);
                false
            },
            None => {
                let ghost old_items = self.items@;
                self.items.push(bytes_to_vec(address));
                self.contents = Ghost(self.contents@.insert(address@));
                let n = self.items.len() - 1;
                assert forall|k: Seq<u8>| #[trigger]
                    self.contents@.contains(k) implies exists|j: int|
                    0 <= j < self.items.len() && self.items[j]@ == k by {
                    if k == address@ {
                        assert(self.items[n as int]@ == k);
                    } else {
                        let j0 = choose|j: int| 0 <= j < old_items.len() && old_items[j]@ == k;
                        assert(self.items[j0]@ == k);
                    }
                }
                assert forall|a: int| 0 <= a < self.items.len() implies self.contents@.contains(
                    #[trigger] self.items[a]@) by {
                    if a < n {
                        assert(self.items[a] == old_items[a]);
                    }
                }
                assert forall|a: int, c: int|
                    0 <= a < self.items.len() && 0 <= c < self.items.len() && a
                        != c implies self.items[a]@ != self.items[c]@ by {
                    if a < n {
                        assert(old(self).contents@.contains(old_items[a]@));
                    }
                    if c < n {
                        assert(old(self).contents@.contains(old_items[c]@));
                    }
                }
                true
            },
        }
    }

    /// Removes `address`; tells whether it was present.
    pub fn remove(&mut self, address: &[u8]) -> (r: bool)
        requires
            old(self).wf(),
        ensures
            final(self).wf(),
            final(self)@ == old(self)@.remove(address@),
            r == old(self)@.contains(address@),
    {
        match self.find(address) {
            None => {
                assert(self.contents@.remove(address@) =~= self.contents@);
                false
            },
            Some(i) => {
                let ghost old_items = self.items@;
                self.items.remove(i);
                self.contents = Ghost(self.contents@.remove(address@));
                assert forall|k: Seq<u8>| #[trigger]
                    self.contents@.contains(k) implies exists|j: int|
                    0 <= j < self.items.len() && self.items[j]@ == k by {
                    let j0 = choose|j: int| 0 <= j < old_items.len() && old_items[j]@ == k;
                    if j0 < i {
                        assert(self.items[j0]@ == k);
                    } else {
                        assert(j0 != i);
                        assert(self.items[j0 - 1]@ == k);
                    }
                }
                assert forall|a: int| 0 <= a < self.items.len() implies self.contents@.contains(
                    #[trigger] self.items[a]@) by {
                    let b = if a < i { a } else { a + 1 };
                    assert(self.items[a] == old_items[b]);
                    assert(old_items[b]@ != old_items[i as int]@);
                }
                assert forall|a: int, c: int|
                    0 <= a < self.items.len() && 0 <= c < self.items.len() && a
                        != c implies self.items[a]@ != self.items[c]@ by {
                    let b = if a < i { a } else { a + 1 };
                    let d = if c < i { c } else { c + 1 };
                    assert(self.items[a] == old_items[b]);
                    assert(self.items[c] == old_items[d]);
                }
                true
            },
        }
    }
}

} // verus!
