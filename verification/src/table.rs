//! A keyed table: the storage shape of every on-chain record collection.
//!
//! Keys are made of up to two account identifiers and one byte string, so one
//! table type serves records keyed by course id, by account, by an
//! (account, account) pair or by an (account, course id) pair.
use vstd::prelude::*;

verus! {

/// An account identifier (a Stellar address, interned as a number).
pub type Addr = u64;

/// The mathematical form of a table key.
pub type KeyView = (Addr, Addr, Seq<u8>);

/// Key of a record keyed by a byte string (course id, certificate id, ...).
pub open spec fn tkey(t: Seq<u8>) -> KeyView {
    (0, 0, t)
}

/// Key of a record keyed by one account.
pub open spec fn akey(a: Addr) -> KeyView {
    (a, 0, Seq::<u8>::empty())
}

/// Key of a record keyed by two accounts.
pub open spec fn pkey(a: Addr, b: Addr) -> KeyView {
    (a, b, Seq::<u8>::empty())
}

/// Key of a record keyed by an account and a byte string.
pub open spec fn atkey(a: Addr, t: Seq<u8>) -> KeyView {
    (a, 0, t)
}

/// Copies a byte string.
pub fn copy_bytes(v: &Vec<u8>) -> (r: Vec<u8>)
    ensures
        r@ == v@,
{
    let mut r: Vec<u8> = Vec::new();
    let mut i: usize = 0;
    while i < v.len()
        invariant
            i <= v.len(),
            r@ == v@.subrange(0, i as int),
        decreases v.len() - i,
    {
        r.push(v[i]);
        i = i + 1;
        assert(r@ =~= v@.subrange(0, i as int));
    }
    assert(r@ =~= v@);
    r
}

/// Compares two byte strings.
pub fn bytes_eq(a: &Vec<u8>, b: &Vec<u8>) -> (r: bool)
    ensures
        r == (a@ == b@),
{
    if a.len() != b.len() {
        return false;
    }
    let mut i: usize = 0;
    while i < a.len()
        invariant
            i <= a.len(),
            a.len() == b.len(),
            forall|j: int| 0 <= j < i ==> a@[j] == b@[j],
        decreases a.len() - i,
    {
        if a[i] != b[i] {
            return false;
        }
        i = i + 1;
    }
    assert(a@ =~= b@);
    true
}

/// A table key.
pub struct Key {
    pub addr: Addr,
    pub addr2: Addr,
    pub text: Vec<u8>,
}

impl View for Key {
    type V = KeyView;

    open spec fn view(&self) -> KeyView {
        (self.addr, self.addr2, self.text@)
    }
}

impl Key {
    pub fn of_text(t: &Vec<u8>) -> (k: Key)
        ensures
            k@ == tkey(t@),
    {
        Key { addr: 0, addr2: 0, text: copy_bytes(t) }
    }

    pub fn of_addr(a: Addr) -> (k: Key)
        ensures
            k@ == akey(a),
    {
        let k = Key { addr: a, addr2: 0, text: Vec::new() };
        assert(k.text@ =~= Seq::<u8>::empty());
        k
    }

    pub fn of_pair(a: Addr, b: Addr) -> (k: Key)
        ensures
            k@ == pkey(a, b),
    {
        let k = Key { addr: a, addr2: b, text: Vec::new() };
        assert(k.text@ =~= Seq::<u8>::empty());
        k
    }

    pub fn of_addr_text(a: Addr, t: &Vec<u8>) -> (k: Key)
        ensures
            k@ == atkey(a, t@),
    {
        Key { addr: a, addr2: 0, text: copy_bytes(t) }
    }

    pub fn equals(&self, other: &Key) -> (r: bool)
        ensures
            r == (self@ == other@),
    {
        self.addr == other.addr && self.addr2 == other.addr2 && bytes_eq(&self.text, &other.text)
    }
}

/// Values that can be copied with an equal view.
pub trait Dup: View + Sized {
    fn dup(&self) -> (r: Self)
        ensures
            r@ == self@,
    ;
}

impl Dup for () {
    fn dup(&self) -> (r: Self) {
        ()
    }
}

impl Dup for u32 {
    fn dup(&self) -> (r: Self) {
        *self
    }
}

impl Dup for u64 {
    fn dup(&self) -> (r: Self) {
        *self
    }
}

impl Dup for i128 {
    fn dup(&self) -> (r: Self) {
        *self
    }
}

impl Dup for Key {
    fn dup(&self) -> (r: Self) {
        Key { addr: self.addr, addr2: self.addr2, text: copy_bytes(&self.text) }
    }
}

/// A table of records, viewed as a finite map from keys to record views.
pub struct Table<V: View> {
    keys: Vec<Key>,
    vals: Vec<V>,
    map: Ghost<Map<KeyView, V::V>>,
}

impl<V: View> View for Table<V> {
    type V = Map<KeyView, V::V>;

    closed spec fn view(&self) -> Map<KeyView, V::V> {
        self.map@
    }
}

impl<V: View> Table<V> {
    /// The table's internal consistency.
    pub closed spec fn wf(&self) -> bool {
        &&& self.keys.len() == self.vals.len()
        &&& forall|i: int|
            0 <= i < self.keys.len() ==> #[trigger] self.map@.contains_key(self.keys@[i]@)
                && self.map@[self.keys@[i]@] == self.vals@[i]@
        &&& forall|i: int, j: int|
            0 <= i < self.keys.len() && 0 <= j < self.keys.len() && i != j ==> #[trigger] self.keys@[i]@
                != #[trigger] self.keys@[j]@
        &&& forall|k: KeyView| #[trigger]
            self.map@.contains_key(k) ==> exists|i: int|
                0 <= i < self.keys.len() && #[trigger] self.keys@[i]@ == k
        &&& self.map@.dom().finite()
    }

    pub fn new() -> (t: Self)
        ensures
            t.wf(),
            t@ == Map::<KeyView, V::V>::empty(),
    {
        Table { keys: Vec::new(), vals: Vec::new(), map: Ghost(Map::empty()) }
    }

    /// Position of a key, if present.
    fn find(&self, k: &Key) -> (r: Option<usize>)
        requires
            self.wf(),
        ensures
            match r {
                Some(i) => i < self.keys.len() && self.keys@[i as int]@ == k@,
                None => !self@.contains_key(k@),
            },
    {
        let mut i: usize = 0;
        while i < self.keys.len()
            invariant
                self.wf(),
                i <= self.keys.len(),
                forall|j: int| 0 <= j < i ==> self.keys@[j]@ != k@,
            decreases self.keys.len() - i,
        {
            if self.keys[i].equals(k) {
                return Some(i);
            }
            i = i + 1;
        }
        proof {
            if self.map@.contains_key(k@) {
                let w = choose|j: int| 0 <= j < self.keys.len() && #[trigger] self.keys@[j]@ == k@;
                assert(self.keys@[w]@ == k@);
            }
        }
        None
    }

    pub fn contains(&self, k: &Key) -> (r: bool)
        requires
            self.wf(),
        ensures
            r == self@.contains_key(k@),
    {
        match self.find(k) {
            Some(i) => {
                assert(self.map@.contains_key(self.keys@[i as int]@));
                true
            },
            None => false,
        }
    }

    pub fn get(&self, k: &Key) -> (r: Option<&V>)
        requires
            self.wf(),
        ensures
            match r {
                Some(v) => self@.contains_key(k@) && v@ == self@[k@],
                None => !self@.contains_key(k@),
            },
    {
        match self.find(k) {
            Some(i) => {
                assert(self.map@.contains_key(self.keys@[i as int]@));
                Some(&self.vals[i])
            },
            None => None,
        }
    }

    /// Inserts or replaces the record under a key.
    pub fn set(&mut self, k: Key, v: V)
        requires
            old(self).wf(),
        ensures
            final(self).wf(),
            final(self)@ == old(self)@.insert(k@, v@),
    {
        let ghost old_keys = self.keys@;
        let ghost vv = v@;
        let ghost kv = k@;
        match self.find(&k) {
            Some(i) => {
                self.vals.set(i, v);
                self.map = Ghost(self.map@.insert(kv, vv));
                assert forall|j: int| 0 <= j < self.keys.len() implies #[trigger] self.map@.contains_key(
                    self.keys@[j]@,
                ) && self.map@[self.keys@[j]@] == self.vals@[j]@ by {
                    if j != i {
                        assert(old_keys[j]@ != old_keys[i as int]@);
                        assert(old(self).map@.contains_key(old_keys[j]@));
                    }
                }
                assert forall|kk: KeyView| #[trigger] self.map@.contains_key(kk) implies exists|j: int|
                    0 <= j < self.keys.len() && #[trigger] self.keys@[j]@ == kk by {
                    if kk == kv {
                        assert(self.keys@[i as int]@ == kk);
                    } else {
                        assert(old(self).map@.contains_key(kk));
                    }
                }
            },
            None => {
                self.keys.push(k);
                self.vals.push(v);
                self.map = Ghost(self.map@.insert(kv, vv));
                let n = self.keys.len() - 1;
                assert(self.keys@[n as int]@ == kv);
                assert forall|a: int, b: int|
                    0 <= a < self.keys.len() && 0 <= b < self.keys.len() && a != b implies #[trigger] self.keys@[a]@
                    != #[trigger] self.keys@[b]@ by {
                    if a < n && b < n {
                        assert(self.keys@[a] == old_keys[a]);
                        assert(self.keys@[b] == old_keys[b]);
                    } else if a < n {
                        assert(self.keys@[a] == old_keys[a]);
                        assert(old(self).map@.contains_key(old_keys[a]@));
                    } else if b < n {
                        assert(self.keys@[b] == old_keys[b]);
                        assert(old(self).map@.contains_key(old_keys[b]@));
                    }
                }
                assert forall|j: int| 0 <= j < self.keys.len() implies #[trigger] self.map@.contains_key(
                    self.keys@[j]@,
                ) && self.map@[self.keys@[j]@] == self.vals@[j]@ by {
                    if j < n {
                        assert(self.keys@[j] == old_keys[j]);
                        assert(old(self).map@.contains_key(old_keys[j]@));
                    }
                }
                assert forall|kk: KeyView| #[trigger] self.map@.contains_key(kk) implies exists|j: int|
                    0 <= j < self.keys.len() && #[trigger] self.keys@[j]@ == kk by {
                    if kk == kv {
                        assert(self.keys@[n as int]@ == kk);
                    } else {
                        assert(old(self).map@.contains_key(kk));
                        let w = choose|j: int|
                            0 <= j < old_keys.len() && #[trigger] old_keys[j]@ == kk;
                        assert(self.keys@[w]@ == kk);
                    }
                }
            },
        }
    }

    /// Removes the record under a key, handing it back.
    pub fn remove(&mut self, k: &Key) -> (r: Option<V>)
        requires
            old(self).wf(),
        ensures
            final(self).wf(),
            final(self)@ == old(self)@.remove(k@),
            match r {
                Some(v) => old(self)@.contains_key(k@) && v@ == old(self)@[k@],
                None => !old(self)@.contains_key(k@),
            },
    {
        match self.find(k) {
            None => {
                assert(self.map@ =~= self.map@.remove(k@));
                None
            },
            Some(i) => {
                let ghost old_keys = self.keys@;
                let ghost old_vals = self.vals@;
                let ghost kv = k@;
                assert(self.map@.contains_key(old_keys[i as int]@));
                let _ = self.keys.swap_remove(i);
                let v = self.vals.swap_remove(i);
                self.map = Ghost(self.map@.remove(kv));
                let ghost n = old_keys.len() - 1;
                assert forall|j: int| 0 <= j < self.keys.len() implies #[trigger] self.map@.contains_key(
                    self.keys@[j]@,
                ) && self.map@[self.keys@[j]@] == self.vals@[j]@ by {
                    if j == i {
                        assert(self.keys@[j] == old_keys[n]);
                        assert(old_keys[n]@ != old_keys[i as int]@);
                        assert(old(self).map@.contains_key(old_keys[n]@));
                    } else {
                        assert(self.keys@[j] == old_keys[j]);
                        assert(old_keys[j]@ != old_keys[i as int]@);
                        assert(old(self).map@.contains_key(old_keys[j]@));
                    }
                }
                assert forall|a: int, b: int|
                    0 <= a < self.keys.len() && 0 <= b < self.keys.len() && a != b implies #[trigger] self.keys@[a]@
                    != #[trigger] self.keys@[b]@ by {
                    let oa = if a == i { n } else { a };
                    let ob = if b == i { n } else { b };
                    assert(self.keys@[a] == old_keys[oa]);
                    assert(self.keys@[b] == old_keys[ob]);
                }
                assert forall|kk: KeyView| #[trigger] self.map@.contains_key(kk) implies exists|j: int|
                    0 <= j < self.keys.len() && #[trigger] self.keys@[j]@ == kk by {
                    assert(old(self).map@.contains_key(kk));
                    let w = choose|j: int| 0 <= j < old_keys.len() && #[trigger] old_keys[j]@ == kk;
                    assert(w != i);
                    if w == n {
                        assert(self.keys@[i as int]@ == kk);
                    } else {
                        assert(self.keys@[w]@ == kk);
                    }
                }
                Some(v)
            },
        }
    }
}

impl<V: Dup> Table<V> {
    /// Copies of every record with its key.
    pub fn entries(&self) -> (r: Vec<(Key, V)>)
        requires
            self.wf(),
        ensures
            forall|i: int|
                0 <= i < r.len() ==> #[trigger] self@.contains_key(r@[i].0@) && self@[r@[i].0@]
                    == r@[i].1@,
            forall|k: KeyView| #[trigger]
                self@.contains_key(k) ==> exists|i: int| 0 <= i < r.len() && #[trigger] r@[i].0@ == k,
            forall|i: int, j: int|
                0 <= i < r.len() && 0 <= j < r.len() && i != j ==> #[trigger] r@[i].0@ != #[trigger] r@[j].0@,
    {
        let mut r: Vec<(Key, V)> = Vec::new();
        let mut i: usize = 0;
        while i < self.keys.len()
            invariant
                self.wf(),
                i <= self.keys.len(),
                r.len() == i,
                forall|j: int| 0 <= j < i ==> #[trigger] r@[j].0@ == self.keys@[j]@ && r@[j].1@ == self.vals@[j]@,
            decreases self.keys.len() - i,
        {
            r.push((self.keys[i].dup(), self.vals[i].dup()));
            i = i + 1;
        }
        assert forall|k: KeyView| #[trigger] self@.contains_key(k) implies exists|j: int|
            0 <= j < r.len() && #[trigger] r@[j].0@ == k by {
            let w = choose|j: int| 0 <= j < self.keys.len() && #[trigger] self.keys@[j]@ == k;
            assert(r@[w].0@ == k);
        }
        assert forall|a: int, b: int|
            0 <= a < r.len() && 0 <= b < r.len() && a != b implies #[trigger] r@[a].0@
            != #[trigger] r@[b].0@ by {
            assert(r@[a].0@ == self.keys@[a]@);
            assert(r@[b].0@ == self.keys@[b]@);
        }
        assert forall|a: int| 0 <= a < r.len() implies #[trigger] self@.contains_key(r@[a].0@)
            && self@[r@[a].0@] == r@[a].1@ by {
            assert(r@[a].0@ == self.keys@[a]@);
            assert(self.map@.contains_key(self.keys@[a]@));
        }
        r
    }

    /// A copy of the whole table.
    pub fn dup_table(&self) -> (r: Self)
        requires
            self.wf(),
        ensures
            r.wf(),
            r@ == self@,
    {
        let mut keys: Vec<Key> = Vec::new();
        let mut vals: Vec<V> = Vec::new();
        let mut i: usize = 0;
        while i < self.keys.len()
            invariant
                self.wf(),
                i <= self.keys.len(),
                keys.len() == i,
                vals.len() == i,
                forall|j: int| 0 <= j < i ==> #[trigger] keys@[j]@ == self.keys@[j]@,
                forall|j: int| 0 <= j < i ==> #[trigger] vals@[j]@ == self.vals@[j]@,
            decreases self.keys.len() - i,
        {
            keys.push(self.keys[i].dup());
            vals.push(self.vals[i].dup());
            i = i + 1;
        }
        let r = Table { keys, vals, map: Ghost(self.map@) };
        assert forall|a: int, b: int|
            0 <= a < r.keys.len() && 0 <= b < r.keys.len() && a != b implies #[trigger] r.keys@[a]@
            != #[trigger] r.keys@[b]@ by {
            assert(r.keys@[a]@ == self.keys@[a]@);
            assert(r.keys@[b]@ == self.keys@[b]@);
        }
        assert forall|j: int| 0 <= j < r.keys.len() implies #[trigger] r.map@.contains_key(
            r.keys@[j]@,
        ) && r.map@[r.keys@[j]@] == r.vals@[j]@ by {
            assert(r.keys@[j]@ == self.keys@[j]@);
            assert(self.map@.contains_key(self.keys@[j]@));
        }
        assert forall|k: KeyView| #[trigger] r.map@.contains_key(k) implies exists|j: int|
            0 <= j < r.keys.len() && #[trigger] r.keys@[j]@ == k by {
            let w = choose|j: int| 0 <= j < self.keys.len() && #[trigger] self.keys@[j]@ == k;
            assert(r.keys@[w]@ == k);
        }
        r
    }
}

} // verus!
