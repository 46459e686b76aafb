//! An insertion-ordered string-keyed map, kept as parallel vectors.
//! Insertion order is semantically meaningful for page sections and
//! link-list categories, so the order of entries is part of the interface.

use vstd::prelude::*;

verus! {

pub struct KvMap<V> {
    keys: Vec<String>,
    vals: Vec<V>,
}

impl<V> KvMap<V> {
    /// Number of entries.
    pub closed spec fn spec_len(&self) -> nat {
        self.keys@.len()
    }

    /// Key of the entry at position `i`, in insertion order.
    pub closed spec fn key_at(&self, i: int) -> Seq<char> {
        self.keys@[i]@
    }

    /// Value of the entry at position `i`, in insertion order.
    pub closed spec fn val_at(&self, i: int) -> V {
        self.vals@[i]
    }

    /// Well-formed: as many keys as values, and no key occurs twice.
    pub open spec fn wf(&self) -> bool {
        &&& self.spec_len() == self.vals_len()
        &&& forall|i: int, j: int|
            0 <= i < j < self.spec_len() ==> self.key_at(i) != self.key_at(j)
    }

    pub closed spec fn vals_len(&self) -> nat {
        self.vals@.len()
    }

    pub open spec fn contains_key(&self, k: Seq<char>) -> bool {
        exists|i: int| 0 <= i < self.spec_len() && self.key_at(i) == k
    }

    /// Position of key `k`; meaningful only when `contains_key(k)` and `wf()`.
    pub open spec fn index_of(&self, k: Seq<char>) -> int {
        choose|i: int| 0 <= i < self.spec_len() && self.key_at(i) == k
    }

    pub open spec fn spec_get(&self, k: Seq<char>) -> Option<V> {
        if self.contains_key(k) {
            Some(self.val_at(self.index_of(k)))
        } else {
            None
        }
    }

    /// In a well-formed map the position of a present key is unique.
    pub proof fn lemma_index_of(&self, i: int)
        requires
            self.wf(),
            0 <= i < self.spec_len(),
        ensures
            self.index_of(self.key_at(i)) == i,
            self.contains_key(self.key_at(i)),
            self.spec_get(self.key_at(i)) == Some(self.val_at(i)),
    {
        let k = self.key_at(i);
        assert(self.contains_key(k));
        let j = self.index_of(k);
        assert(0 <= j < self.spec_len() && self.key_at(j) == k);
        if i != j {
            assert(self.key_at(i) != self.key_at(j));
        }
    }

    pub fn new() -> (r: Self)
        ensures
            r.wf(),
            r.spec_len() == 0,
    {
        KvMap { keys: Vec::new(), vals: Vec::new() }
    }

    pub fn len(&self) -> (n: usize)
        ensures
            n == self.spec_len(),
    {
        self.keys.len()
    }

    pub fn key_idx(&self, i: usize) -> (k: &String)
        requires
            self.wf(),
            i < self.spec_len(),
        ensures
            k@ == self.key_at(i as int),
    {
        &self.keys[i]
    }

    pub fn val_idx(&self, i: usize) -> (v: &V)
        requires
            self.wf(),
            i < self.spec_len(),
        ensures
            *v == self.val_at(i as int),
    {
        &self.vals[i]
    }

    /// Look a key up; `None` exactly when the key is absent.
    pub fn get(&self, k: &str) -> (r: Option<&V>)
        requires
            self.wf(),
        ensures
            match r {
                Some(v) => self.contains_key(k@) && Some(*v) == self.spec_get(k@),
                None => !self.contains_key(k@),
            },
    {
        let n = self.keys.len();
        let mut i: usize = 0;
        while i < n
            invariant
                self.wf(),
                n == self.spec_len(),
                i <= n,
                forall|j: int| 0 <= j < i ==> self.key_at(j) != k@,
            decreases n - i,
        {
            if str_eq(self.keys[i].as_str(), k) {
                proof {
                    self.lemma_index_of(i as int);
                }
                return Some(&self.vals[i]);
            }
            i += 1;
        }
        None
    }

    /// Append an entry if the key is new; an existing key leaves the map
    /// unchanged and is reported with `false`.
    pub fn push(&mut self, k: String, v: V) -> (added: bool)
        requires
            old(self).wf(),
        ensures
            final(self).wf(),
            added == !old(self).contains_key(k@),
            added ==> {
                &&& final(self).spec_len() == old(self).spec_len() + 1
                &&& final(self).key_at(old(self).spec_len() as int) == k@
                &&& final(self).val_at(old(self).spec_len() as int) == v
            },
            !added ==> *final(self) == *old(self),
            forall|i: int|
                0 <= i < old(self).spec_len() ==> final(self).key_at(i) == old(self).key_at(i)
                    && final(self).val_at(i) == old(self).val_at(i),
            final(self).spec_len() >= old(self).spec_len(),
    {
        if self.get(k.as_str()).is_some() {
            return false;
        }
        let ghost oldlen = self.spec_len() as int;
        let ghost oldself = *self;
        self.keys.push(k);
        self.vals.push(v);
        proof {
            assert forall|i: int, j: int|
                0 <= i < j < self.spec_len() implies self.key_at(i) != self.key_at(j) by {
                if j < oldlen {
                    assert(oldself.key_at(i) != oldself.key_at(j));
                } else {
                    assert(self.key_at(j) == k@);
                    assert(self.key_at(i) == oldself.key_at(i));
                    if self.key_at(i) == k@ {
                        assert(oldself.contains_key(k@));
                    }
                }
            }
        }
        true
    }
}

/// String-slice equality, decided through `String` equality.
pub fn str_eq(a: &str, b: &str) -> (r: bool)
    ensures
        r == (a@ == b@),
{
    let sa: String = a.to_owned();
    let sb: String = b.to_owned();
    sa == sb
}

} // verus!
