//! The table of name suffixes already written to a message, and the offsets
//! at which they start, that name compression points back to.
use vstd::prelude::*;

verus! {

/// Whether two byte strings are equal.
pub fn bytes_equal(a: &[u8], b: &[u8]) -> (r: bool)
    ensures
        r == (a@ == b@),
{
    if a.len() != b.len() {
        return false;
    }
    let mut i: usize = 0;
    while i < a.len()
        invariant
            i <= a@.len(),
            a@.len() == b@.len(),
            forall|j: int| 0 <= j < i ==> a@[j] == b@[j],
        decreases a@.len() - i,
    {
        if a[i] != b[i] {
            return false;
        }
        i = i + 1;
    }
    assert(a@ =~= b@);
    true
}

/// A map from name suffixes (as bytes) to the offsets at which they were
/// written.
pub struct CompressionMap {
    keys: Vec<Vec<u8>>,
    offsets: Vec<usize>,
}

impl CompressionMap {
    /// One offset per suffix, and no suffix twice.
    #[verifier::type_invariant]
    spec fn wf(self) -> bool {
        &&& self.keys@.len() == self.offsets@.len()
        &&& forall|i: int, j: int|
            0 <= i < self.keys@.len() && 0 <= j < self.keys@.len() && i != j ==> self.keys@[i]@
                != self.keys@[j]@
    }

    spec fn has_key_at(self, k: Seq<u8>, i: int) -> bool {
        0 <= i < self.keys@.len() && self.keys@[i]@ == k
    }

    /// The suffixes held and their offsets.
    pub closed spec fn view(self) -> Map<Seq<u8>, usize> {
        Map::new(
            |k: Seq<u8>| exists|i: int| self.has_key_at(k, i),
            |k: Seq<u8>| self.offsets@[choose|i: int| self.has_key_at(k, i)],
        )
    }

    /// An empty table.
    pub fn new() -> (r: CompressionMap)
        ensures
            r.view() == Map::<Seq<u8>, usize>::empty(),
    {
        let r = CompressionMap { keys: Vec::new(), offsets: Vec::new() };
        assert(r.view() =~= Map::<Seq<u8>, usize>::empty());
        r
    }

    fn find(&self, key: &[u8]) -> (r: Option<usize>)
        ensures
            match r {
                Some(i) => self.has_key_at(key@, i as int),
                None => forall|i: int| !self.has_key_at(key@, i),
            },
    {
        let mut i: usize = 0;
        while i < self.keys.len()
            invariant
                i <= self.keys@.len(),
                forall|j: int| 0 <= j < i ==> !self.has_key_at(key@, j),
            decreases self.keys@.len() - i,
        {
            if bytes_equal(self.keys[i].as_slice(), key) {
                return Some(i);
            }
            i = i + 1;
        }
        None
    }

    /// The offset recorded for `key`, if any.
    pub fn get(&self, key: &[u8]) -> (r: Option<usize>)
        ensures
            r == (if self.view().contains_key(key@) {
                Some(self.view()[key@])
            } else {
                None::<usize>
            }),
    {
        proof {
            use_type_invariant(self);
        }
        match self.find(key) {
            Some(i) => {
                let ghost c = choose|j: int| self.has_key_at(key@, j);
                assert(self.has_key_at(key@, c));
                assert(c == i);
                Some(self.offsets[i])
            },
            None => None,
        }
    }

    /// Records `offset` for `key`, replacing what was recorded for it.
    pub fn insert(&mut self, key: Vec<u8>, offset: usize)
        ensures
            final(self).view() == old(self).view().insert(key@, offset),
    {
        proof {
            use_type_invariant(&*self);
        }
        let ghost before = self.view();
        let ghost k = key@;
        match self.find(key.as_slice()) {
            Some(i) => {
                let mut taken = CompressionMap::new();
                std::mem::swap(&mut taken, self);
                let CompressionMap { keys, mut offsets } = taken;
                offsets.set(i, offset);
                *self = CompressionMap { keys, offsets };
                proof {
                    assert forall|kk: Seq<u8>| #[trigger]
                        self.view().contains_key(kk) implies before.insert(k, offset).contains_key(
                        kk,
                    ) && self.view()[kk] == before.insert(k, offset)[kk] by {
                        let c = choose|j: int| self.has_key_at(kk, j);
                        assert(old(self).has_key_at(kk, c));
                        if kk != k {
                            let c0 = choose|j: int| old(self).has_key_at(kk, j);
                            assert(old(self).has_key_at(kk, c0));
                        } else {
                            assert(c == i);
                        }
                    }
                    assert forall|kk: Seq<u8>| #[trigger]
                        before.insert(k, offset).contains_key(kk) implies self.view().contains_key(
                        kk,
                    ) by {
                        if kk == k {
                            assert(self.has_key_at(kk, i as int));
                        } else {
                            let c0 = choose|j: int| old(self).has_key_at(kk, j);
                            assert(self.has_key_at(kk, c0));
                        }
                    }
                    assert(self.view() =~= before.insert(k, offset));
                }
            },
            None => {
                let mut taken = CompressionMap::new();
                std::mem::swap(&mut taken, self);
                let CompressionMap { mut keys, mut offsets } = taken;
                keys.push(key);
                offsets.push(offset);
                proof {
                    let n = old(self).keys@.len() as int;
                    assert(keys@.len() == n + 1 && keys@[n]@ == k);
                    assert forall|i: int, j: int|
                        0 <= i < keys@.len() && 0 <= j < keys@.len() && i != j implies keys@[i]@
                        != keys@[j]@ by {
                        if i == n {
                            assert(!old(self).has_key_at(k, j));
                        } else if j == n {
                            assert(!old(self).has_key_at(k, i));
                        } else {
                            assert(keys@[i] == old(self).keys@[i]);
                            assert(keys@[j] == old(self).keys@[j]);
                        }
                    }
                }
                *self = CompressionMap { keys, offsets };
                proof {
                    let n = old(self).keys@.len() as int;
                    assert(self.has_key_at(k, n));
                    assert forall|kk: Seq<u8>| #[trigger]
                        self.view().contains_key(kk) implies before.insert(k, offset).contains_key(
                        kk,
                    ) && self.view()[kk] == before.insert(k, offset)[kk] by {
                        let c = choose|j: int| self.has_key_at(kk, j);
                        if kk != k {
                            assert(old(self).has_key_at(kk, c));
                            let c0 = choose|j: int| old(self).has_key_at(kk, j);
                            assert(old(self).has_key_at(kk, c0));
                            assert(self.has_key_at(kk, c0));
                        } else {
                            assert(self.has_key_at(kk, n));
                        }
                    }
                    assert forall|kk: Seq<u8>| #[trigger]
                        before.insert(k, offset).contains_key(kk) implies self.view().contains_key(
                        kk,
                    ) by {
                        if kk == k {
                            assert(self.has_key_at(kk, n));
                        } else {
                            let c0 = choose|j: int| old(self).has_key_at(kk, j);
                            assert(self.has_key_at(kk, c0));
                        }
                    }
                    assert(self.view() =~= before.insert(k, offset));
                }
            },
        }
    }
}

} // verus!
