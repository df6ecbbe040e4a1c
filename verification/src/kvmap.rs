//! A string-keyed map with a mathematical `Map` view, used for every
//! parsed `key value` table in the library.
//!
//! Keys are held in insertion order and are unique; lookups compare the
//! full character sequence of the key.

use vstd::prelude::*;

use crate::text::str_eq_str;

verus! {

#[derive(Clone, Debug)]
pub struct KvMap<V> {
    keys: Vec<String>,
    vals: Vec<V>,
}

impl<V> KvMap<V> {
    /// Keys and values are paired and keys never repeat.
    pub closed spec fn wf(&self) -> bool {
        &&& self.keys@.len() == self.vals@.len()
        &&& forall|i: int, j: int|
            0 <= i < j < self.keys@.len() ==> self.keys@[i]@ != self.keys@[j]@
    }

    /// The entries as a mathematical map from character sequences to values.
    pub closed spec fn map_view(&self) -> Map<Seq<char>, V> {
        Map::new(
            |k: Seq<char>| exists|i: int| 0 <= i < self.keys@.len() && self.keys@[i]@ == k,
            |k: Seq<char>|
                self.vals@[choose|i: int| 0 <= i < self.keys@.len() && self.keys@[i]@ == k],
        )
    }

    /// Number of entries.
    pub closed spec fn spec_len(&self) -> nat {
        self.keys@.len()
    }

    pub fn new() -> (r: KvMap<V>)
        ensures
            r.wf(),
            r.map_view() == Map::<Seq<char>, V>::empty(),
            r.spec_len() == 0,
    {
        let r = KvMap { keys: Vec::new(), vals: Vec::new() };
        proof {
            assert(r.map_view() =~= Map::<Seq<char>, V>::empty());
        }
        r
    }

    pub fn len(&self) -> (r: usize)
        ensures
            r == self.spec_len(),
    {
        self.keys.len()
    }

    /// The key of the entry at position `i`, in insertion order.
    pub fn key_at(&self, i: usize) -> (r: &String)
        requires
            self.wf(),
            i < self.spec_len(),
        ensures
            r@ == self.key_view_at(i as int),
            self.map_view().contains_key(r@),
    {
        let r = &self.keys[i];
        proof {
            assert(exists|j: int| 0 <= j < self.keys@.len() && self.keys@[j]@ == r@);
        }
        r
    }

    /// The value of the entry at position `i`, in insertion order.
    pub fn val_at(&self, i: usize) -> (r: &V)
        requires
            self.wf(),
            i < self.spec_len(),
        ensures
            *r == self.map_view()[self.key_view_at(i as int)],
            self.map_view().contains_key(self.key_view_at(i as int)),
    {
        proof {
            let k = self.keys@[i as int]@;
            assert(exists|j: int| 0 <= j < self.keys@.len() && self.keys@[j]@ == k);
            let j = choose|j: int| 0 <= j < self.keys@.len() && self.keys@[j]@ == k;
            assert(j == i as int);
        }
        &self.vals[i]
    }

    /// The character sequence of the key at position `i`.
    pub closed spec fn key_view_at(&self, i: int) -> Seq<char> {
        self.keys@[i]@
    }

    pub fn get(&self, key: &str) -> (r: Option<&V>)
        requires
            self.wf(),
        ensures
            match r {
                Some(v) => self.map_view().contains_key(key@) && *v == self.map_view()[key@],
                None => !self.map_view().contains_key(key@),
            },
    {
        let n = self.keys.len();
        let mut i: usize = 0;
        while i < n
            invariant
                self.wf(),
                n == self.keys@.len(),
                i <= n,
                forall|j: int| 0 <= j < i ==> self.keys@[j]@ != key@,
            decreases n - i,
        {
            if str_eq_str(self.keys[i].as_str(), key) {
                proof {
                    let k = key@;
                    assert(self.keys@[i as int]@ == k);
                    let j = choose|j: int| 0 <= j < self.keys@.len() && self.keys@[j]@ == k;
                    assert(j == i as int);
                }
                return Some(&self.vals[i]);
            }
            i = i + 1;
        }
        proof {
            assert(!self.map_view().contains_key(key@));
        }
        None
    }

    /// Insert or overwrite; the map afterwards holds `v` at `key` and is
    /// otherwise unchanged.
    pub fn set(&mut self, key: String, v: V)
        requires
            old(self).wf(),
        ensures
            final(self).wf(),
            final(self).map_view() == old(self).map_view().insert(key@, v),
    {
        let n = self.keys.len();
        let mut i: usize = 0;
        while i < n
            invariant
                self.wf(),
                *self == *old(self),
                n == self.keys@.len(),
                i <= n,
                forall|j: int| 0 <= j < i ==> self.keys@[j]@ != key@,
            decreases n - i,
        {
            if str_eq_str(self.keys[i].as_str(), key.as_str()) {
                self.vals[i] = v;
                proof {
                    assert forall|k: Seq<char>|
                        #[trigger] final(self).map_view().contains_key(k)
                            == old(self).map_view().insert(key@, v).contains_key(k) by {
                        assert(final(self).keys@ == old(self).keys@);
                    }
                    assert forall|k: Seq<char>| final(self).map_view().contains_key(k)
                        implies #[trigger] final(self).map_view()[k] == old(
                        self,
                    ).map_view().insert(key@, v)[k] by {
                        let j = choose|j: int|
                            0 <= j < final(self).keys@.len() && final(self).keys@[j]@ == k;
                        if k == key@ {
                            assert(j == i as int);
                        } else {
                            assert(j != i as int);
                        }
                    }
                    assert(final(self).map_view() =~= old(self).map_view().insert(key@, v));
                }
                return ;
            }
            i = i + 1;
        }
        self.keys.push(key);
        self.vals.push(v);
        proof {
            let m0 = old(self).map_view();
            let m1 = final(self).map_view();
            let klen = final(self).keys@.len();
            assert forall|k: Seq<char>| #[trigger] m1.contains_key(k) == m0.insert(
                key@,
                v,
            ).contains_key(k) by {
                if m1.contains_key(k) {
                    let j = choose|j: int| 0 <= j < klen && final(self).keys@[j]@ == k;
                    if j < klen - 1 {
                        assert(old(self).keys@[j]@ == k);
                    }
                }
                if k != key@ && m0.contains_key(k) {
                    let j = choose|j: int|
                        0 <= j < old(self).keys@.len() && old(self).keys@[j]@ == k;
                    assert(final(self).keys@[j]@ == k);
                }
                if k == key@ {
                    assert(final(self).keys@[klen - 1]@ == k);
                }
            }
            assert forall|k: Seq<char>| m1.contains_key(k) implies #[trigger] m1[k] == m0.insert(
                key@,
                v,
            )[k] by {
                let j = choose|j: int| 0 <= j < klen && final(self).keys@[j]@ == k;
                if k == key@ {
                    assert(forall|x: int| 0 <= x < klen - 1 ==> old(self).keys@[x]@ != key@);
                    assert(j == klen - 1);
                } else {
                    assert(j < klen - 1);
                    assert(old(self).keys@[j]@ == k);
                    let j0 = choose|x: int|
                        0 <= x < old(self).keys@.len() && old(self).keys@[x]@ == k;
                    assert(j0 == j);
                }
            }
            assert(m1 =~= m0.insert(key@, v));
        }
    }

    /// The keys at positions are exactly the map's keys.
    pub proof fn lemma_positions(&self)
        requires
            self.wf(),
        ensures
            forall|j: int|
                0 <= j < self.spec_len() ==> self.map_view().contains_key(
                    #[trigger] self.key_view_at(j),
                ),
            forall|k: Seq<char>|
                #[trigger] self.map_view().contains_key(k) ==> exists|j: int|
                    0 <= j < self.spec_len() && self.key_view_at(j) == k,
            forall|a: int, b: int|
                0 <= a < b < self.spec_len() ==> self.key_view_at(a) != self.key_view_at(b),
    {
        assert forall|k: Seq<char>| #[trigger] self.map_view().contains_key(k) implies exists|j: int|
            0 <= j < self.spec_len() && self.key_view_at(j) == k by {
            let i = choose|i: int| 0 <= i < self.keys@.len() && self.keys@[i]@ == k;
            assert(self.key_view_at(i) == k);
        }
    }

    /// Move every entry of `src` into this map, overwriting shared keys.
    pub fn merge_from(&mut self, src: KvMap<V>)
        requires
            old(self).wf(),
            src.wf(),
        ensures
            final(self).wf(),
            final(self).map_view() == old(self).map_view().union_prefer_right(src.map_view()),
    {
        let mut src = src;
        let ghost self0 = self.map_view();
        let ghost src0 = src.map_view();
        loop
            invariant_except_break
                self.wf(),
                src.wf(),
                self0.union_prefer_right(src0) =~= self.map_view().union_prefer_right(
                    src.map_view(),
                ),
            ensures
                self.wf(),
                self.map_view() == self0.union_prefer_right(src0),
            decreases src.spec_len(),
        {
            if src.len() == 0 {
                proof {
                    src.lemma_positions();
                    assert(src.map_view() =~= Map::<Seq<char>, V>::empty());
                    assert(self.map_view().union_prefer_right(src.map_view()) =~= self.map_view());
                }
                break ;
            }
            proof {
                src.lemma_positions();
            }
            let key = src.key_at(0).clone();
            let ghost pre_self = self.map_view();
            let ghost pre_src = src.map_view();
            match src.remove(key.as_str()) {
                Some(v) => {
                    self.set(key, v);
                    proof {
                        assert(self.map_view().union_prefer_right(src.map_view()) =~= pre_self
                            .union_prefer_right(pre_src));
                    }
                },
                None => {
                    proof {
                        assert(false);
                    }
                },
            }
        }
    }

    /// Replace the value of the entry at position `i`, keeping every key.
    pub fn set_val_at(&mut self, i: usize, v: V)
        requires
            old(self).wf(),
            i < old(self).spec_len(),
        ensures
            final(self).wf(),
            final(self).spec_len() == old(self).spec_len(),
            forall|j: int|
                0 <= j < old(self).spec_len() ==> final(self).key_view_at(j) == old(
                    self,
                ).key_view_at(j),
            final(self).map_view() == old(self).map_view().insert(old(self).key_view_at(i as int), v),
    {
        self.vals[i] = v;
        proof {
            let key = old(self).key_view_at(i as int);
            assert forall|k: Seq<char>|
                #[trigger] final(self).map_view().contains_key(k) == old(self).map_view().insert(
                    key,
                    v,
                ).contains_key(k) by {
                assert(final(self).keys@ == old(self).keys@);
            }
            assert forall|k: Seq<char>| final(self).map_view().contains_key(k)
                implies #[trigger] final(self).map_view()[k] == old(self).map_view().insert(
                key,
                v,
            )[k] by {
                let j = choose|j: int|
                    0 <= j < final(self).keys@.len() && final(self).keys@[j]@ == k;
                if k == key {
                    assert(j == i as int);
                } else {
                    assert(j != i as int);
                }
            }
            assert(final(self).map_view() =~= old(self).map_view().insert(key, v));
        }
    }

    /// Take the value at position `i`, leaving `replacement` in its place;
    /// keys and positions are untouched.
    pub fn take_val_at(&mut self, i: usize, replacement: V) -> (r: V)
        requires
            old(self).wf(),
            i < old(self).spec_len(),
        ensures
            final(self).wf(),
            final(self).spec_len() == old(self).spec_len(),
            forall|j: int|
                0 <= j < old(self).spec_len() ==> final(self).key_view_at(j) == old(
                    self,
                ).key_view_at(j),
            r == old(self).map_view()[old(self).key_view_at(i as int)],
            final(self).map_view() == old(self).map_view().insert(
                old(self).key_view_at(i as int),
                replacement,
            ),
    {
        proof {
            let k = self.keys@[i as int]@;
            assert(exists|j: int| 0 <= j < self.keys@.len() && self.keys@[j]@ == k);
            let j = choose|j: int| 0 <= j < self.keys@.len() && self.keys@[j]@ == k;
            assert(j == i as int);
        }
        let r = self.vals.remove(i);
        self.vals.insert(i, replacement);
        proof {
            assert(final(self).vals@ =~= old(self).vals@.update(i as int, replacement));
            let key = old(self).key_view_at(i as int);
            assert forall|k: Seq<char>|
                #[trigger] final(self).map_view().contains_key(k) == old(self).map_view().insert(
                    key,
                    replacement,
                ).contains_key(k) by {
                assert(final(self).keys@ == old(self).keys@);
            }
            assert forall|k: Seq<char>| final(self).map_view().contains_key(k)
                implies #[trigger] final(self).map_view()[k] == old(self).map_view().insert(
                key,
                replacement,
            )[k] by {
                let j = choose|j: int|
                    0 <= j < final(self).keys@.len() && final(self).keys@[j]@ == k;
                if k == key {
                    assert(j == i as int);
                } else {
                    assert(j != i as int);
                }
            }
            assert(final(self).map_view() =~= old(self).map_view().insert(key, replacement));
        }
        r
    }

    /// Remove the entry at `key`, handing its value back; the map afterwards
    /// no longer holds the key and is otherwise unchanged.
    pub fn remove(&mut self, key: &str) -> (r: Option<V>)
        requires
            old(self).wf(),
        ensures
            final(self).wf(),
            match r {
                Some(v) => {
                    &&& old(self).map_view().contains_key(key@)
                    &&& v == old(self).map_view()[key@]
                    &&& final(self).map_view() == old(self).map_view().remove(key@)
                    &&& final(self).spec_len() == old(self).spec_len() - 1
                },
                None => {
                    &&& !old(self).map_view().contains_key(key@)
                    &&& final(self).map_view() == old(self).map_view()
                    &&& final(self).spec_len() == old(self).spec_len()
                },
            },
    {
        let n = self.keys.len();
        let mut i: usize = 0;
        while i < n
            invariant
                self.wf(),
                *self == *old(self),
                n == self.keys@.len(),
                i <= n,
                forall|j: int| 0 <= j < i ==> self.keys@[j]@ != key@,
            decreases n - i,
        {
            if str_eq_str(self.keys[i].as_str(), key) {
                proof {
                    let k = key@;
                    let j = choose|j: int| 0 <= j < self.keys@.len() && self.keys@[j]@ == k;
                    assert(j == i as int);
                }
                self.keys.remove(i);
                let v = self.vals.remove(i);
                proof {
                    let m0 = old(self).map_view();
                    let m0r = m0.remove(key@);
                    let m1 = final(self).map_view();
                    let ks0 = old(self).keys@;
                    let ks1 = final(self).keys@;
                    assert(ks1 =~= ks0.subrange(0, i as int) + ks0.subrange(
                        i + 1,
                        ks0.len() as int,
                    ));
                    assert forall|a: int, b: int| 0 <= a < b < ks1.len() implies ks1[a]@
                        != ks1[b]@ by {
                        let a0 = if a < i as int { a } else { a + 1 };
                        let b0 = if b < i as int { b } else { b + 1 };
                        assert(ks1[a]@ == ks0[a0]@);
                        assert(ks1[b]@ == ks0[b0]@);
                    }
                    assert forall|k: Seq<char>| #[trigger] m1.contains_key(k)
                        == m0r.contains_key(k) by {
                        if m1.contains_key(k) {
                            let j = choose|j: int| 0 <= j < ks1.len() && ks1[j]@ == k;
                            let j0 = if j < i as int { j } else { j + 1 };
                            assert(ks0[j0]@ == k);
                            assert(k != key@);
                        }
                        if k != key@ && m0.contains_key(k) {
                            let j0 = choose|j: int| 0 <= j < ks0.len() && ks0[j]@ == k;
                            assert(j0 != i as int);
                            let j = if j0 < i as int { j0 } else { j0 - 1 };
                            assert(ks1[j]@ == k);
                        }
                    }
                    assert forall|k: Seq<char>| m1.contains_key(k) implies #[trigger] m1[k]
                        == m0r[k] by {
                        let j = choose|j: int| 0 <= j < ks1.len() && ks1[j]@ == k;
                        let j0 = if j < i as int { j } else { j + 1 };
                        assert(ks0[j0]@ == k);
                        let jj = choose|x: int| 0 <= x < ks0.len() && ks0[x]@ == k;
                        assert(jj == j0);
                        assert(final(self).vals@[j] == old(self).vals@[j0]);
                    }
                    assert(m1 =~= m0r);
                }
                return Some(v);
            }
            i = i + 1;
        }
        proof {
            assert(!self.map_view().contains_key(key@));
        }
        None
    }
}

} // verus!
