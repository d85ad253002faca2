//! The address-indexed record store.
//!
//! The persistence substrate guarantees each operation exclusive, atomic
//! access to the records it touches; this module models the durable state
//! those operations read and write. Its view is a map from address bytes to
//! record views, and every mutation is stated as a map operation.

use vstd::prelude::*;
use vstd::pervasive::VecAdditionalExecFns;
use crate::address::{Address, bytes_eq};
use crate::state::{Record, RecordV};

verus! {

struct Entry {
    addr: Address,
    record: Record,
}

/// The record store: each record lives at one derived address.
pub struct Store {
    entries: Vec<Entry>,
}

spec fn has_key(s: Seq<Entry>, k: Seq<u8>) -> bool {
    exists|i: int| 0 <= i < s.len() && (#[trigger] s[i].addr@) == k
}

spec fn idx_of(s: Seq<Entry>, k: Seq<u8>) -> int {
    choose|i: int| 0 <= i < s.len() && (#[trigger] s[i].addr@) == k
}

spec fn distinct_addrs(s: Seq<Entry>) -> bool {
    forall|p: int, q: int|
        0 <= p < q < s.len() ==> (#[trigger] s[p].addr@) != (#[trigger] s[q].addr@)
}

spec fn entry_map(s: Seq<Entry>) -> Map<Seq<u8>, RecordV> {
    Map::new(|k: Seq<u8>| has_key(s, k), |k: Seq<u8>| s[idx_of(s, k)].record@)
}

proof fn lemma_entry_at(s: Seq<Entry>, i: int)
    requires
        distinct_addrs(s),
        0 <= i < s.len(),
    ensures
        has_key(s, s[i].addr@),
        idx_of(s, s[i].addr@) == i,
        entry_map(s).contains_key(s[i].addr@),
        entry_map(s)[s[i].addr@] == s[i].record@,
{
    let k = s[i].addr@;
    assert(has_key(s, k));
    let j = idx_of(s, k);
    assert(0 <= j < s.len() && s[j].addr@ == k);
    if j < i {
        assert(s[j].addr@ != s[i].addr@);
    }
    if i < j {
        assert(s[i].addr@ != s[j].addr@);
    }
}

impl View for Store {
    type V = Map<Seq<u8>, RecordV>;

    closed spec fn view(&self) -> Map<Seq<u8>, RecordV> {
        entry_map(self.entries@)
    }
}

impl Store {
    /// Addresses are unique across the store's physical entries.
    pub closed spec fn wf(&self) -> bool {
        distinct_addrs(self.entries@)
    }

    /// An empty store.
    pub fn new() -> (s: Store)
        ensures
            s.wf(),
            s@ == Map::<Seq<u8>, RecordV>::empty(),
    {
        let s = Store { entries: Vec::new() };
        proof {
            assert(s@ =~= Map::<Seq<u8>, RecordV>::empty());
        }
        s
    }

    fn find(&self, a: &Address) -> (r: Option<usize>)
        requires
            self.wf(),
        ensures
            match r {
                Some(i) => i < self.entries@.len() && self.entries@[i as int].addr@ == a@
                    && self@.contains_key(a@)
                    && self@[a@] == self.entries@[i as int].record@,
                None => !self@.contains_key(a@),
            },
    {
        let n = self.entries.len();
        let mut i: usize = 0;
        while i < n
            invariant
                self.wf(),
                n == self.entries@.len(),
                i <= n,
                forall|j: int| 0 <= j < i ==> (#[trigger] self.entries@[j].addr@) != a@,
            decreases n - i,
        {
            if bytes_eq(&self.entries[i].addr, a) {
                proof {
                    lemma_entry_at(self.entries@, i as int);
                }
                return Some(i);
            }
            i += 1;
        }
        proof {
            if self@.contains_key(a@) {
                let w = choose|w: int|
                    0 <= w < self.entries@.len() && (#[trigger] self.entries@[w].addr@) == a@;
                assert(self.entries@[w].addr@ != a@);
            }
        }
        None
    }

    /// Whether a record occupies this address.
    pub fn contains(&self, a: &Address) -> (r: bool)
        requires
            self.wf(),
        ensures
            r == self@.contains_key(a@),
    {
        self.find(a).is_some()
    }

    /// The record at this address, if one exists.
    pub fn get(&self, a: &Address) -> (r: Option<&Record>)
        requires
            self.wf(),
        ensures
            match r {
                Some(rec) => self@.contains_key(a@) && rec@ == self@[a@],
                None => !self@.contains_key(a@),
            },
    {
        match self.find(a) {
            Some(i) => Some(&self.entries[i].record),
            None => None,
        }
    }

    /// Writes a record at an address: creates the entry if the address is
    /// unoccupied, else replaces what was there.
    pub fn put(&mut self, a: &Address, record: Record)
        requires
            old(self).wf(),
        ensures
            final(self).wf(),
            final(self)@ == old(self)@.insert(a@, record@),
    {
        match self.find(a) {
            Some(i) => self.put_at(i, a, record),
            None => self.put_fresh(a, record),
        }
    }

    fn put_fresh(&mut self, a: &Address, record: Record)
        requires
            old(self).wf(),
            !old(self)@.contains_key(a@),
        ensures
            final(self).wf(),
            final(self)@ == old(self)@.insert(a@, record@),
    {
        let ghost s0 = self.entries@;
        let ghost k = a@;
        let ghost rv = record@;
        let addr = crate::address::clone_bytes(a);
        self.entries.push(Entry { addr, record });
        proof {
            let s1 = self.entries@;
            assert forall|j: int| 0 <= j < s0.len() implies (#[trigger] s0[j].addr@) != k by {
                if s0[j].addr@ == k {
                    lemma_entry_at(s0, j);
                }
            }
            assert(distinct_addrs(s1)) by {
                assert forall|p: int, q: int| 0 <= p < q < s1.len() implies
                    (#[trigger] s1[p].addr@) != (#[trigger] s1[q].addr@) by {
                    if q == s1.len() - 1 {
                        assert(s1[p] == s0[p]);
                    } else {
                        assert(s1[p] == s0[p]);
                        assert(s1[q] == s0[q]);
                    }
                }
            }
            assert(entry_map(s1) =~= entry_map(s0).insert(k, rv)) by {
                assert forall|x: Seq<u8>| #[trigger] entry_map(s1).contains_key(x) implies
                    entry_map(s0).insert(k, rv).contains_key(x) by {
                    let w = choose|w: int| 0 <= w < s1.len() && (#[trigger] s1[w].addr@) == x;
                    if w < s0.len() {
                        assert(s0[w].addr@ == x);
                        assert(has_key(s0, x));
                    }
                }
                assert forall|x: Seq<u8>| #[trigger] entry_map(s0).insert(k, rv).contains_key(x)
                    implies entry_map(s1).contains_key(x) by {
                    if x == k {
                        assert(s1[s1.len() - 1].addr@ == x);
                        assert(has_key(s1, x));
                    } else {
                        let w = choose|w: int| 0 <= w < s0.len() && (#[trigger] s0[w].addr@) == x;
                        assert(s1[w].addr@ == x);
                        assert(has_key(s1, x));
                    }
                }
                assert forall|x: Seq<u8>| entry_map(s1).contains_key(x) implies
                    #[trigger] entry_map(s1)[x] == entry_map(s0).insert(k, rv)[x] by {
                    if x == k {
                        lemma_entry_at(s1, s1.len() - 1);
                    } else {
                        let w = choose|w: int| 0 <= w < s1.len() && (#[trigger] s1[w].addr@) == x;
                        assert(w < s0.len());
                        lemma_entry_at(s1, w);
                        lemma_entry_at(s0, w);
                    }
                }
            }
        }
    }

    fn put_at(&mut self, i: usize, a: &Address, record: Record)
        requires
            old(self).wf(),
            i < old(self).entries@.len(),
            old(self).entries@[i as int].addr@ == a@,
        ensures
            final(self).wf(),
            final(self)@ == old(self)@.insert(a@, record@),
    {
        let ghost s0 = self.entries@;
        let ghost k = a@;
        let ghost rv = record@;
        proof {
            lemma_entry_at(s0, i as int);
        }
        let addr = crate::address::clone_bytes(&self.entries[i].addr);
        self.entries.set(i, Entry { addr, record });
        proof {
            let s1 = self.entries@;
            let iw = i as int;
            assert(s1 =~= s0.update(iw, s1[iw]));
            assert(s1[iw].addr@ == k);
            assert(distinct_addrs(s1)) by {
                assert forall|p: int, q: int| 0 <= p < q < s1.len() implies
                    (#[trigger] s1[p].addr@) != (#[trigger] s1[q].addr@) by {
                    assert(s0[p].addr@ != s0[q].addr@);
                    if p != iw {
                        assert(s1[p] == s0[p]);
                    }
                    if q != iw {
                        assert(s1[q] == s0[q]);
                    }
                }
            }
            assert(entry_map(s1) =~= entry_map(s0).insert(k, rv)) by {
                assert forall|x: Seq<u8>| #[trigger] entry_map(s1).contains_key(x) implies
                    entry_map(s0).insert(k, rv).contains_key(x) by {
                    let w = choose|w: int| 0 <= w < s1.len() && (#[trigger] s1[w].addr@) == x;
                    if w == iw {
                        assert(x == k);
                    } else {
                        assert(s0[w].addr@ == x);
                        assert(has_key(s0, x));
                    }
                }
                assert forall|x: Seq<u8>| #[trigger] entry_map(s0).insert(k, rv).contains_key(x)
                    implies entry_map(s1).contains_key(x) by {
                    if x == k {
                        assert(s1[iw].addr@ == x);
                        assert(has_key(s1, x));
                    } else {
                        let w = choose|w: int| 0 <= w < s0.len() && (#[trigger] s0[w].addr@) == x;
                        assert(w != iw);
                        assert(s1[w].addr@ == x);
                        assert(has_key(s1, x));
                    }
                }
                assert forall|x: Seq<u8>| entry_map(s1).contains_key(x) implies
                    #[trigger] entry_map(s1)[x] == entry_map(s0).insert(k, rv)[x] by {
                    if x == k {
                        lemma_entry_at(s1, iw);
                    } else {
                        let w = choose|w: int| 0 <= w < s1.len() && (#[trigger] s1[w].addr@) == x;
                        assert(w != iw);
                        assert(s0[w].addr@ == x);
                        lemma_entry_at(s1, w);
                        lemma_entry_at(s0, w);
                    }
                }
            }
        }
    }

    /// Destroys the record at an address, releasing its storage.
    pub fn remove(&mut self, a: &Address)
        requires
            old(self).wf(),
        ensures
            final(self).wf(),
            final(self)@ == old(self)@.remove(a@),
    {
        let ghost s0 = self.entries@;
        let ghost k = a@;
        let i = match self.find(a) {
            Some(i) => i,
            None => {
                proof {
                    assert(self@ =~= self@.remove(k));
                }
                return ;
            },
        };
        self.entries.swap_remove(i);
        proof {
            let s1 = self.entries@;
            let iw = i as int;
            let n0 = s0.len();
            assert(s1 =~= s0.update(iw, s0[n0 - 1]).drop_last());
            assert(distinct_addrs(s1)) by {
                assert forall|p: int, q: int| 0 <= p < q < s1.len() implies
                    (#[trigger] s1[p].addr@) != (#[trigger] s1[q].addr@) by {
                    let sp = if p == iw { n0 - 1 } else { p };
                    let sq = if q == iw { n0 - 1 } else { q };
                    assert(s1[p] == s0[sp]);
                    assert(s1[q] == s0[sq]);
                    if sp < sq {
                        assert(s0[sp].addr@ != s0[sq].addr@);
                    } else {
                        assert(s0[sq].addr@ != s0[sp].addr@);
                    }
                }
            }
            assert(entry_map(s1) =~= entry_map(s0).remove(k)) by {
                assert forall|x: Seq<u8>| #[trigger] entry_map(s1).contains_key(x) implies
                    entry_map(s0).remove(k).contains_key(x) by {
                    let w = choose|w: int| 0 <= w < s1.len() && (#[trigger] s1[w].addr@) == x;
                    let sw = if w == iw { n0 - 1 } else { w };
                    assert(s1[w] == s0[sw]);
                    assert(has_key(s0, x));
                    if x == k {
                        lemma_entry_at(s0, sw);
                        lemma_entry_at(s0, iw);
                    }
                }
                assert forall|x: Seq<u8>| #[trigger] entry_map(s0).remove(k).contains_key(x)
                    implies entry_map(s1).contains_key(x) by {
                    let w = choose|w: int| 0 <= w < s0.len() && (#[trigger] s0[w].addr@) == x;
                    assert(w != iw);
                    if w == n0 - 1 {
                        assert(s1[iw] == s0[n0 - 1]);
                        assert(has_key(s1, x));
                    } else {
                        assert(s1[w] == s0[w]);
                        assert(has_key(s1, x));
                    }
                }
                assert forall|x: Seq<u8>| entry_map(s1).contains_key(x) implies
                    #[trigger] entry_map(s1)[x] == entry_map(s0).remove(k)[x] by {
                    let w = choose|w: int| 0 <= w < s1.len() && (#[trigger] s1[w].addr@) == x;
                    let sw = if w == iw { n0 - 1 } else { w };
                    assert(s1[w] == s0[sw]);
                    lemma_entry_at(s1, w);
                    lemma_entry_at(s0, sw);
                }
            }
        }
    }
}

} // verus!
