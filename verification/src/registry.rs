//! Small keyed collections over string addresses: a membership set for
//! roles and a per-asset ledger of amounts.

use vstd::prelude::*;

verus! {

/// Whether some element of `v` has the text `x`.
pub open spec fn seq_has(v: Seq<String>, x: Seq<char>) -> bool {
    exists|i: int| 0 <= i < v.len() && v[i]@ == x
}

/// Whether `v` holds an element with the text of `x`.
pub fn vec_has(v: &Vec<String>, x: &String) -> (r: bool)
    ensures
        r == seq_has(v@, x@),
{
    let mut i: usize = 0;
    while i < v.len()
        invariant
            0 <= i <= v@.len(),
            forall|j: int| 0 <= j < i ==> v@[j]@ != x@,
        decreases v@.len() - i,
    {
        if v[i] == *x {
            return true;
        }
        i = i + 1;
    }
    false
}

/// A set of addresses, such as the holders of a role.
pub struct AddressSet {
    pub members: Vec<String>,
}

impl AddressSet {
    /// Whether `x` belongs to the set.
    pub open spec fn has(&self, x: Seq<char>) -> bool {
        seq_has(self.members@, x)
    }

    /// The empty set.
    pub fn new() -> (s: Self)
        ensures
            forall|x: Seq<char>| !s.has(x),
    {
        AddressSet { members: Vec::new() }
    }

    /// Whether `x` belongs to the set.
    pub fn contains(&self, x: &String) -> (r: bool)
        ensures
            r == self.has(x@),
    {
        vec_has(&self.members, x)
    }

    /// Adds `x`; other members are unchanged.
    pub fn insert(&mut self, x: &String)
        ensures
            forall|y: Seq<char>| #[trigger] final(self).has(y) == (old(self).has(y) || y == x@),
    {
        if !vec_has(&self.members, x) {
            let ghost before = self.members@;
            self.members.push(x.clone());
            assert forall|y: Seq<char>| #[trigger] self.has(y) == (old(self).has(y) || y == x@) by {
                if seq_has(before, y) {
                    let i = choose|i: int| 0 <= i < before.len() && before[i]@ == y;
                    assert(self.members@[i] == before[i]);
                }
                if seq_has(self.members@, y) && y != x@ {
                    let i = choose|i: int| 0 <= i < self.members@.len() && self.members@[i]@ == y;
                    assert(i < before.len());
                    assert(before[i] == self.members@[i]);
                }
                if y == x@ {
                    assert(self.members@[before.len() as int]@ == y);
                }
            }
        }
    }

    /// Removes `x`; other members are unchanged.
    pub fn remove(&mut self, x: &String)
        ensures
            forall|y: Seq<char>| #[trigger] final(self).has(y) == (old(self).has(y) && y != x@),
    {
        let mut kept: Vec<String> = Vec::new();
        let mut i: usize = 0;
        while i < self.members.len()
            invariant
                0 <= i <= self.members@.len(),
                forall|y: Seq<char>| #[trigger]
                    seq_has(kept@, y) == (seq_has(self.members@.take(i as int), y) && y != x@),
            decreases self.members@.len() - i,
        {
            let ghost prefix = self.members@.take(i as int);
            let ghost next = self.members@.take(i + 1);
            let ghost kept_before = kept@;
            assert(next =~= prefix.push(self.members@[i as int]));
            if self.members[i] != *x {
                kept.push(self.members[i].clone());
            }
            assert forall|y: Seq<char>| #[trigger]
                seq_has(kept@, y) == (seq_has(next, y) && y != x@) by {
                if seq_has(next, y) && y != x@ {
                    let j = choose|j: int| 0 <= j < next.len() && next[j]@ == y;
                    if j < prefix.len() {
                        assert(prefix[j] == next[j]);
                        assert(seq_has(kept_before, y));
                        let k = choose|k: int| 0 <= k < kept_before.len() && kept_before[k]@ == y;
                        assert(kept@[k] == kept_before[k]);
                    } else {
                        assert(kept@[kept@.len() - 1]@ == y);
                    }
                }
                if seq_has(kept@, y) {
                    let k = choose|k: int| 0 <= k < kept@.len() && kept@[k]@ == y;
                    if k < kept_before.len() {
                        assert(kept_before[k] == kept@[k]);
                        assert(seq_has(kept_before, y));
                        let j = choose|j: int| 0 <= j < prefix.len() && prefix[j]@ == y;
                        assert(next[j] == prefix[j]);
                    } else {
                        assert(next[i as int]@ == y);
                    }
                }
            }
            i = i + 1;
        }
        assert(self.members@.take(i as int) =~= self.members@);
        self.members = kept;
    }
}

/// Amounts per asset address, such as the fees collected in each token.
pub struct AssetLedger {
    pub entries: Vec<(String, i128)>,
}

impl AssetLedger {
    /// Each asset appears at most once.
    pub open spec fn wf(&self) -> bool {
        forall|i: int, j: int|
            0 <= i < self.entries@.len() && 0 <= j < self.entries@.len() && i != j
                ==> #[trigger] self.entries@[i].0@ != #[trigger] self.entries@[j].0@
    }

    pub open spec fn holds(&self, k: Seq<char>) -> bool {
        exists|i: int| 0 <= i < self.entries@.len() && self.entries@[i].0@ == k
    }

    /// The amount recorded for asset `k`; zero when none is.
    pub open spec fn amount_of(&self, k: Seq<char>) -> int {
        if self.holds(k) {
            self.entries@[choose|i: int| 0 <= i < self.entries@.len() && self.entries@[i].0@
                == k].1 as int
        } else {
            0
        }
    }

    proof fn lemma_amount_at(&self, i: int)
        requires
            self.wf(),
            0 <= i < self.entries@.len(),
        ensures
            self.amount_of(self.entries@[i].0@) == self.entries@[i].1,
    {
        let k = self.entries@[i].0@;
        assert(self.holds(k));
        let j = choose|j: int| 0 <= j < self.entries@.len() && self.entries@[j].0@ == k;
        if j != i {
            assert(self.entries@[i].0@ != self.entries@[j].0@);
        }
    }

    /// An empty ledger.
    pub fn new() -> (s: Self)
        ensures
            s.wf(),
            forall|k: Seq<char>| s.amount_of(k) == 0,
    {
        AssetLedger { entries: Vec::new() }
    }

    fn find(&self, k: &String) -> (r: Option<usize>)
        requires
            self.wf(),
        ensures
            r matches Some(i) ==> i < self.entries@.len() && self.entries@[i as int].0@ == k@,
            r is None ==> !self.holds(k@),
    {
        let mut i: usize = 0;
        while i < self.entries.len()
            invariant
                0 <= i <= self.entries@.len(),
                forall|j: int| 0 <= j < i ==> self.entries@[j].0@ != k@,
            decreases self.entries@.len() - i,
        {
            if self.entries[i].0 == *k {
                return Some(i);
            }
            i = i + 1;
        }
        None
    }

    /// The amount recorded for asset `k`, zero when none is.
    pub fn get(&self, k: &String) -> (r: i128)
        requires
            self.wf(),
        ensures
            r == self.amount_of(k@),
    {
        match self.find(k) {
            Some(i) => {
                proof {
                    self.lemma_amount_at(i as int);
                }
                self.entries[i].1
            },
            None => 0,
        }
    }

    /// Records `v` for asset `k`; other assets keep their amounts.
    pub fn set(&mut self, k: &String, v: i128)
        requires
            old(self).wf(),
        ensures
            final(self).wf(),
            final(self).amount_of(k@) == v,
            forall|q: Seq<char>| q != k@ ==> #[trigger] final(self).amount_of(q) == old(
                self,
            ).amount_of(q),
    {
        match self.find(k) {
            Some(i) => {
                let key = self.entries[i].0.clone();
                self.entries.set(i, (key, v));
                assert forall|q: Seq<char>| q != k@ implies #[trigger] self.amount_of(q) == old(
                    self,
                ).amount_of(q) by {
                    if old(self).holds(q) {
                        let j = choose|j: int|
                            0 <= j < old(self).entries@.len() && old(self).entries@[j].0@ == q;
                        assert(self.entries@[j] == old(self).entries@[j]);
                        old(self).lemma_amount_at(j);
                        self.lemma_amount_at(j);
                    }
                    if self.holds(q) {
                        let j = choose|j: int|
                            0 <= j < self.entries@.len() && self.entries@[j].0@ == q;
                        assert(self.entries@[j] == old(self).entries@[j]);
                    }
                }
                proof {
                    self.lemma_amount_at(i as int);
                }
            },
            None => {
                self.entries.push((k.clone(), v));
                let ghost n = self.entries@.len() - 1;
                assert forall|q: Seq<char>| q != k@ implies #[trigger] self.amount_of(q) == old(
                    self,
                ).amount_of(q) by {
                    if old(self).holds(q) {
                        let j = choose|j: int|
                            0 <= j < old(self).entries@.len() && old(self).entries@[j].0@ == q;
                        assert(self.entries@[j] == old(self).entries@[j]);
                        old(self).lemma_amount_at(j);
                        self.lemma_amount_at(j);
                    }
                    if self.holds(q) {
                        let j = choose|j: int|
                            0 <= j < self.entries@.len() && self.entries@[j].0@ == q;
                        assert(j != n);
                        assert(self.entries@[j] == old(self).entries@[j]);
                    }
                }
                proof {
                    self.lemma_amount_at(n);
                }
            },
        }
    }
}

} // verus!
