//! Records stored under a string key, with the overwrite-on-write semantics
//! of contract storage: a lookup finds the first record with the key, and a
//! write replaces that record or appends a new one.

use vstd::prelude::*;

verus! {

/// A record that carries its own storage key.
pub trait Keyed: Sized {
    spec fn key(&self) -> Seq<char>;

    fn key_str(&self) -> (r: &String)
        ensures
            r@ == self.key(),
    ;
}

/// Position `i` holds the first record of `s` with key `k`.
pub open spec fn is_first<T: Keyed>(s: Seq<T>, k: Seq<char>, i: int) -> bool {
    &&& 0 <= i < s.len()
    &&& s[i].key() == k
    &&& forall|j: int| 0 <= j < i ==> #[trigger] s[j].key() != k
}

/// The position of the first record of `s` with key `k`, if any.
pub open spec fn first_match<T: Keyed>(s: Seq<T>, k: Seq<char>) -> Option<int> {
    if exists|i: int| #[trigger] is_first(s, k, i) {
        Some(choose|i: int| #[trigger] is_first(s, k, i))
    } else {
        None
    }
}

/// The record stored under key `k`, if any.
pub open spec fn lookup<T: Keyed>(s: Seq<T>, k: Seq<char>) -> Option<T> {
    match first_match(s, k) {
        Some(i) => Some(s[i]),
        None => None,
    }
}

pub proof fn lemma_first_match_at<T: Keyed>(s: Seq<T>, k: Seq<char>, i: int)
    requires
        is_first(s, k, i),
    ensures
        first_match(s, k) == Some(i),
{
    let j = choose|j: int| #[trigger] is_first(s, k, j);
    if j < i {
        assert(s[j].key() != k);
    } else if i < j {
        assert(s[i].key() != k);
    }
}

pub proof fn lemma_no_match<T: Keyed>(s: Seq<T>, k: Seq<char>)
    requires
        forall|j: int| 0 <= j < s.len() ==> #[trigger] s[j].key() != k,
    ensures
        first_match(s, k) is None,
{
}

/// Some record of `s` has key `k` exactly when a lookup of `k` succeeds.
pub proof fn lemma_match_exists<T: Keyed>(s: Seq<T>, k: Seq<char>, i: int)
    requires
        0 <= i < s.len(),
        s[i].key() == k,
    ensures
        first_match(s, k) is Some,
    decreases i,
{
    if exists|j: int| 0 <= j < i && #[trigger] s[j].key() == k {
        let j = choose|j: int| 0 <= j < i && #[trigger] s[j].key() == k;
        lemma_match_exists(s, k, j);
    } else {
        assert(is_first(s, k, i));
    }
}

/// Finds the first record of `v` with key `k`.
pub fn find_first<T: Keyed>(v: &Vec<T>, k: &String) -> (r: Option<usize>)
    ensures
        r matches Some(i) ==> first_match(v@, k@) == Some(i as int),
        r is None ==> first_match(v@, k@) is None,
{
    let mut i: usize = 0;
    while i < v.len()
        invariant
            0 <= i <= v@.len(),
            forall|j: int| 0 <= j < i ==> #[trigger] v@[j].key() != k@,
        decreases v@.len() - i,
    {
        if *v[i].key_str() == *k {
            proof {
                lemma_first_match_at(v@, k@, i as int);
            }
            return Some(i);
        }
        i = i + 1;
    }
    proof {
        lemma_no_match(v@, k@);
    }
    None
}

/// Writes `x` under its key: lookups of that key now give `x`, and
/// lookups of every other key are unchanged.
pub fn upsert<T: Keyed>(v: &mut Vec<T>, x: T)
    ensures
        forall|q: Seq<char>| #[trigger] lookup(final(v)@, q) == if q == x.key() {
            Some(x)
        } else {
            lookup(old(v)@, q)
        },
{
    let ghost s = v@;
    let ghost xk = x.key();
    let found = find_first(v, x.key_str());
    match found {
        Some(i) => {
            v.set(i, x);
            proof {
                assert forall|q: Seq<char>| #[trigger] lookup(v@, q) == if q == xk {
                    Some(x)
                } else {
                    lookup(s, q)
                } by {
                    assert(is_first(s, xk, i as int)) by {
                        let c = choose|c: int| #[trigger] is_first(s, xk, c);
                        lemma_first_match_at(s, xk, c);
                    }
                    if q == xk {
                        assert(is_first(v@, q, i as int));
                        lemma_first_match_at(v@, q, i as int);
                    } else {
                        match first_match(s, q) {
                            Some(j) => {
                                assert(is_first(s, q, j)) by {
                                    let c = choose|c: int| #[trigger] is_first(s, q, c);
                                    lemma_first_match_at(s, q, c);
                                }
                                assert(j != i);
                                assert(is_first(v@, q, j));
                                lemma_first_match_at(v@, q, j);
                            },
                            None => {
                                if first_match(v@, q) is Some {
                                    let c = choose|c: int| #[trigger] is_first(v@, q, c);
                                    assert(c != i);
                                    assert(s[c].key() == q);
                                    lemma_match_exists(s, q, c);
                                }
                            },
                        }
                    }
                }
            }
        },
        None => {
            v.push(x);
            proof {
                let n = s.len() as int;
                assert forall|q: Seq<char>| #[trigger] lookup(v@, q) == if q == xk {
                    Some(x)
                } else {
                    lookup(s, q)
                } by {
                    if q == xk {
                        assert forall|j: int| 0 <= j < n implies #[trigger] v@[j].key() != q by {
                            if s[j].key() == q {
                                lemma_match_exists(s, q, j);
                            }
                        }
                        assert(is_first(v@, q, n));
                        lemma_first_match_at(v@, q, n);
                    } else {
                        match first_match(s, q) {
                            Some(j) => {
                                assert(is_first(s, q, j)) by {
                                    let c = choose|c: int| #[trigger] is_first(s, q, c);
                                    lemma_first_match_at(s, q, c);
                                }
                                assert(is_first(v@, q, j));
                                lemma_first_match_at(v@, q, j);
                            },
                            None => {
                                if first_match(v@, q) is Some {
                                    let c = choose|c: int| #[trigger] is_first(v@, q, c);
                                    assert(c != n);
                                    assert(s[c].key() == q);
                                    lemma_match_exists(s, q, c);
                                }
                            },
                        }
                    }
                }
            }
        },
    }
}

} // verus!
