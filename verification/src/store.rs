//! A small association store keyed by stable identities.
//!
//! Rather than sharing mutable cells behind reference-counted handles,
//! a single authoritative store owns each entry and callers address
//! entries by key. Keys are unique; lookup is by first match.

use vstd::prelude::*;

verus! {

/// The value associated with the first entry carrying `id`, if any.
pub open spec fn lookup<T>(s: Seq<(u64, T)>, id: u64) -> Option<T>
    decreases s.len(),
{
    if s.len() == 0 {
        None
    } else if s[0].0 == id {
        Some(s[0].1)
    } else {
        lookup(s.drop_first(), id)
    }
}

/// No two entries share a key.
pub open spec fn unique_keys<T>(s: Seq<(u64, T)>) -> bool {
    forall|i: int, j: int| 0 <= i < j < s.len() ==> (#[trigger] s[i]).0 != (#[trigger] s[j]).0
}

proof fn lemma_lookup_update<T>(s: Seq<(u64, T)>, i: int, id: u64, v: T, k: u64)
    requires
        0 <= i < s.len(),
        s[i].0 == id,
        forall|j: int| 0 <= j < i ==> (#[trigger] s[j]).0 != id,
    ensures
        lookup(s.update(i, (id, v)), id) == Some(v),
        k != id ==> lookup(s.update(i, (id, v)), k) == lookup(s, k),
    decreases s.len(),
{
    let t = s.update(i, (id, v));
    if i == 0 {
        assert(t[0] == (id, v));
        if k != id {
            assert(t.drop_first() =~= s.drop_first());
        }
    } else {
        assert(t[0] == s[0]);
        assert(t.drop_first() =~= s.drop_first().update(i - 1, (id, v)));
        assert(forall|j: int|
            0 <= j < i - 1 ==> (#[trigger] s.drop_first()[j]).0 == s[j + 1].0);
        lemma_lookup_update(s.drop_first(), i - 1, id, v, k);
    }
}

proof fn lemma_lookup_push<T>(s: Seq<(u64, T)>, id: u64, v: T, k: u64)
    ensures
        lookup(s.push((id, v)), k) == if lookup(s, k) is Some {
            lookup(s, k)
        } else if k == id {
            Some(v)
        } else {
            None::<T>
        },
    decreases s.len(),
{
    let t = s.push((id, v));
    if s.len() == 0 {
        assert(t[0] == (id, v));
        assert(t.drop_first() =~= Seq::<(u64, T)>::empty());
    } else {
        assert(t[0] == s[0]);
        assert(t.drop_first() =~= s.drop_first().push((id, v)));
        lemma_lookup_push(s.drop_first(), id, v, k);
    }
}

proof fn lemma_lookup_remove<T>(s: Seq<(u64, T)>, i: int, k: u64)
    requires
        0 <= i < s.len(),
        unique_keys(s),
    ensures
        k == s[i].0 ==> lookup(s.remove(i), k) is None,
        k != s[i].0 ==> lookup(s.remove(i), k) == lookup(s, k),
    decreases s.len(),
{
    let t = s.remove(i);
    if i == 0 {
        assert(t =~= s.drop_first());
        if k == s[0].0 {
            lemma_lookup_absent(s.drop_first(), k);
        }
    } else {
        assert(t[0] == s[0]);
        assert(t.drop_first() =~= s.drop_first().remove(i - 1));
        assert(forall|a: int, b: int|
            0 <= a < b < s.drop_first().len() ==> (#[trigger] s.drop_first()[a]).0
                != (#[trigger] s.drop_first()[b]).0) by {
            assert(forall|a: int|
                0 <= a < s.drop_first().len() ==> (#[trigger] s.drop_first()[a]) == s[a + 1]);
        }
        lemma_lookup_remove(s.drop_first(), i - 1, k);
    }
}

proof fn lemma_lookup_absent<T>(s: Seq<(u64, T)>, k: u64)
    requires
        forall|j: int| 0 <= j < s.len() ==> (#[trigger] s[j]).0 != k,
    ensures
        lookup(s, k) is None,
    decreases s.len(),
{
    if s.len() > 0 {
        assert(forall|j: int|
            0 <= j < s.drop_first().len() ==> (#[trigger] s.drop_first()[j]) == s[j + 1]);
        lemma_lookup_absent(s.drop_first(), k);
    }
}

/// A store of values addressed by `u64` keys. Entries persist until
/// taken; absent keys read as `None`.
#[derive(Clone, Debug)]
pub struct Store<T> {
    /// The entries, keyed by their first component.
    pub entries: Vec<(u64, T)>,
}

impl<T> Store<T> {
    /// Keys are unique.
    pub open spec fn wf(self) -> bool {
        unique_keys(self.entries@)
    }

    /// The value stored under `id`, if any.
    pub open spec fn spec_get(self, id: u64) -> Option<T> {
        lookup(self.entries@, id)
    }

    /// An empty store.
    pub fn new() -> (r: Store<T>)
        ensures
            r.wf(),
            forall|k: u64| r.spec_get(k) is None,
    {
        Store { entries: Vec::new() }
    }

    /// How many entries the store holds.
    pub fn len(&self) -> (r: usize)
        ensures
            r == self.entries@.len(),
    {
        self.entries.len()
    }

    /// Store `value` under `id`, replacing any existing entry.
    pub fn set(&mut self, id: u64, value: T)
        requires
            old(self).wf(),
        ensures
            final(self).wf(),
            final(self).spec_get(id) == Some(value),
            forall|k: u64| k != id ==> final(self).spec_get(k) == old(self).spec_get(k),
    {
        let ghost s0 = self.entries@;
        let mut i: usize = 0;
        while i < self.entries.len()
            invariant
                i <= self.entries@.len(),
                self.entries@ == s0,
                old(self).entries@ == s0,
                unique_keys(s0),
                forall|j: int| 0 <= j < i ==> (#[trigger] s0[j]).0 != id,
            decreases self.entries@.len() - i,
        {
            if self.entries[i].0 == id {
                self.entries[i] = (id, value);
                proof {
                    lemma_lookup_update(s0, i as int, id, value, id);
                    assert forall|k: u64| k != id implies lookup(self.entries@, k) == lookup(
                        s0,
                        k,
                    ) by {
                        lemma_lookup_update(s0, i as int, id, value, k);
                    }
                    assert(unique_keys(self.entries@)) by {
                        assert(forall|j: int|
                            0 <= j < s0.len() ==> (#[trigger] self.entries@[j]).0 == s0[j].0);
                    }
                }
                return ;
            }
            i = i + 1;
        }
        self.entries.push((id, value));
        proof {
            lemma_lookup_push(s0, id, value, id);
            lemma_lookup_absent(s0, id);
            assert forall|k: u64| k != id implies lookup(self.entries@, k) == lookup(s0, k) by {
                lemma_lookup_push(s0, id, value, k);
            }
            assert(unique_keys(s0.push((id, value)))) by {
                assert(forall|j: int| 0 <= j < s0.len() ==> (#[trigger] s0[j]).0 != id);
            }
        }
    }

    /// Remove and return the value stored under `id`, if any.
    pub fn take(&mut self, id: u64) -> (r: Option<T>)
        requires
            old(self).wf(),
        ensures
            final(self).wf(),
            r == old(self).spec_get(id),
            final(self).spec_get(id) is None,
            forall|k: u64| k != id ==> final(self).spec_get(k) == old(self).spec_get(k),
    {
        let ghost s0 = self.entries@;
        let mut i: usize = 0;
        while i < self.entries.len()
            invariant
                i <= self.entries@.len(),
                self.entries@ == s0,
                old(self).entries@ == s0,
                unique_keys(s0),
                forall|j: int| 0 <= j < i ==> (#[trigger] s0[j]).0 != id,
            decreases self.entries@.len() - i,
        {
            if self.entries[i].0 == id {
                let entry = self.entries.remove(i);
                proof {
                    lemma_lookup_prefix_match(s0, i as int, id);
                    lemma_lookup_remove(s0, i as int, id);
                    assert forall|k: u64| k != id implies lookup(self.entries@, k) == lookup(
                        s0,
                        k,
                    ) by {
                        lemma_lookup_remove(s0, i as int, k);
                    }
                    assert(unique_keys(s0.remove(i as int))) by {
                        assert(forall|a: int|
                            0 <= a < s0.remove(i as int).len() ==> #[trigger] s0.remove(
                                i as int,
                            )[a] == if a < i {
                                s0[a]
                            } else {
                                s0[a + 1]
                            });
                    }
                }
                return Some(entry.1);
            }
            i = i + 1;
        }
        proof {
            lemma_lookup_absent(s0, id);
        }
        None
    }
}

proof fn lemma_lookup_prefix_match<T>(s: Seq<(u64, T)>, i: int, id: u64)
    requires
        0 <= i < s.len(),
        s[i].0 == id,
        forall|j: int| 0 <= j < i ==> (#[trigger] s[j]).0 != id,
    ensures
        lookup(s, id) == Some(s[i].1),
    decreases i,
{
    if i == 0 {
    } else {
        assert(forall|j: int|
            0 <= j < i - 1 ==> (#[trigger] s.drop_first()[j]).0 == s[j + 1].0);
        lemma_lookup_prefix_match(s.drop_first(), i - 1, id);
    }
}

impl<T: Copy> Store<T> {
    /// Read the value stored under `id`, if any.
    pub fn get(&self, id: u64) -> (r: Option<T>)
        ensures
            r == self.spec_get(id),
    {
        let mut i: usize = 0;
        while i < self.entries.len()
            invariant
                i <= self.entries@.len(),
                forall|j: int| 0 <= j < i ==> (#[trigger] self.entries@[j]).0 != id,
            decreases self.entries@.len() - i,
        {
            if self.entries[i].0 == id {
                proof {
                    lemma_lookup_prefix_match(self.entries@, i as int, id);
                }
                return Some(self.entries[i].1);
            }
            i = i + 1;
        }
        proof {
            lemma_lookup_absent(self.entries@, id);
        }
        None
    }
}

} // verus!
