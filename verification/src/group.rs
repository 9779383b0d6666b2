//! Named hitbox groups: a frame-scoped registry mapping a group name to
//! a stack of hitbox identities. A grouped element pushes its hitbox
//! when it begins painting and pops it when it finishes, so the
//! innermost currently-painting member of a group is the top of the
//! stack. The registry must be empty before a root paints and is fully
//! unwound when painting completes.

use vstd::prelude::*;

verus! {

/// A stack of hitbox identities, stored in a `smallvec::SmallVec` that
/// keeps its first entry inline. Opaque to the verifier; its contents
/// are named by [`stack_items`] and every operation goes through the
/// trusted wrappers below.
#[verifier::external_body]
pub struct GroupStack {
    inner: smallvec::SmallVec<[u64; 1]>,
}

/// The items a group stack holds, bottom first.
pub uninterp spec fn stack_items(v: GroupStack) -> Seq<u64>;

/// Relies on smallvec::SmallVec::new: constructs an empty vector.
#[verifier::external_body]
fn stack_new() -> (r: GroupStack)
    ensures
        stack_items(r) == Seq::<u64>::empty(),
{
    GroupStack { inner: smallvec::SmallVec::new() }
}

/// Relies on smallvec::SmallVec::push: appends the value at the end.
#[verifier::external_body]
fn stack_push(v: &mut GroupStack, id: u64)
    ensures
        stack_items(*final(v)) == stack_items(*old(v)).push(id),
{
    v.inner.push(id)
}

/// Relies on smallvec::SmallVec::pop: removes and returns the last
/// item, or returns None when the vector is empty.
#[verifier::external_body]
fn stack_pop(v: &mut GroupStack) -> (r: Option<u64>)
    ensures
        stack_items(*old(v)).len() == 0 ==> r is None && stack_items(*final(v)) == stack_items(
            *old(v),
        ),
        stack_items(*old(v)).len() > 0 ==> r == Some(stack_items(*old(v)).last()) && stack_items(
            *final(v),
        ) == stack_items(*old(v)).drop_last(),
{
    v.inner.pop()
}

/// Relies on smallvec::SmallVec's Deref to a slice of its items and on
/// slice::last: returns the last item, or None when empty.
#[verifier::external_body]
fn stack_last(v: &GroupStack) -> (r: Option<u64>)
    ensures
        stack_items(*v).len() == 0 ==> r is None,
        stack_items(*v).len() > 0 ==> r == Some(stack_items(*v).last()),
{
    v.inner.last().copied()
}

/// One named group and its stack of hitbox identities.
pub struct GroupEntry {
    /// The group's name.
    pub name: String,
    /// The hitboxes of the group members currently painting, outermost
    /// first.
    pub stack: GroupStack,
}

/// The stack contents registered under `name`: empty for a name that
/// has no entry.
pub open spec fn glookup(s: Seq<GroupEntry>, name: Seq<char>) -> Seq<u64>
    decreases s.len(),
{
    if s.len() == 0 {
        Seq::empty()
    } else if s[0].name@ == name {
        stack_items(s[0].stack)
    } else {
        glookup(s.drop_first(), name)
    }
}

/// No two entries share a name.
pub open spec fn unique_names(s: Seq<GroupEntry>) -> bool {
    forall|i: int, j: int|
        0 <= i < j < s.len() ==> (#[trigger] s[i]).name@ != (#[trigger] s[j]).name@
}

proof fn lemma_glookup_absent(s: Seq<GroupEntry>, n: Seq<char>)
    requires
        forall|j: int| 0 <= j < s.len() ==> (#[trigger] s[j]).name@ != n,
    ensures
        glookup(s, n) == Seq::<u64>::empty(),
    decreases s.len(),
{
    if s.len() > 0 {
        assert(forall|j: int|
            0 <= j < s.drop_first().len() ==> (#[trigger] s.drop_first()[j]) == s[j + 1]);
        lemma_glookup_absent(s.drop_first(), n);
    }
}

proof fn lemma_glookup_prefix_match(s: Seq<GroupEntry>, i: int)
    requires
        0 <= i < s.len(),
        forall|j: int| 0 <= j < i ==> (#[trigger] s[j]).name@ != s[i].name@,
    ensures
        glookup(s, s[i].name@) == stack_items(s[i].stack),
    decreases i,
{
    if i > 0 {
        assert(forall|j: int|
            0 <= j < s.drop_first().len() ==> (#[trigger] s.drop_first()[j]) == s[j + 1]);
        lemma_glookup_prefix_match(s.drop_first(), i - 1);
    }
}

proof fn lemma_glookup_update(s: Seq<GroupEntry>, i: int, e: GroupEntry, n: Seq<char>)
    requires
        0 <= i < s.len(),
        e.name@ == s[i].name@,
        forall|j: int| 0 <= j < i ==> (#[trigger] s[j]).name@ != s[i].name@,
    ensures
        glookup(s.update(i, e), s[i].name@) == stack_items(e.stack),
        n != s[i].name@ ==> glookup(s.update(i, e), n) == glookup(s, n),
    decreases s.len(),
{
    let t = s.update(i, e);
    if i == 0 {
        assert(t[0] == e);
        if n != s[0].name@ {
            assert(t.drop_first() =~= s.drop_first());
        }
    } else {
        assert(t[0] == s[0]);
        assert(t.drop_first() =~= s.drop_first().update(i - 1, e));
        assert(forall|j: int|
            0 <= j < s.drop_first().len() ==> (#[trigger] s.drop_first()[j]) == s[j + 1]);
        lemma_glookup_update(s.drop_first(), i - 1, e, n);
    }
}

proof fn lemma_glookup_push(s: Seq<GroupEntry>, e: GroupEntry, n: Seq<char>)
    requires
        forall|j: int| 0 <= j < s.len() ==> (#[trigger] s[j]).name@ != e.name@,
    ensures
        glookup(s.push(e), e.name@) == stack_items(e.stack),
        n != e.name@ ==> glookup(s.push(e), n) == glookup(s, n),
    decreases s.len(),
{
    let t = s.push(e);
    if s.len() == 0 {
        assert(t[0] == e);
        if n != e.name@ {
            assert(t.drop_first() =~= Seq::<GroupEntry>::empty());
            lemma_glookup_absent(t, n);
        }
    } else {
        assert(t[0] == s[0]);
        assert(t.drop_first() =~= s.drop_first().push(e));
        assert(forall|j: int|
            0 <= j < s.drop_first().len() ==> (#[trigger] s.drop_first()[j]) == s[j + 1]);
        lemma_glookup_push(s.drop_first(), e, n);
    }
}

/// The frame-scoped registry of named hitbox groups.
pub struct GroupRegistry {
    /// One entry per group name that has been pushed this frame.
    pub entries: Vec<GroupEntry>,
}

impl GroupRegistry {
    /// Names are unique.
    pub open spec fn wf(self) -> bool {
        unique_names(self.entries@)
    }

    /// The stack registered under a name; empty when the name was never
    /// pushed.
    pub open spec fn spec_stack(self, name: Seq<char>) -> Seq<u64> {
        glookup(self.entries@, name)
    }

    /// Every group's stack is empty: the state before a root paints and
    /// after it finishes.
    pub open spec fn spec_all_unwound(self) -> bool {
        forall|n: Seq<char>| self.spec_stack(n).len() == 0
    }

    /// Both registries hold the same stack for every name.
    pub open spec fn spec_same_stacks(a: GroupRegistry, b: GroupRegistry) -> bool {
        forall|n: Seq<char>| a.spec_stack(n) == b.spec_stack(n)
    }

    /// An empty registry.
    pub fn new() -> (r: GroupRegistry)
        ensures
            r.wf(),
            r.spec_all_unwound(),
            r.entries@.len() == 0,
    {
        let r = GroupRegistry { entries: Vec::new() };
        proof {
            assert forall|n: Seq<char>| r.spec_stack(n).len() == 0 by {
                lemma_glookup_absent(r.entries@, n);
            }
        }
        r
    }

    /// The innermost currently-pushed hitbox of the named group: the
    /// top of its stack.
    pub fn get(&self, name: &String) -> (r: Option<u64>)
        ensures
            r == if self.spec_stack(name@).len() == 0 {
                None::<u64>
            } else {
                Some(self.spec_stack(name@).last())
            },
    {
        let mut i: usize = 0;
        while i < self.entries.len()
            invariant
                i <= self.entries@.len(),
                forall|j: int| 0 <= j < i ==> (#[trigger] self.entries@[j]).name@ != name@,
            decreases self.entries@.len() - i,
        {
            if self.entries[i].name == *name {
                proof {
                    lemma_glookup_prefix_match(self.entries@, i as int);
                }
                return stack_last(&self.entries[i].stack);
            }
            i = i + 1;
        }
        proof {
            lemma_glookup_absent(self.entries@, name@);
        }
        None
    }

    /// Push a hitbox onto the named group's stack as its member begins
    /// painting: the hitbox becomes the group's innermost.
    pub fn push(&mut self, name: String, hitbox_id: u64)
        requires
            old(self).wf(),
        ensures
            final(self).wf(),
            final(self).spec_stack(name@) == old(self).spec_stack(name@).push(hitbox_id),
            forall|n: Seq<char>|
                n != name@ ==> final(self).spec_stack(n) == old(self).spec_stack(n),
    {
        let ghost s0 = self.entries@;
        let mut i: usize = 0;
        while i < self.entries.len()
            invariant
                i <= self.entries@.len(),
                self.entries@ == s0,
                old(self).entries@ == s0,
                unique_names(s0),
                forall|j: int| 0 <= j < i ==> (#[trigger] s0[j]).name@ != name@,
            decreases self.entries@.len() - i,
        {
            if self.entries[i].name == name {
                proof {
                    lemma_glookup_prefix_match(s0, i as int);
                }
                let mut entry = self.entries.remove(i);
                stack_push(&mut entry.stack, hitbox_id);
                self.entries.insert(i, entry);
                proof {
                    let e = self.entries@[i as int];
                    assert(self.entries@ =~= s0.update(i as int, e));
                    lemma_glookup_update(s0, i as int, e, name@);
                    assert forall|n: Seq<char>| n != name@ implies glookup(self.entries@, n)
                        == glookup(s0, n) by {
                        lemma_glookup_update(s0, i as int, e, n);
                    }
                    assert(unique_names(self.entries@)) by {
                        assert(forall|j: int|
                            0 <= j < s0.len() ==> (#[trigger] self.entries@[j]).name@
                                == s0[j].name@);
                    }
                }
                return ;
            }
            i = i + 1;
        }
        proof {
            lemma_glookup_absent(s0, name@);
        }
        let mut stack = stack_new();
        stack_push(&mut stack, hitbox_id);
        let ghost name_view = name@;
        self.entries.push(GroupEntry { name, stack });
        proof {
            let e = self.entries@.last();
            assert(stack_items(e.stack) =~= glookup(s0, name_view).push(hitbox_id));
            lemma_glookup_push(s0, e, name_view);
            assert forall|n: Seq<char>| n != name_view implies glookup(self.entries@, n)
                == glookup(s0, n) by {
                lemma_glookup_push(s0, e, n);
            }
            assert(unique_names(self.entries@)) by {
                assert(forall|j: int|
                    0 <= j < s0.len() ==> (#[trigger] self.entries@[j]) == s0[j]);
            }
        }
    }

    /// Pop the innermost hitbox of the named group as its member
    /// finishes painting. The group must currently have one.
    pub fn pop(&mut self, name: &String)
        requires
            old(self).wf(),
            old(self).spec_stack(name@).len() > 0,
        ensures
            final(self).wf(),
            final(self).spec_stack(name@) == old(self).spec_stack(name@).drop_last(),
            forall|n: Seq<char>|
                n != name@ ==> final(self).spec_stack(n) == old(self).spec_stack(n),
    {
        let ghost s0 = self.entries@;
        let mut i: usize = 0;
        while i < self.entries.len()
            invariant
                i <= self.entries@.len(),
                self.entries@ == s0,
                old(self).entries@ == s0,
                unique_names(s0),
                glookup(s0, name@).len() > 0,
                forall|j: int| 0 <= j < i ==> (#[trigger] s0[j]).name@ != name@,
            decreases self.entries@.len() - i,
        {
            if self.entries[i].name == *name {
                proof {
                    lemma_glookup_prefix_match(s0, i as int);
                }
                let mut entry = self.entries.remove(i);
                let _ = stack_pop(&mut entry.stack);
                self.entries.insert(i, entry);
                proof {
                    let e = self.entries@[i as int];
                    assert(self.entries@ =~= s0.update(i as int, e));
                    lemma_glookup_update(s0, i as int, e, name@);
                    assert forall|n: Seq<char>| n != name@ implies glookup(self.entries@, n)
                        == glookup(s0, n) by {
                        lemma_glookup_update(s0, i as int, e, n);
                    }
                    assert(unique_names(self.entries@)) by {
                        assert(forall|j: int|
                            0 <= j < s0.len() ==> (#[trigger] self.entries@[j]).name@
                                == s0[j].name@);
                    }
                }
                return ;
            }
            i = i + 1;
        }
        proof {
            lemma_glookup_absent(s0, name@);
        }
    }
}

/// Pushing a hitbox onto a group and popping it again leaves every
/// group's stack exactly as it was: the balance that a paint pass
/// maintains for each grouped element it visits.
pub proof fn lemma_group_push_pop_balances(
    before: GroupRegistry,
    pushed: GroupRegistry,
    after: GroupRegistry,
    name: Seq<char>,
    hitbox_id: u64,
)
    requires
        pushed.spec_stack(name) == before.spec_stack(name).push(hitbox_id),
        forall|n: Seq<char>| n != name ==> pushed.spec_stack(n) == before.spec_stack(n),
        after.spec_stack(name) == pushed.spec_stack(name).drop_last(),
        forall|n: Seq<char>| n != name ==> after.spec_stack(n) == pushed.spec_stack(n),
    ensures
        GroupRegistry::spec_same_stacks(after, before),
{
    assert forall|n: Seq<char>| after.spec_stack(n) == before.spec_stack(n) by {
        if n == name {
            assert(after.spec_stack(n) =~= before.spec_stack(n));
        }
    }
}

} // verus!
