//! Per-category handle tables: small integer ids standing in for native
//! resources, so that sandboxed code never sees a real native value.
use vstd::prelude::*;

verus! {

/// A table from handle ids to native resources of one category.
///
/// Ids are handed out in increasing order starting at `next_id` and are
/// never reused, also after the entry has been freed.
pub struct MpiTranslation<HostType> {
    next_id: i32,
    ids: Vec<i32>,
    instances: Vec<HostType>,
}

impl<HostType> View for MpiTranslation<HostType> {
    type V = Map<i32, HostType>;

    /// The live entries, by id.
    closed spec fn view(&self) -> Map<i32, HostType> {
        Map::new(
            |k: i32| self.ids@.contains(k),
            |k: i32| self.instances@[self.slot(k)],
        )
    }
}

impl<HostType> MpiTranslation<HostType> {
    /// The position at which `k` is stored.
    pub closed spec fn slot(&self, k: i32) -> int {
        choose|i: int| 0 <= i < self.ids@.len() && self.ids@[i] == k
    }

    /// The id that the next allocation hands out.
    pub closed spec fn spec_next_id(&self) -> int {
        self.next_id as int
    }

    /// Every live id lies below the next id, and no id is stored twice.
    pub closed spec fn wf(&self) -> bool {
        &&& self.ids@.len() == self.instances@.len()
        &&& forall|i: int| 0 <= i < self.ids@.len() ==> self.ids@[i] < self.next_id
        &&& forall|i: int, j: int|
            0 <= i < j < self.ids@.len() ==> self.ids@[i] != self.ids@[j]
    }

    proof fn lemma_slot(&self, i: int)
        requires
            self.wf(),
            0 <= i < self.ids@.len(),
        ensures
            self.slot(self.ids@[i]) == i,
            self@.contains_key(self.ids@[i]),
            self@[self.ids@[i]] == self.instances@[i],
    {
        let k = self.ids@[i];
        assert(self.ids@.contains(k));
        let j = self.slot(k);
        assert(0 <= j < self.ids@.len() && self.ids@[j] == k);
        if j != i {
            if j < i {
                assert(self.ids@[j] != self.ids@[i]);
            } else {
                assert(self.ids@[i] != self.ids@[j]);
            }
        }
    }

    proof fn lemma_updated(&self, i: int)
        requires
            self.wf(),
            0 <= i < self.ids@.len(),
        ensures
            forall|u: Self|
                #![trigger u.view()]
                #![trigger u.wf()]
                u.next_id == self.next_id && u.ids@ == self.ids@ && u.instances@
                    == self.instances@.update(i, u.instances@[i]) ==> u.wf() && u@
                    == self@.insert(self.ids@[i], u.instances@[i]),
    {
        assert forall|u: Self|
            u.next_id == self.next_id && u.ids@ == self.ids@ && u.instances@
                == self.instances@.update(i, u.instances@[i]) implies u.wf() && u@
                == self@.insert(self.ids@[i], u.instances@[i]) by {
            let k = self.ids@[i];
            assert forall|k2: i32| u@.contains_key(k2) implies u@[k2] == self@.insert(k, u.instances@[i])[k2] by {
                let j = choose|j: int| 0 <= j < u.ids@.len() && u.ids@[j] == k2;
                u.lemma_slot(j);
                self.lemma_slot(j);
            }
            assert(u@ =~= self@.insert(k, u.instances@[i]));
        }
    }

    proof fn lemma_pushed(&self, after: Self, id: i32)
        requires
            self.wf(),
            !self@.contains_key(id),
            id < after.next_id,
            self.next_id <= after.next_id,
            after.ids@ == self.ids@.push(id),
            after.instances@.len() == self.instances@.len() + 1,
            after.instances@.drop_last() == self.instances@,
        ensures
            after.wf(),
            after@ == self@.insert(id, after.instances@.last()),
    {
        let n = self.ids@.len() as int;
        assert forall|i: int| 0 <= i < n implies after.ids@[i] == self.ids@[i]
            && after.instances@[i] == self.instances@[i] by {
            assert(after.instances@[i] == after.instances@.drop_last()[i]);
        }
        assert forall|i: int, j: int| 0 <= i < j < after.ids@.len() implies after.ids@[i]
            != after.ids@[j] by {
            if j == n {
                self.lemma_slot(i);
            }
        }
        let m = self@.insert(id, after.instances@.last());
        assert forall|k: i32| after@.contains_key(k) implies m.contains_key(k) && after@[k] == m[k] by {
            let j = choose|j: int| 0 <= j < after.ids@.len() && after.ids@[j] == k;
            after.lemma_slot(j);
            if j < n {
                self.lemma_slot(j);
            }
        }
        assert forall|k: i32| m.contains_key(k) implies after@.contains_key(k) by {
            if k == id {
                assert(after.ids@[n] == k);
            } else {
                let j = choose|j: int| 0 <= j < self.ids@.len() && self.ids@[j] == k;
                assert(after.ids@[j] == k);
            }
        }
        assert(after@ =~= m);
    }

    proof fn lemma_removed(&self, after: Self, i: int)
        requires
            self.wf(),
            0 <= i < self.ids@.len(),
            after.next_id == self.next_id,
            after.ids@ == self.ids@.remove(i),
            after.instances@ == self.instances@.remove(i),
        ensures
            after.wf(),
            after@ == self@.remove(self.ids@[i]),
    {
        let k = self.ids@[i];
        let m = self@.remove(k);
        assert forall|a: int, b: int| 0 <= a < b < after.ids@.len() implies after.ids@[a]
            != after.ids@[b] by {
            let a0 = if a < i { a } else { a + 1 };
            let b0 = if b < i { b } else { b + 1 };
            assert(after.ids@[a] == self.ids@[a0]);
            assert(after.ids@[b] == self.ids@[b0]);
        }
        assert(after.wf());
        assert forall|k2: i32| after@.contains_key(k2) implies m.contains_key(k2) && after@[k2] == m[k2] by {
            let j = choose|j: int| 0 <= j < after.ids@.len() && after.ids@[j] == k2;
            after.lemma_slot(j);
            let j0 = if j < i { j } else { j + 1 };
            assert(self.ids@[j0] == k2);
            self.lemma_slot(j0);
        }
        assert forall|k2: i32| m.contains_key(k2) implies after@.contains_key(k2) by {
            let j = choose|j: int| 0 <= j < self.ids@.len() && self.ids@[j] == k2;
            assert(j != i);
            let j1 = if j < i { j } else { j - 1 };
            assert(after.ids@[j1] == k2);
        }
        assert(after@ =~= m);
    }

    /// Every id in the table lies below the next id.
    pub proof fn lemma_ids_below_next(&self, k: i32)
        requires
            self.wf(),
            self@.contains_key(k),
        ensures
            k < self.spec_next_id(),
    {
        let i = choose|i: int| 0 <= i < self.ids@.len() && self.ids@[i] == k;
        assert(self.ids@[i] == k);
    }

    fn find(&self, instance_id: i32) -> (r: Option<usize>)
        requires
            self.wf(),
        ensures
            match r {
                Some(i) => i < self.ids@.len() && self.ids@[i as int] == instance_id,
                None => !self@.contains_key(instance_id),
            },
    {
        let mut i: usize = 0;
        while i < self.ids.len()
            invariant
                self.wf(),
                i <= self.ids@.len(),
                forall|j: int| 0 <= j < i ==> self.ids@[j] != instance_id,
            decreases self.ids@.len() - i,
        {
            if self.ids[i] == instance_id {
                return Some(i);
            }
            i = i + 1;
        }
        None
    }

    /// An empty table whose first allocation hands out id 0.
    pub fn new() -> (r: Self)
        ensures
            r.wf(),
            r@ == Map::<i32, HostType>::empty(),
            r.spec_next_id() == 0,
    {
        let r = MpiTranslation { next_id: 0, ids: Vec::new(), instances: Vec::new() };
        assert(r@ =~= Map::<i32, HostType>::empty());
        r
    }

    /// An empty table whose first allocation hands out `next_id`.
    pub(crate) fn with_next_id(next_id: i32) -> (r: Self)
        ensures
            r.wf(),
            r@ == Map::<i32, HostType>::empty(),
            r.spec_next_id() == next_id,
    {
        let r = MpiTranslation { next_id, ids: Vec::new(), instances: Vec::new() };
        assert(r@ =~= Map::<i32, HostType>::empty());
        r
    }

    /// Puts a well-known entry below the allocation range.
    pub(crate) fn seed(&mut self, instance_id: i32, instance: HostType)
        requires
            old(self).wf(),
            instance_id < old(self).spec_next_id(),
            !old(self)@.contains_key(instance_id),
        ensures
            final(self).wf(),
            final(self).spec_next_id() == old(self).spec_next_id(),
            final(self)@ == old(self)@.insert(instance_id, instance),
    {
        let ghost before = *self;
        self.ids.push(instance_id);
        self.instances.push(instance);
        proof {
            assert(self.instances@.drop_last() =~= before.instances@);
            before.lemma_pushed(*self, instance_id);
        }
    }

    /// The id that the next allocation hands out.
    pub fn next_id(&self) -> (r: i32)
        ensures
            r == self.spec_next_id(),
    {
        self.next_id
    }

    /// The resource behind `instance_id`, if the id is live.
    pub fn get(&self, instance_id: i32) -> (r: Option<&HostType>)
        requires
            self.wf(),
        ensures
            match r {
                Some(v) => self@.contains_key(instance_id) && *v == self@[instance_id],
                None => !self@.contains_key(instance_id),
            },
    {
        match self.find(instance_id) {
            Some(i) => {
                proof {
                    self.lemma_slot(i as int);
                }
                Some(&self.instances[i])
            },
            None => None,
        }
    }

    /// Mutable access to the resource behind `instance_id`, if the id is live.
    pub fn get_mut(&mut self, instance_id: i32) -> (r: Option<&mut HostType>)
        requires
            old(self).wf(),
        ensures
            final(self).wf(),
            final(self).spec_next_id() == old(self).spec_next_id(),
            match r {
                Some(v) => {
                    &&& old(self)@.contains_key(instance_id)
                    &&& *v == old(self)@[instance_id]
                    &&& final(self)@ == old(self)@.insert(instance_id, *final(v))
                },
                None => {
                    &&& !old(self)@.contains_key(instance_id)
                    &&& final(self)@ == old(self)@
                },
            },
    {
        match self.find(instance_id) {
            Some(i) => {
                proof {
                    self.lemma_slot(i as int);
                    self.lemma_updated(i as int);
                }
                let r = &mut self.instances[i];
                Some(r)
            },
            None => None,
        }
    }

    /// Allocates the next id with a default-valued resource and hands out
    /// the id and mutable access to that resource.
    pub fn alloc_instance(&mut self) -> (r: (i32, &mut HostType)) where HostType: Default
        requires
            old(self).wf(),
            old(self).spec_next_id() < i32::MAX,
        ensures
            final(self).wf(),
            allocated(*old(self), *final(self), r.0),
            call_ensures(HostType::default, (), *r.1),
            final(self)@ == old(self)@.insert(r.0, *final(r.1)),
    {
        let instance = HostType::default();
        let instance_id = self.next_id;
        proof {
            if self@.contains_key(instance_id) {
                self.lemma_ids_below_next(instance_id);
            }
        }
        let ghost before = *self;
        self.ids.push(instance_id);
        self.instances.push(instance);
        self.next_id = self.next_id + 1;
        let last = self.instances.len() - 1;
        proof {
            assert(self.instances@.drop_last() =~= before.instances@);
            before.lemma_pushed(*self, instance_id);
            self.lemma_updated(last as int);
            assert forall|v: HostType| #[trigger] self@.insert(instance_id, v) == before@.insert(instance_id, v) by {
                assert(self@.insert(instance_id, v) =~= before@.insert(instance_id, v));
            }
        }
        let r = &mut self.instances[last];
        (instance_id, r)
    }

    /// Removes the entry `instance_id`; later lookups of it fail.
    pub fn free_instance(&mut self, instance_id: i32)
        requires
            old(self).wf(),
        ensures
            final(self).wf(),
            final(self).spec_next_id() == old(self).spec_next_id(),
            final(self)@ == old(self)@.remove(instance_id),
    {
        match self.find(instance_id) {
            Some(i) => {
                let ghost before = *self;
                self.ids.remove(i);
                self.instances.remove(i);
                proof {
                    before.lemma_removed(*self, i as int);
                }
            },
            None => {
                assert(self@ =~= self@.remove(instance_id));
            },
        }
    }
}

/// Whether table `t1` is table `t0` with one more entry, `id`, the id that
/// `t0` was to hand out next.
pub open spec fn allocated<H>(t0: MpiTranslation<H>, t1: MpiTranslation<H>, id: i32) -> bool {
    &&& id == t0.spec_next_id()
    &&& !t0@.contains_key(id)
    &&& t1@ == t0@.insert(id, t1@[id])
    &&& t1.spec_next_id() == t0.spec_next_id() + 1
}

/// Whether table `t1` is table `t0`.
pub open spec fn same_table<H>(t0: MpiTranslation<H>, t1: MpiTranslation<H>) -> bool {
    t1@ == t0@ && t1.spec_next_id() == t0.spec_next_id()
}

/// Ids grow strictly within one table: an id allocated before a later
/// allocation (with any allocations and frees between them) is below the id
/// that the later one hands out, so no id is ever handed out twice.
pub proof fn lemma_ids_never_reused<H>(
    t0: MpiTranslation<H>,
    t1: MpiTranslation<H>,
    t2: MpiTranslation<H>,
    t3: MpiTranslation<H>,
    id1: i32,
    id2: i32,
)
    requires
        allocated(t0, t1, id1),
        t1.spec_next_id() <= t2.spec_next_id(),
        allocated(t2, t3, id2),
    ensures
        id1 < id2,
        !t2@.contains_key(id2),
{
}

/// After an id is freed, looking it up fails.
pub proof fn lemma_freed_not_found<H>(t0: MpiTranslation<H>, t1: MpiTranslation<H>, id: i32)
    requires
        t1@ == t0@.remove(id),
    ensures
        !t1@.contains_key(id),
{
}

} // verus!
