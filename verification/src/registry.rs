//! Reference-counted handles for objects exported across the boundary.
//!
//! Object-typed values never cross the boundary by copy: the boundary keeps
//! each exported object alive under an opaque handle, and both sides keep it
//! alive independently through a matching acquire/release pair. A handle is
//! destroyed exactly once, when its count reaches zero; after that it is
//! dangling and lifting it fails.

use vstd::prelude::*;

verus! {

/// One live exported object: its opaque handle and its reference count.
pub struct ObjectEntry {
    pub handle: u64,
    pub count: u64,
}

/// The boundary's table of live exported objects.
///
/// Well-formedness: every live entry has a positive count, handles are
/// unique, and every handle ever given out is below `next`, so fresh
/// handles never collide with live ones.
pub struct ObjectRegistry {
    entries: Vec<ObjectEntry>,
    next: u64,
}

impl ObjectRegistry {
    pub closed spec fn wf(&self) -> bool {
        &&& forall|i: int|
            0 <= i < self.entries@.len() ==> (#[trigger] self.entries@[i]).count >= 1
        &&& forall|i: int|
            0 <= i < self.entries@.len() ==> (#[trigger] self.entries@[i]).handle < self.next
        &&& forall|i: int, j: int|
            0 <= i < j < self.entries@.len() ==> self.entries@[i].handle
                != self.entries@[j].handle
    }

    /// How many handles have ever been given out; the next fresh handle.
    pub closed spec fn spec_issued(&self) -> u64 {
        self.next
    }

    /// The set of handles that currently name a live object.
    pub closed spec fn live_set(&self) -> Set<u64> {
        Set::new(|h: u64| exists|i: int|
            0 <= i < self.entries@.len() && (#[trigger] self.entries@[i]).handle == h)
    }

    /// The reference count a live handle carries.
    pub closed spec fn spec_count(&self, h: u64) -> u64 {
        self.entries@[choose|i: int|
            0 <= i < self.entries@.len() && (#[trigger] self.entries@[i]).handle == h].count
    }

    proof fn lemma_count_at(&self, i: int)
        requires
            self.wf(),
            0 <= i < self.entries@.len(),
        ensures
            self.live_set().contains(self.entries@[i].handle),
            self.spec_count(self.entries@[i].handle) == self.entries@[i].count,
    {
        let h = self.entries@[i].handle;
        assert(0 <= i < self.entries@.len() && self.entries@[i].handle == h);
        let j = choose|j: int|
            0 <= j < self.entries@.len() && (#[trigger] self.entries@[j]).handle == h;
        if i < j {
            assert(self.entries@[i].handle != self.entries@[j].handle);
        } else if j < i {
            assert(self.entries@[j].handle != self.entries@[i].handle);
        }
    }

    /// An empty registry: nothing is live.
    pub fn new() -> (r: Self)
        ensures
            r.wf(),
            r.live_set() == Set::<u64>::empty(),
            r.spec_issued() == 0,
    {
        let r = ObjectRegistry { entries: Vec::new(), next: 0 };
        proof {
            assert(r.live_set() =~= Set::<u64>::empty());
        }
        r
    }

    /// Export a new object: give it a fresh handle with count one.
    /// Fresh means the handle named nothing live before this call.
    pub fn register(&mut self) -> (h: u64)
        requires
            old(self).wf(),
            old(self).spec_issued() < u64::MAX,
        ensures
            final(self).wf(),
            final(self).spec_issued() == old(self).spec_issued() + 1,
            !old(self).live_set().contains(h),
            final(self).live_set() =~= old(self).live_set().insert(h),
            final(self).spec_count(h) == 1,
            forall|g: u64|
                old(self).live_set().contains(g) ==> final(self).spec_count(g)
                    == old(self).spec_count(g),
    {
        let h = self.next;
        self.next = self.next + 1;
        self.entries.push(ObjectEntry { handle: h, count: 1 });
        proof {
            let pre = old(self);
            let n = pre.entries@.len() as int;
            assert(self.entries@[n].handle == h);
            assert(self.wf()) by {
                assert forall|i: int, j: int|
                    0 <= i < j < self.entries@.len() implies self.entries@[i].handle
                    != self.entries@[j].handle by {
                    if j < n {
                        assert(pre.entries@[i].handle != pre.entries@[j].handle);
                    } else {
                        assert(self.entries@[j].handle == h);
                        assert(pre.entries@[i].handle < pre.next);
                    }
                }
            }
            assert(!pre.live_set().contains(h)) by {
                if pre.live_set().contains(h) {
                    let i = choose|i: int|
                        0 <= i < pre.entries@.len() && (#[trigger] pre.entries@[i]).handle == h;
                    assert(pre.entries@[i].handle < pre.next);
                }
            }
            self.lemma_count_at(n);
            assert forall|g: u64| pre.live_set().contains(g) implies self.live_set().contains(g)
                && self.spec_count(g) == pre.spec_count(g) by {
                let i = choose|i: int|
                    0 <= i < pre.entries@.len() && (#[trigger] pre.entries@[i]).handle == g;
                assert(self.entries@[i].handle == g);
                self.lemma_count_at(i);
                pre.lemma_count_at(i);
            }
            assert(self.live_set() =~= pre.live_set().insert(h)) by {
                assert forall|g: u64| self.live_set().contains(g) implies pre.live_set().insert(
                    h,
                ).contains(g) by {
                    let i = choose|i: int|
                        0 <= i < self.entries@.len() && (#[trigger] self.entries@[i]).handle
                            == g;
                    if i < n {
                        assert(pre.entries@[i].handle == g);
                    } else {
                        assert(g == h);
                    }
                }
                assert forall|g: u64| pre.live_set().insert(h).contains(g)
                    implies self.live_set().contains(g) by {
                    if g == h {
                        assert(self.entries@[n].handle == g);
                    } else {
                        let i = choose|i: int|
                            0 <= i < pre.entries@.len() && (#[trigger] pre.entries@[i]).handle
                                == g;
                        assert(self.entries@[i].handle == g);
                    }
                }
            }
        }
        h
    }

    /// The index of a live handle's entry.
    fn find(&self, h: u64) -> (r: Option<usize>)
        requires
            self.wf(),
        ensures
            match r {
                Some(i) => i < self.entries@.len() && self.entries@[i as int].handle == h,
                None => !self.live_set().contains(h),
            },
    {
        let mut i: usize = 0;
        while i < self.entries.len()
            invariant
                self.wf(),
                i <= self.entries@.len(),
                forall|j: int| 0 <= j < i ==> (#[trigger] self.entries@[j]).handle != h,
            decreases self.entries@.len() - i,
        {
            if self.entries[i].handle == h {
                return Some(i);
            }
            i = i + 1;
        }
        proof {
            if self.live_set().contains(h) {
                let j = choose|j: int|
                    0 <= j < self.entries@.len() && (#[trigger] self.entries@[j]).handle == h;
                assert(self.entries@[j].handle != h);
            }
        }
        None
    }

    /// Whether a handle names a live exported object.
    pub fn is_live(&self, h: u64) -> (r: bool)
        requires
            self.wf(),
        ensures
            r == self.live_set().contains(h),
    {
        match self.find(h) {
            Some(i) => {
                proof {
                    self.lemma_count_at(i as int);
                }
                true
            }
            None => false,
        }
    }

    /// Take one more reference to a live object, so the caller's side can
    /// keep it alive independently.
    pub fn acquire(&mut self, h: u64)
        requires
            old(self).wf(),
            old(self).live_set().contains(h),
            old(self).spec_count(h) < u64::MAX,
        ensures
            final(self).wf(),
            final(self).spec_issued() == old(self).spec_issued(),
            final(self).live_set() == old(self).live_set(),
            final(self).spec_count(h) == old(self).spec_count(h) + 1,
            forall|g: u64|
                old(self).live_set().contains(g) && g != h ==> final(self).spec_count(g)
                    == old(self).spec_count(g),
    {
        let i = match self.find(h) {
            Some(i) => i,
            None => {
                proof {
                    assert(false);
                }
                return ;
            }
        };
        proof {
            self.lemma_count_at(i as int);
        }
        let c = self.entries[i].count;
        self.entries.set(i, ObjectEntry { handle: h, count: c + 1 });
        proof {
            self.lemma_same_handles_after_update(old(self), i as int, h);
        }
    }

    /// Give one reference back. The object is destroyed exactly when the
    /// last reference goes: the call reports it, and the handle dangles
    /// from then on.
    pub fn release(&mut self, h: u64) -> (destroyed: bool)
        requires
            old(self).wf(),
            old(self).live_set().contains(h),
        ensures
            final(self).wf(),
            final(self).spec_issued() == old(self).spec_issued(),
            destroyed == (old(self).spec_count(h) == 1),
            destroyed ==> final(self).live_set() =~= old(self).live_set().remove(h),
            !destroyed ==> final(self).live_set() == old(self).live_set()
                && final(self).spec_count(h) == old(self).spec_count(h) - 1,
            forall|g: u64|
                old(self).live_set().contains(g) && g != h ==> final(self).live_set().contains(g)
                    && final(self).spec_count(g) == old(self).spec_count(g),
    {
        let i = match self.find(h) {
            Some(i) => i,
            None => {
                proof {
                    assert(false);
                }
                return false;
            }
        };
        proof {
            self.lemma_count_at(i as int);
        }
        let c = self.entries[i].count;
        if c == 1 {
            // Swap-remove keeps the table dense; order among entries does
            // not matter, only the set of handles and their counts.
            let last = self.entries.len() - 1;
            let moved = self.entries[last].handle;
            let moved_count = self.entries[last].count;
            if i < last {
                self.entries.set(i, ObjectEntry { handle: moved, count: moved_count });
            }
            self.entries.pop();
            proof {
                let pre = old(self);
                let ii = i as int;
                let nn = last as int;
                assert(self.entries@.len() == nn);
                assert(self.wf()) by {
                    assert forall|j: int, k: int|
                        0 <= j < k < self.entries@.len() implies self.entries@[j].handle
                        != self.entries@[k].handle by {
                        if j == ii && ii < nn {
                            assert(pre.entries@[nn].handle != pre.entries@[k].handle);
                        } else if k == ii && ii < nn {
                            assert(pre.entries@[j].handle != pre.entries@[nn].handle);
                        } else {
                            assert(pre.entries@[j].handle != pre.entries@[k].handle);
                        }
                    }
                }
                assert forall|g: u64|
                    pre.live_set().contains(g) && g != h implies self.live_set().contains(g)
                    && self.spec_count(g) == pre.spec_count(g) by {
                    let j = choose|j: int|
                        0 <= j < pre.entries@.len() && (#[trigger] pre.entries@[j]).handle == g;
                    assert(j != ii);
                    pre.lemma_count_at(j);
                    if j == nn {
                        assert(ii < nn);
                        assert(self.entries@[ii].handle == g);
                        self.lemma_count_at(ii);
                    } else {
                        assert(self.entries@[j].handle == g);
                        self.lemma_count_at(j);
                    }
                }
                assert(self.live_set() =~= pre.live_set().remove(h)) by {
                    assert forall|g: u64| self.live_set().contains(g) implies pre.live_set().remove(
                        h,
                    ).contains(g) by {
                        let j = choose|j: int|
                            0 <= j < self.entries@.len() && (#[trigger] self.entries@[j]).handle
                                == g;
                        if j == ii && ii < nn {
                            assert(pre.entries@[nn].handle == g);
                            assert(pre.entries@[ii].handle != pre.entries@[nn].handle);
                        } else {
                            assert(pre.entries@[j].handle == g);
                            assert(pre.entries@[j].handle != pre.entries@[ii].handle);
                        }
                    }
                    assert forall|g: u64| pre.live_set().remove(h).contains(g)
                        implies self.live_set().contains(g) by {
                        let j = choose|j: int|
                            0 <= j < pre.entries@.len() && (#[trigger] pre.entries@[j]).handle
                                == g;
                        assert(j != ii);
                        if j == nn {
                            assert(ii < nn);
                            assert(self.entries@[ii].handle == g);
                        } else {
                            assert(self.entries@[j].handle == g);
                        }
                    }
                }
            }
            true
        } else {
            self.entries.set(i, ObjectEntry { handle: h, count: c - 1 });
            proof {
                self.lemma_same_handles_after_update(old(self), i as int, h);
            }
            false
        }
    }

    /// After replacing entry `i` (whose handle is `h`) with one of the same
    /// handle, liveness is unchanged and only `h`'s count may differ.
    proof fn lemma_same_handles_after_update(&self, pre: &Self, i: int, h: u64)
        requires
            pre.wf(),
            0 <= i < pre.entries@.len(),
            pre.entries@[i].handle == h,
            self.next == pre.next,
            self.entries@.len() == pre.entries@.len(),
            self.entries@[i].handle == h,
            self.entries@[i].count >= 1,
            forall|j: int| 0 <= j < pre.entries@.len() && j != i ==> self.entries@[j]
                == pre.entries@[j],
        ensures
            self.wf(),
            self.live_set() == pre.live_set(),
            self.spec_count(h) == self.entries@[i].count,
            forall|g: u64|
                pre.live_set().contains(g) && g != h ==> self.spec_count(g) == pre.spec_count(g),
    {
        assert(self.wf()) by {
            assert forall|j: int, k: int|
                0 <= j < k < self.entries@.len() implies self.entries@[j].handle
                != self.entries@[k].handle by {
                assert(pre.entries@[j].handle != pre.entries@[k].handle);
            }
        }
        assert(self.live_set() =~= pre.live_set()) by {
            assert forall|g: u64| pre.live_set().contains(g) implies self.live_set().contains(
                g,
            ) by {
                let j = choose|j: int|
                    0 <= j < pre.entries@.len() && (#[trigger] pre.entries@[j]).handle == g;
                assert(self.entries@[j].handle == g);
            }
            assert forall|g: u64| self.live_set().contains(g) implies pre.live_set().contains(
                g,
            ) by {
                let j = choose|j: int|
                    0 <= j < self.entries@.len() && (#[trigger] self.entries@[j]).handle == g;
                assert(pre.entries@[j].handle == g);
            }
        }
        self.lemma_count_at(i);
        assert forall|g: u64| pre.live_set().contains(g) && g != h implies self.spec_count(g)
            == pre.spec_count(g) by {
            let j = choose|j: int|
                0 <= j < pre.entries@.len() && (#[trigger] pre.entries@[j]).handle == g;
            assert(j != i);
            assert(self.entries@[j].handle == g);
            self.lemma_count_at(j);
            pre.lemma_count_at(j);
        }
    }
}

} // verus!
