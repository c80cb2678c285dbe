//! The worker registry: the identifiers of tasks that currently have a live
//! worker. Its size is the concurrency in use, counted against the
//! concurrency cap.
//!
//! The cancellable handles themselves live with the caller, keyed by the
//! same identifiers; this registry is the bookkeeping that admission and
//! cancellation decisions are made from.

use vstd::prelude::*;

verus! {

/// Identifiers of the tasks whose workers are registered, each at most once.
pub struct WorkerRegistry {
    ids: Vec<String>,
}

impl WorkerRegistry {
    /// The registered identifiers.
    pub closed spec fn ids(&self) -> Seq<Seq<char>> {
        self.ids@.map(|i: int, s: String| s@)
    }

    /// How many workers are registered.
    pub open spec fn count(&self) -> nat {
        self.ids().len()
    }

    /// No identifier is registered twice.
    pub closed spec fn wf(&self) -> bool {
        self.ids().no_duplicates()
    }

    /// An empty registry.
    pub fn new() -> (r: WorkerRegistry)
        ensures
            r.wf(),
            r.ids() == Seq::<Seq<char>>::empty(),
    {
        let r = WorkerRegistry { ids: Vec::new() };
        proof {
            assert(r.ids() =~= Seq::<Seq<char>>::empty());
        }
        r
    }

    pub fn len(&self) -> (r: usize)
        ensures
            r == self.count(),
    {
        self.ids.len()
    }

    /// Whether this identifier has a registered worker.
    pub fn contains(&self, id: &String) -> (r: bool)
        ensures
            r == self.ids().contains(id@),
    {
        let n = self.ids.len();
        let mut i: usize = 0;
        while i < n
            invariant
                n == self.ids@.len(),
                i <= n,
                forall|j: int| 0 <= j < i ==> self.ids()[j] != id@,
            decreases n - i,
        {
            if self.ids[i].eq(id) {
                assert(self.ids()[i as int] == id@);
                return true;
            }
            i += 1;
        }
        false
    }

    /// Registers an identifier that is not yet present; one already present
    /// is left alone and `false` is returned.
    pub fn insert(&mut self, id: String) -> (r: bool)
        requires
            old(self).wf(),
        ensures
            final(self).wf(),
            r == !old(self).ids().contains(id@),
            r ==> final(self).ids() == old(self).ids().push(id@),
            !r ==> final(self).ids() == old(self).ids(),
    {
        if self.contains(&id) {
            return false;
        }
        self.ids.push(id);
        proof {
            assert(final(self).ids() =~= old(self).ids().push(id@));
        }
        true
    }

    /// Unregisters an identifier; `false` if it was not registered. The
    /// remaining identifiers are exactly the others.
    pub fn remove(&mut self, id: &String) -> (r: bool)
        requires
            old(self).wf(),
        ensures
            final(self).wf(),
            r == old(self).ids().contains(id@),
            r ==> final(self).count() == old(self).count() - 1,
            !r ==> final(self).ids() == old(self).ids(),
            forall|k: Seq<char>|
                #![auto]
                final(self).ids().contains(k) <==> (old(self).ids().contains(k) && k != id@),
    {
        let n = self.ids.len();
        let mut i: usize = 0;
        while i < n
            invariant
                old(self).wf(),
                *self == *old(self),
                n == self.ids@.len(),
                i <= n,
                forall|j: int| 0 <= j < i ==> self.ids()[j] != id@,
            decreases n - i,
        {
            if self.ids[i].eq(id) {
                assert(self.ids()[i as int] == id@);
                let ghost old_ids = self.ids();
                self.ids.remove(i);
                proof {
                    let pos = i as int;
                    assert(old_ids.no_duplicates());
                    assert(old_ids[pos] == id@);
                    assert(self.ids() =~= old_ids.remove(pos));
                    assert forall|a: int, b: int|
                        0 <= a < b < self.ids().len() implies self.ids()[a] != self.ids()[b] by {
                        let ia: int = if a < pos { a } else { a + 1 };
                        let ib: int = if b < pos { b } else { b + 1 };
                        assert(self.ids()[a] == old_ids[ia]);
                        assert(self.ids()[b] == old_ids[ib]);
                        assert(ia != ib);
                        assert(old_ids[ia] != old_ids[ib]);
                    }
                    assert forall|k: Seq<char>|
                        #![auto]
                        self.ids().contains(k) <==> (old_ids.contains(k) && k != id@) by {
                        if self.ids().contains(k) {
                            let a = choose|a: int|
                                0 <= a < self.ids().len() && self.ids()[a] == k;
                            let ia: int = if a < pos { a } else { a + 1 };
                            assert(self.ids()[a] == old_ids[ia]);
                            assert(old_ids[ia] == k);
                            assert(ia != pos);
                            assert(old_ids[ia] != old_ids[pos]);
                            assert(k != id@);
                        }
                        if old_ids.contains(k) && k != id@ {
                            let a = choose|a: int| 0 <= a < old_ids.len() && old_ids[a] == k;
                            if a < pos {
                                assert(self.ids()[a] == old_ids[a]);
                                assert(self.ids().contains(k));
                            } else {
                                assert(a != pos);
                                assert(self.ids()[a - 1] == old_ids[a]);
                                assert(self.ids().contains(k));
                            }
                        }
                    }
                }
                return true;
            }
            i += 1;
        }
        assert(!self.ids().contains(id@));
        false
    }
}

} // verus!
