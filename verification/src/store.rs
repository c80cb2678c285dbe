//! The task store: an ordered mapping from task identifier to task.
//!
//! Insertion order is preserved for iteration, removal shifts later entries
//! down, and an insert never displaces an existing entry. The mapping itself
//! is an `indexmap::IndexMap`; this module holds the trusted contracts for
//! the handful of its methods the store uses, and builds the verified
//! `TaskStore` interface on top of them.

use vstd::prelude::*;
use indexmap::IndexMap;
use std::collections::hash_map::RandomState;
use crate::task::UploadTask;

verus! {

#[verifier::external_type_specification]
#[verifier::external_body]
#[verifier::reject_recursive_types(K)]
#[verifier::reject_recursive_types(V)]
#[verifier::reject_recursive_types(S)]
pub struct ExIndexMap<K, V, S>(IndexMap<K, V, S>);

/// The keys of an index map, in iteration (insertion) order.
pub uninterp spec fn store_keys(m: IndexMap<String, UploadTask, RandomState>) -> Seq<Seq<char>>;

/// The key-to-value association of an index map.
pub uninterp spec fn store_vals(m: IndexMap<String, UploadTask, RandomState>) -> Map<
    Seq<char>,
    UploadTask,
>;

/// Relies on `IndexMap::new`: the new map is empty.
#[verifier::external_body]
fn im_new() -> (r: IndexMap<String, UploadTask, RandomState>)
    ensures
        store_keys(r).len() == 0,
        forall|k: Seq<char>| !store_vals(r).dom().contains(k),
{
    IndexMap::new()
}

/// Relies on `IndexMap::len`: the number of key-value pairs.
#[verifier::external_body]
fn im_len(m: &IndexMap<String, UploadTask, RandomState>) -> (r: usize)
    ensures
        r == store_keys(*m).len(),
{
    m.len()
}

/// Relies on `IndexMap::contains_key`: whether an equivalent key is present.
#[verifier::external_body]
fn im_contains_key(m: &IndexMap<String, UploadTask, RandomState>, key: &String) -> (r: bool)
    ensures
        r == store_keys(*m).contains(key@),
{
    m.contains_key(key)
}

/// Relies on `IndexMap::get`: the value stored for the key, if present.
#[verifier::external_body]
fn im_get<'a>(m: &'a IndexMap<String, UploadTask, RandomState>, key: &String) -> (r: Option<
    &'a UploadTask,
>)
    ensures
        match r {
            Some(v) => store_keys(*m).contains(key@) && *v == store_vals(*m)[key@],
            None => !store_keys(*m).contains(key@),
        },
{
    m.get(key)
}

/// Relies on `IndexMap::get_index`: the pair at a position of the order,
/// if the position is in range.
#[verifier::external_body]
fn im_get_index<'a>(m: &'a IndexMap<String, UploadTask, RandomState>, index: usize) -> (r: Option<
    (&'a String, &'a UploadTask),
>)
    ensures
        match r {
            Some(p) => {
                &&& index < store_keys(*m).len()
                &&& p.0@ == store_keys(*m)[index as int]
                &&& *p.1 == store_vals(*m)[p.0@]
            },
            None => index >= store_keys(*m).len(),
        },
{
    m.get_index(index)
}

/// Relies on `IndexMap::insert`: an equivalent key keeps its place in the
/// order and only its value is updated; a new key is appended last.
#[verifier::external_body]
fn im_insert(m: &mut IndexMap<String, UploadTask, RandomState>, key: String, value: UploadTask)
    -> (r: Option<UploadTask>)
    ensures
        store_keys(*old(m)).contains(key@) ==> {
            &&& r == Some(store_vals(*old(m))[key@])
            &&& store_keys(*final(m)) == store_keys(*old(m))
        },
        !store_keys(*old(m)).contains(key@) ==> {
            &&& r is None
            &&& store_keys(*final(m)) == store_keys(*old(m)).push(key@)
        },
        store_vals(*final(m)) == store_vals(*old(m)).insert(key@, value),
{
    m.insert(key, value)
}

/// Relies on `IndexMap::shift_remove`: the pair of an equivalent key is
/// removed and all later entries shift down, keeping their relative order.
#[verifier::external_body]
fn im_shift_remove(m: &mut IndexMap<String, UploadTask, RandomState>, key: &String) -> (r: Option<
    UploadTask,
>)
    ensures
        store_keys(*old(m)).contains(key@) ==> {
            &&& r == Some(store_vals(*old(m))[key@])
            &&& store_keys(*final(m)) == store_keys(*old(m)).remove(
                store_keys(*old(m)).index_of(key@),
            )
            &&& store_vals(*final(m)) == store_vals(*old(m)).remove(key@)
        },
        !store_keys(*old(m)).contains(key@) ==> {
            &&& r is None
            &&& store_keys(*final(m)) == store_keys(*old(m))
            &&& store_vals(*final(m)) == store_vals(*old(m))
        },
{
    m.shift_remove(key)
}

/// Whether some task of the sequence carries this identifier.
pub open spec fn has_task(ts: Seq<UploadTask>, id: Seq<char>) -> bool {
    exists|i: int| 0 <= i < ts.len() && ts[i].id@ == id
}

/// The position of the task carrying this identifier (meaningful when the
/// identifiers are distinct and `has_task` holds).
pub open spec fn task_index(ts: Seq<UploadTask>, id: Seq<char>) -> int {
    choose|i: int| 0 <= i < ts.len() && ts[i].id@ == id
}

/// No two tasks of the sequence share an identifier.
pub open spec fn ids_distinct(ts: Seq<UploadTask>) -> bool {
    forall|i: int, j: int| 0 <= i < j < ts.len() ==> ts[i].id@ != ts[j].id@
}

/// The ordered mapping from task identifier to task. Keys are the tasks' own
/// identifiers; iteration follows insertion order, with positions vacated by
/// removal closed up.
pub struct TaskStore {
    map: IndexMap<String, UploadTask, RandomState>,
}

impl TaskStore {
    /// The stored tasks, in insertion order.
    pub closed spec fn tasks(&self) -> Seq<UploadTask> {
        Seq::new(
            store_keys(self.map).len(),
            |i: int| store_vals(self.map)[store_keys(self.map)[i]],
        )
    }

    /// Keys are distinct, present exactly when listed, and each task sits
    /// under its own identifier.
    pub closed spec fn wf(&self) -> bool {
        &&& store_keys(self.map).no_duplicates()
        &&& (forall|k: Seq<char>|
            #![auto]
            store_vals(self.map).dom().contains(k) <==> store_keys(self.map).contains(k))
        &&& (forall|i: int|
            #![auto]
            0 <= i < store_keys(self.map).len() ==> store_vals(
                self.map,
            )[store_keys(self.map)[i]].id@ == store_keys(self.map)[i])
    }

    /// In a well-formed store no two tasks share an identifier.
    pub proof fn lemma_ids_distinct(&self)
        requires
            self.wf(),
        ensures
            ids_distinct(self.tasks()),
    {
        assert forall|i: int, j: int| 0 <= i < j < self.tasks().len() implies self.tasks()[i].id@
            != self.tasks()[j].id@ by {
            assert(self.tasks()[i] == store_vals(self.map)[store_keys(self.map)[i]]);
            assert(self.tasks()[j] == store_vals(self.map)[store_keys(self.map)[j]]);
        }
    }

    /// A task with this identifier is stored exactly when one of the listed
    /// tasks carries it, and then it sits at `task_index`.
    proof fn lemma_key_lookup(&self, id: Seq<char>)
        requires
            self.wf(),
        ensures
            store_keys(self.map).contains(id) <==> has_task(self.tasks(), id),
            store_keys(self.map).contains(id) ==> {
                &&& 0 <= task_index(self.tasks(), id) < self.tasks().len()
                &&& store_keys(self.map)[task_index(self.tasks(), id)] == id
                &&& self.tasks()[task_index(self.tasks(), id)] == store_vals(self.map)[id]
                &&& store_keys(self.map).index_of(id) == task_index(self.tasks(), id)
            },
    {
        if store_keys(self.map).contains(id) {
            let i = store_keys(self.map).index_of(id);
            assert(self.tasks()[i].id@ == id);
            assert(has_task(self.tasks(), id));
            let j = task_index(self.tasks(), id);
            assert(self.tasks()[j] == store_vals(self.map)[store_keys(self.map)[j]]);
            assert(store_keys(self.map)[j] == id);
            self.lemma_ids_distinct();
            assert(i == j);
        }
        if has_task(self.tasks(), id) {
            let j = task_index(self.tasks(), id);
            assert(store_keys(self.map)[j] == id);
            assert(store_keys(self.map).contains(id));
        }
    }

    /// An empty store.
    pub fn new() -> (r: TaskStore)
        ensures
            r.wf(),
            r.tasks() == Seq::<UploadTask>::empty(),
    {
        let map = im_new();
        proof {
            assert(Seq::new(store_keys(map).len(), |i: int| store_vals(map)[store_keys(map)[i]])
                =~= Seq::<UploadTask>::empty());
        }
        TaskStore { map }
    }

    /// How many tasks are stored.
    pub fn len(&self) -> (r: usize)
        ensures
            r == self.tasks().len(),
    {
        im_len(&self.map)
    }

    /// Whether a task with this identifier is stored.
    pub fn contains(&self, id: &String) -> (r: bool)
        requires
            self.wf(),
        ensures
            r == has_task(self.tasks(), id@),
    {
        proof {
            self.lemma_key_lookup(id@);
        }
        im_contains_key(&self.map, id)
    }

    /// The stored task with this identifier, if any.
    pub fn get<'a>(&'a self, id: &String) -> (r: Option<&'a UploadTask>)
        requires
            self.wf(),
        ensures
            match r {
                Some(t) => has_task(self.tasks(), id@) && *t == self.tasks()[task_index(
                    self.tasks(),
                    id@,
                )],
                None => !has_task(self.tasks(), id@),
            },
    {
        proof {
            self.lemma_key_lookup(id@);
        }
        im_get(&self.map, id)
    }

    /// The task at a position of the insertion order, if in range.
    pub fn get_at<'a>(&'a self, index: usize) -> (r: Option<&'a UploadTask>)
        ensures
            match r {
                Some(t) => index < self.tasks().len() && *t == self.tasks()[index as int],
                None => index >= self.tasks().len(),
            },
    {
        match im_get_index(&self.map, index) {
            Some(p) => Some(p.1),
            None => None,
        }
    }

    /// Insert-if-absent: a task whose identifier is new is appended last;
    /// one whose identifier is already present leaves the store unchanged
    /// and returns `false`.
    pub fn insert_new(&mut self, task: UploadTask) -> (r: bool)
        requires
            old(self).wf(),
        ensures
            final(self).wf(),
            r == !has_task(old(self).tasks(), task.id@),
            r ==> final(self).tasks() == old(self).tasks().push(task),
            !r ==> final(self).tasks() == old(self).tasks(),
    {
        proof {
            self.lemma_key_lookup(task.id@);
        }
        if im_contains_key(&self.map, &task.id) {
            return false;
        }
        let ghost old_map = self.map;
        let key = task.id.clone();
        let _ = im_insert(&mut self.map, key, task);
        proof {
            assert(store_keys(self.map) == store_keys(old_map).push(task.id@));
            assert forall|k: Seq<char>|
                store_vals(self.map).dom().contains(k) <==> store_keys(self.map).contains(
                k,
            ) by {
                if k == task.id@ {
                    assert(store_keys(self.map)[store_keys(self.map).len() - 1] == task.id@);
                    assert(store_keys(self.map).contains(k));
                } else {
                    assert(store_keys(self.map).contains(k) <==> store_keys(old_map).contains(k))
                        by {
                        if store_keys(self.map).contains(k) {
                            let i = choose|i: int|
                                0 <= i < store_keys(self.map).len() && store_keys(self.map)[i]
                                    == k;
                            assert(store_keys(old_map)[i] == k);
                        }
                        if store_keys(old_map).contains(k) {
                            let i = choose|i: int|
                                0 <= i < store_keys(old_map).len() && store_keys(old_map)[i] == k;
                            assert(store_keys(self.map)[i] == k);
                        }
                    }
                }
            }
            assert(final(self).tasks() =~= old(self).tasks().push(task));
        }
        true
    }

    /// Replaces the stored task whose identifier the given task carries, keeping
    /// its place in the order; a task whose identifier is absent is not
    /// stored and `false` is returned.
    pub fn replace(&mut self, task: UploadTask) -> (r: bool)
        requires
            old(self).wf(),
        ensures
            final(self).wf(),
            r == has_task(old(self).tasks(), task.id@),
            r ==> final(self).tasks() == old(self).tasks().update(
                task_index(old(self).tasks(), task.id@),
                task,
            ),
            !r ==> final(self).tasks() == old(self).tasks(),
    {
        proof {
            self.lemma_key_lookup(task.id@);
        }
        if !im_contains_key(&self.map, &task.id) {
            return false;
        }
        let ghost old_map = self.map;
        let ghost idx = task_index(old(self).tasks(), task.id@);
        let key = task.id.clone();
        let _ = im_insert(&mut self.map, key, task);
        proof {
            assert(store_keys(self.map) == store_keys(old_map));
            assert forall|i: int|
                0 <= i < store_keys(self.map).len() implies store_vals(
                self.map,
            )[store_keys(self.map)[i]].id@ == store_keys(self.map)[i] by {
                if store_keys(self.map)[i] == task.id@ {
                } else {
                    assert(store_vals(self.map)[store_keys(self.map)[i]] == store_vals(
                        old_map,
                    )[store_keys(old_map)[i]]);
                }
            }
            assert forall|k: Seq<char>|
                store_vals(self.map).dom().contains(k) <==> store_keys(self.map).contains(
                k,
            ) by {
                if k == task.id@ {
                    assert(store_keys(self.map)[idx] == task.id@);
                }
            }
            assert(final(self).tasks() =~= old(self).tasks().update(idx, task));
        }
        true
    }

    /// Removes the task with this identifier, shifting later tasks down and
    /// returning the removed task; `None` if the identifier is absent.
    pub fn remove(&mut self, id: &String) -> (r: Option<UploadTask>)
        requires
            old(self).wf(),
        ensures
            final(self).wf(),
            match r {
                Some(t) => {
                    &&& has_task(old(self).tasks(), id@)
                    &&& t == old(self).tasks()[task_index(old(self).tasks(), id@)]
                    &&& final(self).tasks() == old(self).tasks().remove(
                        task_index(old(self).tasks(), id@),
                    )
                },
                None => {
                    &&& !has_task(old(self).tasks(), id@)
                    &&& final(self).tasks() == old(self).tasks()
                },
            },
    {
        proof {
            self.lemma_key_lookup(id@);
        }
        let ghost old_map = self.map;
        let ghost idx = task_index(old(self).tasks(), id@);
        let r = im_shift_remove(&mut self.map, id);
        proof {
            if store_keys(old_map).contains(id@) {
                assert(store_keys(self.map) == store_keys(old_map).remove(idx));
                assert(store_keys(self.map).no_duplicates()) by {
                    assert forall|i: int, j: int|
                        0 <= i < j < store_keys(self.map).len() implies store_keys(self.map)[i]
                        != store_keys(self.map)[j] by {
                        let ki = if i < idx { store_keys(old_map)[i] } else {
                            store_keys(old_map)[i + 1]
                        };
                        let kj = if j < idx { store_keys(old_map)[j] } else {
                            store_keys(old_map)[j + 1]
                        };
                        assert(store_keys(self.map)[i] == ki);
                        assert(store_keys(self.map)[j] == kj);
                    }
                }
                assert forall|k: Seq<char>|
                    store_vals(self.map).dom().contains(k) <==> store_keys(self.map).contains(
                    k,
                ) by {
                    if k == id@ {
                        if store_keys(self.map).contains(k) {
                            let i = choose|i: int|
                                0 <= i < store_keys(self.map).len() && store_keys(self.map)[i]
                                    == k;
                            if i < idx {
                                assert(store_keys(old_map)[i] == k);
                            } else {
                                assert(store_keys(old_map)[i + 1] == k);
                            }
                            assert(false);
                        }
                    } else {
                        if store_keys(old_map).contains(k) {
                            let i = choose|i: int|
                                0 <= i < store_keys(old_map).len() && store_keys(old_map)[i] == k;
                            if i < idx {
                                assert(store_keys(self.map)[i] == k);
                            } else {
                                assert(store_keys(self.map)[i - 1] == k);
                            }
                        }
                        if store_keys(self.map).contains(k) {
                            let i = choose|i: int|
                                0 <= i < store_keys(self.map).len() && store_keys(self.map)[i]
                                    == k;
                            if i < idx {
                                assert(store_keys(old_map)[i] == k);
                            } else {
                                assert(store_keys(old_map)[i + 1] == k);
                            }
                        }
                    }
                }
                assert forall|i: int|
                    0 <= i < store_keys(self.map).len() implies store_vals(
                    self.map,
                )[store_keys(self.map)[i]].id@ == store_keys(self.map)[i] by {
                    let ki = if i < idx { store_keys(old_map)[i] } else {
                        store_keys(old_map)[i + 1]
                    };
                    assert(store_keys(self.map)[i] == ki);
                    assert(ki != id@);
                    assert(store_vals(self.map)[ki] == store_vals(old_map)[ki]);
                }
                assert(final(self).tasks() =~= old(self).tasks().remove(idx));
            } else {
                assert(final(self).tasks() =~= old(self).tasks());
            }
        }
        r
    }
}

} // verus!
