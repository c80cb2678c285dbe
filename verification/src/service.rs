//! The upload service: the task store, the worker registry and the
//! concurrency gate, with the lifecycle operations a caller drives and the
//! admission scan a periodic scheduler runs.
//!
//! The service holds no clock, spawns nothing and performs no transfer: the
//! caller ticks it, spawns a worker for each admitted identifier, and reports
//! worker events back through the `worker_*` operations.

use vstd::prelude::*;
use crate::config::VideoInfo;
use crate::registry::WorkerRegistry;
use crate::store::{TaskStore, has_task, task_index, ids_distinct};
use crate::task::{TaskStatus, UploadTask, fresh_task};
use crate::user::User;

verus! {

/// Why a lifecycle operation failed.
#[derive(Clone, Copy, Debug, PartialEq, Eq, Structural)]
pub enum ServiceError {
    /// The operation referenced an identifier no stored task carries.
    TaskNotFound,
}

impl ServiceError {
    /// A short description, for the caller to surface.
    pub fn message(&self) -> (r: String)
        ensures
            r@ == "unknown task id"@,
    {
        "unknown task id".to_owned()
    }
}

/// What one admission scan admits: walking the tasks in order, every
/// `Pending` task without a registered worker is taken, until the free
/// slots run out.
pub open spec fn admit_list(ts: Seq<UploadTask>, registered: Seq<Seq<char>>, remain: nat) -> Seq<
    Seq<char>,
>
    decreases ts.len(),
{
    if ts.len() == 0 || remain == 0 {
        Seq::empty()
    } else if ts[0].status is Pending && !registered.contains(ts[0].id@) {
        seq![ts[0].id@] + admit_list(ts.skip(1), registered, (remain - 1) as nat)
    } else {
        admit_list(ts.skip(1), registered, remain)
    }
}

/// A scan never admits more tasks than it has free slots.
pub proof fn lemma_admit_list_len(ts: Seq<UploadTask>, registered: Seq<Seq<char>>, remain: nat)
    ensures
        admit_list(ts, registered, remain).len() <= remain,
    decreases ts.len(),
{
    if ts.len() == 0 || remain == 0 {
    } else if ts[0].status is Pending && !registered.contains(ts[0].id@) {
        lemma_admit_list_len(ts.skip(1), registered, (remain - 1) as nat);
    } else {
        lemma_admit_list_len(ts.skip(1), registered, remain);
    }
}

/// A scan admits only what it should: every admitted identifier belongs to
/// a `Pending` task that had no registered worker.
pub proof fn lemma_admit_list_sound(ts: Seq<UploadTask>, registered: Seq<Seq<char>>, remain: nat)
    ensures
        forall|k: Seq<char>|
            #[trigger] admit_list(ts, registered, remain).contains(k) ==> exists|i: int|
                0 <= i < ts.len() && ts[i].id@ == k && ts[i].status is Pending
                    && !registered.contains(k),
    decreases ts.len(),
{
    if ts.len() == 0 || remain == 0 {
    } else {
        let taken = ts[0].status is Pending && !registered.contains(ts[0].id@);
        let rest = if taken {
            admit_list(ts.skip(1), registered, (remain - 1) as nat)
        } else {
            admit_list(ts.skip(1), registered, remain)
        };
        if taken {
            lemma_admit_list_sound(ts.skip(1), registered, (remain - 1) as nat);
        } else {
            lemma_admit_list_sound(ts.skip(1), registered, remain);
        }
        assert forall|k: Seq<char>|
            #[trigger] admit_list(ts, registered, remain).contains(k) implies exists|i: int|
            0 <= i < ts.len() && ts[i].id@ == k && ts[i].status is Pending
                && !registered.contains(k) by {
            let whole = admit_list(ts, registered, remain);
            let a = choose|a: int| 0 <= a < whole.len() && whole[a] == k;
            if taken && a == 0 {
                assert(ts[0].id@ == k);
            } else {
                let off: int = if taken { 1 } else { 0 };
                assert(rest[a - off] == k);
                assert(rest.contains(k));
                let i = choose|i: int|
                    0 <= i < ts.skip(1).len() && ts.skip(1)[i].id@ == k && ts.skip(1)[i].status
                        is Pending && !registered.contains(k);
                assert(ts[i + 1].id@ == k);
            }
        }
    }
}

/// Task store, worker registry and concurrency gate, together.
pub struct UploadService {
    store: TaskStore,
    workers: WorkerRegistry,
    max_running: u32,
}

impl UploadService {
    /// The stored tasks, in insertion order.
    pub closed spec fn tasks(&self) -> Seq<UploadTask> {
        self.store.tasks()
    }

    /// The identifiers with a registered worker.
    pub closed spec fn worker_ids(&self) -> Seq<Seq<char>> {
        self.workers.ids()
    }

    /// How many workers are registered.
    pub closed spec fn worker_count(&self) -> nat {
        self.workers.count()
    }

    /// The concurrency gate: how many workers may run at once.
    pub closed spec fn gate(&self) -> u32 {
        self.max_running
    }

    /// Store and registry are each well-formed, and every stored task keeps
    /// its counters in range.
    pub closed spec fn wf(&self) -> bool {
        &&& self.store.wf()
        &&& self.workers.wf()
        &&& forall|i: int| 0 <= i < self.tasks().len() ==> (#[trigger] self.tasks()[i]).wf()
    }

    /// How many workers an admission scan may still admit: the cap's
    /// current value less the workers already registered, never negative.
    pub open spec fn free_slots(&self) -> nat {
        if self.worker_count() < self.gate() as nat {
            (self.gate() as int - self.worker_count() as int) as nat
        } else {
            0
        }
    }

    /// An empty service with the given concurrency gate.
    pub fn new(max_curr: u32) -> (r: UploadService)
        ensures
            r.wf(),
            r.tasks() == Seq::<UploadTask>::empty(),
            r.worker_ids() == Seq::<Seq<char>>::empty(),
            r.gate() == max_curr,
    {
        UploadService {
            store: TaskStore::new(),
            workers: WorkerRegistry::new(),
            max_running: max_curr,
        }
    }

    /// How many workers are registered right now: the concurrency in use.
    pub fn running_workers(&self) -> (r: usize)
        ensures
            r == self.worker_count(),
    {
        self.workers.len()
    }

    /// Reconfigures the concurrency gate; the next admission scan reads the
    /// new value. Tasks and workers are untouched.
    pub fn set_max_concurrent(&mut self, max_curr: u32)
        ensures
            final(self).gate() == max_curr,
            final(self).tasks() == old(self).tasks(),
            final(self).worker_ids() == old(self).worker_ids(),
            old(self).wf() ==> final(self).wf(),
    {
        self.max_running = max_curr;
    }

    /// Creates a task for this user and video, `Waiting`, appended at the
    /// end of the order — unless a task with the video's identifier already
    /// exists, in which case nothing changes and `false` comes back.
    pub fn create_task(&mut self, user: &User, video: &VideoInfo, total_size: u64, now: u64)
        -> (r: bool)
        requires
            old(self).wf(),
        ensures
            final(self).wf(),
            final(self).worker_ids() == old(self).worker_ids(),
            final(self).gate() == old(self).gate(),
            r == !has_task(old(self).tasks(), video.id@),
            r ==> final(self).tasks() == old(self).tasks().push(
                fresh_task(*user, *video, total_size, now),
            ),
            !r ==> final(self).tasks() == old(self).tasks(),
    {
        let task = UploadTask::new(user, video, total_size, now);
        let created = self.store.insert_new(task);
        proof {
            assert forall|i: int|
                0 <= i < self.tasks().len() implies (#[trigger] self.tasks()[i]).wf() by {
                if i < old(self).tasks().len() {
                    assert(self.tasks()[i] == old(self).tasks()[i]);
                }
            }
        }
        created
    }

    /// Queues a task for admission. From `Waiting`, `Paused` or `Failed` the
    /// task becomes `Pending` and `true` comes back; a `Running`, `Completed`
    /// or already `Pending` task is left alone with `false` (so is a
    /// `Cancelled` one, should the caller ever hold such a snapshot). An
    /// unknown identifier is an error.
    pub fn start_upload(&mut self, task_id: &String) -> (r: Result<bool, ServiceError>)
        requires
            old(self).wf(),
        ensures
            final(self).wf(),
            final(self).worker_ids() == old(self).worker_ids(),
            final(self).gate() == old(self).gate(),
            match r {
                Ok(b) => {
                    &&& has_task(old(self).tasks(), task_id@)
                    &&& ({
                        let i = task_index(old(self).tasks(), task_id@);
                        let t = old(self).tasks()[i];
                        if t.status is Waiting || t.status is Paused || t.status is Failed {
                            &&& b
                            &&& final(self).tasks() == old(self).tasks().update(
                                i,
                                (UploadTask { status: TaskStatus::Pending, ..t }),
                            )
                        } else {
                            &&& !b
                            &&& final(self).tasks() == old(self).tasks()
                        }
                    })
                },
                Err(e) => {
                    &&& e is TaskNotFound
                    &&& !has_task(old(self).tasks(), task_id@)
                    &&& final(self).tasks() == old(self).tasks()
                },
            },
    {
        let t_opt = self.store.get(task_id);
        if t_opt.is_none() {
            return Err(ServiceError::TaskNotFound);
        }
        let mut c = t_opt.unwrap().clone();
        if c.is_running() || c.is_completed() {
            return Ok(false);
        }
        if c.is_paused() || c.is_failed() || c.is_waiting() {
            c.pending();
            let _ = self.store.replace(c);
            return Ok(true);
        }
        Ok(false)
    }

    /// Parks a task. Any stored task may be paused, whatever its status; an
    /// unknown identifier is an error.
    pub fn pause_upload(&mut self, task_id: &String) -> (r: Result<bool, ServiceError>)
        requires
            old(self).wf(),
        ensures
            final(self).wf(),
            final(self).worker_ids() == old(self).worker_ids(),
            final(self).gate() == old(self).gate(),
            match r {
                Ok(b) => {
                    &&& b
                    &&& has_task(old(self).tasks(), task_id@)
                    &&& final(self).tasks() == old(self).tasks().update(
                        task_index(old(self).tasks(), task_id@),
                        (UploadTask {
                            status: TaskStatus::Paused,
                            ..old(self).tasks()[task_index(old(self).tasks(), task_id@)]
                        }),
                    )
                },
                Err(e) => {
                    &&& e is TaskNotFound
                    &&& !has_task(old(self).tasks(), task_id@)
                    &&& final(self).tasks() == old(self).tasks()
                },
            },
    {
        let t_opt = self.store.get(task_id);
        if t_opt.is_none() {
            return Err(ServiceError::TaskNotFound);
        }
        let mut c = t_opt.unwrap().clone();
        c.pause();
        let _ = self.store.replace(c);
        Ok(true)
    }

    /// Cancels a task: it leaves the store (later tasks close the gap) and
    /// its worker, if one is registered, leaves the registry — the caller
    /// aborts the matching handle. Exactly one concurrency slot is freed
    /// when a worker was registered. An unknown identifier is an error.
    pub fn cancel_upload(&mut self, task_id: &String) -> (r: Result<bool, ServiceError>)
        requires
            old(self).wf(),
        ensures
            final(self).wf(),
            final(self).gate() == old(self).gate(),
            match r {
                Ok(b) => {
                    &&& b
                    &&& has_task(old(self).tasks(), task_id@)
                    &&& final(self).tasks() == old(self).tasks().remove(
                        task_index(old(self).tasks(), task_id@),
                    )
                    &&& (forall|k: Seq<char>|
                        #![auto]
                        final(self).worker_ids().contains(k) <==> (old(
                            self,
                        ).worker_ids().contains(k) && k != task_id@))
                    &&& old(self).worker_ids().contains(task_id@) ==> final(self).worker_count()
                        == old(self).worker_count() - 1
                    &&& !old(self).worker_ids().contains(task_id@) ==> final(self).worker_ids()
                        == old(self).worker_ids()
                },
                Err(e) => {
                    &&& e is TaskNotFound
                    &&& !has_task(old(self).tasks(), task_id@)
                    &&& final(self).tasks() == old(self).tasks()
                    &&& final(self).worker_ids() == old(self).worker_ids()
                },
            },
    {
        let removed = self.store.remove(task_id);
        if removed.is_none() {
            return Err(ServiceError::TaskNotFound);
        }
        proof {
            let idx = task_index(old(self).tasks(), task_id@);
            assert forall|i: int|
                0 <= i < self.tasks().len() implies (#[trigger] self.tasks()[i]).wf() by {
                if i < idx {
                    assert(self.tasks()[i] == old(self).tasks()[i]);
                } else {
                    assert(self.tasks()[i] == old(self).tasks()[i + 1]);
                }
            }
        }
        let _ = self.workers.remove(task_id);
        Ok(true)
    }

    /// Retries a task: any in-flight attempt is called off (its worker
    /// leaves the registry, for the caller to abort), the counters are
    /// cleared as by a cancellation, and the task queues again as `Pending`.
    /// An unknown identifier is an error.
    pub fn retry_upload(&mut self, task_id: &String, now: u64) -> (r: Result<
        bool,
        ServiceError,
    >)
        requires
            old(self).wf(),
        ensures
            final(self).wf(),
            final(self).gate() == old(self).gate(),
            match r {
                Ok(b) => {
                    &&& b
                    &&& has_task(old(self).tasks(), task_id@)
                    &&& final(self).tasks() == old(self).tasks().update(
                        task_index(old(self).tasks(), task_id@),
                        (UploadTask {
                            status: TaskStatus::Pending,
                            progress: 0,
                            total_transmit_bytes: 0,
                            finished_at: Some(now),
                            ..old(self).tasks()[task_index(old(self).tasks(), task_id@)]
                        }),
                    )
                    &&& (forall|k: Seq<char>|
                        #![auto]
                        final(self).worker_ids().contains(k) <==> (old(
                            self,
                        ).worker_ids().contains(k) && k != task_id@))
                    &&& old(self).worker_ids().contains(task_id@) ==> final(self).worker_count()
                        == old(self).worker_count() - 1
                    &&& !old(self).worker_ids().contains(task_id@) ==> final(self).worker_ids()
                        == old(self).worker_ids()
                },
                Err(e) => {
                    &&& e is TaskNotFound
                    &&& !has_task(old(self).tasks(), task_id@)
                    &&& final(self).tasks() == old(self).tasks()
                    &&& final(self).worker_ids() == old(self).worker_ids()
                },
            },
    {
        let t_opt = self.store.get(task_id);
        if t_opt.is_none() {
            return Err(ServiceError::TaskNotFound);
        }
        let mut c = t_opt.unwrap().clone();
        c.cancel(now);
        c.pending();
        let _ = self.store.replace(c);
        let _ = self.workers.remove(task_id);
        Ok(true)
    }

    /// The status of a stored task, or `None` for an unknown identifier.
    /// Workers poll this while parked to learn of a resume or cancellation.
    pub fn task_status(&self, task_id: &String) -> (r: Option<TaskStatus>)
        requires
            self.wf(),
        ensures
            match r {
                Some(st) => has_task(self.tasks(), task_id@) && st == self.tasks()[task_index(
                    self.tasks(),
                    task_id@,
                )].status,
                None => !has_task(self.tasks(), task_id@),
            },
    {
        match self.store.get(task_id) {
            Some(t) => Some(t.status),
            None => None,
        }
    }

    /// A worker begins its task's run: the task is `Running`, the transmit
    /// accumulator starts at zero, and the start stamp is recorded. `false`
    /// when the task is gone (cancelled before the worker got under way).
    pub fn worker_started(&mut self, task_id: &String, now: u64) -> (r: bool)
        requires
            old(self).wf(),
        ensures
            final(self).wf(),
            final(self).worker_ids() == old(self).worker_ids(),
            final(self).gate() == old(self).gate(),
            r == has_task(old(self).tasks(), task_id@),
            r ==> final(self).tasks() == old(self).tasks().update(
                task_index(old(self).tasks(), task_id@),
                (UploadTask {
                    status: TaskStatus::Running,
                    total_transmit_bytes: 0,
                    started_at: Some(now),
                    ..old(self).tasks()[task_index(old(self).tasks(), task_id@)]
                }),
            ),
            !r ==> final(self).tasks() == old(self).tasks(),
    {
        let t_opt = self.store.get(task_id);
        if t_opt.is_none() {
            return false;
        }
        let mut c = t_opt.unwrap().clone();
        c.start(now);
        let _ = self.store.replace(c);
        true
    }

    /// A parked worker finds its task queued again (`Pending` after an
    /// un-pause) and continues the same run: the task is `Running` and both
    /// counters keep the values frozen by the pause. Only a fresh admission
    /// clears them. `false` when the task is gone or not `Pending`; the
    /// worker then backs off or exits.
    pub fn worker_resumed(&mut self, task_id: &String) -> (r: bool)
        requires
            old(self).wf(),
        ensures
            final(self).wf(),
            final(self).worker_ids() == old(self).worker_ids(),
            final(self).gate() == old(self).gate(),
            r == (has_task(old(self).tasks(), task_id@) && old(self).tasks()[task_index(
                old(self).tasks(),
                task_id@,
            )].status is Pending),
            r ==> final(self).tasks() == old(self).tasks().update(
                task_index(old(self).tasks(), task_id@),
                (UploadTask {
                    status: TaskStatus::Running,
                    ..old(self).tasks()[task_index(old(self).tasks(), task_id@)]
                }),
            ),
            !r ==> final(self).tasks() == old(self).tasks(),
    {
        let t_opt = self.store.get(task_id);
        if t_opt.is_none() {
            return false;
        }
        let mut c = t_opt.unwrap().clone();
        if !c.is_pending() {
            return false;
        }
        c.resume();
        let _ = self.store.replace(c);
        true
    }

    /// The network layer accepted more bytes of the current run: the
    /// transmit accumulator grows by `delta` (saturating at its type's top).
    /// Only a `Running` task accumulates; any other is left untouched.
    pub fn worker_transmitted(&mut self, task_id: &String, delta: u64) -> (r: bool)
        requires
            old(self).wf(),
        ensures
            final(self).wf(),
            final(self).worker_ids() == old(self).worker_ids(),
            final(self).gate() == old(self).gate(),
            r == (has_task(old(self).tasks(), task_id@) && old(self).tasks()[task_index(
                old(self).tasks(),
                task_id@,
            )].status is Running),
            r ==> final(self).tasks() == old(self).tasks().update(
                task_index(old(self).tasks(), task_id@),
                ({
                    let t = old(self).tasks()[task_index(old(self).tasks(), task_id@)];
                    UploadTask {
                        total_transmit_bytes: if t.total_transmit_bytes + delta <= u64::MAX {
                            (t.total_transmit_bytes + delta) as u64
                        } else {
                            u64::MAX
                        },
                        ..t
                    }
                }),
            ),
            !r ==> final(self).tasks() == old(self).tasks(),
    {
        let t_opt = self.store.get(task_id);
        if t_opt.is_none() {
            return false;
        }
        let mut c = t_opt.unwrap().clone();
        if !c.is_running() {
            return false;
        }
        c.update_total_transmit_bytes(delta);
        let _ = self.store.replace(c);
        true
    }

    /// The worker has read `bytes_read` bytes of the source so far: the
    /// task's progress becomes that count scaled against its total size.
    /// Only a `Running` task is updated; any other is left untouched.
    pub fn worker_progress(&mut self, task_id: &String, bytes_read: u64) -> (r: bool)
        requires
            old(self).wf(),
        ensures
            final(self).wf(),
            final(self).worker_ids() == old(self).worker_ids(),
            final(self).gate() == old(self).gate(),
            r == (has_task(old(self).tasks(), task_id@) && old(self).tasks()[task_index(
                old(self).tasks(),
                task_id@,
            )].status is Running),
            r ==> final(self).tasks() == old(self).tasks().update(
                task_index(old(self).tasks(), task_id@),
                ({
                    let t = old(self).tasks()[task_index(old(self).tasks(), task_id@)];
                    UploadTask {
                        progress: crate::task::progress_permyriad(bytes_read, t.total_size),
                        ..t
                    }
                }),
            ),
            !r ==> final(self).tasks() == old(self).tasks(),
    {
        let t_opt = self.store.get(task_id);
        if t_opt.is_none() {
            return false;
        }
        let mut c = t_opt.unwrap().clone();
        if !c.is_running() {
            return false;
        }
        let p = crate::task::compute_progress(bytes_read, c.total_size);
        c.update_progress(p);
        let _ = self.store.replace(c);
        true
    }

    /// The transfer finished: the task records the server-assigned file
    /// name, drops its local path, and is `Completed` with full progress and
    /// a finish stamp. Only a `Running` task completes.
    pub fn worker_completed(&mut self, task_id: &String, filename: &String, now: u64) -> (r:
        bool)
        requires
            old(self).wf(),
        ensures
            final(self).wf(),
            final(self).worker_ids() == old(self).worker_ids(),
            final(self).gate() == old(self).gate(),
            r == (has_task(old(self).tasks(), task_id@) && old(self).tasks()[task_index(
                old(self).tasks(),
                task_id@,
            )].status is Running),
            r ==> ({
                let i = task_index(old(self).tasks(), task_id@);
                let t = old(self).tasks()[i];
                &&& final(self).tasks().len() == old(self).tasks().len()
                &&& (forall|j: int|
                    0 <= j < old(self).tasks().len() && j != i ==> final(self).tasks()[j] == old(
                        self,
                    ).tasks()[j])
                &&& ({
                    let u = final(self).tasks()[i];
                    &&& u.status is Completed
                    &&& u.progress == crate::task::PROGRESS_FULL
                    &&& u.finished_at == Some(now)
                    &&& u.video.filename@ == filename@
                    &&& u.video.path@ == Seq::<char>::empty()
                    &&& u.video.id == t.video.id
                    &&& u.video.title == t.video.title
                    &&& u.video.desc == t.video.desc
                    &&& u.video.finished_at == t.video.finished_at
                    &&& u.id == t.id
                    &&& u.user == t.user
                    &&& u.error_message == t.error_message
                    &&& u.created_at == t.created_at
                    &&& u.started_at == t.started_at
                    &&& u.retry_count == t.retry_count
                    &&& u.total_size == t.total_size
                    &&& u.total_transmit_bytes == t.total_transmit_bytes
                })
            }),
            !r ==> final(self).tasks() == old(self).tasks(),
    {
        let t_opt = self.store.get(task_id);
        if t_opt.is_none() {
            return false;
        }
        let mut c = t_opt.unwrap().clone();
        if !c.is_running() {
            return false;
        }
        c.video.filename = filename.clone();
        c.video.path = String::new();
        c.complete(now);
        let _ = self.store.replace(c);
        true
    }

    /// One admission scan of the scheduler. The concurrency cap is read as
    /// it stands now; tasks are visited in insertion order; every `Pending`
    /// task without a registered worker is admitted — registered here,
    /// spawned by the caller — until the free slots run out. Tasks are
    /// untouched: an admitted worker reports in through `worker_started`.
    ///
    /// The scan keeps the registry under the concurrency cap: it adds at
    /// most `free_slots` workers, so a registry within the cap stays there.
    pub fn tick(&mut self) -> (r: Vec<String>)
        requires
            old(self).wf(),
        ensures
            final(self).wf(),
            final(self).tasks() == old(self).tasks(),
            final(self).gate() == old(self).gate(),
            r@.map(|k: int, s: String| s@) == admit_list(
                old(self).tasks(),
                old(self).worker_ids(),
                old(self).free_slots(),
            ),
            final(self).worker_ids() == old(self).worker_ids() + r@.map(
                |k: int, s: String| s@,
            ),
            final(self).worker_count() == old(self).worker_count() + r@.len(),
            r@.len() <= old(self).free_slots(),
            old(self).worker_count() <= old(self).gate() ==> final(self).worker_count() <= old(
                self,
            ).gate(),
    {
        let ghost ts0 = self.tasks();
        let ghost reg0 = self.worker_ids();
        let ghost free0 = self.free_slots();
        proof {
            self.store.lemma_ids_distinct();
        }
        let running = self.workers.len();
        let cap = self.max_running as usize;
        let mut admitted: Vec<String> = Vec::new();
        if running >= cap {
            proof {
                assert(free0 == 0);
                assert(admit_list(ts0, reg0, free0) =~= Seq::<Seq<char>>::empty());
                assert(admitted@.map(|k: int, s: String| s@) =~= Seq::<Seq<char>>::empty());
                assert(final(self).worker_ids() =~= reg0 + admitted@.map(
                    |k: int, s: String| s@,
                ));
            }
            return admitted;
        }
        let mut remain: usize = cap - running;
        let n = self.store.len();
        let mut i: usize = 0;
        proof {
            assert(remain == free0);
            assert(ts0.skip(0) =~= ts0);
            assert(admitted@.map(|k: int, s: String| s@) =~= Seq::<Seq<char>>::empty());
            assert(reg0 + admitted@.map(|k: int, s: String| s@) =~= reg0);
        }
        while i < n && remain > 0
            invariant
                old(self).wf(),
                self.wf(),
                ts0 == old(self).tasks(),
                reg0 == old(self).worker_ids(),
                free0 == old(self).free_slots(),
                ids_distinct(ts0),
                self.store == old(self).store,
                self.max_running == old(self).max_running,
                n == ts0.len(),
                i <= n,
                remain + admitted@.len() == free0,
                self.worker_ids() == reg0 + admitted@.map(|k: int, s: String| s@),
                admit_list(ts0, reg0, free0) == admitted@.map(|k: int, s: String| s@)
                    + admit_list(ts0.skip(i as int), reg0, remain as nat),
                forall|a: int|
                    #![trigger admitted@[a]]
                    0 <= a < admitted@.len() ==> exists|j: int|
                        0 <= j < i && ts0[j].id@ == admitted@[a]@,
            decreases n - i,
        {
            let ghost pre = admitted@.map(|k0: int, s: String| s@);
            let t_opt = self.store.get_at(i);
            let t = t_opt.unwrap();
            let pend = t.is_pending();
            let id = t.id.clone();
            proof {
                assert(ts0.skip(i as int)[0] == ts0[i as int]);
                assert(ts0.skip(i as int).skip(1) =~= ts0.skip(i as int + 1));
            }
            if pend && !self.workers.contains(&id) {
                proof {
                    // The live registry differs from the scan's starting
                    // registry only by identifiers of earlier tasks, and
                    // those differ from the scanned task's identifier.
                    if reg0.contains(id@) {
                        assert(self.worker_ids().contains(id@)) by {
                            let a = choose|a: int| 0 <= a < reg0.len() && reg0[a] == id@;
                            assert(self.worker_ids()[a] == id@);
                        }
                        assert(false);
                    }
                }
                let _ = self.workers.insert(id.clone());
                admitted.push(id);
                remain = remain - 1;
                proof {
                    assert(admitted@.map(|k0: int, s: String| s@) =~= pre.push(ts0[i as int].id@));
                    assert(self.worker_ids() =~= reg0 + admitted@.map(|k0: int, s: String| s@));
                    assert(seq![ts0[i as int].id@] + admit_list(
                        ts0.skip(i as int + 1),
                        reg0,
                        remain as nat,
                    ) =~= admit_list(ts0.skip(i as int), reg0, remain as nat + 1));
                    assert(admitted@.map(|k0: int, s: String| s@) + admit_list(
                        ts0.skip(i as int + 1),
                        reg0,
                        remain as nat,
                    ) =~= pre + admit_list(ts0.skip(i as int), reg0, remain as nat + 1));
                }
            } else {
                proof {
                    if !pend {
                        assert(admit_list(ts0.skip(i as int), reg0, remain as nat) == admit_list(
                            ts0.skip(i as int + 1),
                            reg0,
                            remain as nat,
                        ));
                    } else {
                        // The live registry holds this identifier; the scan's
                        // starting registry must as well, since every later
                        // registration names an earlier task.
                        assert(self.worker_ids().contains(id@));
                        assert(reg0.contains(id@)) by {
                            let a = choose|a: int|
                                0 <= a < self.worker_ids().len() && self.worker_ids()[a] == id@;
                            if a < reg0.len() {
                                assert(reg0[a] == id@);
                            } else {
                                let p = admitted@.map(|k0: int, s: String| s@);
                                assert(p[a - reg0.len()] == id@);
                                assert(admitted@[a - reg0.len()]@ == id@);
                                let j = choose|j: int|
                                    0 <= j < i && ts0[j].id@ == admitted@[a - reg0.len()]@;
                                assert(ts0[j].id@ == ts0[i as int].id@);
                                assert(false);
                            }
                        }
                    }
                }
            }
            i = i + 1;
        }
        proof {
            if remain == 0 {
                assert(admit_list(ts0.skip(i as int), reg0, 0nat) =~= Seq::<Seq<char>>::empty());
            } else {
                assert(i == n);
                assert(ts0.skip(n as int).len() == 0);
                assert(admit_list(ts0.skip(n as int), reg0, remain as nat) =~= Seq::<
                    Seq<char>,
                >::empty());
            }
            assert(admitted@.map(|k0: int, s: String| s@) + Seq::<Seq<char>>::empty()
                =~= admitted@.map(|k0: int, s: String| s@));
            lemma_admit_list_len(ts0, reg0, free0);
        }
        admitted
    }

    /// A snapshot of the queue, in insertion order. Along the way the
    /// registry is reclaimed: the worker entry of every `Completed` task is
    /// dropped, since such a worker has finished and holds no slot worth
    /// counting.
    pub fn get_upload_queue(&mut self) -> (r: Vec<UploadTask>)
        requires
            old(self).wf(),
        ensures
            final(self).wf(),
            final(self).tasks() == old(self).tasks(),
            final(self).gate() == old(self).gate(),
            r@ == old(self).tasks(),
            forall|i: int|
                0 <= i < r@.len() ==> (#[trigger] r@[i]).progress
                    <= crate::task::PROGRESS_FULL,
            final(self).worker_count() <= old(self).worker_count(),
            forall|k: Seq<char>|
                #![auto]
                final(self).worker_ids().contains(k) <==> (old(self).worker_ids().contains(k)
                    && !(has_task(old(self).tasks(), k) && old(self).tasks()[task_index(
                    old(self).tasks(),
                    k,
                )].status is Completed)),
    {
        let ghost ts0 = self.tasks();
        let ghost reg0 = self.worker_ids();
        proof {
            self.store.lemma_ids_distinct();
        }
        let n = self.store.len();
        let mut out: Vec<UploadTask> = Vec::new();
        let mut i: usize = 0;
        proof {
            assert(out@ =~= ts0.take(0));
        }
        while i < n
            invariant
                old(self).wf(),
                self.wf(),
                ts0 == old(self).tasks(),
                reg0 == old(self).worker_ids(),
                ids_distinct(ts0),
                self.store == old(self).store,
                self.max_running == old(self).max_running,
                n == ts0.len(),
                i <= n,
                out@ == ts0.take(i as int),
                self.worker_count() <= old(self).worker_count(),
                forall|k: Seq<char>|
                    #![auto]
                    self.worker_ids().contains(k) <==> (reg0.contains(k) && !(exists|j: int|
                        0 <= j < i && ts0[j].id@ == k && ts0[j].status is Completed)),
            decreases n - i,
        {
            let ghost live_pre = self.worker_ids();
            let ghost iv = i as int;
            proof {
                assert(forall|k: Seq<char>|
                    #![auto]
                    live_pre.contains(k) <==> (reg0.contains(k) && !(exists|j: int|
                        0 <= j < iv && ts0[j].id@ == k && ts0[j].status is Completed)));
            }
            let t_opt = self.store.get_at(i);
            let t = t_opt.unwrap();
            let c = t.clone();
            let completed = c.is_completed();
            let id = c.id.clone();
            out.push(c);
            proof {
                assert(out@ =~= ts0.take(i as int + 1));
            }
            if completed {
                let _ = self.workers.remove(&id);
            }
            proof {
                assert forall|k: Seq<char>|
                    #![auto]
                    self.worker_ids().contains(k) <==> (reg0.contains(k) && !(exists|j: int|
                        0 <= j < iv + 1 && ts0[j].id@ == k && ts0[j].status is Completed)) by {
                    if completed {
                        if k == ts0[iv].id@ {
                            assert(0 <= iv < iv + 1 && ts0[iv].id@ == k && ts0[iv].status
                                is Completed);
                            assert(!self.worker_ids().contains(k));
                        } else {
                            assert(self.worker_ids().contains(k) <==> live_pre.contains(k));
                            if exists|j: int|
                                0 <= j < iv + 1 && ts0[j].id@ == k && ts0[j].status
                                    is Completed {
                                let j = choose|j: int|
                                    0 <= j < iv + 1 && ts0[j].id@ == k && ts0[j].status
                                        is Completed;
                                assert(j != iv);
                                assert(0 <= j < iv && ts0[j].id@ == k && ts0[j].status
                                    is Completed);
                            }
                            if exists|j: int|
                                0 <= j < iv && ts0[j].id@ == k && ts0[j].status is Completed {
                                let j = choose|j: int|
                                    0 <= j < iv && ts0[j].id@ == k && ts0[j].status
                                        is Completed;
                                assert(0 <= j < iv + 1 && ts0[j].id@ == k && ts0[j].status
                                    is Completed);
                            }
                        }
                    } else {
                        assert(self.worker_ids() == live_pre);
                        if exists|j: int|
                            0 <= j < iv + 1 && ts0[j].id@ == k && ts0[j].status is Completed {
                            let j = choose|j: int|
                                0 <= j < iv + 1 && ts0[j].id@ == k && ts0[j].status
                                    is Completed;
                            assert(j != iv);
                            assert(0 <= j < iv && ts0[j].id@ == k && ts0[j].status
                                is Completed);
                        }
                        if exists|j: int|
                            0 <= j < iv && ts0[j].id@ == k && ts0[j].status is Completed {
                            let j = choose|j: int|
                                0 <= j < iv && ts0[j].id@ == k && ts0[j].status is Completed;
                            assert(0 <= j < iv + 1 && ts0[j].id@ == k && ts0[j].status
                                is Completed);
                        }
                    }
                }
            }
            i = i + 1;
        }
        proof {
            assert(ts0.take(n as int) =~= ts0);
            assert forall|k: Seq<char>|
                #![auto]
                final(self).worker_ids().contains(k) <==> (reg0.contains(k) && !(has_task(ts0, k)
                    && ts0[task_index(ts0, k)].status is Completed)) by {
                if reg0.contains(k) {
                    if has_task(ts0, k) && ts0[task_index(ts0, k)].status is Completed {
                        let j = task_index(ts0, k);
                        assert(0 <= j < n && ts0[j].id@ == k && ts0[j].status is Completed);
                    }
                    if exists|j: int| 0 <= j < n && ts0[j].id@ == k && ts0[j].status
                        is Completed {
                        let j = choose|j: int|
                            0 <= j < n && ts0[j].id@ == k && ts0[j].status is Completed;
                        assert(has_task(ts0, k));
                        assert(ts0[task_index(ts0, k)].id@ == k);
                        assert(task_index(ts0, k) == j);
                    }
                }
            }
        }
        out
    }
}

} // verus!
